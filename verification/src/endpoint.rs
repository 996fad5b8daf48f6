//! The endpoint directory: a point-in-time snapshot of the host's active
//! audio endpoints, and the enumeration that reads names out of it.

use vstd::prelude::*;

verus! {

/// Whether an endpoint records audio (capture) or plays it (render).
#[derive(Clone, Copy, PartialEq, Eq, Structural, Debug)]
pub enum Role {
    Capture,
    Render,
}

/// How one sample is represented in a stream.
#[derive(Clone, Copy, PartialEq, Eq, Structural, Debug)]
pub enum SampleRepr {
    F32,
    I16,
}

/// A concrete stream configuration: interleaved channels at a fixed rate.
#[derive(Clone, Copy, PartialEq, Eq, Structural, Debug)]
pub struct StreamFormat {
    pub channel_count: u16,
    pub sample_rate: u32,
    pub representation: SampleRepr,
}

/// One active endpoint. Its identity is the (role, name) pair; the host does
/// not guarantee names unique within a role, so lookups go to the first match
/// in enumeration order.
#[derive(Debug)]
pub struct Endpoint {
    pub role: Role,
    pub name: String,
    pub default_format: StreamFormat,
}

/// A snapshot of the host's active endpoints, in host enumeration order.
/// It is point-in-time data: nothing is cached across snapshots.
#[derive(Debug)]
pub struct Directory {
    pub endpoints: Vec<Endpoint>,
}

/// The views of a list of names.
pub open spec fn views_of(names: Seq<String>) -> Seq<Seq<char>> {
    names.map_values(|s: String| s@)
}

/// The names of the endpoints with this role, in enumeration order,
/// kept exactly as the snapshot holds them: no entry added, dropped or
/// deduplicated.
pub open spec fn role_names(es: Seq<Endpoint>, role: Role) -> Seq<Seq<char>>
    decreases es.len(),
{
    if es.len() == 0 {
        Seq::empty()
    } else if es.last().role == role {
        role_names(es.drop_last(), role).push(es.last().name@)
    } else {
        role_names(es.drop_last(), role)
    }
}

/// How often a name occurs in a list of names.
pub open spec fn count_name(names: Seq<Seq<char>>, n: Seq<char>) -> nat
    decreases names.len(),
{
    if names.len() == 0 {
        0
    } else {
        count_name(names.drop_last(), n) + (if names.last() == n {
            1nat
        } else {
            0nat
        })
    }
}

/// How many endpoints of this role carry this name.
pub open spec fn count_endpoint(es: Seq<Endpoint>, role: Role, n: Seq<char>) -> nat
    decreases es.len(),
{
    if es.len() == 0 {
        0
    } else {
        count_endpoint(es.drop_last(), role, n) + (if es.last().role == role
            && es.last().name@ == n {
            1nat
        } else {
            0nat
        })
    }
}

/// Enumeration is pass-through: for each role, a name is listed exactly as
/// often as an endpoint of that role carries it. No duplicate is invented
/// beyond what the snapshot itself holds, and none is removed.
pub proof fn lemma_enumeration_passthrough(es: Seq<Endpoint>, role: Role, n: Seq<char>)
    ensures
        count_name(role_names(es, role), n) == count_endpoint(es, role, n),
    decreases es.len(),
{
    if es.len() == 0 {
    } else {
        lemma_enumeration_passthrough(es.drop_last(), role, n);
        if es.last().role == role {
            let prev = role_names(es.drop_last(), role);
            assert(role_names(es, role) == prev.push(es.last().name@));
            assert(prev.push(es.last().name@).drop_last() =~= prev);
            assert(prev.push(es.last().name@).last() == es.last().name@);
        }
    }
}

impl Directory {
    /// The names of the active endpoints with this role, in enumeration order.
    pub fn names_with_role(&self, role: Role) -> (r: Vec<String>)
        ensures
            views_of(r@) == role_names(self.endpoints@, role),
    {
        let mut out: Vec<String> = Vec::new();
        let mut i: usize = 0;
        while i < self.endpoints.len()
            invariant
                i <= self.endpoints@.len(),
                views_of(out@) == role_names(self.endpoints@.take(i as int), role),
            decreases self.endpoints@.len() - i,
        {
            let ghost prefix = self.endpoints@.take(i as int);
            let ghost old_out = out@;
            let e = &self.endpoints[i];
            if e.role == role {
                out.push(e.name.clone());
            }
            proof {
                assert(self.endpoints@.take(i + 1).drop_last() =~= prefix);
                assert(self.endpoints@.take(i + 1).last() == self.endpoints@[i as int]);
                if e.role == role {
                    assert(views_of(out@) =~= views_of(old_out).push(e.name@));
                }
            }
            i += 1;
        }
        proof {
            assert(self.endpoints@.take(self.endpoints@.len() as int) =~= self.endpoints@);
        }
        out
    }

    /// The names of the active capture endpoints and of the active render
    /// endpoints, each list in host enumeration order, passed through
    /// unchanged. A directory-level failure never reaches this point: the
    /// snapshot in hand is already complete.
    pub fn list_endpoints(&self) -> (r: (Vec<String>, Vec<String>))
        ensures
            views_of(r.0@) == role_names(self.endpoints@, Role::Capture),
            views_of(r.1@) == role_names(self.endpoints@, Role::Render),
    {
        (self.names_with_role(Role::Capture), self.names_with_role(Role::Render))
    }
}

/// The names that could be read, in order, with the failed lookups left out.
pub open spec fn named_of(lookups: Seq<Option<String>>) -> Seq<Seq<char>>
    decreases lookups.len(),
{
    if lookups.len() == 0 {
        Seq::empty()
    } else {
        match lookups.last() {
            Some(n) => named_of(lookups.drop_last()).push(n@),
            None => named_of(lookups.drop_last()),
        }
    }
}

/// Folds per-device name lookups into the listed names: a device whose
/// friendly name could not be read is skipped silently, never failing the
/// enumeration; every readable name is kept in order.
pub fn collect_named(lookups: &Vec<Option<String>>) -> (r: Vec<String>)
    ensures
        views_of(r@) == named_of(lookups@),
{
    let mut out: Vec<String> = Vec::new();
    let mut i: usize = 0;
    while i < lookups.len()
        invariant
            i <= lookups@.len(),
            views_of(out@) == named_of(lookups@.take(i as int)),
        decreases lookups@.len() - i,
    {
        let ghost prefix = lookups@.take(i as int);
        let ghost old_out = out@;
        match &lookups[i] {
            Some(n) => {
                out.push(n.clone());
                proof {
                    assert(views_of(out@) =~= views_of(old_out).push(n@));
                }
            },
            None => {},
        }
        proof {
            assert(lookups@.take(i + 1).drop_last() =~= prefix);
            assert(lookups@.take(i + 1).last() == lookups@[i as int]);
        }
        i += 1;
    }
    proof {
        assert(lookups@.take(lookups@.len() as int) =~= lookups@);
    }
    out
}

} // verus!
