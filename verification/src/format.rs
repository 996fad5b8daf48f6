//! Format negotiation: name lookup in the snapshot and the channel-count
//! compatibility rule for a chosen capture/render pair.

use vstd::prelude::*;
use crate::endpoint::{Directory, Endpoint, Role, StreamFormat};
use crate::errors::AudioError;

verus! {

/// The first endpoint with this role and name, in enumeration order.
/// Duplicate names within a role are disambiguated by first match.
pub open spec fn find_endpoint(es: Seq<Endpoint>, role: Role, name: Seq<char>) -> Option<Endpoint>
    decreases es.len(),
{
    if es.len() == 0 {
        None
    } else if es.first().role == role && es.first().name@ == name {
        Some(es.first())
    } else {
        find_endpoint(es.drop_first(), role, name)
    }
}

/// What negotiation yields on this snapshot for this pair of names: each
/// side's own default configuration, accepted only when the two channel
/// counts agree, in which case the resolved format is the capture side's
/// default. Either lookup missing its name fails with `DeviceNotFound` for
/// that role (the capture side is checked first); differing channel counts
/// fail with `FormatMismatch` carrying both counts.
pub open spec fn resolve_format_spec(
    es: Seq<Endpoint>,
    input_name: Seq<char>,
    output_name: Seq<char>,
) -> Result<StreamFormat, AudioError> {
    match find_endpoint(es, Role::Capture, input_name) {
        None => Err(AudioError::DeviceNotFound(Role::Capture)),
        Some(inp) => match find_endpoint(es, Role::Render, output_name) {
            None => Err(AudioError::DeviceNotFound(Role::Render)),
            Some(outp) => if inp.default_format.channel_count == outp.default_format.channel_count {
                Ok(inp.default_format)
            } else {
                Err(AudioError::FormatMismatch(
                    inp.default_format.channel_count,
                    outp.default_format.channel_count,
                ))
            },
        },
    }
}

impl Directory {
    /// The index of the first endpoint with this role and name, if any.
    pub fn find(&self, role: Role, name: &String) -> (r: Option<usize>)
        ensures
            match r {
                Some(i) => i < self.endpoints@.len() && find_endpoint(
                    self.endpoints@,
                    role,
                    name@,
                ) == Some(self.endpoints@[i as int]),
                None => find_endpoint(self.endpoints@, role, name@) is None,
            },
    {
        let mut i: usize = 0;
        proof {
            assert(self.endpoints@.skip(0) =~= self.endpoints@);
        }
        while i < self.endpoints.len()
            invariant
                i <= self.endpoints@.len(),
                find_endpoint(self.endpoints@, role, name@) == find_endpoint(
                    self.endpoints@.skip(i as int),
                    role,
                    name@,
                ),
            decreases self.endpoints@.len() - i,
        {
            let e = &self.endpoints[i];
            proof {
                assert(self.endpoints@.skip(i as int).first() == self.endpoints@[i as int]);
            }
            if e.role == role && e.name == *name {
                return Some(i);
            }
            proof {
                assert(self.endpoints@.skip(i as int).drop_first() =~= self.endpoints@.skip(
                    i + 1,
                ));
            }
            i += 1;
        }
        None
    }

    /// Resolves a concrete stream format for the named capture/render pair:
    /// each device's own default configuration, required to agree exactly on
    /// channel count. No resampling and no channel remixing is attempted, and
    /// nothing beyond the lookups themselves is touched: on any failure no
    /// stream exists to be constructed.
    pub fn resolve_format(&self, input_name: &String, output_name: &String) -> (r: Result<
        StreamFormat,
        AudioError,
    >)
        ensures
            r == resolve_format_spec(self.endpoints@, input_name@, output_name@),
    {
        let inp = match self.find(Role::Capture, input_name) {
            Some(i) => i,
            None => {
                return Err(AudioError::DeviceNotFound(Role::Capture));
            },
        };
        let outp = match self.find(Role::Render, output_name) {
            Some(i) => i,
            None => {
                return Err(AudioError::DeviceNotFound(Role::Render));
            },
        };
        let in_format = self.endpoints[inp].default_format;
        let out_format = self.endpoints[outp].default_format;
        if in_format.channel_count == out_format.channel_count {
            Ok(in_format)
        } else {
            Err(AudioError::FormatMismatch(in_format.channel_count, out_format.channel_count))
        }
    }
}

/// Negotiation succeeds on every pair whose endpoints are both present and
/// whose default channel counts agree, and the resolved format's channel
/// count equals both devices' default channel count.
pub proof fn lemma_matching_pair_resolves(
    es: Seq<Endpoint>,
    input_name: Seq<char>,
    output_name: Seq<char>,
)
    requires
        find_endpoint(es, Role::Capture, input_name) is Some,
        find_endpoint(es, Role::Render, output_name) is Some,
        find_endpoint(es, Role::Capture, input_name)->0.default_format.channel_count
            == find_endpoint(es, Role::Render, output_name)->0.default_format.channel_count,
    ensures
        resolve_format_spec(es, input_name, output_name) is Ok,
        resolve_format_spec(es, input_name, output_name)->Ok_0.channel_count == find_endpoint(
            es,
            Role::Capture,
            input_name,
        )->0.default_format.channel_count,
        resolve_format_spec(es, input_name, output_name)->Ok_0.channel_count == find_endpoint(
            es,
            Role::Render,
            output_name,
        )->0.default_format.channel_count,
{
}

/// A name with no matching active endpoint of the expected role is rejected
/// with `DeviceNotFound` for that role, the capture side checked first. No
/// format resolves, so nothing downstream can build a stream or start a
/// session from the pair.
pub proof fn lemma_unknown_device_rejected(
    es: Seq<Endpoint>,
    input_name: Seq<char>,
    output_name: Seq<char>,
)
    requires
        find_endpoint(es, Role::Capture, input_name) is None || find_endpoint(
            es,
            Role::Render,
            output_name,
        ) is None,
    ensures
        resolve_format_spec(es, input_name, output_name) is Err,
        find_endpoint(es, Role::Capture, input_name) is None ==> resolve_format_spec(
            es,
            input_name,
            output_name,
        ) == Err::<StreamFormat, AudioError>(AudioError::DeviceNotFound(Role::Capture)),
        find_endpoint(es, Role::Capture, input_name) is Some ==> resolve_format_spec(
            es,
            input_name,
            output_name,
        ) == Err::<StreamFormat, AudioError>(AudioError::DeviceNotFound(Role::Render)),
{
}

/// Negotiation fails, with `FormatMismatch` carrying both counts, on every
/// pair whose endpoints are both present but whose default channel counts
/// differ; no format comes back, so nothing downstream can construct a
/// stream from one.
pub proof fn lemma_mismatched_pair_rejected(
    es: Seq<Endpoint>,
    input_name: Seq<char>,
    output_name: Seq<char>,
)
    requires
        find_endpoint(es, Role::Capture, input_name) is Some,
        find_endpoint(es, Role::Render, output_name) is Some,
        find_endpoint(es, Role::Capture, input_name)->0.default_format.channel_count
            != find_endpoint(es, Role::Render, output_name)->0.default_format.channel_count,
    ensures
        resolve_format_spec(es, input_name, output_name) == Err::<StreamFormat, AudioError>(
            AudioError::FormatMismatch(
                find_endpoint(es, Role::Capture, input_name)->0.default_format.channel_count,
                find_endpoint(es, Role::Render, output_name)->0.default_format.channel_count,
            ),
        ),
{
}

} // verus!
