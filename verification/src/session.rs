//! The relay session: validation of the chosen pair, the per-delivery step
//! the capture callback runs, and the guarantees a whole run of deliveries
//! gives.
//!
//! A session is fire-and-forget: the layer that spawns it returns to its
//! caller at once, and failures after the spawn are only reported to an
//! observability sink. The decisions — which pair is legal, what one
//! delivery does to the queue — are all here; the spawning, the sleeping and
//! the host callbacks stay outside.

use vstd::prelude::*;
use crate::endpoint::{Directory, StreamFormat};
use crate::errors::AudioError;
use crate::format::resolve_format_spec;
use crate::relay::{queue_model, source_model, DeliveryOutcome, PlaybackSink};

verus! {

/// One live relay: the chosen pair, the negotiated format, the playback
/// queue shared with the render side, and whether the capture stream runs.
#[derive(Debug)]
pub struct RelaySession {
    pub input_name: String,
    pub output_name: String,
    pub format: StreamFormat,
    pub sink: PlaybackSink,
    pub running: bool,
}

/// The views of a run of batches.
pub open spec fn batch_views(batches: Seq<Vec<u32>>) -> Seq<Seq<u32>> {
    batches.map_values(|b: Vec<u32>| b@)
}

/// The queue after a run of deliveries under one format: each non-empty
/// batch appends exactly one source wrapping its samples, in delivery
/// order; each empty batch leaves the queue as it was.
pub open spec fn delivered_queue(
    init: Seq<(u16, u32, Seq<u32>)>,
    fmt: StreamFormat,
    batches: Seq<Seq<u32>>,
) -> Seq<(u16, u32, Seq<u32>)>
    decreases batches.len(),
{
    if batches.len() == 0 {
        init
    } else {
        let prev = delivered_queue(init, fmt, batches.drop_last());
        if batches.last().len() == 0 {
            prev
        } else {
            prev.push(source_model(fmt, batches.last()))
        }
    }
}

impl RelaySession {
    /// Every queued source carries the session's negotiated channel count
    /// and sample rate: sample values pass through unmodified, so the
    /// representation the render side sees is the one capture delivered.
    pub open spec fn wf(self) -> bool {
        forall|j: int|
            0 <= j < queue_model(self.sink).len() ==> (#[trigger] queue_model(self.sink)[j]).0
                == self.format.channel_count && queue_model(self.sink)[j].1
                == self.format.sample_rate
    }

    /// Validates the named pair against the snapshot and, only on success,
    /// constructs the session: the negotiated format, an empty live queue,
    /// and a running capture stream. On failure the matching negotiation
    /// error comes back and no session — so no queue and no stream — ever
    /// exists; in particular an unknown name fails with `DeviceNotFound`
    /// before anything is built.
    pub fn start_session(dir: &Directory, input_name: &String, output_name: &String) -> (r: Result<
        RelaySession,
        AudioError,
    >)
        ensures
            match r {
                Ok(s) => {
                    &&& resolve_format_spec(dir.endpoints@, input_name@, output_name@)
                        == Ok::<StreamFormat, AudioError>(s.format)
                    &&& s.input_name@ == input_name@
                    &&& s.output_name@ == output_name@
                    &&& queue_model(s.sink) == Seq::<(u16, u32, Seq<u32>)>::empty()
                    &&& s.sink.paused == false
                    &&& s.running == true
                    &&& s.wf()
                },
                Err(e) => resolve_format_spec(dir.endpoints@, input_name@, output_name@)
                    == Err::<StreamFormat, AudioError>(e),
            },
    {
        let format = match dir.resolve_format(input_name, output_name) {
            Ok(f) => f,
            Err(e) => {
                return Err(e);
            },
        };
        Ok(
            RelaySession {
                input_name: input_name.clone(),
                output_name: output_name.clone(),
                format,
                sink: PlaybackSink::new(),
                running: true,
            },
        )
    }

    /// One capture delivery, run on the host's real-time callback: forwarded
    /// to the sink under the session's own format, leaving the pair, the
    /// format and the running flag untouched. An empty batch mutates nothing
    /// and is no error; a non-empty one is appended as exactly one source
    /// and playback is left unpaused. The format invariant is preserved.
    pub fn on_batch(&mut self, batch: &Vec<u32>) -> (r: DeliveryOutcome)
        ensures
            final(self).input_name == old(self).input_name,
            final(self).output_name == old(self).output_name,
            final(self).format == old(self).format,
            final(self).running == old(self).running,
            batch@.len() == 0 ==> final(self).sink == old(self).sink && r
                == DeliveryOutcome::EmptyBatch,
            batch@.len() > 0 ==> queue_model(final(self).sink) == queue_model(
                old(self).sink,
            ).push(source_model(old(self).format, batch@)) && final(self).sink.paused == false
                && r == DeliveryOutcome::Queued,
            old(self).wf() ==> final(self).wf(),
    {
        let fmt = self.format;
        let r = self.sink.deliver(fmt, batch);
        proof {
            if old(self).wf() && batch@.len() > 0 {
                assert forall|j: int| 0 <= j < queue_model(self.sink).len() implies (
                #[trigger] queue_model(self.sink)[j]).0 == self.format.channel_count
                    && queue_model(self.sink)[j].1 == self.format.sample_rate by {
                    if j < queue_model(old(self).sink).len() {
                        assert(queue_model(self.sink)[j] == queue_model(old(self).sink)[j]);
                    } else {
                        assert(queue_model(self.sink)[j] == source_model(old(self).format, batch@));
                    }
                }
            }
        }
        r
    }

    /// A run of consecutive deliveries, in capture order. The queue ends as
    /// `delivered_queue` says: one source per non-empty batch, appended in
    /// delivery order, empty batches skipped; playback is paused afterwards
    /// only if it was paused before and no batch was non-empty.
    pub fn on_batches(&mut self, batches: &Vec<Vec<u32>>)
        ensures
            final(self).input_name == old(self).input_name,
            final(self).output_name == old(self).output_name,
            final(self).format == old(self).format,
            final(self).running == old(self).running,
            queue_model(final(self).sink) == delivered_queue(
                queue_model(old(self).sink),
                old(self).format,
                batch_views(batches@),
            ),
            final(self).sink.paused == (old(self).sink.paused && (forall|j: int|
                0 <= j < batches@.len() ==> (#[trigger] batches@[j])@.len() == 0)),
            old(self).wf() ==> final(self).wf(),
    {
        let mut i: usize = 0;
        while i < batches.len()
            invariant
                i <= batches@.len(),
                self.input_name == old(self).input_name,
                self.output_name == old(self).output_name,
                self.format == old(self).format,
                self.running == old(self).running,
                queue_model(self.sink) == delivered_queue(
                    queue_model(old(self).sink),
                    old(self).format,
                    batch_views(batches@).take(i as int),
                ),
                self.sink.paused == (old(self).sink.paused && (forall|j: int|
                    0 <= j < i ==> (#[trigger] batches@[j])@.len() == 0)),
                old(self).wf() ==> self.wf(),
            decreases batches@.len() - i,
        {
            let ghost taken = batch_views(batches@).take(i as int);
            self.on_batch(&batches[i]);
            proof {
                assert(batch_views(batches@).take(i + 1).drop_last() =~= taken);
                assert(batch_views(batches@).take(i + 1).last() == batches@[i as int]@);
            }
            i += 1;
        }
        proof {
            assert(batch_views(batches@).take(batches@.len() as int) =~= batch_views(batches@));
        }
    }
}

/// Delivery order is preserved: after a run of non-empty batches the queue
/// holds every source it held before, unchanged and in place, followed by
/// exactly one source per batch, in delivery order, each wrapping that
/// batch's samples at the format's channel count and sample rate.
pub proof fn lemma_delivery_order(
    init: Seq<(u16, u32, Seq<u32>)>,
    fmt: StreamFormat,
    batches: Seq<Seq<u32>>,
)
    requires
        forall|j: int| 0 <= j < batches.len() ==> (#[trigger] batches[j]).len() > 0,
    ensures
        delivered_queue(init, fmt, batches).len() == init.len() + batches.len(),
        forall|j: int| 0 <= j < init.len() ==> #[trigger] delivered_queue(init, fmt, batches)[j]
            == init[j],
        forall|j: int|
            0 <= j < batches.len() ==> #[trigger] delivered_queue(init, fmt, batches)[init.len()
                + j] == source_model(fmt, batches[j]),
    decreases batches.len(),
{
    if batches.len() == 0 {
    } else {
        lemma_delivery_order(init, fmt, batches.drop_last());
    }
}

} // verus!
