//! The relay pipeline's playback side: the queue of playable sources that
//! each delivered frame batch is appended to.
//!
//! Samples are carried as raw 32-bit words and pass through unmodified: no
//! gain, no clipping, no representation conversion. The layer that talks to
//! the host encodes each delivered sample into one word (for example a
//! 32-bit float's bit pattern) and decodes it again on the render side.

use vstd::prelude::*;
use crate::endpoint::StreamFormat;

verus! {

/// One playable chunk handed to the sink: interleaved raw samples tagged
/// with the channel count and sample rate they were captured under.
#[derive(Debug)]
pub struct PlaybackSource {
    pub channel_count: u16,
    pub sample_rate: u32,
    pub samples: Vec<u32>,
}

/// What one queued source is at the spec level: its channel count, its
/// sample rate, and its samples.
pub open spec fn source_view(s: PlaybackSource) -> (u16, u32, Seq<u32>) {
    (s.channel_count, s.sample_rate, s.samples@)
}

/// The source that wraps one delivered batch under a negotiated format.
pub open spec fn source_model(fmt: StreamFormat, batch: Seq<u32>) -> (u16, u32, Seq<u32>) {
    (fmt.channel_count, fmt.sample_rate, batch)
}

/// The playback queue shared between the capture side and the render side:
/// appended sources play in append order.
#[derive(Debug)]
pub struct PlaybackSink {
    pub sources: Vec<PlaybackSource>,
    pub paused: bool,
}

/// The queued sources, oldest first.
pub open spec fn queue_model(sink: PlaybackSink) -> Seq<(u16, u32, Seq<u32>)> {
    sink.sources@.map_values(|s: PlaybackSource| source_view(s))
}

/// Outcome of one delivery callback invocation. Neither is an error: an
/// empty batch is noted and ignored by design.
#[derive(Clone, Copy, PartialEq, Eq, Structural, Debug)]
pub enum DeliveryOutcome {
    /// The batch was empty: nothing was queued and the sink is untouched.
    EmptyBatch,
    /// The samples were wrapped into one source and appended; playback was
    /// resumed if it had been paused.
    Queued,
}

/// An element-for-element copy of a sample batch, made before the delivery
/// callback returns: the batch itself is owned by the host and dies with the
/// callback.
fn copy_samples(batch: &Vec<u32>) -> (r: Vec<u32>)
    ensures
        r@ == batch@,
{
    let mut out: Vec<u32> = Vec::new();
    let mut i: usize = 0;
    while i < batch.len()
        invariant
            i <= batch@.len(),
            out@ == batch@.take(i as int),
        decreases batch@.len() - i,
    {
        out.push(batch[i]);
        proof {
            assert(batch@.take(i + 1).drop_last() =~= batch@.take(i as int));
            assert(out@ =~= batch@.take(i + 1));
        }
        i += 1;
    }
    proof {
        assert(batch@.take(batch@.len() as int) =~= batch@);
    }
    out
}

impl PlaybackSink {
    /// A fresh sink: nothing queued, playback live.
    pub fn new() -> (r: PlaybackSink)
        ensures
            queue_model(r) == Seq::<(u16, u32, Seq<u32>)>::empty(),
            r.paused == false,
    {
        let sink = PlaybackSink { sources: Vec::new(), paused: false };
        proof {
            assert(queue_model(sink) =~= Seq::<(u16, u32, Seq<u32>)>::empty());
        }
        sink
    }

    /// One delivery. An empty batch is a no-op: no queue mutation and no
    /// error. A non-empty batch of N samples is appended as exactly one
    /// source of those N samples, wrapped with the format's channel count
    /// and sample rate, after which playback is not paused. Earlier sources
    /// are never reordered or touched.
    pub fn deliver(&mut self, fmt: StreamFormat, batch: &Vec<u32>) -> (r: DeliveryOutcome)
        ensures
            batch@.len() == 0 ==> *final(self) == *old(self) && r == DeliveryOutcome::EmptyBatch,
            batch@.len() > 0 ==> queue_model(*final(self)) == queue_model(*old(self)).push(
                source_model(fmt, batch@),
            ) && final(self).paused == false && r == DeliveryOutcome::Queued,
    {
        if batch.len() == 0 {
            return DeliveryOutcome::EmptyBatch;
        }
        let samples = copy_samples(batch);
        let source = PlaybackSource {
            channel_count: fmt.channel_count,
            sample_rate: fmt.sample_rate,
            samples,
        };
        self.sources.push(source);
        if self.paused {
            self.paused = false;
        }
        proof {
            assert(queue_model(*self) =~= queue_model(*old(self)).push(source_model(fmt, batch@)));
        }
        DeliveryOutcome::Queued
    }
}

} // verus!
