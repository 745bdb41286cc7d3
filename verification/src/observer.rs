//! The observers of the two digital inputs: the push button and the
//! motion sensor.
//!
//! An observer publishes the level it starts with, so that the panel is
//! right before the first edge, and after that one event for each edge. The
//! caller samples the pin and hands the sample over; how it waits between
//! samples is the strategy.

use crate::event::{InfoUpdate, InfoUpdateView, PinState};
use vstd::prelude::*;

verus! {

/// How the caller learns of an edge.
#[derive(Clone, Copy, Debug, PartialEq, Eq, Structural)]
pub enum EdgeStrategy {
    /// The caller blocks until the hardware reports an edge and samples the
    /// pin when it wakes. Every sample is published.
    BlockingWait,
    /// The caller samples the pin on a short fixed interval. A sample is
    /// published only if it differs from the one before.
    Polling,
}

/// The pause between two samples of the button when polling, in
/// microseconds.
pub const BUTTON_POLL_MICROS: u64 = 150;

/// The pause between two samples of the motion sensor when polling, in
/// microseconds.
pub const MOTION_POLL_MICROS: u64 = 250;

/// The observer of one input: its strategy and the last level it saw.
#[derive(Clone, Copy, Debug, PartialEq, Eq, Structural)]
pub struct EdgeObserver {
    pub strategy: EdgeStrategy,
    pub level: PinState,
}

/// Whether a sample is published by an observer that last saw `level`.
pub open spec fn publishes(strategy: EdgeStrategy, level: PinState, sample: PinState) -> bool {
    strategy == EdgeStrategy::BlockingWait || sample != level
}

/// The levels that an observer publishes for a run of samples, given the
/// level it saw last before the run.
pub open spec fn published(strategy: EdgeStrategy, level: PinState, samples: Seq<PinState>) -> Seq<
    PinState,
>
    decreases samples.len(),
{
    if samples.len() == 0 {
        Seq::empty()
    } else {
        let earlier = published(strategy, level, samples.drop_last());
        let before = last_seen(level, samples.drop_last());
        if publishes(strategy, before, samples.last()) {
            earlier.push(samples.last())
        } else {
            earlier
        }
    }
}

/// The level that an observer saw last after a run of samples.
pub open spec fn last_seen(level: PinState, samples: Seq<PinState>) -> PinState {
    if samples.len() == 0 {
        level
    } else {
        samples.last()
    }
}

impl EdgeObserver {
    /// An observer that starts at the sampled `level`, together with the
    /// level to publish first.
    pub fn start(strategy: EdgeStrategy, level: PinState) -> (r: (EdgeObserver, PinState))
        ensures
            r.0 == (EdgeObserver { strategy, level }),
            r.1 == level,
    {
        (EdgeObserver { strategy, level }, level)
    }

    /// Takes one sample and returns the level to publish, if any.
    pub fn observe(&mut self, sample: PinState) -> (r: Option<PinState>)
        ensures
            final(self).strategy == old(self).strategy,
            final(self).level == sample,
            r == (if publishes(old(self).strategy, old(self).level, sample) {
                Some(sample)
            } else {
                None
            }),
    {
        let changed = match (self.level, sample) {
            (PinState::Low, PinState::Low) => false,
            (PinState::High, PinState::High) => false,
            _ => true,
        };
        let always = match self.strategy {
            EdgeStrategy::BlockingWait => true,
            EdgeStrategy::Polling => false,
        };
        self.level = sample;
        if always || changed {
            Some(sample)
        } else {
            None
        }
    }
}

/// The event with which an observer of the button publishes a level.
pub open spec fn button_event(level: Option<PinState>) -> Option<InfoUpdateView> {
    match level {
        Some(l) => Some(InfoUpdateView::Button(l)),
        None => None,
    }
}

/// The event with which an observer of the motion sensor publishes a level.
pub open spec fn motion_event(level: Option<PinState>) -> Option<InfoUpdateView> {
    match level {
        Some(l) => Some(InfoUpdateView::Motion(l)),
        None => None,
    }
}

/// The view of an event that may be absent.
pub open spec fn event_view(event: Option<InfoUpdate>) -> Option<InfoUpdateView> {
    match event {
        Some(e) => Some(e@),
        None => None,
    }
}

/// One turn of the button task: takes a sample of the button and returns
/// the event to publish, if any.
pub fn button_task(observer: &mut EdgeObserver, sample: PinState) -> (event: Option<InfoUpdate>)
    ensures
        final(observer).strategy == old(observer).strategy,
        final(observer).level == sample,
        event_view(event) == button_event(
            if publishes(old(observer).strategy, old(observer).level, sample) {
                Some(sample)
            } else {
                None
            },
        ),
{
    match observer.observe(sample) {
        Some(level) => Some(InfoUpdate::Button(level)),
        None => None,
    }
}

/// One turn of the motion task: takes a sample of the motion sensor and
/// returns the event to publish, if any.
pub fn motion_task(observer: &mut EdgeObserver, sample: PinState) -> (event: Option<InfoUpdate>)
    ensures
        final(observer).strategy == old(observer).strategy,
        final(observer).level == sample,
        event_view(event) == motion_event(
            if publishes(old(observer).strategy, old(observer).level, sample) {
                Some(sample)
            } else {
                None
            },
        ),
{
    match observer.observe(sample) {
        Some(level) => Some(InfoUpdate::Motion(level)),
        None => None,
    }
}

/// A polling observer publishes edges and nothing else: the first level
/// it publishes differs from the one it started with, and each further one
/// from the one published before. What it published last is the level of
/// the last sample, and if it published nothing every sample was the level
/// it started with.
pub proof fn law_polling_publishes_edges_only(level: PinState, samples: Seq<PinState>)
    ensures
        ({
            let out = published(EdgeStrategy::Polling, level, samples);
            &&& out.len() <= samples.len()
            &&& out.len() > 0 ==> out[0] != level && out.last() == last_seen(level, samples)
            &&& out.len() == 0 ==> last_seen(level, samples) == level
            &&& forall|i: int| 0 < i < out.len() ==> out[i] != #[trigger] out[i - 1]
        }),
    decreases samples.len(),
{
    if samples.len() > 0 {
        law_polling_publishes_edges_only(level, samples.drop_last());
    }
}

/// An observer that waits for edges publishes every sample, in order.
pub proof fn law_blocking_publishes_every_sample(level: PinState, samples: Seq<PinState>)
    ensures
        published(EdgeStrategy::BlockingWait, level, samples) == samples,
    decreases samples.len(),
{
    if samples.len() > 0 {
        law_blocking_publishes_every_sample(level, samples.drop_last());
        assert(samples.drop_last().push(samples.last()) =~= samples);
    }
}

} // verus!
