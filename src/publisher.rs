//! The decisions of a publisher unit. The unit that runs it asks `poll` what
//! to do next, performs that (a publish, a wait), and reports how a publish
//! went through `on_published`. Publishes are strictly sequential, spaced by
//! at least the cadence, and stop after the bound.
use crate::reading::{f32_bits_of_whole, whole_to_f32_bits, Reading, Topic};
use crate::wire::{encode_reading, encoding_of};
use rand::Rng;
use vstd::prelude::*;

verus! {

/// The default interval between two publishes of one unit, in milliseconds.
pub const DEFAULT_CADENCE_MS: u64 = 1000;

/// The lowest value a unit samples.
pub const SAMPLE_MIN: u32 = 1;

/// The highest value a unit samples.
pub const SAMPLE_MAX: u32 = 100;

/// One sensor stream: what it publishes, how often and how many times.
pub struct PublisherUnit {
    pub topic: Topic,
    pub device_id: String,
    pub cadence_ms: u64,
    /// How many readings to publish; `None` for no limit.
    pub bound: Option<u64>,
    /// Readings whose publish has succeeded.
    pub published: u64,
    /// When the last publish completed, on the caller's clock.
    pub last_done_ms: Option<u64>,
    /// A publish has been handed out and its outcome is not known yet.
    pub awaiting: bool,
    /// A publish has failed; the unit is over.
    pub failed: bool,
}

/// What a publisher unit asks its runner to do next.
pub enum PublisherAction {
    /// Publish `payload`, the encoding of `reading`, then report the outcome.
    Publish { reading: Reading, payload: Vec<u8> },
    /// Wait this many milliseconds, then poll again.
    Wait(u64),
    /// The bound is reached: the unit has completed.
    Done,
    /// A publish failed: the unit ends with a publish error.
    Failed,
}

impl PublisherUnit {
    /// The unit's invariant: it never publishes past its bound, and a failed
    /// unit has nothing in flight.
    pub open spec fn wf(&self) -> bool {
        &&& self.bound matches Some(c) ==> self.published <= c && (self.awaiting ==> self.published
            < c)
        &&& self.awaiting ==> !self.failed
    }

    /// The bound has been reached.
    pub open spec fn exhausted(&self) -> bool {
        self.bound matches Some(c) && self.published >= c
    }

    /// The earliest time, on the caller's clock, at which the next publish may
    /// start: a full cadence after the last one completed.
    pub open spec fn due_ms(&self) -> int {
        match self.last_done_ms {
            Some(t) => t + self.cadence_ms,
            None => 0,
        }
    }

    /// How long to wait at `now_ms` before the due time, within `u64`.
    pub open spec fn wait_ms(&self, now_ms: u64) -> int {
        if self.due_ms() - now_ms > u64::MAX {
            u64::MAX as int
        } else {
            self.due_ms() - now_ms
        }
    }

    /// The unit as it is once it has handed out a publish.
    pub open spec fn publishing(&self) -> PublisherUnit {
        PublisherUnit { awaiting: true, ..*self }
    }

    pub fn new(topic: Topic, device_id: String, cadence_ms: u64, bound: Option<u64>) -> (r:
        PublisherUnit)
        ensures
            r.wf(),
            r.topic == topic,
            r.device_id@ == device_id@,
            r.cadence_ms == cadence_ms,
            r.bound == bound,
            r.published == 0,
            r.last_done_ms is None,
            !r.awaiting,
            !r.failed,
    {
        PublisherUnit {
            topic,
            device_id,
            cadence_ms,
            bound,
            published: 0,
            last_done_ms: None,
            awaiting: false,
            failed: false,
        }
    }

    /// The next step at time `now_ms`, given the value `sample` drawn for the
    /// next reading and the wall-clock time `wall_ms` to stamp it with.
    ///
    /// A failed unit says `Failed` and an exhausted one `Done`. Otherwise,
    /// until a full cadence has passed since the last publish completed it
    /// says how long to wait; from then on it hands out the next reading to
    /// publish and awaits its outcome.
    pub fn poll(&mut self, now_ms: u64, sample: u32, wall_ms: u64) -> (a: PublisherAction)
        requires
            old(self).wf(),
            !old(self).awaiting,
            SAMPLE_MIN <= sample <= SAMPLE_MAX,
        ensures
            final(self).wf(),
            old(self).failed ==> a is Failed && *final(self) == *old(self),
            !old(self).failed && old(self).exhausted() ==> a is Done && *final(self) == *old(self),
            !old(self).failed && !old(self).exhausted() && now_ms < old(self).due_ms() ==> (a matches PublisherAction::Wait(d) && d > 0 && d == old(self).wait_ms(now_ms))
                && *final(self) == *old(self),
            !old(self).failed && !old(self).exhausted() && now_ms >= old(self).due_ms() ==> a is Publish,
            a matches PublisherAction::Publish { reading, payload } ==> {
                &&& now_ms >= old(self).due_ms()
                &&& payload@ == encoding_of(reading@)
                &&& reading.device_id@ == old(self).device_id@
                &&& f32_bits_of_whole(reading.value_bits, sample as nat)
                &&& reading.timestamp == wall_ms
                &&& *final(self) == old(self).publishing()
            },
    {
        if self.failed {
            return PublisherAction::Failed;
        }
        if let Some(c) = self.bound {
            if self.published >= c {
                return PublisherAction::Done;
            }
        }
        if let Some(t) = self.last_done_ms {
            if now_ms < t {
                let behind = t - now_ms;
                let d = if behind > u64::MAX - self.cadence_ms {
                    u64::MAX
                } else {
                    behind + self.cadence_ms
                };
                return PublisherAction::Wait(d);
            } else if now_ms - t < self.cadence_ms {
                return PublisherAction::Wait(self.cadence_ms - (now_ms - t));
            }
        }
        let reading = Reading::new(self.device_id.clone(), whole_to_f32_bits(sample), wall_ms);
        let payload = encode_reading(&reading);
        self.awaiting = true;
        PublisherAction::Publish { reading, payload }
    }

    /// Records the outcome of the publish handed out last, which completed at
    /// `now_ms`: a success counts it, a failure ends the unit. The next
    /// publish is due a full cadence after `now_ms`.
    pub fn on_published(&mut self, ok: bool, now_ms: u64)
        requires
            old(self).wf(),
            old(self).awaiting,
        ensures
            final(self).wf(),
            *final(self) == (PublisherUnit {
                awaiting: false,
                failed: !ok,
                published: if ok && old(self).published < u64::MAX {
                    (old(self).published + 1) as u64
                } else {
                    old(self).published
                },
                last_done_ms: Some(now_ms),
                ..*old(self)
            }),
    {
        self.awaiting = false;
        self.last_done_ms = Some(now_ms);
        if ok {
            if self.published < u64::MAX {
                self.published = self.published + 1;
            }
        } else {
            self.failed = true;
        }
    }

    /// `poll`, with the value drawn uniformly from `SAMPLE_MIN..=SAMPLE_MAX` and
    /// the reading stamped with the current wall-clock time.
    pub fn poll_sampled(&mut self, now_ms: u64) -> (a: PublisherAction)
        requires
            old(self).wf(),
            !old(self).awaiting,
        ensures
            final(self).wf(),
            old(self).failed ==> a is Failed && *final(self) == *old(self),
            !old(self).failed && old(self).exhausted() ==> a is Done && *final(self) == *old(self),
            !old(self).failed && !old(self).exhausted() && now_ms < old(self).due_ms() ==> (a matches PublisherAction::Wait(d) && d > 0 && d == old(self).wait_ms(now_ms))
                && *final(self) == *old(self),
            !old(self).failed && !old(self).exhausted() && now_ms >= old(self).due_ms() ==> a is Publish,
            a matches PublisherAction::Publish { reading, payload } ==> {
                &&& now_ms >= old(self).due_ms()
                &&& payload@ == encoding_of(reading@)
                &&& reading.device_id@ == old(self).device_id@
                &&& exists|n: nat|
                    SAMPLE_MIN <= n <= SAMPLE_MAX && #[trigger] f32_bits_of_whole(reading.value_bits, n)
                &&& *final(self) == old(self).publishing()
            },
    {
        let sample = draw_sample();
        let wall_ms = wall_clock_ms();
        self.poll(now_ms, sample, wall_ms)
    }
}

/// Publishes of one unit never overlap and are spaced by its cadence: once
/// the publish started at `start1` has completed at `done1`, `poll` hands out
/// the next one only at a time `start2` at least a full cadence after
/// `done1`, and so at least a cadence after `start1`.
pub proof fn lemma_publishes_spaced(u: PublisherUnit, start1: u64, done1: u64, start2: u64)
    requires
        u.last_done_ms == Some(done1),
        start1 <= done1,
        start2 >= u.due_ms(),
    ensures
        start2 >= done1 + u.cadence_ms,
        start2 - start1 >= u.cadence_ms,
{
}

/// Relies on rand::rng and Rng::random_range: a value drawn uniformly from
/// the inclusive range, from the thread's generator.
#[verifier::external_body]
fn draw_sample() -> (r: u32)
    ensures
        SAMPLE_MIN <= r <= SAMPLE_MAX,
{
    rand::rng().random_range(SAMPLE_MIN..=SAMPLE_MAX)
}

/// Relies on chrono::Utc::now and DateTime::timestamp_millis: milliseconds
/// since the Unix epoch, read from the system clock. Nothing is promised of
/// the value. `Utc::now` panics on a clock set before the epoch, so the
/// count it yields is never negative and the cast keeps it.
#[verifier::external_body]
fn wall_clock_ms() -> (r: u64) {
    chrono::Utc::now().timestamp_millis() as u64
}

} // verus!
