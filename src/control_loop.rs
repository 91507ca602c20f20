//! When the autopilot emits an output frame.
//!
//! The autopilot drains its inbound queue and runs the control law only on
//! the newest frame; while frames keep arriving faster than it runs, it still
//! emits at least once every `MAX_CONTROL_LOOP_PERIOD_US`.

use vstd::prelude::*;

verus! {

/// Longest time between two output frames while inputs keep arriving: 50 ms.
pub const MAX_CONTROL_LOOP_PERIOD_US: u64 = 50_000;

/// Whether a frame received at `now` is run and emitted, the previous
/// emission having been at `last_emit`.
pub open spec fn emits(last_emit: int, now: int, queue_empty: bool) -> bool {
    queue_empty || now - last_emit >= MAX_CONTROL_LOOP_PERIOD_US
}

/// Time of the last emission after the frames `events` (arrival time, and
/// whether the queue was empty behind the frame), starting from `start`.
pub open spec fn last_emit_after(start: int, events: Seq<(int, bool)>) -> int
    decreases events.len(),
{
    if events.len() == 0 {
        start
    } else {
        let previous = last_emit_after(start, events.drop_last());
        let event = events.last();
        if emits(previous, event.0, event.1) {
            event.0
        } else {
            previous
        }
    }
}

/// Frames arrive in time order, the first no later than `gap` after
/// `start`, each next no later than `gap` after the one before.
pub open spec fn continuous_flow(start: int, events: Seq<(int, bool)>, gap: int) -> bool {
    &&& events.len() > 0 ==> start <= events[0].0 <= start + gap
    &&& forall|i: int|
        0 <= i < events.len() - 1 ==> events[i].0 <= #[trigger] events[i + 1].0 <= events[i].0 + gap
}

/// Time of the autopilot's last emission, in microseconds of a monotonic
/// clock, with the frames it has seen.
pub struct ControlLoopTimer {
    last_emit_us: u64,
    start_us: Ghost<int>,
    frames: Ghost<Seq<(int, bool)>>,
}

impl ControlLoopTimer {
    /// The last emission is the one that the model gives for the frames seen.
    #[verifier::type_invariant]
    spec fn follows_model(&self) -> bool {
        self.last_emit_us == last_emit_after(self.start_us@, self.frames@)
    }

    /// When the timer was started.
    pub closed spec fn start(&self) -> int {
        self.start_us@
    }

    /// The frames seen so far, oldest first: arrival time, and whether the
    /// queue was empty behind the frame.
    pub closed spec fn frames(&self) -> Seq<(int, bool)> {
        self.frames@
    }

    pub closed spec fn spec_last_emit_us(&self) -> u64 {
        self.last_emit_us
    }

    /// A timer started at `now_us`, which counts as an emission.
    pub fn new(now_us: u64) -> (r: Self)
        ensures
            r.spec_last_emit_us() == now_us,
            r.start() == now_us,
            r.frames() == Seq::<(int, bool)>::empty(),
    {
        ControlLoopTimer { last_emit_us: now_us, start_us: Ghost(now_us as int), frames: Ghost(Seq::empty()) }
    }

    pub fn last_emit_us(&self) -> (r: u64)
        ensures
            r == self.spec_last_emit_us(),
            r == last_emit_after(self.start(), self.frames()),
    {
        proof {
            use_type_invariant(self);
        }
        self.last_emit_us
    }

    /// Decides whether the frame received at `now_us` is run and emitted,
    /// and records the frame and the emission.
    pub fn on_frame(&mut self, now_us: u64, queue_empty: bool) -> (emit: bool)
        ensures
            emit == emits(old(self).spec_last_emit_us() as int, now_us as int, queue_empty),
            final(self).spec_last_emit_us() == if emit {
                now_us
            } else {
                old(self).spec_last_emit_us()
            },
            final(self).start() == old(self).start(),
            final(self).frames() == old(self).frames().push((now_us as int, queue_empty)),
            final(self).spec_last_emit_us() == last_emit_after(final(self).start(), final(self).frames()),
    {
        proof {
            use_type_invariant(&*self);
        }
        let emit = queue_empty || now_us.saturating_sub(self.last_emit_us) >= MAX_CONTROL_LOOP_PERIOD_US;
        let last_emit_us = if emit {
            now_us
        } else {
            self.last_emit_us
        };
        let ghost frames = self.frames@.push((now_us as int, queue_empty));
        assert(frames.drop_last() =~= self.frames@);
        *self = ControlLoopTimer { last_emit_us, start_us: self.start_us, frames: Ghost(frames) };
        emit
    }
}

proof fn lemma_last_emit_bounds(start: int, events: Seq<(int, bool)>, gap: int)
    requires
        continuous_flow(start, events, gap),
        events.len() > 0,
    ensures
        events.last().0 - last_emit_after(start, events) < MAX_CONTROL_LOOP_PERIOD_US,
    decreases events.len(),
{
    let n = events.len();
    let prefix = events.drop_last();
    let previous = last_emit_after(start, prefix);
    if n > 1 {
        assert(continuous_flow(start, prefix, gap)) by {
            assert forall|i: int| 0 <= i < prefix.len() - 1 implies prefix[i].0 <= #[trigger] prefix[i
                + 1].0 <= prefix[i].0 + gap by {
                assert(prefix[i] == events[i] && prefix[i + 1] == events[i + 1]);
            }
        }
        lemma_last_emit_bounds(start, prefix, gap);
    }
}

/// The timer after a continuous flow of frames: each frame it has seen
/// arrived no later than `MAX_CONTROL_LOOP_PERIOD_US + gap` after the
/// emission before it.
pub proof fn lemma_timer_emission_gap(timer: &ControlLoopTimer, gap: int)
    requires
        continuous_flow(timer.start(), timer.frames(), gap),
    ensures
        forall|i: int|
            0 <= i < timer.frames().len() ==> #[trigger] timer.frames()[i].0 - last_emit_after(
                timer.start(),
                timer.frames().take(i),
            ) <= MAX_CONTROL_LOOP_PERIOD_US + gap,
{
    lemma_emission_gap(timer.start(), timer.frames(), gap);
}

/// Under a continuous flow of frames with gaps of at most `gap`, every
/// frame arrives no later than `MAX_CONTROL_LOOP_PERIOD_US + gap` after the
/// last emission; so two consecutive emissions, the start counting as one,
/// are at most that far apart.
pub proof fn lemma_emission_gap(start: int, events: Seq<(int, bool)>, gap: int)
    requires
        continuous_flow(start, events, gap),
    ensures
        forall|i: int|
            0 <= i < events.len() ==> #[trigger] events[i].0 - last_emit_after(start, events.take(i))
                <= MAX_CONTROL_LOOP_PERIOD_US + gap,
{
    assert forall|i: int| 0 <= i < events.len() implies #[trigger] events[i].0 - last_emit_after(
        start,
        events.take(i),
    ) <= MAX_CONTROL_LOOP_PERIOD_US + gap by {
        if i > 0 {
            let prefix = events.take(i);
            assert(continuous_flow(start, prefix, gap)) by {
                assert forall|j: int| 0 <= j < prefix.len() - 1 implies prefix[j].0 <= #[trigger] prefix[j
                    + 1].0 <= prefix[j].0 + gap by {
                    assert(prefix[j] == events[j] && prefix[j + 1] == events[j + 1]);
                }
            }
            lemma_last_emit_bounds(start, prefix, gap);
            assert(prefix.last() == events[i - 1]);
            assert(events[i - 1].0 <= events[(i - 1) + 1].0 <= events[i - 1].0 + gap);
        }
    }
}

} // verus!
