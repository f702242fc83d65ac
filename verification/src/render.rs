//! The rendering loop's decisions.
//!
//! The loop draws a frame only when the status changed since the last frame
//! or when the animation timer is due; otherwise it sleeps. A frame goes
//! through three phases: the loop is idle, the rasterizer draws, the bridge
//! streams. The loop that runs in the low tier asks this state machine what
//! to do and reports back what it did.

use crate::event::{Event, Status};
use vstd::prelude::*;

verus! {

/// Time between two frames of an animation, in milliseconds.
pub const ANIMATION_PERIOD_MS: u64 = 33;

/// Where the loop is in the cycle of a frame.
#[derive(Clone, Copy, Debug, PartialEq, Eq, Structural)]
pub enum Phase {
    /// No frame is under way.
    Idle,
    /// The rasterizer draws the frame.
    Rasterizing,
    /// The bridge sends the frame to the display.
    Streaming,
}

/// What the loop does next.
#[derive(Clone, Copy, Debug, PartialEq, Eq, Structural)]
pub enum Step {
    /// Nothing is to be drawn: the loop suspends until an event is
    /// published or, where a time is given, until that time.
    Sleep { until: Option<u64> },
    /// The rasterizer draws this status.
    Rasterize(Status),
    /// A frame is under way; its next phase has to be reported first.
    Busy,
}

/// The state of the rendering loop.
#[derive(Clone, Copy, Debug, PartialEq, Eq, Structural)]
pub struct LoopState {
    pub phase: Phase,
    /// The latest status that the loop was told of.
    pub status: Status,
    /// Whether the status changed since a frame was last begun. Set at the
    /// start, so that the first frame is drawn without any event.
    pub dirty: bool,
    /// When the animation timer is due, if it runs.
    pub due: Option<u64>,
    /// Time between two frames of an animation, in milliseconds.
    pub period: u64,
}

/// `now + period`, or the largest time where that is beyond it.
pub open spec fn later(now: u64, period: u64) -> u64 {
    if now + period <= u64::MAX {
        (now + period) as u64
    } else {
        u64::MAX
    }
}

impl LoopState {
    /// The loop at boot: idle, showing nothing yet, with the first frame
    /// owed and no animation running.
    pub open spec fn start(period: u64) -> LoopState {
        LoopState {
            phase: Phase::Idle,
            status: Status::initial(),
            dirty: true,
            due: None,
            period,
        }
    }

    /// The loop after it was told of an event: the status takes the event's
    /// value, and a frame is owed if that changed the status.
    pub open spec fn notice(self, event: Event) -> LoopState {
        LoopState {
            status: self.status.with(event),
            dirty: self.dirty || self.status.with(event) != self.status,
            ..self
        }
    }

    /// Whether the animation timer runs and is due at `now`.
    pub open spec fn timer_due(self, now: u64) -> bool {
        self.due matches Some(at) && now >= at
    }

    /// Whether a frame is to be begun at `now`: the loop is idle, and the
    /// status changed or the animation timer is due.
    pub open spec fn must_draw(self, now: u64) -> bool {
        self.phase == Phase::Idle && (self.dirty || self.timer_due(now))
    }

    /// The loop asks what to do at `now`.
    ///
    /// Where a frame is to be begun, the loop starts to rasterize the
    /// current status, owes no frame any more, and a running timer is set
    /// one period ahead. An idle loop with nothing to draw sleeps and stays
    /// as it is. While a frame is under way nothing changes.
    pub open spec fn tick(self, now: u64) -> (LoopState, Step) {
        if self.must_draw(now) {
            (
                LoopState {
                    phase: Phase::Rasterizing,
                    dirty: false,
                    due: if self.due is Some {
                        Some(later(now, self.period))
                    } else {
                        None
                    },
                    ..self
                },
                Step::Rasterize(self.status),
            )
        } else if self.phase == Phase::Idle {
            (self, Step::Sleep { until: self.due })
        } else {
            (self, Step::Busy)
        }
    }

    /// The rasterizer has completed the frame: streaming begins.
    pub open spec fn frame_ready(self) -> LoopState {
        if self.phase == Phase::Rasterizing {
            LoopState { phase: Phase::Streaming, ..self }
        } else {
            self
        }
    }

    /// The transport has taken the frame: the loop is idle again.
    pub open spec fn stream_done(self) -> LoopState {
        if self.phase == Phase::Streaming {
            LoopState { phase: Phase::Idle, ..self }
        } else {
            self
        }
    }

    /// An animation begins at `now`: the timer runs and is due one period
    /// later.
    pub open spec fn animate(self, now: u64) -> LoopState {
        LoopState { due: Some(later(now, self.period)), ..self }
    }

    /// The animation has ended: the timer stops.
    pub open spec fn still(self) -> LoopState {
        LoopState { due: None, ..self }
    }

    /// The loop after it asked what to do at each of `times`, in turn.
    pub open spec fn tick_all(self, times: Seq<u64>) -> LoopState
        decreases times.len(),
    {
        if times.len() == 0 {
            self
        } else {
            self.tick_all(times.drop_last()).tick(times.last()).0
        }
    }
}

/// The rendering loop's state machine.
pub struct RenderLoop {
    state: LoopState,
}

impl View for RenderLoop {
    type V = LoopState;

    closed spec fn view(&self) -> LoopState {
        self.state
    }
}

impl RenderLoop {
    /// The loop at boot, with the given time between two frames of an
    /// animation.
    pub fn new(period: u64) -> (render: RenderLoop)
        ensures
            render@ == LoopState::start(period),
    {
        RenderLoop {
            state: LoopState {
                phase: Phase::Idle,
                status: Status::new(),
                dirty: true,
                due: None,
                period,
            },
        }
    }

    /// The state of the loop.
    pub fn state(&self) -> (state: LoopState)
        ensures
            state == self@,
    {
        self.state
    }

    /// Tells the loop of an event that its subscriber got from the channel.
    pub fn notice(&mut self, event: Event)
        ensures
            final(self)@ == old(self)@.notice(event),
    {
        let status = self.state.status.apply(event);
        if status != self.state.status {
            self.state.dirty = true;
        }
        self.state.status = status;
    }

    /// Asks what to do at `now`, a time in milliseconds: see
    /// [`LoopState::tick`].
    pub fn tick(&mut self, now: u64) -> (step: Step)
        ensures
            (final(self)@, step) == old(self)@.tick(now),
    {
        let idle: bool = match self.state.phase {
            Phase::Idle => true,
            _ => false,
        };
        if !idle {
            return Step::Busy;
        }
        let timer_due: bool = match self.state.due {
            Some(at) => now >= at,
            None => false,
        };
        if self.state.dirty || timer_due {
            self.state.phase = Phase::Rasterizing;
            self.state.dirty = false;
            if self.state.due.is_some() {
                self.state.due = Some(now.saturating_add(self.state.period));
            }
            Step::Rasterize(self.state.status)
        } else {
            Step::Sleep { until: self.state.due }
        }
    }

    /// Reports that the rasterizer has completed the frame, and says whether
    /// one was being drawn.
    pub fn frame_ready(&mut self) -> (was_drawing: bool)
        ensures
            final(self)@ == old(self)@.frame_ready(),
            was_drawing <==> old(self)@.phase == Phase::Rasterizing,
    {
        match self.state.phase {
            Phase::Rasterizing => {
                self.state.phase = Phase::Streaming;
                true
            },
            _ => false,
        }
    }

    /// Reports that the transport has taken the frame, and says whether one
    /// was being sent.
    pub fn stream_done(&mut self) -> (was_streaming: bool)
        ensures
            final(self)@ == old(self)@.stream_done(),
            was_streaming <==> old(self)@.phase == Phase::Streaming,
    {
        match self.state.phase {
            Phase::Streaming => {
                self.state.phase = Phase::Idle;
                true
            },
            _ => false,
        }
    }

    /// Starts the animation timer at `now`.
    pub fn animate(&mut self, now: u64)
        ensures
            final(self)@ == old(self)@.animate(now),
    {
        self.state.due = Some(now.saturating_add(self.state.period));
    }

    /// Stops the animation timer.
    pub fn still(&mut self)
        ensures
            final(self)@ == old(self)@.still(),
    {
        self.state.due = None;
    }
}

/// Asking again changes nothing while there is nothing to draw: an idle
/// loop whose status did not change, asked at any number of times before its
/// timer is due, stays exactly as it is and is told to sleep each time. No
/// frame is begun, so nothing is written to the transport.
pub proof fn idle_ticks_change_nothing(s: LoopState, times: Seq<u64>)
    requires
        s.phase == Phase::Idle,
        !s.dirty,
        forall|i: int| 0 <= i < times.len() ==> !s.timer_due(#[trigger] times[i]),
    ensures
        s.tick_all(times) == s,
        forall|i: int|
            0 <= i < times.len() ==> (#[trigger] s.tick_all(times.take(i)).tick(times[i])).1
                == (Step::Sleep { until: s.due }),
    decreases times.len(),
{
    if times.len() > 0 {
        idle_ticks_change_nothing(s, times.drop_last());
        assert forall|i: int| 0 <= i < times.len() implies (#[trigger] s.tick_all(
            times.take(i),
        ).tick(times[i])).1 == (Step::Sleep { until: s.due }) by {
            idle_ticks_change_nothing(s, times.take(i));
        }
    }
}

/// The suppression ends with a change of status or with the timer: an idle
/// loop begins a frame at `now` exactly when its status changed since the
/// last frame or its timer is due.
pub proof fn frame_begins_iff_changed_or_due(s: LoopState, now: u64)
    requires
        s.phase == Phase::Idle,
    ensures
        s.tick(now).1 is Rasterize <==> s.dirty || s.timer_due(now),
        s.tick(now).1 matches Step::Rasterize(shown) ==> shown == s.status,
{
}

/// An event that changes the status is on the next frame: an idle loop that
/// is told of such an event begins, when next asked, a frame that shows the
/// event's value.
pub proof fn change_is_drawn_on_next_tick(s: LoopState, event: Event, now: u64)
    requires
        s.phase == Phase::Idle,
        s.status.with(event) != s.status,
    ensures
        s.notice(event).tick(now).1 == Step::Rasterize(s.status.with(event)),
{
}

/// A running timer is never set further ahead than one period: a loop that
/// is told to sleep until a time after an animation began at `now` or a
/// frame was begun at `now` wakes at the latest one period after `now`.
pub proof fn sleep_is_bounded_by_the_period(s: LoopState, now: u64)
    ensures
        s.animate(now).due == Some(later(now, s.period)),
        later(now, s.period) <= now + s.period,
        s.due is Some && s.must_draw(now) ==> s.tick(now).0.due == Some(later(now, s.period)),
{
}

} // verus!
