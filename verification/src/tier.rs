//! The two priority tiers and the rules of the single processor they share.
//!
//! The medium tier runs from a raised interrupt priority and hosts the radio
//! pump, the input pipeline and storage access. The low tier runs in thread
//! mode and hosts the rendering loop. Inside a tier a task gives up the
//! processor only where it suspends; across tiers the medium tier interrupts
//! the low tier at once, and never the other way round.

use vstd::prelude::*;

verus! {

/// One of the two cooperative schedulers.
#[derive(Clone, Copy, Debug, PartialEq, Eq, Structural)]
pub enum Tier {
    Medium,
    Low,
}

/// The long-lived tasks of the node. None is created after boot and none
/// ever ends.
#[derive(Clone, Copy, Debug, PartialEq, Eq, Structural)]
pub enum Task {
    RadioPump,
    InputPipeline,
    Storage,
    Rendering,
}

/// The tier that hosts a task: rendering runs in the low tier, everything
/// that the radio link depends on in the medium tier.
pub open spec fn home_tier(task: Task) -> Tier {
    match task {
        Task::Rendering => Tier::Low,
        _ => Tier::Medium,
    }
}

/// The tier that hosts a task.
pub fn tier_of(task: Task) -> (tier: Tier)
    ensures
        tier == home_tier(task),
{
    match task {
        Task::Rendering => Tier::Low,
        Task::RadioPump => Tier::Medium,
        Task::InputPipeline => Tier::Medium,
        Task::Storage => Tier::Medium,
    }
}

impl Tier {
    /// Whether work of this tier interrupts work of `other` in the middle of
    /// an instruction stream: only the medium tier does, and only to the low
    /// tier.
    pub fn preempts(self, other: Tier) -> (yes: bool)
        ensures
            yes <==> self == Tier::Medium && other == Tier::Low,
    {
        match (self, other) {
            (Tier::Medium, Tier::Low) => true,
            _ => false,
        }
    }

    /// Whether a task of this tier may wait for work that `other` owes: the
    /// medium tier never waits for the low tier.
    pub fn may_wait_on(self, other: Tier) -> (yes: bool)
        ensures
            yes <==> !(self == Tier::Medium && other == Tier::Low),
    {
        match (self, other) {
            (Tier::Medium, Tier::Low) => false,
            _ => true,
        }
    }
}

/// What the tasks work on.
#[derive(Clone, Copy, Debug, PartialEq, Eq, Structural)]
pub enum Resource {
    Arena,
    Channel,
    FrameBuffer,
    DisplayTransport,
    Radio,
    Storage,
    KeyMatrix,
}

/// Whether tasks of `tier` touch `resource`. Both tiers allocate from the
/// arena and meet at the channel. The frame buffer and the display transport
/// belong to the low tier alone; the radio, storage and the key matrix to
/// the medium tier alone.
pub open spec fn touches(tier: Tier, resource: Resource) -> bool {
    match resource {
        Resource::Arena => true,
        Resource::Channel => true,
        Resource::FrameBuffer => tier == Tier::Low,
        Resource::DisplayTransport => tier == Tier::Low,
        Resource::Radio => tier == Tier::Medium,
        Resource::Storage => tier == Tier::Medium,
        Resource::KeyMatrix => tier == Tier::Medium,
    }
}

/// Whether tasks of `tier` touch `resource`.
pub fn may_use(tier: Tier, resource: Resource) -> (yes: bool)
    ensures
        yes == touches(tier, resource),
{
    match resource {
        Resource::Arena => true,
        Resource::Channel => true,
        Resource::FrameBuffer => tier == Tier::Low,
        Resource::DisplayTransport => tier == Tier::Low,
        Resource::Radio => tier == Tier::Medium,
        Resource::Storage => tier == Tier::Medium,
        Resource::KeyMatrix => tier == Tier::Medium,
    }
}

/// Whether `resource` must be guarded by the lock that holds off
/// interrupts: it must where both tiers touch it, for then the medium tier
/// can cut in while the low tier is in the middle of it.
pub fn needs_lock(resource: Resource) -> (yes: bool)
    ensures
        yes <==> touches(Tier::Medium, resource) && touches(Tier::Low, resource),
        yes <==> resource == Resource::Arena || resource == Resource::Channel,
{
    match resource {
        Resource::Arena => true,
        Resource::Channel => true,
        _ => false,
    }
}

/// The medium tier never touches what a task hosted in the low tier owns:
/// the two tiers share nothing but what the lock guards.
pub proof fn tiers_share_only_what_is_locked(resource: Resource)
    ensures
        !touches(Tier::Medium, Resource::FrameBuffer),
        !touches(Tier::Medium, Resource::DisplayTransport),
        touches(Tier::Medium, resource) && touches(Tier::Low, resource) ==> resource
            == Resource::Arena || resource == Resource::Channel,
        touches(Tier::Medium, resource) || touches(Tier::Low, resource),
{
}

/// What the processor does next.
#[derive(Clone, Copy, Debug, PartialEq, Eq, Structural)]
pub enum Dispatch {
    /// The task starts to run from the point where it last suspended.
    Run(Task),
    /// The low-tier task that an interrupt cut short goes on where it was.
    Resume(Task),
    /// Whatever runs keeps the processor.
    Continue,
    /// Nothing is ready: the processor waits for an event.
    Sleep,
}

/// `queue` with `task` at its end, unless the queue holds it already.
pub open spec fn enqueued(queue: Seq<Task>, task: Task) -> Seq<Task> {
    if queue.contains(task) {
        queue
    } else {
        queue.push(task)
    }
}

/// The scheduler as the contracts see it.
pub struct SchedulerView {
    /// Medium-tier tasks that were woken and wait for their turn.
    pub medium_ready: Seq<Task>,
    /// Low-tier tasks that were woken and wait for their turn.
    pub low_ready: Seq<Task>,
    /// The medium-tier task between two of its suspension points.
    pub medium_running: Option<Task>,
    /// The low-tier task between two of its suspension points; it stands
    /// still while a medium-tier task runs.
    pub low_running: Option<Task>,
}

impl SchedulerView {
    /// Nothing runs and nothing is ready.
    pub open spec fn idle() -> SchedulerView {
        SchedulerView {
            medium_ready: Seq::empty(),
            low_ready: Seq::empty(),
            medium_running: None,
            low_running: None,
        }
    }

    /// The scheduler never leaves ready work lying while the processor
    /// could take it: medium-tier work waits only behind a medium-tier task,
    /// low-tier work only behind a running task. Each tier holds its own
    /// tasks only.
    pub open spec fn inv(self) -> bool {
        &&& self.medium_running is None ==> self.medium_ready.len() == 0
        &&& (self.medium_running is None && self.low_running is None) ==> self.low_ready.len()
            == 0
        &&& self.medium_running matches Some(t) ==> home_tier(t) == Tier::Medium
        &&& self.low_running matches Some(t) ==> home_tier(t) == Tier::Low
        &&& forall|i: int|
            0 <= i < self.medium_ready.len() ==> home_tier(#[trigger] self.medium_ready[i])
                == Tier::Medium
        &&& forall|i: int|
            0 <= i < self.low_ready.len() ==> home_tier(#[trigger] self.low_ready[i]) == Tier::Low
    }

    /// The tier whose task has the processor.
    pub open spec fn on_processor(self) -> Option<Tier> {
        if self.medium_running is Some {
            Some(Tier::Medium)
        } else if self.low_running is Some {
            Some(Tier::Low)
        } else {
            None
        }
    }

    /// A task becomes ready.
    ///
    /// A medium-tier task runs at once if its tier is idle, cutting short a
    /// low-tier task if one runs; otherwise it queues behind the task of its
    /// own tier. A low-tier task runs at once only if nothing runs at all.
    pub open spec fn wake(self, task: Task) -> (SchedulerView, Dispatch) {
        if home_tier(task) == Tier::Medium {
            if self.medium_running is None {
                (SchedulerView { medium_running: Some(task), ..self }, Dispatch::Run(task))
            } else {
                (
                    SchedulerView { medium_ready: enqueued(self.medium_ready, task), ..self },
                    Dispatch::Continue,
                )
            }
        } else {
            if self.medium_running is None && self.low_running is None {
                (SchedulerView { low_running: Some(task), ..self }, Dispatch::Run(task))
            } else {
                (
                    SchedulerView { low_ready: enqueued(self.low_ready, task), ..self },
                    Dispatch::Continue,
                )
            }
        }
    }

    /// The task that has the processor reaches a suspension point.
    ///
    /// The next ready task of the same tier runs. When the medium tier has
    /// none, the low tier gets the processor back: its interrupted task goes
    /// on, or else its next ready task starts.
    pub open spec fn suspend(self) -> (SchedulerView, Dispatch) {
        if self.medium_running is Some {
            if self.medium_ready.len() > 0 {
                (
                    SchedulerView {
                        medium_running: Some(self.medium_ready[0]),
                        medium_ready: self.medium_ready.remove(0),
                        ..self
                    },
                    Dispatch::Run(self.medium_ready[0]),
                )
            } else if self.low_running is Some {
                (
                    SchedulerView { medium_running: None, ..self },
                    Dispatch::Resume(self.low_running->Some_0),
                )
            } else if self.low_ready.len() > 0 {
                (
                    SchedulerView {
                        medium_running: None,
                        low_running: Some(self.low_ready[0]),
                        low_ready: self.low_ready.remove(0),
                        ..self
                    },
                    Dispatch::Run(self.low_ready[0]),
                )
            } else {
                (SchedulerView { medium_running: None, ..self }, Dispatch::Sleep)
            }
        } else if self.low_running is Some {
            if self.low_ready.len() > 0 {
                (
                    SchedulerView {
                        low_running: Some(self.low_ready[0]),
                        low_ready: self.low_ready.remove(0),
                        ..self
                    },
                    Dispatch::Run(self.low_ready[0]),
                )
            } else {
                (SchedulerView { low_running: None, ..self }, Dispatch::Sleep)
            }
        } else {
            (self, Dispatch::Sleep)
        }
    }
}

/// The scheduler of the node's single processor.
pub struct Scheduler {
    medium_ready: Vec<Task>,
    low_ready: Vec<Task>,
    medium_running: Option<Task>,
    low_running: Option<Task>,
}

impl View for Scheduler {
    type V = SchedulerView;

    closed spec fn view(&self) -> SchedulerView {
        SchedulerView {
            medium_ready: self.medium_ready@,
            low_ready: self.low_ready@,
            medium_running: self.medium_running,
            low_running: self.low_running,
        }
    }
}

fn holds(queue: &Vec<Task>, task: Task) -> (found: bool)
    ensures
        found == queue@.contains(task),
{
    let mut i: usize = 0;
    while i < queue.len()
        invariant
            i <= queue@.len(),
            forall|k: int| 0 <= k < i ==> queue@[k] != task,
        decreases queue@.len() - i,
    {
        if queue[i] == task {
            return true;
        }
        i += 1;
    }
    false
}

fn enqueue(queue: &mut Vec<Task>, task: Task)
    ensures
        final(queue)@ == enqueued(old(queue)@, task),
{
    if !holds(queue, task) {
        queue.push(task);
    }
}

impl Scheduler {
    /// A scheduler with nothing running and nothing ready.
    pub fn new() -> (scheduler: Scheduler)
        ensures
            scheduler@ == SchedulerView::idle(),
            scheduler@.inv(),
    {
        Scheduler {
            medium_ready: Vec::new(),
            low_ready: Vec::new(),
            medium_running: None,
            low_running: None,
        }
    }

    /// A task becomes ready: see [`SchedulerView::wake`].
    pub fn wake(&mut self, task: Task) -> (dispatch: Dispatch)
        ensures
            (final(self)@, dispatch) == old(self)@.wake(task),
            old(self)@.inv() ==> final(self)@.inv(),
    {
        proof {
            if old(self)@.inv() {
                step_keeps_invariant(old(self)@, Signal::Wake(task));
            }
        }
        match tier_of(task) {
            Tier::Medium => {
                if self.medium_running.is_none() {
                    self.medium_running = Some(task);
                    Dispatch::Run(task)
                } else {
                    enqueue(&mut self.medium_ready, task);
                    Dispatch::Continue
                }
            },
            Tier::Low => {
                if self.medium_running.is_none() && self.low_running.is_none() {
                    self.low_running = Some(task);
                    Dispatch::Run(task)
                } else {
                    enqueue(&mut self.low_ready, task);
                    Dispatch::Continue
                }
            },
        }
    }

    /// The task that has the processor suspends: see
    /// [`SchedulerView::suspend`].
    pub fn suspend(&mut self) -> (dispatch: Dispatch)
        ensures
            (final(self)@, dispatch) == old(self)@.suspend(),
            old(self)@.inv() ==> final(self)@.inv(),
    {
        proof {
            if old(self)@.inv() {
                step_keeps_invariant(old(self)@, Signal::Suspend);
            }
        }
        if self.medium_running.is_some() {
            if self.medium_ready.len() > 0 {
                let next: Task = self.medium_ready.remove(0);
                self.medium_running = Some(next);
                Dispatch::Run(next)
            } else {
                self.medium_running = None;
                match self.low_running {
                    Some(task) => Dispatch::Resume(task),
                    None => {
                        if self.low_ready.len() > 0 {
                            let next: Task = self.low_ready.remove(0);
                            self.low_running = Some(next);
                            Dispatch::Run(next)
                        } else {
                            Dispatch::Sleep
                        }
                    },
                }
            }
        } else if self.low_running.is_some() {
            if self.low_ready.len() > 0 {
                let next: Task = self.low_ready.remove(0);
                self.low_running = Some(next);
                Dispatch::Run(next)
            } else {
                self.low_running = None;
                Dispatch::Sleep
            }
        } else {
            Dispatch::Sleep
        }
    }

    /// The tier whose task has the processor, if any.
    pub fn on_processor(&self) -> (tier: Option<Tier>)
        ensures
            tier == self@.on_processor(),
    {
        if self.medium_running.is_some() {
            Some(Tier::Medium)
        } else if self.low_running.is_some() {
            Some(Tier::Low)
        } else {
            None
        }
    }

    /// The low-tier task that is between two suspension points, whether it
    /// runs or stands interrupted.
    pub fn low_task(&self) -> (task: Option<Task>)
        ensures
            task == self@.low_running,
    {
        self.low_running
    }
}

/// Something that happens to the scheduler.
pub enum Signal {
    /// A task becomes ready.
    Wake(Task),
    /// The task that has the processor suspends.
    Suspend,
}

/// The scheduler after one event, and what the processor does then.
pub open spec fn step(s: SchedulerView, event: Signal) -> (SchedulerView, Dispatch) {
    match event {
        Signal::Wake(task) => s.wake(task),
        Signal::Suspend => s.suspend(),
    }
}

/// The scheduler after a run of events.
pub open spec fn after(s: SchedulerView, events: Seq<Signal>) -> SchedulerView
    decreases events.len(),
{
    if events.len() == 0 {
        s
    } else {
        step(after(s, events.drop_last()), events.last()).0
    }
}

/// What the processor does after the last of a run of events.
pub open spec fn last_dispatch(s: SchedulerView, events: Seq<Signal>) -> Dispatch
    recommends
        events.len() > 0,
{
    step(after(s, events.drop_last()), events.last()).1
}

/// Every event keeps the scheduler's invariant.
pub proof fn step_keeps_invariant(s: SchedulerView, event: Signal)
    requires
        s.inv(),
    ensures
        step(s, event).0.inv(),
{
    let a = step(s, event).0;
    match event {
        Signal::Wake(task) => {},
        Signal::Suspend => {
            assert forall|i: int| 0 <= i < a.medium_ready.len() implies home_tier(
                #[trigger] a.medium_ready[i],
            ) == Tier::Medium by {
                if a.medium_ready != s.medium_ready {
                    assert(a.medium_ready[i] == s.medium_ready[i + 1]);
                }
            }
            assert forall|i: int| 0 <= i < a.low_ready.len() implies home_tier(
                #[trigger] a.low_ready[i],
            ) == Tier::Low by {
                if a.low_ready != s.low_ready {
                    assert(a.low_ready[i] == s.low_ready[i + 1]);
                }
            }
        },
    }
}

/// While the medium tier has work, the low tier does not have the
/// processor: after any run of events, if a low-tier task has the processor
/// then no medium-tier task runs or is ready.
pub proof fn low_tier_runs_only_when_medium_is_idle(events: Seq<Signal>)
    ensures
        after(SchedulerView::idle(), events).inv(),
        after(SchedulerView::idle(), events).on_processor() == Some(Tier::Low) ==> {
            &&& after(SchedulerView::idle(), events).medium_running is None
            &&& after(SchedulerView::idle(), events).medium_ready.len() == 0
        },
    decreases events.len(),
{
    if events.len() > 0 {
        low_tier_runs_only_when_medium_is_idle(events.drop_last());
        step_keeps_invariant(after(SchedulerView::idle(), events.drop_last()), events.last());
    }
}

/// No task is preempted by a task of its own tier: waking a task never
/// replaces the task that its tier is running.
pub proof fn wake_never_replaces_a_running_task(s: SchedulerView, task: Task)
    ensures
        s.medium_running is Some ==> s.wake(task).0.medium_running == s.medium_running,
        s.low_running is Some ==> s.wake(task).0.low_running == s.low_running,
{
}

/// A low-tier task that the medium tier interrupted is not interleaved with
/// anything: as long as a medium-tier task runs, no event hands the
/// processor to the low tier and the interrupted task stays where it is; the
/// event that leaves the medium tier idle resumes that very task.
pub proof fn interrupted_task_resumes_after_medium_yields(
    s: SchedulerView,
    events: Seq<Signal>,
    task: Task,
)
    requires
        s.inv(),
        s.medium_running is Some,
        s.low_running == Some(task),
        events.len() > 0,
        forall|n: int| 0 <= n < events.len() ==> (#[trigger] after(s, events.take(n))).medium_running is Some,
    ensures
        after(s, events).low_running == Some(task),
        after(s, events).medium_running is None ==> last_dispatch(s, events) == Dispatch::Resume(
            task,
        ),
        after(s, events).medium_running is Some ==> last_dispatch(s, events) != Dispatch::Resume(
            task,
        ) && (last_dispatch(s, events) matches Dispatch::Run(t) ==> home_tier(t) == Tier::Medium),
    decreases events.len(),
{
    let before = after(s, events.drop_last());
    assert(events.take(events.len() - 1) =~= events.drop_last());
    assert(before.medium_running is Some);
    if events.len() == 1 {
        assert(events.drop_last() =~= Seq::<Signal>::empty());
        assert(before == s);
    } else {
        assert forall|n: int| 0 <= n < events.drop_last().len() implies (#[trigger] after(
            s,
            events.drop_last().take(n),
        )).medium_running is Some by {
            assert(events.drop_last().take(n) =~= events.take(n));
        }
        interrupted_task_resumes_after_medium_yields(s, events.drop_last(), task);
    }
    assert(before.low_running == Some(task));
    lemma_after_keeps_invariant(s, events.drop_last());
}

proof fn lemma_after_keeps_invariant(s: SchedulerView, events: Seq<Signal>)
    requires
        s.inv(),
    ensures
        after(s, events).inv(),
    decreases events.len(),
{
    if events.len() > 0 {
        lemma_after_keeps_invariant(s, events.drop_last());
        step_keeps_invariant(after(s, events.drop_last()), events.last());
    }
}

} // verus!
