use splitnode::tier::{may_use, needs_lock, tier_of, Dispatch, Resource, Scheduler, Task, Tier};

#[test]
fn rendering_is_the_only_low_tier_task() {
    assert_eq!(tier_of(Task::Rendering), Tier::Low);
    assert_eq!(tier_of(Task::RadioPump), Tier::Medium);
    assert_eq!(tier_of(Task::InputPipeline), Tier::Medium);
    assert_eq!(tier_of(Task::Storage), Tier::Medium);
}

#[test]
fn only_the_medium_tier_preempts() {
    assert!(Tier::Medium.preempts(Tier::Low));
    assert!(!Tier::Low.preempts(Tier::Medium));
    assert!(!Tier::Medium.preempts(Tier::Medium));
    assert!(!Tier::Low.preempts(Tier::Low));
}

#[test]
fn the_medium_tier_never_waits_for_the_low_tier() {
    assert!(!Tier::Medium.may_wait_on(Tier::Low));
    assert!(Tier::Low.may_wait_on(Tier::Medium));
    assert!(Tier::Medium.may_wait_on(Tier::Medium));
    assert!(Tier::Low.may_wait_on(Tier::Low));
}

#[test]
fn an_idle_processor_runs_what_wakes() {
    let mut scheduler = Scheduler::new();
    assert_eq!(scheduler.on_processor(), None);
    assert_eq!(scheduler.wake(Task::Rendering), Dispatch::Run(Task::Rendering));
    assert_eq!(scheduler.on_processor(), Some(Tier::Low));
    assert_eq!(scheduler.suspend(), Dispatch::Sleep);
    assert_eq!(scheduler.on_processor(), None);
}

#[test]
fn suspending_with_nothing_running_sleeps() {
    let mut scheduler = Scheduler::new();
    assert_eq!(scheduler.suspend(), Dispatch::Sleep);
    assert_eq!(scheduler.on_processor(), None);
}

#[test]
fn pending_render_tick_waits_for_the_radio_pump() {
    let mut scheduler = Scheduler::new();
    // The radio pump is in the middle of a long stretch of work.
    assert_eq!(scheduler.wake(Task::RadioPump), Dispatch::Run(Task::RadioPump));
    // The rendering tick becomes due meanwhile: it is put off.
    assert_eq!(scheduler.wake(Task::Rendering), Dispatch::Continue);
    assert_eq!(scheduler.on_processor(), Some(Tier::Medium));
    assert_eq!(scheduler.low_task(), None);
    // More medium-tier work arrives; the rendering tick still waits.
    assert_eq!(scheduler.wake(Task::Storage), Dispatch::Continue);
    assert_eq!(scheduler.suspend(), Dispatch::Run(Task::Storage));
    assert_eq!(scheduler.on_processor(), Some(Tier::Medium));
    // The medium tier yields: the rendering tick runs at once.
    assert_eq!(scheduler.suspend(), Dispatch::Run(Task::Rendering));
    assert_eq!(scheduler.on_processor(), Some(Tier::Low));
    // It runs to its end without anything in between.
    assert_eq!(scheduler.suspend(), Dispatch::Sleep);
}

#[test]
fn interrupted_render_tick_resumes_when_the_medium_tier_yields() {
    let mut scheduler = Scheduler::new();
    assert_eq!(scheduler.wake(Task::Rendering), Dispatch::Run(Task::Rendering));
    // The radio interrupts the rendering pass.
    assert_eq!(scheduler.wake(Task::RadioPump), Dispatch::Run(Task::RadioPump));
    assert_eq!(scheduler.on_processor(), Some(Tier::Medium));
    assert_eq!(scheduler.low_task(), Some(Task::Rendering));
    assert_eq!(scheduler.wake(Task::InputPipeline), Dispatch::Continue);
    assert_eq!(scheduler.suspend(), Dispatch::Run(Task::InputPipeline));
    assert_eq!(scheduler.low_task(), Some(Task::Rendering));
    // The medium tier is done: the pass goes on where it was cut short.
    assert_eq!(scheduler.suspend(), Dispatch::Resume(Task::Rendering));
    assert_eq!(scheduler.on_processor(), Some(Tier::Low));
    assert_eq!(scheduler.suspend(), Dispatch::Sleep);
}

#[test]
fn tasks_of_one_tier_take_turns_in_the_order_they_woke() {
    let mut scheduler = Scheduler::new();
    assert_eq!(scheduler.wake(Task::Storage), Dispatch::Run(Task::Storage));
    assert_eq!(scheduler.wake(Task::RadioPump), Dispatch::Continue);
    assert_eq!(scheduler.wake(Task::InputPipeline), Dispatch::Continue);
    // Waking a task that is ready already does not queue it twice.
    assert_eq!(scheduler.wake(Task::RadioPump), Dispatch::Continue);
    assert_eq!(scheduler.suspend(), Dispatch::Run(Task::RadioPump));
    assert_eq!(scheduler.suspend(), Dispatch::Run(Task::InputPipeline));
    assert_eq!(scheduler.suspend(), Dispatch::Sleep);
}

#[test]
fn a_task_woken_while_it_runs_runs_again() {
    let mut scheduler = Scheduler::new();
    assert_eq!(scheduler.wake(Task::RadioPump), Dispatch::Run(Task::RadioPump));
    assert_eq!(scheduler.wake(Task::RadioPump), Dispatch::Continue);
    assert_eq!(scheduler.suspend(), Dispatch::Run(Task::RadioPump));
    assert_eq!(scheduler.suspend(), Dispatch::Sleep);
}

#[test]
fn both_tiers_share_the_arena_and_the_channel_only() {
    for resource in [Resource::Arena, Resource::Channel] {
        assert!(may_use(Tier::Medium, resource));
        assert!(may_use(Tier::Low, resource));
        assert!(needs_lock(resource));
    }
    for resource in [Resource::FrameBuffer, Resource::DisplayTransport] {
        assert!(!may_use(Tier::Medium, resource));
        assert!(may_use(Tier::Low, resource));
        assert!(!needs_lock(resource));
    }
    for resource in [Resource::Radio, Resource::Storage, Resource::KeyMatrix] {
        assert!(may_use(Tier::Medium, resource));
        assert!(!may_use(Tier::Low, resource));
        assert!(!needs_lock(resource));
    }
}
