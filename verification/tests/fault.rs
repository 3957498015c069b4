use rtengine::control::control_flow;
use rtengine::control::control_step;
use rtengine::control::ControlEvent;
use rtengine::control::Flow;
use rtengine::fault::FaultFlag;
use rtengine::fault::Termination;
use rtengine::input::InputAggregator;
use rtengine::input::KeyEvent;
use rtengine::render::RenderEvent;
use rtengine::render::RenderPhase;

#[test]
fn abnormal_end_of_the_worker_turns_the_flag_once() {
    let mut flag = FaultFlag::new();
    assert!(flag.is_healthy());
    assert_eq!(control_flow(Some(flag.is_healthy()), ControlEvent::Other), Flow::Wait);
    let first = flag.watch(Termination::Abnormal);
    assert!(first);
    assert!(!flag.is_healthy());
    assert_eq!(control_flow(Some(flag.is_healthy()), ControlEvent::Other), Flow::Exit);
    let second = flag.watch(Termination::Abnormal);
    assert!(!second);
    assert!(!flag.is_healthy());
}

#[test]
fn normal_end_of_the_worker_leaves_the_flag() {
    let mut flag = FaultFlag::new();
    assert!(!flag.watch(Termination::Normal));
    assert!(flag.is_healthy());
}

#[test]
fn unhealthy_flag_never_recovers() {
    let mut flag = FaultFlag::new();
    flag.watch(Termination::Abnormal);
    flag.watch(Termination::Normal);
    assert!(!flag.is_healthy());
    flag.watch(Termination::Normal);
    flag.watch(Termination::Abnormal);
    flag.watch(Termination::Normal);
    assert!(!flag.is_healthy());
}

#[test]
fn failing_render_worker_is_seen_by_the_next_poll() {
    let flag = std::sync::Arc::new(std::sync::RwLock::new(FaultFlag::new()));
    let watched = std::sync::Arc::clone(&flag);
    let worker_result: Result<(), String> = Err(String::from("render worker died"));
    let mut turns = 0;
    let outcome = if worker_result.is_ok() { Termination::Normal } else { Termination::Abnormal };
    if let Ok(mut health) = watched.write() {
        if health.watch(outcome) {
            turns += 1;
        }
        if health.watch(outcome) {
            turns += 1;
        }
    }
    assert_eq!(turns, 1);
    let health = flag.read().ok().map(|h| h.is_healthy());
    assert_eq!(health, Some(false));
    assert_eq!(control_flow(health, ControlEvent::Key(KeyEvent::Pressed(1))), Flow::Exit);
}

#[test]
fn control_loop_leaves_on_a_close_request() {
    assert_eq!(control_flow(Some(true), ControlEvent::CloseRequested), Flow::Exit);
    assert_eq!(control_flow(None, ControlEvent::CloseRequested), Flow::Exit);
    assert_eq!(control_flow(Some(false), ControlEvent::CloseRequested), Flow::Exit);
}

#[test]
fn control_loop_waits_where_the_flag_cannot_be_read() {
    assert_eq!(control_flow(None, ControlEvent::Other), Flow::Wait);
    assert_eq!(control_flow(None, ControlEvent::Key(KeyEvent::Released(2))), Flow::Wait);
    assert_eq!(control_flow(Some(true), ControlEvent::Other), Flow::Wait);
}

#[test]
fn control_step_records_key_events() {
    let mut keys = InputAggregator::new();
    assert_eq!(control_step(Some(true), ControlEvent::Key(KeyEvent::Pressed(6)), &mut keys), Flow::Wait);
    assert_eq!(control_step(Some(true), ControlEvent::Key(KeyEvent::Pressed(6)), &mut keys), Flow::Wait);
    assert_eq!(control_step(Some(true), ControlEvent::Key(KeyEvent::Pressed(2)), &mut keys), Flow::Wait);
    assert_eq!(keys.snapshot(), vec![6, 2]);
    assert_eq!(control_step(Some(true), ControlEvent::Other, &mut keys), Flow::Wait);
    assert_eq!(keys.snapshot(), vec![6, 2]);
    assert_eq!(control_step(Some(false), ControlEvent::Key(KeyEvent::Released(6)), &mut keys), Flow::Exit);
    assert_eq!(keys.snapshot(), vec![2]);
    assert_eq!(control_step(Some(true), ControlEvent::CloseRequested, &mut keys), Flow::Exit);
    assert_eq!(keys.snapshot(), vec![2]);
}

#[test]
fn render_loop_runs_after_setup_and_ends_on_failure() {
    let phase = RenderPhase::Initializing;
    let phase = phase.next(RenderEvent::SetupDone);
    assert_eq!(phase, RenderPhase::Running);
    let phase = phase.next(RenderEvent::FramePresented);
    assert_eq!(phase, RenderPhase::Running);
    let phase = phase.next(RenderEvent::Failure);
    assert_eq!(phase, RenderPhase::Terminated);
}

#[test]
fn terminated_render_loop_is_not_entered_again() {
    let events = [RenderEvent::SetupDone, RenderEvent::FramePresented, RenderEvent::Failure];
    for e in events.iter() {
        assert_eq!(RenderPhase::Terminated.next(*e), RenderPhase::Terminated);
    }
}

#[test]
fn render_loop_can_fail_during_setup() {
    assert_eq!(RenderPhase::Initializing.next(RenderEvent::Failure), RenderPhase::Terminated);
    assert_eq!(RenderPhase::Initializing.next(RenderEvent::FramePresented), RenderPhase::Initializing);
    assert_eq!(RenderPhase::Running.next(RenderEvent::SetupDone), RenderPhase::Running);
}
