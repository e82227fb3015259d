use sim_protocol::design_hierarchy::{DesignHierarchy, Direction, Module, ModuleKind, Signal, SignalType};
use sim_protocol::from_simulator::{NewValues, NewValuesEnum, SignalValuesInRange, SimulationUpdate};
use sim_protocol::session::Session;
use sim_protocol::time::{Delta, LogicalTime, PhysicalTime};
use sim_protocol::to_simulator::{Command, SignalTrackingRequest};
use sim_protocol::{SignalInstanceId, SimulationStatus};

fn lt(physical: u64, delta: u64) -> LogicalTime {
    LogicalTime::new(PhysicalTime(physical), Delta(delta))
}

fn one_integer_signal_design() -> DesignHierarchy {
    let mut top = Module::new("u_top", ModuleKind::design_entity("top", "rtl"));
    top.push_signal(Signal::new(
        "count",
        SignalInstanceId(7),
        None,
        SignalType::Integer { min: 0, max: 255, direction: Direction::To },
    ));
    DesignHierarchy { root_modules: vec![top] }
}

fn track(ids: Vec<u32>, enabled: bool, subscribe: bool) -> Command {
    Command::TrackSignals(SignalTrackingRequest {
        signal_instance_ids: ids.into_iter().map(SignalInstanceId).collect(),
        enabled,
        subscribe,
    })
}

fn update_with_one_u8_event(id: u32, at: LogicalTime, value: u8, range: std::ops::Range<LogicalTime>) -> SignalValuesInRange {
    let mut nv: NewValues<u8> = NewValues::new(SignalInstanceId(id));
    nv.push_event(at, value);
    let mut update = SignalValuesInRange::new(range);
    update.push_batch(NewValuesEnum::U8(nv));
    update
}

#[test]
fn start_emits_started_then_hierarchy() {
    let mut session = Session::new(one_integer_signal_design());
    assert_eq!(session.status, None);
    let out = session.apply_command(&Command::StartSimulation);
    assert_eq!(out.len(), 2);
    assert!(matches!(out[0], SimulationUpdate::SimulationStarted));
    match &out[1] {
        SimulationUpdate::DesignHierarchy(h) => {
            assert_eq!(h.collect_declared_ids(), vec![7]);
        },
        _ => panic!("the hierarchy snapshot must follow the started event"),
    }
    assert_eq!(session.status, Some(SimulationStatus::Running));
}

#[test]
fn tracked_signal_timeline_is_reconstructed() {
    let mut session = Session::new(one_integer_signal_design());
    session.apply_command(&Command::StartSimulation);
    let out = session.apply_command(&track(vec![7], true, true));
    assert!(out.is_empty());

    let update = update_with_one_u8_event(7, lt(50, 0), 42, lt(0, 0)..lt(100, 0));
    let emitted = session.emit_update(update);
    let update = match emitted {
        Some(SimulationUpdate::SignalValuesInRange(u)) => u,
        _ => panic!("a well-formed update for a tracked, declared signal must satisfy the guard"),
    };

    let i = update.batch_index_for(SignalInstanceId(7)).expect("signal seven has a batch");
    match &update.values_in_range[i] {
        NewValuesEnum::U8(nv) => {
            assert_eq!(nv.timestamps, vec![lt(50, 0)]);
            assert_eq!(nv.values, vec![42]);
        },
        _ => panic!("the batch for signal seven carries bytes"),
    }
    for other in [1u32, 6, 8, 100] {
        assert_eq!(update.batch_index_for(SignalInstanceId(other)), None);
    }
}

#[test]
fn disabled_signal_is_excluded_from_updates() {
    let mut session = Session::new(one_integer_signal_design());
    session.apply_command(&Command::StartSimulation);
    session.apply_command(&track(vec![7], true, true));
    session.apply_command(&track(vec![7], false, true));

    let update = update_with_one_u8_event(7, lt(50, 0), 42, lt(0, 0)..lt(100, 0));
    assert!(session.emit_update(update).is_none());
    assert!(session.subscribed_ids.contains(&7));
    assert!(!session.enabled_ids.contains(&7));

    let empty_window = SignalValuesInRange::new(lt(0, 0)..lt(100, 0));
    assert!(session.emit_update(empty_window).is_some());
}

#[test]
fn untracked_or_undeclared_signal_is_never_emitted() {
    let mut session = Session::new(one_integer_signal_design());
    session.apply_command(&Command::StartSimulation);

    let untracked = update_with_one_u8_event(7, lt(1, 0), 1, lt(0, 0)..lt(10, 0));
    assert!(session.emit_update(untracked).is_none());

    session.apply_command(&track(vec![7, 8], true, true));
    let undeclared = update_with_one_u8_event(8, lt(1, 0), 1, lt(0, 0)..lt(10, 0));
    assert!(session.emit_update(undeclared).is_none());
}

#[test]
fn no_update_before_the_hierarchy_snapshot() {
    let mut session = Session::new(one_integer_signal_design());
    session.apply_command(&track(vec![7], true, true));
    let update = update_with_one_u8_event(7, lt(1, 0), 1, lt(0, 0)..lt(10, 0));
    assert!(session.emit_update(update).is_none());
}

#[test]
fn update_windows_are_non_decreasing() {
    let mut session = Session::new(one_integer_signal_design());
    session.apply_command(&Command::StartSimulation);
    session.apply_command(&track(vec![7], true, true));

    let first = update_with_one_u8_event(7, lt(5, 0), 1, lt(0, 0)..lt(10, 0));
    assert!(session.emit_update(first).is_some());

    let overlapping = update_with_one_u8_event(7, lt(9, 0), 2, lt(9, 0)..lt(20, 0));
    assert!(session.emit_update(overlapping).is_none());

    let next = update_with_one_u8_event(7, lt(12, 0), 2, lt(10, 0)..lt(20, 0));
    assert!(session.emit_update(next).is_some());

    let reversed = SignalValuesInRange::new(lt(30, 0)..lt(25, 0));
    assert!(session.emit_update(reversed).is_none());
}

#[test]
fn restart_reissues_the_hierarchy_and_withdraws_tracking() {
    let mut session = Session::new(one_integer_signal_design());
    session.apply_command(&Command::StartSimulation);
    session.apply_command(&track(vec![7], true, true));
    let first = update_with_one_u8_event(7, lt(5, 0), 1, lt(0, 0)..lt(10, 0));
    assert!(session.emit_update(first).is_some());

    let out = session.apply_command(&Command::RestartSimulation);
    assert_eq!(out.len(), 1);
    assert!(matches!(out[0], SimulationUpdate::DesignHierarchy(_)));
    assert_eq!(session.status, Some(SimulationStatus::Running));
    assert!(session.enabled_ids.is_empty());
    assert!(session.subscribed_ids.is_empty());

    let stale = update_with_one_u8_event(7, lt(1, 0), 1, lt(0, 0)..lt(10, 0));
    assert!(session.emit_update(stale).is_none());

    session.apply_command(&track(vec![7], true, true));
    let fresh = update_with_one_u8_event(7, lt(1, 0), 1, lt(0, 0)..lt(10, 0));
    assert!(session.emit_update(fresh).is_some());
}

#[test]
fn stop_is_terminal() {
    let mut session = Session::new(one_integer_signal_design());
    session.apply_command(&Command::StartSimulation);
    session.apply_command(&track(vec![7], true, true));
    let out = session.apply_command(&Command::StopSimulation);
    assert_eq!(out.len(), 1);
    assert!(matches!(out[0], SimulationUpdate::SimulationStopped));

    let update = update_with_one_u8_event(7, lt(1, 0), 1, lt(0, 0)..lt(10, 0));
    assert!(session.emit_update(update).is_none());
    assert!(session.apply_command(&Command::StartSimulation).is_empty());
    assert!(session.apply_command(&Command::RestartSimulation).is_empty());
    assert!(session.apply_command(&Command::StopSimulation).is_empty());
}

#[test]
fn pause_and_resume_toggle_delivery() {
    let mut session = Session::new(one_integer_signal_design());
    session.apply_command(&Command::StartSimulation);
    session.apply_command(&track(vec![7], true, true));

    let out = session.apply_command(&Command::PauseSimulation);
    assert!(matches!(out[0], SimulationUpdate::SimulationPaused));
    assert_eq!(session.status, Some(SimulationStatus::Paused));
    let while_paused = update_with_one_u8_event(7, lt(1, 0), 1, lt(0, 0)..lt(10, 0));
    assert!(session.emit_update(while_paused).is_none());

    let out = session.apply_command(&Command::ResumeSimulation);
    assert!(matches!(out[0], SimulationUpdate::SimulationResumed));
    let after_resume = update_with_one_u8_event(7, lt(1, 0), 1, lt(0, 0)..lt(10, 0));
    assert!(session.emit_update(after_resume).is_some());

    assert!(session.apply_command(&Command::ResumeSimulation).is_empty());
}

#[test]
fn lifecycle_commands_in_the_wrong_state_are_ignored() {
    let mut session = Session::new(one_integer_signal_design());
    assert!(session.apply_command(&Command::PauseSimulation).is_empty());
    assert!(session.apply_command(&Command::ResumeSimulation).is_empty());
    assert!(session.apply_command(&Command::RestartSimulation).is_empty());
    assert!(session.apply_command(&Command::StopSimulation).is_empty());
    assert_eq!(session.status, None);
    let out = session.apply_command(&Command::StartSimulation);
    assert_eq!(out.len(), 2);
    assert!(session.apply_command(&Command::StartSimulation).is_empty());
}

#[test]
fn subscribe_flag_settles_the_remembered_set() {
    let mut session = Session::new(one_integer_signal_design());
    session.apply_command(&Command::StartSimulation);

    session.apply_command(&track(vec![7], true, false));
    assert!(session.enabled_ids.contains(&7));
    assert!(!session.subscribed_ids.contains(&7));

    session.apply_command(&track(vec![7], true, true));
    assert!(session.subscribed_ids.contains(&7));

    session.apply_command(&track(vec![7], false, true));
    assert!(!session.enabled_ids.contains(&7));
    assert!(session.subscribed_ids.contains(&7));

    session.apply_command(&track(vec![7], false, false));
    assert!(!session.subscribed_ids.contains(&7));
}
