use rust_experiments::channels::{ChannelModule, Command};
use rust_experiments::duty_worker::{DutyWorker, WorkerAction, WorkerPhase, INITIAL_LOOP_MICROS};

fn command(loop_micros: u64, program_state: u8, duty: &[f64]) -> Command {
    Command { loop_micros, program_state, duty_bits: duty.iter().map(|d| d.to_bits()).collect() }
}

#[test]
fn module_starts_once() {
    let mut m = ChannelModule::new();
    assert!(!m.is_module_started());
    assert!(m.initialize_module());
    assert!(m.is_module_started());
    assert!(!m.initialize_module());
    assert!(m.is_module_started());
}

#[test]
fn error_code_roundtrip() {
    let mut m = ChannelModule::new();
    assert_eq!(m.get_error_code(), 0);
    m.set_error_code(4);
    assert_eq!(m.get_error_code(), 4);
    m.clear_error_code();
    assert_eq!(m.get_error_code(), 0);
}

#[test]
fn shared_flag_roundtrip() {
    let mut m = ChannelModule::new();
    assert!(!m.get_shared_bool());
    m.set_shared_bool(true);
    assert!(m.get_shared_bool());
    m.set_shared_bool(false);
    assert!(!m.get_shared_bool());
}

#[test]
fn exit_request_sets_trigger_and_activity() {
    let mut m = ChannelModule::new();
    assert!(!m.is_module_started_and_active());
    m.initialize_module();
    assert!(m.is_module_started_and_active());
    m.set_exit_request(true);
    assert!(m.get_exit_request_status());
    assert!(m.trigger_raised());
    assert!(!m.is_module_started_and_active());
    m.set_exit_request(false);
    assert!(!m.get_exit_request_status());
    assert!(!m.trigger_raised());
    assert!(m.is_module_started_and_active());
    m.trigger_state_change();
    assert!(m.trigger_raised());
}

#[test]
fn mailbox_is_fifo() {
    let mut m = ChannelModule::new();
    assert!(m.receive_value().is_none());
    m.send_value(command(1, 1, &[0.1]));
    assert!(m.trigger_raised());
    m.send_value(command(2, 2, &[0.2, 0.3]));
    let a = m.receive_value().unwrap();
    assert_eq!((a.loop_micros, a.program_state), (1, 1));
    assert_eq!(a.duty_bits, vec![0.1f64.to_bits()]);
    let b = m.receive_value().unwrap();
    assert_eq!((b.loop_micros, b.program_state), (2, 2));
    assert!(m.receive_value().is_none());
}

#[test]
fn worker_initial_state() {
    let w = DutyWorker::new();
    assert_eq!(w.loop_micros(), INITIAL_LOOP_MICROS);
    assert_eq!(w.program_state(), 0);
    assert_eq!(w.duty_values(), &vec![0.0f64.to_bits(); 3]);
    assert_eq!(w.phase(), WorkerPhase::AwaitCommand);
}

#[test]
fn worker_scenario() {
    let mut m = ChannelModule::new();
    let mut w = DutyWorker::new();
    assert_eq!(w.step(&mut m), WorkerAction::Wait);
    m.send_value(command(500, 7, &[0.5, 0.25]));
    assert_eq!(w.step(&mut m), WorkerAction::Started { expected_length: false });
    assert!(!m.trigger_raised());
    assert_eq!(w.loop_micros(), 500);
    assert_eq!(w.program_state(), 7);
    assert_eq!(w.step(&mut m), WorkerAction::Emit(0.5f64.to_bits()));
    assert_eq!(w.step(&mut m), WorkerAction::Emit(0.25f64.to_bits()));
    assert_eq!(w.step(&mut m), WorkerAction::Emit(0.5f64.to_bits()));
    m.send_value(command(100, 1, &[1.0, 2.0, 3.0]));
    assert_eq!(w.step(&mut m), WorkerAction::Cancelled);
    assert_eq!(w.step(&mut m), WorkerAction::Report);
    assert_eq!(w.step(&mut m), WorkerAction::Resume);
    assert_eq!(w.step(&mut m), WorkerAction::Started { expected_length: true });
    assert_eq!(w.step(&mut m), WorkerAction::Emit(1.0f64.to_bits()));
    m.set_exit_request(true);
    assert_eq!(w.step(&mut m), WorkerAction::Cancelled);
    assert_eq!(w.step(&mut m), WorkerAction::Exit);
    assert_eq!(w.phase(), WorkerPhase::Finished);
    assert_eq!(w.step(&mut m), WorkerAction::Exit);
}

#[test]
fn worker_with_no_values_leaves_loop_at_once() {
    let mut m = ChannelModule::new();
    let mut w = DutyWorker::new();
    m.send_value(command(10, 0, &[]));
    assert_eq!(w.step(&mut m), WorkerAction::Started { expected_length: false });
    assert_eq!(w.step(&mut m), WorkerAction::Cancelled);
    assert_eq!(w.step(&mut m), WorkerAction::Report);
}

#[test]
fn trigger_alone_cancels_then_resumes() {
    let mut m = ChannelModule::new();
    let mut w = DutyWorker::new();
    m.send_value(command(10, 0, &[0.5]));
    assert_eq!(w.step(&mut m), WorkerAction::Started { expected_length: false });
    m.trigger_state_change();
    assert_eq!(w.step(&mut m), WorkerAction::Cancelled);
    assert_eq!(w.step(&mut m), WorkerAction::Report);
    assert_eq!(w.step(&mut m), WorkerAction::Resume);
    assert_eq!(w.step(&mut m), WorkerAction::Wait);
    assert_eq!(w.phase(), WorkerPhase::AwaitCommand);
}
