use rust_experiments::cycle::CycleCursor;
use rust_experiments::pwm::{pwm_step, PwmControl, PwmStep, StopPlan};
use rust_experiments::slots::{
    other_slot, SlotAction, SlotPhase, SlotWorker, FINAL_MESSAGE, FIRST_BUFFER, SECOND_BUFFER,
};

#[test]
fn cursor_walks_round_robin() {
    let mut c = CycleCursor::new(3);
    let got: Vec<Option<usize>> = (0..7).map(|_| c.advance()).collect();
    assert_eq!(got, vec![Some(0), Some(1), Some(2), Some(0), Some(1), Some(2), Some(0)]);
    assert_eq!(c.peek(), 1);
    assert_eq!(c.len(), 3);
}

#[test]
fn empty_cursor_yields_nothing() {
    let mut c = CycleCursor::new(0);
    assert_eq!(c.advance(), None);
    assert_eq!(c.advance(), None);
    assert_eq!(c.peek(), 0);
}

#[test]
fn pwm_applies_in_turn_while_running() {
    let mut c = CycleCursor::new(2);
    assert_eq!(pwm_step(&mut c, true), PwmStep::Apply(0));
    assert_eq!(pwm_step(&mut c, true), PwmStep::Apply(1));
    assert_eq!(pwm_step(&mut c, true), PwmStep::Apply(0));
    assert_eq!(pwm_step(&mut c, false), PwmStep::Stop);
}

#[test]
fn pwm_without_duty_values_stops_at_once() {
    let mut c = CycleCursor::new(0);
    assert_eq!(pwm_step(&mut c, true), PwmStep::Stop);
}

#[test]
fn pwm_stop_joins_once() {
    let mut control = PwmControl::new();
    assert_eq!(control.stop(), StopPlan { clear_flag: false, join_thread: false });
    control.start();
    assert_eq!(control.stop(), StopPlan { clear_flag: true, join_thread: true });
    assert_eq!(control.stop(), StopPlan { clear_flag: true, join_thread: false });
    control.start();
    assert_eq!(control.stop(), StopPlan { clear_flag: true, join_thread: true });
}

#[test]
fn slots_alternate() {
    assert_eq!(other_slot(FIRST_BUFFER), SECOND_BUFFER);
    assert_eq!(other_slot(SECOND_BUFFER), FIRST_BUFFER);
    assert_eq!(FINAL_MESSAGE, 2);
}

#[test]
fn slot_worker_scenario() {
    let mut w = SlotWorker::new();
    assert_eq!(w.phase(), SlotPhase::AwaitStart);
    assert_eq!(w.slot(), FIRST_BUFFER);
    w.start(10, FIRST_BUFFER);
    assert_eq!(w.period_ms(), 10);
    assert_eq!(w.observe_flag(true), SlotAction::Tick { count: 1, tag: 0 });
    assert_eq!(w.observe_flag(true), SlotAction::Tick { count: 2, tag: 0 });
    assert_eq!(w.observe_flag(false), SlotAction::Rearm { slot: FIRST_BUFFER });
    assert_eq!(w.phase(), SlotPhase::CheckFinal);
    assert_eq!(w.observe_final(true), SlotAction::AwaitStart { slot: SECOND_BUFFER });
    w.start(50, SECOND_BUFFER);
    assert_eq!(w.count(), 0);
    assert_eq!(w.observe_flag(true), SlotAction::Tick { count: 1, tag: 1 });
    assert_eq!(w.observe_flag(false), SlotAction::Rearm { slot: SECOND_BUFFER });
    assert_eq!(w.observe_final(true), SlotAction::AwaitStart { slot: FIRST_BUFFER });
    w.start(10, SECOND_BUFFER);
    assert_eq!(w.observe_flag(false), SlotAction::Rearm { slot: FIRST_BUFFER });
    assert_eq!(w.observe_final(false), SlotAction::Exit);
    assert_eq!(w.phase(), SlotPhase::Finished);
}
