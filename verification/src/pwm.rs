use crate::cycle::{spec_step, CycleCursor};
use vstd::prelude::*;

verus! {

/// What the PWM sequencer does next.
#[derive(PartialEq, Eq, Structural, Debug, Clone, Copy)]
pub enum PwmStep {
    /// Set the duty cycle to the value at this index, then sleep.
    Apply(usize),
    /// Leave the sequence.
    Stop,
}

/// One pass of the PWM loop, which walks round the duty values while the run
/// flag holds: the next index comes first; with none (no duty values) or with
/// the flag cleared, the loop stops; otherwise that value is applied.
pub fn pwm_step(cursor: &mut CycleCursor, running: bool) -> (step: PwmStep)
    requires
        old(cursor)@.wf(),
    ensures
        final(cursor)@.wf(),
        final(cursor)@ == spec_step(old(cursor)@),
        (step is Apply) == (old(cursor)@.len > 0 && running),
        (step matches PwmStep::Apply(i) ==> i == old(cursor)@.next),
{
    match cursor.advance() {
        None => PwmStep::Stop,
        Some(i) => {
            if !running {
                PwmStep::Stop
            } else {
                PwmStep::Apply(i)
            }
        },
    }
}

/// Abstract state of [`PwmControl`].
pub struct PwmControlState {
    /// A run flag has been installed by a start.
    pub flag_installed: bool,
    /// A started sequencer thread has not been joined yet.
    pub thread_pending: bool,
}

/// What `stop_pwm` is to do.
#[derive(PartialEq, Eq, Structural, Debug, Clone, Copy)]
pub struct StopPlan {
    /// Clear the installed run flag.
    pub clear_flag: bool,
    /// Join the pending sequencer thread.
    pub join_thread: bool,
}

/// The state after `start_pwm`.
pub open spec fn spec_started() -> PwmControlState {
    PwmControlState { flag_installed: true, thread_pending: true }
}

/// What `stop_pwm` does in state `s`.
pub open spec fn spec_stop_plan(s: PwmControlState) -> StopPlan {
    StopPlan { clear_flag: s.flag_installed, join_thread: s.flag_installed && s.thread_pending }
}

/// The state after `stop_pwm` in state `s`.
pub open spec fn spec_stopped(s: PwmControlState) -> PwmControlState {
    PwmControlState {
        flag_installed: s.flag_installed,
        thread_pending: s.thread_pending && !s.flag_installed,
    }
}

/// Bookkeeping of `start_pwm` and `stop_pwm`: whether a run flag is installed
/// and whether a sequencer thread waits to be joined.
pub struct PwmControl {
    flag_installed: bool,
    thread_pending: bool,
}

impl View for PwmControl {
    type V = PwmControlState;

    closed spec fn view(&self) -> PwmControlState {
        PwmControlState { flag_installed: self.flag_installed, thread_pending: self.thread_pending }
    }
}

impl PwmControl {
    /// Nothing started yet.
    pub fn new() -> (c: Self)
        ensures
            c@ == (PwmControlState { flag_installed: false, thread_pending: false }),
    {
        PwmControl { flag_installed: false, thread_pending: false }
    }

    /// `start_pwm`: a fresh run flag and a fresh thread replace any earlier
    /// ones (an earlier thread keeps its own flag and is no longer tracked).
    pub fn start(&mut self)
        ensures
            final(self)@ == spec_started(),
    {
        self.flag_installed = true;
        self.thread_pending = true;
    }

    /// `stop_pwm`: with a run flag installed, clear it and join the pending
    /// thread if there is one; the flag stays installed.
    pub fn stop(&mut self) -> (plan: StopPlan)
        ensures
            plan == spec_stop_plan(old(self)@),
            final(self)@ == spec_stopped(old(self)@),
    {
        if self.flag_installed {
            let join_thread = self.thread_pending;
            self.thread_pending = false;
            StopPlan { clear_flag: true, join_thread }
        } else {
            StopPlan { clear_flag: false, join_thread: false }
        }
    }
}

/// Law: after a start, a stop clears the run flag and joins the thread; a
/// second stop clears the flag again but has no thread left to join; before any
/// start, a stop does nothing.
pub proof fn lemma_stop_joins_once()
    ensures
        spec_stop_plan(spec_started()) == (StopPlan { clear_flag: true, join_thread: true }),
        spec_stop_plan(spec_stopped(spec_started())) == (StopPlan {
            clear_flag: true,
            join_thread: false,
        }),
        spec_stop_plan(PwmControlState { flag_installed: false, thread_pending: false }) == (
        StopPlan { clear_flag: false, join_thread: false }),
{
}

/// Law: a started sequencer thread is joined at most once. In every state, the
/// stop that follows a stop asks for no join (until the next start), and a
/// stop that asks for a join leaves no thread pending; a stop changes
/// nothing of a second stop's plan but the join.
pub proof fn lemma_join_at_most_once(s: PwmControlState)
    ensures
        !spec_stop_plan(spec_stopped(s)).join_thread,
        spec_stop_plan(s).join_thread ==> !spec_stopped(s).thread_pending,
        spec_stop_plan(spec_stopped(s)).clear_flag == s.flag_installed,
        spec_stopped(spec_stopped(s)) == spec_stopped(s),
        spec_stop_plan(spec_stopped(spec_started())) == (StopPlan { clear_flag: true, join_thread: false }),
{
}

} // verus!
