use crate::channels::{
    spec_after_receive, spec_exit_set, spec_sent, ChannelModule, Command, ModuleState,
};
use crate::cycle::{spec_step, CycleCursor, CycleState};
use vstd::prelude::*;

verus! {

/// The number of duty values that a well-formed command carries.
pub const EXPECTED_DUTY_COUNT: usize = 3;

/// The loop period, in microseconds, before the first command arrives.
pub const INITIAL_LOOP_MICROS: u64 = 20000;

/// Where the worker stands in its loop.
#[derive(PartialEq, Eq, Structural, Debug, Clone, Copy)]
pub enum WorkerPhase {
    /// Waiting for the next command.
    AwaitCommand,
    /// Walking round the duty values of the current command.
    Cycling,
    /// The duty cycle loop has just ended.
    Cancelled,
    /// The current values have been reported.
    Reported,
    /// The worker has ended.
    Finished,
}

/// What the host is to do after a step of the worker.
#[derive(PartialEq, Eq, Structural, Debug, Clone, Copy)]
pub enum WorkerAction {
    /// No command is queued: wait for one, then step again.
    Wait,
    /// A command has been adopted; `expected_length` tells whether it carries
    /// [`EXPECTED_DUTY_COUNT`] duty values.
    Started { expected_length: bool },
    /// Output this duty value (an IEEE-754 bit pattern), then pace the loop to
    /// the loop period.
    Emit(u64),
    /// The duty cycle loop was left.
    Cancelled,
    /// Report the duty values, the loop period and the program state.
    Report,
    /// Go back to waiting for the next command.
    Resume,
    /// The worker ends.
    Exit,
}

/// Abstract state of a [`DutyWorker`].
pub struct WorkerState {
    pub loop_micros: u64,
    pub program_state: u8,
    pub duty: Seq<u64>,
    pub cursor: CycleState,
    pub phase: WorkerPhase,
}

impl WorkerState {
    /// The cursor walks over exactly the duty values.
    pub open spec fn wf(self) -> bool {
        &&& self.cursor.wf()
        &&& self.cursor.len == self.duty.len()
    }
}

/// The worker state after adopting command `c`.
pub open spec fn spec_adopted(c: Command) -> WorkerState {
    WorkerState {
        loop_micros: c.loop_micros,
        program_state: c.program_state,
        duty: c.duty_bits@,
        cursor: CycleState { len: c.duty_bits@.len(), next: 0 },
        phase: WorkerPhase::Cycling,
    }
}

/// One step of the worker on the shared module state: the worker's next
/// state, the module's next state, and the action for the host.
pub open spec fn spec_worker_step(w: WorkerState, m: ModuleState) -> (
    WorkerState,
    ModuleState,
    WorkerAction,
) {
    match w.phase {
        WorkerPhase::AwaitCommand => {
            if m.queue.len() == 0 {
                (w, m, WorkerAction::Wait)
            } else {
                let c = m.queue[0];
                (
                    spec_adopted(c),
                    ModuleState { trigger: false, ..spec_after_receive(m) },
                    WorkerAction::Started {
                        expected_length: c.duty_bits@.len() == EXPECTED_DUTY_COUNT,
                    },
                )
            }
        },
        WorkerPhase::Cycling => {
            if w.cursor.len == 0 {
                (WorkerState { phase: WorkerPhase::Cancelled, ..w }, m, WorkerAction::Cancelled)
            } else {
                let moved = spec_step(w.cursor);
                if m.trigger {
                    (
                        WorkerState { phase: WorkerPhase::Cancelled, cursor: moved, ..w },
                        m,
                        WorkerAction::Cancelled,
                    )
                } else {
                    (
                        WorkerState { cursor: moved, ..w },
                        m,
                        WorkerAction::Emit(w.duty[w.cursor.next as int]),
                    )
                }
            }
        },
        WorkerPhase::Cancelled => {
            if m.exit_request {
                (WorkerState { phase: WorkerPhase::Finished, ..w }, m, WorkerAction::Exit)
            } else {
                (WorkerState { phase: WorkerPhase::Reported, ..w }, m, WorkerAction::Report)
            }
        },
        WorkerPhase::Reported => {
            if m.exit_request {
                (WorkerState { phase: WorkerPhase::Finished, ..w }, m, WorkerAction::Exit)
            } else {
                (WorkerState { phase: WorkerPhase::AwaitCommand, ..w }, m, WorkerAction::Resume)
            }
        },
        WorkerPhase::Finished => (w, m, WorkerAction::Exit),
    }
}

/// The duty cycle worker: it takes commands from the module's mailbox, walks
/// round their duty values until the trigger is raised, reports, and ends once
/// an exit is requested.
pub struct DutyWorker {
    loop_micros: u64,
    program_state: u8,
    duty_bits: Vec<u64>,
    cursor: CycleCursor,
    phase: WorkerPhase,
}

impl View for DutyWorker {
    type V = WorkerState;

    closed spec fn view(&self) -> WorkerState {
        WorkerState {
            loop_micros: self.loop_micros,
            program_state: self.program_state,
            duty: self.duty_bits@,
            cursor: self.cursor@,
            phase: self.phase,
        }
    }
}

impl DutyWorker {
    /// A worker waiting for its first command, with a loop period of
    /// [`INITIAL_LOOP_MICROS`], program state 0 and three duty values of 0.0.
    pub fn new() -> (w: Self)
        ensures
            w@ == (WorkerState {
                loop_micros: INITIAL_LOOP_MICROS,
                program_state: 0,
                duty: seq![0u64, 0u64, 0u64],
                cursor: CycleState { len: 3, next: 0 },
                phase: WorkerPhase::AwaitCommand,
            }),
            w@.wf(),
    {
        let duty_bits: Vec<u64> = vec![0u64, 0u64, 0u64];
        let w = DutyWorker {
            loop_micros: INITIAL_LOOP_MICROS,
            program_state: 0,
            cursor: CycleCursor::new(duty_bits.len()),
            duty_bits,
            phase: WorkerPhase::AwaitCommand,
        };
        assert(w@.duty =~= seq![0u64, 0u64, 0u64]);
        w
    }

    /// The loop period in microseconds.
    pub fn loop_micros(&self) -> (r: u64)
        ensures
            r == self@.loop_micros,
    {
        self.loop_micros
    }

    /// The program state of the current command.
    pub fn program_state(&self) -> (r: u8)
        ensures
            r == self@.program_state,
    {
        self.program_state
    }

    /// The duty values (IEEE-754 bit patterns) of the current command.
    pub fn duty_values(&self) -> (r: &Vec<u64>)
        ensures
            r@ == self@.duty,
    {
        &self.duty_bits
    }

    /// Where the worker stands.
    pub fn phase(&self) -> (r: WorkerPhase)
        ensures
            r == self@.phase,
    {
        self.phase
    }

    /// Takes one step on the shared module state, as [`spec_worker_step`] says.
    pub fn step(&mut self, module: &mut ChannelModule) -> (action: WorkerAction)
        requires
            old(self)@.wf(),
        ensures
            final(self)@.wf(),
            (final(self)@, final(module)@, action) == spec_worker_step(old(self)@, old(module)@),
    {
        match self.phase {
            WorkerPhase::AwaitCommand => {
                match module.receive_value() {
                    None => WorkerAction::Wait,
                    Some(command) => {
                        let expected_length = command.duty_bits.len() == EXPECTED_DUTY_COUNT;
                        self.loop_micros = command.loop_micros;
                        self.program_state = command.program_state;
                        self.cursor = CycleCursor::new(command.duty_bits.len());
                        self.duty_bits = command.duty_bits;
                        self.phase = WorkerPhase::Cycling;
                        module.lower_trigger();
                        WorkerAction::Started { expected_length }
                    },
                }
            },
            WorkerPhase::Cycling => {
                match self.cursor.advance() {
                    None => {
                        self.phase = WorkerPhase::Cancelled;
                        WorkerAction::Cancelled
                    },
                    Some(i) => {
                        if module.trigger_raised() {
                            self.phase = WorkerPhase::Cancelled;
                            WorkerAction::Cancelled
                        } else {
                            WorkerAction::Emit(self.duty_bits[i])
                        }
                    },
                }
            },
            WorkerPhase::Cancelled => {
                if module.get_exit_request_status() {
                    self.phase = WorkerPhase::Finished;
                    WorkerAction::Exit
                } else {
                    self.phase = WorkerPhase::Reported;
                    WorkerAction::Report
                }
            },
            WorkerPhase::Reported => {
                if module.get_exit_request_status() {
                    self.phase = WorkerPhase::Finished;
                    WorkerAction::Exit
                } else {
                    self.phase = WorkerPhase::AwaitCommand;
                    WorkerAction::Resume
                }
            },
            WorkerPhase::Finished => WorkerAction::Exit,
        }
    }
}

/// Law: a worker waiting on an empty mailbox adopts exactly the next command
/// sent to it, and lowers the trigger that the send raised.
pub proof fn lemma_worker_adopts_sent_command(w: WorkerState, m: ModuleState, c: Command)
    requires
        w.phase == WorkerPhase::AwaitCommand,
        m.queue.len() == 0,
    ensures
        spec_worker_step(w, spec_sent(m, c)).0 == spec_adopted(c),
        !spec_worker_step(w, spec_sent(m, c)).1.trigger,
        spec_worker_step(w, spec_sent(m, c)).1.queue.len() == 0,
{
}

/// Law: a worker never outputs a duty value while the trigger is raised; so a
/// send, which raises it, ends the duty cycle loop at the next step.
pub proof fn lemma_send_cancels_cycle(w: WorkerState, m: ModuleState, c: Command)
    requires
        w.phase == WorkerPhase::Cycling,
    ensures
        spec_worker_step(w, spec_sent(m, c)).2 == WorkerAction::Cancelled,
        spec_worker_step(w, spec_sent(m, c)).0.phase == WorkerPhase::Cancelled,
{
}

/// Law: an output duty value is the one the cursor stood on, taken while the
/// trigger was lowered.
pub proof fn lemma_emit_follows_cursor(w: WorkerState, m: ModuleState, v: u64)
    requires
        w.wf(),
        spec_worker_step(w, m).2 == WorkerAction::Emit(v),
    ensures
        !m.trigger,
        w.phase == WorkerPhase::Cycling,
        v == w.duty[w.cursor.next as int],
{
}

/// Law: once an exit is requested of a cycling worker, it leaves its loop at
/// the next step and ends at the one after, and an ended worker stays ended.
pub proof fn lemma_exit_request_ends_worker(w: WorkerState, m: ModuleState)
    requires
        w.phase == WorkerPhase::Cycling,
    ensures
        ({
            let first = spec_worker_step(w, spec_exit_set(m, true));
            let second = spec_worker_step(first.0, first.1);
            &&& first.2 == WorkerAction::Cancelled
            &&& second.2 == WorkerAction::Exit
            &&& second.0.phase == WorkerPhase::Finished
            &&& spec_worker_step(second.0, second.1) == (second.0, second.1, WorkerAction::Exit)
        }),
{
}

/// Law: while the trigger stays lowered, a cycling worker outputs the duty
/// values round robin: standing at `k % n` over `n > 0` values, it outputs
/// value `k % n` and moves to `(k + 1) % n`. A freshly adopted command stands
/// at 0, so its `k`-th output is value `k % n`.
pub proof fn lemma_emits_round_robin(w: WorkerState, m: ModuleState, k: nat)
    requires
        w.wf(),
        w.phase == WorkerPhase::Cycling,
        !m.trigger,
        w.duty.len() > 0,
        w.cursor.next == k % w.duty.len(),
    ensures
        spec_worker_step(w, m).2 == WorkerAction::Emit(w.duty[(k % w.duty.len()) as int]),
        spec_worker_step(w, m).0.cursor.next == (k + 1) % w.duty.len(),
        spec_worker_step(w, m).0.phase == WorkerPhase::Cycling,
        spec_worker_step(w, m).1 == m,
{
    crate::cycle::lemma_cycle_round_robin(w.duty.len(), k);
}

/// Law: an exit request is honoured. Once it holds, a worker that has left its
/// duty cycle loop (cancelled or reported) outputs `Exit` and is finished at
/// the next step, whatever its other state, without touching the module; a
/// finished worker stays finished. A cycling worker whose trigger is raised
/// leaves its loop at the next step and so ends at the one after.
pub proof fn lemma_exit_request_honoured(w: WorkerState, m: ModuleState)
    requires
        m.exit_request,
    ensures
        (w.phase == WorkerPhase::Cancelled || w.phase == WorkerPhase::Reported
            || w.phase == WorkerPhase::Finished) ==> ({
            let next = spec_worker_step(w, m);
            &&& next.2 == WorkerAction::Exit
            &&& next.0.phase == WorkerPhase::Finished
            &&& next.0.duty == w.duty
            &&& next.1 == m
        }),
        (w.phase == WorkerPhase::Cycling && m.trigger) ==> ({
            let first = spec_worker_step(w, m);
            let second = spec_worker_step(first.0, first.1);
            &&& first.2 == WorkerAction::Cancelled
            &&& second.2 == WorkerAction::Exit
            &&& second.0.phase == WorkerPhase::Finished
        }),
{
}

} // verus!
