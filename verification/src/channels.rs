use std::collections::VecDeque;
use vstd::prelude::*;

verus! {

/// A command for the worker: the loop period in microseconds, the requested
/// program state, and the duty-cycle values to walk through, each held as the
/// bit pattern of its IEEE-754 double.
pub struct Command {
    pub loop_micros: u64,
    pub program_state: u8,
    pub duty_bits: Vec<u64>,
}

/// Abstract state of the [`ChannelModule`].
pub struct ModuleState {
    /// The worker has been started (it is started at most once).
    pub started: bool,
    /// The last error code recorded; 0 for none.
    pub error_code: u8,
    /// A flag that the host reads and writes freely.
    pub shared_flag: bool,
    /// A request for the worker to leave its current duty cycle loop.
    pub trigger: bool,
    /// A request for the worker to end.
    pub exit_request: bool,
    /// Commands sent and not yet received, oldest first.
    pub queue: Seq<Command>,
}

/// The state after `initialize_module`: the worker counts as started.
pub open spec fn spec_initialized(s: ModuleState) -> ModuleState {
    ModuleState { started: true, ..s }
}

/// The state after `send_value(c)`: the trigger is raised and `c` is queued last.
pub open spec fn spec_sent(s: ModuleState, c: Command) -> ModuleState {
    ModuleState { trigger: true, queue: s.queue.push(c), ..s }
}

/// What `receive_value` hands out: the oldest queued command, if any.
pub open spec fn spec_received(s: ModuleState) -> Option<Command> {
    if s.queue.len() == 0 {
        None
    } else {
        Some(s.queue[0])
    }
}

/// The state after `receive_value`: the oldest queued command, if any, is gone.
pub open spec fn spec_after_receive(s: ModuleState) -> ModuleState {
    if s.queue.len() == 0 {
        s
    } else {
        ModuleState { queue: s.queue.drop_first(), ..s }
    }
}

/// The state after `set_exit_request(v)`: both the exit request and the
/// trigger are set to `v`.
pub open spec fn spec_exit_set(s: ModuleState, v: bool) -> ModuleState {
    ModuleState { exit_request: v, trigger: v, ..s }
}

/// What `is_module_started_and_active` answers.
pub open spec fn spec_active(s: ModuleState) -> bool {
    s.started && !s.exit_request
}

/// The state shared between the host and the duty cycle worker: flags, an
/// error code, and the mailbox of commands for the worker.
pub struct ChannelModule {
    started: bool,
    error_code: u8,
    shared_flag: bool,
    trigger: bool,
    exit_request: bool,
    queue: VecDeque<Command>,
}

impl View for ChannelModule {
    type V = ModuleState;

    closed spec fn view(&self) -> ModuleState {
        ModuleState {
            started: self.started,
            error_code: self.error_code,
            shared_flag: self.shared_flag,
            trigger: self.trigger,
            exit_request: self.exit_request,
            queue: self.queue@,
        }
    }
}

impl ChannelModule {
    /// A module whose worker has not been started: all flags clear, error code
    /// 0, no commands queued.
    pub fn new() -> (m: Self)
        ensures
            m@ == (ModuleState {
                started: false,
                error_code: 0,
                shared_flag: false,
                trigger: false,
                exit_request: false,
                queue: Seq::empty(),
            }),
    {
        ChannelModule {
            started: false,
            error_code: 0,
            shared_flag: false,
            trigger: false,
            exit_request: false,
            queue: VecDeque::new(),
        }
    }

    /// Marks the worker as started; answers whether the caller must start it
    /// now, which is the case on the first call only.
    pub fn initialize_module(&mut self) -> (spawn: bool)
        ensures
            spawn == !old(self)@.started,
            final(self)@ == spec_initialized(old(self)@),
    {
        if !self.started {
            self.started = true;
            true
        } else {
            false
        }
    }

    /// Records an error code.
    pub fn set_error_code(&mut self, value: u8)
        ensures
            final(self)@ == (ModuleState { error_code: value, ..old(self)@ }),
    {
        self.error_code = value;
    }

    /// The last error code recorded.
    pub fn get_error_code(&self) -> (code: u8)
        ensures
            code == self@.error_code,
    {
        self.error_code
    }

    /// Resets the error code to 0.
    pub fn clear_error_code(&mut self)
        ensures
            final(self)@ == (ModuleState { error_code: 0, ..old(self)@ }),
    {
        self.error_code = 0;
    }

    /// Raises the trigger, so that a running duty cycle loop ends, and queues
    /// `command` for the worker.
    pub fn send_value(&mut self, command: Command)
        ensures
            final(self)@ == spec_sent(old(self)@, command),
    {
        self.trigger = true;
        self.queue.push_back(command);
    }

    /// Takes the oldest queued command, if there is one.
    pub fn receive_value(&mut self) -> (r: Option<Command>)
        ensures
            r == spec_received(old(self)@),
            final(self)@ == spec_after_receive(old(self)@),
    {
        let r = self.queue.pop_front();
        proof {
            if old(self)@.queue.len() > 0 {
                assert(self.queue@ =~= old(self)@.queue.drop_first());
            }
        }
        r
    }

    /// The shared flag.
    pub fn get_shared_bool(&self) -> (b: bool)
        ensures
            b == self@.shared_flag,
    {
        self.shared_flag
    }

    /// Sets the shared flag.
    pub fn set_shared_bool(&mut self, value: bool)
        ensures
            final(self)@ == (ModuleState { shared_flag: value, ..old(self)@ }),
    {
        self.shared_flag = value;
    }

    /// Sets the exit request, and the trigger along with it, to `value`: the
    /// worker then leaves its duty cycle loop and, seeing the request, ends.
    pub fn set_exit_request(&mut self, value: bool)
        ensures
            final(self)@ == spec_exit_set(old(self)@, value),
    {
        self.exit_request = value;
        self.trigger = value;
    }

    /// Raises the trigger.
    pub fn trigger_state_change(&mut self)
        ensures
            final(self)@ == (ModuleState { trigger: true, ..old(self)@ }),
    {
        self.trigger = true;
    }

    /// The exit request.
    pub fn get_exit_request_status(&self) -> (b: bool)
        ensures
            b == self@.exit_request,
    {
        self.exit_request
    }

    /// Whether the worker has been started.
    pub fn is_module_started(&self) -> (b: bool)
        ensures
            b == self@.started,
    {
        self.started
    }

    /// Whether the worker has been started and no exit has been requested.
    pub fn is_module_started_and_active(&self) -> (b: bool)
        ensures
            b == spec_active(self@),
    {
        self.started && !self.exit_request
    }

    /// Whether the trigger is raised.
    pub fn trigger_raised(&self) -> (b: bool)
        ensures
            b == self@.trigger,
    {
        self.trigger
    }

    /// Lowers the trigger.
    pub(crate) fn lower_trigger(&mut self)
        ensures
            final(self)@ == (ModuleState { trigger: false, ..old(self)@ }),
    {
        self.trigger = false;
    }
}

/// Law: the worker is started once; a second `initialize_module` asks for no
/// second worker and changes nothing.
pub proof fn lemma_initialize_once(s: ModuleState)
    ensures
        spec_initialized(s).started,
        spec_initialized(spec_initialized(s)) == spec_initialized(s),
{
}

/// Law: after `set_exit_request(v)` the exit status reads `v`, the trigger is
/// `v`, and the module is active exactly when it was started and `v` is false.
pub proof fn lemma_exit_request(s: ModuleState, v: bool)
    ensures
        spec_exit_set(s, v).exit_request == v,
        spec_exit_set(s, v).trigger == v,
        spec_active(spec_exit_set(s, v)) == (s.started && !v),
{
}

/// Law: the mailbox is first in, first out. Receiving after a send gives the
/// oldest command queued before it, or the sent command when none was queued;
/// the sent command then waits behind the rest.
pub proof fn lemma_mailbox_fifo(s: ModuleState, c: Command)
    ensures
        spec_received(spec_sent(s, c)) == (if s.queue.len() == 0 {
            Some(c)
        } else {
            Some(s.queue[0])
        }),
        spec_after_receive(spec_sent(s, c)).queue == (if s.queue.len() == 0 {
            Seq::<Command>::empty()
        } else {
            s.queue.drop_first().push(c)
        }),
{
    if s.queue.len() == 0 {
        assert(spec_sent(s, c).queue.drop_first() =~= Seq::<Command>::empty());
    } else {
        assert(spec_sent(s, c).queue.drop_first() =~= s.queue.drop_first().push(c));
    }
}

/// Law: activity reads the start flag and the exit request only. It is
/// `started && !exit_request` in every state; the trigger, the mailbox, the
/// error code and the shared flag do not change it, so a send or a raised
/// trigger leaves it as it was.
pub proof fn lemma_active_ignores_trigger(s: ModuleState, c: Command, b: bool)
    ensures
        spec_active(s) == (s.started && !s.exit_request),
        spec_active(spec_sent(s, c)) == spec_active(s),
        spec_active(ModuleState { trigger: b, ..s }) == spec_active(s),
        spec_active(spec_after_receive(s)) == spec_active(s),
        spec_active(spec_initialized(s)) == !s.exit_request,
{
}

} // verus!
