use vstd::prelude::*;

verus! {

/// Index of the run flag of the first content loop.
pub const FIRST_BUFFER: usize = 0;

/// Index of the run flag of the second content loop.
pub const SECOND_BUFFER: usize = 1;

/// Index of the flag that keeps the worker alive between content loops.
pub const FINAL_MESSAGE: usize = 2;

/// The other content slot: the first for the second, the second for the first.
pub open spec fn spec_other_slot(slot: usize) -> usize {
    if slot == FIRST_BUFFER {
        SECOND_BUFFER
    } else {
        FIRST_BUFFER
    }
}

/// The other content slot, as [`spec_other_slot`] says; on the two slots this
/// is `1 - slot`.
pub fn other_slot(slot: usize) -> (r: usize)
    ensures
        r == spec_other_slot(slot),
{
    if slot == FIRST_BUFFER {
        SECOND_BUFFER
    } else {
        FIRST_BUFFER
    }
}

/// Where the alternating worker stands.
#[derive(PartialEq, Eq, Structural, Debug, Clone, Copy)]
pub enum SlotPhase {
    /// Waiting for the go-ahead (and data) of the content loop of this slot.
    AwaitStart,
    /// Running the content loop of this slot while its run flag holds.
    Running,
    /// The content loop ended; the keep-alive flag decides what follows.
    CheckFinal,
    /// The worker has ended.
    Finished,
}

/// What the host is to do after a step of the alternating worker.
#[derive(PartialEq, Eq, Structural, Debug, Clone, Copy)]
pub enum SlotAction {
    /// Print the loop counter and the tag, then sleep for the period.
    Tick { count: i32, tag: usize },
    /// The content loop of this slot ended: set its run flag again.
    Rearm { slot: usize },
    /// Wait for the go-ahead of the content loop of this slot.
    AwaitStart { slot: usize },
    /// The worker ends.
    Exit,
}

/// Abstract state of a [`SlotWorker`].
pub struct SlotState {
    pub slot: usize,
    pub phase: SlotPhase,
    pub count: i32,
    pub period_ms: u64,
    pub tag: usize,
}

/// A worker that runs two content loops in turn, the first slot then the
/// second and so on: each loop counts while the run flag of its slot holds;
/// when it ends, that flag is set again, and the worker ends if the
/// keep-alive flag is cleared.
pub struct SlotWorker {
    slot: usize,
    phase: SlotPhase,
    count: i32,
    period_ms: u64,
    tag: usize,
}

impl View for SlotWorker {
    type V = SlotState;

    closed spec fn view(&self) -> SlotState {
        SlotState {
            slot: self.slot,
            phase: self.phase,
            count: self.count,
            period_ms: self.period_ms,
            tag: self.tag,
        }
    }
}

impl SlotWorker {
    /// A worker waiting for the go-ahead of the first slot.
    pub fn new() -> (w: Self)
        ensures
            w@ == (SlotState {
                slot: FIRST_BUFFER,
                phase: SlotPhase::AwaitStart,
                count: 0,
                period_ms: 0,
                tag: 0,
            }),
    {
        SlotWorker { slot: FIRST_BUFFER, phase: SlotPhase::AwaitStart, count: 0, period_ms: 0, tag: 0 }
    }

    /// The slot whose content loop is current.
    pub fn slot(&self) -> (r: usize)
        ensures
            r == self@.slot,
    {
        self.slot
    }

    /// Where the worker stands.
    pub fn phase(&self) -> (r: SlotPhase)
        ensures
            r == self@.phase,
    {
        self.phase
    }

    /// The loop counter.
    pub fn count(&self) -> (r: i32)
        ensures
            r == self@.count,
    {
        self.count
    }

    /// The sleep between passes of the content loop, in milliseconds.
    pub fn period_ms(&self) -> (r: u64)
        ensures
            r == self@.period_ms,
    {
        self.period_ms
    }

    /// The go-ahead arrived, with the period and tag of the content loop: the
    /// loop starts with its counter at zero.
    pub fn start(&mut self, period_ms: u64, tag: usize)
        requires
            old(self)@.phase == SlotPhase::AwaitStart,
        ensures
            final(self)@ == (SlotState {
                slot: old(self)@.slot,
                phase: SlotPhase::Running,
                count: 0,
                period_ms,
                tag,
            }),
    {
        self.phase = SlotPhase::Running;
        self.count = 0;
        self.period_ms = period_ms;
        self.tag = tag;
    }

    /// The run flag of the current slot was read as `running`, as
    /// [`spec_observe_flag`] says.
    pub fn observe_flag(&mut self, running: bool) -> (action: SlotAction)
        requires
            old(self)@.phase == SlotPhase::Running,
            running ==> old(self)@.count < i32::MAX,
        ensures
            (final(self)@, action) == spec_observe_flag(old(self)@, running),
    {
        if running {
            self.count = self.count + 1;
            SlotAction::Tick { count: self.count, tag: self.tag }
        } else {
            self.phase = SlotPhase::CheckFinal;
            SlotAction::Rearm { slot: self.slot }
        }
    }

    /// The keep-alive flag was read as `keep_alive`, as [`spec_observe_final`]
    /// says.
    pub fn observe_final(&mut self, keep_alive: bool) -> (action: SlotAction)
        requires
            old(self)@.phase == SlotPhase::CheckFinal,
        ensures
            (final(self)@, action) == spec_observe_final(old(self)@, keep_alive),
    {
        if !keep_alive {
            self.phase = SlotPhase::Finished;
            SlotAction::Exit
        } else {
            self.slot = other_slot(self.slot);
            self.phase = SlotPhase::AwaitStart;
            SlotAction::AwaitStart { slot: self.slot }
        }
    }
}

/// A read of the run flag of the current slot: while it holds, the counter
/// goes up and the pass is printed; once it is cleared, the content loop ends
/// and the flag is to be set again.
pub open spec fn spec_observe_flag(s: SlotState, running: bool) -> (SlotState, SlotAction) {
    if running {
        let count = (s.count + 1) as i32;
        (SlotState { count, ..s }, SlotAction::Tick { count, tag: s.tag })
    } else {
        (SlotState { phase: SlotPhase::CheckFinal, ..s }, SlotAction::Rearm { slot: s.slot })
    }
}

/// A read of the keep-alive flag: the worker ends when it is cleared, and
/// otherwise waits for the go-ahead of the other slot.
pub open spec fn spec_observe_final(s: SlotState, keep_alive: bool) -> (SlotState, SlotAction) {
    if !keep_alive {
        (SlotState { phase: SlotPhase::Finished, ..s }, SlotAction::Exit)
    } else {
        let slot = spec_other_slot(s.slot);
        (SlotState { slot, phase: SlotPhase::AwaitStart, ..s }, SlotAction::AwaitStart { slot })
    }
}

/// Law: the worker alternates between the two content slots: turning twice
/// comes back to the slot it started from, and a turn never stays put.
pub proof fn lemma_slots_alternate(slot: usize)
    requires
        slot == FIRST_BUFFER || slot == SECOND_BUFFER,
    ensures
        spec_other_slot(spec_other_slot(slot)) == slot,
        spec_other_slot(slot) != slot,
        spec_other_slot(slot) == 1 - slot,
{
}

/// Law: a cleared keep-alive flag ends the worker. For every state waiting on
/// that flag, whatever its slot, counter, period or tag, reading it as cleared
/// gives `Exit` and a finished worker that keeps its slot and counter; reading
/// it as set turns to slot `1 - slot` and waits for that slot's go-ahead.
pub proof fn lemma_keep_alive_decides(s: SlotState)
    requires
        s.phase == SlotPhase::CheckFinal,
        s.slot == FIRST_BUFFER || s.slot == SECOND_BUFFER,
    ensures
        spec_observe_final(s, false).1 == SlotAction::Exit,
        spec_observe_final(s, false).0.phase == SlotPhase::Finished,
        spec_observe_final(s, false).0.slot == s.slot,
        spec_observe_final(s, false).0.count == s.count,
        spec_observe_final(s, true).1 == (SlotAction::AwaitStart { slot: (1 - s.slot) as usize }),
        spec_observe_final(s, true).0.phase == SlotPhase::AwaitStart,
        spec_observe_final(s, true).0.slot == 1 - s.slot,
{
}

/// The state after `k` reads of a set run flag.
pub open spec fn spec_passes(s: SlotState, k: nat) -> SlotState
    decreases k,
{
    if k == 0 {
        s
    } else {
        spec_observe_flag(spec_passes(s, (k - 1) as nat), true).0
    }
}

/// Law: while the run flag holds, every read raises the counter by exactly one
/// and prints the raised value with the tag; a cleared flag leaves the counter
/// as it is and asks to re-arm the current slot.
pub proof fn lemma_flag_counts_by_one(s: SlotState)
    requires
        s.phase == SlotPhase::Running,
        s.count < i32::MAX,
    ensures
        spec_observe_flag(s, true).0.count == s.count + 1,
        spec_observe_flag(s, true).1 == (SlotAction::Tick { count: (s.count + 1) as i32, tag: s.tag }),
        spec_observe_flag(s, true).0.phase == SlotPhase::Running,
        spec_observe_flag(s, true).0.slot == s.slot,
        spec_observe_flag(s, false).0.count == s.count,
        spec_observe_flag(s, false).1 == (SlotAction::Rearm { slot: s.slot }),
        spec_observe_flag(s, false).0.phase == SlotPhase::CheckFinal,
{
}

/// Law: after `k` reads of a set run flag the counter has gone up by `k`; so
/// after a start (counter 0) the `k`-th pass prints `k`.
pub proof fn lemma_passes_count(s: SlotState, k: nat)
    requires
        s.phase == SlotPhase::Running,
        s.count + k <= i32::MAX,
    ensures
        spec_passes(s, k).count == s.count + k,
        spec_passes(s, k).phase == SlotPhase::Running,
        spec_passes(s, k).tag == s.tag,
        spec_passes(s, k).slot == s.slot,
    decreases k,
{
    if k > 0 {
        lemma_passes_count(s, (k - 1) as nat);
        lemma_flag_counts_by_one(spec_passes(s, (k - 1) as nat));
    }
}

} // verus!
