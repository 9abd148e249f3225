//! The bridge's context and the wait loop.
//!
//! The toolkit offers no blocking call, so a wait is a poll. Each cycle looks
//! for a command that arrived from the host and for an outcome that a
//! callback recorded, and otherwise yields one turn to the toolkit. Yielding
//! is the caller's business; what one cycle decides is
//! [`UxSync::ux_sync_wait_step`]. [`UxSync::ux_sync_wait_scripted`] runs a
//! whole wait against a recorded sequence of turns, which is how the wait's
//! properties are stated and how a harness without a device exercises it.

use vstd::prelude::*;
use crate::decision::{Callback, Decision, DecisionState, SyncNbgl};

verus! {

/// What one cycle of the wait loop decides.
#[derive(Clone, Copy, Debug, PartialEq, Eq, Structural)]
pub enum WaitStep {
    /// The wait is over, with this outcome.
    Return(SyncNbgl),
    /// Nothing to report yet: yield to the toolkit and poll again.
    Yield,
}

/// What the host and the toolkit do during one poll cycle.
#[derive(Clone, Copy, Debug, PartialEq, Eq, Structural)]
pub struct Turn {
    /// Whether a command has arrived by the time the cycle looks.
    pub apdu_received: bool,
    /// The callback that the toolkit invokes if the cycle yields to it.
    pub callback: Option<Callback>,
}

/// The decision of one poll cycle: an arrived command ends an interruptible
/// wait, before any recorded outcome is looked at; otherwise a recorded
/// outcome ends the wait; otherwise the wait goes on.
pub open spec fn wait_step(decision: Decision, exit_on_apdu: bool, apdu_received: bool) -> WaitStep {
    if exit_on_apdu && apdu_received {
        WaitStep::Return(SyncNbgl::UxSyncRetApduReceived)
    } else {
        match decision.pending() {
            Some(outcome) => WaitStep::Return(outcome),
            None => WaitStep::Yield,
        }
    }
}

/// The decision state after the toolkit has had the turn `turn` yields to it.
pub open spec fn after_yield(decision: Decision, turn: Turn) -> Decision {
    match turn.callback {
        Some(callback) => decision.complete(callback.outcome()),
        None => decision,
    }
}

/// A wait run against `turns`, one poll cycle per turn: the outcome it
/// returns, or `None` if the turns run out while it is still waiting, and the
/// decision state it leaves.
pub open spec fn wait_scripted(decision: Decision, exit_on_apdu: bool, turns: Seq<Turn>) -> (
    Option<SyncNbgl>,
    Decision,
)
    decreases turns.len(),
{
    if turns.len() == 0 {
        (None, decision)
    } else {
        match wait_step(decision, exit_on_apdu, turns[0].apdu_received) {
            WaitStep::Return(outcome) => (Some(outcome), decision),
            WaitStep::Yield => wait_scripted(
                after_yield(decision, turns[0]),
                exit_on_apdu,
                turns.skip(1),
            ),
        }
    }
}

/// The state of the bridge: the decision state, whether the command channel
/// has been bound, and whether a flow is waiting on a screen.
///
/// There is one per process. Flows take it by `&mut`, so no second flow can
/// start while one holds it; `awaiting` makes the same rule visible to code
/// that reaches the bridge from inside a callback.
#[derive(Clone, Copy, Debug, PartialEq, Eq)]
pub struct UxSync {
    decision: DecisionState,
    comm_bound: bool,
    waiting: bool,
}

impl UxSync {
    /// The decision state.
    pub closed spec fn decision(&self) -> Decision {
        self.decision@
    }

    /// Whether the command channel has been bound.
    pub closed spec fn comm_bound(&self) -> bool {
        self.comm_bound
    }

    /// Whether a flow has issued a display request and its wait has not
    /// returned.
    pub closed spec fn awaiting(&self) -> bool {
        self.waiting
    }

    /// A bridge with no channel bound and no flow waiting.
    pub fn new() -> (ux: UxSync)
        ensures
            ux.decision() == Decision::reset(),
            !ux.comm_bound(),
            !ux.awaiting(),
    {
        UxSync { decision: DecisionState::new(), comm_bound: false, waiting: false }
    }

    /// Whether the command channel has been bound.
    pub fn is_comm_bound(&self) -> (bound: bool)
        ensures
            bound == self.comm_bound(),
    {
        self.comm_bound
    }

    /// Whether a flow is waiting on a screen. A display request is in order
    /// only while this is false.
    pub fn is_awaiting(&self) -> (waiting: bool)
        ensures
            waiting == self.awaiting(),
    {
        self.waiting
    }

    /// The recorded outcome, if there is one.
    pub fn peek(&self) -> (outcome: Option<SyncNbgl>)
        ensures
            outcome == self.decision().pending(),
    {
        self.decision.peek()
    }

    /// Starts a flow's wait: forgets the previous outcome and marks the
    /// bridge as waiting. The display request follows.
    pub fn ux_sync_init(&mut self)
        requires
            !old(self).awaiting(),
        ensures
            final(self).decision() == Decision::reset(),
            final(self).awaiting(),
            final(self).comm_bound() == old(self).comm_bound(),
    {
        self.decision.reset();
        self.waiting = true;
    }

    /// Takes up again a wait that an arrived command ended: marks the bridge
    /// as waiting and leaves the decision state as it is, so that the outcome
    /// of the screen that was shown can still be collected.
    pub fn ux_sync_resume(&mut self)
        requires
            !old(self).awaiting(),
        ensures
            final(self).decision() == old(self).decision(),
            final(self).awaiting(),
            final(self).comm_bound() == old(self).comm_bound(),
    {
        self.waiting = true;
    }

    /// Runs the callback that the toolkit invoked. Nothing but the decision
    /// state changes.
    pub fn dispatch(&mut self, callback: Callback)
        ensures
            final(self).decision() == old(self).decision().complete(callback.outcome()),
            final(self).awaiting() == old(self).awaiting(),
            final(self).comm_bound() == old(self).comm_bound(),
    {
        self.decision.dispatch(callback);
    }

    /// One cycle of the wait loop. `apdu_received` says whether a command has
    /// arrived on the bound channel; it is looked at only when `exit_on_apdu`
    /// holds. The decision state is never changed, so a wait that a command
    /// ended can be resumed; the bridge stops waiting exactly when the cycle
    /// returns an outcome.
    pub fn ux_sync_wait_step(&mut self, exit_on_apdu: bool, apdu_received: bool) -> (step: WaitStep)
        requires
            old(self).comm_bound(),
            old(self).awaiting(),
        ensures
            step == wait_step(old(self).decision(), exit_on_apdu, apdu_received),
            final(self).decision() == old(self).decision(),
            final(self).comm_bound(),
            final(self).awaiting() == (step == WaitStep::Yield),
    {
        if exit_on_apdu && apdu_received {
            self.waiting = false;
            return WaitStep::Return(SyncNbgl::UxSyncRetApduReceived);
        }
        match self.decision.peek() {
            Some(outcome) => {
                self.waiting = false;
                WaitStep::Return(outcome)
            },
            None => WaitStep::Yield,
        }
    }

    /// Runs a wait against recorded turns: each turn is one poll cycle, and a
    /// cycle that yields lets the toolkit invoke that turn's callback. Returns
    /// the wait's outcome, or `None` if the turns run out first, in which case
    /// the bridge is still waiting.
    pub fn ux_sync_wait_scripted(&mut self, exit_on_apdu: bool, turns: &[Turn]) -> (outcome: Option<
        SyncNbgl,
    >)
        requires
            old(self).comm_bound(),
            old(self).awaiting(),
        ensures
            (outcome, final(self).decision()) == wait_scripted(
                old(self).decision(),
                exit_on_apdu,
                turns@,
            ),
            final(self).comm_bound(),
            final(self).awaiting() == (outcome is None),
    {
        let mut i: usize = 0;
        assert(turns@.skip(0) == turns@);
        while i < turns.len()
            invariant
                i <= turns.len(),
                self.comm_bound(),
                self.awaiting(),
                wait_scripted(old(self).decision(), exit_on_apdu, turns@) == wait_scripted(
                    self.decision(),
                    exit_on_apdu,
                    turns@.skip(i as int),
                ),
            decreases turns.len() - i,
        {
            let turn = turns[i];
            proof {
                assert(turns@.skip(i as int).skip(1) == turns@.skip(i + 1));
            }
            match self.ux_sync_wait_step(exit_on_apdu, turn.apdu_received) {
                WaitStep::Return(outcome) => {
                    return Some(outcome);
                },
                WaitStep::Yield => {
                    match turn.callback {
                        Some(callback) => self.dispatch(callback),
                        None => {},
                    }
                },
            }
            i = i + 1;
        }
        None
    }
}

/// Binds the command channel to the bridge. Flows may wait only once this has
/// been done; binding again changes nothing.
pub fn init_comm(ux: &mut UxSync)
    ensures
        final(ux).comm_bound(),
        final(ux).decision() == old(ux).decision(),
        final(ux).awaiting() == old(ux).awaiting(),
{
    ux.comm_bound = true;
}

/// An arrived command ends an interruptible wait in the cycle that sees it,
/// whatever has been recorded by then, and the decision state stays as it
/// was.
pub proof fn lemma_command_takes_precedence(decision: Decision, turns: Seq<Turn>)
    requires
        turns.len() > 0,
        turns[0].apdu_received,
    ensures
        wait_scripted(decision, true, turns) == (
            Some(SyncNbgl::UxSyncRetApduReceived),
            decision,
        ),
{
}

/// A wait that is not interruptible never reports an arrived command: no
/// callback records one, so unless one was recorded by hand before the wait,
/// none comes out.
pub proof fn lemma_uninterruptible_ignores_commands(decision: Decision, turns: Seq<Turn>)
    requires
        decision.pending() != Some(SyncNbgl::UxSyncRetApduReceived),
    ensures
        wait_scripted(decision, false, turns).0 != Some(SyncNbgl::UxSyncRetApduReceived),
    decreases turns.len(),
{
    if turns.len() > 0 && decision.pending() is None {
        lemma_uninterruptible_ignores_commands(after_yield(decision, turns[0]), turns.skip(1));
    }
}

/// Whatever a wait returns is either the arrived command of an interruptible
/// wait or the outcome that the decision state holds when the wait returns.
pub proof fn lemma_wait_returns_recorded(decision: Decision, exit_on_apdu: bool, turns: Seq<Turn>)
    ensures
        wait_scripted(decision, exit_on_apdu, turns).0 matches Some(outcome) ==> (exit_on_apdu
            && outcome == SyncNbgl::UxSyncRetApduReceived) || wait_scripted(
            decision,
            exit_on_apdu,
            turns,
        ).1.pending() == Some(outcome),
    decreases turns.len(),
{
    if turns.len() > 0 && wait_step(decision, exit_on_apdu, turns[0].apdu_received)
        == WaitStep::Yield {
        lemma_wait_returns_recorded(after_yield(decision, turns[0]), exit_on_apdu, turns.skip(1));
    }
}

/// A wait returns the outcome of the first callback that the toolkit
/// invokes, in the cycle after the one that yielded to it, provided that no
/// command interrupts it up to and including that cycle.
pub proof fn lemma_wait_returns_first_callback(
    decision: Decision,
    exit_on_apdu: bool,
    turns: Seq<Turn>,
    k: int,
    callback: Callback,
)
    requires
        !decision.completed,
        0 <= k,
        k + 1 < turns.len(),
        turns[k].callback == Some(callback),
        forall|j: int| 0 <= j < k ==> (#[trigger] turns[j]).callback is None,
        exit_on_apdu ==> forall|j: int| 0 <= j <= k + 1 ==> !(#[trigger] turns[j]).apdu_received,
    ensures
        wait_scripted(decision, exit_on_apdu, turns) == (
            Some(callback.outcome()),
            decision.complete(callback.outcome()),
        ),
    decreases k,
{
    let rest = turns.skip(1);
    if k == 0 {
        let recorded = decision.complete(callback.outcome());
        assert(wait_scripted(recorded, exit_on_apdu, rest) == (
            Some(callback.outcome()),
            recorded,
        ));
    } else {
        assert forall|j: int| 0 <= j < k - 1 implies (#[trigger] rest[j]).callback is None by {
            assert(rest[j] == turns[j + 1]);
        }
        assert forall|j: int| 0 <= j <= k && exit_on_apdu implies !(#[trigger] rest[j]).apdu_received by {
            assert(rest[j] == turns[j + 1]);
        }
        lemma_wait_returns_first_callback(decision, exit_on_apdu, rest, k - 1, callback);
    }
}

/// A wait can be run in two sittings: if the first turns run out while it is
/// still waiting, going on with further turns from the state it left gives
/// what one wait over all the turns gives.
pub proof fn lemma_wait_in_two_sittings(
    decision: Decision,
    exit_on_apdu: bool,
    first: Seq<Turn>,
    second: Seq<Turn>,
)
    ensures
        wait_scripted(decision, exit_on_apdu, first + second) == (if wait_scripted(
            decision,
            exit_on_apdu,
            first,
        ).0 is Some {
            wait_scripted(decision, exit_on_apdu, first)
        } else {
            wait_scripted(wait_scripted(decision, exit_on_apdu, first).1, exit_on_apdu, second)
        }),
    decreases first.len(),
{
    if first.len() == 0 {
        assert(first + second == second);
    } else {
        assert((first + second).skip(1) == first.skip(1) + second);
        if wait_step(decision, exit_on_apdu, first[0].apdu_received) == WaitStep::Yield {
            lemma_wait_in_two_sittings(
                after_yield(decision, first[0]),
                exit_on_apdu,
                first.skip(1),
                second,
            );
        }
    }
}

} // verus!
