//! The decision state shared between toolkit callbacks and the wait loop.
//!
//! A screen flow resets the state and hands the toolkit a screen with
//! callbacks bound. The toolkit later invokes one of them, which records the
//! outcome here; the wait loop reads it.

use vstd::prelude::*;
use vstd::std_specs::convert::FromSpecImpl;

verus! {

/// How a wait ended.
#[derive(Clone, Copy, Debug, PartialEq, Eq, Structural)]
pub enum SyncNbgl {
    /// The user confirmed.
    UxSyncRetApproved,
    /// The user declined.
    UxSyncRetRejected,
    /// The user left the screen.
    UxSyncRetQuitted,
    /// A command arrived from the host while the screen was shown.
    UxSyncRetApduReceived,
    /// No outcome was recorded.
    UxSyncRetError,
}

impl SyncNbgl {
    /// The byte under which an outcome is stored.
    pub open spec fn code(self) -> u8 {
        match self {
            SyncNbgl::UxSyncRetApproved => 0x00,
            SyncNbgl::UxSyncRetRejected => 0x01,
            SyncNbgl::UxSyncRetQuitted => 0x02,
            SyncNbgl::UxSyncRetApduReceived => 0x03,
            SyncNbgl::UxSyncRetError => 0xFF,
        }
    }

    /// The outcome a stored byte stands for; a byte that is no outcome's code
    /// reads as an error.
    pub open spec fn of_code(val: u8) -> SyncNbgl {
        if val == 0x00 {
            SyncNbgl::UxSyncRetApproved
        } else if val == 0x01 {
            SyncNbgl::UxSyncRetRejected
        } else if val == 0x02 {
            SyncNbgl::UxSyncRetQuitted
        } else if val == 0x03 {
            SyncNbgl::UxSyncRetApduReceived
        } else {
            SyncNbgl::UxSyncRetError
        }
    }
}

impl From<u8> for SyncNbgl {
    fn from(val: u8) -> (outcome: SyncNbgl) {
        match val {
            0x00 => SyncNbgl::UxSyncRetApproved,
            0x01 => SyncNbgl::UxSyncRetRejected,
            0x02 => SyncNbgl::UxSyncRetQuitted,
            0x03 => SyncNbgl::UxSyncRetApduReceived,
            _ => SyncNbgl::UxSyncRetError,
        }
    }
}

impl FromSpecImpl<u8> for SyncNbgl {
    open spec fn obeys_from_spec() -> bool {
        true
    }

    open spec fn from_spec(val: u8) -> SyncNbgl {
        SyncNbgl::of_code(val)
    }
}

impl From<SyncNbgl> for u8 {
    fn from(val: SyncNbgl) -> (code: u8) {
        match val {
            SyncNbgl::UxSyncRetApproved => 0x00,
            SyncNbgl::UxSyncRetRejected => 0x01,
            SyncNbgl::UxSyncRetQuitted => 0x02,
            SyncNbgl::UxSyncRetApduReceived => 0x03,
            SyncNbgl::UxSyncRetError => 0xFF,
        }
    }
}

impl FromSpecImpl<SyncNbgl> for u8 {
    open spec fn obeys_from_spec() -> bool {
        true
    }

    open spec fn from_spec(val: SyncNbgl) -> u8 {
        val.code()
    }
}

/// Storing an outcome as its byte and reading the byte back gives the
/// outcome again.
pub proof fn lemma_code_round_trip(outcome: SyncNbgl)
    ensures
        SyncNbgl::of_code(outcome.code()) == outcome,
{
}

/// A byte reads as an outcome other than the error exactly when it is that
/// outcome's code.
pub proof fn lemma_of_code_exact(val: u8)
    ensures
        SyncNbgl::of_code(val) != SyncNbgl::UxSyncRetError ==> SyncNbgl::of_code(val).code()
            == val,
        SyncNbgl::of_code(val) == SyncNbgl::UxSyncRetError <==> val > 0x03,
{
}

/// A completion callback, as the toolkit invokes it.
#[derive(Clone, Copy, Debug, PartialEq, Eq, Structural)]
pub enum Callback {
    /// The choice callback, with the button that was pressed.
    Choice(bool),
    /// The quit callback.
    Quit,
    /// The rejection callback.
    Rejected,
}

impl Callback {
    /// The outcome that the callback records.
    pub open spec fn outcome(self) -> SyncNbgl {
        match self {
            Callback::Choice(confirm) => if confirm {
                SyncNbgl::UxSyncRetApproved
            } else {
                SyncNbgl::UxSyncRetRejected
            },
            Callback::Quit => SyncNbgl::UxSyncRetQuitted,
            Callback::Rejected => SyncNbgl::UxSyncRetRejected,
        }
    }
}

/// The decision state as the contracts see it.
pub struct Decision {
    /// The outcome recorded last, or the error while none has been since the
    /// state was reset.
    pub last_outcome: SyncNbgl,
    /// Whether a callback has recorded an outcome since the state was reset.
    pub completed: bool,
}

impl Decision {
    /// The state with nothing recorded.
    pub open spec fn reset() -> Decision {
        Decision { last_outcome: SyncNbgl::UxSyncRetError, completed: false }
    }

    /// The state after `outcome` has been recorded.
    pub open spec fn complete(self, outcome: SyncNbgl) -> Decision {
        Decision { last_outcome: outcome, completed: true }
    }

    /// The recorded outcome, if there is one.
    pub open spec fn pending(self) -> Option<SyncNbgl> {
        if self.completed {
            Some(self.last_outcome)
        } else {
            None
        }
    }
}

/// The outcome of the latest interaction and whether it has been recorded.
///
/// Only callbacks record; only a flow that is about to wait resets.
#[derive(Clone, Copy, Debug, PartialEq, Eq)]
pub struct DecisionState {
    ret: u8,
    ended: bool,
}

impl View for DecisionState {
    type V = Decision;

    closed spec fn view(&self) -> Decision {
        Decision { last_outcome: SyncNbgl::of_code(self.ret), completed: self.ended }
    }
}

impl DecisionState {
    /// A state with nothing recorded.
    pub fn new() -> (state: DecisionState)
        ensures
            state@ == Decision::reset(),
    {
        DecisionState { ret: SyncNbgl::UxSyncRetError.into(), ended: false }
    }

    /// Forgets the recorded outcome.
    pub fn reset(&mut self)
        ensures
            final(self)@ == Decision::reset(),
    {
        self.ret = SyncNbgl::UxSyncRetError.into();
        self.ended = false;
    }

    /// Records `outcome`.
    pub fn complete(&mut self, outcome: SyncNbgl)
        ensures
            final(self)@ == old(self)@.complete(outcome),
    {
        self.ret = outcome.into();
        self.ended = true;
    }

    /// The recorded outcome, if there is one. The state keeps it.
    pub fn peek(&self) -> (outcome: Option<SyncNbgl>)
        ensures
            outcome == self@.pending(),
    {
        if self.ended {
            Some(self.ret.into())
        } else {
            None
        }
    }

    /// Whether an outcome has been recorded.
    pub fn is_completed(&self) -> (ended: bool)
        ensures
            ended == self@.completed,
    {
        self.ended
    }

    /// Callback of a two-button screen: records approval when `confirm`
    /// holds, rejection otherwise.
    pub fn choice_callback(&mut self, confirm: bool)
        ensures
            final(self)@ == old(self)@.complete(Callback::Choice(confirm).outcome()),
    {
        self.ret = if confirm {
            SyncNbgl::UxSyncRetApproved.into()
        } else {
            SyncNbgl::UxSyncRetRejected.into()
        };
        self.ended = true;
    }

    /// Callback of a screen that can only be left: records that it was.
    pub fn quit_callback(&mut self)
        ensures
            final(self)@ == old(self)@.complete(SyncNbgl::UxSyncRetQuitted),
    {
        self.ret = SyncNbgl::UxSyncRetQuitted.into();
        self.ended = true;
    }

    /// Callback of a reject control: records rejection.
    pub fn rejected_callback(&mut self)
        ensures
            final(self)@ == old(self)@.complete(SyncNbgl::UxSyncRetRejected),
    {
        self.ret = SyncNbgl::UxSyncRetRejected.into();
        self.ended = true;
    }

    /// Runs the callback that the toolkit invoked.
    pub fn dispatch(&mut self, callback: Callback)
        ensures
            final(self)@ == old(self)@.complete(callback.outcome()),
    {
        match callback {
            Callback::Choice(confirm) => self.choice_callback(confirm),
            Callback::Quit => self.quit_callback(),
            Callback::Rejected => self.rejected_callback(),
        }
    }
}

} // verus!
