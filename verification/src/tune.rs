//! Sound cues.

use vstd::prelude::*;
use vstd::std_specs::convert::TryFromSpecImpl;
use crate::codes::{
    TUNE_BOOT, TUNE_CHARGING, TUNE_ERROR, TUNE_LEDGER_MOMENT, TUNE_LOCK, TUNE_LOOK_AT_ME,
    TUNE_NEUTRAL, TUNE_RESERVED, TUNE_SUCCESS, TUNE_TAP_CASUAL, TUNE_TAP_NEXT,
};

verus! {

/// A sound cue that the device can play.
#[derive(Clone, Copy, Debug, PartialEq, Eq, Structural)]
pub enum TuneIndex {
    Reserved,
    Boot,
    Charging,
    LedgerMoment,
    Error,
    Neutral,
    Lock,
    Success,
    LookAtMe,
    TapCasual,
    TapNext,
}

impl TuneIndex {
    /// The raw code of the cue.
    pub open spec fn code(self) -> u8 {
        match self {
            TuneIndex::Reserved => TUNE_RESERVED,
            TuneIndex::Boot => TUNE_BOOT,
            TuneIndex::Charging => TUNE_CHARGING,
            TuneIndex::LedgerMoment => TUNE_LEDGER_MOMENT,
            TuneIndex::Error => TUNE_ERROR,
            TuneIndex::Neutral => TUNE_NEUTRAL,
            TuneIndex::Lock => TUNE_LOCK,
            TuneIndex::Success => TUNE_SUCCESS,
            TuneIndex::LookAtMe => TUNE_LOOK_AT_ME,
            TuneIndex::TapCasual => TUNE_TAP_CASUAL,
            TuneIndex::TapNext => TUNE_TAP_NEXT,
        }
    }

    /// The cue with the raw code `index`, if there is one.
    pub open spec fn of_code(index: u8) -> Option<TuneIndex> {
        if index == TUNE_RESERVED {
            Some(TuneIndex::Reserved)
        } else if index == TUNE_BOOT {
            Some(TuneIndex::Boot)
        } else if index == TUNE_CHARGING {
            Some(TuneIndex::Charging)
        } else if index == TUNE_LEDGER_MOMENT {
            Some(TuneIndex::LedgerMoment)
        } else if index == TUNE_ERROR {
            Some(TuneIndex::Error)
        } else if index == TUNE_NEUTRAL {
            Some(TuneIndex::Neutral)
        } else if index == TUNE_LOCK {
            Some(TuneIndex::Lock)
        } else if index == TUNE_SUCCESS {
            Some(TuneIndex::Success)
        } else if index == TUNE_LOOK_AT_ME {
            Some(TuneIndex::LookAtMe)
        } else if index == TUNE_TAP_CASUAL {
            Some(TuneIndex::TapCasual)
        } else if index == TUNE_TAP_NEXT {
            Some(TuneIndex::TapNext)
        } else {
            None
        }
    }
}

impl TryFrom<u8> for TuneIndex {
    type Error = ();

    fn try_from(index: u8) -> (tune: Result<TuneIndex, ()>) {
        Ok(
            match index {
                TUNE_RESERVED => TuneIndex::Reserved,
                TUNE_BOOT => TuneIndex::Boot,
                TUNE_CHARGING => TuneIndex::Charging,
                TUNE_LEDGER_MOMENT => TuneIndex::LedgerMoment,
                TUNE_ERROR => TuneIndex::Error,
                TUNE_NEUTRAL => TuneIndex::Neutral,
                TUNE_LOCK => TuneIndex::Lock,
                TUNE_SUCCESS => TuneIndex::Success,
                TUNE_LOOK_AT_ME => TuneIndex::LookAtMe,
                TUNE_TAP_CASUAL => TuneIndex::TapCasual,
                TUNE_TAP_NEXT => TuneIndex::TapNext,
                _ => return Err(()),
            },
        )
    }
}

impl TryFromSpecImpl<u8> for TuneIndex {
    open spec fn obeys_try_from_spec() -> bool {
        true
    }

    open spec fn try_from_spec(index: u8) -> Result<TuneIndex, ()> {
        match TuneIndex::of_code(index) {
            Some(tune) => Ok(tune),
            None => Err(()),
        }
    }
}

/// Decides what a request for the cue with raw code `tune_index` plays: the
/// cue, or nothing when the code is none of the known ones. An unknown code
/// is no error.
pub fn io_seproxyhal_play_tune(tune_index: u8) -> (tune: Option<TuneIndex>)
    ensures
        tune == TuneIndex::of_code(tune_index),
{
    let index = TuneIndex::try_from(tune_index);
    match index {
        Ok(tune) => Some(tune),
        Err(_) => None,
    }
}

/// A raw code names a cue exactly when it is at most the code of the last
/// cue, and the cue it names has that code.
pub proof fn lemma_tune_of_code(index: u8)
    ensures
        TuneIndex::of_code(index) is Some <==> index <= TUNE_TAP_NEXT,
        TuneIndex::of_code(index) matches Some(tune) ==> tune.code() == index,
{
}

/// Every cue is found again under its own code.
pub proof fn lemma_tune_round_trip(tune: TuneIndex)
    ensures
        TuneIndex::of_code(tune.code()) == Some(tune),
{
}

} // verus!
