//! Numeric codes shared with the graphics toolkit.
//!
//! The toolkit is written in C and identifies operation kinds, status
//! banners, bit depths and sound cues by small integers. The values below are
//! the ones its headers fix; every mapping in this crate is stated against
//! them.

use vstd::prelude::*;

verus! {

/// Operation kind: a transfer between accounts.
pub const TYPE_TRANSACTION: u8 = 0;

/// Operation kind: a message that is signed but never broadcast.
pub const TYPE_MESSAGE: u8 = 1;

/// Operation kind: any other operation.
pub const TYPE_OPERATION: u8 = 2;

/// The bits of an operation code that hold the operation kind.
pub const REAL_TYPE_MASK: u32 = 0x07;

/// Flag bit of an operation code: the review may be skipped through.
pub const SKIPPABLE_OPERATION: u32 = 0x10;

/// Flag bit of an operation code: the device cannot decode what is signed.
pub const BLIND_OPERATION: u32 = 0x20;

/// Status banner: a transaction was signed.
pub const STATUS_TYPE_TRANSACTION_SIGNED: u8 = 0;

/// Status banner: a transaction was rejected.
pub const STATUS_TYPE_TRANSACTION_REJECTED: u8 = 1;

/// Status banner: a message was signed.
pub const STATUS_TYPE_MESSAGE_SIGNED: u8 = 2;

/// Status banner: a message was rejected.
pub const STATUS_TYPE_MESSAGE_REJECTED: u8 = 3;

/// Status banner: an operation was signed.
pub const STATUS_TYPE_OPERATION_SIGNED: u8 = 4;

/// Status banner: an operation was rejected.
pub const STATUS_TYPE_OPERATION_REJECTED: u8 = 5;

/// Status banner: an address was verified.
pub const STATUS_TYPE_ADDRESS_VERIFIED: u8 = 6;

/// Status banner: an address was rejected.
pub const STATUS_TYPE_ADDRESS_REJECTED: u8 = 7;

/// Bit depth symbol: one bit per pixel.
pub const NBGL_BPP_1: u8 = 0;

/// Bit depth symbol: two bits per pixel.
pub const NBGL_BPP_2: u8 = 1;

/// Bit depth symbol: four bits per pixel.
pub const NBGL_BPP_4: u8 = 2;

/// Sound cue: reserved, plays nothing.
pub const TUNE_RESERVED: u8 = 0;

/// Sound cue: device boot.
pub const TUNE_BOOT: u8 = 1;

/// Sound cue: charging started.
pub const TUNE_CHARGING: u8 = 2;

/// Sound cue: the signature moment.
pub const TUNE_LEDGER_MOMENT: u8 = 3;

/// Sound cue: error.
pub const TUNE_ERROR: u8 = 4;

/// Sound cue: neutral feedback.
pub const TUNE_NEUTRAL: u8 = 5;

/// Sound cue: device locked.
pub const TUNE_LOCK: u8 = 6;

/// Sound cue: success.
pub const TUNE_SUCCESS: u8 = 7;

/// Sound cue: attention requested.
pub const TUNE_LOOK_AT_ME: u8 = 8;

/// Sound cue: casual tap.
pub const TUNE_TAP_CASUAL: u8 = 9;

/// Sound cue: tap that moves to the next page.
pub const TUNE_TAP_NEXT: u8 = 10;

} // verus!
