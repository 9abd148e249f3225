//! Operation kinds and their mapping to the toolkit's operation codes and
//! status codes.

use vstd::prelude::*;
use crate::codes::{
    BLIND_OPERATION, REAL_TYPE_MASK, SKIPPABLE_OPERATION, STATUS_TYPE_ADDRESS_REJECTED,
    STATUS_TYPE_ADDRESS_VERIFIED, STATUS_TYPE_MESSAGE_REJECTED, STATUS_TYPE_MESSAGE_SIGNED,
    STATUS_TYPE_OPERATION_REJECTED, STATUS_TYPE_OPERATION_SIGNED,
    STATUS_TYPE_TRANSACTION_REJECTED, STATUS_TYPE_TRANSACTION_SIGNED, TYPE_MESSAGE,
    TYPE_OPERATION, TYPE_TRANSACTION,
};

verus! {

/// What is being reviewed.
#[derive(Clone, Copy, Debug, PartialEq, Eq, Structural)]
pub enum TransactionType {
    Transaction,
    Message,
    Operation,
}

/// What a status banner reports on: one of the operation kinds, or an
/// address check.
#[derive(Clone, Copy, Debug, PartialEq, Eq, Structural)]
pub enum StatusType {
    Transaction,
    Message,
    Operation,
    Address,
}

/// The status code of a subject and an outcome flag.
pub trait ToMessage {
    /// The status code for this subject, signed or verified when `success`
    /// holds and rejected otherwise.
    spec fn status_code(&self, success: bool) -> u8;

    fn to_message(&self, success: bool) -> (code: u8)
        ensures
            code == self.status_code(success),
    ;
}

impl TransactionType {
    /// The toolkit's code for the kind alone.
    pub open spec fn base_code(self) -> u8 {
        match self {
            TransactionType::Transaction => TYPE_TRANSACTION,
            TransactionType::Message => TYPE_MESSAGE,
            TransactionType::Operation => TYPE_OPERATION,
        }
    }

    /// The composite operation code: the kind's code, with the blind bit set
    /// exactly when `blind` holds and the skippable bit exactly when
    /// `skippable` holds.
    pub open spec fn operation_code(self, blind: bool, skippable: bool) -> u32 {
        (self.base_code() as u32) | (if blind {
            BLIND_OPERATION
        } else {
            0
        }) | (if skippable {
            SKIPPABLE_OPERATION
        } else {
            0
        })
    }

    /// Composes the operation code handed to the toolkit with a review.
    pub fn to_c_type(&self, blind: bool, skippable: bool) -> (code: u32)
        ensures
            code == self.operation_code(blind, skippable),
            code & REAL_TYPE_MASK == self.base_code(),
            (code & BLIND_OPERATION != 0) == blind,
            (code & SKIPPABLE_OPERATION != 0) == skippable,
    {
        let base: u32 = match self {
            TransactionType::Transaction => TYPE_TRANSACTION as u32,
            TransactionType::Message => TYPE_MESSAGE as u32,
            TransactionType::Operation => TYPE_OPERATION as u32,
        };
        let mut tx_type: u32 = base;
        if blind {
            tx_type = tx_type | BLIND_OPERATION;
        }
        if skippable {
            tx_type = tx_type | SKIPPABLE_OPERATION;
        }
        proof {
            lemma_or_zero(base);
            lemma_or_zero(base | BLIND_OPERATION);
            lemma_operation_code_bits(*self, blind, skippable);
        }
        tx_type
    }
}

impl ToMessage for TransactionType {
    open spec fn status_code(&self, success: bool) -> u8 {
        match (*self, success) {
            (TransactionType::Transaction, true) => STATUS_TYPE_TRANSACTION_SIGNED,
            (TransactionType::Transaction, false) => STATUS_TYPE_TRANSACTION_REJECTED,
            (TransactionType::Message, true) => STATUS_TYPE_MESSAGE_SIGNED,
            (TransactionType::Message, false) => STATUS_TYPE_MESSAGE_REJECTED,
            (TransactionType::Operation, true) => STATUS_TYPE_OPERATION_SIGNED,
            (TransactionType::Operation, false) => STATUS_TYPE_OPERATION_REJECTED,
        }
    }

    fn to_message(&self, success: bool) -> (code: u8) {
        match (self, success) {
            (TransactionType::Transaction, true) => STATUS_TYPE_TRANSACTION_SIGNED,
            (TransactionType::Transaction, false) => STATUS_TYPE_TRANSACTION_REJECTED,
            (TransactionType::Message, true) => STATUS_TYPE_MESSAGE_SIGNED,
            (TransactionType::Message, false) => STATUS_TYPE_MESSAGE_REJECTED,
            (TransactionType::Operation, true) => STATUS_TYPE_OPERATION_SIGNED,
            (TransactionType::Operation, false) => STATUS_TYPE_OPERATION_REJECTED,
        }
    }
}

impl StatusType {
    /// The operation kind behind this subject; an address check has none.
    pub open spec fn kind(self) -> Option<TransactionType> {
        match self {
            StatusType::Transaction => Some(TransactionType::Transaction),
            StatusType::Message => Some(TransactionType::Message),
            StatusType::Operation => Some(TransactionType::Operation),
            StatusType::Address => None,
        }
    }

    /// Resolves the operation kind, `None` for an address check.
    pub fn transaction_type(&self) -> (kind: Option<TransactionType>)
        ensures
            kind == self.kind(),
    {
        match self {
            StatusType::Transaction => Some(TransactionType::Transaction),
            StatusType::Message => Some(TransactionType::Message),
            StatusType::Operation => Some(TransactionType::Operation),
            StatusType::Address => None,
        }
    }
}

impl ToMessage for StatusType {
    open spec fn status_code(&self, success: bool) -> u8 {
        match self.kind() {
            Some(kind) => kind.status_code(success),
            None => if success {
                STATUS_TYPE_ADDRESS_VERIFIED
            } else {
                STATUS_TYPE_ADDRESS_REJECTED
            },
        }
    }

    fn to_message(&self, success: bool) -> (code: u8) {
        match self {
            StatusType::Address => {
                if success {
                    STATUS_TYPE_ADDRESS_VERIFIED
                } else {
                    STATUS_TYPE_ADDRESS_REJECTED
                }
            },
            _ => self.transaction_type().expect("Should be a transaction type").to_message(
                success,
            ),
        }
    }
}

proof fn lemma_or_zero(x: u32)
    ensures
        x | 0 == x,
{
    assert(x | 0 == x) by (bit_vector);
}

/// The numeric value of every operation code: the kind's code plus the
/// weight of each flag that is set.
pub proof fn lemma_operation_code_value(kind: TransactionType, blind: bool, skippable: bool)
    ensures
        kind.operation_code(blind, skippable) == kind.base_code() + (if blind {
            32int
        } else {
            0int
        }) + (if skippable {
            16int
        } else {
            0int
        }),
{
    let base: u32 = kind.base_code() as u32;
    assert(base | 0 | 0 == base) by (bit_vector);
    assert(base | 0 | 0x10 == base + 16) by (bit_vector)
        requires
            base <= 2,
    ;
    assert(base | 0x20 | 0 == base + 32) by (bit_vector)
        requires
            base <= 2,
    ;
    assert(base | 0x20 | 0x10 == base + 48) by (bit_vector)
        requires
            base <= 2,
    ;
}

/// Each part of an operation code can be read back from it: the kind under
/// the kind mask, and each flag under its own bit.
pub proof fn lemma_operation_code_bits(kind: TransactionType, blind: bool, skippable: bool)
    ensures
        kind.operation_code(blind, skippable) & REAL_TYPE_MASK == kind.base_code(),
        (kind.operation_code(blind, skippable) & BLIND_OPERATION != 0) == blind,
        (kind.operation_code(blind, skippable) & SKIPPABLE_OPERATION != 0) == skippable,
{
    lemma_operation_code_value(kind, blind, skippable);
    let code: u32 = kind.operation_code(blind, skippable);
    let base: u32 = kind.base_code() as u32;
    let b: u32 = if blind {
        32
    } else {
        0
    };
    let s: u32 = if skippable {
        16
    } else {
        0
    };
    assert(code & 0x07 == base && ((code & 0x20 != 0) == (b == 32)) && ((code & 0x10 != 0) == (s
        == 16))) by (bit_vector)
        requires
            code == base + b + s,
            base <= 2,
            b == 0 || b == 32,
            s == 0 || s == 16,
    ;
}

/// No two triples of kind, blind flag and skippable flag share an operation
/// code.
pub proof fn lemma_operation_code_injective(
    kind1: TransactionType,
    blind1: bool,
    skippable1: bool,
    kind2: TransactionType,
    blind2: bool,
    skippable2: bool,
)
    ensures
        kind1.operation_code(blind1, skippable1) == kind2.operation_code(blind2, skippable2) ==> (
        kind1 == kind2 && blind1 == blind2 && skippable1 == skippable2),
{
    lemma_operation_code_value(kind1, blind1, skippable1);
    lemma_operation_code_value(kind2, blind2, skippable2);
}

/// No two pairs of operation kind and outcome share a status code.
pub proof fn lemma_kind_status_code_injective(
    kind1: TransactionType,
    success1: bool,
    kind2: TransactionType,
    success2: bool,
)
    ensures
        kind1.status_code(success1) == kind2.status_code(success2) ==> (kind1 == kind2 && success1
            == success2),
{
}

/// No two pairs of subject and outcome share a status code: the six codes of
/// the operation kinds and the two of the address check are eight different
/// values.
pub proof fn lemma_status_code_injective(
    subject1: StatusType,
    success1: bool,
    subject2: StatusType,
    success2: bool,
)
    ensures
        subject1.status_code(success1) == subject2.status_code(success2) ==> (subject1 == subject2
            && success1 == success2),
{
}

/// A status banner for an operation kind carries the same code whether the
/// kind is named directly or as the subject of the banner.
pub proof fn lemma_status_code_of_kind(subject: StatusType, success: bool)
    requires
        subject != StatusType::Address,
    ensures
        subject.kind() is Some,
        subject.status_code(success) == subject.kind().unwrap().status_code(success),
{
}

} // verus!
