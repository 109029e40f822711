//! Reasons for which an order is rejected.
//!
//! The choice of reasons and their wordings are this library's own. A caller
//! whose rejections are worded otherwise records them by their text, with
//! [`record_reject_label`](crate::metrics::record_reject_label).

use crate::text::{
    decimal, lemma_decimal_tells_apart, lemma_woven_one, push_decimal, same_but_for_parts,
};
use vstd::prelude::*;
use vstd::string::*;

verus! {

/// Why an order was rejected. More reasons may be added.
#[derive(Debug, Clone, Copy, PartialEq, Eq, Hash, Structural)]
#[non_exhaustive]
pub enum RejectReason {
    /// The kill switch is engaged.
    KillSwitchActive,
    /// An order with the same id already rests on the book.
    DuplicateOrderId,
    /// The price is not valid.
    InvalidPrice,
    /// A quantity is not valid.
    InvalidQuantity,
    /// The book cannot fill the order.
    InsufficientLiquidity,
    /// A modification would lose hidden quantity of a reserve order.
    ReserveResidualWouldBeDiscarded,
    /// A reason known by its code alone.
    Other(u16),
}

impl RejectReason {
    /// The reason in words. `kill switch active` is the label under which
    /// rejections by the kill switch are known; the other wordings are this
    /// library's own.
    pub open spec fn text(self) -> Seq<char> {
        match self {
            RejectReason::KillSwitchActive => "kill switch active"@,
            RejectReason::DuplicateOrderId => "duplicate order id"@,
            RejectReason::InvalidPrice => "invalid price"@,
            RejectReason::InvalidQuantity => "invalid quantity"@,
            RejectReason::InsufficientLiquidity => "insufficient liquidity"@,
            RejectReason::ReserveResidualWouldBeDiscarded => "reserve residual would be discarded"@,
            RejectReason::Other(code) => "other ("@ + decimal(code as nat) + ")"@,
        }
    }

    /// Writes the reason in words.
    pub fn to_string(&self) -> (text: String)
        ensures
            text@ == self.text(),
    {
        let mut out = String::new();
        match self {
            RejectReason::KillSwitchActive => out.append("kill switch active"),
            RejectReason::DuplicateOrderId => out.append("duplicate order id"),
            RejectReason::InvalidPrice => out.append("invalid price"),
            RejectReason::InvalidQuantity => out.append("invalid quantity"),
            RejectReason::InsufficientLiquidity => out.append("insufficient liquidity"),
            RejectReason::ReserveResidualWouldBeDiscarded => {
                out.append("reserve residual would be discarded")
            },
            RejectReason::Other(code) => {
                out.append("other (");
                push_decimal(&mut out, *code as u128);
                out.append(")");
            },
        }
        out
    }
}

/// The words for two codes are the same but for the code.
pub proof fn lemma_codes_differ_in_their_number(left: u16, right: u16)
    ensures
        same_but_for_parts(
            RejectReason::Other(left).text(),
            seq![decimal(left as nat)],
            RejectReason::Other(right).text(),
            seq![decimal(right as nat)],
        ),
{
    lemma_woven_one("other ("@, decimal(left as nat), ")"@);
    lemma_woven_one("other ("@, decimal(right as nat), ")"@);
}

/// Different reasons are worded differently, so that each has a counter of its
/// own.
pub proof fn lemma_reasons_are_told_apart(left: RejectReason, right: RejectReason)
    requires
        left != right,
    ensures
        left.text() != right.text(),
{
    reveal_strlit("kill switch active");
    reveal_strlit("duplicate order id");
    reveal_strlit("invalid price");
    reveal_strlit("invalid quantity");
    reveal_strlit("insufficient liquidity");
    reveal_strlit("reserve residual would be discarded");
    reveal_strlit("other (");
    reveal_strlit(")");
    assert forall|reason: RejectReason| #[trigger]
        reason.text()[0] == match reason {
            RejectReason::KillSwitchActive => 'k',
            RejectReason::DuplicateOrderId => 'd',
            RejectReason::ReserveResidualWouldBeDiscarded => 'r',
            RejectReason::Other(_) => 'o',
            _ => 'i',
        } by {}
    if left.text() == right.text() {
        match (left, right) {
            (RejectReason::Other(first), RejectReason::Other(second)) => {
                let front = decimal(first as nat);
                let back = decimal(second as nat);
                assert(left.text().subrange(7, left.text().len() - 1) =~= front);
                assert(right.text().subrange(7, right.text().len() - 1) =~= back);
                lemma_decimal_tells_apart(first as nat, second as nat);
            },
            _ => {
                assert(left.text()[0] == right.text()[0]);
                assert(left.text().len() == right.text().len());
            },
        }
    }
}

} // verus!
