//! The ways an operation on the wheel can be rejected.

use vstd::prelude::*;

verus! {

/// Why an operation was rejected. A rejected operation changes nothing.
#[derive(Clone, Copy, Debug, PartialEq, Eq, Structural)]
pub enum SpinError {
    /// An append to a record that is already at its capacity.
    CountOverflowAddItem,
    /// A write addressed past the last slot of the wheel.
    IndexOverflowSetItem,
    /// The caller is not the owner of the record it acts on.
    IncorrectUserState,
    /// A claim for an amount other than the one owed.
    ClaimAmountError,
    /// A change that only the super administrator may make, asked for by someone else.
    UnauthorizedAdmin,
}

impl SpinError {
    /// The text shown to the caller for this kind of rejection.
    pub open spec fn message_text(self) -> Seq<char> {
        match self {
            SpinError::CountOverflowAddItem => "Count Overflow To Add Item"@,
            SpinError::IndexOverflowSetItem => "Index Overflow To Set Item"@,
            SpinError::IncorrectUserState => "Incorrect User State"@,
            SpinError::ClaimAmountError => "Incorrect Claim Amount"@,
            SpinError::UnauthorizedAdmin => "Unauthorized Admin"@,
        }
    }

    /// The message of this kind of rejection.
    pub fn message(&self) -> (text: &'static str)
        ensures
            text@ == self.message_text(),
    {
        match self {
            SpinError::CountOverflowAddItem => "Count Overflow To Add Item",
            SpinError::IndexOverflowSetItem => "Index Overflow To Set Item",
            SpinError::IncorrectUserState => "Incorrect User State",
            SpinError::ClaimAmountError => "Incorrect Claim Amount",
            SpinError::UnauthorizedAdmin => "Unauthorized Admin",
        }
    }
}

/// Two kinds of rejection never share a message.
pub proof fn lemma_messages_are_distinct(a: SpinError, b: SpinError)
    requires
        a != b,
    ensures
        a.message_text() != b.message_text(),
{
    reveal_strlit("Count Overflow To Add Item");
    reveal_strlit("Index Overflow To Set Item");
    reveal_strlit("Incorrect User State");
    reveal_strlit("Incorrect Claim Amount");
    reveal_strlit("Unauthorized Admin");
    let ta = a.message_text();
    let tb = b.message_text();
    if ta.len() == tb.len() {
        assert(ta[0] != tb[0]);
    }
}

} // verus!
