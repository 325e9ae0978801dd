//! The errors that the ledger's rules can answer with.

use vstd::prelude::*;

verus! {

/// An error of the ledger's rules.
#[derive(Debug, PartialEq, Eq)]
pub enum AppError {
    /// An approval was set to a state from which nothing can follow.
    ApproveStateError,
    /// The account to be created exists already.
    UserAccountExist,
    /// The user may not act on this room.
    NoAuth,
    /// A record that the operation needs was not found.
    DataNotFound,
    /// A value that the operation needs is missing from a record.
    DataNotExist,
    /// A business rule refused the request.
    BusinessError { message: String, code: i32 },
    /// An update did not touch exactly one row.
    DbUpdateError,
    /// The password does not match, or could not be encoded.
    UserPasswordError,
    /// A room to be bound does not exist.
    RoomIsNotExist,
    /// A room to be bound is bound already.
    RoomHasBeenBind,
    /// A registration meets an existing account.
    AccountExist,
    /// The account has not logged in before, so it cannot log in quickly.
    AccountNotSupportFastLogin,
    /// An owner-fee stream was generated from this bill already.
    OwnerFeeDetailExist,
}

} // verus!
