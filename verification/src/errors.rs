//! The ways in which a request can be turned down.

use vstd::prelude::*;

verus! {

/// Why a request was rejected. A rejected request changes nothing.
#[derive(Clone, Copy, Debug, PartialEq, Eq, Structural)]
pub enum ErrorCode {
    /// The caller is not the authority of the receipt manager.
    InvalidAuthority,
    /// The receipt does not belong to the receipt manager.
    InvalidReceiptManager,
}

} // verus!
