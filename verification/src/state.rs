//! The records that the instructions read and change.

use crate::identity::Identity;
use vstd::prelude::*;

verus! {

/// An administrative record that owns receipts.
#[derive(Clone, Copy, Debug, PartialEq, Eq)]
pub struct ReceiptManager {
    /// The address under which this manager is stored.
    pub identity: Identity,
    /// The one identity that may administer this manager's receipts.
    pub authority: Identity,
}

/// A receipt, tied to the manager that owns it.
#[derive(Clone, Copy, Debug, PartialEq, Eq)]
pub struct RewardReceipt {
    /// The address of the owning manager.
    pub receipt_manager: Identity,
    /// Whether the receipt is currently permitted.
    pub allowed: bool,
}

} // verus!
