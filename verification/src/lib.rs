//! Authorization-gated switching of the `allowed` flag on reward receipts.
//!
//! A receipt manager names one authority. Only that authority may change the
//! flag of a receipt, and only of a receipt that points back at the manager it
//! acts for.

pub mod errors;
pub mod identity;
pub mod instructions;
pub mod state;
