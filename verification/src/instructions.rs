//! The operations of the receipt manager.

pub mod set_reward_receipt_allowed;
