//! Switching the `allowed` flag of a reward receipt.

use crate::errors::ErrorCode;
use crate::identity::Identity;
use crate::state::{ReceiptManager, RewardReceipt};
use vstd::prelude::*;

verus! {

/// What a request to set a receipt's flag is made of: the manager, the
/// receipt, and the signer who asks.
#[derive(Clone, Copy, Debug, PartialEq, Eq)]
pub struct SetRewardReceiptAllowed {
    /// The manager on whose behalf the caller acts.
    pub receipt_manager: ReceiptManager,
    /// The receipt whose flag is to be set.
    pub reward_receipt: RewardReceipt,
    /// The signer who makes the request.
    pub authority: Identity,
}

impl SetRewardReceiptAllowed {
    /// The caller is the authority that the manager names.
    pub open spec fn caller_is_authority(&self) -> bool {
        self.receipt_manager.authority@ == self.authority@
    }

    /// The receipt points back at this manager.
    pub open spec fn receipt_is_owned(&self) -> bool {
        self.reward_receipt.receipt_manager@ == self.receipt_manager.identity@
    }

    /// How a request is answered. The caller is checked first: a request that
    /// fails both checks is answered with `InvalidAuthority`.
    pub open spec fn verdict(&self) -> Result<(), ErrorCode> {
        if !self.caller_is_authority() {
            Err(ErrorCode::InvalidAuthority)
        } else if !self.receipt_is_owned() {
            Err(ErrorCode::InvalidReceiptManager)
        } else {
            Ok(())
        }
    }

    /// The accounts as a request to store `allowed` leaves them: with the
    /// receipt's flag replaced where the request is granted, untouched where
    /// it is not.
    pub open spec fn after(&self, allowed: bool) -> SetRewardReceiptAllowed {
        if self.verdict() is Ok {
            SetRewardReceiptAllowed {
                reward_receipt: RewardReceipt { allowed, ..self.reward_receipt },
                ..*self
            }
        } else {
            *self
        }
    }

    /// Checks the two conditions under which the flag may be set.
    pub fn validate(&self) -> (r: Result<(), ErrorCode>)
        ensures
            r == self.verdict(),
    {
        if !(self.receipt_manager.authority == self.authority) {
            return Err(ErrorCode::InvalidAuthority);
        }
        if !(self.reward_receipt.receipt_manager == self.receipt_manager.identity) {
            return Err(ErrorCode::InvalidReceiptManager);
        }
        Ok(())
    }
}

/// Sets the receipt's flag to `allowed` if the caller is the manager's
/// authority and the receipt belongs to the manager. Otherwise reports which
/// of the two failed and leaves everything as it was.
pub fn handler(ctx: &mut SetRewardReceiptAllowed, allowed: bool) -> (r: Result<(), ErrorCode>)
    ensures
        r == old(ctx).verdict(),
        *final(ctx) == old(ctx).after(allowed),
{
    ctx.validate()?;
    ctx.reward_receipt.allowed = allowed;
    Ok(())
}

/// A request by the manager's authority for a receipt of that manager is
/// granted, and the flag then holds the requested value, whatever it held
/// before.
pub proof fn lemma_authorized_request_is_granted(ctx: SetRewardReceiptAllowed, allowed: bool)
    requires
        ctx.receipt_is_owned(),
        ctx.caller_is_authority(),
    ensures
        ctx.verdict() == Ok::<(), ErrorCode>(()),
        ctx.after(allowed).reward_receipt.allowed == allowed,
{
}

/// A request by anyone but the manager's authority is rejected with
/// `InvalidAuthority`, and the flag keeps its value.
pub proof fn lemma_stranger_is_rejected(ctx: SetRewardReceiptAllowed, allowed: bool)
    requires
        !ctx.caller_is_authority(),
    ensures
        ctx.verdict() == Err::<(), ErrorCode>(ErrorCode::InvalidAuthority),
        ctx.after(allowed).reward_receipt.allowed == ctx.reward_receipt.allowed,
        ctx.after(allowed) == ctx,
{
}

/// A request by the manager's authority for a receipt of another manager is
/// rejected with `InvalidReceiptManager`, and the flag keeps its value.
pub proof fn lemma_foreign_receipt_is_rejected(ctx: SetRewardReceiptAllowed, allowed: bool)
    requires
        !ctx.receipt_is_owned(),
        ctx.caller_is_authority(),
    ensures
        ctx.verdict() == Err::<(), ErrorCode>(ErrorCode::InvalidReceiptManager),
        ctx.after(allowed).reward_receipt.allowed == ctx.reward_receipt.allowed,
        ctx.after(allowed) == ctx,
{
}

/// No request, granted or not, changes the manager, the caller or the
/// manager that the receipt points back at: a request that is granted once
/// is granted again, and a rejected one is rejected again.
pub proof fn lemma_only_the_flag_changes(ctx: SetRewardReceiptAllowed, allowed: bool)
    ensures
        ctx.after(allowed).receipt_manager == ctx.receipt_manager,
        ctx.after(allowed).authority == ctx.authority,
        ctx.after(allowed).reward_receipt.receipt_manager == ctx.reward_receipt.receipt_manager,
        ctx.after(allowed).verdict() == ctx.verdict(),
{
}

/// Granting the same request twice in a row leaves the accounts as granting
/// it once does.
pub proof fn lemma_repeated_request_is_idempotent(ctx: SetRewardReceiptAllowed, allowed: bool)
    requires
        ctx.verdict() is Ok,
    ensures
        ctx.after(allowed).verdict() is Ok,
        ctx.after(allowed).after(allowed) == ctx.after(allowed),
        ctx.after(allowed).after(allowed).reward_receipt.allowed == allowed,
{
}

/// A flag that is off is switched on by a granted request for `true`, and
/// switched off again by a following request for `false`.
pub proof fn lemma_flag_toggles(ctx: SetRewardReceiptAllowed)
    requires
        ctx.verdict() is Ok,
        !ctx.reward_receipt.allowed,
    ensures
        ctx.after(true).verdict() is Ok,
        ctx.after(true).reward_receipt.allowed,
        ctx.after(true).after(false).verdict() is Ok,
        !ctx.after(true).after(false).reward_receipt.allowed,
{
}

} // verus!
