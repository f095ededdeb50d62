use crate::address::Address;
use vstd::prelude::*;

verus! {

/// A call that an operation asks the token ledger, the custody authority or
/// the reward mint to make. The operation takes effect only if every call it
/// returns succeeds, in order.
#[derive(Clone, Copy, Debug, PartialEq, Eq)]
pub enum TokenCall {
    /// Let `delegate` move `amount` units of `account` on behalf of `owner`.
    Approve { account: Address, delegate: Address, owner: Address, amount: u64 },
    /// Freeze `account`, signed by the derived `delegate` with `delegate_bump`.
    FreezeDelegated { account: Address, delegate: Address, delegate_bump: u8, edition: Address, mint: Address },
    /// Thaw `account`, signed by the derived `delegate` with `delegate_bump`.
    ThawDelegated { account: Address, delegate: Address, delegate_bump: u8, edition: Address, mint: Address },
    /// Withdraw any delegation of `account`, signed by `owner`.
    Revoke { account: Address, owner: Address },
    /// Mint `amount` reward units of `mint` to `to`, signed by the derived
    /// `authority` with `authority_bump`.
    MintTo { mint: Address, to: Address, authority: Address, authority_bump: u8, amount: u64 },
}

/// What the ledger and the custody authority hold of one asset account: its
/// delegate, if any, and whether it is frozen.
pub struct Custody {
    pub delegate: Option<Seq<u8>>,
    pub frozen: bool,
}

/// The custody of `account` after `call`, or `None` where the collaborator
/// rejects the call: a frozen account takes no new delegate and cannot be
/// revoked; freeze and thaw need the caller to be the delegate and the account
/// to be thawed, resp. frozen. Calls on other accounts leave it as it is.
pub open spec fn after_call(c: Custody, account: Seq<u8>, call: TokenCall) -> Option<Custody> {
    match call {
        TokenCall::Approve { account: a, delegate, .. } => if a@ != account {
            Some(c)
        } else if c.frozen {
            None
        } else {
            Some(Custody { delegate: Some(delegate@), frozen: false })
        },
        TokenCall::FreezeDelegated { account: a, delegate, .. } => if a@ != account {
            Some(c)
        } else if c.frozen || c.delegate != Some(delegate@) {
            None
        } else {
            Some(Custody { frozen: true, ..c })
        },
        TokenCall::ThawDelegated { account: a, delegate, .. } => if a@ != account {
            Some(c)
        } else if !c.frozen || c.delegate != Some(delegate@) {
            None
        } else {
            Some(Custody { frozen: false, ..c })
        },
        TokenCall::Revoke { account: a, .. } => if a@ != account {
            Some(c)
        } else if c.frozen {
            None
        } else {
            Some(Custody { delegate: None, ..c })
        },
        TokenCall::MintTo { .. } => Some(c),
    }
}

/// The custody of `account` after `calls` in order, or `None` where one of
/// them is rejected.
pub open spec fn after_calls(c: Custody, account: Seq<u8>, calls: Seq<TokenCall>) -> Option<Custody>
    decreases calls.len(),
{
    if calls.len() == 0 {
        Some(c)
    } else {
        match after_call(c, account, calls[0]) {
            Some(n) => after_calls(n, account, calls.drop_first()),
            None => None,
        }
    }
}

} // verus!
