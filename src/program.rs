use crate::address::{
    authority_seed, custody_authority, mint_authority, mint_seed, program_address_of, record_seeds,
    stake_record_address, Address,
};
use crate::custody::TokenCall;
use crate::record::{
    redeem_record, redeem_transition, stake_record, stake_transition, unstake_record,
    unstake_transition, StakeError, UserStakeInfo,
};
use vstd::prelude::*;

verus! {

/// The accounts of a stake: the signing owner, the asset's token account,
/// mint and edition, the stake record and where it lives, the program's
/// custody delegate, and the program itself.
#[derive(Clone, Copy, Debug)]
pub struct Stake {
    pub user: Address,
    pub nft_token_account: Address,
    pub nft_mint: Address,
    pub nft_edition: Address,
    pub stake_state_address: Address,
    pub stake_state: UserStakeInfo,
    pub program_authority: Address,
    pub program_id: Address,
}

/// The accounts of an unstake; the same as those of a stake.
#[derive(Clone, Copy, Debug)]
pub struct Unstake {
    pub user: Address,
    pub nft_token_account: Address,
    pub nft_mint: Address,
    pub nft_edition: Address,
    pub stake_state_address: Address,
    pub stake_state: UserStakeInfo,
    pub program_authority: Address,
    pub program_id: Address,
}

/// The accounts of a redeem: the signing owner, the staked asset's token
/// account, the stake record and where it lives, the reward mint, its
/// derived authority, the owner's reward-token account, and the program.
#[derive(Clone, Copy, Debug)]
pub struct Redeem {
    pub user: Address,
    pub nft_token_account: Address,
    pub stake_state_address: Address,
    pub stake_state: UserStakeInfo,
    pub stake_mint: Address,
    pub stake_authority: Address,
    pub user_stake_ata: Address,
    pub program_id: Address,
}

/// `address` is where the record of `(user, token_account)` lives under `program`.
pub open spec fn record_lives_at(user: Seq<u8>, token_account: Seq<u8>, address: Seq<u8>, program: Seq<u8>) -> bool {
    program_address_of(record_seeds(user, token_account), program) matches Some((a, _)) && a == address
}

/// The bump with which `authority` signs, where it is the identity derived
/// from `seed` under `program`.
pub open spec fn signing_bump(authority: Seq<u8>, seed: Seq<u8>, program: Seq<u8>) -> Option<u8> {
    match program_address_of(seq![seed], program) {
        Some((a, b)) => if a == authority {
            Some(b)
        } else {
            None
        },
        None => None,
    }
}

/// Outcome of a stake: the new record and the calls to make, or the rejection.
pub open spec fn stake_outcome(ctx: Stake, now: i64) -> Result<(UserStakeInfo, Seq<TokenCall>), StakeError> {
    if !record_lives_at(ctx.user@, ctx.nft_token_account@, ctx.stake_state_address@, ctx.program_id@) {
        Err(StakeError::UnauthorizedOwner)
    } else {
        match signing_bump(ctx.program_authority@, authority_seed(), ctx.program_id@) {
            None => Err(StakeError::InvalidAuthority),
            Some(bump) => match stake_transition(ctx.stake_state, ctx.user, ctx.nft_token_account, now) {
                Err(e) => Err(e),
                Ok(rec) => Ok((rec, seq![
                    TokenCall::Approve {
                        account: ctx.nft_token_account,
                        delegate: ctx.program_authority,
                        owner: ctx.user,
                        amount: 1,
                    },
                    TokenCall::FreezeDelegated {
                        account: ctx.nft_token_account,
                        delegate: ctx.program_authority,
                        delegate_bump: bump,
                        edition: ctx.nft_edition,
                        mint: ctx.nft_mint,
                    },
                ])),
            },
        }
    }
}

/// Outcome of an unstake: the new record and the calls to make, or the rejection.
pub open spec fn unstake_outcome(ctx: Unstake) -> Result<(UserStakeInfo, Seq<TokenCall>), StakeError> {
    if !record_lives_at(ctx.user@, ctx.nft_token_account@, ctx.stake_state_address@, ctx.program_id@) {
        Err(StakeError::UnauthorizedOwner)
    } else {
        match signing_bump(ctx.program_authority@, authority_seed(), ctx.program_id@) {
            None => Err(StakeError::InvalidAuthority),
            Some(bump) => match unstake_transition(ctx.stake_state, ctx.user, ctx.nft_token_account) {
                Err(e) => Err(e),
                Ok(rec) => Ok((rec, seq![
                    TokenCall::ThawDelegated {
                        account: ctx.nft_token_account,
                        delegate: ctx.program_authority,
                        delegate_bump: bump,
                        edition: ctx.nft_edition,
                        mint: ctx.nft_mint,
                    },
                    TokenCall::Revoke { account: ctx.nft_token_account, owner: ctx.user },
                ])),
            },
        }
    }
}

/// Outcome of a redeem at `now`: the new record and the mint to make, or
/// the rejection.
pub open spec fn redeem_outcome(ctx: Redeem, now: i64) -> Result<(UserStakeInfo, Seq<TokenCall>), StakeError> {
    if !record_lives_at(ctx.user@, ctx.nft_token_account@, ctx.stake_state_address@, ctx.program_id@) {
        Err(StakeError::UnauthorizedOwner)
    } else {
        match signing_bump(ctx.stake_authority@, mint_seed(), ctx.program_id@) {
            None => Err(StakeError::InvalidAuthority),
            Some(bump) => match redeem_transition(ctx.stake_state, ctx.user, ctx.nft_token_account, now) {
                Err(e) => Err(e),
                Ok((rec, amount)) => Ok((rec, seq![
                    TokenCall::MintTo {
                        mint: ctx.stake_mint,
                        to: ctx.user_stake_ata,
                        authority: ctx.stake_authority,
                        authority_bump: bump,
                        amount,
                    },
                ])),
            },
        }
    }
}

fn check_record_address(user: &Address, token_account: &Address, address: &Address, program: &Address) -> (r: Result<(), StakeError>)
    ensures
        record_lives_at(user@, token_account@, address@, program@) ==> r is Ok,
        !record_lives_at(user@, token_account@, address@, program@) ==> r == Err::<(), StakeError>(StakeError::UnauthorizedOwner),
{
    match stake_record_address(user, token_account, program) {
        Some((a, _)) => if a.same(address) {
            Ok(())
        } else {
            Err(StakeError::UnauthorizedOwner)
        },
        None => Err(StakeError::UnauthorizedOwner),
    }
}

fn check_authority(derived: Option<(Address, u8)>, authority: &Address) -> (r: Result<u8, StakeError>)
    ensures
        match derived {
            Some((a, b)) => if a@ == authority@ {
                r == Ok::<u8, StakeError>(b)
            } else {
                r == Err::<u8, StakeError>(StakeError::InvalidAuthority)
            },
            None => r == Err::<u8, StakeError>(StakeError::InvalidAuthority),
        },
{
    match derived {
        Some((a, b)) => if a.same(authority) {
            Ok(b)
        } else {
            Err(StakeError::InvalidAuthority)
        },
        None => Err(StakeError::InvalidAuthority),
    }
}

/// Stakes the asset at time `now`: checks where the record lives and the
/// custody delegate, marks the record staked since `now`, and returns the
/// delegation of one unit to the custody delegate and the freeze to make.
pub fn stake(ctx: &mut Stake, now: i64) -> (r: Result<Vec<TokenCall>, StakeError>)
    ensures
        match stake_outcome(*old(ctx), now) {
            Ok((rec, calls)) => r matches Ok(v) && v@ == calls && *final(ctx) == (Stake {
                stake_state: rec,
                ..*old(ctx)
            }),
            Err(e) => r matches Err(x) && x == e && *final(ctx) == *old(ctx),
        },
{
    check_record_address(&ctx.user, &ctx.nft_token_account, &ctx.stake_state_address, &ctx.program_id)?;
    let bump = check_authority(custody_authority(&ctx.program_id), &ctx.program_authority)?;
    stake_record(&mut ctx.stake_state, &ctx.user, &ctx.nft_token_account, now)?;
    let calls: Vec<TokenCall> = vec![
        TokenCall::Approve {
            account: ctx.nft_token_account,
            delegate: ctx.program_authority,
            owner: ctx.user,
            amount: 1,
        },
        TokenCall::FreezeDelegated {
            account: ctx.nft_token_account,
            delegate: ctx.program_authority,
            delegate_bump: bump,
            edition: ctx.nft_edition,
            mint: ctx.nft_mint,
        },
    ];
    Ok(calls)
}

/// Unstakes the asset: checks where the record lives, the custody delegate
/// and that the record is actively staked by this owner, marks it unstaked,
/// and returns the thaw and the revocation to make.
pub fn unstake(ctx: &mut Unstake) -> (r: Result<Vec<TokenCall>, StakeError>)
    ensures
        match unstake_outcome(*old(ctx)) {
            Ok((rec, calls)) => r matches Ok(v) && v@ == calls && *final(ctx) == (Unstake {
                stake_state: rec,
                ..*old(ctx)
            }),
            Err(e) => r matches Err(x) && x == e && *final(ctx) == *old(ctx),
        },
{
    check_record_address(&ctx.user, &ctx.nft_token_account, &ctx.stake_state_address, &ctx.program_id)?;
    let bump = check_authority(custody_authority(&ctx.program_id), &ctx.program_authority)?;
    unstake_record(&mut ctx.stake_state, &ctx.user, &ctx.nft_token_account)?;
    let calls: Vec<TokenCall> = vec![
        TokenCall::ThawDelegated {
            account: ctx.nft_token_account,
            delegate: ctx.program_authority,
            delegate_bump: bump,
            edition: ctx.nft_edition,
            mint: ctx.nft_mint,
        },
        TokenCall::Revoke { account: ctx.nft_token_account, owner: ctx.user },
    ];
    Ok(calls)
}

/// Redeems the reward accrued up to `now`: checks where the record lives,
/// the mint authority and that the record is actively staked by this owner,
/// moves the last redemption to `now`, and returns the mint of the reward.
pub fn redeem(ctx: &mut Redeem, now: i64) -> (r: Result<Vec<TokenCall>, StakeError>)
    ensures
        match redeem_outcome(*old(ctx), now) {
            Ok((rec, calls)) => r matches Ok(v) && v@ == calls && *final(ctx) == (Redeem {
                stake_state: rec,
                ..*old(ctx)
            }),
            Err(e) => r matches Err(x) && x == e && *final(ctx) == *old(ctx),
        },
{
    check_record_address(&ctx.user, &ctx.nft_token_account, &ctx.stake_state_address, &ctx.program_id)?;
    let bump = check_authority(mint_authority(&ctx.program_id), &ctx.stake_authority)?;
    let amount = redeem_record(&mut ctx.stake_state, &ctx.user, &ctx.nft_token_account, now)?;
    let calls: Vec<TokenCall> = vec![
        TokenCall::MintTo {
            mint: ctx.stake_mint,
            to: ctx.user_stake_ata,
            authority: ctx.stake_authority,
            authority_bump: bump,
            amount,
        },
    ];
    Ok(calls)
}

} // verus!
