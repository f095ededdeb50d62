use crate::address::{authority_seed, Address};
use crate::custody::{after_call, after_calls, Custody, TokenCall};
use crate::program::{
    record_lives_at, redeem_outcome, signing_bump, stake_outcome, unstake_outcome, Redeem, Stake,
    Unstake,
};
use crate::record::{
    redeem_transition, reward_of, stake_transition, unstake_transition, StakeError, StakeState,
    UserStakeInfo, REWARD_RATE_PER_SECOND,
};
use vstd::prelude::*;

verus! {

/// Staking at `t` and redeeming at once pays nothing and keeps the last
/// redemption at `t`.
pub proof fn stake_then_redeem_pays_nothing(rec: UserStakeInfo, user: Address, token_account: Address, t: i64)
    requires
        stake_transition(rec, user, token_account, t) is Ok,
    ensures
        redeem_transition(stake_transition(rec, user, token_account, t)->Ok_0, user, token_account, t) matches Ok((n, amount))
            && amount == 0 && n.last_stake_redeem == t,
{
}

/// Staking at `t` and redeeming at `t + n` pays `n` times the rate; a
/// second redeem at the same time pays nothing.
pub proof fn reward_accrues_linearly(rec: UserStakeInfo, user: Address, token_account: Address, t: i64, n: i64)
    requires
        stake_transition(rec, user, token_account, t) is Ok,
        0 <= n,
        t + n <= i64::MAX,
        n * REWARD_RATE_PER_SECOND <= u64::MAX,
    ensures
        ({
            let staked = stake_transition(rec, user, token_account, t)->Ok_0;
            &&& redeem_transition(staked, user, token_account, (t + n) as i64) matches Ok((r1, a1))
            &&& a1 == n * REWARD_RATE_PER_SECOND
            &&& redeem_transition(r1, user, token_account, (t + n) as i64) matches Ok((r2, a2))
            &&& a2 == 0
            &&& r2.last_stake_redeem == t + n
        }),
{
    assert(reward_of(t, (t + n) as i64) == n * REWARD_RATE_PER_SECOND);
}

/// Stake, unstake and stake again: both timestamps are those of the second
/// stake, and a later redeem pays only from then.
pub proof fn restake_resets_timestamps(rec: UserStakeInfo, user: Address, token_account: Address, t1: i64, t2: i64, t3: i64)
    requires
        stake_transition(rec, user, token_account, t1) is Ok,
        t2 <= t3,
        (t3 - t2) * REWARD_RATE_PER_SECOND <= u64::MAX,
    ensures
        ({
            let s1 = stake_transition(rec, user, token_account, t1)->Ok_0;
            &&& unstake_transition(s1, user, token_account) matches Ok(u)
            &&& stake_transition(u, user, token_account, t2) matches Ok(s2)
            &&& s2.stake_start_time == t2
            &&& s2.last_stake_redeem == t2
            &&& redeem_transition(s2, user, token_account, t3) matches Ok((_, amount))
            &&& amount == (t3 - t2) * REWARD_RATE_PER_SECOND
        }),
{
    assert(0 <= (t3 - t2) * REWARD_RATE_PER_SECOND) by (nonlinear_arith)
        requires t2 <= t3;
}

/// Unstake and redeem refuse a record that was never staked, and one that
/// its owner has unstaked.
pub proof fn inactive_records_refuse(rec: UserStakeInfo, user: Address, token_account: Address, now: i64)
    ensures
        !rec.is_initialized ==> unstake_transition(rec, user, token_account) == Err::<UserStakeInfo, StakeError>(
            StakeError::UninitializedAccount,
        ),
        !rec.is_initialized ==> redeem_transition(rec, user, token_account, now) == Err::<(UserStakeInfo, u64), StakeError>(
            StakeError::UninitializedAccount,
        ),
        rec.is_initialized && rec.owned_by(user@, token_account@) && rec.stake_state == StakeState::Unstaked
            ==> unstake_transition(rec, user, token_account) == Err::<UserStakeInfo, StakeError>(StakeError::InvalidStakeState),
        rec.is_initialized && rec.owned_by(user@, token_account@) && rec.stake_state == StakeState::Unstaked
            ==> redeem_transition(rec, user, token_account, now) == Err::<(UserStakeInfo, u64), StakeError>(
            StakeError::InvalidStakeState,
        ),
{
}

/// No operation signed by anyone but a record's owner changes it.
pub proof fn others_cannot_touch(rec: UserStakeInfo, user: Address, token_account: Address, now: i64)
    requires
        rec.is_initialized,
        rec.user_pubkey@ != user@,
    ensures
        stake_transition(rec, user, token_account, now) == Err::<UserStakeInfo, StakeError>(StakeError::UnauthorizedOwner),
        unstake_transition(rec, user, token_account) == Err::<UserStakeInfo, StakeError>(StakeError::UnauthorizedOwner),
        redeem_transition(rec, user, token_account, now) == Err::<(UserStakeInfo, u64), StakeError>(
            StakeError::UnauthorizedOwner,
        ),
{
}

/// A record is reached only at the address derived from its own
/// `(owner, asset token account)` pair: every operation refuses any other.
pub proof fn records_only_at_their_address(s: Stake, u: Unstake, r: Redeem, now: i64)
    ensures
        !record_lives_at(s.user@, s.nft_token_account@, s.stake_state_address@, s.program_id@)
            ==> stake_outcome(s, now) == Err::<(UserStakeInfo, Seq<TokenCall>), StakeError>(StakeError::UnauthorizedOwner),
        !record_lives_at(u.user@, u.nft_token_account@, u.stake_state_address@, u.program_id@)
            ==> unstake_outcome(u) == Err::<(UserStakeInfo, Seq<TokenCall>), StakeError>(StakeError::UnauthorizedOwner),
        !record_lives_at(r.user@, r.nft_token_account@, r.stake_state_address@, r.program_id@)
            ==> redeem_outcome(r, now) == Err::<(UserStakeInfo, Seq<TokenCall>), StakeError>(StakeError::UnauthorizedOwner),
{
}

/// Once a record is initialized it stays so, and its owner and asset never
/// change; a stake at `now` or a redeem at `now` never leaves the last
/// redemption after `now`.
pub proof fn initialized_records_keep_identity(rec: UserStakeInfo, user: Address, token_account: Address, now: i64)
    requires
        rec.is_initialized,
    ensures
        stake_transition(rec, user, token_account, now) matches Ok(n) ==> n.is_initialized
            && n.owned_by(rec.user_pubkey@, rec.token_account@)
            && n.last_stake_redeem == now,
        unstake_transition(rec, user, token_account) matches Ok(n) ==> n.is_initialized
            && n.owned_by(rec.user_pubkey@, rec.token_account@),
        redeem_transition(rec, user, token_account, now) matches Ok((n, _)) ==> n.is_initialized
            && n.owned_by(rec.user_pubkey@, rec.token_account@)
            && rec.last_stake_redeem <= n.last_stake_redeem == now,
{
}

/// The record's state agrees with the custody of its asset: staked exactly
/// when the asset is frozen under `authority`'s delegation; otherwise not frozen.
pub open spec fn coupled(rec: UserStakeInfo, c: Custody, authority: Seq<u8>) -> bool {
    if rec.is_staked() {
        c.frozen && c.delegate == Some(authority)
    } else {
        !c.frozen
    }
}

/// After a stake whose calls all succeed, the asset is frozen under the
/// custody delegate, and the record says it is staked.
pub proof fn stake_freezes(ctx: Stake, now: i64, c: Custody)
    requires
        stake_outcome(ctx, now) is Ok,
        after_calls(c, ctx.nft_token_account@, stake_outcome(ctx, now)->Ok_0.1) is Some,
    ensures
        ({
            let c2 = after_calls(c, ctx.nft_token_account@, stake_outcome(ctx, now)->Ok_0.1)->Some_0;
            &&& c2.frozen
            &&& c2.delegate == Some(ctx.program_authority@)
            &&& signing_bump(ctx.program_authority@, authority_seed(), ctx.program_id@) is Some
            &&& coupled(stake_outcome(ctx, now)->Ok_0.0, c2, ctx.program_authority@)
        }),
{
    let calls = stake_outcome(ctx, now)->Ok_0.1;
    let acct = ctx.nft_token_account@;
    let c1 = after_call(c, acct, calls[0])->Some_0;
    assert(calls.drop_first().drop_first() =~= Seq::<TokenCall>::empty());
    assert(after_calls(c, acct, calls) == after_calls(c1, acct, calls.drop_first()));
    reveal_with_fuel(after_calls, 3);
}

/// After an unstake whose calls all succeed, the asset is thawed and has no
/// delegate, and the record says it is not staked.
pub proof fn unstake_releases(ctx: Unstake, c: Custody)
    requires
        unstake_outcome(ctx) is Ok,
        after_calls(c, ctx.nft_token_account@, unstake_outcome(ctx)->Ok_0.1) is Some,
    ensures
        ({
            let c2 = after_calls(c, ctx.nft_token_account@, unstake_outcome(ctx)->Ok_0.1)->Some_0;
            &&& !c2.frozen
            &&& c2.delegate is None
            &&& coupled(unstake_outcome(ctx)->Ok_0.0, c2, ctx.program_authority@)
        }),
{
    let calls = unstake_outcome(ctx)->Ok_0.1;
    assert(calls.drop_first().drop_first() =~= Seq::<TokenCall>::empty());
    reveal_with_fuel(after_calls, 3);
}

/// A redeem leaves custody as it is, so it keeps the record and the custody
/// in agreement.
pub proof fn redeem_keeps_custody(ctx: Redeem, now: i64, c: Custody, authority: Seq<u8>)
    requires
        redeem_outcome(ctx, now) is Ok,
        coupled(ctx.stake_state, c, authority),
    ensures
        after_calls(c, ctx.nft_token_account@, redeem_outcome(ctx, now)->Ok_0.1) == Some(c),
        coupled(redeem_outcome(ctx, now)->Ok_0.0, c, authority),
{
    let calls = redeem_outcome(ctx, now)->Ok_0.1;
    assert(calls.drop_first() =~= Seq::<TokenCall>::empty());
    reveal_with_fuel(after_calls, 2);
}

/// One of the three operations, with the clock it reads.
pub enum LedgerOp {
    Stake { now: i64 },
    Unstake,
    Redeem { now: i64 },
}

/// The record after `op` by `user` on `token_account`: the new record where
/// the operation succeeds, the old one where it is refused.
pub open spec fn record_after(op: LedgerOp, rec: UserStakeInfo, user: Address, token_account: Address) -> UserStakeInfo {
    match op {
        LedgerOp::Stake { now } => match stake_transition(rec, user, token_account, now) {
            Ok(n) => n,
            Err(_) => rec,
        },
        LedgerOp::Unstake => match unstake_transition(rec, user, token_account) {
            Ok(n) => n,
            Err(_) => rec,
        },
        LedgerOp::Redeem { now } => match redeem_transition(rec, user, token_account, now) {
            Ok((n, _)) => n,
            Err(_) => rec,
        },
    }
}

/// A record that was never staked.
pub open spec fn never_staked() -> UserStakeInfo {
    choose|r: UserStakeInfo| r.is_fresh()
}

/// All records, keyed by `(owner, asset token account)`, after `op` by
/// `user` on `token_account`; a pair without a record starts from one that
/// was never staked.
pub open spec fn ledger_after(
    ledger: Map<(Seq<u8>, Seq<u8>), UserStakeInfo>,
    op: LedgerOp,
    user: Address,
    token_account: Address,
) -> Map<(Seq<u8>, Seq<u8>), UserStakeInfo> {
    let key = (user@, token_account@);
    let rec = if ledger.contains_key(key) {
        ledger[key]
    } else {
        never_staked()
    };
    ledger.insert(key, record_after(op, rec, user, token_account))
}

/// Operations on two different `(owner, asset)` pairs do not interfere: each
/// leaves the other's record as it is, and either order gives the same ledger.
pub proof fn distinct_pairs_commute(
    ledger: Map<(Seq<u8>, Seq<u8>), UserStakeInfo>,
    op1: LedgerOp,
    user1: Address,
    token1: Address,
    op2: LedgerOp,
    user2: Address,
    token2: Address,
)
    requires
        (user1@, token1@) != (user2@, token2@),
    ensures
        ledger_after(ledger, op1, user1, token1).contains_key((user2@, token2@)) == ledger.contains_key((user2@, token2@)),
        ledger.contains_key((user2@, token2@)) ==> ledger_after(ledger, op1, user1, token1)[(user2@, token2@)]
            == ledger[(user2@, token2@)],
        ledger_after(ledger_after(ledger, op1, user1, token1), op2, user2, token2) == ledger_after(
            ledger_after(ledger, op2, user2, token2),
            op1,
            user1,
            token1,
        ),
{
    assert(ledger_after(ledger_after(ledger, op1, user1, token1), op2, user2, token2) =~= ledger_after(
        ledger_after(ledger, op2, user2, token2),
        op1,
        user1,
        token1,
    ));
}

} // verus!
