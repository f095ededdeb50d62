use crate::address::Address;
use vstd::prelude::*;

verus! {

/// Reward paid per second of stake, in base units of the reward token.
pub const REWARD_RATE_PER_SECOND: u64 = 1_000_000;

/// Whether an asset is currently held in custody by the program.
#[derive(Clone, Copy, Debug, PartialEq, Eq, Structural)]
pub enum StakeState {
    Staked,
    Unstaked,
}

impl Default for StakeState {
    fn default() -> (r: StakeState)
        ensures
            r == StakeState::Unstaked,
    {
        StakeState::Unstaked
    }
}

/// The persisted stake record of one `(owner, asset token account)` pair.
#[derive(Clone, Copy, Debug)]
pub struct UserStakeInfo {
    pub token_account: Address,
    pub stake_start_time: i64,
    pub last_stake_redeem: i64,
    pub user_pubkey: Address,
    pub stake_state: StakeState,
    pub is_initialized: bool,
}

impl Default for UserStakeInfo {
    /// A record that was never staked.
    fn default() -> (r: UserStakeInfo)
        ensures
            r.is_fresh(),
    {
        UserStakeInfo {
            token_account: Address::zero(),
            stake_start_time: 0,
            last_stake_redeem: 0,
            user_pubkey: Address::zero(),
            stake_state: StakeState::Unstaked,
            is_initialized: false,
        }
    }
}

/// Why an operation on a stake record was rejected.
#[derive(Clone, Copy, Debug, PartialEq, Eq, Structural)]
pub enum StakeError {
    /// Reserved for rejecting a second stake; staking again resets the record.
    AccountAlreadyInitialized,
    /// The record was never staked.
    UninitializedAccount,
    /// The record is not staking anything.
    InvalidStakeState,
    /// The signer or the asset account is not the record's.
    UnauthorizedOwner,
    /// The reward is not representable as a token amount.
    ArithmeticOverflow,
    /// The signing authority supplied is not the program's derived one.
    InvalidAuthority,
}

pub open spec fn zero_address() -> Seq<u8> {
    Seq::new(32, |i: int| 0u8)
}

impl UserStakeInfo {
    /// The record as storage hands it out, before the first stake.
    pub open spec fn is_fresh(&self) -> bool {
        &&& self.token_account@ == zero_address()
        &&& self.stake_start_time == 0
        &&& self.last_stake_redeem == 0
        &&& self.user_pubkey@ == zero_address()
        &&& self.stake_state == StakeState::Unstaked
        &&& !self.is_initialized
    }

    pub open spec fn is_staked(&self) -> bool {
        self.is_initialized && self.stake_state == StakeState::Staked
    }

    /// The record belongs to `user` and holds `token_account`.
    pub open spec fn owned_by(&self, user: Seq<u8>, token_account: Seq<u8>) -> bool {
        self.user_pubkey@ == user && self.token_account@ == token_account
    }
}

/// Reward for the seconds from `last` to `now`; negative when the clock
/// stands before `last`.
pub open spec fn reward_of(last: i64, now: i64) -> int {
    (now - last) * REWARD_RATE_PER_SECOND
}

/// The reward from `last` to `now` is a valid token amount.
pub open spec fn reward_fits(last: i64, now: i64) -> bool {
    0 <= reward_of(last, now) <= u64::MAX
}

/// The record of `(user, token_account)` right after a stake at `now`.
pub open spec fn staked_record(user: Address, token_account: Address, now: i64) -> UserStakeInfo {
    UserStakeInfo {
        token_account,
        stake_start_time: now,
        last_stake_redeem: now,
        user_pubkey: user,
        stake_state: StakeState::Staked,
        is_initialized: true,
    }
}

/// Why `user` may not stake `token_account` on `rec`: only a record that
/// already belongs to another pair refuses.
pub open spec fn stake_error(rec: UserStakeInfo, user: Seq<u8>, token_account: Seq<u8>) -> Option<StakeError> {
    if rec.is_initialized && !rec.owned_by(user, token_account) {
        Some(StakeError::UnauthorizedOwner)
    } else {
        None
    }
}

/// Why `user` may not unstake or redeem `token_account` on `rec`.
pub open spec fn active_error(rec: UserStakeInfo, user: Seq<u8>, token_account: Seq<u8>) -> Option<StakeError> {
    if !rec.is_initialized {
        Some(StakeError::UninitializedAccount)
    } else if !rec.owned_by(user, token_account) {
        Some(StakeError::UnauthorizedOwner)
    } else if rec.stake_state != StakeState::Staked {
        Some(StakeError::InvalidStakeState)
    } else {
        None
    }
}

/// Outcome of a stake on `rec`: the new record, or the rejection.
pub open spec fn stake_transition(rec: UserStakeInfo, user: Address, token_account: Address, now: i64) -> Result<UserStakeInfo, StakeError> {
    match stake_error(rec, user@, token_account@) {
        Some(e) => Err(e),
        None => Ok(staked_record(user, token_account, now)),
    }
}

/// Outcome of an unstake on `rec`.
pub open spec fn unstake_transition(rec: UserStakeInfo, user: Address, token_account: Address) -> Result<UserStakeInfo, StakeError> {
    match active_error(rec, user@, token_account@) {
        Some(e) => Err(e),
        None => Ok(UserStakeInfo { stake_state: StakeState::Unstaked, ..rec }),
    }
}

/// Outcome of a redeem on `rec` at `now`: the new record and the reward.
pub open spec fn redeem_transition(rec: UserStakeInfo, user: Address, token_account: Address, now: i64) -> Result<(UserStakeInfo, u64), StakeError> {
    match active_error(rec, user@, token_account@) {
        Some(e) => Err(e),
        None => if reward_fits(rec.last_stake_redeem, now) {
            Ok((UserStakeInfo { last_stake_redeem: now, ..rec }, reward_of(rec.last_stake_redeem, now) as u64))
        } else {
            Err(StakeError::ArithmeticOverflow)
        },
    }
}

/// The reward for the seconds from `last` to `now`, or `ArithmeticOverflow`
/// where it is negative or above the largest token amount.
pub fn reward_amount(last: i64, now: i64) -> (r: Result<u64, StakeError>)
    ensures
        reward_fits(last, now) ==> r == Ok::<u64, StakeError>(reward_of(last, now) as u64),
        !reward_fits(last, now) ==> r == Err::<u64, StakeError>(StakeError::ArithmeticOverflow),
{
    let elapsed: i128 = now as i128 - last as i128;
    let amount: i128 = elapsed * (REWARD_RATE_PER_SECOND as i128);
    if amount < 0 || amount > u64::MAX as i128 {
        Err(StakeError::ArithmeticOverflow)
    } else {
        Ok(amount as u64)
    }
}

fn check_active(rec: &UserStakeInfo, user: &Address, token_account: &Address) -> (r: Result<(), StakeError>)
    ensures
        match active_error(*rec, user@, token_account@) {
            Some(e) => r == Err::<(), StakeError>(e),
            None => r is Ok,
        },
{
    if !rec.is_initialized {
        Err(StakeError::UninitializedAccount)
    } else if !rec.user_pubkey.same(user) || !rec.token_account.same(token_account) {
        Err(StakeError::UnauthorizedOwner)
    } else if rec.stake_state != StakeState::Staked {
        Err(StakeError::InvalidStakeState)
    } else {
        Ok(())
    }
}

/// Marks `rec` staked by `user` on `token_account` since `now`, resetting
/// both timestamps; a record of another pair is left unchanged.
pub fn stake_record(rec: &mut UserStakeInfo, user: &Address, token_account: &Address, now: i64) -> (r: Result<(), StakeError>)
    ensures
        match stake_transition(*old(rec), *user, *token_account, now) {
            Ok(n) => r is Ok && *final(rec) == n,
            Err(e) => r == Err::<(), StakeError>(e) && *final(rec) == *old(rec),
        },
{
    if rec.is_initialized && (!rec.user_pubkey.same(user) || !rec.token_account.same(token_account)) {
        return Err(StakeError::UnauthorizedOwner);
    }
    rec.token_account = *token_account;
    rec.user_pubkey = *user;
    rec.stake_state = StakeState::Staked;
    rec.stake_start_time = now;
    rec.last_stake_redeem = now;
    rec.is_initialized = true;
    Ok(())
}

/// Marks an actively staked `rec` unstaked; timestamps are kept.
pub fn unstake_record(rec: &mut UserStakeInfo, user: &Address, token_account: &Address) -> (r: Result<(), StakeError>)
    ensures
        match unstake_transition(*old(rec), *user, *token_account) {
            Ok(n) => r is Ok && *final(rec) == n,
            Err(e) => r == Err::<(), StakeError>(e) && *final(rec) == *old(rec),
        },
{
    check_active(rec, user, token_account)?;
    rec.stake_state = StakeState::Unstaked;
    Ok(())
}

/// Settles the reward of an actively staked `rec` up to `now`: returns the
/// amount owed and moves the last redemption to `now`.
pub fn redeem_record(rec: &mut UserStakeInfo, user: &Address, token_account: &Address, now: i64) -> (r: Result<u64, StakeError>)
    ensures
        match redeem_transition(*old(rec), *user, *token_account, now) {
            Ok((n, amount)) => r == Ok::<u64, StakeError>(amount) && *final(rec) == n,
            Err(e) => r == Err::<u64, StakeError>(e) && *final(rec) == *old(rec),
        },
{
    check_active(rec, user, token_account)?;
    let amount = reward_amount(rec.last_stake_redeem, now)?;
    rec.last_stake_redeem = now;
    Ok(amount)
}

} // verus!
