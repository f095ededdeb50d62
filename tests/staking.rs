use nft_staking::address::{custody_authority, mint_authority, stake_record_address, Address};
use nft_staking::custody::TokenCall;
use nft_staking::program::{redeem, stake, unstake, Redeem, Stake, Unstake};
use nft_staking::record::{
    redeem_record, reward_amount, stake_record, unstake_record, StakeError, StakeState,
    UserStakeInfo, REWARD_RATE_PER_SECOND,
};

fn addr(b: u8) -> Address {
    Address::new([b; 32])
}

fn program() -> Address {
    addr(7)
}

fn stake_ctx(user: Address, token: Address, record: UserStakeInfo) -> Stake {
    let (record_address, _) = stake_record_address(&user, &token, &program()).unwrap();
    let (authority, _) = custody_authority(&program()).unwrap();
    Stake {
        user,
        nft_token_account: token,
        nft_mint: addr(20),
        nft_edition: addr(21),
        stake_state_address: record_address,
        stake_state: record,
        program_authority: authority,
        program_id: program(),
    }
}

fn unstake_ctx(user: Address, token: Address, record: UserStakeInfo) -> Unstake {
    let s = stake_ctx(user, token, record);
    Unstake {
        user: s.user,
        nft_token_account: s.nft_token_account,
        nft_mint: s.nft_mint,
        nft_edition: s.nft_edition,
        stake_state_address: s.stake_state_address,
        stake_state: record,
        program_authority: s.program_authority,
        program_id: s.program_id,
    }
}

fn redeem_ctx(user: Address, token: Address, record: UserStakeInfo) -> Redeem {
    let (record_address, _) = stake_record_address(&user, &token, &program()).unwrap();
    let (authority, _) = mint_authority(&program()).unwrap();
    Redeem {
        user,
        nft_token_account: token,
        stake_state_address: record_address,
        stake_state: record,
        stake_mint: addr(30),
        stake_authority: authority,
        user_stake_ata: addr(31),
        program_id: program(),
    }
}

fn minted(calls: &[TokenCall]) -> u64 {
    assert_eq!(calls.len(), 1);
    match calls[0] {
        TokenCall::MintTo { amount, .. } => amount,
        _ => panic!("expected a mint"),
    }
}

#[test]
fn default_record_is_unstaked_and_uninitialized() {
    let r = UserStakeInfo::default();
    assert!(!r.is_initialized);
    assert_eq!(r.stake_state, StakeState::Unstaked);
    assert_eq!(StakeState::default(), StakeState::Unstaked);
    assert_eq!(r.stake_start_time, 0);
    assert_eq!(r.last_stake_redeem, 0);
    assert!(r.user_pubkey == Address::zero());
}

#[test]
fn derived_authorities_are_distinct_and_deterministic() {
    let (a1, b1) = custody_authority(&program()).unwrap();
    let (a2, b2) = custody_authority(&program()).unwrap();
    let (m, _) = mint_authority(&program()).unwrap();
    assert!(a1 == a2);
    assert_eq!(b1, b2);
    assert!(a1 != m);
    assert!(a1 != program());
    let (r1, _) = stake_record_address(&addr(1), &addr(2), &program()).unwrap();
    let (r2, _) = stake_record_address(&addr(2), &addr(1), &program()).unwrap();
    assert!(r1 != r2);
    assert!(r1 != addr(1) && r1 != addr(2));
}

#[test]
fn stake_marks_record_and_asks_for_delegation_and_freeze() {
    let mut ctx = stake_ctx(addr(1), addr(2), UserStakeInfo::default());
    let calls = stake(&mut ctx, 1000).unwrap();
    let rec = ctx.stake_state;
    assert!(rec.is_initialized);
    assert_eq!(rec.stake_state, StakeState::Staked);
    assert_eq!(rec.stake_start_time, 1000);
    assert_eq!(rec.last_stake_redeem, 1000);
    assert!(rec.user_pubkey == addr(1) && rec.token_account == addr(2));
    let (authority, bump) = custody_authority(&program()).unwrap();
    assert_eq!(calls.len(), 2);
    assert_eq!(
        calls[0],
        TokenCall::Approve { account: addr(2), delegate: authority, owner: addr(1), amount: 1 }
    );
    assert_eq!(
        calls[1],
        TokenCall::FreezeDelegated {
            account: addr(2),
            delegate: authority,
            delegate_bump: bump,
            edition: addr(21),
            mint: addr(20),
        }
    );
}

#[test]
fn stake_then_redeem_at_once_pays_zero() {
    let mut s = stake_ctx(addr(1), addr(2), UserStakeInfo::default());
    stake(&mut s, 500).unwrap();
    let mut r = redeem_ctx(addr(1), addr(2), s.stake_state);
    let calls = redeem(&mut r, 500).unwrap();
    assert_eq!(minted(&calls), 0);
    assert_eq!(r.stake_state.last_stake_redeem, 500);
}

#[test]
fn reward_accrues_per_second() {
    let mut s = stake_ctx(addr(1), addr(2), UserStakeInfo::default());
    stake(&mut s, 500).unwrap();
    let mut r = redeem_ctx(addr(1), addr(2), s.stake_state);
    let calls = redeem(&mut r, 510).unwrap();
    assert_eq!(minted(&calls), 10 * REWARD_RATE_PER_SECOND);
    assert_eq!(minted(&calls), 10_000_000);
    let (authority, bump) = mint_authority(&program()).unwrap();
    assert_eq!(
        calls[0],
        TokenCall::MintTo {
            mint: addr(30),
            to: addr(31),
            authority,
            authority_bump: bump,
            amount: 10_000_000,
        }
    );
    let again = redeem(&mut r, 510).unwrap();
    assert_eq!(minted(&again), 0);
    assert_eq!(r.stake_state.last_stake_redeem, 510);
    assert_eq!(r.stake_state.stake_start_time, 500);
}

#[test]
fn restake_counts_from_second_stake() {
    let mut s = stake_ctx(addr(1), addr(2), UserStakeInfo::default());
    stake(&mut s, 100).unwrap();
    let mut u = unstake_ctx(addr(1), addr(2), s.stake_state);
    unstake(&mut u).unwrap();
    assert_eq!(u.stake_state.stake_state, StakeState::Unstaked);
    assert_eq!(u.stake_state.last_stake_redeem, 100);
    let mut s2 = stake_ctx(addr(1), addr(2), u.stake_state);
    stake(&mut s2, 300).unwrap();
    assert_eq!(s2.stake_state.stake_start_time, 300);
    assert_eq!(s2.stake_state.last_stake_redeem, 300);
    let mut r = redeem_ctx(addr(1), addr(2), s2.stake_state);
    assert_eq!(minted(&redeem(&mut r, 305).unwrap()), 5_000_000);
}

#[test]
fn restake_while_staked_resets_timestamps() {
    let mut rec = UserStakeInfo::default();
    stake_record(&mut rec, &addr(1), &addr(2), 10).unwrap();
    stake_record(&mut rec, &addr(1), &addr(2), 40).unwrap();
    assert_eq!(rec.stake_start_time, 40);
    assert_eq!(rec.last_stake_redeem, 40);
}

#[test]
fn unstake_asks_for_thaw_and_revoke() {
    let mut s = stake_ctx(addr(1), addr(2), UserStakeInfo::default());
    stake(&mut s, 100).unwrap();
    let mut u = unstake_ctx(addr(1), addr(2), s.stake_state);
    let calls = unstake(&mut u).unwrap();
    let (authority, bump) = custody_authority(&program()).unwrap();
    assert_eq!(calls.len(), 2);
    assert_eq!(
        calls[0],
        TokenCall::ThawDelegated {
            account: addr(2),
            delegate: authority,
            delegate_bump: bump,
            edition: addr(21),
            mint: addr(20),
        }
    );
    assert_eq!(calls[1], TokenCall::Revoke { account: addr(2), owner: addr(1) });
}

#[test]
fn uninitialized_record_is_refused() {
    let mut u = unstake_ctx(addr(1), addr(2), UserStakeInfo::default());
    assert_eq!(unstake(&mut u), Err(StakeError::UninitializedAccount));
    let mut r = redeem_ctx(addr(1), addr(2), UserStakeInfo::default());
    assert_eq!(redeem(&mut r, 10), Err(StakeError::UninitializedAccount));
    assert!(!r.stake_state.is_initialized);
}

#[test]
fn unstaked_record_is_refused() {
    let mut rec = UserStakeInfo::default();
    stake_record(&mut rec, &addr(1), &addr(2), 10).unwrap();
    unstake_record(&mut rec, &addr(1), &addr(2)).unwrap();
    let before = rec;
    assert_eq!(unstake_record(&mut rec, &addr(1), &addr(2)), Err(StakeError::InvalidStakeState));
    assert_eq!(redeem_record(&mut rec, &addr(1), &addr(2), 20), Err(StakeError::InvalidStakeState));
    assert_eq!(rec.last_stake_redeem, before.last_stake_redeem);
    assert_eq!(rec.stake_state, StakeState::Unstaked);
}

#[test]
fn other_user_is_unauthorized() {
    let mut rec = UserStakeInfo::default();
    stake_record(&mut rec, &addr(1), &addr(2), 10).unwrap();
    let before = rec;
    assert_eq!(unstake_record(&mut rec, &addr(9), &addr(2)), Err(StakeError::UnauthorizedOwner));
    assert_eq!(redeem_record(&mut rec, &addr(9), &addr(2), 20), Err(StakeError::UnauthorizedOwner));
    assert_eq!(stake_record(&mut rec, &addr(9), &addr(2), 20), Err(StakeError::UnauthorizedOwner));
    assert_eq!(redeem_record(&mut rec, &addr(1), &addr(3), 20), Err(StakeError::UnauthorizedOwner));
    assert!(rec.user_pubkey == before.user_pubkey);
    assert_eq!(rec.stake_start_time, 10);
    assert_eq!(rec.stake_state, StakeState::Staked);
    // B's operation through B's own record address cannot reach A's record.
    let mut u = unstake_ctx(addr(9), addr(2), rec);
    assert_eq!(unstake(&mut u), Err(StakeError::UnauthorizedOwner));
}

#[test]
fn wrong_record_address_is_unauthorized() {
    let mut s = stake_ctx(addr(1), addr(2), UserStakeInfo::default());
    s.stake_state_address = addr(3);
    assert_eq!(stake(&mut s, 10), Err(StakeError::UnauthorizedOwner));
    assert!(!s.stake_state.is_initialized);
}

#[test]
fn wrong_authority_is_refused() {
    let mut s = stake_ctx(addr(1), addr(2), UserStakeInfo::default());
    s.program_authority = addr(4);
    assert_eq!(stake(&mut s, 10), Err(StakeError::InvalidAuthority));
    let mut s2 = stake_ctx(addr(1), addr(2), UserStakeInfo::default());
    stake(&mut s2, 10).unwrap();
    let mut r = redeem_ctx(addr(1), addr(2), s2.stake_state);
    r.stake_authority = s2.program_authority;
    assert_eq!(redeem(&mut r, 20), Err(StakeError::InvalidAuthority));
}

#[test]
fn reward_overflow_is_an_error() {
    assert_eq!(reward_amount(100, 99), Err(StakeError::ArithmeticOverflow));
    assert_eq!(reward_amount(i64::MIN, i64::MAX), Err(StakeError::ArithmeticOverflow));
    assert_eq!(reward_amount(0, 18_446_744_073_709), Ok(18_446_744_073_709_000_000));
    assert_eq!(reward_amount(0, 18_446_744_073_710), Err(StakeError::ArithmeticOverflow));
    assert_eq!(reward_amount(7, 7), Ok(0));
    let mut rec = UserStakeInfo::default();
    stake_record(&mut rec, &addr(1), &addr(2), 100).unwrap();
    assert_eq!(redeem_record(&mut rec, &addr(1), &addr(2), 50), Err(StakeError::ArithmeticOverflow));
    assert_eq!(rec.last_stake_redeem, 100);
}

#[test]
fn distinct_pairs_do_not_interfere() {
    let run = |first_a: bool| {
        let mut a = UserStakeInfo::default();
        let mut b = UserStakeInfo::default();
        if first_a {
            stake_record(&mut a, &addr(1), &addr(2), 10).unwrap();
            stake_record(&mut b, &addr(5), &addr(6), 20).unwrap();
            redeem_record(&mut b, &addr(5), &addr(6), 25).unwrap();
        } else {
            stake_record(&mut b, &addr(5), &addr(6), 20).unwrap();
            redeem_record(&mut b, &addr(5), &addr(6), 25).unwrap();
            stake_record(&mut a, &addr(1), &addr(2), 10).unwrap();
        }
        (a, b)
    };
    let (a1, b1) = run(true);
    let (a2, b2) = run(false);
    assert_eq!((a1.stake_start_time, a1.last_stake_redeem), (a2.stake_start_time, a2.last_stake_redeem));
    assert_eq!((b1.stake_start_time, b1.last_stake_redeem), (b2.stake_start_time, b2.last_stake_redeem));
    assert!(a1.user_pubkey == a2.user_pubkey && b1.user_pubkey == b2.user_pubkey);
}
