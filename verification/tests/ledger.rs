use anchor_nft_staking::address::Derived;
use anchor_nft_staking::custody::{AssetProof, Collection, CustodyAction, Metadata, TokenAccount};
use anchor_nft_staking::error::{LedgerError, StakeError};
use anchor_nft_staking::initialize;
use anchor_nft_staking::ledger::Ledger;
use anchor_nft_staking::state::Key;

fn key(n: u8) -> Key {
    Key { bytes: [n; 32] }
}

fn program() -> Key {
    key(77)
}

fn proof_of(mint: Key, owner: Key) -> AssetProof {
    AssetProof {
        collection_mint: key(9),
        mint_ata: TokenAccount { mint, owner, amount: 1 },
        metadata: Metadata { collection: Some(Collection { key: key(9), verified: true }) },
    }
}

fn configured(points_per_stake: u8, max_stake: u8, freeze_period: u32) -> Ledger {
    let mut ledger = Ledger::new(program());
    assert_eq!(initialize(&mut ledger, points_per_stake, max_stake, freeze_period), Ok(()));
    ledger
}

#[test]
fn new_ledger_is_empty() {
    let ledger = Ledger::new(program());
    assert_eq!(ledger.program_id(), program());
    assert_eq!(ledger.config(), None);
    assert_eq!(ledger.rewards_mint(), None);
    assert_eq!(ledger.user(&key(1)), None);
    assert_eq!(ledger.stake_record(&key(7)), None);
    assert_eq!(ledger.staked(), 0);
}

#[test]
fn scenario_stake_wait_unstake() {
    let mut ledger = configured(10, 3, 86400);
    let holder = key(1);
    let asset_a = key(7);

    let lock = ledger.stake(holder, asset_a, &proof_of(asset_a, holder), 0).unwrap();
    assert_eq!(lock.action, CustodyAction::DelegateAndFreeze);
    assert_eq!(ledger.user(&holder).unwrap().data.amount_staked, 1);
    assert_eq!(ledger.stake_record(&asset_a).unwrap().data.owner, holder);

    assert_eq!(
        ledger.unstake(holder, asset_a, 86399),
        Err(LedgerError::Rejected(StakeError::UnstakeDelayNotMet))
    );
    assert_eq!(ledger.user(&holder).unwrap().data.amount_staked, 1);
    assert_eq!(ledger.user(&holder).unwrap().data.points, 0);
    assert!(ledger.stake_record(&asset_a).is_some());

    let release = ledger.unstake(holder, asset_a, 86400 + 1).unwrap();
    assert_eq!(release.action, CustodyAction::ThawAndRevoke);
    assert_eq!(ledger.user(&holder).unwrap().data.points, 10);
    assert_eq!(ledger.user(&holder).unwrap().data.amount_staked, 0);
    assert_eq!(ledger.stake_record(&asset_a), None);
    assert_eq!(ledger.staked(), 0);
}

#[test]
fn initialize_twice_fails() {
    let mut ledger = configured(10, 3, 86400);
    let config = ledger.config();
    let mint = ledger.rewards_mint();
    assert_eq!(initialize(&mut ledger, 10, 3, 86400), Err(LedgerError::AlreadyInUse));
    assert_eq!(initialize(&mut ledger, 1, 1, 1), Err(LedgerError::AlreadyInUse));
    assert_eq!(initialize(&mut ledger, 0, 0, 0), Err(LedgerError::AlreadyInUse));
    assert_eq!(ledger.config(), config);
    assert_eq!(ledger.rewards_mint(), mint);
    assert_eq!(config.unwrap().data.points_per_stake, 10);
}

#[test]
fn initialize_rejects_invalid_configuration() {
    let mut ledger = Ledger::new(program());
    assert_eq!(
        initialize(&mut ledger, 0, 3, 86400),
        Err(LedgerError::Rejected(StakeError::InvalidConfiguration))
    );
    assert_eq!(
        initialize(&mut ledger, 10, 0, 86400),
        Err(LedgerError::Rejected(StakeError::InvalidConfiguration))
    );
    assert_eq!(
        initialize(&mut ledger, 10, 3, 0),
        Err(LedgerError::Rejected(StakeError::InvalidConfiguration))
    );
    assert_eq!(ledger.config(), None);
    assert_eq!(ledger.rewards_mint(), None);
    assert_eq!(initialize(&mut ledger, 10, 3, 86400), Ok(()));
}

#[test]
fn initialize_creates_reward_mint_under_config_authority() {
    let ledger = configured(10, 3, 86400);
    let config = ledger.config().unwrap();
    let mint = ledger.rewards_mint().unwrap();
    assert_eq!(mint.data.authority, config.key);
    assert_eq!(mint.data.decimals, 6);
    assert_eq!(mint.data.supply, 0);
    assert_ne!(mint.key, config.key);
    assert_eq!(config.data.max_stake, 3);
    assert_eq!(config.data.freeze_period, 86400);
}

#[test]
fn configure_without_address_is_refused() {
    let slot = Derived { key: key(200), bump: 255 };
    let mut ledger = Ledger::new(program());
    assert_eq!(ledger.configure(10, 3, 86400, None, Some(slot)), Err(LedgerError::NoAddress));
    assert_eq!(ledger.configure(10, 3, 86400, Some(slot), None), Err(LedgerError::NoAddress));
    assert_eq!(ledger.config(), None);
    let mint_slot = Derived { key: key(210), bump: 254 };
    assert_eq!(ledger.configure(10, 3, 86400, Some(slot), Some(mint_slot)), Ok(()));
    let config = ledger.config().unwrap();
    assert_eq!(config.key, key(200));
    assert_eq!(config.data.bump, 255);
    assert_eq!(config.data.reward_bump, 254);
    assert_eq!(ledger.rewards_mint().unwrap().key, key(210));
}

#[test]
fn transactions_before_bootstrap_are_refused() {
    let mut ledger = Ledger::new(program());
    assert_eq!(
        ledger.stake(key(1), key(7), &proof_of(key(7), key(1)), 0),
        Err(LedgerError::NotInitialized)
    );
    assert_eq!(ledger.unstake(key(1), key(7), 0), Err(LedgerError::NotInitialized));
    assert_eq!(ledger.claim(key(1)), Err(LedgerError::NotInitialized));
    assert_eq!(ledger.user(&key(1)), None);
}

#[test]
fn stake_creates_record_and_counts_it() {
    let mut ledger = configured(10, 3, 86400);
    assert_eq!(ledger.user(&key(1)), None);
    let lock = ledger.stake(key(1), key(7), &proof_of(key(7), key(1)), 123).unwrap();
    let record = ledger.stake_record(&key(7)).unwrap();
    assert_eq!(record.data.owner, key(1));
    assert_eq!(record.data.mint, key(7));
    assert_eq!(record.data.last_update, 123);
    assert_eq!(lock.delegate, record.key);
    assert_eq!(lock.bump, record.data.bump);
    assert_eq!(lock.mint, key(7));
    assert_eq!(lock.holder, key(1));
    assert_eq!(lock.config, ledger.config().unwrap().key);
    let account = ledger.user(&key(1)).unwrap();
    assert_eq!(account.data.owner, key(1));
    assert_eq!(account.data.amount_staked, 1);
    assert_eq!(account.data.points, 0);

    ledger.stake(key(1), key(8), &proof_of(key(8), key(1)), 124).unwrap();
    assert_eq!(ledger.user(&key(1)).unwrap().data.amount_staked, 2);
    assert_eq!(ledger.user(&key(1)).unwrap().key, account.key);
    assert_eq!(ledger.staked(), 2);
}

#[test]
fn stake_same_asset_twice_fails() {
    let mut ledger = configured(10, 3, 86400);
    ledger.stake(key(1), key(7), &proof_of(key(7), key(1)), 0).unwrap();
    let record = ledger.stake_record(&key(7));
    assert_eq!(
        ledger.stake(key(1), key(7), &proof_of(key(7), key(1)), 5),
        Err(LedgerError::AlreadyInUse)
    );
    assert_eq!(
        ledger.stake(key(2), key(7), &proof_of(key(7), key(2)), 5),
        Err(LedgerError::AlreadyInUse)
    );
    assert_eq!(ledger.stake_record(&key(7)), record);
    assert_eq!(ledger.user(&key(1)).unwrap().data.amount_staked, 1);
    assert_eq!(ledger.user(&key(2)), None);
    assert_eq!(ledger.staked(), 1);
}

#[test]
fn rejected_stake_creates_no_account() {
    let mut ledger = configured(10, 3, 86400);
    let mut proof = proof_of(key(7), key(1));
    proof.metadata.collection = Some(Collection { key: key(9), verified: false });
    assert_eq!(
        ledger.stake(key(1), key(7), &proof, 0),
        Err(LedgerError::Rejected(StakeError::CollectionNotVerified))
    );
    proof.metadata.collection = None;
    assert_eq!(
        ledger.stake(key(1), key(7), &proof, 0),
        Err(LedgerError::Rejected(StakeError::IncorrectCollection))
    );
    assert_eq!(
        ledger.stake(key(1), key(7), &proof_of(key(7), key(2)), 0),
        Err(LedgerError::Rejected(StakeError::IncorrectMint))
    );
    assert_eq!(ledger.user(&key(1)), None);
    assert_eq!(ledger.stake_record(&key(7)), None);
    assert_eq!(ledger.staked(), 0);
}

#[test]
fn open_stake_without_address_is_refused() {
    let mut ledger = configured(10, 3, 86400);
    let slot = Derived { key: key(220), bump: 200 };
    let user_slot = Derived { key: key(221), bump: 201 };
    let proof = proof_of(key(7), key(1));
    assert_eq!(
        ledger.open_stake(key(1), key(7), &proof, 0, None, Some(user_slot)),
        Err(LedgerError::NoAddress)
    );
    assert_eq!(
        ledger.open_stake(key(1), key(7), &proof, 0, Some(slot), None),
        Err(LedgerError::NoAddress)
    );
    assert_eq!(ledger.user(&key(1)), None);
    assert!(ledger.open_stake(key(1), key(7), &proof, 0, Some(slot), Some(user_slot)).is_ok());
    assert_eq!(ledger.user(&key(1)).unwrap().key, key(221));
    assert_eq!(ledger.user(&key(1)).unwrap().data.bump, 201);
    assert_eq!(ledger.stake_record(&key(7)).unwrap().key, key(220));
    assert_eq!(ledger.stake_record(&key(7)).unwrap().data.bump, 200);
    // a holder who has an account needs no address for it
    let proof = proof_of(key(8), key(1));
    assert!(ledger.open_stake(key(1), key(8), &proof, 0, Some(slot), None).is_ok());
    assert_eq!(ledger.user(&key(1)).unwrap().data.amount_staked, 2);
}

#[test]
fn max_stake_is_a_ceiling() {
    let mut ledger = configured(10, 2, 86400);
    ledger.stake(key(1), key(7), &proof_of(key(7), key(1)), 0).unwrap();
    ledger.stake(key(1), key(8), &proof_of(key(8), key(1)), 0).unwrap();
    let account = ledger.user(&key(1));
    assert_eq!(
        ledger.stake(key(1), key(9), &proof_of(key(9), key(1)), 0),
        Err(LedgerError::Rejected(StakeError::MaxStakeReached))
    );
    assert_eq!(ledger.user(&key(1)), account);
    assert_eq!(ledger.stake_record(&key(9)), None);
    assert_eq!(ledger.staked(), 2);
    // another holder is not affected
    assert!(ledger.stake(key(2), key(9), &proof_of(key(9), key(2)), 0).is_ok());
    // and a withdrawal makes room again
    ledger.unstake(key(1), key(7), 86400).unwrap();
    assert!(ledger.stake(key(1), key(10), &proof_of(key(10), key(1)), 90000).is_ok());
    assert_eq!(ledger.user(&key(1)).unwrap().data.amount_staked, 2);
}

#[test]
fn unstake_by_another_holder_is_unauthorized() {
    let mut ledger = configured(10, 3, 86400);
    ledger.stake(key(1), key(7), &proof_of(key(7), key(1)), 0).unwrap();
    ledger.stake(key(2), key(8), &proof_of(key(8), key(2)), 0).unwrap();
    let owner = ledger.user(&key(1));
    let stranger = ledger.user(&key(2));
    assert_eq!(
        ledger.unstake(key(2), key(7), 86400),
        Err(LedgerError::Rejected(StakeError::Unauthorized))
    );
    assert_eq!(
        ledger.unstake(key(2), key(7), 10),
        Err(LedgerError::Rejected(StakeError::UnstakeDelayNotMet))
    );
    assert_eq!(ledger.user(&key(1)), owner);
    assert_eq!(ledger.user(&key(2)), stranger);
    assert!(ledger.stake_record(&key(7)).is_some());
    // a requester without any account is not even resolved
    assert_eq!(ledger.unstake(key(3), key(7), 86400), Err(LedgerError::NotInitialized));
}

#[test]
fn unstake_of_unstaked_asset_is_refused() {
    let mut ledger = configured(10, 3, 86400);
    ledger.stake(key(1), key(7), &proof_of(key(7), key(1)), 0).unwrap();
    assert_eq!(ledger.unstake(key(1), key(8), 86400), Err(LedgerError::NotInitialized));
    ledger.unstake(key(1), key(7), 86400).unwrap();
    assert_eq!(ledger.unstake(key(1), key(7), 2 * 86400), Err(LedgerError::NotInitialized));
    assert_eq!(ledger.user(&key(1)).unwrap().data.points, 10);
}

#[test]
fn release_undoes_the_lock() {
    let mut ledger = configured(10, 3, 86400);
    let lock = ledger.stake(key(1), key(7), &proof_of(key(7), key(1)), 0).unwrap();
    let release = ledger.unstake(key(1), key(7), 86400).unwrap();
    assert_eq!(release.mint, lock.mint);
    assert_eq!(release.holder, lock.holder);
    assert_eq!(release.delegate, lock.delegate);
    assert_eq!(release.config, lock.config);
    assert_eq!(release.bump, lock.bump);
    assert_eq!(release.signer_seeds(), lock.signer_seeds());
    assert_ne!(release.action, lock.action);
}

#[test]
fn asset_can_be_staked_again_after_withdrawal() {
    let mut ledger = configured(5, 3, 3600);
    ledger.stake(key(1), key(7), &proof_of(key(7), key(1)), 0).unwrap();
    ledger.unstake(key(1), key(7), 2 * 86400 + 17).unwrap();
    assert_eq!(ledger.user(&key(1)).unwrap().data.points, 10);
    ledger.stake(key(2), key(7), &proof_of(key(7), key(2)), 200_000).unwrap();
    assert_eq!(ledger.stake_record(&key(7)).unwrap().data.owner, key(2));
    assert_eq!(ledger.stake_record(&key(7)).unwrap().data.last_update, 200_000);
    assert_eq!(
        ledger.unstake(key(1), key(7), 300_000),
        Err(LedgerError::Rejected(StakeError::Unauthorized))
    );
}

#[test]
fn points_add_up_over_withdrawals() {
    let mut ledger = configured(10, 3, 86400);
    ledger.stake(key(1), key(7), &proof_of(key(7), key(1)), 0).unwrap();
    ledger.stake(key(1), key(8), &proof_of(key(8), key(1)), 86400).unwrap();
    ledger.unstake(key(1), key(7), 3 * 86400).unwrap();
    assert_eq!(ledger.user(&key(1)).unwrap().data.points, 30);
    ledger.unstake(key(1), key(8), 3 * 86400 + 86399).unwrap();
    assert_eq!(ledger.user(&key(1)).unwrap().data.points, 50);
    assert_eq!(ledger.user(&key(1)).unwrap().data.amount_staked, 0);
}

#[test]
fn claim_pays_out_and_resets_points() {
    let mut ledger = configured(10, 3, 86400);
    ledger.stake(key(1), key(7), &proof_of(key(7), key(1)), 0).unwrap();
    assert_eq!(ledger.claim(key(1)), Err(LedgerError::Rejected(StakeError::NoPointsToClaim)));
    ledger.unstake(key(1), key(7), 4 * 86400).unwrap();
    let before = ledger.user(&key(1)).unwrap();
    assert_eq!(before.data.points, 40);

    let request = ledger.claim(key(1)).unwrap();
    assert_eq!(request.amount, 40);
    assert_eq!(request.base_units(), 40_000_000);
    assert_eq!(request.recipient, key(1));
    assert_eq!(request.mint, ledger.rewards_mint().unwrap().key);
    assert_eq!(request.authority, ledger.config().unwrap().key);
    assert_eq!(request.bump, ledger.config().unwrap().data.bump);
    let after = ledger.user(&key(1)).unwrap();
    assert_eq!(after.data.points, 0);
    assert_eq!(after.data.amount_staked, before.data.amount_staked);

    assert_eq!(ledger.claim(key(1)), Err(LedgerError::Rejected(StakeError::NoPointsToClaim)));
    assert_eq!(ledger.user(&key(1)), Some(after));
    assert_eq!(ledger.claim(key(2)), Err(LedgerError::NotInitialized));
}

#[test]
fn many_holders_are_kept_apart() {
    let mut ledger = configured(1, 1, 1);
    for n in 1..=40u8 {
        let asset = key(100 + n);
        ledger.stake(key(n), asset, &proof_of(asset, key(n)), n as i64).unwrap();
    }
    assert_eq!(ledger.staked(), 40);
    for n in (1..=40u8).step_by(2) {
        ledger.unstake(key(n), key(100 + n), n as i64 + 86400 * n as i64).unwrap();
    }
    assert_eq!(ledger.staked(), 20);
    for n in 1..=40u8 {
        let account = ledger.user(&key(n)).unwrap();
        assert_eq!(account.data.owner, key(n));
        if n % 2 == 1 {
            assert_eq!(account.data.amount_staked, 0);
            assert_eq!(account.data.points, n as u32);
            assert_eq!(ledger.stake_record(&key(100 + n)), None);
        } else {
            assert_eq!(account.data.amount_staked, 1);
            assert_eq!(account.data.points, 0);
            assert_eq!(ledger.stake_record(&key(100 + n)).unwrap().data.owner, key(n));
        }
    }
}

#[test]
fn independent_transactions_commute() {
    let mut first = configured(10, 3, 86400);
    let mut second = configured(10, 3, 86400);

    let a1 = first.stake(key(1), key(7), &proof_of(key(7), key(1)), 0);
    let b1 = first.stake(key(2), key(8), &proof_of(key(8), key(2)), 5);
    let b2 = second.stake(key(2), key(8), &proof_of(key(8), key(2)), 5);
    let a2 = second.stake(key(1), key(7), &proof_of(key(7), key(1)), 0);
    assert_eq!(a1, a2);
    assert_eq!(b1, b2);

    let c1 = first.unstake(key(1), key(7), 2 * 86400);
    let d1 = first.claim(key(2));
    let d2 = second.claim(key(2));
    let c2 = second.unstake(key(1), key(7), 2 * 86400);
    assert_eq!(c1, c2);
    assert_eq!(d1, d2);

    for n in [1u8, 2, 3] {
        assert_eq!(first.user(&key(n)), second.user(&key(n)));
    }
    for n in [7u8, 8, 9] {
        assert_eq!(first.stake_record(&key(n)), second.stake_record(&key(n)));
    }
    assert_eq!(first.staked(), second.staked());
}

#[test]
fn configuration_stays_fixed() {
    let mut ledger = configured(10, 3, 86400);
    let config = ledger.config();
    let mint = ledger.rewards_mint();
    ledger.stake(key(1), key(7), &proof_of(key(7), key(1)), 0).unwrap();
    ledger.unstake(key(1), key(7), 86400).unwrap();
    ledger.claim(key(1)).unwrap();
    assert!(initialize(&mut ledger, 1, 1, 1).is_err());
    assert_eq!(ledger.config(), config);
    assert_eq!(ledger.rewards_mint(), mint);
    assert_eq!(ledger.program_id(), program());
}
