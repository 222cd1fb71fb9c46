//! The ledger in memory: the records of the staking program in tables, and
//! the transactions on them. What each transaction does is stated by its
//! counterpart on [`LedgerState`].

use vstd::prelude::*;
use crate::address::{stake_seeds, try_find_program_address, user_seeds, Derived};
use crate::custody::{AssetProof, CustodyRequest, MintRequest};
use crate::error::LedgerError;
use crate::instructions::claim::Claim;
use crate::instructions::initialize_config::{InitializeConfig, InitializeConfigBumps};
use crate::instructions::stake::{Stake, StakeBumps};
use crate::instructions::unstake::UnStake;
use crate::model::{lemma_claim_inv, lemma_configure_inv, lemma_empty_inv, lemma_open_stake_inv, lemma_unstake_inv, LedgerState};
use crate::state::{Account, Key, RewardsMint, StakeAccount, StakeConfig, User};
use crate::table::Table;

verus! {

/// Every record of one staking program.
#[derive(Debug)]
pub struct Ledger {
    program_id: Key,
    config: Option<Account<StakeConfig>>,
    rewards_mint: Option<Account<RewardsMint>>,
    users: Table<User>,
    stakes: Table<StakeAccount>,
}

impl View for Ledger {
    type V = LedgerState;

    closed spec fn view(&self) -> LedgerState {
        LedgerState {
            program_id: self.program_id,
            config: self.config,
            rewards_mint: self.rewards_mint,
            users: self.users@,
            stakes: self.stakes@,
        }
    }
}

impl Ledger {
    /// The tables hold no identity twice.
    pub closed spec fn tables_wf(&self) -> bool {
        self.users.wf() && self.stakes.wf()
    }

    /// The ledger is well-formed: its tables are, and its records satisfy
    /// the ledger's invariant. A new ledger is well-formed and every
    /// transaction keeps it so.
    pub open spec fn wf(&self) -> bool {
        self.tables_wf() && self@.inv()
    }

    /// The ledger of `program_id` before its bootstrap.
    pub fn new(program_id: Key) -> (ledger: Ledger)
        ensures
            ledger.wf(),
            ledger@ == LedgerState::empty(program_id),
    {
        proof {
            lemma_empty_inv(program_id);
        }
        Ledger {
            program_id,
            config: None,
            rewards_mint: None,
            users: Table::new(),
            stakes: Table::new(),
        }
    }

    /// The program that owns the ledger's records.
    pub fn program_id(&self) -> (id: Key)
        ensures
            id == self@.program_id,
    {
        self.program_id
    }

    /// The global configuration, once created.
    pub fn config(&self) -> (config: Option<Account<StakeConfig>>)
        ensures
            config == self@.config,
    {
        self.config
    }

    /// The reward mint, once created.
    pub fn rewards_mint(&self) -> (mint: Option<Account<RewardsMint>>)
        ensures
            mint == self@.rewards_mint,
    {
        self.rewards_mint
    }

    /// The account of `owner`, if they have one.
    pub fn user(&self, owner: &Key) -> (account: Option<Account<User>>)
        requires
            self.wf(),
        ensures
            account == if self@.users.contains_key(*owner) {
                Some(self@.users[*owner])
            } else {
                None
            },
    {
        self.users.get(owner)
    }

    /// The stake record of `mint`, if the asset is staked.
    pub fn stake_record(&self, mint: &Key) -> (record: Option<Account<StakeAccount>>)
        requires
            self.wf(),
        ensures
            record == if self@.stakes.contains_key(*mint) {
                Some(self@.stakes[*mint])
            } else {
                None
            },
    {
        self.stakes.get(mint)
    }

    /// How many assets are staked.
    pub fn staked(&self) -> (n: usize)
        requires
            self.wf(),
        ensures
            n == self@.stakes.dom().len(),
    {
        self.stakes.len()
    }

    /// The bootstrap, given the addresses derived for the configuration and
    /// for the reward mint.
    pub fn configure(
        &mut self,
        points_per_stake: u8,
        max_stake: u8,
        freeze_period: u32,
        config_slot: Option<Derived>,
        mint_slot: Option<Derived>,
    ) -> (res: Result<(), LedgerError>)
        requires
            old(self).wf(),
        ensures
            final(self).wf(),
            (final(self)@, res) == old(self)@.configure(
                points_per_stake,
                max_stake,
                freeze_period,
                config_slot,
                mint_slot,
            ),
    {
        proof {
            lemma_configure_inv(
                self@,
                points_per_stake,
                max_stake,
                freeze_period,
                config_slot,
                mint_slot,
            );
        }
        if self.config.is_some() {
            return Err(LedgerError::AlreadyInUse);
        }
        let (config_slot, mint_slot) = match (config_slot, mint_slot) {
            (Some(config_slot), Some(mint_slot)) => (config_slot, mint_slot),
            _ => {
                return Err(LedgerError::NoAddress);
            },
        };
        let mut ctx = InitializeConfig::new(config_slot.key, mint_slot.key);
        let bumps = InitializeConfigBumps { rewards_mint: mint_slot.bump, config: config_slot.bump };
        match ctx.initialize_config(points_per_stake, max_stake, freeze_period, &bumps) {
            Ok(_) => {
                self.config = Some(Account { key: ctx.config.key, data: ctx.config.data.unwrap() });
                self.rewards_mint = Some(ctx.rewards_mint);
                Ok(())
            },
            Err(e) => Err(LedgerError::Rejected(e)),
        }
    }

    /// Stakes `mint` for `user` at `now`, given the addresses derived for
    /// the stake record and for the holder account.
    pub fn open_stake(
        &mut self,
        user: Key,
        mint: Key,
        asset: &AssetProof,
        now: i64,
        stake_slot: Option<Derived>,
        user_slot: Option<Derived>,
    ) -> (res: Result<CustodyRequest, LedgerError>)
        requires
            old(self).wf(),
        ensures
            final(self).wf(),
            (final(self)@, res) == old(self)@.open_stake(
                user,
                mint,
                *asset,
                now,
                stake_slot,
                user_slot,
            ),
    {
        proof {
            lemma_open_stake_inv(self@, user, mint, *asset, now, stake_slot, user_slot);
        }
        let config = match self.config {
            Some(config) => config,
            None => {
                return Err(LedgerError::NotInitialized);
            },
        };
        if self.stakes.contains(&mint) {
            return Err(LedgerError::AlreadyInUse);
        }
        let stake_slot = match stake_slot {
            Some(slot) => slot,
            None => {
                return Err(LedgerError::NoAddress);
            },
        };
        let user_account = match self.users.get(&user) {
            Some(account) => account,
            None => match user_slot {
                Some(slot) => Account { key: slot.key, data: User::new(user, slot.bump) },
                None => {
                    return Err(LedgerError::NoAddress);
                },
            },
        };
        let mut ctx = Stake {
            user,
            mint,
            collection_mint: asset.collection_mint,
            mint_ata: asset.mint_ata,
            metadata: asset.metadata,
            config,
            stake_account: Account { key: stake_slot.key, data: None },
            user_account,
        };
        match ctx.stake(now, &StakeBumps { stake_account: stake_slot.bump }) {
            Ok(request) => {
                self.users.put(user, ctx.user_account);
                self.stakes.put(
                    mint,
                    Account { key: ctx.stake_account.key, data: ctx.stake_account.data.unwrap() },
                );
                Ok(request)
            },
            Err(e) => Err(LedgerError::Rejected(e)),
        }
    }

    /// Stakes `mint` for `user` at `now`, at the addresses that the
    /// derivation finds.
    pub fn stake(&mut self, user: Key, mint: Key, asset: &AssetProof, now: i64) -> (res: Result<
        CustodyRequest,
        LedgerError,
    >)
        requires
            old(self).wf(),
        ensures
            final(self).wf(),
            (final(self)@, res) == old(self)@.stake(user, mint, *asset, now),
    {
        let stake_slot = match self.config {
            Some(config) => try_find_program_address(
                &stake_seeds(&mint, &config.key),
                &self.program_id,
            ),
            None => None,
        };
        let user_slot = try_find_program_address(&user_seeds(&user), &self.program_id);
        self.open_stake(user, mint, asset, now, stake_slot, user_slot)
    }

    /// Withdraws `mint` for `user` at `now`.
    pub fn unstake(&mut self, user: Key, mint: Key, now: i64) -> (res: Result<
        CustodyRequest,
        LedgerError,
    >)
        requires
            old(self).wf(),
        ensures
            final(self).wf(),
            (final(self)@, res) == old(self)@.unstake(user, mint, now),
    {
        proof {
            lemma_unstake_inv(self@, user, mint, now);
        }
        let config = match self.config {
            Some(config) => config,
            None => {
                return Err(LedgerError::NotInitialized);
            },
        };
        let stake_account = match self.stakes.get(&mint) {
            Some(account) => account,
            None => {
                return Err(LedgerError::NotInitialized);
            },
        };
        let user_account = match self.users.get(&user) {
            Some(account) => account,
            None => {
                return Err(LedgerError::NotInitialized);
            },
        };
        let mut ctx = UnStake {
            user,
            mint,
            config,
            stake_account: Account { key: stake_account.key, data: Some(stake_account.data) },
            user_account,
        };
        match ctx.unstake(now) {
            Ok(request) => {
                self.users.put(user, ctx.user_account);
                self.stakes.remove(&mint);
                Ok(request)
            },
            Err(e) => Err(LedgerError::Rejected(e)),
        }
    }

    /// Redeems the points of `user`.
    pub fn claim(&mut self, user: Key) -> (res: Result<MintRequest, LedgerError>)
        requires
            old(self).wf(),
        ensures
            final(self).wf(),
            (final(self)@, res) == old(self)@.claim(user),
    {
        proof {
            lemma_claim_inv(self@, user);
        }
        let config = match self.config {
            Some(config) => config,
            None => {
                return Err(LedgerError::NotInitialized);
            },
        };
        let rewards_mint = match self.rewards_mint {
            Some(mint) => mint,
            None => {
                return Err(LedgerError::NotInitialized);
            },
        };
        let user_account = match self.users.get(&user) {
            Some(account) => account,
            None => {
                return Err(LedgerError::NotInitialized);
            },
        };
        let mut ctx = Claim { user, rewards_mint: rewards_mint.key, config, user_account };
        match ctx.claim() {
            Ok(request) => {
                self.users.put(user, ctx.user_account);
                Ok(request)
            },
            Err(e) => Err(LedgerError::Rejected(e)),
        }
    }
}

} // verus!
