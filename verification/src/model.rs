//! The ledger as mathematics: every record of the staking program, the
//! transactions that change them, and what holds of both.
//!
//! A record is found by what it is about: the one configuration, a holder's
//! account by the holder, a stake record by the asset. Each transaction is
//! atomic. It resolves the records it names, runs its instruction on them
//! and stores what the instruction left, or it is refused and the ledger
//! stays as it was.

use vstd::prelude::*;
use vstd::set_lib::lemma_len_subset;
use crate::address::{canonical_address, Derived, spec_config_seeds, spec_rewards_mint_seeds, spec_stake_seeds, spec_user_seeds};
use crate::constants::REWARD_DECIMALS;
use crate::custody::{AssetProof, CustodyRequest, MintRequest};
use crate::error::{LedgerError, StakeError};
use crate::instructions::claim::Claim;
use crate::instructions::initialize_config::{InitializeConfig, InitializeConfigBumps};
use crate::instructions::stake::{Stake, StakeBumps};
use crate::instructions::unstake::UnStake;
use crate::state::{Account, Key, RewardsMint, StakeAccount, StakeConfig, User};

verus! {

/// The records of the ledger as mathematical maps.
#[verifier::ext_equal]
pub struct LedgerState {
    /// The program that owns every record and derives every address.
    pub program_id: Key,
    /// The global configuration, once created.
    pub config: Option<Account<StakeConfig>>,
    /// The reward mint, created with the configuration.
    pub rewards_mint: Option<Account<RewardsMint>>,
    /// The holder accounts, by holder.
    pub users: Map<Key, Account<User>>,
    /// The stake records, by asset.
    pub stakes: Map<Key, Account<StakeAccount>>,
}

impl LedgerState {
    /// The ledger of `program_id` before its bootstrap.
    pub open spec fn empty(program_id: Key) -> LedgerState {
        LedgerState {
            program_id,
            config: None,
            rewards_mint: None,
            users: Map::empty(),
            stakes: Map::empty(),
        }
    }

    /// The assets that `holder` has staked.
    pub open spec fn owned(self, holder: Key) -> Set<Key> {
        Set::new(|mint: Key| self.stakes.contains_key(mint) && self.stakes[mint].data.owner == holder)
    }

    /// What holds of the ledger between any two transactions.
    ///
    /// The configuration and the reward mint exist together, the
    /// configuration is valid and is the mint's authority, and before the
    /// bootstrap there is no other record. Each holder account is stored
    /// under its owner, counts exactly the assets that its owner has staked,
    /// and stays within the maximum. Each stake record is stored under its
    /// asset, and its owner has an account.
    pub open spec fn inv(self) -> bool {
        &&& self.users.dom().finite()
        &&& self.stakes.dom().finite()
        &&& self.config is Some <==> self.rewards_mint is Some
        &&& self.config is None ==> self.users.dom() =~= Set::<Key>::empty() && self.stakes.dom()
            =~= Set::<Key>::empty()
        &&& self.config matches Some(config) ==> {
            &&& config.data.valid()
            &&& self.rewards_mint->0.data.authority == config.key
            &&& forall|holder: Key| #[trigger]
                self.users.contains_key(holder) ==> self.users[holder].data.amount_staked
                    <= config.data.max_stake
        }
        &&& forall|holder: Key| #[trigger]
            self.users.contains_key(holder) ==> {
                &&& self.users[holder].data.owner == holder
                &&& self.users[holder].data.amount_staked == self.owned(holder).len()
            }
        &&& forall|mint: Key| #[trigger]
            self.stakes.contains_key(mint) ==> {
                &&& self.stakes[mint].data.mint == mint
                &&& self.users.contains_key(self.stakes[mint].data.owner)
            }
    }

    /// The bootstrap, given the addresses derived for the configuration and
    /// for the reward mint.
    ///
    /// It is refused where a configuration exists, then where an address is
    /// missing, then where the instruction rejects the parameters. Otherwise
    /// the ledger holds the configuration and the reward mint.
    pub open spec fn configure(
        self,
        points_per_stake: u8,
        max_stake: u8,
        freeze_period: u32,
        config_slot: Option<Derived>,
        mint_slot: Option<Derived>,
    ) -> (LedgerState, Result<(), LedgerError>) {
        if self.config is Some {
            (self, Err(LedgerError::AlreadyInUse))
        } else if config_slot is None || mint_slot is None {
            (self, Err(LedgerError::NoAddress))
        } else {
            let ctx = InitializeConfig::created(config_slot->0.key, mint_slot->0.key);
            let bumps = InitializeConfigBumps {
                rewards_mint: mint_slot->0.bump,
                config: config_slot->0.bump,
            };
            let (after, res) = ctx.outcome(points_per_stake, max_stake, freeze_period, bumps);
            match res {
                Ok(_) => (
                    LedgerState {
                        config: Some(Account { key: after.config.key, data: after.config.data->0 }),
                        rewards_mint: Some(after.rewards_mint),
                        ..self
                    },
                    Ok(()),
                ),
                Err(e) => (self, Err(LedgerError::Rejected(e))),
            }
        }
    }

    /// The bootstrap, with the addresses that the derivation finds.
    pub open spec fn initialize(
        self,
        points_per_stake: u8,
        max_stake: u8,
        freeze_period: u32,
    ) -> (LedgerState, Result<(), LedgerError>) {
        let config_slot = canonical_address(spec_config_seeds(), self.program_id);
        let mint_slot = match config_slot {
            Some(config) => canonical_address(spec_rewards_mint_seeds(config.key), self.program_id),
            None => None,
        };
        self.configure(points_per_stake, max_stake, freeze_period, config_slot, mint_slot)
    }

    /// The holder account that a stake by `user` works on: the one stored,
    /// or a blank one at the derived address.
    pub open spec fn account_to_stake(self, user: Key, user_slot: Option<Derived>) -> Account<User> {
        if self.users.contains_key(user) {
            self.users[user]
        } else {
            Account { key: user_slot->0.key, data: User::blank(user, user_slot->0.bump) }
        }
    }

    /// Staking `mint` for `user` at `now`, given the addresses derived for
    /// the stake record and for the holder account.
    ///
    /// It is refused where there is no configuration, then where the asset
    /// has a stake record already, then where an address is missing that a
    /// record to create needs, then where the instruction rejects the
    /// stake. Otherwise the ledger holds the new stake record and the
    /// holder's account with one stake more.
    pub open spec fn open_stake(
        self,
        user: Key,
        mint: Key,
        asset: AssetProof,
        now: i64,
        stake_slot: Option<Derived>,
        user_slot: Option<Derived>,
    ) -> (LedgerState, Result<CustodyRequest, LedgerError>) {
        if self.config is None {
            (self, Err(LedgerError::NotInitialized))
        } else if self.stakes.contains_key(mint) {
            (self, Err(LedgerError::AlreadyInUse))
        } else if stake_slot is None || (!self.users.contains_key(user) && user_slot is None) {
            (self, Err(LedgerError::NoAddress))
        } else {
            let ctx = Stake {
                user,
                mint,
                collection_mint: asset.collection_mint,
                mint_ata: asset.mint_ata,
                metadata: asset.metadata,
                config: self.config->0,
                stake_account: Account { key: stake_slot->0.key, data: None },
                user_account: self.account_to_stake(user, user_slot),
            };
            let (after, res) = ctx.outcome(now, StakeBumps { stake_account: stake_slot->0.bump });
            match res {
                Ok(request) => (
                    LedgerState {
                        users: self.users.insert(user, after.user_account),
                        stakes: self.stakes.insert(
                            mint,
                            Account { key: after.stake_account.key, data: after.stake_account.data->0 },
                        ),
                        ..self
                    },
                    Ok(request),
                ),
                Err(e) => (self, Err(LedgerError::Rejected(e))),
            }
        }
    }

    /// Staking `mint` for `user` at `now`, with the addresses that the
    /// derivation finds.
    pub open spec fn stake(self, user: Key, mint: Key, asset: AssetProof, now: i64) -> (
        LedgerState,
        Result<CustodyRequest, LedgerError>,
    ) {
        let stake_slot = match self.config {
            Some(config) => canonical_address(spec_stake_seeds(mint, config.key), self.program_id),
            None => None,
        };
        let user_slot = canonical_address(spec_user_seeds(user), self.program_id);
        self.open_stake(user, mint, asset, now, stake_slot, user_slot)
    }

    /// Withdrawing `mint` for `user` at `now`.
    ///
    /// It is refused where the configuration, the asset's stake record or
    /// the requester's account does not exist, then where the instruction
    /// rejects the withdrawal. Otherwise the stake record is gone and the
    /// ledger holds the holder's settled account.
    pub open spec fn unstake(self, user: Key, mint: Key, now: i64) -> (
        LedgerState,
        Result<CustodyRequest, LedgerError>,
    ) {
        if self.config is None || !self.stakes.contains_key(mint) || !self.users.contains_key(user) {
            (self, Err(LedgerError::NotInitialized))
        } else {
            let ctx = UnStake {
                user,
                mint,
                config: self.config->0,
                stake_account: Account {
                    key: self.stakes[mint].key,
                    data: Some(self.stakes[mint].data),
                },
                user_account: self.users[user],
            };
            let (after, res) = ctx.outcome(now);
            match res {
                Ok(request) => (
                    LedgerState {
                        users: self.users.insert(user, after.user_account),
                        stakes: self.stakes.remove(mint),
                        ..self
                    },
                    Ok(request),
                ),
                Err(e) => (self, Err(LedgerError::Rejected(e))),
            }
        }
    }

    /// Redeeming the points of `user`.
    ///
    /// It is refused where the configuration or the holder's account does
    /// not exist, then where the instruction rejects the claim. Otherwise
    /// the ledger holds the holder's account without points.
    pub open spec fn claim(self, user: Key) -> (LedgerState, Result<MintRequest, LedgerError>) {
        if self.config is None || !self.users.contains_key(user) {
            (self, Err(LedgerError::NotInitialized))
        } else {
            let ctx = Claim {
                user,
                rewards_mint: self.rewards_mint->0.key,
                config: self.config->0,
                user_account: self.users[user],
            };
            let (after, res) = ctx.outcome();
            match res {
                Ok(request) => (
                    LedgerState { users: self.users.insert(user, after.user_account), ..self },
                    Ok(request),
                ),
                Err(e) => (self, Err(LedgerError::Rejected(e))),
            }
        }
    }
}

/// A transaction that a holder submits once the ledger is bootstrapped.
pub enum Transaction {
    /// Stake `mint` for `user` at `now`, the new records at the given
    /// addresses.
    Stake {
        user: Key,
        mint: Key,
        asset: AssetProof,
        now: i64,
        stake_slot: Option<Derived>,
        user_slot: Option<Derived>,
    },
    /// Withdraw `mint` for `user` at `now`.
    Unstake { user: Key, mint: Key, now: i64 },
    /// Redeem the points of `user`.
    Claim { user: Key },
}

/// What a transaction that succeeded asks of the outside.
pub enum Request {
    /// A request to the asset registry.
    Custody(CustodyRequest),
    /// A request to the reward mint.
    Mint(MintRequest),
}

impl Transaction {
    /// The holder whose account the transaction names.
    pub open spec fn user(self) -> Key {
        match self {
            Transaction::Stake { user, .. } => user,
            Transaction::Unstake { user, .. } => user,
            Transaction::Claim { user } => user,
        }
    }

    /// The asset whose stake record the transaction names, if it names one.
    pub open spec fn mint(self) -> Option<Key> {
        match self {
            Transaction::Stake { mint, .. } => Some(mint),
            Transaction::Unstake { mint, .. } => Some(mint),
            Transaction::Claim { .. } => None,
        }
    }

    /// Two transactions are independent when they name different holders
    /// and, where both name an asset, different assets.
    pub open spec fn independent(self, other: Transaction) -> bool {
        &&& self.user() != other.user()
        &&& self.mint() is Some && other.mint() is Some ==> self.mint() != other.mint()
    }
}

impl LedgerState {
    /// The ledger after the transaction, and the transaction's result.
    pub open spec fn apply(self, tx: Transaction) -> (LedgerState, Result<Request, LedgerError>) {
        match tx {
            Transaction::Stake { user, mint, asset, now, stake_slot, user_slot } => {
                let (after, res) = self.open_stake(user, mint, asset, now, stake_slot, user_slot);
                (
                    after,
                    match res {
                        Ok(request) => Ok(Request::Custody(request)),
                        Err(e) => Err(e),
                    },
                )
            },
            Transaction::Unstake { user, mint, now } => {
                let (after, res) = self.unstake(user, mint, now);
                (
                    after,
                    match res {
                        Ok(request) => Ok(Request::Custody(request)),
                        Err(e) => Err(e),
                    },
                )
            },
            Transaction::Claim { user } => {
                let (after, res) = self.claim(user);
                (
                    after,
                    match res {
                        Ok(request) => Ok(Request::Mint(request)),
                        Err(e) => Err(e),
                    },
                )
            },
        }
    }
}

/// The assets that a holder has staked are finitely many.
proof fn lemma_owned_finite(state: LedgerState, holder: Key)
    requires
        state.stakes.dom().finite(),
    ensures
        state.owned(holder).finite(),
        state.owned(holder).len() <= state.stakes.dom().len(),
{
    lemma_len_subset(state.owned(holder), state.stakes.dom());
}

/// The empty ledger is well-formed.
pub proof fn lemma_empty_inv(program_id: Key)
    ensures
        LedgerState::empty(program_id).inv(),
{
}

/// The bootstrap keeps the ledger well-formed.
pub proof fn lemma_configure_inv(
    state: LedgerState,
    points_per_stake: u8,
    max_stake: u8,
    freeze_period: u32,
    config_slot: Option<Derived>,
    mint_slot: Option<Derived>,
)
    requires
        state.inv(),
    ensures
        state.configure(points_per_stake, max_stake, freeze_period, config_slot, mint_slot).0.inv(),
{
}

/// Staking keeps the ledger well-formed.
pub proof fn lemma_open_stake_inv(
    state: LedgerState,
    user: Key,
    mint: Key,
    asset: AssetProof,
    now: i64,
    stake_slot: Option<Derived>,
    user_slot: Option<Derived>,
)
    requires
        state.inv(),
    ensures
        state.open_stake(user, mint, asset, now, stake_slot, user_slot).0.inv(),
{
    let (after, res) = state.open_stake(user, mint, asset, now, stake_slot, user_slot);
    if res is Ok {
        let config = state.config->0;
        lemma_owned_finite(state, user);
        assert(after.owned(user) =~= state.owned(user).insert(mint));
        if !state.users.contains_key(user) {
            // nothing is staked by a holder who has no account
            assert(state.owned(user) =~= Set::<Key>::empty());
        }
        assert forall|holder: Key| #[trigger] after.users.contains_key(holder) implies {
            &&& after.users[holder].data.owner == holder
            &&& after.users[holder].data.amount_staked == after.owned(holder).len()
            &&& after.users[holder].data.amount_staked <= config.data.max_stake
        } by {
            if holder != user {
                assert(after.owned(holder) =~= state.owned(holder));
            }
        }
    }
}

/// Withdrawing keeps the ledger well-formed.
pub proof fn lemma_unstake_inv(state: LedgerState, user: Key, mint: Key, now: i64)
    requires
        state.inv(),
    ensures
        state.unstake(user, mint, now).0.inv(),
{
    let (after, res) = state.unstake(user, mint, now);
    if res is Ok {
        let config = state.config->0;
        lemma_owned_finite(state, user);
        assert(after.owned(user) =~= state.owned(user).remove(mint));
        assert forall|holder: Key| #[trigger] after.users.contains_key(holder) implies {
            &&& after.users[holder].data.owner == holder
            &&& after.users[holder].data.amount_staked == after.owned(holder).len()
            &&& after.users[holder].data.amount_staked <= config.data.max_stake
        } by {
            if holder != user {
                assert(after.owned(holder) =~= state.owned(holder));
            }
        }
    }
}

/// Redeeming keeps the ledger well-formed.
pub proof fn lemma_claim_inv(state: LedgerState, user: Key)
    requires
        state.inv(),
    ensures
        state.claim(user).0.inv(),
{
}

/// Once created, the configuration and the reward mint stay as they are: no
/// transaction changes or removes them.
pub proof fn lemma_configuration_is_fixed(
    state: LedgerState,
    user: Key,
    mint: Key,
    asset: AssetProof,
    now: i64,
    parameters: (u8, u8, u32),
    slots: (Option<Derived>, Option<Derived>),
)
    requires
        state.config is Some,
    ensures
        ({
            let after = state.configure(parameters.0, parameters.1, parameters.2, slots.0, slots.1).0;
            after.config == state.config && after.rewards_mint == state.rewards_mint
        }),
        ({
            let after = state.open_stake(user, mint, asset, now, slots.0, slots.1).0;
            after.config == state.config && after.rewards_mint == state.rewards_mint
        }),
        ({
            let after = state.unstake(user, mint, now).0;
            after.config == state.config && after.rewards_mint == state.rewards_mint
        }),
        ({
            let after = state.claim(user).0;
            after.config == state.config && after.rewards_mint == state.rewards_mint
        }),
{
}

/// A holder account, once created, is never removed: every transaction
/// leaves each holder who had an account with an account.
pub proof fn lemma_accounts_are_kept(
    state: LedgerState,
    holder: Key,
    user: Key,
    mint: Key,
    asset: AssetProof,
    now: i64,
    parameters: (u8, u8, u32),
    slots: (Option<Derived>, Option<Derived>),
)
    requires
        state.users.contains_key(holder),
    ensures
        state.configure(parameters.0, parameters.1, parameters.2, slots.0, slots.1).0.users.contains_key(
            holder,
        ),
        state.open_stake(user, mint, asset, now, slots.0, slots.1).0.users.contains_key(holder),
        state.unstake(user, mint, now).0.users.contains_key(holder),
        state.claim(user).0.users.contains_key(holder),
{
}

/// A transaction touches only the records it names: a stake, a withdrawal
/// or a claim by `user` leaves the account of every other holder, and a
/// stake or a withdrawal of `mint` the stake record of every other asset,
/// as it was.
pub proof fn lemma_other_records_untouched(
    state: LedgerState,
    holder: Key,
    other: Key,
    user: Key,
    mint: Key,
    asset: AssetProof,
    now: i64,
    slots: (Option<Derived>, Option<Derived>),
)
    requires
        holder != user,
        other != mint,
    ensures
        ({
            let after = state.open_stake(user, mint, asset, now, slots.0, slots.1).0;
            &&& after.users.contains_key(holder) == state.users.contains_key(holder)
            &&& after.users[holder] == state.users[holder]
            &&& after.stakes.contains_key(other) == state.stakes.contains_key(other)
            &&& after.stakes[other] == state.stakes[other]
        }),
        ({
            let after = state.unstake(user, mint, now).0;
            &&& after.users.contains_key(holder) == state.users.contains_key(holder)
            &&& after.users[holder] == state.users[holder]
            &&& after.stakes.contains_key(other) == state.stakes.contains_key(other)
            &&& after.stakes[other] == state.stakes[other]
        }),
        ({
            let after = state.claim(user).0;
            &&& after.users.contains_key(holder) == state.users.contains_key(holder)
            &&& after.users[holder] == state.users[holder]
            &&& after.stakes == state.stakes
        }),
{
}

/// Independent transactions commute. Whichever of two transactions that
/// name different holders and different assets runs first, each has the
/// same result and the ledger ends the same: transactions that share no
/// record can run in any order.
pub proof fn lemma_independent_transactions_commute(
    state: LedgerState,
    a: Transaction,
    b: Transaction,
)
    requires
        a.independent(b),
    ensures
        state.apply(a).0.apply(b).1 == state.apply(b).1,
        state.apply(b).0.apply(a).1 == state.apply(a).1,
        state.apply(a).0.apply(b).0 == state.apply(b).0.apply(a).0,
{
    let ab = state.apply(a).0.apply(b).0;
    let ba = state.apply(b).0.apply(a).0;
    assert(ab.users =~= ba.users);
    assert(ab.stakes =~= ba.stakes);
    assert(ab =~= ba);
}

/// The bootstrap succeeds on a ledger without configuration whenever both
/// addresses are found and the three parameters are positive, and then the
/// ledger holds exactly those parameters and a reward mint without supply
/// whose authority is the configuration's address.
pub proof fn lemma_configure_valid(
    state: LedgerState,
    points_per_stake: u8,
    max_stake: u8,
    freeze_period: u32,
    config_slot: Derived,
    mint_slot: Derived,
)
    requires
        state.config is None,
        points_per_stake > 0 && max_stake > 0 && freeze_period > 0,
    ensures
        ({
            let (after, res) = state.configure(
                points_per_stake,
                max_stake,
                freeze_period,
                Some(config_slot),
                Some(mint_slot),
            );
            &&& res is Ok
            &&& after.config == Some(
                Account {
                    key: config_slot.key,
                    data: StakeConfig {
                        points_per_stake,
                        max_stake,
                        freeze_period,
                        reward_bump: mint_slot.bump,
                        bump: config_slot.bump,
                    },
                },
            )
            &&& after.rewards_mint == Some(
                Account {
                    key: mint_slot.key,
                    data: RewardsMint {
                        authority: config_slot.key,
                        decimals: REWARD_DECIMALS,
                        supply: 0,
                    },
                },
            )
        }),
{
}

/// The configuration is created once. After a bootstrap that succeeded,
/// every further bootstrap is refused, whatever its parameters, and leaves
/// the ledger as it is.
pub proof fn lemma_configure_once(
    state: LedgerState,
    first: (u8, u8, u32),
    first_slots: (Option<Derived>, Option<Derived>),
    second: (u8, u8, u32),
    second_slots: (Option<Derived>, Option<Derived>),
)
    requires
        state.configure(first.0, first.1, first.2, first_slots.0, first_slots.1).1 is Ok,
    ensures
        ({
            let after = state.configure(first.0, first.1, first.2, first_slots.0, first_slots.1).0;
            after.configure(second.0, second.1, second.2, second_slots.0, second_slots.1) == (
                after,
                Err::<(), LedgerError>(LedgerError::AlreadyInUse),
            )
        }),
{
}

/// The same for the bootstrap with the addresses that the derivation finds:
/// run a second time it is refused and changes nothing.
pub proof fn lemma_initialize_once(
    state: LedgerState,
    first: (u8, u8, u32),
    second: (u8, u8, u32),
)
    requires
        state.initialize(first.0, first.1, first.2).1 is Ok,
    ensures
        ({
            let after = state.initialize(first.0, first.1, first.2).0;
            after.initialize(second.0, second.1, second.2) == (
                after,
                Err::<(), LedgerError>(LedgerError::AlreadyInUse),
            )
        }),
{
}

/// A stake succeeds exactly when the ledger is bootstrapped, the asset has
/// no stake record, an address is at hand for each record to create, the
/// staker is shown to hold the asset, the asset belongs to the collection
/// named and the collection has verified it, and the staker has room for
/// another stake.
pub proof fn lemma_stake_succeeds_exactly_when(
    state: LedgerState,
    user: Key,
    mint: Key,
    asset: AssetProof,
    now: i64,
    stake_slot: Option<Derived>,
    user_slot: Option<Derived>,
)
    requires
        state.inv(),
    ensures
        state.open_stake(user, mint, asset, now, stake_slot, user_slot).1 is Ok <==> {
            &&& state.config is Some
            &&& !state.stakes.contains_key(mint)
            &&& stake_slot is Some
            &&& state.users.contains_key(user) || user_slot is Some
            &&& asset.mint_ata.proves_ownership(mint, user)
            &&& asset.metadata.collection == Some(
                crate::custody::Collection { key: asset.collection_mint, verified: true },
            )
            &&& state.owned(user).len() < state.config->0.data.max_stake
        },
{
    if !state.users.contains_key(user) {
        // nothing is staked by a holder who has no account
        assert(state.owned(user) =~= Set::<Key>::empty());
    }
}

/// A withdrawal succeeds exactly when the asset is staked, the one who asks
/// is the one who staked it, the holding period has elapsed, and the points
/// earned fit into the holder's point total.
pub proof fn lemma_unstake_succeeds_exactly_when(
    state: LedgerState,
    user: Key,
    mint: Key,
    now: i64,
)
    requires
        state.inv(),
    ensures
        state.unstake(user, mint, now).1 is Ok <==> {
            &&& state.stakes.contains_key(mint)
            &&& state.stakes[mint].data.owner == user
            &&& now - state.stakes[mint].data.last_update >= state.config->0.data.freeze_period
            &&& state.users[user].data.points + crate::rewards::points_earned(
                state.stakes[mint].data.last_update as int,
                now as int,
                state.config->0.data.points_per_stake as int,
            ) <= u32::MAX
        },
{
    if state.stakes.contains_key(mint) && state.stakes[mint].data.owner == user {
        lemma_owned_finite(state, user);
        assert(state.owned(user).len() == state.owned(user).remove(mint).len() + 1);
    }
}

/// After a successful stake the asset has a stake record that names the
/// staker as its owner and the time of the stake, and the staker's count of
/// staked assets has grown by exactly one; a holder without an account
/// counted none before.
pub proof fn lemma_stake_creates_record(
    state: LedgerState,
    user: Key,
    mint: Key,
    asset: AssetProof,
    now: i64,
    stake_slot: Option<Derived>,
    user_slot: Option<Derived>,
)
    requires
        state.open_stake(user, mint, asset, now, stake_slot, user_slot).1 is Ok,
    ensures
        ({
            let after = state.open_stake(user, mint, asset, now, stake_slot, user_slot).0;
            let before: int = if state.users.contains_key(user) {
                state.users[user].data.amount_staked as int
            } else {
                0
            };
            &&& !state.stakes.contains_key(mint)
            &&& after.stakes.contains_key(mint)
            &&& after.stakes[mint].data.owner == user
            &&& after.stakes[mint].data.mint == mint
            &&& after.stakes[mint].data.last_update == now
            &&& after.users.contains_key(user)
            &&& after.users[user].data.amount_staked == before + 1
        }),
{
}

/// An asset that has a stake record cannot be staked again: whoever tries,
/// with whatever proof, is refused before a second record can exist, and
/// the ledger stays as it is.
pub proof fn lemma_stake_only_once(
    state: LedgerState,
    user: Key,
    mint: Key,
    asset: AssetProof,
    now: i64,
    stake_slot: Option<Derived>,
    user_slot: Option<Derived>,
)
    requires
        state.stakes.contains_key(mint),
    ensures
        state.open_stake(user, mint, asset, now, stake_slot, user_slot).1 is Err,
        state.open_stake(user, mint, asset, now, stake_slot, user_slot).0 == state,
        state.config is Some ==> state.open_stake(user, mint, asset, now, stake_slot, user_slot).1
            == Err::<CustodyRequest, LedgerError>(LedgerError::AlreadyInUse),
        state.stake(user, mint, asset, now).1 is Err,
        state.stake(user, mint, asset, now).0 == state,
{
}

/// After a stake that succeeded, every further stake of the same asset is
/// refused as long as the record exists, whoever asks and whatever they
/// present, and leaves the ledger as it is.
pub proof fn lemma_second_stake_fails(
    state: LedgerState,
    first: (Key, AssetProof, i64),
    first_slots: (Option<Derived>, Option<Derived>),
    mint: Key,
    second: (Key, AssetProof, i64),
    second_slots: (Option<Derived>, Option<Derived>),
)
    requires
        state.open_stake(first.0, mint, first.1, first.2, first_slots.0, first_slots.1).1 is Ok,
    ensures
        ({
            let after = state.open_stake(
                first.0,
                mint,
                first.1,
                first.2,
                first_slots.0,
                first_slots.1,
            ).0;
            after.open_stake(second.0, mint, second.1, second.2, second_slots.0, second_slots.1)
                == (after, Err::<CustodyRequest, LedgerError>(LedgerError::AlreadyInUse))
        }),
{
}

/// A lock that the ledger asks for at the addresses that the derivation
/// finds names as its delegate the address derived from the stake record's
/// seeds, with that derivation's bump seed: the ledger can sign for it.
pub proof fn lemma_lock_delegate_is_derived(
    state: LedgerState,
    user: Key,
    mint: Key,
    asset: AssetProof,
    now: i64,
)
    requires
        state.stake(user, mint, asset, now).1 is Ok,
    ensures
        ({
            let request = state.stake(user, mint, asset, now).1->Ok_0;
            let after = state.stake(user, mint, asset, now).0;
            &&& request.action == crate::custody::CustodyAction::DelegateAndFreeze
            &&& request.mint == mint
            &&& request.holder == user
            &&& request.config == state.config->0.key
            &&& canonical_address(spec_stake_seeds(mint, request.config), state.program_id) == Some(
                Derived { key: request.delegate, bump: request.bump },
            )
            &&& after.stakes[mint].key == request.delegate
            &&& after.stakes[mint].data.bump == request.bump
        }),
{
}

/// The ledger asks for the release of an asset only in a withdrawal that
/// succeeds: the asset was staked, the one who asks is the one who staked
/// it, and the holding period has elapsed.
pub proof fn lemma_release_only_to_staker(state: LedgerState, user: Key, mint: Key, now: i64)
    requires
        state.unstake(user, mint, now).1 is Ok,
    ensures
        state.stakes.contains_key(mint),
        state.stakes[mint].data.owner == user,
        now - state.stakes[mint].data.last_update >= state.config->0.data.freeze_period,
        state.unstake(user, mint, now).1->Ok_0.action == crate::custody::CustodyAction::ThawAndRevoke,
        state.unstake(user, mint, now).1->Ok_0.mint == mint,
        state.unstake(user, mint, now).1->Ok_0.holder == user,
        !state.unstake(user, mint, now).0.stakes.contains_key(mint),
{
}

/// The release undoes the lock. When an asset is staked and later
/// withdrawn, the release names the same asset, holder, delegate and
/// configuration as the lock and is signed with the same seeds.
pub proof fn lemma_release_matches_lock(
    state: LedgerState,
    user: Key,
    mint: Key,
    asset: AssetProof,
    staked_at: i64,
    slots: (Option<Derived>, Option<Derived>),
    withdrawn_at: i64,
)
    requires
        state.open_stake(user, mint, asset, staked_at, slots.0, slots.1).1 is Ok,
        state.open_stake(user, mint, asset, staked_at, slots.0, slots.1).0.unstake(
            user,
            mint,
            withdrawn_at,
        ).1 is Ok,
    ensures
        ({
            let (between, lock) = state.open_stake(user, mint, asset, staked_at, slots.0, slots.1);
            let release = between.unstake(user, mint, withdrawn_at).1;
            &&& release->Ok_0.mint == lock->Ok_0.mint
            &&& release->Ok_0.holder == lock->Ok_0.holder
            &&& release->Ok_0.delegate == lock->Ok_0.delegate
            &&& release->Ok_0.config == lock->Ok_0.config
            &&& release->Ok_0.bump == lock->Ok_0.bump
            &&& release->Ok_0.spec_signer_seeds() == lock->Ok_0.spec_signer_seeds()
        }),
{
}

/// The maximum is a hard ceiling: a holder whose count of staked assets has
/// reached it cannot stake another asset, and the attempt leaves the ledger
/// as it is. For an asset without a stake record that is otherwise
/// acceptable the refusal names the capacity.
pub proof fn lemma_capacity_is_a_ceiling(
    state: LedgerState,
    user: Key,
    mint: Key,
    asset: AssetProof,
    now: i64,
    stake_slot: Option<Derived>,
    user_slot: Option<Derived>,
)
    requires
        state.config is Some,
        state.users.contains_key(user),
        state.users[user].data.amount_staked >= state.config->0.data.max_stake,
    ensures
        state.open_stake(user, mint, asset, now, stake_slot, user_slot).1 is Err,
        state.open_stake(user, mint, asset, now, stake_slot, user_slot).0 == state,
        ({
            &&& !state.stakes.contains_key(mint)
            &&& stake_slot is Some
            &&& asset.mint_ata.proves_ownership(mint, user)
            &&& asset.metadata.collection == Some(
                crate::custody::Collection { key: asset.collection_mint, verified: true },
            )
        }) ==> state.open_stake(user, mint, asset, now, stake_slot, user_slot).1 == Err::<
            CustodyRequest,
            LedgerError,
        >(LedgerError::Rejected(StakeError::MaxStakeReached)),
{
}

/// While the holding period of a staked asset has not elapsed, nobody can
/// withdraw it, and the attempt leaves the ledger as it is. A requester who
/// has a holder account is told that the delay is not met.
pub proof fn lemma_no_withdrawal_before_delay(state: LedgerState, user: Key, mint: Key, now: i64)
    requires
        state.config is Some,
        state.stakes.contains_key(mint),
        now - state.stakes[mint].data.last_update < state.config->0.data.freeze_period,
    ensures
        state.unstake(user, mint, now).1 is Err,
        state.unstake(user, mint, now).0 == state,
        state.users.contains_key(user) ==> state.unstake(user, mint, now).1 == Err::<
            CustodyRequest,
            LedgerError,
        >(LedgerError::Rejected(StakeError::UnstakeDelayNotMet)),
{
}

/// Nobody but the one who staked an asset can withdraw it, however long
/// it has been staked, and the attempt leaves the ledger as it is. Once the
/// holding period has elapsed, a requester who has a holder account is told
/// that they are not authorized.
pub proof fn lemma_no_withdrawal_by_stranger(state: LedgerState, user: Key, mint: Key, now: i64)
    requires
        state.config is Some,
        state.stakes.contains_key(mint),
        state.stakes[mint].data.owner != user,
    ensures
        state.unstake(user, mint, now).1 is Err,
        state.unstake(user, mint, now).0 == state,
        state.users.contains_key(user) && now - state.stakes[mint].data.last_update
            >= state.config->0.data.freeze_period ==> state.unstake(user, mint, now).1 == Err::<
            CustodyRequest,
            LedgerError,
        >(LedgerError::Rejected(StakeError::Unauthorized)),
{
}

/// In a well-formed ledger the one who staked an asset can withdraw it as
/// soon as its holding period has elapsed, unless the points earned would
/// carry the point total out of its range. The withdrawal removes the stake
/// record, takes one from the holder's count, credits the points earned,
/// and asks for the release that undoes the lock: same asset, same holder,
/// same delegate, same signer seeds.
pub proof fn lemma_withdrawal_by_owner(state: LedgerState, user: Key, mint: Key, now: i64)
    requires
        state.inv(),
        state.stakes.contains_key(mint),
        state.stakes[mint].data.owner == user,
        now - state.stakes[mint].data.last_update >= state.config->0.data.freeze_period,
    ensures
        ({
            let earned = crate::rewards::points_earned(
                state.stakes[mint].data.last_update as int,
                now as int,
                state.config->0.data.points_per_stake as int,
            );
            let (after, res) = state.unstake(user, mint, now);
            &&& state.users.contains_key(user)
            &&& state.users[user].data.amount_staked >= 1
            &&& res is Ok <==> state.users[user].data.points + earned <= u32::MAX
            &&& res is Err ==> after == state && res == Err::<CustodyRequest, LedgerError>(
                LedgerError::Rejected(StakeError::ArithmeticOverflow),
            )
            &&& res matches Ok(request) ==> {
                &&& !after.stakes.contains_key(mint)
                &&& after.users[user].data.amount_staked == state.users[user].data.amount_staked - 1
                &&& after.users[user].data.points == state.users[user].data.points + earned
                &&& request.action == crate::custody::CustodyAction::ThawAndRevoke
                &&& request.mint == mint
                &&& request.holder == user
                &&& request.delegate == state.stakes[mint].key
                &&& request.bump == state.stakes[mint].data.bump
                &&& request.config == state.config->0.key
            }
        }),
{
    // the asset is one of those that the holder has staked, so their count
    // is at least one
    lemma_owned_finite(state, user);
    assert(state.owned(user).len() == state.owned(user).remove(mint).len() + 1);
}

/// A claim is all or nothing. A holder without points is refused and the
/// ledger stays as it is; a holder with `n` points is left with none and is
/// owed exactly `n` reward units from the ledger's reward mint, by the
/// authority of the configuration's address, which is the mint's authority.
pub proof fn lemma_claim_pays_points(state: LedgerState, user: Key)
    requires
        state.inv(),
        state.users.contains_key(user),
    ensures
        ({
            let (after, res) = state.claim(user);
            let points = state.users[user].data.points;
            &&& points == 0 ==> after == state && res == Err::<MintRequest, LedgerError>(
                LedgerError::Rejected(StakeError::NoPointsToClaim),
            )
            &&& points > 0 ==> {
                &&& res matches Ok(request)
                &&& request.amount == points
                &&& request.recipient == user
                &&& request.mint == state.rewards_mint->0.key
                &&& request.authority == state.rewards_mint->0.data.authority
                &&& after.users[user].data.points == 0
                &&& after.users[user].data.amount_staked == state.users[user].data.amount_staked
                &&& after.stakes == state.stakes
            }
        }),
{
}

} // verus!
