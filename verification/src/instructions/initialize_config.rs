//! Creating the global configuration and the reward mint.

use vstd::prelude::*;
use crate::error::StakeError;
use crate::state::{Account, Key, RewardsMint, StakeConfig};

verus! {

/// The bump seeds of the two addresses that the instruction creates.
#[derive(Clone, Copy, Debug, PartialEq, Eq, Structural)]
pub struct InitializeConfigBumps {
    /// Bump seed of the reward mint's address.
    pub rewards_mint: u8,
    /// Bump seed of the configuration's address.
    pub config: u8,
}

/// The records named by the one-time bootstrap of the ledger.
#[derive(Clone, Copy, Debug, PartialEq, Eq)]
pub struct InitializeConfig {
    /// The reward mint.
    pub rewards_mint: Account<RewardsMint>,
    /// The configuration's slot: empty until the bootstrap fills it.
    pub config: Account<Option<StakeConfig>>,
}

impl InitializeConfig {
    /// The configuration that the bootstrap writes.
    pub open spec fn configured(
        points_per_stake: u8,
        max_stake: u8,
        freeze_period: u32,
        bumps: InitializeConfigBumps,
    ) -> StakeConfig {
        StakeConfig {
            points_per_stake,
            max_stake,
            freeze_period,
            reward_bump: bumps.rewards_mint,
            bump: bumps.config,
        }
    }

    /// Whether the bootstrap is allowed.
    ///
    /// It is allowed once: while the configuration's slot is empty, with
    /// three positive parameters.
    pub open spec fn allowed(self, points_per_stake: u8, max_stake: u8, freeze_period: u32) -> bool {
        &&& self.config.data is None
        &&& points_per_stake > 0
        &&& max_stake > 0
        &&& freeze_period > 0
    }

    /// The whole transition: the records afterwards and the result. A
    /// bootstrap that is allowed fills the configuration's slot with the
    /// parameters and the two bump seeds; one that is not is rejected, and
    /// every record is as it was.
    pub open spec fn outcome(
        self,
        points_per_stake: u8,
        max_stake: u8,
        freeze_period: u32,
        bumps: InitializeConfigBumps,
    ) -> (InitializeConfig, Result<(), StakeError>) {
        if self.allowed(points_per_stake, max_stake, freeze_period) {
            (
                InitializeConfig {
                    config: Account {
                        data: Some(
                            Self::configured(points_per_stake, max_stake, freeze_period, bumps),
                        ),
                        ..self.config
                    },
                    ..self
                },
                Ok(()),
            )
        } else {
            (self, Err(StakeError::InvalidConfiguration))
        }
    }

    /// The records as they stand when the two slots have just been created:
    /// an empty configuration slot, and a reward mint without supply whose
    /// authority is the configuration's address.
    pub open spec fn created(config: Key, rewards_mint: Key) -> InitializeConfig {
        InitializeConfig {
            rewards_mint: Account { key: rewards_mint, data: RewardsMint::created(config) },
            config: Account { key: config, data: None },
        }
    }

    /// Builds the records as they stand when the two slots have just been
    /// created.
    pub fn new(config: Key, rewards_mint: Key) -> (ctx: InitializeConfig)
        ensures
            ctx == Self::created(config, rewards_mint),
    {
        InitializeConfig {
            rewards_mint: Account { key: rewards_mint, data: RewardsMint::new(config) },
            config: Account { key: config, data: None },
        }
    }

    /// Fills the configuration's slot.
    ///
    /// Succeeds exactly when the slot is empty and the three parameters are
    /// all positive; the slot then holds them and the two bump seeds.
    /// Otherwise the configuration is rejected and nothing changes: a slot
    /// that holds a configuration keeps it.
    pub fn initialize_config(
        &mut self,
        points_per_stake: u8,
        max_stake: u8,
        freeze_period: u32,
        bumps: &InitializeConfigBumps,
    ) -> (res: Result<(), StakeError>)
        ensures
            (*final(self), res) == old(self).outcome(
                points_per_stake,
                max_stake,
                freeze_period,
                *bumps,
            ),
    {
        if self.config.data.is_some() {
            return Err(StakeError::InvalidConfiguration);
        }
        if !(points_per_stake > 0 && max_stake > 0 && freeze_period > 0) {
            return Err(StakeError::InvalidConfiguration);
        }
        self.config.data = Some(
            StakeConfig {
                points_per_stake,
                max_stake,
                freeze_period,
                reward_bump: bumps.rewards_mint,
                bump: bumps.config,
            },
        );
        Ok(())
    }
}

/// On records that were just created the bootstrap succeeds exactly when the
/// three parameters are positive, and then the slot holds a valid
/// configuration with exactly those parameters, beside a reward mint without
/// supply whose authority is the configuration's address.
pub proof fn lemma_bootstrap_of_created_records(
    config: Key,
    rewards_mint: Key,
    parameters: (u8, u8, u32),
    bumps: InitializeConfigBumps,
)
    ensures
        ({
            let ctx = InitializeConfig::created(config, rewards_mint);
            let (after, res) = ctx.outcome(parameters.0, parameters.1, parameters.2, bumps);
            &&& res is Ok <==> parameters.0 > 0 && parameters.1 > 0 && parameters.2 > 0
            &&& res is Ok ==> {
                &&& after.config.key == config
                &&& after.config.data == Some(
                    StakeConfig {
                        points_per_stake: parameters.0,
                        max_stake: parameters.1,
                        freeze_period: parameters.2,
                        reward_bump: bumps.rewards_mint,
                        bump: bumps.config,
                    },
                )
                &&& after.config.data->0.valid()
                &&& after.rewards_mint == ctx.rewards_mint
                &&& after.rewards_mint.data.authority == config
                &&& after.rewards_mint.data.supply == 0
            }
            &&& res is Err ==> after == ctx
        }),
{
}

/// The configuration is created once. On records whose slot holds a
/// configuration every bootstrap is rejected, whatever its parameters, and
/// the configuration and the reward mint stay as they are; and a bootstrap
/// that succeeded leaves such records.
pub proof fn lemma_bootstrap_only_once(
    ctx: InitializeConfig,
    first: (u8, u8, u32),
    first_bumps: InitializeConfigBumps,
    second: (u8, u8, u32),
    second_bumps: InitializeConfigBumps,
)
    ensures
        ctx.config.data is Some ==> ctx.outcome(second.0, second.1, second.2, second_bumps) == (
            ctx,
            Err::<(), StakeError>(StakeError::InvalidConfiguration),
        ),
        ctx.outcome(first.0, first.1, first.2, first_bumps).1 is Ok ==> ({
            let after = ctx.outcome(first.0, first.1, first.2, first_bumps).0;
            &&& after.config.data is Some
            &&& after.outcome(second.0, second.1, second.2, second_bumps) == (
                after,
                Err::<(), StakeError>(StakeError::InvalidConfiguration),
            )
        }),
{
}

} // verus!
