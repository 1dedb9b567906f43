//! Prices of paid actions and the split of a deposit.

use vstd::prelude::*;

use crate::error::ErrorCode;
use crate::state::PoolState;

verus! {

/// Most attempts one lab payment may cover.
pub const MAX_LAB_ATTEMPTS: u8 = 15;

/// Most gacha rolls one payment may cover.
pub const MAX_GACHA_ROLLS_PER_IX: u16 = 2000;

/// Rolls covered by one action fee: 1..100 rolls cost one fee, 101..200 two, and so on.
pub const GACHA_ROLLS_PER_FEE_UNIT: u64 = 100;

/// Price of the sixth mining rig slot (0.5 SOL).
pub const MINING_EXTRA_RIG_SLOT_LAMPORTS: u64 = 500_000_000;

/// Price of a hundred more inventory slots (0.1 SOL).
pub const INVENTORY_SLOT_BUNDLE_LAMPORTS: u64 = 100_000_000;

pub const BPS_DENOMINATOR: u64 = 10_000;

/// Protocol fee on every deposit, in basis points.
pub const DEV_FEE_BPS: u64 = 500;

pub const ACTION_GACHA: u8 = 0;

pub const ACTION_LAB: u8 = 1;

pub const ACTION_CONTRIBUTE: u8 = 2;

pub const ACTION_MINING_EXTRA_RIG: u8 = 3;

pub const ACTION_INVENTORY_SLOT_BUNDLE: u8 = 4;

pub const ACTION_NFT_BURN: u8 = 5;

pub const ACTION_CITY_UPGRADE: u8 = 6;

pub const ACTION_GUILD_PROJECT_UPGRADE: u8 = 7;

/// The protocol's share of a deposit, rounded down.
pub open spec fn dev_share(lamports: int) -> int {
    lamports * DEV_FEE_BPS / BPS_DENOMINATOR as int
}

/// The vault's share of a deposit and the protocol's, in that order. The deposit is
/// refused where its product with the fee rate does not fit 64 bits.
pub open spec fn deposit_split(lamports: u64) -> Result<(u64, u64), ErrorCode> {
    if lamports * DEV_FEE_BPS > u64::MAX {
        Err(ErrorCode::MathOverflow)
    } else {
        Ok(((lamports - dev_share(lamports as int)) as u64, dev_share(lamports as int) as u64))
    }
}

/// Splits a deposit into the vault's share and the protocol fee.
pub fn split_deposit_lamports(lamports: u64) -> (split: Result<(u64, u64), ErrorCode>)
    ensures
        split == deposit_split(lamports),
        split matches Ok((vault, dev)) ==> vault + dev == lamports,
{
    let dev_fee: u64 = match lamports.checked_mul(DEV_FEE_BPS) {
        Some(product) => match product.checked_div(BPS_DENOMINATOR) {
            Some(fee) => fee,
            None => {
                return Err(ErrorCode::MathOverflow);
            },
        },
        None => {
            return Err(ErrorCode::MathOverflow);
        },
    };
    match lamports.checked_sub(dev_fee) {
        Some(vault) => Ok((vault, dev_fee)),
        None => Err(ErrorCode::MathOverflow),
    }
}

/// Action fees that `rolls` gacha rolls cost: a fee for each hundred begun.
pub open spec fn gacha_fee_units(rolls: int) -> int {
    (rolls + GACHA_ROLLS_PER_FEE_UNIT - 1) / GACHA_ROLLS_PER_FEE_UNIT as int
}

/// `count` action fees, refused where they do not fit 64 bits.
pub open spec fn fees_for(action_fee: u64, count: int) -> Result<u64, ErrorCode> {
    if action_fee * count > u64::MAX {
        Err(ErrorCode::MathOverflow)
    } else {
        Ok((action_fee * count) as u64)
    }
}

/// What the main pool asks for `action`. Gacha rolls and lab attempts are counted in
/// `units`; a contribution is worth what the player offers in `lamports`.
pub open spec fn action_price(
    action_fee: u64,
    action: u8,
    units: u16,
    lamports: u64,
) -> Result<u64, ErrorCode> {
    if action == ACTION_GACHA {
        if 1 <= units <= MAX_GACHA_ROLLS_PER_IX {
            fees_for(action_fee, gacha_fee_units(units as int))
        } else {
            Err(ErrorCode::BadGachaRolls)
        }
    } else if action == ACTION_LAB {
        if 1 <= units <= MAX_LAB_ATTEMPTS {
            fees_for(action_fee, units as int)
        } else {
            Err(ErrorCode::BadAttempts)
        }
    } else if action == ACTION_CONTRIBUTE {
        if lamports > 0 {
            Ok(lamports)
        } else {
            Err(ErrorCode::ZeroAmount)
        }
    } else if action == ACTION_MINING_EXTRA_RIG {
        Ok(MINING_EXTRA_RIG_SLOT_LAMPORTS)
    } else if action == ACTION_INVENTORY_SLOT_BUNDLE {
        Ok(INVENTORY_SLOT_BUNDLE_LAMPORTS)
    } else if action == ACTION_NFT_BURN || action == ACTION_CITY_UPGRADE || action
        == ACTION_GUILD_PROJECT_UPGRADE {
        Ok(action_fee)
    } else {
        Err(ErrorCode::BadAction)
    }
}

/// Prices a main-pool action.
pub fn main_pool_action_lamports(
    pool_state: &PoolState,
    action: u8,
    units: u16,
    lamports: u64,
) -> (price: Result<u64, ErrorCode>)
    ensures
        price == action_price(pool_state.action_fee_lamports, action, units, lamports),
{
    match action {
        ACTION_GACHA => {
            if !(units >= 1 && units <= MAX_GACHA_ROLLS_PER_IX) {
                return Err(ErrorCode::BadGachaRolls);
            }
            let fee_units: u64 = match (units as u64).checked_add(GACHA_ROLLS_PER_FEE_UNIT - 1) {
                Some(padded) => match padded.checked_div(GACHA_ROLLS_PER_FEE_UNIT) {
                    Some(count) => count,
                    None => {
                        return Err(ErrorCode::MathOverflow);
                    },
                },
                None => {
                    return Err(ErrorCode::MathOverflow);
                },
            };
            pool_state.action_fee_lamports.checked_mul(fee_units).ok_or(ErrorCode::MathOverflow)
        },
        ACTION_LAB => {
            if !(units >= 1 && units <= MAX_LAB_ATTEMPTS as u16) {
                return Err(ErrorCode::BadAttempts);
            }
            pool_state.action_fee_lamports.checked_mul(units as u64).ok_or(ErrorCode::MathOverflow)
        },
        ACTION_CONTRIBUTE => {
            if lamports > 0 {
                Ok(lamports)
            } else {
                Err(ErrorCode::ZeroAmount)
            }
        },
        ACTION_MINING_EXTRA_RIG => Ok(MINING_EXTRA_RIG_SLOT_LAMPORTS),
        ACTION_INVENTORY_SLOT_BUNDLE => Ok(INVENTORY_SLOT_BUNDLE_LAMPORTS),
        ACTION_NFT_BURN => Ok(pool_state.action_fee_lamports),
        ACTION_CITY_UPGRADE => Ok(pool_state.action_fee_lamports),
        ACTION_GUILD_PROJECT_UPGRADE => Ok(pool_state.action_fee_lamports),
        _ => Err(ErrorCode::BadAction),
    }
}

} // verus!
