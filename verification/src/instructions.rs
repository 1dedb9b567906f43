//! The program's instructions.
//!
//! Each one first checks its accounts, then does its work. A failed instruction leaves
//! nothing behind on the cluster, which discards its transaction as a whole.

use vstd::prelude::*;

use crate::accounts::{
    Account, AuthoritySend, DepositFlat, DepositPvpSessionAddon, Initialize,
    PvpAddonAuthorityWithdraw, PvpAddonClose, PvpAddonSkimFeeToMain, SetAuthority,
};
use crate::address::{
    derived_with_bump, found_program_address, state_seeds, vault_seeds, ID,
};
use crate::error::{Error, ErrorCode};
use crate::fees::{action_price, main_pool_action_lamports};
use crate::ledger::{Holding, Ledger};
use crate::pubkey::{default_key, Pubkey};
use crate::rent::Rent;
use crate::state::PoolState;
use crate::transfer::{
    above_reserve, deposit_moves, lost, moves, payout_balances, payout_result, refund_if_empty,
    rent_covers, reserve_of, skim_above_reserve, skim_result, transfer_user_to_vault_with_dev_fee,
    transfer_vault_to_dest_signed, vault_net_lamports, vault_reserve, Move, Transfer,
};

verus! {

/// The state that a pool starts with.
pub open spec fn initial_state(
    ctx: Initialize,
    action_fee_lamports: u64,
    reserved_season_bps: u16,
    reserved_daily_bps: u16,
    dev_fee_recipient: Pubkey,
) -> PoolState {
    PoolState {
        authority: ctx.authority.key,
        action_fee_lamports,
        reserved_season_bps,
        reserved_daily_bps,
        bump_state: found_program_address(state_seeds(), ID@)->Some_0.1,
        bump_vault: found_program_address(vault_seeds(), ID@)->Some_0.1,
        dev_fee_recipient,
    }
}

/// The account with other contents.
pub open spec fn storing(account: Account<PoolState>, data: PoolState) -> Account<PoolState> {
    Account { data, ..account }
}

/// Sets the pool up, with the signer as its authority. The state account is new: an
/// account just created is all zeros, which is no valid state.
pub fn initialize(
    ctx: &mut Initialize,
    action_fee_lamports: u64,
    reserved_season_bps: u16,
    reserved_daily_bps: u16,
    dev_fee_recipient: Pubkey,
) -> (result: Result<(), Error>)
    requires
        !old(ctx).pool_state.data.valid(),
    ensures
        result == (match old(ctx).violation() {
            Some(error) => Err(Error::Account(error)),
            None => if dev_fee_recipient@ == default_key() {
                Err(Error::Program(ErrorCode::BadDevRecipient))
            } else {
                Ok(())
            },
        }),
        result is Err ==> *final(ctx) == *old(ctx),
        result is Ok ==> {
            &&& *final(ctx) == (Initialize {
                pool_state: storing(
                    old(ctx).pool_state,
                    initial_state(
                        *old(ctx),
                        action_fee_lamports,
                        reserved_season_bps,
                        reserved_daily_bps,
                        dev_fee_recipient,
                    ),
                ),
                ..*old(ctx)
            })
            &&& final(ctx).pool_state.data.valid()
            &&& derived_with_bump(
                final(ctx).pool_state.info.key@,
                state_seeds(),
                final(ctx).pool_state.data.bump_state,
            )
            &&& derived_with_bump(
                final(ctx).pool_vault.info.key@,
                vault_seeds(),
                final(ctx).pool_state.data.bump_vault,
            )
        },
{
    let (bump_state, bump_vault) = match ctx.check() {
        Ok(bumps) => bumps,
        Err(error) => {
            return Err(Error::Account(error));
        },
    };
    match PoolState::create(
        ctx.authority.key,
        action_fee_lamports,
        reserved_season_bps,
        reserved_daily_bps,
        bump_state,
        bump_vault,
        dev_fee_recipient,
    ) {
        Ok(state) => {
            ctx.pool_state.data = state;
            Ok(())
        },
        Err(code) => Err(Error::Program(code)),
    }
}

/// How handing the pool to another authority ends.
pub open spec fn set_authority_result(ctx: SetAuthority, new_authority: Pubkey) -> Result<(), Error> {
    match ctx.violation() {
        Some(error) => Err(Error::Account(error)),
        None => if new_authority@ == default_key() {
            Err(Error::Program(ErrorCode::BadAuthority))
        } else {
            Ok(())
        },
    }
}

/// The state once that has succeeded.
pub open spec fn set_authority_state(state: PoolState, new_authority: Pubkey) -> PoolState {
    PoolState { authority: new_authority, ..state }
}

/// Hands the pool to another authority. Only the current one may do so.
pub fn set_authority(ctx: &mut SetAuthority, new_authority: Pubkey) -> (result: Result<(), Error>)
    ensures
        result == set_authority_result(*old(ctx), new_authority),
        result is Err ==> *final(ctx) == *old(ctx),
        result is Ok ==> *final(ctx) == (SetAuthority {
            pool_state: storing(
                old(ctx).pool_state,
                set_authority_state(old(ctx).pool_state.data, new_authority),
            ),
            ..*old(ctx)
        }),
        result is Ok ==> final(ctx).pool_state.data.authority == new_authority,
        old(ctx).pool_state.data.valid() ==> final(ctx).pool_state.data.valid(),
{
    if let Some(error) = ctx.check() {
        return Err(Error::Account(error));
    }
    match ctx.pool_state.data.rotate_authority(new_authority) {
        Ok(_) => Ok(()),
        Err(code) => Err(Error::Program(code)),
    }
}

/// How changing the action fee ends.
pub open spec fn set_action_fee_result(ctx: SetAuthority, new_action_fee_lamports: u64) -> Result<(), Error> {
    match ctx.violation() {
        Some(error) => Err(Error::Account(error)),
        None => if new_action_fee_lamports == 0 {
            Err(Error::Program(ErrorCode::ZeroAmount))
        } else {
            Ok(())
        },
    }
}

/// The state once that has succeeded.
pub open spec fn set_action_fee_state(state: PoolState, new_action_fee_lamports: u64) -> PoolState {
    PoolState { action_fee_lamports: new_action_fee_lamports, ..state }
}

/// Changes the action fee. Only the authority may do so.
pub fn set_action_fee(ctx: &mut SetAuthority, new_action_fee_lamports: u64) -> (result: Result<
    (),
    Error,
>)
    ensures
        result == set_action_fee_result(*old(ctx), new_action_fee_lamports),
        result is Err ==> *final(ctx) == *old(ctx),
        result is Ok ==> *final(ctx) == (SetAuthority {
            pool_state: storing(
                old(ctx).pool_state,
                set_action_fee_state(old(ctx).pool_state.data, new_action_fee_lamports),
            ),
            ..*old(ctx)
        }),
        result is Ok ==> final(ctx).pool_state.data.action_fee_lamports == new_action_fee_lamports,
        old(ctx).pool_state.data.valid() ==> final(ctx).pool_state.data.valid(),
{
    if let Some(error) = ctx.check() {
        return Err(Error::Account(error));
    }
    match ctx.pool_state.data.change_action_fee(new_action_fee_lamports) {
        Ok(_) => Ok(()),
        Err(code) => Err(Error::Program(code)),
    }
}

/// How changing the recipient of the protocol fee ends.
pub open spec fn set_dev_fee_recipient_result(ctx: SetAuthority, new_dev_fee_recipient: Pubkey) -> Result<(), Error> {
    match ctx.violation() {
        Some(error) => Err(Error::Account(error)),
        None => if new_dev_fee_recipient@ == default_key() {
            Err(Error::Program(ErrorCode::BadDevRecipient))
        } else {
            Ok(())
        },
    }
}

/// The state once that has succeeded.
pub open spec fn set_dev_fee_recipient_state(state: PoolState, new_dev_fee_recipient: Pubkey) -> PoolState {
    PoolState { dev_fee_recipient: new_dev_fee_recipient, ..state }
}

/// Changes who receives the protocol fee. Only the authority may do so.
pub fn set_dev_fee_recipient(ctx: &mut SetAuthority, new_dev_fee_recipient: Pubkey) -> (result:
    Result<(), Error>)
    ensures
        result == set_dev_fee_recipient_result(*old(ctx), new_dev_fee_recipient),
        result is Err ==> *final(ctx) == *old(ctx),
        result is Ok ==> *final(ctx) == (SetAuthority {
            pool_state: storing(
                old(ctx).pool_state,
                set_dev_fee_recipient_state(old(ctx).pool_state.data, new_dev_fee_recipient),
            ),
            ..*old(ctx)
        }),
        result is Ok ==> final(ctx).pool_state.data.dev_fee_recipient == new_dev_fee_recipient,
        old(ctx).pool_state.data.valid() ==> final(ctx).pool_state.data.valid(),
{
    if let Some(error) = ctx.check() {
        return Err(Error::Account(error));
    }
    match ctx.pool_state.data.rotate_dev_fee_recipient(new_dev_fee_recipient) {
        Ok(_) => Ok(()),
        Err(code) => Err(Error::Program(code)),
    }
}

/// The transfers that pay for a main-pool action.
pub open spec fn deposit_action_moves(
    ctx: DepositFlat,
    action: u8,
    units: u16,
    lamports: u64,
) -> Result<Seq<Move>, Error> {
    match ctx.violation() {
        Some(error) => Err(Error::Account(error)),
        None => match action_price(
            ctx.pool_state.data.action_fee_lamports,
            action,
            units,
            lamports,
        ) {
            Ok(price) => match deposit_moves(
                ctx.user.key@,
                ctx.pool_vault.info.key@,
                ctx.dev_fee_recipient.key@,
                price,
            ) {
                Ok(plan) => Ok(plan),
                Err(code) => Err(Error::Program(code)),
            },
            Err(code) => Err(Error::Program(code)),
        },
    }
}

/// Takes the payment for a main-pool action: returns the transfers for the system program
/// to carry out, in order.
pub fn deposit_action(ctx: &DepositFlat, action: u8, units: u16, lamports: u64) -> (plan: Result<
    Vec<Transfer>,
    Error,
>)
    ensures
        (match plan {
            Ok(transfers) => Ok(moves(transfers@)),
            Err(error) => Err(error),
        }) == deposit_action_moves(*ctx, action, units, lamports),
{
    if let Some(error) = ctx.check() {
        return Err(Error::Account(error));
    }
    let price: u64 = match main_pool_action_lamports(
        &ctx.pool_state.data,
        action,
        units,
        lamports,
    ) {
        Ok(price) => price,
        Err(code) => {
            return Err(Error::Program(code));
        },
    };
    match transfer_user_to_vault_with_dev_fee(
        &ctx.user.key,
        &ctx.pool_vault.info.key,
        &ctx.dev_fee_recipient.key,
        price,
    ) {
        Ok(transfers) => Ok(transfers),
        Err(code) => Err(Error::Program(code)),
    }
}

/// The transfers that pay for an add-on of a PvP session.
pub open spec fn deposit_pvp_session_addon_moves(
    ctx: DepositPvpSessionAddon,
    session_key: Seq<u8>,
    lamports: u64,
) -> Result<Seq<Move>, Error> {
    match ctx.violation(session_key) {
        Some(error) => Err(Error::Account(error)),
        None => if lamports == 0 {
            Err(Error::Program(ErrorCode::ZeroAmount))
        } else {
            match deposit_moves(
                ctx.user.key@,
                ctx.pvp_addon_vault.info.key@,
                ctx.dev_fee_recipient.key@,
                lamports,
            ) {
                Ok(plan) => Ok(plan),
                Err(code) => Err(Error::Program(code)),
            }
        },
    }
}

/// Takes the payment for an add-on of a PvP session into that session's own vault: returns
/// the transfers for the system program to carry out, in order.
pub fn deposit_pvp_session_addon(
    ctx: &DepositPvpSessionAddon,
    session_key: &[u8; 32],
    lamports: u64,
) -> (plan: Result<Vec<Transfer>, Error>)
    ensures
        (match plan {
            Ok(transfers) => Ok(moves(transfers@)),
            Err(error) => Err(error),
        }) == deposit_pvp_session_addon_moves(*ctx, session_key@, lamports),
{
    if let Some(error) = ctx.check(session_key) {
        return Err(Error::Account(error));
    }
    if lamports == 0 {
        return Err(Error::Program(ErrorCode::ZeroAmount));
    }
    match transfer_user_to_vault_with_dev_fee(
        &ctx.user.key,
        &ctx.pvp_addon_vault.info.key,
        &ctx.dev_fee_recipient.key,
        lamports,
    ) {
        Ok(transfers) => Ok(transfers),
        Err(code) => Err(Error::Program(code)),
    }
}

/// Moves the protocol fee from a PvP session's vault to the main vault. Only the authority
/// may do so; the amount is the authority's to name.
pub fn pvp_addon_skim_fee_to_main(
    ctx: &PvpAddonSkimFeeToMain,
    ledger: &mut Ledger,
    rent: Option<Rent>,
    session_key: &[u8; 32],
    lamports: u64,
) -> (result: Result<(), Error>)
    requires
        old(ledger).wf(),
        old(ledger)@.dom().contains(ctx.pvp_addon_vault.info.key@),
        old(ledger)@.dom().contains(ctx.pool_vault.info.key@),
        ctx.violation(session_key@) is None && lamports > 0 ==> rent_covers(
            rent,
            old(ledger)@,
            ctx.pvp_addon_vault.info.key@,
        ),
    ensures
        final(ledger).wf(),
        result == (match ctx.violation(session_key@) {
            Some(error) => Err(Error::Account(error)),
            None => if lamports == 0 {
                Err(Error::Program(ErrorCode::ZeroAmount))
            } else {
                skim_result(
                    old(ledger)@,
                    ctx.pvp_addon_vault.info.key@,
                    ctx.pool_vault.info.key@,
                    reserve_of(old(ledger)@, ctx.pvp_addon_vault.info.key@, rent),
                    lamports,
                )
            },
        }),
        final(ledger)@ == (if ctx.violation(session_key@) is None && lamports > 0 {
            payout_balances(
                old(ledger)@,
                ctx.pvp_addon_vault.info.key@,
                ctx.pool_vault.info.key@,
                reserve_of(old(ledger)@, ctx.pvp_addon_vault.info.key@, rent),
                lamports,
            )
        } else {
            old(ledger)@
        }),
        final(ledger).total() == old(ledger).total() - lost(result, lamports),
{
    if let Some(error) = ctx.check(session_key) {
        return Err(Error::Account(error));
    }
    if lamports == 0 {
        return Err(Error::Program(ErrorCode::ZeroAmount));
    }
    let reserve = vault_reserve(ledger, &ctx.pvp_addon_vault.info.key, rent);
    skim_above_reserve(
        ledger,
        &ctx.pvp_addon_vault.info.key,
        &ctx.pool_vault.info.key,
        reserve,
        lamports,
    )
}

/// Pays a duel's winner out of the session's vault. Only the authority may do so.
pub fn pvp_addon_authority_withdraw(
    ctx: &PvpAddonAuthorityWithdraw,
    ledger: &mut Ledger,
    rent: Option<Rent>,
    session_key: &[u8; 32],
    lamports: u64,
) -> (result: Result<(), Error>)
    requires
        old(ledger).wf(),
        old(ledger)@.dom().contains(ctx.pvp_addon_vault.info.key@),
        old(ledger)@.dom().contains(ctx.destination.key@),
        ctx.violation(session_key@) is None && lamports > 0 ==> rent_covers(
            rent,
            old(ledger)@,
            ctx.pvp_addon_vault.info.key@,
        ),
    ensures
        final(ledger).wf(),
        result == (match ctx.violation(session_key@) {
            Some(error) => Err(Error::Account(error)),
            None => if lamports == 0 {
                Err(Error::Program(ErrorCode::ZeroAmount))
            } else {
                payout_result(
                    old(ledger)@,
                    ctx.pvp_addon_vault.info.key@,
                    ctx.destination.key@,
                    reserve_of(old(ledger)@, ctx.pvp_addon_vault.info.key@, rent),
                    lamports,
                )
            },
        }),
        final(ledger)@ == (if ctx.violation(session_key@) is None && lamports > 0 {
            payout_balances(
                old(ledger)@,
                ctx.pvp_addon_vault.info.key@,
                ctx.destination.key@,
                reserve_of(old(ledger)@, ctx.pvp_addon_vault.info.key@, rent),
                lamports,
            )
        } else {
            old(ledger)@
        }),
        final(ledger).total() == old(ledger).total() - lost(result, lamports),
{
    if let Some(error) = ctx.check(session_key) {
        return Err(Error::Account(error));
    }
    if lamports == 0 {
        return Err(Error::Program(ErrorCode::ZeroAmount));
    }
    transfer_vault_to_dest_signed(
        ledger,
        &ctx.pvp_addon_vault.info.key,
        &ctx.destination.key,
        rent,
        lamports,
    )
}

/// What closing a PvP session's vault hands to the authority.
pub open spec fn close_move(
    ctx: PvpAddonClose,
    balances: Map<Seq<u8>, Holding>,
    reserve: Option<u64>,
    session_key: Seq<u8>,
) -> Result<Move, Error> {
    let vault = ctx.pvp_addon_vault.info.key@;
    match ctx.violation(session_key) {
        Some(error) => Err(Error::Account(error)),
        None => match reserve {
            None => Err(Error::RentUnavailable),
            Some(minimum) => if above_reserve(balances[vault].lamports, minimum) != 0 {
                Err(Error::Program(ErrorCode::PvpVaultNotEmpty))
            } else {
                Ok(
                    Move {
                        from: vault,
                        to: ctx.authority.key@,
                        lamports: balances[vault].lamports,
                    },
                )
            },
        },
    }
}

/// Closes a PvP session's vault once nothing but its rent reserve is left in it. Only the
/// authority may do so, and gets what is left: returns that transfer, which is carried out
/// as the account is closed.
pub fn pvp_addon_close(
    ctx: &PvpAddonClose,
    ledger: &Ledger,
    rent: Option<Rent>,
    session_key: &[u8; 32],
) -> (refund: Result<Transfer, Error>)
    requires
        ledger.wf(),
        ledger@.dom().contains(ctx.pvp_addon_vault.info.key@),
        ctx.violation(session_key@) is None ==> rent_covers(
            rent,
            ledger@,
            ctx.pvp_addon_vault.info.key@,
        ),
    ensures
        (match refund {
            Ok(transfer) => Ok(transfer@),
            Err(error) => Err(error),
        }) == close_move(
            *ctx,
            ledger@,
            reserve_of(ledger@, ctx.pvp_addon_vault.info.key@, rent),
            session_key@,
        ),
{
    if let Some(error) = ctx.check(session_key) {
        return Err(Error::Account(error));
    }
    let vault = ctx.pvp_addon_vault.info.key;
    let net: u64 = match vault_net_lamports(ledger, &vault, rent) {
        Ok(net) => net,
        Err(error) => {
            return Err(error);
        },
    };
    match refund_if_empty(&vault, &ctx.authority.key, ledger.holding(&vault).lamports, net) {
        Ok(transfer) => Ok(transfer),
        Err(code) => Err(Error::Program(code)),
    }
}

/// Pays any recipient out of the main vault. Only the authority may do so.
pub fn authority_send(
    ctx: &AuthoritySend,
    ledger: &mut Ledger,
    rent: Option<Rent>,
    lamports: u64,
) -> (result: Result<(), Error>)
    requires
        old(ledger).wf(),
        old(ledger)@.dom().contains(ctx.pool_vault.info.key@),
        old(ledger)@.dom().contains(ctx.destination.key@),
        ctx.violation() is None && lamports > 0 ==> rent_covers(
            rent,
            old(ledger)@,
            ctx.pool_vault.info.key@,
        ),
    ensures
        final(ledger).wf(),
        result == (match ctx.violation() {
            Some(error) => Err(Error::Account(error)),
            None => if lamports == 0 {
                Err(Error::Program(ErrorCode::ZeroAmount))
            } else {
                payout_result(
                    old(ledger)@,
                    ctx.pool_vault.info.key@,
                    ctx.destination.key@,
                    reserve_of(old(ledger)@, ctx.pool_vault.info.key@, rent),
                    lamports,
                )
            },
        }),
        final(ledger)@ == (if ctx.violation() is None && lamports > 0 {
            payout_balances(
                old(ledger)@,
                ctx.pool_vault.info.key@,
                ctx.destination.key@,
                reserve_of(old(ledger)@, ctx.pool_vault.info.key@, rent),
                lamports,
            )
        } else {
            old(ledger)@
        }),
        final(ledger).total() == old(ledger).total() - lost(result, lamports),
{
    if let Some(error) = ctx.check() {
        return Err(Error::Account(error));
    }
    if lamports == 0 {
        return Err(Error::Program(ErrorCode::ZeroAmount));
    }
    transfer_vault_to_dest_signed(
        ledger,
        &ctx.pool_vault.info.key,
        &ctx.destination.key,
        rent,
        lamports,
    )
}

} // verus!
