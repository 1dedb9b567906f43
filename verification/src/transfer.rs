//! How lamports move: from a player into a vault, and out of a vault.

use vstd::prelude::*;

use crate::error::{Error, ErrorCode};
use crate::fees::{deposit_split, split_deposit_lamports};
use crate::ledger::{Holding, Ledger};
use crate::pubkey::Pubkey;
use crate::rent::Rent;

verus! {

/// Lamports to be moved from one account to another: a part of a player's deposit, or what
/// a closed vault hands back.
#[derive(Clone, Copy, Debug, PartialEq, Eq)]
pub struct Transfer {
    pub from: Pubkey,
    pub to: Pubkey,
    pub lamports: u64,
}

/// A transfer between addresses.
pub struct Move {
    pub from: Seq<u8>,
    pub to: Seq<u8>,
    pub lamports: u64,
}

impl View for Transfer {
    type V = Move;

    open spec fn view(&self) -> Move {
        Move { from: self.from@, to: self.to@, lamports: self.lamports }
    }
}

/// The transfers that `plan` asks for, in order.
pub open spec fn moves(plan: Seq<Transfer>) -> Seq<Move> {
    plan.map_values(|transfer: Transfer| transfer@)
}

/// A transfer, or nothing where it would move no lamports.
pub open spec fn move_if_any(from: Seq<u8>, to: Seq<u8>, lamports: u64) -> Seq<Move> {
    if lamports > 0 {
        seq![Move { from, to, lamports }]
    } else {
        seq![]
    }
}

/// The transfers that make up a deposit: first the vault's share, then the protocol fee.
pub open spec fn deposit_moves(
    user: Seq<u8>,
    vault: Seq<u8>,
    dev_fee_recipient: Seq<u8>,
    lamports: u64,
) -> Result<Seq<Move>, ErrorCode> {
    match deposit_split(lamports) {
        Ok((vault_share, dev_share)) => Ok(
            move_if_any(user, vault, vault_share) + move_if_any(user, dev_fee_recipient, dev_share),
        ),
        Err(code) => Err(code),
    }
}

/// Asks for `lamports` to be moved from a player to an account.
pub fn transfer_user_to_vault(user: &Pubkey, vault: &Pubkey, lamports: u64) -> (transfer: Transfer)
    ensures
        transfer@ == (Move { from: user@, to: vault@, lamports }),
{
    Transfer { from: *user, to: *vault, lamports }
}

/// Plans a deposit of `lamports`: the transfers to carry out, in order.
pub fn transfer_user_to_vault_with_dev_fee(
    user: &Pubkey,
    vault: &Pubkey,
    dev_fee_recipient: &Pubkey,
    lamports: u64,
) -> (plan: Result<Vec<Transfer>, ErrorCode>)
    ensures
        (match plan {
            Ok(transfers) => Ok(moves(transfers@)),
            Err(code) => Err(code),
        }) == deposit_moves(user@, vault@, dev_fee_recipient@, lamports),
{
    let (pool_lamports, dev_fee_lamports) = match split_deposit_lamports(lamports) {
        Ok(split) => split,
        Err(code) => {
            return Err(code);
        },
    };
    let mut plan: Vec<Transfer> = Vec::new();
    if pool_lamports > 0 {
        plan.push(transfer_user_to_vault(user, vault, pool_lamports));
    }
    if dev_fee_lamports > 0 {
        plan.push(transfer_user_to_vault(user, dev_fee_recipient, dev_fee_lamports));
    }
    assert(moves(plan@) =~= move_if_any(user@, vault@, pool_lamports) + move_if_any(
        user@,
        dev_fee_recipient@,
        dev_fee_lamports,
    ));
    Ok(plan)
}

/// What is left of `lamports` above `reserve`.
pub open spec fn above_reserve(lamports: u64, reserve: u64) -> u64 {
    if lamports > reserve {
        (lamports - reserve) as u64
    } else {
        0
    }
}

/// What the account at `key` must keep to be exempt from rent; `None` where the cluster's
/// rent parameters could not be read.
pub open spec fn reserve_of(
    balances: Map<Seq<u8>, Holding>,
    key: Seq<u8>,
    rent: Option<Rent>,
) -> Option<u64> {
    match rent {
        Some(parameters) => Some(parameters.minimum(balances[key].data_len)),
        None => None,
    }
}

/// The rent of the account at `key` can be computed, where the rent is known.
pub open spec fn rent_covers(
    rent: Option<Rent>,
    balances: Map<Seq<u8>, Holding>,
    key: Seq<u8>,
) -> bool {
    rent matches Some(parameters) ==> parameters.covers(balances[key].data_len)
}

/// Returns what a vault must keep to be exempt from rent.
pub fn vault_reserve(ledger: &Ledger, vault: &Pubkey, rent: Option<Rent>) -> (reserve: Option<u64>)
    requires
        ledger.wf(),
        ledger@.dom().contains(vault@),
        rent_covers(rent, ledger@, vault@),
    ensures
        reserve == reserve_of(ledger@, vault@, rent),
{
    match rent {
        Some(parameters) => Some(parameters.minimum_balance(ledger.holding(vault).data_len)),
        None => None,
    }
}

/// Returns what a vault with `lamports` holds above its reserve.
pub fn net_of_reserve(lamports: u64, reserve: Option<u64>) -> (net: Result<u64, Error>)
    ensures
        net == (match reserve {
            Some(minimum) => Ok(above_reserve(lamports, minimum)),
            None => Err(Error::RentUnavailable),
        }),
{
    match reserve {
        Some(minimum) => Ok(lamports.saturating_sub(minimum)),
        None => Err(Error::RentUnavailable),
    }
}

/// Returns what a vault holds above its rent reserve. `rent` is `None` where the
/// cluster's rent parameters could not be read.
pub fn vault_net_lamports(ledger: &Ledger, vault: &Pubkey, rent: Option<Rent>) -> (net: Result<
    u64,
    Error,
>)
    requires
        ledger.wf(),
        ledger@.dom().contains(vault@),
        rent_covers(rent, ledger@, vault@),
    ensures
        net == (match reserve_of(ledger@, vault@, rent) {
            Some(minimum) => Ok(above_reserve(ledger@[vault@].lamports, minimum)),
            None => Err(Error::RentUnavailable),
        }),
{
    net_of_reserve(ledger.holding(vault).lamports, vault_reserve(ledger, vault, rent))
}

/// The balances once `lamports` have been taken from `key`.
pub open spec fn debited(
    balances: Map<Seq<u8>, Holding>,
    key: Seq<u8>,
    lamports: u64,
) -> Map<Seq<u8>, Holding> {
    balances.insert(
        key,
        Holding { lamports: (balances[key].lamports - lamports) as u64, ..balances[key] },
    )
}

/// The balances once `lamports` have been given to `key`.
pub open spec fn credited(
    balances: Map<Seq<u8>, Holding>,
    key: Seq<u8>,
    lamports: u64,
) -> Map<Seq<u8>, Holding> {
    balances.insert(
        key,
        Holding { lamports: (balances[key].lamports + lamports) as u64, ..balances[key] },
    )
}

/// How a payment of `lamports` out of `vault` into `dest` ends.
pub open spec fn payout_result(
    balances: Map<Seq<u8>, Holding>,
    vault: Seq<u8>,
    dest: Seq<u8>,
    reserve: Option<u64>,
    lamports: u64,
) -> Result<(), Error> {
    match reserve {
        None => Err(Error::RentUnavailable),
        Some(minimum) => if above_reserve(balances[vault].lamports, minimum) < lamports {
            Err(Error::Program(ErrorCode::InsufficientVaultFunds))
        } else if vault != dest && balances[dest].lamports + lamports > u64::MAX {
            Err(Error::Program(ErrorCode::MathOverflow))
        } else {
            Ok(())
        },
    }
}

/// What a payment of `lamports` out of `vault` into `dest` leaves. A destination that
/// would overflow is found out only after the vault was debited; the failed transaction
/// as a whole is then discarded.
pub open spec fn payout_balances(
    balances: Map<Seq<u8>, Holding>,
    vault: Seq<u8>,
    dest: Seq<u8>,
    reserve: Option<u64>,
    lamports: u64,
) -> Map<Seq<u8>, Holding> {
    match payout_result(balances, vault, dest, reserve, lamports) {
        Ok(_) => credited(debited(balances, vault, lamports), dest, lamports),
        Err(Error::Program(ErrorCode::MathOverflow)) => debited(balances, vault, lamports),
        Err(_) => balances,
    }
}

/// Lamports that are in no account once a payment has ended so: none, unless the vault was
/// debited for a destination that would overflow.
pub open spec fn lost(result: Result<(), Error>, lamports: u64) -> int {
    if result == Err::<(), Error>(Error::Program(ErrorCode::MathOverflow)) {
        lamports as int
    } else {
        0
    }
}

/// Pays `lamports` out of a vault that must keep `reserve`.
pub fn pay_above_reserve(
    ledger: &mut Ledger,
    vault: &Pubkey,
    dest: &Pubkey,
    reserve: Option<u64>,
    lamports: u64,
) -> (result: Result<(), Error>)
    requires
        old(ledger).wf(),
        old(ledger)@.dom().contains(vault@),
        old(ledger)@.dom().contains(dest@),
    ensures
        final(ledger).wf(),
        result == payout_result(old(ledger)@, vault@, dest@, reserve, lamports),
        final(ledger)@ == payout_balances(old(ledger)@, vault@, dest@, reserve, lamports),
        result is Ok <==> {
            &&& reserve is Some
            &&& lamports == 0 || lamports + reserve->Some_0 <= old(ledger)@[vault@].lamports
            &&& vault@ == dest@ || old(ledger)@[dest@].lamports + lamports <= u64::MAX
        },
        final(ledger).total() == old(ledger).total() - lost(result, lamports),
{
    let from = ledger.holding(vault);
    let net: u64 = match net_of_reserve(from.lamports, reserve) {
        Ok(net) => net,
        Err(error) => {
            return Err(error);
        },
    };
    if net < lamports {
        return Err(Error::Program(ErrorCode::InsufficientVaultFunds));
    }
    let remaining: u64 = match from.lamports.checked_sub(lamports) {
        Some(remaining) => remaining,
        None => {
            return Err(Error::Program(ErrorCode::MathOverflow));
        },
    };
    ledger.set(vault, Holding { lamports: remaining, data_len: from.data_len });
    let to = ledger.holding(dest);
    let received: u64 = match to.lamports.checked_add(lamports) {
        Some(received) => received,
        None => {
            return Err(Error::Program(ErrorCode::MathOverflow));
        },
    };
    ledger.set(dest, Holding { lamports: received, data_len: to.data_len });
    Ok(())
}

/// How taking a fee of `lamports` out of a session's `vault` into `main_vault` ends.
pub open spec fn skim_result(
    balances: Map<Seq<u8>, Holding>,
    vault: Seq<u8>,
    main_vault: Seq<u8>,
    reserve: Option<u64>,
    lamports: u64,
) -> Result<(), Error> {
    if reserve matches Some(minimum) && above_reserve(balances[vault].lamports, minimum)
        < lamports {
        Err(Error::Program(ErrorCode::PvpVaultInsufficientForFeeSkim))
    } else {
        payout_result(balances, vault, main_vault, reserve, lamports)
    }
}

/// Takes a fee of `lamports` out of a session's vault that must keep `reserve`.
pub fn skim_above_reserve(
    ledger: &mut Ledger,
    vault: &Pubkey,
    main_vault: &Pubkey,
    reserve: Option<u64>,
    lamports: u64,
) -> (result: Result<(), Error>)
    requires
        old(ledger).wf(),
        old(ledger)@.dom().contains(vault@),
        old(ledger)@.dom().contains(main_vault@),
    ensures
        final(ledger).wf(),
        result == skim_result(old(ledger)@, vault@, main_vault@, reserve, lamports),
        final(ledger)@ == payout_balances(old(ledger)@, vault@, main_vault@, reserve, lamports),
        result is Ok <==> {
            &&& reserve is Some
            &&& lamports == 0 || lamports + reserve->Some_0 <= old(ledger)@[vault@].lamports
            &&& vault@ == main_vault@ || old(ledger)@[main_vault@].lamports + lamports <= u64::MAX
        },
        final(ledger).total() == old(ledger).total() - lost(result, lamports),
{
    let net: u64 = match net_of_reserve(ledger.holding(vault).lamports, reserve) {
        Ok(net) => net,
        Err(error) => {
            return Err(error);
        },
    };
    if net < lamports {
        return Err(Error::Program(ErrorCode::PvpVaultInsufficientForFeeSkim));
    }
    pay_above_reserve(ledger, vault, main_vault, reserve, lamports)
}

/// Gives up a vault that holds `lamports`, `net` of them above its reserve: only an empty
/// one may go, and all it still holds goes to `authority`.
pub fn refund_if_empty(vault: &Pubkey, authority: &Pubkey, lamports: u64, net: u64) -> (refund:
    Result<Transfer, ErrorCode>)
    ensures
        match refund {
            Ok(transfer) => net == 0 && transfer@ == (Move {
                from: vault@,
                to: authority@,
                lamports,
            }),
            Err(code) => net != 0 && code == ErrorCode::PvpVaultNotEmpty,
        },
{
    if net != 0 {
        return Err(ErrorCode::PvpVaultNotEmpty);
    }
    Ok(Transfer { from: *vault, to: *authority, lamports })
}

/// Pays `lamports` out of a vault that the program owns, never out of its rent reserve.
pub fn transfer_vault_to_dest_signed(
    ledger: &mut Ledger,
    vault: &Pubkey,
    dest: &Pubkey,
    rent: Option<Rent>,
    lamports: u64,
) -> (result: Result<(), Error>)
    requires
        old(ledger).wf(),
        old(ledger)@.dom().contains(vault@),
        old(ledger)@.dom().contains(dest@),
        rent_covers(rent, old(ledger)@, vault@),
    ensures
        final(ledger).wf(),
        result == payout_result(
            old(ledger)@,
            vault@,
            dest@,
            reserve_of(old(ledger)@, vault@, rent),
            lamports,
        ),
        final(ledger)@ == payout_balances(
            old(ledger)@,
            vault@,
            dest@,
            reserve_of(old(ledger)@, vault@, rent),
            lamports,
        ),
        final(ledger).total() == old(ledger).total() - lost(result, lamports),
{
    let reserve = vault_reserve(ledger, vault, rent);
    pay_above_reserve(ledger, vault, dest, reserve, lamports)
}

} // verus!
