//! What holds of the pool as a whole.

use vstd::prelude::*;

use crate::accounts::{
    recorded_state_address, recorded_vault_address, session_address, Account, AccountInfo,
    AuthoritySend, DepositFlat, DepositPvpSessionAddon, Initialize, PvpAddonAuthorityWithdraw,
    PvpAddonClose, PvpAddonSkimFeeToMain, SetAuthority,
};
use crate::address::{
    derived_with_bump, found_program_address, lemma_found_derives, state_seeds, vault_seeds, ID,
};
use crate::error::{AccountError, Error, ErrorCode};
use crate::fees::{
    action_price, deposit_split, gacha_fee_units, ACTION_CONTRIBUTE, ACTION_GACHA,
    ACTION_GUILD_PROJECT_UPGRADE, ACTION_LAB,
};
use crate::instructions::{
    close_move, deposit_action_moves, deposit_pvp_session_addon_moves, initial_state,
    set_action_fee_result, set_action_fee_state, set_authority_result, set_authority_state,
    set_dev_fee_recipient_result, set_dev_fee_recipient_state, storing,
};
use crate::ledger::Holding;
use crate::pubkey::{default_key, Pubkey};
use crate::state::PoolState;
use crate::transfer::{
    above_reserve, deposit_moves, move_if_any, payout_balances, payout_result, skim_result, Move,
};

verus! {

/// An accepted deposit is split without loss: a twentieth, rounded down, is the protocol
/// fee, and all the rest goes to the vault.
pub proof fn law_deposit_split(lamports: u64)
    ensures
        deposit_split(lamports) matches Ok((vault, dev)) ==> {
            &&& vault + dev == lamports
            &&& dev == lamports / 20
            &&& 19 * dev <= vault < 19 * dev + 20
        },
{
}

/// A deposit is refused exactly where its product with the fee rate leaves 64 bits.
pub proof fn law_deposit_split_limit(lamports: u64)
    ensures
        deposit_split(lamports) is Ok <==> lamports <= 36_893_488_147_419_103,
        deposit_split(lamports) is Err ==> deposit_split(lamports) == Err::<(u64, u64), ErrorCode>(
            ErrorCode::MathOverflow,
        ),
{
}

/// A larger deposit makes neither share smaller.
pub proof fn law_deposit_split_monotone(smaller: u64, larger: u64)
    requires
        smaller <= larger,
    ensures
        deposit_split(larger) is Ok ==> deposit_split(smaller) is Ok,
        deposit_split(larger) matches Ok((vault, dev)) ==> {
            &&& deposit_split(smaller)->Ok_0.0 <= vault
            &&& deposit_split(smaller)->Ok_0.1 <= dev
        },
{
}

/// One action fee covers up to a hundred rolls, and each hundred begun costs one more.
pub proof fn law_gacha_fee_units(rolls: u16)
    requires
        1 <= rolls,
    ensures
        100 * (gacha_fee_units(rolls as int) - 1) < rolls <= 100 * gacha_fee_units(rolls as int),
{
}

/// Units are refused exactly outside 1..2000 rolls and 1..15 attempts, whatever the fee.
pub proof fn law_units_range(action_fee: u64, units: u16, lamports: u64)
    ensures
        action_price(action_fee, ACTION_GACHA, units, lamports) == Err::<u64, ErrorCode>(
            ErrorCode::BadGachaRolls,
        ) <==> !(1 <= units <= 2000),
        action_price(action_fee, ACTION_LAB, units, lamports) == Err::<u64, ErrorCode>(
            ErrorCode::BadAttempts,
        ) <==> !(1 <= units <= 15),
{
}

/// More rolls or attempts never cost less.
pub proof fn law_price_monotone(action_fee: u64, fewer: u16, more: u16, lamports: u64)
    requires
        1 <= fewer <= more,
    ensures
        action_price(action_fee, ACTION_GACHA, more, lamports) matches Ok(price) ==> {
            &&& action_price(action_fee, ACTION_GACHA, fewer, lamports) is Ok
            &&& action_price(action_fee, ACTION_GACHA, fewer, lamports)->Ok_0 <= price
        },
        action_price(action_fee, ACTION_LAB, more, lamports) matches Ok(price) ==> {
            &&& action_price(action_fee, ACTION_LAB, fewer, lamports) is Ok
            &&& action_price(action_fee, ACTION_LAB, fewer, lamports)->Ok_0 <= price
        },
{
    assert(action_fee * gacha_fee_units(fewer as int) <= action_fee * gacha_fee_units(more as int))
        by (nonlinear_arith)
        requires
            gacha_fee_units(fewer as int) <= gacha_fee_units(more as int),
    ;
    assert(action_fee * fewer <= action_fee * more) by (nonlinear_arith)
        requires
            fewer <= more,
    ;
    assert(0 <= action_fee * gacha_fee_units(fewer as int)) by (nonlinear_arith)
        requires
            0 <= gacha_fee_units(fewer as int),
    ;
    assert(0 <= action_fee * fewer) by (nonlinear_arith);
}

/// Under a fee above zero no action is free.
pub proof fn law_price_positive(action_fee: u64, action: u8, units: u16, lamports: u64)
    requires
        action_fee > 0,
    ensures
        action_price(action_fee, action, units, lamports) matches Ok(price) ==> price > 0,
{
    if units > 0 {
        assert(action_fee * gacha_fee_units(units as int) > 0) by (nonlinear_arith)
            requires
                action_fee > 0,
                gacha_fee_units(units as int) > 0,
        ;
        assert(action_fee * units > 0) by (nonlinear_arith)
            requires
                action_fee > 0,
                units > 0,
        ;
    }
}

/// An action is unknown exactly where it is none of the eight.
pub proof fn law_unknown_action(action_fee: u64, action: u8, units: u16, lamports: u64)
    ensures
        action_price(action_fee, action, units, lamports) == Err::<u64, ErrorCode>(
            ErrorCode::BadAction,
        ) <==> action > ACTION_GUILD_PROJECT_UPGRADE,
{
}

/// What is offered counts for a contribution alone.
pub proof fn law_offer_only_for_contribution(
    action_fee: u64,
    action: u8,
    units: u16,
    offered: u64,
    other: u64,
)
    requires
        action != ACTION_CONTRIBUTE,
    ensures
        action_price(action_fee, action, units, offered) == action_price(
            action_fee,
            action,
            units,
            other,
        ),
{
}

/// Lamports that a plan moves.
pub open spec fn lamports_moved(plan: Seq<Move>) -> int
    decreases plan.len(),
{
    if plan.len() == 0 {
        0
    } else {
        lamports_moved(plan.drop_last()) + plan.last().lamports
    }
}

/// The balances once a transfer has been carried out.
pub open spec fn after_move(balances: Map<Seq<u8>, int>, transfer: Move) -> Map<Seq<u8>, int> {
    let taken = balances.insert(transfer.from, balances[transfer.from] - transfer.lamports);
    taken.insert(transfer.to, taken[transfer.to] + transfer.lamports)
}

/// The balances once a plan has been carried out.
pub open spec fn after_moves(balances: Map<Seq<u8>, int>, plan: Seq<Move>) -> Map<Seq<u8>, int>
    decreases plan.len(),
{
    if plan.len() == 0 {
        balances
    } else {
        after_move(after_moves(balances, plan.drop_last()), plan.last())
    }
}

/// Sum of the balances of `keys`.
pub open spec fn sum_of(balances: Map<Seq<u8>, int>, keys: Seq<Seq<u8>>) -> int
    decreases keys.len(),
{
    if keys.len() == 0 {
        0
    } else {
        sum_of(balances, keys.drop_last()) + balances[keys.last()]
    }
}

proof fn lemma_sum_insert(
    balances: Map<Seq<u8>, int>,
    keys: Seq<Seq<u8>>,
    key: Seq<u8>,
    balance: int,
)
    requires
        keys.no_duplicates(),
    ensures
        sum_of(balances.insert(key, balance), keys) == sum_of(balances, keys) + (if keys.contains(
            key,
        ) {
            balance - balances[key]
        } else {
            0
        }),
    decreases keys.len(),
{
    if keys.len() > 0 {
        let rest = keys.drop_last();
        lemma_sum_insert(balances, rest, key, balance);
        if keys.last() == key {
            if rest.contains(key) {
                let i = rest.index_of(key);
                assert(keys[i] == keys[keys.len() - 1]);
            }
            assert(keys[keys.len() - 1] == key);
        } else if keys.contains(key) {
            let i = keys.index_of(key);
            assert(rest[i] == key);
        } else if rest.contains(key) {
            let i = rest.index_of(key);
            assert(keys[i] == key);
        }
    }
}

/// Carrying out a plan neither makes nor loses lamports among accounts that hold all that
/// it names.
pub proof fn law_moves_conserve(
    balances: Map<Seq<u8>, int>,
    plan: Seq<Move>,
    keys: Seq<Seq<u8>>,
)
    requires
        keys.no_duplicates(),
        forall|i: int|
            0 <= i < plan.len() ==> keys.contains((#[trigger] plan[i]).from) && keys.contains(
                plan[i].to,
            ),
    ensures
        sum_of(after_moves(balances, plan), keys) == sum_of(balances, keys),
    decreases plan.len(),
{
    if plan.len() > 0 {
        let rest = plan.drop_last();
        let last = plan[plan.len() - 1];
        assert forall|i: int| 0 <= i < rest.len() implies keys.contains((#[trigger] rest[i]).from)
            && keys.contains(rest[i].to) by {
            assert(rest[i] == plan[i]);
        }
        law_moves_conserve(balances, rest, keys);
        let before = after_moves(balances, rest);
        let taken = before.insert(last.from, before[last.from] - last.lamports);
        lemma_sum_insert(before, keys, last.from, before[last.from] - last.lamports);
        lemma_sum_insert(taken, keys, last.to, taken[last.to] + last.lamports);
    }
}

proof fn lemma_deposit_plan(
    balances: Map<Seq<u8>, int>,
    user: Seq<u8>,
    vault: Seq<u8>,
    dev_fee_recipient: Seq<u8>,
    lamports: u64,
)
    ensures
        deposit_moves(user, vault, dev_fee_recipient, lamports) matches Ok(plan) ==> {
            let (vault_share, dev_share) = deposit_split(lamports)->Ok_0;
            let first = if vault_share > 0 {
                after_move(balances, Move { from: user, to: vault, lamports: vault_share })
            } else {
                balances
            };
            let second = if dev_share > 0 {
                after_move(
                    first,
                    Move { from: user, to: dev_fee_recipient, lamports: dev_share },
                )
            } else {
                first
            };
            &&& after_moves(balances, plan) == second
            &&& lamports_moved(plan) == vault_share + dev_share
        },
{
    if let Ok(plan) = deposit_moves(user, vault, dev_fee_recipient, lamports) {
        let (vault_share, dev_share) = deposit_split(lamports)->Ok_0;
        let one = move_if_any(user, vault, vault_share);
        let two = move_if_any(user, dev_fee_recipient, dev_share);
        reveal_with_fuel(after_moves, 3);
        reveal_with_fuel(lamports_moved, 3);
        if dev_share > 0 {
            assert(plan.drop_last() =~= one);
            assert(plan.last() == two[0]);
        } else {
            assert(plan =~= one);
        }
        if vault_share > 0 {
            assert(one.drop_last() =~= Seq::<Move>::empty());
        }
    }
}

/// A deposit takes exactly its price from the player: nineteen twentieths go to the vault
/// and a twentieth to the protocol, as `deposit_split` rounds them. Nobody else's balance
/// changes.
pub proof fn law_deposit_pays(
    balances: Map<Seq<u8>, int>,
    user: Seq<u8>,
    vault: Seq<u8>,
    dev_fee_recipient: Seq<u8>,
    lamports: u64,
)
    requires
        user != vault,
        user != dev_fee_recipient,
        vault != dev_fee_recipient,
    ensures
        deposit_moves(user, vault, dev_fee_recipient, lamports) is Ok <==> deposit_split(
            lamports,
        ) is Ok,
        deposit_moves(user, vault, dev_fee_recipient, lamports) matches Ok(plan) ==> {
            let after = after_moves(balances, plan);
            &&& lamports_moved(plan) == lamports
            &&& after[user] == balances[user] - lamports
            &&& after[vault] == balances[vault] + deposit_split(lamports)->Ok_0.0
            &&& after[dev_fee_recipient] == balances[dev_fee_recipient] + deposit_split(
                lamports,
            )->Ok_0.1
            &&& forall|key: Seq<u8>|
                key != user && key != vault && key != dev_fee_recipient ==> #[trigger] after[key]
                    == balances[key]
        },
{
    lemma_deposit_plan(balances, user, vault, dev_fee_recipient, lamports);
    law_deposit_split(lamports);
}

/// An accepted main-pool payment is the player's own: every transfer comes from the player,
/// who signed, and goes to the pool's vault or to the recorded fee recipient. Together they
/// move the price.
pub proof fn law_deposit_action_recipients(
    ctx: DepositFlat,
    action: u8,
    units: u16,
    lamports: u64,
)
    ensures
        deposit_action_moves(ctx, action, units, lamports) matches Ok(plan) ==> {
            &&& ctx.user.is_signer
            &&& recorded_vault_address(ctx.pool_state.data) == Some(ctx.pool_vault.info.key@)
            &&& forall|i: int|
                0 <= i < plan.len() ==> (#[trigger] plan[i]).from == ctx.user.key@ && (plan[i].to
                    == ctx.pool_vault.info.key@ || plan[i].to
                    == ctx.pool_state.data.dev_fee_recipient@)
            &&& action_price(
                ctx.pool_state.data.action_fee_lamports,
                action,
                units,
                lamports,
            ) == Ok::<u64, ErrorCode>(lamports_moved(plan) as u64)
        },
{
    if let Ok(price) = action_price(
        ctx.pool_state.data.action_fee_lamports,
        action,
        units,
        lamports,
    ) {
        lemma_deposit_plan(
            Map::empty(),
            ctx.user.key@,
            ctx.pool_vault.info.key@,
            ctx.dev_fee_recipient.key@,
            price,
        );
        law_deposit_split(price);
    }
}

/// An accepted add-on payment goes to the vault of its own session and to the recorded fee
/// recipient, from the player, who signed. It moves what was offered.
pub proof fn law_deposit_addon_recipients(
    ctx: DepositPvpSessionAddon,
    session_key: Seq<u8>,
    lamports: u64,
)
    ensures
        deposit_pvp_session_addon_moves(ctx, session_key, lamports) matches Ok(plan) ==> {
            &&& ctx.user.is_signer
            &&& session_address(session_key) is Some
            &&& forall|i: int|
                0 <= i < plan.len() ==> (#[trigger] plan[i]).from == ctx.user.key@ && (plan[i].to
                    == session_address(session_key)->Some_0.0 || plan[i].to
                    == ctx.pool_state.data.dev_fee_recipient@)
            &&& lamports_moved(plan) == lamports
        },
{
    lemma_deposit_plan(
        Map::empty(),
        ctx.user.key@,
        ctx.pvp_addon_vault.info.key@,
        ctx.dev_fee_recipient.key@,
        lamports,
    );
    law_deposit_split(lamports);
}

/// A successful payment takes exactly what was asked from the vault and gives it to the
/// destination. It touches no other account, and nothing at all where vault and destination
/// are one.
pub proof fn law_payout_moves(
    balances: Map<Seq<u8>, Holding>,
    vault: Seq<u8>,
    dest: Seq<u8>,
    reserve: Option<u64>,
    lamports: u64,
)
    requires
        balances.dom().contains(vault),
        balances.dom().contains(dest),
    ensures
        payout_result(balances, vault, dest, reserve, lamports) is Ok ==> {
            let after = payout_balances(balances, vault, dest, reserve, lamports);
            &&& vault == dest ==> after == balances
            &&& vault != dest ==> {
                &&& after[vault].lamports == balances[vault].lamports - lamports
                &&& after[dest].lamports == balances[dest].lamports + lamports
            }
            &&& after.dom() == balances.dom()
            &&& forall|key: Seq<u8>| #[trigger]
                after[key].data_len == balances[key].data_len
            &&& forall|key: Seq<u8>|
                key != vault && key != dest ==> #[trigger] after[key] == balances[key]
        },
{
    if payout_result(balances, vault, dest, reserve, lamports) is Ok {
        let after = payout_balances(balances, vault, dest, reserve, lamports);
        assert(after.dom() =~= balances.dom());
        if vault == dest {
            assert(after =~= balances);
        }
    }
}

/// No payment, successful or not, brings a vault below the reserve that keeps it exempt from
/// rent. A successful one of a positive amount leaves at least that much.
pub proof fn law_payout_keeps_reserve(
    balances: Map<Seq<u8>, Holding>,
    vault: Seq<u8>,
    dest: Seq<u8>,
    reserve: u64,
    lamports: u64,
)
    ensures
        lamports > 0 && payout_result(balances, vault, dest, Some(reserve), lamports) is Ok
            ==> payout_balances(balances, vault, dest, Some(reserve), lamports)[vault].lamports
            >= reserve,
        balances[vault].lamports >= reserve ==> payout_balances(
            balances,
            vault,
            dest,
            Some(reserve),
            lamports,
        )[vault].lamports >= reserve,
{
}

/// A payment above what the vault holds beyond its reserve is refused and changes nothing.
pub proof fn law_overdraft_refused(
    balances: Map<Seq<u8>, Holding>,
    vault: Seq<u8>,
    dest: Seq<u8>,
    reserve: u64,
    lamports: u64,
)
    requires
        lamports > above_reserve(balances[vault].lamports, reserve),
    ensures
        payout_result(balances, vault, dest, Some(reserve), lamports) == Err::<(), Error>(
            Error::Program(ErrorCode::InsufficientVaultFunds),
        ),
        skim_result(balances, vault, dest, Some(reserve), lamports) == Err::<(), Error>(
            Error::Program(ErrorCode::PvpVaultInsufficientForFeeSkim),
        ),
        payout_balances(balances, vault, dest, Some(reserve), lamports) == balances,
{
}

/// After a fee skim and a payout, both successful, a session's vault can be closed exactly
/// where the two took all that lay above the reserve; more they cannot take. The authority
/// then gets back what they left.
pub proof fn law_skimmed_and_paid_session_closes(
    ctx: PvpAddonClose,
    balances: Map<Seq<u8>, Holding>,
    main_vault: Seq<u8>,
    winner: Seq<u8>,
    reserve: u64,
    session_key: Seq<u8>,
    fee: u64,
    prize: u64,
)
    requires
        ctx.violation(session_key) is None,
        ctx.pvp_addon_vault.info.key@ != main_vault,
        ctx.pvp_addon_vault.info.key@ != winner,
    ensures
        ({
            let vault = ctx.pvp_addon_vault.info.key@;
            let net = above_reserve(balances[vault].lamports, reserve);
            let skimmed = payout_balances(balances, vault, main_vault, Some(reserve), fee);
            let paid = payout_balances(skimmed, vault, winner, Some(reserve), prize);
            skim_result(balances, vault, main_vault, Some(reserve), fee) is Ok && payout_result(
                skimmed,
                vault,
                winner,
                Some(reserve),
                prize,
            ) is Ok ==> {
                &&& fee + prize <= net
                &&& close_move(ctx, paid, Some(reserve), session_key) is Ok <==> fee + prize == net
                &&& close_move(ctx, paid, Some(reserve), session_key) matches Ok(refund) ==> refund
                    == (Move {
                    from: vault,
                    to: ctx.authority.key@,
                    lamports: (balances[vault].lamports - fee - prize) as u64,
                })
            }
        }),
{
}

/// A payment out of a session's vault: a fee skimmed to the main vault, or a prize.
pub struct Payment {
    pub is_skim: bool,
    pub dest: Seq<u8>,
    pub lamports: u64,
}

/// How a payment out of `vault` ends.
pub open spec fn payment_result(
    balances: Map<Seq<u8>, Holding>,
    vault: Seq<u8>,
    reserve: u64,
    payment: Payment,
) -> Result<(), Error> {
    if payment.is_skim {
        skim_result(balances, vault, payment.dest, Some(reserve), payment.lamports)
    } else {
        payout_result(balances, vault, payment.dest, Some(reserve), payment.lamports)
    }
}

/// The balances after a sequence of payments out of `vault`.
pub open spec fn after_payments(
    balances: Map<Seq<u8>, Holding>,
    vault: Seq<u8>,
    reserve: u64,
    payments: Seq<Payment>,
) -> Map<Seq<u8>, Holding>
    decreases payments.len(),
{
    if payments.len() == 0 {
        balances
    } else {
        payout_balances(
            after_payments(balances, vault, reserve, payments.drop_last()),
            vault,
            payments.last().dest,
            Some(reserve),
            payments.last().lamports,
        )
    }
}

/// Each payment of the sequence succeeds, and goes to another account than the vault.
pub open spec fn all_paid(
    balances: Map<Seq<u8>, Holding>,
    vault: Seq<u8>,
    reserve: u64,
    payments: Seq<Payment>,
) -> bool
    decreases payments.len(),
{
    payments.len() > 0 ==> {
        let earlier = payments.drop_last();
        &&& all_paid(balances, vault, reserve, earlier)
        &&& payments.last().dest != vault
        &&& payment_result(
            after_payments(balances, vault, reserve, earlier),
            vault,
            reserve,
            payments.last(),
        ) is Ok
    }
}

/// Lamports that a sequence of payments takes.
pub open spec fn paid_out(payments: Seq<Payment>) -> int
    decreases payments.len(),
{
    if payments.len() == 0 {
        0
    } else {
        paid_out(payments.drop_last()) + payments.last().lamports
    }
}

/// Successful payments take from the vault their sum, and never more than lay above the
/// reserve. The vault's size, on which the reserve rests, stays.
pub proof fn law_payments_add_up(
    balances: Map<Seq<u8>, Holding>,
    vault: Seq<u8>,
    reserve: u64,
    payments: Seq<Payment>,
)
    requires
        all_paid(balances, vault, reserve, payments),
    ensures
        0 <= paid_out(payments) <= above_reserve(balances[vault].lamports, reserve),
        after_payments(balances, vault, reserve, payments)[vault] == (Holding {
            lamports: (balances[vault].lamports - paid_out(payments)) as u64,
            ..balances[vault]
        }),
    decreases payments.len(),
{
    if payments.len() > 0 {
        law_payments_add_up(balances, vault, reserve, payments.drop_last());
    }
}

/// After any successful fee skims and winner payouts, a session's vault can be closed
/// exactly where their sum is all that lay above the reserve. The authority then gets back
/// what they left; otherwise the vault is refused as not empty.
pub proof fn law_drained_session_closes(
    ctx: PvpAddonClose,
    balances: Map<Seq<u8>, Holding>,
    reserve: u64,
    session_key: Seq<u8>,
    payments: Seq<Payment>,
)
    requires
        ctx.violation(session_key) is None,
        all_paid(balances, ctx.pvp_addon_vault.info.key@, reserve, payments),
    ensures
        ({
            let vault = ctx.pvp_addon_vault.info.key@;
            let after = after_payments(balances, vault, reserve, payments);
            close_move(ctx, after, Some(reserve), session_key) == (if paid_out(payments)
                == above_reserve(balances[vault].lamports, reserve) {
                Ok(
                    Move {
                        from: vault,
                        to: ctx.authority.key@,
                        lamports: (balances[vault].lamports - paid_out(payments)) as u64,
                    },
                )
            } else {
                Err(Error::Program(ErrorCode::PvpVaultNotEmpty))
            })
        }),
{
    law_payments_add_up(balances, ctx.pvp_addon_vault.info.key@, reserve, payments);
}

/// A session whose vault holds anything above its reserve cannot be closed.
pub proof fn law_funded_session_stays_open(
    ctx: PvpAddonClose,
    balances: Map<Seq<u8>, Holding>,
    reserve: u64,
    session_key: Seq<u8>,
)
    requires
        balances[ctx.pvp_addon_vault.info.key@].lamports > reserve,
    ensures
        close_move(ctx, balances, Some(reserve), session_key) is Err,
{
}

/// Whatever moves lamports out of a vault, or changes the configuration of a pool that is
/// set up, was signed by the authority that the pool records.
pub proof fn law_authority_only(
    set: SetAuthority,
    send: AuthoritySend,
    skim: PvpAddonSkimFeeToMain,
    withdraw: PvpAddonAuthorityWithdraw,
    close: PvpAddonClose,
    session_key: Seq<u8>,
)
    ensures
        set.violation() is None ==> set.authority.is_signer && set.authority.key@
            == set.pool_state.data.authority@,
        send.violation() is None ==> send.authority.is_signer && send.authority.key@
            == send.pool_state.data.authority@,
        skim.violation(session_key) is None ==> skim.authority.is_signer && skim.authority.key@
            == skim.pool_state.data.authority@,
        withdraw.violation(session_key) is None ==> withdraw.authority.is_signer
            && withdraw.authority.key@ == withdraw.pool_state.data.authority@,
        close.violation(session_key) is None ==> close.authority.is_signer && close.authority.key@
            == close.pool_state.data.authority@,
{
}

/// Setting a pool up, a configuration change, a deposit or a payment out of the main vault
/// is let in exactly where each of these constraints on its accounts holds: who signed, what
/// is writable, and which addresses stand in which role. Apart from them, and outside this
/// model, are the creation of a new pool's accounts, which fails for an account in use, and
/// what the accounts store: that each account of the program is owned by it and of its own
/// kind, and that the system program is the real one.
pub proof fn law_main_pool_admission(
    created: Initialize,
    set: SetAuthority,
    deposit: DepositFlat,
    send: AuthoritySend,
)
    ensures
        created.violation() is None <==> {
            &&& created.authority.is_signer
            &&& created.authority.is_writable
            &&& created.pool_state.info.is_writable
            &&& created.pool_vault.info.is_writable
            &&& found_at(found_program_address(state_seeds(), ID@), created.pool_state.info)
            &&& found_at(found_program_address(vault_seeds(), ID@), created.pool_vault.info)
        },
        set.violation() is None <==> {
            &&& set.authority.is_signer
            &&& set.authority.is_writable
            &&& set.authority.key@ == set.pool_state.data.authority@
            &&& set.pool_state.info.is_writable
            &&& recorded_state_address(set.pool_state.data) == Some(set.pool_state.info.key@)
        },
        deposit.violation() is None <==> {
            &&& deposit.user.is_signer
            &&& deposit.user.is_writable
            &&& deposit.dev_fee_recipient.is_writable
            &&& deposit.dev_fee_recipient.key@ == deposit.pool_state.data.dev_fee_recipient@
            &&& deposit.pool_vault.info.is_writable
            &&& recorded_state_address(deposit.pool_state.data) == Some(
                deposit.pool_state.info.key@,
            )
            &&& recorded_vault_address(deposit.pool_state.data) == Some(
                deposit.pool_vault.info.key@,
            )
        },
        send.violation() is None <==> {
            &&& send.authority.is_signer
            &&& send.authority.is_writable
            &&& send.authority.key@ == send.pool_state.data.authority@
            &&& send.destination.is_writable
            &&& send.pool_vault.info.is_writable
            &&& recorded_state_address(send.pool_state.data) == Some(send.pool_state.info.key@)
            &&& recorded_vault_address(send.pool_state.data) == Some(send.pool_vault.info.key@)
        },
{
}

/// An instruction on a PvP session is let in exactly where each of these constraints on its
/// accounts holds: who signed, what is writable, and which addresses stand in which role.
/// Apart from them, and outside this model, is what the accounts store: that a session vault
/// which exists already has a vault's size, owner and rent, that each account of the program
/// is owned by it and of its own kind, and that the system program is the real one.
pub proof fn law_session_admission(
    addon: DepositPvpSessionAddon,
    skim: PvpAddonSkimFeeToMain,
    withdraw: PvpAddonAuthorityWithdraw,
    close: PvpAddonClose,
    session_key: Seq<u8>,
)
    ensures
        addon.violation(session_key) is None <==> {
            &&& addon.user.is_signer
            &&& addon.user.is_writable
            &&& addon.dev_fee_recipient.is_writable
            &&& addon.dev_fee_recipient.key@ == addon.pool_state.data.dev_fee_recipient@
            &&& addon.pvp_addon_vault.info.is_writable
            &&& recorded_state_address(addon.pool_state.data) == Some(addon.pool_state.info.key@)
            &&& found_at(session_address(session_key), addon.pvp_addon_vault.info)
        },
        skim.violation(session_key) is None <==> {
            &&& skim.authority.is_signer
            &&& skim.authority.is_writable
            &&& skim.authority.key@ == skim.pool_state.data.authority@
            &&& skim.pool_vault.info.is_writable
            &&& skim.pvp_addon_vault.info.is_writable
            &&& recorded_state_address(skim.pool_state.data) == Some(skim.pool_state.info.key@)
            &&& recorded_vault_address(skim.pool_state.data) == Some(skim.pool_vault.info.key@)
            &&& found_at(session_address(session_key), skim.pvp_addon_vault.info)
        },
        withdraw.violation(session_key) is None <==> {
            &&& withdraw.authority.is_signer
            &&& withdraw.authority.is_writable
            &&& withdraw.authority.key@ == withdraw.pool_state.data.authority@
            &&& withdraw.destination.is_writable
            &&& withdraw.pvp_addon_vault.info.is_writable
            &&& recorded_state_address(withdraw.pool_state.data) == Some(
                withdraw.pool_state.info.key@,
            )
            &&& found_at(session_address(session_key), withdraw.pvp_addon_vault.info)
        },
        close.violation(session_key) is None <==> {
            &&& close.authority.is_signer
            &&& close.authority.is_writable
            &&& close.authority.key@ == close.pool_state.data.authority@
            &&& close.pvp_addon_vault.info.is_writable
            &&& close.pvp_addon_vault.info.key@ != close.authority.key@
            &&& recorded_state_address(close.pool_state.data) == Some(close.pool_state.info.key@)
            &&& found_at(session_address(session_key), close.pvp_addon_vault.info)
        },
{
}

/// `info` stands at the address that was found.
pub open spec fn found_at(found: Option<(Seq<u8>, u8)>, info: AccountInfo) -> bool {
    found matches Some((key, bump)) && key == info.key@
}

/// Handing the pool over shuts the old authority out and lets the new one in: on the state
/// that an accepted hand-over leaves, the old authority is refused and the new one is not.
pub proof fn law_handover(before: SetAuthority, new_authority: Pubkey)
    requires
        before.violation() is None,
    ensures
        ({
            let after = SetAuthority {
                pool_state: storing(
                    before.pool_state,
                    PoolState { authority: new_authority, ..before.pool_state.data },
                ),
                ..before
            };
            let successor = SetAuthority {
                authority: AccountInfo { key: new_authority, ..before.authority },
                ..after
            };
            &&& successor.violation() is None
            &&& before.authority.key@ != new_authority@ ==> after.violation() == Some(
                AccountError::ConstraintAddress,
            )
        }),
{
}

/// A pool that was set up accepts its authority from then on: with the bump seeds that
/// `initialize` recorded, the state account and the vault are recognised again, under any
/// fee and recipient.
pub proof fn law_initialized_pool_is_usable(
    created: Initialize,
    set: SetAuthority,
    send: AuthoritySend,
    deposit: DepositFlat,
)
    requires
        derived_with_bump(
            created.pool_state.info.key@,
            state_seeds(),
            created.pool_state.data.bump_state,
        ),
        derived_with_bump(
            created.pool_vault.info.key@,
            vault_seeds(),
            created.pool_state.data.bump_vault,
        ),
        recognises(created, set.pool_state),
        recognises(created, send.pool_state),
        recognises(created, deposit.pool_state),
        send.pool_vault.info.key@ == created.pool_vault.info.key@,
        deposit.pool_vault.info.key@ == created.pool_vault.info.key@,
    ensures
        set.violation() is None <==> {
            &&& set.authority.is_signer
            &&& set.authority.is_writable
            &&& set.pool_state.info.is_writable
            &&& set.authority.key@ == set.pool_state.data.authority@
        },
        send.violation() is None <==> {
            &&& send.authority.is_signer
            &&& send.authority.is_writable
            &&& send.pool_vault.info.is_writable
            &&& send.destination.is_writable
            &&& send.authority.key@ == send.pool_state.data.authority@
        },
        deposit.violation() is None <==> {
            &&& deposit.user.is_signer
            &&& deposit.user.is_writable
            &&& deposit.pool_vault.info.is_writable
            &&& deposit.dev_fee_recipient.is_writable
            &&& deposit.dev_fee_recipient.key@ == deposit.pool_state.data.dev_fee_recipient@
        },
{
}

/// `account` is the state account that `created` set up, with the bump seeds that it
/// recorded then.
pub open spec fn recognises(created: Initialize, account: Account<PoolState>) -> bool {
    &&& account.info.key@ == created.pool_state.info.key@
    &&& account.data.bump_state == created.pool_state.data.bump_state
    &&& account.data.bump_vault == created.pool_state.data.bump_vault
}

/// An instruction sent to a pool that is set up, with the accounts that the configuration
/// changes name beside the state account's contents.
pub enum Step {
    SetAuthority { state_account: AccountInfo, authority: AccountInfo, new_authority: Pubkey },
    SetActionFee { state_account: AccountInfo, authority: AccountInfo, new_action_fee: u64 },
    SetDevFeeRecipient { state_account: AccountInfo, authority: AccountInfo, new_recipient: Pubkey },
    DepositAction,
    DepositPvpSessionAddon,
    PvpAddonSkimFeeToMain,
    PvpAddonAuthorityWithdraw,
    PvpAddonClose,
    AuthoritySend,
}

/// The accounts of a configuration change on `state`.
pub open spec fn configuration(
    state: PoolState,
    state_account: AccountInfo,
    authority: AccountInfo,
) -> SetAuthority {
    SetAuthority { pool_state: Account { info: state_account, data: state }, authority }
}

/// The state after one instruction, refused or not. Those that are no configuration change
/// only read it.
pub open spec fn after_step(state: PoolState, step: Step) -> PoolState {
    match step {
        Step::SetAuthority { state_account, authority, new_authority } => if set_authority_result(
            configuration(state, state_account, authority),
            new_authority,
        ) is Ok {
            set_authority_state(state, new_authority)
        } else {
            state
        },
        Step::SetActionFee { state_account, authority, new_action_fee } =>
            if set_action_fee_result(
            configuration(state, state_account, authority),
            new_action_fee,
        ) is Ok {
            set_action_fee_state(state, new_action_fee)
        } else {
            state
        },
        Step::SetDevFeeRecipient { state_account, authority, new_recipient } =>
            if set_dev_fee_recipient_result(
            configuration(state, state_account, authority),
            new_recipient,
        ) is Ok {
            set_dev_fee_recipient_state(state, new_recipient)
        } else {
            state
        },
        _ => state,
    }
}

/// The state after a sequence of instructions.
pub open spec fn after_steps(state: PoolState, steps: Seq<Step>) -> PoolState
    decreases steps.len(),
{
    if steps.len() == 0 {
        state
    } else {
        after_step(after_steps(state, steps.drop_last()), steps.last())
    }
}

/// Over any sequence of instructions a valid state stays valid, so that the pool is never
/// set up a second time. Bump seeds and reserved shares stay what they were, and each other
/// field changes through its own setter alone. Once set, the authority is never the default
/// address and the fee is never zero.
pub proof fn law_state_over_time(state: PoolState, steps: Seq<Step>)
    requires
        state.valid(),
    ensures
        after_steps(state, steps).valid(),
        after_steps(state, steps).bump_state == state.bump_state,
        after_steps(state, steps).bump_vault == state.bump_vault,
        after_steps(state, steps).reserved_season_bps == state.reserved_season_bps,
        after_steps(state, steps).reserved_daily_bps == state.reserved_daily_bps,
        (forall|i: int| 0 <= i < steps.len() ==> !(#[trigger] steps[i] is SetAuthority))
            ==> after_steps(state, steps).authority == state.authority,
        (forall|i: int| 0 <= i < steps.len() ==> !(#[trigger] steps[i] is SetActionFee))
            ==> after_steps(state, steps).action_fee_lamports == state.action_fee_lamports,
        (forall|i: int| 0 <= i < steps.len() ==> !(#[trigger] steps[i] is SetDevFeeRecipient))
            ==> after_steps(state, steps).dev_fee_recipient == state.dev_fee_recipient,
        state.authority@ != default_key() ==> after_steps(state, steps).authority@
            != default_key(),
        state.action_fee_lamports > 0 ==> after_steps(state, steps).action_fee_lamports > 0,
    decreases steps.len(),
{
    if steps.len() > 0 {
        let earlier = steps.drop_last();
        law_state_over_time(state, earlier);
        assert(forall|i: int| 0 <= i < earlier.len() ==> #[trigger] earlier[i] == steps[i]);
        assert(steps.last() == steps[steps.len() - 1]);
    }
}

/// What `initialize` recorded once and for all stays: whatever instructions follow, the
/// bump seeds and reserved shares are those it wrote, and the fee recipient is never the
/// default address.
pub proof fn law_initialized_state_over_time(
    ctx: Initialize,
    action_fee_lamports: u64,
    reserved_season_bps: u16,
    reserved_daily_bps: u16,
    dev_fee_recipient: Pubkey,
    steps: Seq<Step>,
)
    requires
        ctx.violation() is None,
        dev_fee_recipient@ != default_key(),
    ensures
        ({
            let first = initial_state(
                ctx,
                action_fee_lamports,
                reserved_season_bps,
                reserved_daily_bps,
                dev_fee_recipient,
            );
            let later = after_steps(first, steps);
            &&& later.valid()
            &&& later.reserved_season_bps == reserved_season_bps
            &&& later.reserved_daily_bps == reserved_daily_bps
            &&& derived_with_bump(ctx.pool_state.info.key@, state_seeds(), later.bump_state)
            &&& derived_with_bump(ctx.pool_vault.info.key@, vault_seeds(), later.bump_vault)
        }),
{
    let first = initial_state(
        ctx,
        action_fee_lamports,
        reserved_season_bps,
        reserved_daily_bps,
        dev_fee_recipient,
    );
    law_state_over_time(first, steps);
    lemma_found_derives(state_seeds());
    lemma_found_derives(vault_seeds());
}

} // verus!
