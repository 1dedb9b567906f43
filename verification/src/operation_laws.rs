//! What each operation does, case by case: which inputs are accepted, what each refusal
//! means, and what an accepted call leaves behind.

use vstd::prelude::*;

use crate::accounts::{
    Account, AccountInfo, DepositFlat, DepositPvpSessionAddon, Initialize, PvpAddonClose,
    SetAuthority,
};
use crate::address::{found_program_address, state_seeds, vault_seeds, ID};
use crate::error::{Error, ErrorCode};
use crate::fees::action_price;
use crate::instructions::{
    close_move, deposit_action_moves, deposit_pvp_session_addon_moves, initial_state,
    set_action_fee_result, set_action_fee_state, set_authority_result, set_authority_state,
    set_dev_fee_recipient_result, set_dev_fee_recipient_state, storing,
};
use crate::laws::{after_moves, after_step, configuration, law_deposit_split, Step};
use crate::ledger::Holding;
use crate::pubkey::{default_key, Pubkey};
use crate::rent::{rent_minimum_balance, Rent};
use crate::state::{PoolState, SubVaultMarker};
use crate::transfer::{
    above_reserve, deposit_moves, lost, moves, payout_balances, payout_result, rent_covers,
    reserve_of, skim_result, Move, Transfer,
};

verus! {

/// An address is its thirty-two bytes, no more and no less.
pub proof fn law_key_is_its_bytes(one: Pubkey, other: Pubkey)
    ensures
        one@ == one.bytes@,
        one@.len() == 32,
        one@ == other@ <==> forall|i: int|
            0 <= i < 32 ==> #[trigger] one.bytes@[i] == other.bytes@[i],
        one@ == other@ <==> one == other,
{
    if one@ == other@ {
        assert(one.bytes =~= other.bytes);
    }
    if forall|i: int| 0 <= i < 32 ==> #[trigger] one.bytes@[i] == other.bytes@[i] {
        assert(one@ =~= other@);
    }
}

/// `==` on addresses compares all their bytes.
pub proof fn law_keys_compare_by_bytes(one: Pubkey, other: Pubkey)
    ensures
        vstd::std_specs::cmp::PartialEqSpec::eq_spec(&one, &other) <==> one.bytes@ == other.bytes@,
{
}

/// The default address is the one whose bytes are all zero.
pub proof fn law_default_key(key: Pubkey)
    ensures
        key@ == default_key() <==> forall|i: int| 0 <= i < 32 ==> #[trigger] key.bytes@[i] == 0,
{
    if forall|i: int| 0 <= i < 32 ==> #[trigger] key.bytes@[i] == 0 {
        assert(key@ =~= default_key());
    }
}

/// A pool's state is valid exactly where some byte of its fee recipient is not zero.
pub proof fn law_valid_state(state: PoolState)
    ensures
        state.valid() <==> exists|i: int|
            0 <= i < 32 && #[trigger] state.dev_fee_recipient.bytes@[i] != 0,
{
    law_default_key(state.dev_fee_recipient);
}

/// The state account takes 86 bytes, a vault the eight of its discriminator.
pub proof fn law_account_sizes()
    ensures
        PoolState::SPACE == 86,
        SubVaultMarker::SPACE == 8,
{
}

/// Each refusal has its own text, and shows it alone.
pub proof fn law_refusal_texts(code: ErrorCode, text: Seq<char>)
    requires
        code.text() == text,
    ensures
        text == "attempts must be 1..15"@ <==> code == ErrorCode::BadAttempts,
        text == "gacha rolls must be 1..2000"@ <==> code == ErrorCode::BadGachaRolls,
        text == "math overflow"@ <==> code == ErrorCode::MathOverflow,
        text == "zero amount"@ <==> code == ErrorCode::ZeroAmount,
        text == "dev fee recipient cannot be default pubkey"@ <==> code
            == ErrorCode::BadDevRecipient,
        text == "authority cannot be default pubkey"@ <==> code == ErrorCode::BadAuthority,
        text == "pvp: vault must be empty (only rent) before close"@ <==> code
            == ErrorCode::PvpVaultNotEmpty,
        text == "pvp: PvP vault balance too low for fee skim"@ <==> code
            == ErrorCode::PvpVaultInsufficientForFeeSkim,
        text == "vault balance is too low"@ <==> code == ErrorCode::InsufficientVaultFunds,
        text == "unknown main-pool deposit action"@ <==> code == ErrorCode::BadAction,
{
    reveal_strlit("attempts must be 1..15");
    assert("attempts must be 1..15"@.len() == 22);
    reveal_strlit("gacha rolls must be 1..2000");
    assert("gacha rolls must be 1..2000"@.len() == 27);
    reveal_strlit("math overflow");
    assert("math overflow"@.len() == 13);
    reveal_strlit("zero amount");
    assert("zero amount"@.len() == 11);
    reveal_strlit("dev fee recipient cannot be default pubkey");
    assert("dev fee recipient cannot be default pubkey"@.len() == 42);
    reveal_strlit("authority cannot be default pubkey");
    assert("authority cannot be default pubkey"@.len() == 34);
    reveal_strlit("pvp: vault must be empty (only rent) before close");
    assert("pvp: vault must be empty (only rent) before close"@.len() == 49);
    reveal_strlit("pvp: PvP vault balance too low for fee skim");
    assert("pvp: PvP vault balance too low for fee skim"@.len() == 43);
    reveal_strlit("vault balance is too low");
    assert("vault balance is too low"@.len() == 24);
    reveal_strlit("unknown main-pool deposit action");
    assert("unknown main-pool deposit action"@.len() == 32);
}

/// Rolls cost one fee for each hundred begun: `hundreds` fees where the rolls end in that
/// hundred. They are refused only where that sum does not fit 64 bits.
pub proof fn law_gacha_price(action_fee: u64, rolls: u16, lamports: u64, hundreds: int)
    requires
        1 <= rolls <= 2000,
        100 * (hundreds - 1) < rolls <= 100 * hundreds,
    ensures
        match action_price(action_fee, 0, rolls, lamports) {
            Ok(price) => price == action_fee * hundreds,
            Err(code) => code == ErrorCode::MathOverflow && action_fee * hundreds > u64::MAX,
        },
{
    assert(0 <= action_fee * hundreds) by (nonlinear_arith)
        requires
            hundreds > 0,
    ;
}

/// A lab payment costs one fee for each of one to fifteen attempts, and is refused within
/// them only where that sum does not fit 64 bits.
pub proof fn law_lab_price(action_fee: u64, attempts: u16, lamports: u64)
    requires
        1 <= attempts <= 15,
    ensures
        match action_price(action_fee, 1, attempts, lamports) {
            Ok(price) => price == action_fee * attempts,
            Err(code) => code == ErrorCode::MathOverflow && action_fee * attempts > u64::MAX,
        },
{
    assert(0 <= action_fee * attempts) by (nonlinear_arith);
}

/// A contribution is worth what is offered; nothing is no contribution.
pub proof fn law_contribution_price(action_fee: u64, units: u16, offered: u64)
    ensures
        match action_price(action_fee, 2, units, offered) {
            Ok(price) => price == offered && offered > 0,
            Err(code) => code == ErrorCode::ZeroAmount && offered == 0,
        },
{
}

/// A mining rig slot costs half a SOL, an inventory bundle a tenth, and a burn or an upgrade
/// one action fee, whatever else is named. None of them is refused.
pub proof fn law_flat_prices(action_fee: u64, units: u16, lamports: u64)
    ensures
        action_price(action_fee, 3, units, lamports) == Ok::<u64, ErrorCode>(500_000_000),
        action_price(action_fee, 4, units, lamports) == Ok::<u64, ErrorCode>(100_000_000),
        action_price(action_fee, 5, units, lamports) == Ok::<u64, ErrorCode>(action_fee),
        action_price(action_fee, 6, units, lamports) == Ok::<u64, ErrorCode>(action_fee),
        action_price(action_fee, 7, units, lamports) == Ok::<u64, ErrorCode>(action_fee),
{
}

/// What is refused for its units or its number: rolls outside 1..2000, attempts outside
/// 1..15, and any action above the eighth.
pub proof fn law_refused_actions(action_fee: u64, action: u8, units: u16, lamports: u64)
    ensures
        action == 0 && (units == 0 || units > 2000) ==> action_price(
            action_fee,
            action,
            units,
            lamports,
        ) == Err::<u64, ErrorCode>(ErrorCode::BadGachaRolls),
        action == 1 && (units == 0 || units > 15) ==> action_price(
            action_fee,
            action,
            units,
            lamports,
        ) == Err::<u64, ErrorCode>(ErrorCode::BadAttempts),
        action > 7 ==> action_price(action_fee, action, units, lamports) == Err::<u64, ErrorCode>(
            ErrorCode::BadAction,
        ),
{
}

/// A planned transfer reads as it is written, and a plan keeps its transfers in order.
pub proof fn law_plan_reads_as_written(plan: Seq<Transfer>, i: int)
    requires
        0 <= i < plan.len(),
    ensures
        moves(plan).len() == plan.len(),
        moves(plan)[i].from == plan[i].from.bytes@,
        moves(plan)[i].to == plan[i].to.bytes@,
        moves(plan)[i].lamports == plan[i].lamports,
{
}

/// `plan` moves `lamports` from `user`: first all but a twentieth to `vault`, then the
/// twentieth, rounded down, to `dev_fee_recipient`. A share of nothing is not moved.
pub open spec fn splits_payment(
    plan: Seq<Move>,
    user: Seq<u8>,
    vault: Seq<u8>,
    dev_fee_recipient: Seq<u8>,
    lamports: int,
) -> bool {
    &&& lamports == 0 ==> plan.len() == 0
    &&& 1 <= lamports < 20 ==> plan.len() == 1
    &&& 20 <= lamports ==> plan.len() == 2
    &&& 1 <= lamports ==> {
        &&& plan[0].from == user
        &&& plan[0].to == vault
        &&& plan[0].lamports == lamports - lamports / 20
    }
    &&& 20 <= lamports ==> {
        &&& plan[1].from == user
        &&& plan[1].to == dev_fee_recipient
        &&& plan[1].lamports == lamports / 20
    }
}

/// A deposit of up to 36 893 488 147 419 103 lamports is planned as the two shares, the
/// vault's first; a larger one is refused as too large.
pub proof fn law_deposit_plan(
    user: Seq<u8>,
    vault: Seq<u8>,
    dev_fee_recipient: Seq<u8>,
    lamports: u64,
)
    ensures
        match deposit_moves(user, vault, dev_fee_recipient, lamports) {
            Ok(plan) => lamports <= 36_893_488_147_419_103 && splits_payment(
                plan,
                user,
                vault,
                dev_fee_recipient,
                lamports as int,
            ),
            Err(code) => lamports > 36_893_488_147_419_103 && code == ErrorCode::MathOverflow,
        },
{
    law_deposit_split(lamports);
}

/// An add-on payment on accepted accounts is planned from the player to the session's vault
/// and the recorded fee recipient, in the two shares of what was offered. It is refused
/// exactly where the accounts are, where nothing is offered, or where it is too large.
pub proof fn law_addon_plan(ctx: DepositPvpSessionAddon, session_key: Seq<u8>, lamports: u64)
    ensures
        match deposit_pvp_session_addon_moves(ctx, session_key, lamports) {
            Ok(plan) => {
                &&& ctx.violation(session_key) is None
                &&& 0 < lamports <= 36_893_488_147_419_103
                &&& splits_payment(
                    plan,
                    ctx.user.key.bytes@,
                    ctx.pvp_addon_vault.info.key.bytes@,
                    ctx.pool_state.data.dev_fee_recipient.bytes@,
                    lamports as int,
                )
            },
            Err(Error::Account(error)) => ctx.violation(session_key) == Some(error),
            Err(Error::Program(code)) => {
                &&& ctx.violation(session_key) is None
                &&& lamports == 0 && code == ErrorCode::ZeroAmount || lamports
                    > 36_893_488_147_419_103 && code == ErrorCode::MathOverflow
            },
            Err(Error::RentUnavailable) => false,
        },
{
    law_deposit_split(lamports);
}

/// Carrying out an accepted add-on payment costs the player exactly what was offered, raises
/// the session's vault by all but a twentieth of it and the recorded fee recipient by the
/// twentieth, and touches nobody else.
pub proof fn law_addon_pays(
    balances: Map<Seq<u8>, int>,
    ctx: DepositPvpSessionAddon,
    session_key: Seq<u8>,
    lamports: u64,
)
    requires
        ctx.user.key@ != ctx.pvp_addon_vault.info.key@,
        ctx.user.key@ != ctx.pool_state.data.dev_fee_recipient@,
        ctx.pvp_addon_vault.info.key@ != ctx.pool_state.data.dev_fee_recipient@,
    ensures
        deposit_pvp_session_addon_moves(ctx, session_key, lamports) matches Ok(plan) ==> {
            let user = ctx.user.key@;
            let vault = ctx.pvp_addon_vault.info.key@;
            let recipient = ctx.pool_state.data.dev_fee_recipient@;
            let after = after_moves(balances, plan);
            &&& after[user] == balances[user] - lamports
            &&& after[vault] == balances[vault] + lamports - lamports / 20
            &&& after[recipient] == balances[recipient] + lamports / 20
            &&& forall|key: Seq<u8>|
                key != user && key != vault && key != recipient ==> #[trigger] after[key]
                    == balances[key]
        },
{
    law_addon_plan(ctx, session_key, lamports);
    law_split_payment_pays(
        balances,
        ctx.user.key@,
        ctx.pvp_addon_vault.info.key@,
        ctx.pool_state.data.dev_fee_recipient@,
        lamports as int,
        deposit_pvp_session_addon_moves(ctx, session_key, lamports)->Ok_0,
    );
}

/// Carrying out a plan that splits a payment costs the player the payment, raises the vault
/// by all but a twentieth of it and the fee recipient by the twentieth, and touches nobody
/// else.
pub proof fn law_split_payment_pays(
    balances: Map<Seq<u8>, int>,
    user: Seq<u8>,
    vault: Seq<u8>,
    recipient: Seq<u8>,
    lamports: int,
    plan: Seq<Move>,
)
    requires
        user != vault,
        user != recipient,
        vault != recipient,
    ensures
        0 <= lamports && splits_payment(plan, user, vault, recipient, lamports) ==> {
            let after = after_moves(balances, plan);
            &&& after[user] == balances[user] - lamports
            &&& after[vault] == balances[vault] + lamports - lamports / 20
            &&& after[recipient] == balances[recipient] + lamports / 20
            &&& forall|key: Seq<u8>|
                key != user && key != vault && key != recipient ==> #[trigger] after[key]
                    == balances[key]
        },
{
    reveal_with_fuel(after_moves, 3);
    if plan.len() == 2 {
        assert(plan.drop_last().last() == plan[0]);
        assert(plan.last() == plan[1]);
    }
}

/// A main-pool payment on accepted accounts is planned from the player to the main vault and
/// the recorded fee recipient, in the two shares of the action's price. It is refused
/// exactly where the accounts are, where the action has no price, or where that is too large.
pub proof fn law_action_plan(ctx: DepositFlat, action: u8, units: u16, lamports: u64)
    ensures
        ({
            let price = action_price(
                ctx.pool_state.data.action_fee_lamports,
                action,
                units,
                lamports,
            );
            match deposit_action_moves(ctx, action, units, lamports) {
                Ok(plan) => {
                    &&& ctx.violation() is None
                    &&& price is Ok
                    &&& price->Ok_0 <= 36_893_488_147_419_103
                    &&& splits_payment(
                        plan,
                        ctx.user.key.bytes@,
                        ctx.pool_vault.info.key.bytes@,
                        ctx.pool_state.data.dev_fee_recipient.bytes@,
                        price->Ok_0 as int,
                    )
                },
                Err(Error::Account(error)) => ctx.violation() == Some(error),
                Err(Error::Program(code)) => {
                    &&& ctx.violation() is None
                    &&& match price {
                        Ok(asked) => asked > 36_893_488_147_419_103 && code
                            == ErrorCode::MathOverflow,
                        Err(refusal) => code == refusal,
                    }
                },
                Err(Error::RentUnavailable) => false,
            }
        }),
{
    if let Ok(price) = action_price(
        ctx.pool_state.data.action_fee_lamports,
        action,
        units,
        lamports,
    ) {
        law_deposit_split(price);
    }
}

/// Carrying out an accepted main-pool payment costs the player exactly the action's price,
/// raises the main vault by all but a twentieth of it and the recorded fee recipient by the
/// twentieth, and touches nobody else.
pub proof fn law_action_pays(
    balances: Map<Seq<u8>, int>,
    ctx: DepositFlat,
    action: u8,
    units: u16,
    lamports: u64,
)
    requires
        ctx.user.key@ != ctx.pool_vault.info.key@,
        ctx.user.key@ != ctx.pool_state.data.dev_fee_recipient@,
        ctx.pool_vault.info.key@ != ctx.pool_state.data.dev_fee_recipient@,
    ensures
        deposit_action_moves(ctx, action, units, lamports) matches Ok(plan) ==> {
            let user = ctx.user.key@;
            let vault = ctx.pool_vault.info.key@;
            let recipient = ctx.pool_state.data.dev_fee_recipient@;
            let after = after_moves(balances, plan);
            let price = action_price(
                ctx.pool_state.data.action_fee_lamports,
                action,
                units,
                lamports,
            )->Ok_0;
            &&& after[user] == balances[user] - price
            &&& after[vault] == balances[vault] + price - price / 20
            &&& after[recipient] == balances[recipient] + price / 20
            &&& forall|key: Seq<u8>|
                key != user && key != vault && key != recipient ==> #[trigger] after[key]
                    == balances[key]
        },
{
    law_action_plan(ctx, action, units, lamports);
    law_split_payment_pays(
        balances,
        ctx.user.key@,
        ctx.pool_vault.info.key@,
        ctx.pool_state.data.dev_fee_recipient@,
        action_price(ctx.pool_state.data.action_fee_lamports, action, units, lamports)->Ok_0 as int,
        deposit_action_moves(ctx, action, units, lamports)->Ok_0,
    );
}

/// What lies above a reserve: the rest where there is one, nothing otherwise.
pub proof fn law_net_above_reserve(lamports: u64, reserve: u64)
    ensures
        lamports >= reserve ==> above_reserve(lamports, reserve) + reserve == lamports,
        lamports <= reserve ==> above_reserve(lamports, reserve) == 0,
{
}

/// The reserve of an account is the rent minimum for the size of its data, known exactly
/// where the rent is. It can be computed exactly where the yearly rent fits 64 bits.
pub proof fn law_reserve(
    balances: Map<Seq<u8>, Holding>,
    key: Seq<u8>,
    rent: Rent,
)
    ensures
        reserve_of(balances, key, None) is None,
        reserve_of(balances, key, Some(rent)) == Some(
            rent_minimum_balance(
                rent.lamports_per_byte_year,
                rent.exemption_threshold@,
                rent.burn_percent,
                balances[key].data_len,
            ),
        ),
        rent_covers(None, balances, key),
        rent_covers(Some(rent), balances, key) <==> {
            &&& 128 + balances[key].data_len <= u64::MAX
            &&& (128 + balances[key].data_len) * rent.lamports_per_byte_year <= u64::MAX
        },
{
}

/// What the rent asks of an account is the rent minimum for its size, and can be computed
/// exactly where the yearly rent fits 64 bits.
pub proof fn law_rent_minimum(rent: Rent, data_len: usize)
    ensures
        rent.minimum(data_len) == rent_minimum_balance(
            rent.lamports_per_byte_year,
            rent.exemption_threshold@,
            rent.burn_percent,
            data_len,
        ),
        rent.covers(data_len) <==> {
            &&& 128 + data_len <= u64::MAX
            &&& (128 + data_len) * rent.lamports_per_byte_year <= u64::MAX
        },
{
}

/// A payment succeeds exactly where the vault covers it above the reserve and it fits the
/// destination; paying nothing always succeeds. It is refused for want of funds exactly
/// where the vault does not cover it, and as too large exactly where it is covered and does
/// not fit. Without the rent there is no payment.
pub proof fn law_payout_cases(
    balances: Map<Seq<u8>, Holding>,
    vault: Seq<u8>,
    dest: Seq<u8>,
    reserve: u64,
    lamports: u64,
)
    ensures
        ({
            let covered = lamports == 0 || lamports + reserve <= balances[vault].lamports;
            let fits = vault == dest || balances[dest].lamports + lamports <= u64::MAX;
            let result = payout_result(balances, vault, dest, Some(reserve), lamports);
            &&& result is Ok <==> covered && fits
            &&& result == Err::<(), Error>(Error::Program(ErrorCode::InsufficientVaultFunds))
                <==> !covered
            &&& result == Err::<(), Error>(Error::Program(ErrorCode::MathOverflow)) <==> covered
                && !fits
        }),
        payout_result(balances, vault, dest, None, lamports) == Err::<(), Error>(
            Error::RentUnavailable,
        ),
{
}

/// What a payment leaves. One that succeeds moves the lamports from the vault to the
/// destination. One that would overflow the destination has debited the vault. Any other
/// refusal changes nothing. No account appears or goes, and no size changes.
pub proof fn law_payout_effects(
    balances: Map<Seq<u8>, Holding>,
    vault: Seq<u8>,
    dest: Seq<u8>,
    reserve: u64,
    lamports: u64,
    key: Seq<u8>,
)
    requires
        balances.dom().contains(vault),
        balances.dom().contains(dest),
    ensures
        ({
            let covered = lamports == 0 || lamports + reserve <= balances[vault].lamports;
            let fits = vault == dest || balances[dest].lamports + lamports <= u64::MAX;
            let after = payout_balances(balances, vault, dest, Some(reserve), lamports);
            &&& after.dom() == balances.dom()
            &&& after[key].data_len == balances[key].data_len
            &&& after[key].lamports == balances[key].lamports - (if covered && key == vault {
                lamports as int
            } else {
                0
            }) + (if covered && fits && key == dest {
                lamports as int
            } else {
                0
            })
        }),
        payout_balances(balances, vault, dest, None, lamports) == balances,
{
    assert(payout_balances(balances, vault, dest, Some(reserve), lamports).dom()
        =~= balances.dom());
}

/// Lamports are in no account only after a payment that would overflow its destination.
pub proof fn law_lost(result: Result<(), Error>, lamports: u64)
    ensures
        result is Ok ==> lost(result, lamports) == 0,
        result matches Err(error) ==> lost(result, lamports) == (if error == Error::Program(
            ErrorCode::MathOverflow,
        ) {
            lamports as int
        } else {
            0
        }),
{
}

/// A skim is refused for want of funds exactly where the session's vault does not cover it
/// above the reserve, and then changes nothing. It succeeds exactly where it is covered and
/// fits the main vault, however much that holds, and is too large where it does not fit.
pub proof fn law_skim_cases(
    balances: Map<Seq<u8>, Holding>,
    vault: Seq<u8>,
    main_vault: Seq<u8>,
    reserve: u64,
    lamports: u64,
)
    ensures
        ({
            let covered = lamports == 0 || lamports + reserve <= balances[vault].lamports;
            let fits = vault == main_vault || balances[main_vault].lamports + lamports <= u64::MAX;
            let result = skim_result(balances, vault, main_vault, Some(reserve), lamports);
            &&& result is Ok <==> covered && fits
            &&& result == Err::<(), Error>(
                Error::Program(ErrorCode::PvpVaultInsufficientForFeeSkim),
            ) <==> !covered
            &&& result == Err::<(), Error>(Error::Program(ErrorCode::MathOverflow)) <==> covered
                && !fits
            &&& !covered ==> payout_balances(
                balances,
                vault,
                main_vault,
                Some(reserve),
                lamports,
            ) == balances
        }),
        skim_result(balances, vault, main_vault, None, lamports) == Err::<(), Error>(
            Error::RentUnavailable,
        ),
{
}

/// A session's vault on accepted accounts is given up exactly where it holds no more than its
/// reserve, and all it holds then goes to the authority. Otherwise it is not empty.
pub proof fn law_close_cases(
    ctx: PvpAddonClose,
    balances: Map<Seq<u8>, Holding>,
    reserve: u64,
    session_key: Seq<u8>,
)
    ensures
        ({
            let held = balances[ctx.pvp_addon_vault.info.key.bytes@].lamports;
            match close_move(ctx, balances, Some(reserve), session_key) {
                Ok(refund) => {
                    &&& ctx.violation(session_key) is None
                    &&& held <= reserve
                    &&& refund.from == ctx.pvp_addon_vault.info.key.bytes@
                    &&& refund.to == ctx.authority.key.bytes@
                    &&& refund.lamports == held
                },
                Err(Error::Account(error)) => ctx.violation(session_key) == Some(error),
                Err(Error::Program(code)) => {
                    &&& ctx.violation(session_key) is None
                    &&& held > reserve
                    &&& code == ErrorCode::PvpVaultNotEmpty
                },
                Err(Error::RentUnavailable) => false,
            }
        }),
        ctx.violation(session_key) is None ==> close_move(ctx, balances, None, session_key)
            == Err::<Move, Error>(Error::RentUnavailable),
        ctx.violation(session_key) matches Some(error) ==> close_move(
            ctx,
            balances,
            None,
            session_key,
        ) == Err::<Move, Error>(Error::Account(error)),
{
}

/// A new pool records each argument in its own field, the signer as its authority, and the
/// bump seeds that its two accounts were found with.
pub proof fn law_initial_state(
    ctx: Initialize,
    action_fee_lamports: u64,
    reserved_season_bps: u16,
    reserved_daily_bps: u16,
    dev_fee_recipient: Pubkey,
)
    requires
        ctx.violation() is None,
    ensures
        ({
            let state = initial_state(
                ctx,
                action_fee_lamports,
                reserved_season_bps,
                reserved_daily_bps,
                dev_fee_recipient,
            );
            &&& state.authority == ctx.authority.key
            &&& state.action_fee_lamports == action_fee_lamports
            &&& state.reserved_season_bps == reserved_season_bps
            &&& state.reserved_daily_bps == reserved_daily_bps
            &&& state.dev_fee_recipient == dev_fee_recipient
            &&& found_program_address(state_seeds(), ID@) == Some(
                (ctx.pool_state.info.key.bytes@, state.bump_state),
            )
            &&& found_program_address(vault_seeds(), ID@) == Some(
                (ctx.pool_vault.info.key.bytes@, state.bump_vault),
            )
        }),
{
}

/// An account that stores something else is still the same account.
pub proof fn law_storing(account: Account<PoolState>, data: PoolState)
    ensures
        storing(account, data).info == account.info,
        storing(account, data).data == data,
{
}

/// Each configuration change is accepted exactly where its accounts are and the new value is
/// not empty: an address that is not all zeros, a fee above zero.
pub proof fn law_configuration_cases(ctx: SetAuthority, key: Pubkey, fee: u64)
    ensures
        ctx.violation() matches Some(error) ==> {
            &&& set_authority_result(ctx, key) == Err::<(), Error>(Error::Account(error))
            &&& set_action_fee_result(ctx, fee) == Err::<(), Error>(Error::Account(error))
            &&& set_dev_fee_recipient_result(ctx, key) == Err::<(), Error>(Error::Account(error))
        },
        ctx.violation() is None && (forall|i: int|
            0 <= i < 32 ==> #[trigger] key.bytes@[i] == 0) ==> {
            &&& set_authority_result(ctx, key) == Err::<(), Error>(
                Error::Program(ErrorCode::BadAuthority),
            )
            &&& set_dev_fee_recipient_result(ctx, key) == Err::<(), Error>(
                Error::Program(ErrorCode::BadDevRecipient),
            )
        },
        ctx.violation() is None && (exists|i: int|
            0 <= i < 32 && #[trigger] key.bytes@[i] != 0) ==> {
            &&& set_authority_result(ctx, key) is Ok
            &&& set_dev_fee_recipient_result(ctx, key) is Ok
        },
        ctx.violation() is None && fee == 0 ==> set_action_fee_result(ctx, fee) == Err::<
            (),
            Error,
        >(Error::Program(ErrorCode::ZeroAmount)),
        ctx.violation() is None && fee > 0 ==> set_action_fee_result(ctx, fee) is Ok,
{
    law_default_key(key);
}

/// The state after a change holds the new value in the field that was changed, whatever
/// stood there before, and every other field as it was.
pub proof fn law_configuration_effects(state: PoolState, key: Pubkey, fee: u64)
    ensures
        ({
            let after = set_authority_state(state, key);
            &&& after.authority == key
            &&& after.action_fee_lamports == state.action_fee_lamports
            &&& after.reserved_season_bps == state.reserved_season_bps
            &&& after.reserved_daily_bps == state.reserved_daily_bps
            &&& after.bump_state == state.bump_state
            &&& after.bump_vault == state.bump_vault
            &&& after.dev_fee_recipient == state.dev_fee_recipient
        }),
        ({
            let after = set_action_fee_state(state, fee);
            &&& after.authority == state.authority
            &&& after.action_fee_lamports == fee
            &&& after.reserved_season_bps == state.reserved_season_bps
            &&& after.reserved_daily_bps == state.reserved_daily_bps
            &&& after.bump_state == state.bump_state
            &&& after.bump_vault == state.bump_vault
            &&& after.dev_fee_recipient == state.dev_fee_recipient
        }),
        ({
            let after = set_dev_fee_recipient_state(state, key);
            &&& after.authority == state.authority
            &&& after.action_fee_lamports == state.action_fee_lamports
            &&& after.reserved_season_bps == state.reserved_season_bps
            &&& after.reserved_daily_bps == state.reserved_daily_bps
            &&& after.bump_state == state.bump_state
            &&& after.bump_vault == state.bump_vault
            &&& after.dev_fee_recipient == key
        }),
{
}

/// After an accepted change the pool has the value that was asked for, and a second accepted
/// change of the same kind leaves what it would have left alone: the last one counts. A
/// refused change leaves the state as it was.
pub proof fn law_last_change_counts(
    state: PoolState,
    state_account: AccountInfo,
    authority: AccountInfo,
    one: u64,
    other: u64,
    recipient: Pubkey,
    successor: Pubkey,
)
    ensures
        ({
            let accepted = configuration(state, state_account, authority).violation() is None;
            let first = Step::SetActionFee { state_account, authority, new_action_fee: one };
            let second = Step::SetActionFee { state_account, authority, new_action_fee: other };
            &&& accepted && one > 0 ==> after_step(state, first).action_fee_lamports == one
            &&& accepted && one > 0 && other > 0 ==> after_step(after_step(state, first), second)
                == after_step(state, second)
            &&& !accepted || one == 0 ==> after_step(state, first) == state
        }),
        ({
            let ctx = configuration(state, state_account, authority);
            let change = Step::SetDevFeeRecipient {
                state_account,
                authority,
                new_recipient: recipient,
            };
            &&& set_dev_fee_recipient_result(ctx, recipient) is Ok ==> after_step(
                state,
                change,
            ).dev_fee_recipient == recipient
            &&& set_dev_fee_recipient_result(ctx, recipient) is Err ==> after_step(state, change)
                == state
        }),
        ({
            let ctx = configuration(state, state_account, authority);
            let change = Step::SetAuthority {
                state_account,
                authority,
                new_authority: successor,
            };
            &&& set_authority_result(ctx, successor) is Ok ==> after_step(state, change).authority
                == successor
            &&& set_authority_result(ctx, successor) is Err ==> after_step(state, change) == state
        }),
{
}

} // verus!
