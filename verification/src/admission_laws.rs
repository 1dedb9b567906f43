//! Which accounts each instruction lets in, what each refusal of them means, and where the
//! program's own accounts stand.

use vstd::prelude::*;

use crate::accounts::{
    recorded_state_address, recorded_vault_address, session_address, AuthoritySend, DepositFlat,
    DepositPvpSessionAddon, Initialize, PvpAddonAuthorityWithdraw, PvpAddonClose,
    PvpAddonSkimFeeToMain, SetAuthority,
};
use crate::address::{
    address_view, created_program_address, derived_with_bump, first_address_from,
    found_program_address, found_view, pvp_addon_seeds, state_seeds, vault_seeds, ID,
};
use crate::error::AccountError;
use crate::pubkey::Pubkey;
use crate::state::PoolState;

verus! {

/// The seeds are the words they are named after, in bytes: `mirl` with `state`, with `vault`,
/// and with `pvpaddon` and the session's own key.
pub proof fn law_seeds(session_key: Seq<u8>)
    ensures
        state_seeds() == seq![seq![109u8, 105, 114, 108], seq![115u8, 116, 97, 116, 101]],
        vault_seeds() == seq![seq![109u8, 105, 114, 108], seq![118u8, 97, 117, 108, 116]],
        pvp_addon_seeds(session_key) == seq![
            seq![109u8, 105, 114, 108],
            seq![112u8, 118, 112, 97, 100, 100, 111, 110],
            session_key,
        ],
{
    assert(state_seeds() =~~= seq![seq![109u8, 105, 114, 108], seq![115u8, 116, 97, 116, 101]]);
    assert(vault_seeds() =~~= seq![seq![109u8, 105, 114, 108], seq![118u8, 97, 117, 108, 116]]);
    assert(pvp_addon_seeds(session_key) =~~= seq![
        seq![109u8, 105, 114, 108],
        seq![112u8, 118, 112, 97, 100, 100, 111, 110],
        session_key,
    ]);
}

/// The program's own address, byte by byte.
pub proof fn law_program_id()
    ensures
        ID@ == seq![
            34u8, 122, 39, 24, 176, 228, 142, 144, 240, 235, 251, 213, 178, 88, 121, 169, 239, 142,
            197, 9, 242, 64, 193, 188, 143, 51, 18, 26, 109, 127, 104, 197,
        ],
{
    assert(ID@ =~= seq![
        34u8, 122, 39, 24, 176, 228, 142, 144, 240, 235, 251, 213, 178, 88, 121, 169, 239, 142,
        197, 9, 242, 64, 193, 188, 143, 51, 18, 26, 109, 127, 104, 197,
    ]);
}

/// A recorded address is what the program's seeds, followed by the recorded bump seed, give;
/// a session's is what is found for its seeds.
pub proof fn law_recorded_addresses(
    state: PoolState,
    session_key: Seq<u8>,
    key: Seq<u8>,
    seeds: Seq<Seq<u8>>,
    bump: u8,
)
    ensures
        recorded_state_address(state) == created_program_address(
            seq![
                seq![109u8, 105, 114, 108],
                seq![115u8, 116, 97, 116, 101],
                seq![state.bump_state],
            ],
            ID@,
        ),
        recorded_vault_address(state) == created_program_address(
            seq![
                seq![109u8, 105, 114, 108],
                seq![118u8, 97, 117, 108, 116],
                seq![state.bump_vault],
            ],
            ID@,
        ),
        session_address(session_key) == found_program_address(
            seq![
                seq![109u8, 105, 114, 108],
                seq![112u8, 118, 112, 97, 100, 100, 111, 110],
                session_key,
            ],
            ID@,
        ),
        derived_with_bump(key, seeds, bump) <==> created_program_address(
            seeds.push(seq![bump]),
            ID@,
        ) == Some(key),
{
    law_seeds(session_key);
    assert(state_seeds().push(seq![state.bump_state]) =~= seq![
        seq![109u8, 105, 114, 108],
        seq![115u8, 116, 97, 116, 101],
        seq![state.bump_state],
    ]);
    assert(vault_seeds().push(seq![state.bump_vault]) =~= seq![
        seq![109u8, 105, 114, 108],
        seq![118u8, 97, 117, 108, 116],
        seq![state.bump_vault],
    ]);
}

/// A derived address reads as its bytes.
pub proof fn law_derived_reads_as_bytes(key: Pubkey, bump: u8)
    ensures
        address_view(Some(key)) == Some(key.bytes@),
        address_view(None) is None,
        found_view(Some((key, bump))) == Some((key.bytes@, bump)),
        found_view(None) is None,
{
}

proof fn lemma_first_address_is_highest(seeds: Seq<Seq<u8>>, program_id: Seq<u8>, bump: u8)
    ensures
        match first_address_from(seeds, program_id, bump) {
            Some((key, found)) => {
                &&& 1 <= found <= bump
                &&& created_program_address(seeds.push(seq![found]), program_id) == Some(key)
                &&& forall|higher: u8|
                    found < higher <= bump ==> #[trigger] created_program_address(
                        seeds.push(seq![higher]),
                        program_id,
                    ) is None
            },
            None => forall|tried: u8|
                1 <= tried <= bump ==> #[trigger] created_program_address(
                    seeds.push(seq![tried]),
                    program_id,
                ) is None,
        },
    decreases bump,
{
    if bump > 0 {
        lemma_first_address_is_highest(seeds, program_id, (bump - 1) as u8);
    }
}

/// The bump seed found for seeds is the highest that gives an address, and the address is the
/// one it gives. Nothing is found exactly where no bump seed from 1 up gives one.
pub proof fn law_found_is_highest(seeds: Seq<Seq<u8>>, program_id: Seq<u8>)
    ensures
        match found_program_address(seeds, program_id) {
            Some((key, found)) => {
                &&& 1 <= found
                &&& created_program_address(seeds.push(seq![found]), program_id) == Some(key)
                &&& forall|higher: u8|
                    found < higher ==> #[trigger] created_program_address(
                        seeds.push(seq![higher]),
                        program_id,
                    ) is None
            },
            None => forall|tried: u8|
                1 <= tried ==> #[trigger] created_program_address(
                    seeds.push(seq![tried]),
                    program_id,
                ) is None,
        },
{
    lemma_first_address_is_highest(seeds, program_id, 255);
}

/// Accounts are held against the addresses that the pool's state records and that the
/// session's key gives.
pub proof fn law_checked_addresses(
    created: Initialize,
    set: SetAuthority,
    deposit: DepositFlat,
    addon: DepositPvpSessionAddon,
    send: AuthoritySend,
    skim: PvpAddonSkimFeeToMain,
    withdraw: PvpAddonAuthorityWithdraw,
    close: PvpAddonClose,
    session_key: Seq<u8>,
)
    ensures
        created.violation() == created.violation_at(
            found_program_address(state_seeds(), ID@),
            found_program_address(vault_seeds(), ID@),
        ),
        set.violation() == set.violation_at(recorded_state_address(set.pool_state.data)),
        deposit.violation() == deposit.violation_at(
            recorded_state_address(deposit.pool_state.data),
            recorded_vault_address(deposit.pool_state.data),
        ),
        addon.violation(session_key) == addon.violation_at(
            recorded_state_address(addon.pool_state.data),
            session_address(session_key),
        ),
        send.violation() == send.violation_at(
            recorded_state_address(send.pool_state.data),
            recorded_vault_address(send.pool_state.data),
        ),
        skim.violation(session_key) == skim.violation_at(
            recorded_state_address(skim.pool_state.data),
            recorded_vault_address(skim.pool_state.data),
            session_address(session_key),
        ),
        withdraw.violation(session_key) == withdraw.violation_at(
            recorded_state_address(withdraw.pool_state.data),
            session_address(session_key),
        ),
        close.violation(session_key) == close.violation_at(
            recorded_state_address(close.pool_state.data),
            session_address(session_key),
        ),
{
}

/// What each refusal of a new pool's accounts means.
pub proof fn law_initialize_refusals(
    ctx: Initialize,
    state: Option<(Seq<u8>, u8)>,
    vault: Option<(Seq<u8>, u8)>,
)
    ensures
        ({
            let found = ctx.violation_at(state, vault);
            let signed = ctx.authority.is_signer;
            let state_ok = state is Some && state->Some_0.0 == ctx.pool_state.info.key.bytes@;
            let vault_ok = vault is Some && vault->Some_0.0 == ctx.pool_vault.info.key.bytes@;
            let state_done = signed && state_ok && ctx.pool_state.info.is_writable;
            &&& found == Some(AccountError::AccountNotSigner) <==> !signed
            &&& found == Some(AccountError::NoViableBump) <==> (signed && state is None)
                || (state_done && vault is None)
            &&& found == Some(AccountError::ConstraintSeeds) <==> (signed && state is Some
                && !state_ok) || (state_done && vault is Some && !vault_ok)
            &&& found == Some(AccountError::ConstraintMut) <==> (signed && state_ok
                && !ctx.pool_state.info.is_writable) || (state_done && vault_ok && !(
            ctx.pool_vault.info.is_writable && ctx.authority.is_writable))
            &&& found is None <==> state_done && vault_ok && ctx.pool_vault.info.is_writable
                && ctx.authority.is_writable
        }),
{
}

/// What each refusal of a configuration change's accounts means.
pub proof fn law_set_authority_refusals(ctx: SetAuthority, state_at: Option<Seq<u8>>)
    ensures
        ({
            let found = ctx.violation_at(state_at);
            let signed = ctx.authority.is_signer;
            let state_ok = state_at == Some(ctx.pool_state.info.key.bytes@);
            let open = ctx.pool_state.info.is_writable && ctx.authority.is_writable;
            let recorded = ctx.authority.key.bytes@ == ctx.pool_state.data.authority.bytes@;
            &&& found == Some(AccountError::AccountNotSigner) <==> !signed
            &&& found == Some(AccountError::ConstraintSeeds) <==> signed && !state_ok
            &&& found == Some(AccountError::ConstraintMut) <==> signed && state_ok && !open
            &&& found == Some(AccountError::ConstraintAddress) <==> signed && state_ok && open
                && !recorded
            &&& found is None <==> signed && state_ok && open && recorded
        }),
{
}

/// What each refusal of a main-pool deposit's accounts means.
pub proof fn law_deposit_refusals(
    ctx: DepositFlat,
    state_at: Option<Seq<u8>>,
    vault_at: Option<Seq<u8>>,
)
    ensures
        ({
            let found = ctx.violation_at(state_at, vault_at);
            let signed = ctx.user.is_signer;
            let placed = state_at == Some(ctx.pool_state.info.key.bytes@) && vault_at == Some(
                ctx.pool_vault.info.key.bytes@,
            );
            let open = ctx.pool_vault.info.is_writable && ctx.dev_fee_recipient.is_writable;
            let recorded = ctx.dev_fee_recipient.key.bytes@
                == ctx.pool_state.data.dev_fee_recipient.bytes@;
            &&& found == Some(AccountError::AccountNotSigner) <==> !signed
            &&& found == Some(AccountError::ConstraintSeeds) <==> signed && ctx.user.is_writable
                && !placed
            &&& found == Some(AccountError::ConstraintMut) <==> signed && (!ctx.user.is_writable
                || (placed && !open))
            &&& found == Some(AccountError::ConstraintAddress) <==> signed && ctx.user.is_writable
                && placed && open && !recorded
            &&& found is None <==> signed && ctx.user.is_writable && placed && open && recorded
        }),
{
}

/// What each refusal of an add-on deposit's accounts means.
pub proof fn law_addon_refusals(
    ctx: DepositPvpSessionAddon,
    state_at: Option<Seq<u8>>,
    session_at: Option<(Seq<u8>, u8)>,
)
    ensures
        ({
            let found = ctx.violation_at(state_at, session_at);
            let signed = ctx.user.is_signer;
            let session_ok = session_at is Some && session_at->Some_0.0 == ctx.pvp_addon_vault.info.key.bytes@;
            let open = ctx.pvp_addon_vault.info.is_writable && ctx.user.is_writable;
            let state_ok = state_at == Some(ctx.pool_state.info.key.bytes@);
            let recorded = ctx.dev_fee_recipient.key.bytes@
                == ctx.pool_state.data.dev_fee_recipient.bytes@;
            &&& found == Some(AccountError::AccountNotSigner) <==> !signed
            &&& found == Some(AccountError::NoViableBump) <==> signed && session_at is None
            &&& found == Some(AccountError::ConstraintSeeds) <==> signed && ((session_at is Some
                && !session_ok) || (session_ok && open && !state_ok))
            &&& found == Some(AccountError::ConstraintMut) <==> signed && session_ok && (!open || (
            state_ok && !ctx.dev_fee_recipient.is_writable))
            &&& found == Some(AccountError::ConstraintAddress) <==> signed && session_ok && open
                && state_ok && ctx.dev_fee_recipient.is_writable && !recorded
            &&& found is None <==> signed && session_ok && open && state_ok
                && ctx.dev_fee_recipient.is_writable && recorded
        }),
{
}

/// What each refusal of the accounts of a payment out of the main vault means.
pub proof fn law_send_refusals(
    ctx: AuthoritySend,
    state_at: Option<Seq<u8>>,
    vault_at: Option<Seq<u8>>,
)
    ensures
        ({
            let found = ctx.violation_at(state_at, vault_at);
            let signed = ctx.authority.is_signer;
            let state_ok = state_at == Some(ctx.pool_state.info.key.bytes@);
            let named = signed && state_ok && ctx.authority.is_writable;
            let recorded = ctx.authority.key.bytes@ == ctx.pool_state.data.authority.bytes@;
            let vault_ok = vault_at == Some(ctx.pool_vault.info.key.bytes@);
            let open = ctx.pool_vault.info.is_writable && ctx.destination.is_writable;
            &&& found == Some(AccountError::AccountNotSigner) <==> !signed
            &&& found == Some(AccountError::ConstraintSeeds) <==> (signed && !state_ok) || (named
                && recorded && !vault_ok)
            &&& found == Some(AccountError::ConstraintMut) <==> (signed && state_ok
                && !ctx.authority.is_writable) || (named && recorded && vault_ok && !open)
            &&& found == Some(AccountError::ConstraintAddress) <==> named && !recorded
            &&& found is None <==> named && recorded && vault_ok && open
        }),
{
}

/// What each refusal of a fee skim's accounts means.
pub proof fn law_skim_refusals(
    ctx: PvpAddonSkimFeeToMain,
    state_at: Option<Seq<u8>>,
    vault_at: Option<Seq<u8>>,
    session_at: Option<(Seq<u8>, u8)>,
)
    ensures
        ({
            let found = ctx.violation_at(state_at, vault_at, session_at);
            let signed = ctx.authority.is_signer;
            let state_ok = state_at == Some(ctx.pool_state.info.key.bytes@);
            let named = signed && state_ok && ctx.authority.is_writable;
            let recorded = ctx.authority.key.bytes@ == ctx.pool_state.data.authority.bytes@;
            let vault_ok = vault_at == Some(ctx.pool_vault.info.key.bytes@);
            let vault_done = named && recorded && vault_ok && ctx.pool_vault.info.is_writable;
            let session_ok = session_at is Some && session_at->Some_0.0 == ctx.pvp_addon_vault.info.key.bytes@;
            &&& found == Some(AccountError::AccountNotSigner) <==> !signed
            &&& found == Some(AccountError::NoViableBump) <==> vault_done && session_at is None
            &&& found == Some(AccountError::ConstraintSeeds) <==> (signed && !state_ok) || (named
                && recorded && !vault_ok) || (vault_done && session_at is Some && !session_ok)
            &&& found == Some(AccountError::ConstraintMut) <==> (signed && state_ok
                && !ctx.authority.is_writable) || (named && recorded && vault_ok
                && !ctx.pool_vault.info.is_writable) || (vault_done && session_ok
                && !ctx.pvp_addon_vault.info.is_writable)
            &&& found == Some(AccountError::ConstraintAddress) <==> named && !recorded
            &&& found is None <==> vault_done && session_ok
                && ctx.pvp_addon_vault.info.is_writable
        }),
{
}

/// What each refusal of the accounts of a payment out of a session's vault means.
pub proof fn law_withdraw_refusals(
    ctx: PvpAddonAuthorityWithdraw,
    state_at: Option<Seq<u8>>,
    session_at: Option<(Seq<u8>, u8)>,
)
    ensures
        ({
            let found = ctx.violation_at(state_at, session_at);
            let signed = ctx.authority.is_signer;
            let state_ok = state_at == Some(ctx.pool_state.info.key.bytes@);
            let named = signed && state_ok && ctx.authority.is_writable;
            let recorded = ctx.authority.key.bytes@ == ctx.pool_state.data.authority.bytes@;
            let session_ok = session_at is Some && session_at->Some_0.0 == ctx.pvp_addon_vault.info.key.bytes@;
            let open = ctx.pvp_addon_vault.info.is_writable && ctx.destination.is_writable;
            &&& found == Some(AccountError::AccountNotSigner) <==> !signed
            &&& found == Some(AccountError::NoViableBump) <==> named && recorded
                && session_at is None
            &&& found == Some(AccountError::ConstraintSeeds) <==> (signed && !state_ok) || (named
                && recorded && session_at is Some && !session_ok)
            &&& found == Some(AccountError::ConstraintMut) <==> (signed && state_ok
                && !ctx.authority.is_writable) || (named && recorded && session_ok && !open)
            &&& found == Some(AccountError::ConstraintAddress) <==> named && !recorded
            &&& found is None <==> named && recorded && session_ok && open
        }),
{
}

/// What each refusal of a close's accounts means.
pub proof fn law_close_refusals(
    ctx: PvpAddonClose,
    state_at: Option<Seq<u8>>,
    session_at: Option<(Seq<u8>, u8)>,
)
    ensures
        ({
            let found = ctx.violation_at(state_at, session_at);
            let signed = ctx.authority.is_signer;
            let state_ok = state_at == Some(ctx.pool_state.info.key.bytes@);
            let named = signed && state_ok && ctx.authority.is_writable;
            let recorded = ctx.authority.key.bytes@ == ctx.pool_state.data.authority.bytes@;
            let session_ok = session_at is Some && session_at->Some_0.0 == ctx.pvp_addon_vault.info.key.bytes@;
            let open = named && recorded && session_ok && ctx.pvp_addon_vault.info.is_writable;
            let apart = ctx.pvp_addon_vault.info.key.bytes@ != ctx.authority.key.bytes@;
            &&& found == Some(AccountError::AccountNotSigner) <==> !signed
            &&& found == Some(AccountError::NoViableBump) <==> named && recorded
                && session_at is None
            &&& found == Some(AccountError::ConstraintSeeds) <==> (signed && !state_ok) || (named
                && recorded && session_at is Some && !session_ok)
            &&& found == Some(AccountError::ConstraintMut) <==> (signed && state_ok
                && !ctx.authority.is_writable) || (named && recorded && session_ok
                && !ctx.pvp_addon_vault.info.is_writable)
            &&& found == Some(AccountError::ConstraintAddress) <==> named && !recorded
            &&& found == Some(AccountError::ConstraintClose) <==> open && !apart
            &&& found is None <==> open && apart
        }),
{
}

} // verus!
