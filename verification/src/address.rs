//! Addresses that the program derives for its own accounts.

use vstd::prelude::*;

use crate::pubkey::Pubkey;

verus! {

/// The program's own address, `3Kats7w6uuhmA4sXj852pFaCJ3DbvfgwNJKJVALwLPrU`.
pub const ID: [u8; 32] = [
    34, 122, 39, 24, 176, 228, 142, 144, 240, 235, 251, 213, 178, 88, 121, 169,
    239, 142, 197, 9, 242, 64, 193, 188, 143, 51, 18, 26, 109, 127, 104, 197,
];

/// `mirl`, the first seed of every address.
pub const SEED_MIRL: [u8; 4] = [109, 105, 114, 108];

/// `state`
pub const SEED_STATE: [u8; 5] = [115, 116, 97, 116, 101];

/// `vault`
pub const SEED_VAULT: [u8; 5] = [118, 97, 117, 108, 116];

/// `pvpaddon`
pub const SEED_PVP_ADDON: [u8; 8] = [112, 118, 112, 97, 100, 100, 111, 110];

/// Seeds of the account that holds the pool state.
pub open spec fn state_seeds() -> Seq<Seq<u8>> {
    seq![SEED_MIRL@, SEED_STATE@]
}

/// Seeds of the main pool vault.
pub open spec fn vault_seeds() -> Seq<Seq<u8>> {
    seq![SEED_MIRL@, SEED_VAULT@]
}

/// Seeds of the vault of one PvP session.
pub open spec fn pvp_addon_seeds(session_key: Seq<u8>) -> Seq<Seq<u8>> {
    seq![SEED_MIRL@, SEED_PVP_ADDON@, session_key]
}

/// What `Pubkey::create_program_address` makes of seeds and a program's address; `None`
/// where it reports an error.
pub uninterp spec fn created_program_address(
    seeds: Seq<Seq<u8>>,
    program_id: Seq<u8>,
) -> Option<Seq<u8>>;

/// The first address that `seeds` give, and its bump seed, as the bump seed goes down from
/// `bump` to 1.
pub open spec fn first_address_from(
    seeds: Seq<Seq<u8>>,
    program_id: Seq<u8>,
    bump: u8,
) -> Option<(Seq<u8>, u8)>
    decreases bump,
{
    if bump == 0 {
        None
    } else {
        match created_program_address(seeds.push(seq![bump]), program_id) {
            Some(key) => Some((key, bump)),
            None => first_address_from(seeds, program_id, (bump - 1) as u8),
        }
    }
}

/// The address that `seeds` give with the highest bump seed that gives one, and that bump
/// seed. Bump seed 0 does not count.
pub open spec fn found_program_address(
    seeds: Seq<Seq<u8>>,
    program_id: Seq<u8>,
) -> Option<(Seq<u8>, u8)> {
    first_address_from(seeds, program_id, 255)
}

/// A bump seed that was found derives the address it was found with.
proof fn lemma_first_address(seeds: Seq<Seq<u8>>, program_id: Seq<u8>, bump: u8)
    ensures
        first_address_from(seeds, program_id, bump) matches Some((key, found)) ==> {
            &&& 1 <= found <= bump
            &&& created_program_address(seeds.push(seq![found]), program_id) == Some(key)
        },
    decreases bump,
{
    if bump > 0 {
        lemma_first_address(seeds, program_id, (bump - 1) as u8);
    }
}

/// The bump seed found for the program's own seeds derives the address found.
pub proof fn lemma_found_derives(seeds: Seq<Seq<u8>>)
    ensures
        found_program_address(seeds, ID@) matches Some((key, bump)) ==> derived_with_bump(
            key,
            seeds,
            bump,
        ),
{
    lemma_first_address(seeds, ID@, 255);
}

/// The address that was derived, if any.
pub open spec fn address_view(address: Option<Pubkey>) -> Option<Seq<u8>> {
    match address {
        Some(key) => Some(key@),
        None => None,
    }
}

/// The address and bump seed that were found, if any.
pub open spec fn found_view(found: Option<(Pubkey, u8)>) -> Option<(Seq<u8>, u8)> {
    match found {
        Some((key, bump)) => Some((key@, bump)),
        None => None,
    }
}

/// `key` is the address that `seeds` give with the bump seed `bump`.
pub open spec fn derived_with_bump(key: Seq<u8>, seeds: Seq<Seq<u8>>, bump: u8) -> bool {
    created_program_address(seeds.push(seq![bump]), ID@) == Some(key)
}

/// Calls `Pubkey::create_program_address` of the Solana key type that `anchor_lang`
/// exports. Its result is a function of the seeds and the program's address, and is only
/// named here: the address is a hash of them, refused where it lies on the ed25519 curve.
/// Every error it reports is `None`.
#[verifier::external_body]
fn create_program_address(seeds: &[&[u8]], program_id: &Pubkey) -> (address: Option<Pubkey>)
    ensures
        address_view(address) == created_program_address(seeds.deep_view(), program_id@),
{
    let program = anchor_lang::prelude::Pubkey::new_from_array(program_id.bytes);
    match anchor_lang::prelude::Pubkey::create_program_address(seeds, &program) {
        Ok(key) => Some(Pubkey { bytes: key.to_bytes() }),
        Err(_) => None,
    }
}

/// Calls `Pubkey::try_find_program_address` of the Solana key type that `anchor_lang`
/// exports. It tries bump seeds from 255 down to 1 and returns the first address that
/// `create_program_address` gives for the seeds followed by the bump seed.
#[verifier::external_body]
fn try_find_program_address(seeds: &[&[u8]], program_id: &Pubkey) -> (found: Option<(Pubkey, u8)>)
    ensures
        found_view(found) == found_program_address(seeds.deep_view(), program_id@),
{
    let program = anchor_lang::prelude::Pubkey::new_from_array(program_id.bytes);
    match anchor_lang::prelude::Pubkey::try_find_program_address(seeds, &program) {
        Some((key, bump)) => Some((Pubkey { bytes: key.to_bytes() }, bump)),
        None => None,
    }
}

/// Returns the program's own address.
pub fn id() -> (key: Pubkey)
    ensures
        key@ == ID@,
{
    Pubkey { bytes: ID }
}

/// Derives the state account's address from a bump seed.
pub fn state_address(bump: u8) -> (address: Option<Pubkey>)
    ensures
        address_view(address) == created_program_address(state_seeds().push(seq![bump]), ID@),
{
    let bump_seed: [u8; 1] = [bump];
    let seeds: [&[u8]; 3] = [SEED_MIRL.as_slice(), SEED_STATE.as_slice(), bump_seed.as_slice()];
    assert(seeds.deep_view() =~~= state_seeds().push(seq![bump]));
    create_program_address(seeds.as_slice(), &id())
}

/// Derives the main vault's address from a bump seed.
pub fn vault_address(bump: u8) -> (address: Option<Pubkey>)
    ensures
        address_view(address) == created_program_address(vault_seeds().push(seq![bump]), ID@),
{
    let bump_seed: [u8; 1] = [bump];
    let seeds: [&[u8]; 3] = [SEED_MIRL.as_slice(), SEED_VAULT.as_slice(), bump_seed.as_slice()];
    assert(seeds.deep_view() =~~= vault_seeds().push(seq![bump]));
    create_program_address(seeds.as_slice(), &id())
}

/// Finds the state account's address and bump seed.
pub fn find_state_address() -> (found: Option<(Pubkey, u8)>)
    ensures
        found_view(found) == found_program_address(state_seeds(), ID@),
        found matches Some((key, bump)) ==> derived_with_bump(key@, state_seeds(), bump),
{
    let seeds: [&[u8]; 2] = [SEED_MIRL.as_slice(), SEED_STATE.as_slice()];
    assert(seeds.deep_view() =~~= state_seeds());
    proof {
        lemma_found_derives(state_seeds());
    }
    try_find_program_address(seeds.as_slice(), &id())
}

/// Finds the main vault's address and bump seed.
pub fn find_vault_address() -> (found: Option<(Pubkey, u8)>)
    ensures
        found_view(found) == found_program_address(vault_seeds(), ID@),
        found matches Some((key, bump)) ==> derived_with_bump(key@, vault_seeds(), bump),
{
    let seeds: [&[u8]; 2] = [SEED_MIRL.as_slice(), SEED_VAULT.as_slice()];
    assert(seeds.deep_view() =~~= vault_seeds());
    proof {
        lemma_found_derives(vault_seeds());
    }
    try_find_program_address(seeds.as_slice(), &id())
}

/// Finds the address and bump seed of a PvP session's vault.
pub fn find_pvp_addon_address(session_key: &[u8; 32]) -> (found: Option<(Pubkey, u8)>)
    ensures
        found_view(found) == found_program_address(pvp_addon_seeds(session_key@), ID@),
        found matches Some((key, bump)) ==> derived_with_bump(
            key@,
            pvp_addon_seeds(session_key@),
            bump,
        ),
{
    let seeds: [&[u8]; 3] = [
        SEED_MIRL.as_slice(),
        SEED_PVP_ADDON.as_slice(),
        session_key.as_slice(),
    ];
    assert(seeds.deep_view() =~~= pvp_addon_seeds(session_key@));
    proof {
        lemma_found_derives(pvp_addon_seeds(session_key@));
    }
    try_find_program_address(seeds.as_slice(), &id())
}

} // verus!
