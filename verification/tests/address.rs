use std::str::FromStr;

use miracle_pool::address::{
    find_pvp_addon_address, find_state_address, find_vault_address, id, state_address,
    vault_address, SEED_MIRL, SEED_PVP_ADDON, SEED_STATE, SEED_VAULT,
};
use miracle_pool::{Pubkey, Rent};

fn program() -> anchor_lang::prelude::Pubkey {
    anchor_lang::prelude::Pubkey::from_str("3Kats7w6uuhmA4sXj852pFaCJ3DbvfgwNJKJVALwLPrU").unwrap()
}

#[test]
fn program_id() {
    assert_eq!(id().bytes, program().to_bytes());
}

#[test]
fn seeds_spell_their_names() {
    assert_eq!(&SEED_MIRL, b"mirl");
    assert_eq!(&SEED_STATE, b"state");
    assert_eq!(&SEED_VAULT, b"vault");
    assert_eq!(&SEED_PVP_ADDON, b"pvpaddon");
}

#[test]
fn found_addresses_match_the_chain() {
    let (key, bump) =
        anchor_lang::prelude::Pubkey::find_program_address(&[b"mirl", b"state"], &program());
    assert_eq!(find_state_address(), Some((Pubkey { bytes: key.to_bytes() }, bump)));
    let (key, bump) =
        anchor_lang::prelude::Pubkey::find_program_address(&[b"mirl", b"vault"], &program());
    assert_eq!(find_vault_address(), Some((Pubkey { bytes: key.to_bytes() }, bump)));
    let session: [u8; 32] = [3; 32];
    let (key, bump) = anchor_lang::prelude::Pubkey::find_program_address(
        &[b"mirl", b"pvpaddon", &session],
        &program(),
    );
    assert_eq!(
        find_pvp_addon_address(&session),
        Some((Pubkey { bytes: key.to_bytes() }, bump))
    );
}

#[test]
fn found_bumps_derive_the_same_address() {
    let (state, bump) = find_state_address().unwrap();
    assert_eq!(state_address(bump), Some(state));
    let (vault, bump) = find_vault_address().unwrap();
    assert_eq!(vault_address(bump), Some(vault));
    assert!(state != vault);
}

#[test]
fn every_bump_derives_what_the_chain_derives() {
    for bump in 0..=255u8 {
        let expected = anchor_lang::prelude::Pubkey::create_program_address(
            &[b"mirl", b"state", &[bump]],
            &program(),
        );
        assert_eq!(
            state_address(bump),
            expected.ok().map(|key| Pubkey { bytes: key.to_bytes() })
        );
    }
    assert!((0..=255u8).any(|bump| state_address(bump).is_none()));
}

#[test]
fn sessions_have_their_own_vaults() {
    let one = find_pvp_addon_address(&[1; 32]).unwrap();
    let two = find_pvp_addon_address(&[2; 32]).unwrap();
    assert!(one.0 != two.0);
    assert!(one.0 != find_vault_address().unwrap().0);
}

#[test]
fn keys_compare_by_their_bytes() {
    let mut bytes: [u8; 32] = [5; 32];
    let key = Pubkey { bytes };
    assert!(key == Pubkey { bytes: [5; 32] });
    bytes[31] = 6;
    assert!(key != Pubkey { bytes });
    assert_eq!(Pubkey::default().bytes, [0u8; 32]);
    assert_eq!(
        Pubkey::default().bytes,
        anchor_lang::prelude::Pubkey::default().to_bytes()
    );
}

#[test]
fn rent_of_the_default_cluster() {
    let chain = anchor_lang::prelude::Rent::default();
    let rent = Rent {
        lamports_per_byte_year: chain.lamports_per_byte_year,
        exemption_threshold: chain.exemption_threshold.to_le_bytes(),
        burn_percent: chain.burn_percent,
    };
    assert_eq!(rent.minimum_balance(0), 890_880);
    assert_eq!(rent.minimum_balance(8), 946_560);
    assert_eq!(rent.minimum_balance(86), 1_489_440);
}

#[test]
fn rent_follows_rate_threshold_and_size() {
    for (rate, threshold, burn) in [(5u64, 2.5f64, 0u8), (0, 2.0, 50), (7, 0.5, 100), (9, -1.0, 1)] {
        let chain = anchor_lang::prelude::Rent {
            lamports_per_byte_year: rate,
            exemption_threshold: threshold,
            burn_percent: burn,
        };
        let rent = Rent {
            lamports_per_byte_year: rate,
            exemption_threshold: threshold.to_le_bytes(),
            burn_percent: burn,
        };
        for size in [0usize, 1, 8, 1000] {
            assert_eq!(rent.minimum_balance(size), chain.minimum_balance(size));
        }
    }
    let odd = Rent { lamports_per_byte_year: 5, exemption_threshold: 2.5f64.to_le_bytes(), burn_percent: 0 };
    assert_eq!(odd.minimum_balance(2), 1_625);
}

#[test]
fn the_highest_bump_that_gives_an_address_is_found() {
    let (vault, found) = find_vault_address().unwrap();
    let highest = (1..=255u8).rev().find(|bump| vault_address(*bump).is_some()).unwrap();
    assert_eq!(found, highest);
    assert_eq!(vault_address(highest), Some(vault));
}
