use miracle_pool::fees::{
    ACTION_CITY_UPGRADE, ACTION_CONTRIBUTE, ACTION_GACHA, ACTION_GUILD_PROJECT_UPGRADE,
    ACTION_INVENTORY_SLOT_BUNDLE, ACTION_LAB, ACTION_MINING_EXTRA_RIG, ACTION_NFT_BURN,
};
use miracle_pool::{
    main_pool_action_lamports, split_deposit_lamports, ErrorCode, PoolState, Pubkey,
};

fn pool(action_fee_lamports: u64) -> PoolState {
    PoolState {
        authority: Pubkey { bytes: [7; 32] },
        action_fee_lamports,
        reserved_season_bps: 100,
        reserved_daily_bps: 200,
        bump_state: 255,
        bump_vault: 254,
        dev_fee_recipient: Pubkey { bytes: [9; 32] },
    }
}

#[test]
fn split_takes_five_percent() {
    assert_eq!(split_deposit_lamports(1_000_000), Ok((950_000, 50_000)));
    assert_eq!(split_deposit_lamports(500_000_000), Ok((475_000_000, 25_000_000)));
}

#[test]
fn split_rounds_the_fee_down() {
    assert_eq!(split_deposit_lamports(0), Ok((0, 0)));
    assert_eq!(split_deposit_lamports(19), Ok((19, 0)));
    assert_eq!(split_deposit_lamports(20), Ok((19, 1)));
    assert_eq!(split_deposit_lamports(39), Ok((38, 1)));
}

#[test]
fn split_refuses_what_overflows() {
    let most: u64 = u64::MAX / 500;
    assert_eq!(most, 36_893_488_147_419_103);
    assert_eq!(split_deposit_lamports(most), Ok((most - most / 20, most / 20)));
    assert_eq!(split_deposit_lamports(most + 1), Err(ErrorCode::MathOverflow));
    assert_eq!(split_deposit_lamports(u64::MAX), Err(ErrorCode::MathOverflow));
}

#[test]
fn larger_deposits_have_no_smaller_share() {
    let mut last = (0u64, 0u64);
    for lamports in 0..500u64 {
        let split = split_deposit_lamports(lamports).unwrap();
        assert!(last.0 <= split.0 && last.1 <= split.1);
        assert_eq!(split.0 + split.1, lamports);
        last = split;
    }
}

#[test]
fn gacha_costs_a_fee_per_hundred_rolls_begun() {
    let state = pool(1_000);
    for (rolls, fee) in [(1, 1), (99, 1), (100, 1), (101, 2), (200, 2), (201, 3), (2000, 20)] {
        assert_eq!(
            main_pool_action_lamports(&state, ACTION_GACHA, rolls, 0),
            Ok(1_000 * fee)
        );
    }
}

#[test]
fn gacha_rolls_are_one_to_two_thousand() {
    let state = pool(1_000);
    assert_eq!(
        main_pool_action_lamports(&state, ACTION_GACHA, 0, 5),
        Err(ErrorCode::BadGachaRolls)
    );
    assert_eq!(
        main_pool_action_lamports(&state, ACTION_GACHA, 2001, 5),
        Err(ErrorCode::BadGachaRolls)
    );
}

#[test]
fn lab_costs_a_fee_per_attempt() {
    let state = pool(1_000);
    assert_eq!(main_pool_action_lamports(&state, ACTION_LAB, 1, 0), Ok(1_000));
    assert_eq!(main_pool_action_lamports(&state, ACTION_LAB, 15, 0), Ok(15_000));
    assert_eq!(
        main_pool_action_lamports(&state, ACTION_LAB, 0, 0),
        Err(ErrorCode::BadAttempts)
    );
    assert_eq!(
        main_pool_action_lamports(&state, ACTION_LAB, 16, 0),
        Err(ErrorCode::BadAttempts)
    );
}

#[test]
fn contribution_is_what_is_offered() {
    let state = pool(1_000);
    assert_eq!(main_pool_action_lamports(&state, ACTION_CONTRIBUTE, 0, 77), Ok(77));
    assert_eq!(
        main_pool_action_lamports(&state, ACTION_CONTRIBUTE, 3, 0),
        Err(ErrorCode::ZeroAmount)
    );
}

#[test]
fn fixed_prices() {
    let state = pool(1_000);
    assert_eq!(
        main_pool_action_lamports(&state, ACTION_MINING_EXTRA_RIG, 0, 0),
        Ok(500_000_000)
    );
    assert_eq!(
        main_pool_action_lamports(&state, ACTION_INVENTORY_SLOT_BUNDLE, 0, 9),
        Ok(100_000_000)
    );
    for action in [ACTION_NFT_BURN, ACTION_CITY_UPGRADE, ACTION_GUILD_PROJECT_UPGRADE] {
        assert_eq!(main_pool_action_lamports(&state, action, 4, 9), Ok(1_000));
    }
}

#[test]
fn unknown_actions_are_refused() {
    let state = pool(1_000);
    for action in 8..=255u8 {
        assert_eq!(
            main_pool_action_lamports(&state, action, 1, 1),
            Err(ErrorCode::BadAction)
        );
    }
}

#[test]
fn prices_that_overflow_are_refused() {
    let state = pool(u64::MAX / 2);
    assert_eq!(main_pool_action_lamports(&state, ACTION_GACHA, 200, 0), Ok(u64::MAX - 1));
    assert_eq!(
        main_pool_action_lamports(&state, ACTION_GACHA, 201, 0),
        Err(ErrorCode::MathOverflow)
    );
    assert_eq!(
        main_pool_action_lamports(&state, ACTION_LAB, 3, 0),
        Err(ErrorCode::MathOverflow)
    );
}

#[test]
fn a_free_pool_charges_nothing_for_actions() {
    let state = pool(0);
    assert_eq!(main_pool_action_lamports(&state, ACTION_GACHA, 2000, 0), Ok(0));
    assert_eq!(main_pool_action_lamports(&state, ACTION_NFT_BURN, 0, 0), Ok(0));
}

#[test]
fn account_sizes() {
    assert_eq!(PoolState::SPACE, 86);
    assert_eq!(miracle_pool::SubVaultMarker::SPACE, 8);
}

#[test]
fn messages() {
    let texts = [
        (ErrorCode::BadAttempts, "attempts must be 1..15"),
        (ErrorCode::BadGachaRolls, "gacha rolls must be 1..2000"),
        (ErrorCode::MathOverflow, "math overflow"),
        (ErrorCode::ZeroAmount, "zero amount"),
        (ErrorCode::BadDevRecipient, "dev fee recipient cannot be default pubkey"),
        (ErrorCode::BadAuthority, "authority cannot be default pubkey"),
        (ErrorCode::PvpVaultNotEmpty, "pvp: vault must be empty (only rent) before close"),
        (
            ErrorCode::PvpVaultInsufficientForFeeSkim,
            "pvp: PvP vault balance too low for fee skim",
        ),
        (ErrorCode::InsufficientVaultFunds, "vault balance is too low"),
        (ErrorCode::BadAction, "unknown main-pool deposit action"),
    ];
    for (code, text) in texts {
        assert_eq!(code.msg(), text);
    }
}

#[test]
fn more_units_never_cost_less() {
    let state = pool(7);
    for units in 1..2000u16 {
        assert!(
            main_pool_action_lamports(&state, ACTION_GACHA, units, 0).unwrap()
                <= main_pool_action_lamports(&state, ACTION_GACHA, units + 1, 0).unwrap()
        );
    }
    for units in 1..15u16 {
        assert!(
            main_pool_action_lamports(&state, ACTION_LAB, units, 0).unwrap()
                < main_pool_action_lamports(&state, ACTION_LAB, units + 1, 0).unwrap()
        );
    }
}

#[test]
fn no_action_is_free_under_a_fee() {
    let state = pool(1);
    for action in 0..8u8 {
        assert!(main_pool_action_lamports(&state, action, 1, 1).unwrap() > 0);
    }
}

#[test]
fn an_offer_counts_for_contributions_alone() {
    let state = pool(1_000);
    for action in 0..=255u8 {
        let same = main_pool_action_lamports(&state, action, 3, 5)
            == main_pool_action_lamports(&state, action, 3, 6);
        assert_eq!(same, action != ACTION_CONTRIBUTE);
    }
}
