use miracle_pool::address::{find_pvp_addon_address, find_state_address, find_vault_address};
use miracle_pool::fees::{ACTION_CONTRIBUTE, ACTION_GACHA, ACTION_NFT_BURN};
use miracle_pool::{
    authority_send, deposit_action, deposit_pvp_session_addon, initialize,
    pvp_addon_authority_withdraw, pvp_addon_close, pvp_addon_skim_fee_to_main, set_action_fee,
    set_authority, set_dev_fee_recipient, Account, AccountError, AccountInfo, AuthoritySend,
    DepositFlat, DepositPvpSessionAddon, Error, ErrorCode, Initialize, Ledger, LedgerAccount,
    PoolState, Pubkey, PvpAddonAuthorityWithdraw, PvpAddonClose, PvpAddonSkimFeeToMain, Rent,
    SetAuthority, SubVaultMarker, Transfer,
};

const SESSION: [u8; 32] = [42; 32];
const RESERVE: u64 = 946_560;

fn key(tag: u8) -> Pubkey {
    Pubkey { bytes: [tag; 32] }
}

fn admin() -> Pubkey {
    key(1)
}

fn dev() -> Pubkey {
    key(2)
}

fn player() -> Pubkey {
    key(3)
}

fn winner() -> Pubkey {
    key(4)
}

fn signer(key: Pubkey) -> AccountInfo {
    AccountInfo { key, is_signer: true, is_writable: true }
}

fn writable(key: Pubkey) -> AccountInfo {
    AccountInfo { key, is_signer: false, is_writable: true }
}

fn readonly(key: Pubkey) -> AccountInfo {
    AccountInfo { key, is_signer: false, is_writable: false }
}

fn blank_state() -> PoolState {
    PoolState {
        authority: Pubkey::default(),
        action_fee_lamports: 0,
        reserved_season_bps: 0,
        reserved_daily_bps: 0,
        bump_state: 0,
        bump_vault: 0,
        dev_fee_recipient: Pubkey::default(),
    }
}

fn initialize_accounts() -> Initialize {
    Initialize {
        authority: signer(admin()),
        pool_state: Account { info: writable(find_state_address().unwrap().0), data: blank_state() },
        pool_vault: main_vault(),
    }
}

fn fresh_pool() -> PoolState {
    let mut accounts = initialize_accounts();
    assert_eq!(initialize(&mut accounts, 1_000, 300, 400, dev()), Ok(()));
    accounts.pool_state.data
}

fn state_account(state: PoolState) -> Account<PoolState> {
    Account { info: writable(find_state_address().unwrap().0), data: state }
}

fn main_vault() -> Account<SubVaultMarker> {
    Account { info: writable(find_vault_address().unwrap().0), data: SubVaultMarker {} }
}

fn session_vault() -> Account<SubVaultMarker> {
    Account {
        info: writable(find_pvp_addon_address(&SESSION).unwrap().0),
        data: SubVaultMarker {},
    }
}

fn configuration(state: PoolState, by: AccountInfo) -> SetAuthority {
    SetAuthority { pool_state: state_account(state), authority: by }
}

fn deposit(state: PoolState) -> DepositFlat {
    DepositFlat {
        user: signer(player()),
        pool_state: Account { info: readonly(find_state_address().unwrap().0), data: state },
        pool_vault: main_vault(),
        dev_fee_recipient: writable(state.dev_fee_recipient),
    }
}

fn addon(state: PoolState) -> DepositPvpSessionAddon {
    DepositPvpSessionAddon {
        user: signer(player()),
        pool_state: state_account(state),
        pvp_addon_vault: session_vault(),
        dev_fee_recipient: writable(state.dev_fee_recipient),
    }
}

fn send(state: PoolState, destination: Pubkey) -> AuthoritySend {
    AuthoritySend {
        pool_state: state_account(state),
        authority: signer(state.authority),
        pool_vault: main_vault(),
        destination: writable(destination),
    }
}

fn skim(state: PoolState) -> PvpAddonSkimFeeToMain {
    PvpAddonSkimFeeToMain {
        pool_state: state_account(state),
        authority: signer(state.authority),
        pool_vault: main_vault(),
        pvp_addon_vault: session_vault(),
    }
}

fn withdraw(state: PoolState) -> PvpAddonAuthorityWithdraw {
    PvpAddonAuthorityWithdraw {
        pool_state: state_account(state),
        authority: signer(state.authority),
        pvp_addon_vault: session_vault(),
        destination: writable(winner()),
    }
}

fn close(state: PoolState) -> PvpAddonClose {
    PvpAddonClose {
        pool_state: state_account(state),
        authority: signer(state.authority),
        pvp_addon_vault: session_vault(),
    }
}

fn rent() -> Option<Rent> {
    Some(Rent {
        lamports_per_byte_year: 3480,
        exemption_threshold: 2.0f64.to_le_bytes(),
        burn_percent: 50,
    })
}

fn ledger(session: u64, main: u64, destination: u64) -> Ledger {
    let mut ledger = Ledger::new();
    ledger.record(LedgerAccount { key: session_vault().info.key, lamports: session, data_len: 8 });
    ledger.record(LedgerAccount { key: main_vault().info.key, lamports: main, data_len: 8 });
    ledger.record(LedgerAccount { key: winner(), lamports: destination, data_len: 0 });
    ledger
}

fn balance(ledger: &Ledger, key: Pubkey) -> u64 {
    ledger.holding(&key).lamports
}

#[test]
fn initialize_records_everything() {
    let state = fresh_pool();
    assert_eq!(state.authority, admin());
    assert_eq!(state.action_fee_lamports, 1_000);
    assert_eq!(state.reserved_season_bps, 300);
    assert_eq!(state.reserved_daily_bps, 400);
    assert_eq!(state.bump_state, find_state_address().unwrap().1);
    assert_eq!(state.bump_vault, find_vault_address().unwrap().1);
    assert_eq!(state.dev_fee_recipient, dev());
}

#[test]
fn initialize_refuses_the_default_recipient() {
    let mut accounts = initialize_accounts();
    assert_eq!(
        initialize(&mut accounts, 1_000, 300, 400, Pubkey::default()),
        Err(Error::Program(ErrorCode::BadDevRecipient))
    );
    assert_eq!(accounts.pool_state.data.action_fee_lamports, 0);
}

#[test]
fn initialize_allows_a_free_pool() {
    let mut accounts = initialize_accounts();
    assert_eq!(initialize(&mut accounts, 0, 0, 0, dev()), Ok(()));
    assert_eq!(accounts.pool_state.data.action_fee_lamports, 0);
}

#[test]
fn initialize_checks_its_accounts() {
    let mut accounts = initialize_accounts();
    accounts.authority.is_signer = false;
    assert_eq!(
        initialize(&mut accounts, 1, 1, 1, dev()),
        Err(Error::Account(AccountError::AccountNotSigner))
    );
    let mut accounts = initialize_accounts();
    accounts.pool_state.info.key = key(8);
    assert_eq!(
        initialize(&mut accounts, 1, 1, 1, dev()),
        Err(Error::Account(AccountError::ConstraintSeeds))
    );
    let mut accounts = initialize_accounts();
    accounts.pool_vault.info.key = key(8);
    assert_eq!(
        initialize(&mut accounts, 1, 1, 1, Pubkey::default()),
        Err(Error::Account(AccountError::ConstraintSeeds))
    );
    let mut accounts = initialize_accounts();
    accounts.authority.is_writable = false;
    assert_eq!(
        initialize(&mut accounts, 1, 1, 1, dev()),
        Err(Error::Account(AccountError::ConstraintMut))
    );
}

#[test]
fn a_seed_without_an_address_is_reported() {
    let accounts = initialize_accounts();
    assert_eq!(
        accounts.check_at(None, find_vault_address()),
        Some(AccountError::NoViableBump)
    );
    assert_eq!(close(fresh_pool()).check_at(
        Some(find_state_address().unwrap().0),
        None,
    ), Some(AccountError::NoViableBump));
}

#[test]
fn authority_rotation_shuts_the_old_one_out() {
    let state = fresh_pool();
    let mut accounts = configuration(state, signer(admin()));
    assert_eq!(set_authority(&mut accounts, key(9)), Ok(()));
    let rotated = accounts.pool_state.data;
    assert_eq!(rotated.authority, key(9));
    assert_eq!(rotated.action_fee_lamports, 1_000);
    let mut late = configuration(rotated, signer(admin()));
    assert_eq!(
        set_action_fee(&mut late, 5),
        Err(Error::Account(AccountError::ConstraintAddress))
    );
    assert_eq!(late.pool_state.data.action_fee_lamports, 1_000);
    let mut successor = configuration(rotated, signer(key(9)));
    assert_eq!(set_action_fee(&mut successor, 5), Ok(()));
    assert_eq!(successor.pool_state.data.action_fee_lamports, 5);
}

#[test]
fn setters_refuse_empty_values() {
    let state = fresh_pool();
    let mut accounts = configuration(state, signer(admin()));
    assert_eq!(
        set_authority(&mut accounts, Pubkey::default()),
        Err(Error::Program(ErrorCode::BadAuthority))
    );
    assert_eq!(
        set_action_fee(&mut accounts, 0),
        Err(Error::Program(ErrorCode::ZeroAmount))
    );
    assert_eq!(
        set_dev_fee_recipient(&mut accounts, Pubkey::default()),
        Err(Error::Program(ErrorCode::BadDevRecipient))
    );
    assert_eq!(accounts.pool_state.data.authority, admin());
    assert_eq!(accounts.pool_state.data.action_fee_lamports, 1_000);
    assert_eq!(accounts.pool_state.data.dev_fee_recipient, dev());
}

#[test]
fn setters_need_the_authority_s_signature() {
    let state = fresh_pool();
    let mut unsigned = configuration(state, writable(admin()));
    assert_eq!(
        set_authority(&mut unsigned, key(9)),
        Err(Error::Account(AccountError::AccountNotSigner))
    );
    let mut stranger = configuration(state, signer(player()));
    assert_eq!(
        set_dev_fee_recipient(&mut stranger, key(9)),
        Err(Error::Account(AccountError::ConstraintAddress))
    );
    let mut elsewhere = configuration(state, signer(admin()));
    elsewhere.pool_state.info.key = key(8);
    assert_eq!(
        set_authority(&mut elsewhere, key(9)),
        Err(Error::Account(AccountError::ConstraintSeeds))
    );
    let mut frozen = configuration(state, signer(admin()));
    frozen.pool_state.info.is_writable = false;
    assert_eq!(
        set_authority(&mut frozen, key(9)),
        Err(Error::Account(AccountError::ConstraintMut))
    );
}

#[test]
fn recipient_rotation_redirects_the_fee() {
    let mut accounts = configuration(fresh_pool(), signer(admin()));
    assert_eq!(set_dev_fee_recipient(&mut accounts, key(6)), Ok(()));
    let plan = deposit_action(&deposit(accounts.pool_state.data), ACTION_NFT_BURN, 0, 0).unwrap();
    assert_eq!(plan[1].to, key(6));
}

#[test]
fn deposit_action_splits_the_price() {
    let state = fresh_pool();
    assert_eq!(
        deposit_action(&deposit(state), ACTION_GACHA, 150, 0),
        Ok(vec![
            Transfer { from: player(), to: main_vault().info.key, lamports: 1_900 },
            Transfer { from: player(), to: dev(), lamports: 100 },
        ])
    );
    assert_eq!(
        deposit_action(&deposit(state), ACTION_GACHA, 0, 0),
        Err(Error::Program(ErrorCode::BadGachaRolls))
    );
    assert_eq!(
        deposit_action(&deposit(state), ACTION_CONTRIBUTE, 0, u64::MAX),
        Err(Error::Program(ErrorCode::MathOverflow))
    );
    assert_eq!(
        deposit_action(&deposit(state), 8, 1, 1),
        Err(Error::Program(ErrorCode::BadAction))
    );
}

#[test]
fn deposit_action_checks_its_accounts() {
    let state = fresh_pool();
    let mut accounts = deposit(state);
    accounts.dev_fee_recipient.key = key(8);
    assert_eq!(
        deposit_action(&accounts, ACTION_NFT_BURN, 0, 0),
        Err(Error::Account(AccountError::ConstraintAddress))
    );
    let mut accounts = deposit(state);
    accounts.pool_vault.info.key = session_vault().info.key;
    assert_eq!(
        deposit_action(&accounts, ACTION_NFT_BURN, 0, 0),
        Err(Error::Account(AccountError::ConstraintSeeds))
    );
    let mut accounts = deposit(state);
    accounts.user.is_signer = false;
    assert_eq!(
        deposit_action(&accounts, 99, 0, 0),
        Err(Error::Account(AccountError::AccountNotSigner))
    );
}

#[test]
fn addon_payment_goes_to_the_session_s_vault() {
    let state = fresh_pool();
    assert_eq!(
        deposit_pvp_session_addon(&addon(state), &SESSION, 2_000),
        Ok(vec![
            Transfer { from: player(), to: session_vault().info.key, lamports: 1_900 },
            Transfer { from: player(), to: dev(), lamports: 100 },
        ])
    );
    assert_eq!(
        deposit_pvp_session_addon(&addon(state), &SESSION, 0),
        Err(Error::Program(ErrorCode::ZeroAmount))
    );
    assert_eq!(
        deposit_pvp_session_addon(&addon(state), &SESSION, u64::MAX),
        Err(Error::Program(ErrorCode::MathOverflow))
    );
    assert_eq!(
        deposit_pvp_session_addon(&addon(state), &[43; 32], 2_000),
        Err(Error::Account(AccountError::ConstraintSeeds))
    );
}

#[test]
fn a_session_is_skimmed_paid_and_closed() {
    let state = fresh_pool();
    let mut ledger = ledger(RESERVE + 1_000, 5, 7);
    assert_eq!(
        pvp_addon_close(&close(state), &ledger, rent(), &SESSION),
        Err(Error::Program(ErrorCode::PvpVaultNotEmpty))
    );
    assert_eq!(
        pvp_addon_skim_fee_to_main(&skim(state), &mut ledger, rent(), &SESSION, 100),
        Ok(())
    );
    assert_eq!(
        pvp_addon_authority_withdraw(&withdraw(state), &mut ledger, rent(), &SESSION, 901),
        Err(Error::Program(ErrorCode::InsufficientVaultFunds))
    );
    assert_eq!(
        pvp_addon_authority_withdraw(&withdraw(state), &mut ledger, rent(), &SESSION, 900),
        Ok(())
    );
    assert_eq!(balance(&ledger, session_vault().info.key), RESERVE);
    assert_eq!(balance(&ledger, main_vault().info.key), 105);
    assert_eq!(balance(&ledger, winner()), 907);
    assert_eq!(
        pvp_addon_close(&close(state), &ledger, rent(), &SESSION),
        Ok(Transfer { from: session_vault().info.key, to: admin(), lamports: RESERVE })
    );
}

#[test]
fn skim_refusals() {
    let state = fresh_pool();
    let mut ledger = ledger(RESERVE + 10, 5, 7);
    assert_eq!(
        pvp_addon_skim_fee_to_main(&skim(state), &mut ledger, rent(), &SESSION, 0),
        Err(Error::Program(ErrorCode::ZeroAmount))
    );
    assert_eq!(
        pvp_addon_skim_fee_to_main(&skim(state), &mut ledger, None, &SESSION, 0),
        Err(Error::Program(ErrorCode::ZeroAmount))
    );
    assert_eq!(
        pvp_addon_skim_fee_to_main(&skim(state), &mut ledger, None, &SESSION, 1),
        Err(Error::RentUnavailable)
    );
    assert_eq!(
        pvp_addon_skim_fee_to_main(&skim(state), &mut ledger, rent(), &SESSION, 11),
        Err(Error::Program(ErrorCode::PvpVaultInsufficientForFeeSkim))
    );
    let mut stranger = skim(state);
    stranger.authority = signer(player());
    assert_eq!(
        pvp_addon_skim_fee_to_main(&stranger, &mut ledger, rent(), &SESSION, 1),
        Err(Error::Account(AccountError::ConstraintAddress))
    );
    assert_eq!(balance(&ledger, session_vault().info.key), RESERVE + 10);
    assert_eq!(balance(&ledger, main_vault().info.key), 5);
}

#[test]
fn withdraw_refusals() {
    let state = fresh_pool();
    let mut ledger = ledger(RESERVE + 10, 5, 7);
    assert_eq!(
        pvp_addon_authority_withdraw(&withdraw(state), &mut ledger, rent(), &SESSION, 0),
        Err(Error::Program(ErrorCode::ZeroAmount))
    );
    assert_eq!(
        pvp_addon_authority_withdraw(&withdraw(state), &mut ledger, rent(), &[43; 32], 1),
        Err(Error::Account(AccountError::ConstraintSeeds))
    );
    let mut fixed = withdraw(state);
    fixed.destination.is_writable = false;
    assert_eq!(
        pvp_addon_authority_withdraw(&fixed, &mut ledger, rent(), &SESSION, 1),
        Err(Error::Account(AccountError::ConstraintMut))
    );
}

#[test]
fn close_refusals() {
    let state = fresh_pool();
    let ledger = ledger(RESERVE - 1, 5, 7);
    assert_eq!(
        pvp_addon_close(&close(state), &ledger, None, &SESSION),
        Err(Error::RentUnavailable)
    );
    assert_eq!(
        pvp_addon_close(&close(state), &ledger, rent(), &SESSION),
        Ok(Transfer { from: session_vault().info.key, to: admin(), lamports: RESERVE - 1 })
    );
    let mut itself = PoolState { authority: session_vault().info.key, ..state };
    assert_eq!(
        pvp_addon_close(&close(itself), &ledger, rent(), &SESSION),
        Err(Error::Account(AccountError::ConstraintClose))
    );
    itself.bump_state = 0;
    assert_eq!(
        pvp_addon_close(&close(itself), &ledger, rent(), &SESSION),
        Err(Error::Account(AccountError::ConstraintSeeds))
    );
}

#[test]
fn authority_sends_from_the_main_vault() {
    let state = fresh_pool();
    let mut ledger = ledger(0, RESERVE + 50, 7);
    assert_eq!(authority_send(&send(state, winner()), &mut ledger, rent(), 50), Ok(()));
    assert_eq!(balance(&ledger, main_vault().info.key), RESERVE);
    assert_eq!(balance(&ledger, winner()), 57);
    assert_eq!(
        authority_send(&send(state, winner()), &mut ledger, rent(), 1),
        Err(Error::Program(ErrorCode::InsufficientVaultFunds))
    );
    assert_eq!(
        authority_send(&send(state, winner()), &mut ledger, rent(), 0),
        Err(Error::Program(ErrorCode::ZeroAmount))
    );
}

#[test]
fn sending_to_the_vault_itself_keeps_its_balance() {
    let state = fresh_pool();
    let mut ledger = ledger(0, RESERVE + 50, 7);
    let own = main_vault().info.key;
    assert_eq!(authority_send(&send(state, own), &mut ledger, rent(), 20), Ok(()));
    assert_eq!(balance(&ledger, own), RESERVE + 50);
}

#[test]
fn sending_needs_the_authority() {
    let state = fresh_pool();
    let mut ledger = ledger(0, RESERVE + 50, 7);
    let mut stranger = send(state, winner());
    stranger.authority = signer(player());
    assert_eq!(
        authority_send(&stranger, &mut ledger, rent(), 1),
        Err(Error::Account(AccountError::ConstraintAddress))
    );
    let mut unsigned = send(state, winner());
    unsigned.authority.is_signer = false;
    assert_eq!(
        authority_send(&unsigned, &mut ledger, rent(), 1),
        Err(Error::Account(AccountError::AccountNotSigner))
    );
    assert_eq!(balance(&ledger, main_vault().info.key), RESERVE + 50);
}

#[test]
fn what_initialize_recorded_outlasts_every_change() {
    let first = fresh_pool();
    let mut accounts = configuration(first, signer(admin()));
    assert_eq!(set_action_fee(&mut accounts, 9), Ok(()));
    assert_eq!(set_dev_fee_recipient(&mut accounts, key(6)), Ok(()));
    assert!(set_dev_fee_recipient(&mut accounts, Pubkey::default()).is_err());
    assert!(set_action_fee(&mut accounts, 0).is_err());
    assert_eq!(set_authority(&mut accounts, key(9)), Ok(()));
    assert!(set_authority(&mut accounts, key(10)).is_err());
    let last = accounts.pool_state.data;
    assert_eq!(last.bump_state, first.bump_state);
    assert_eq!(last.bump_vault, first.bump_vault);
    assert_eq!(last.reserved_season_bps, 300);
    assert_eq!(last.reserved_daily_bps, 400);
    assert_eq!(last.action_fee_lamports, 9);
    assert_eq!(last.dev_fee_recipient, key(6));
    assert_eq!(last.authority, key(9));
}

#[test]
fn a_session_closes_once_several_winners_have_drained_it() {
    let state = fresh_pool();
    let mut ledger = ledger(RESERVE + 1_000, 5, 7);
    assert_eq!(
        pvp_addon_skim_fee_to_main(&skim(state), &mut ledger, rent(), &SESSION, 50),
        Ok(())
    );
    for prize in [400u64, 300, 200] {
        assert_eq!(
            pvp_addon_authority_withdraw(&withdraw(state), &mut ledger, rent(), &SESSION, prize),
            Ok(())
        );
        assert_eq!(
            pvp_addon_close(&close(state), &ledger, rent(), &SESSION),
            Err(Error::Program(ErrorCode::PvpVaultNotEmpty))
        );
    }
    assert_eq!(
        pvp_addon_skim_fee_to_main(&skim(state), &mut ledger, rent(), &SESSION, 50),
        Ok(())
    );
    assert_eq!(
        pvp_addon_close(&close(state), &ledger, rent(), &SESSION),
        Ok(Transfer { from: session_vault().info.key, to: admin(), lamports: RESERVE })
    );
    assert_eq!(balance(&ledger, main_vault().info.key), 105);
    assert_eq!(balance(&ledger, winner()), 907);
}
