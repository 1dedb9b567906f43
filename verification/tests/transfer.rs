use miracle_pool::transfer::{
    net_of_reserve, pay_above_reserve, refund_if_empty, skim_above_reserve,
    transfer_user_to_vault, transfer_user_to_vault_with_dev_fee, transfer_vault_to_dest_signed,
    vault_net_lamports, vault_reserve,
};
use miracle_pool::{Error, ErrorCode, Holding, Ledger, LedgerAccount, Pubkey, Rent, Transfer};

fn key(tag: u8) -> Pubkey {
    Pubkey { bytes: [tag; 32] }
}

fn ledger(balances: &[(u8, u64)]) -> Ledger {
    let mut ledger = Ledger::new();
    for (tag, lamports) in balances {
        ledger.record(LedgerAccount { key: key(*tag), lamports: *lamports, data_len: 8 });
    }
    ledger
}

fn lamports(ledger: &Ledger, tag: u8) -> u64 {
    ledger.holding(&key(tag)).lamports
}

/// Asks for 946_560 lamports of an eight-byte account.
fn rent() -> Option<Rent> {
    Some(Rent {
        lamports_per_byte_year: 3480,
        exemption_threshold: 2.0f64.to_le_bytes(),
        burn_percent: 50,
    })
}

#[test]
fn ledger_keeps_one_balance_per_address() {
    let mut ledger = ledger(&[(1, 10), (2, 20)]);
    ledger.record(LedgerAccount { key: key(1), lamports: 99, data_len: 3 });
    assert_eq!(ledger.get(&key(1)), Some(Holding { lamports: 10, data_len: 8 }));
    assert_eq!(ledger.get(&key(2)), Some(Holding { lamports: 20, data_len: 8 }));
    assert_eq!(ledger.get(&key(3)), None);
}

#[test]
fn one_transfer() {
    assert_eq!(
        transfer_user_to_vault(&key(1), &key(2), 5),
        Transfer { from: key(1), to: key(2), lamports: 5 }
    );
}

#[test]
fn deposit_pays_the_vault_then_the_protocol() {
    assert_eq!(
        transfer_user_to_vault_with_dev_fee(&key(1), &key(2), &key(3), 1_000),
        Ok(vec![
            Transfer { from: key(1), to: key(2), lamports: 950 },
            Transfer { from: key(1), to: key(3), lamports: 50 },
        ])
    );
}

#[test]
fn deposit_asks_for_no_empty_transfer() {
    assert_eq!(
        transfer_user_to_vault_with_dev_fee(&key(1), &key(2), &key(3), 19),
        Ok(vec![Transfer { from: key(1), to: key(2), lamports: 19 }])
    );
    assert_eq!(
        transfer_user_to_vault_with_dev_fee(&key(1), &key(2), &key(3), 0),
        Ok(vec![])
    );
    assert_eq!(
        transfer_user_to_vault_with_dev_fee(&key(1), &key(2), &key(3), u64::MAX),
        Err(ErrorCode::MathOverflow)
    );
}

#[test]
fn net_is_what_lies_above_the_reserve() {
    assert_eq!(net_of_reserve(100, Some(30)), Ok(70));
    assert_eq!(net_of_reserve(30, Some(30)), Ok(0));
    assert_eq!(net_of_reserve(29, Some(30)), Ok(0));
    assert_eq!(net_of_reserve(29, None), Err(Error::RentUnavailable));
    let ledger = ledger(&[(1, 1_000_000)]);
    assert_eq!(vault_reserve(&ledger, &key(1), rent()), Some(946_560));
    assert_eq!(vault_reserve(&ledger, &key(1), None), None);
    assert_eq!(vault_net_lamports(&ledger, &key(1), rent()), Ok(53_440));
    assert_eq!(vault_net_lamports(&ledger, &key(1), None), Err(Error::RentUnavailable));
}

#[test]
fn payout_moves_what_was_asked() {
    let mut ledger = ledger(&[(1, 100), (2, 7), (3, 1)]);
    assert_eq!(pay_above_reserve(&mut ledger, &key(1), &key(2), Some(30), 70), Ok(()));
    assert_eq!(lamports(&ledger, 1), 30);
    assert_eq!(lamports(&ledger, 2), 77);
    assert_eq!(lamports(&ledger, 3), 1);
}

#[test]
fn payout_spares_the_reserve() {
    let mut ledger = ledger(&[(1, 100), (2, 7)]);
    assert_eq!(
        pay_above_reserve(&mut ledger, &key(1), &key(2), Some(30), 71),
        Err(Error::Program(ErrorCode::InsufficientVaultFunds))
    );
    assert_eq!(lamports(&ledger, 1), 100);
    assert_eq!(lamports(&ledger, 2), 7);
}

#[test]
fn payout_without_rent_fails() {
    let mut ledger = ledger(&[(1, 100), (2, 7)]);
    assert_eq!(
        pay_above_reserve(&mut ledger, &key(1), &key(2), None, 1),
        Err(Error::RentUnavailable)
    );
    assert_eq!(lamports(&ledger, 1), 100);
}

#[test]
fn payout_to_the_vault_itself_changes_nothing() {
    let mut ledger = ledger(&[(1, u64::MAX)]);
    assert_eq!(pay_above_reserve(&mut ledger, &key(1), &key(1), Some(30), 50), Ok(()));
    assert_eq!(lamports(&ledger, 1), u64::MAX);
}

#[test]
fn payout_that_overflows_its_destination_fails() {
    let mut ledger = ledger(&[(1, 100), (2, u64::MAX - 5)]);
    assert_eq!(
        pay_above_reserve(&mut ledger, &key(1), &key(2), Some(30), 6),
        Err(Error::Program(ErrorCode::MathOverflow))
    );
    assert_eq!(lamports(&ledger, 1), 94);
    assert_eq!(lamports(&ledger, 2), u64::MAX - 5);
}

#[test]
fn payout_reckons_the_rent_of_the_vault() {
    let mut ledger = ledger(&[(1, 1_000_000), (2, 0)]);
    assert_eq!(
        transfer_vault_to_dest_signed(&mut ledger, &key(1), &key(2), rent(), 53_441),
        Err(Error::Program(ErrorCode::InsufficientVaultFunds))
    );
    assert_eq!(
        transfer_vault_to_dest_signed(&mut ledger, &key(1), &key(2), rent(), 53_440),
        Ok(())
    );
    assert_eq!(lamports(&ledger, 1), 946_560);
    assert_eq!(lamports(&ledger, 2), 53_440);
    assert_eq!(
        transfer_vault_to_dest_signed(&mut ledger, &key(1), &key(2), rent(), 0),
        Ok(())
    );
}

#[test]
fn skim_has_its_own_refusal() {
    let mut ledger = ledger(&[(1, 100), (2, 7)]);
    assert_eq!(
        skim_above_reserve(&mut ledger, &key(1), &key(2), Some(30), 71),
        Err(Error::Program(ErrorCode::PvpVaultInsufficientForFeeSkim))
    );
    assert_eq!(
        skim_above_reserve(&mut ledger, &key(1), &key(2), None, 71),
        Err(Error::RentUnavailable)
    );
    assert_eq!(skim_above_reserve(&mut ledger, &key(1), &key(2), Some(30), 5), Ok(()));
    assert_eq!(lamports(&ledger, 1), 95);
    assert_eq!(lamports(&ledger, 2), 12);
}

#[test]
fn only_an_empty_vault_is_refunded() {
    assert_eq!(
        refund_if_empty(&key(1), &key(2), 31, 1),
        Err(ErrorCode::PvpVaultNotEmpty)
    );
    assert_eq!(
        refund_if_empty(&key(1), &key(2), 30, 0),
        Ok(Transfer { from: key(1), to: key(2), lamports: 30 })
    );
}

#[test]
fn a_deposit_moves_its_whole_price() {
    for price in [1u64, 19, 20, 21, 1_000, 123_457, 500_000_000] {
        let plan = transfer_user_to_vault_with_dev_fee(&key(1), &key(2), &key(3), price).unwrap();
        let moved: u64 = plan.iter().map(|transfer| transfer.lamports).sum();
        assert_eq!(moved, price);
        assert!(plan.iter().all(|transfer| transfer.from == key(1)));
    }
}

#[test]
fn payouts_keep_the_sum_of_all_balances() {
    let mut ledger = ledger(&[(1, 1_000), (2, 20), (3, 3)]);
    for (dest, amount) in [(2u8, 100u64), (3, 50), (1, 10), (2, 5_000), (3, 820)] {
        let _ = pay_above_reserve(&mut ledger, &key(1), &key(dest), Some(30), amount);
        assert_eq!(
            lamports(&ledger, 1) + lamports(&ledger, 2) + lamports(&ledger, 3),
            1_023
        );
        assert!(lamports(&ledger, 1) >= 30);
    }
    assert_eq!(lamports(&ledger, 1), 30);
}
