use x402_facilitator::{ErrorCode, PaymentReceipt, Pubkey, ReceiptLedger};

fn seller() -> Pubkey {
    Pubkey { bytes: [4; 32] }
}

fn receipt(payment_id: &str, amount: u64) -> PaymentReceipt {
    PaymentReceipt::new(
        payment_id.to_string(),
        amount,
        seller(),
        amount / 10,
        amount / 40,
        1_700_000_000,
    )
}

#[test]
fn a_receipt_holds_what_it_was_made_with() {
    let r = PaymentReceipt::new("inv-1".to_string(), 1_000_000, seller(), 100_000, 25_000, -5);
    assert_eq!(r.payment_id(), "inv-1");
    assert_eq!(r.amount(), 1_000_000);
    assert_eq!(r.seller(), seller());
    assert_eq!(r.tithe_amount(), 100_000);
    assert_eq!(r.fee_amount(), 25_000);
    assert_eq!(r.timestamp(), -5);
    assert!(r.settled());
    assert_eq!(r.clone(), r);
}

#[test]
fn a_new_ledger_is_empty() {
    let ledger = ReceiptLedger::new();
    assert_eq!(ledger.len(), 0);
    assert!(!ledger.contains(&"inv-1".to_string()));
    assert_eq!(ledger.get(&"inv-1".to_string()), None);
    assert!(!ledger.contains(&String::new()));
}

#[test]
fn an_inserted_receipt_is_found_under_its_identifier() {
    let mut ledger = ReceiptLedger::new();
    assert_eq!(ledger.insert(receipt("inv-1", 400)), Ok(()));
    assert_eq!(ledger.insert(receipt("inv-2", 800)), Ok(()));
    assert_eq!(ledger.insert(receipt("", 1200)), Ok(()));
    assert_eq!(ledger.len(), 3);
    assert!(ledger.contains(&"inv-1".to_string()));
    assert!(ledger.contains(&"inv-2".to_string()));
    assert!(ledger.contains(&String::new()));
    assert!(!ledger.contains(&"inv-3".to_string()));
    assert!(!ledger.contains(&"INV-1".to_string()));
    assert!(!ledger.contains(&"inv-1 ".to_string()));
    assert_eq!(ledger.get(&"inv-1".to_string()), Some(&receipt("inv-1", 400)));
    assert_eq!(ledger.get(&"inv-2".to_string()), Some(&receipt("inv-2", 800)));
    assert_eq!(ledger.get(&String::new()), Some(&receipt("", 1200)));
    assert_eq!(ledger.get(&"inv-3".to_string()), None);
}

#[test]
fn a_second_receipt_for_an_identifier_is_refused() {
    let mut ledger = ReceiptLedger::new();
    assert_eq!(ledger.insert(receipt("inv-1", 400)), Ok(()));
    assert_eq!(ledger.insert(receipt("inv-1", 400)), Err(ErrorCode::AlreadySettled));
    assert_eq!(ledger.insert(receipt("inv-1", 999)), Err(ErrorCode::AlreadySettled));
    assert_eq!(ledger.len(), 1);
    assert_eq!(ledger.get(&"inv-1".to_string()).unwrap().amount(), 400);
    assert_eq!(ledger.insert(receipt("inv-2", 999)), Ok(()));
    assert_eq!(ledger.insert(receipt("inv-1", 7)), Err(ErrorCode::AlreadySettled));
    assert_eq!(ledger.len(), 2);
    assert_eq!(ledger.get(&"inv-1".to_string()), Some(&receipt("inv-1", 400)));
}
