//! Receipts and the ledger that keeps them: one receipt for each payment
//! identifier, written once and never changed or removed.

use vstd::prelude::*;
use crate::error::ErrorCode;
use crate::pubkey::Pubkey;

verus! {

/// The record of one settled payment. A receipt exists only for a payment
/// that was settled, so its flag is always set.
#[derive(Debug, PartialEq, Eq)]
pub struct PaymentReceipt {
    payment_id: String,
    amount: u64,
    seller: Pubkey,
    tithe_amount: u64,
    fee_amount: u64,
    timestamp: i64,
    settled: bool,
}

/// What a receipt holds, as mathematical values.
pub struct PaymentReceiptView {
    pub payment_id: Seq<char>,
    pub amount: nat,
    pub seller: Seq<u8>,
    pub tithe_amount: nat,
    pub fee_amount: nat,
    pub timestamp: int,
    pub settled: bool,
}

impl View for PaymentReceipt {
    type V = PaymentReceiptView;

    closed spec fn view(&self) -> PaymentReceiptView {
        PaymentReceiptView {
            payment_id: self.payment_id@,
            amount: self.amount as nat,
            seller: self.seller@,
            tithe_amount: self.tithe_amount as nat,
            fee_amount: self.fee_amount as nat,
            timestamp: self.timestamp as int,
            settled: self.settled,
        }
    }
}

impl PaymentReceipt {
    /// The invariant of the type: the payment is settled.
    #[verifier::type_invariant]
    pub open spec fn is_settled(self) -> bool {
        self@.settled
    }

    /// The receipt of a payment settled at `timestamp`.
    pub fn new(
        payment_id: String,
        amount: u64,
        seller: Pubkey,
        tithe_amount: u64,
        fee_amount: u64,
        timestamp: i64,
    ) -> (r: PaymentReceipt)
        ensures
            r@ == (PaymentReceiptView {
                payment_id: payment_id@,
                amount: amount as nat,
                seller: seller@,
                tithe_amount: tithe_amount as nat,
                fee_amount: fee_amount as nat,
                timestamp: timestamp as int,
                settled: true,
            }),
    {
        PaymentReceipt {
            payment_id,
            amount,
            seller,
            tithe_amount,
            fee_amount,
            timestamp,
            settled: true,
        }
    }
}

impl PaymentReceipt {
    /// The identifier of the payment.
    pub fn payment_id(&self) -> (id: &String)
        ensures
            id@ == self@.payment_id,
    {
        &self.payment_id
    }

    /// The amount that was settled.
    pub fn amount(&self) -> (amount: u64)
        ensures
            amount == self@.amount,
    {
        self.amount
    }

    /// The identity of the seller.
    pub fn seller(&self) -> (key: Pubkey)
        ensures
            key@ == self@.seller,
    {
        self.seller
    }

    /// The part that went to the impact treasury.
    pub fn tithe_amount(&self) -> (amount: u64)
        ensures
            amount == self@.tithe_amount,
    {
        self.tithe_amount
    }

    /// The part that went to the protocol treasury.
    pub fn fee_amount(&self) -> (amount: u64)
        ensures
            amount == self@.fee_amount,
    {
        self.fee_amount
    }

    /// When the payment was settled.
    pub fn timestamp(&self) -> (at: i64)
        ensures
            at == self@.timestamp,
    {
        self.timestamp
    }

    /// Whether the payment is settled, which it is.
    pub fn settled(&self) -> (flag: bool)
        ensures
            flag == self@.settled,
            flag,
    {
        proof {
            use_type_invariant(self);
        }
        self.settled
    }
}

impl Clone for PaymentReceipt {
    fn clone(&self) -> (r: PaymentReceipt)
        ensures
            r@ == self@,
    {
        proof {
            use_type_invariant(self);
        }
        PaymentReceipt {
            payment_id: self.payment_id.clone(),
            amount: self.amount,
            seller: self.seller,
            tithe_amount: self.tithe_amount,
            fee_amount: self.fee_amount,
            timestamp: self.timestamp,
            settled: self.settled,
        }
    }
}

/// Whether the ledger holds a receipt for the payment identifier.
pub open spec fn has_receipt(ledger: Seq<PaymentReceiptView>, payment_id: Seq<char>) -> bool {
    exists|i: int| 0 <= i < ledger.len() && (#[trigger] ledger[i]).payment_id == payment_id
}

/// The receipt that the ledger holds for the payment identifier, if any.
pub open spec fn receipt_of(ledger: Seq<PaymentReceiptView>, payment_id: Seq<char>) -> Option<
    PaymentReceiptView,
> {
    if has_receipt(ledger, payment_id) {
        let i = choose|i: int|
            0 <= i < ledger.len() && (#[trigger] ledger[i]).payment_id == payment_id;
        Some(ledger[i])
    } else {
        None
    }
}

/// No payment identifier has two receipts, and every receipt is settled.
pub open spec fn write_once(ledger: Seq<PaymentReceiptView>) -> bool {
    &&& forall|i: int, j: int|
        0 <= i < j < ledger.len() ==> (#[trigger] ledger[i]).payment_id != (
        #[trigger] ledger[j]).payment_id
    &&& forall|i: int| 0 <= i < ledger.len() ==> (#[trigger] ledger[i]).settled
}

/// What an optional receipt holds, as mathematical values.
pub open spec fn found_view(found: Option<&PaymentReceipt>) -> Option<PaymentReceiptView> {
    match found {
        Some(receipt) => Some(receipt@),
        None => None,
    }
}

/// The receipts of a deployment, in the order in which they were written.
#[derive(Debug)]
pub struct ReceiptLedger {
    receipts: Vec<PaymentReceipt>,
}

impl View for ReceiptLedger {
    type V = Seq<PaymentReceiptView>;

    closed spec fn view(&self) -> Seq<PaymentReceiptView> {
        views_of(self.receipts@)
    }
}

/// The receipts of a sequence, each as mathematical values.
spec fn views_of(receipts: Seq<PaymentReceipt>) -> Seq<PaymentReceiptView> {
    receipts.map_values(|receipt: PaymentReceipt| receipt@)
}

impl ReceiptLedger {
    /// The invariant of the type: the ledger is write-once.
    #[verifier::type_invariant]
    pub open spec fn is_write_once(self) -> bool {
        write_once(self@)
    }

    /// A ledger without receipts.
    pub fn new() -> (r: ReceiptLedger)
        ensures
            r@ == Seq::<PaymentReceiptView>::empty(),
    {
        ReceiptLedger { receipts: Vec::new() }
    }

    /// The number of receipts.
    pub fn len(&self) -> (n: usize)
        ensures
            n == self@.len(),
    {
        self.receipts.len()
    }

    /// Where the receipt of the payment identifier stands, if there is one.
    fn position(&self, payment_id: &String) -> (r: Option<usize>)
        ensures
            match r {
                Some(i) => i < self@.len() && self@[i as int].payment_id == payment_id@,
                None => !has_receipt(self@, payment_id@),
            },
    {
        let mut i: usize = 0;
        while i < self.receipts.len()
            invariant
                i <= self.receipts.len(),
                forall|j: int| 0 <= j < i ==> (#[trigger] self@[j]).payment_id != payment_id@,
            decreases self.receipts.len() - i,
        {
            if self.receipts[i].payment_id == *payment_id {
                return Some(i);
            }
            i += 1;
        }
        None
    }

    /// Whether the payment identifier has a receipt.
    pub fn contains(&self, payment_id: &String) -> (found: bool)
        ensures
            found == has_receipt(self@, payment_id@),
    {
        self.position(payment_id).is_some()
    }

    /// The receipt of the payment identifier, if it has one.
    pub fn get(&self, payment_id: &String) -> (found: Option<&PaymentReceipt>)
        ensures
            found_view(found) == receipt_of(self@, payment_id@),
    {
        proof {
            use_type_invariant(self);
        }
        match self.position(payment_id) {
            Some(i) => Some(&self.receipts[i]),
            None => None,
        }
    }

    /// Writes the receipt unless its payment identifier already has one. A
    /// receipt that was written stays as it is: nothing changes or removes it.
    pub fn insert(&mut self, receipt: PaymentReceipt) -> (r: Result<(), ErrorCode>)
        ensures
            has_receipt(old(self)@, receipt@.payment_id) ==> r == Err::<(), ErrorCode>(
                ErrorCode::AlreadySettled,
            ) && final(self)@ == old(self)@,
            !has_receipt(old(self)@, receipt@.payment_id) ==> r is Ok && final(self)@ == old(
                self,
            )@.push(receipt@),
    {
        proof {
            use_type_invariant(&*self);
            use_type_invariant(&receipt);
        }
        if self.contains(&receipt.payment_id) {
            return Err(ErrorCode::AlreadySettled);
        }
        // The receipts are taken out while the new one is appended, so that
        // the ledger is write-once at every step.
        let mut receipts: Vec<PaymentReceipt> = Vec::new();
        core::mem::swap(&mut self.receipts, &mut receipts);
        receipts.push(receipt);
        assert(views_of(receipts@) =~= old(self)@.push(receipt@));
        core::mem::swap(&mut self.receipts, &mut receipts);
        Ok(())
    }
}

} // verus!
