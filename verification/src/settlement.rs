//! The settlement engine. A settlement is decided in two steps around the
//! work of the external ledger: `settle_payment` checks the request and
//! computes the disbursements to make; once the ledger has answered,
//! `record_settlement` writes the receipt and counts the payment, at a time
//! that the caller gives, and `record_settlement_now` does so at the time of
//! the ledger's clock.

use vstd::prelude::*;
use vstd::utf8::encode_utf8;
use crate::clock::ledger_unix_timestamp;
use crate::config::{counted, totals_fit, FacilitatorConfig, FacilitatorConfigView};
use crate::error::ErrorCode;
use crate::pubkey::Pubkey;
use crate::receipt::{has_receipt, PaymentReceipt, PaymentReceiptView, ReceiptLedger};
use crate::split::{split_fits, split_of, split_payment, Split};

verus! {

/// The longest payment identifier, in bytes.
pub const MAX_PAYMENT_ID_LEN: usize = 32;

/// The accounts of one settlement: the seller, the escrow that holds the
/// payment and the identity that may move it, and the three destinations.
#[derive(Clone, Copy, Debug, PartialEq, Eq)]
pub struct SettlePayment {
    pub seller: Pubkey,
    pub escrow_token_account: Pubkey,
    pub seller_token_account: Pubkey,
    pub impact_treasury_account: Pubkey,
    pub protocol_treasury_account: Pubkey,
    pub escrow_authority: Pubkey,
}

/// One transfer for the external ledger to make.
#[derive(Clone, Copy, Debug, PartialEq, Eq)]
pub struct TransferInstruction {
    pub from: Pubkey,
    pub to: Pubkey,
    pub authority: Pubkey,
    pub amount: u64,
}

/// What the external ledger answered to the transfers of a settlement,
/// which it makes all or not at all.
#[derive(Clone, Copy, Debug, PartialEq, Eq, Structural)]
pub enum TransferOutcome {
    /// Every transfer was made.
    Completed,
    /// The escrow had already paid this settlement out.
    AlreadyWithdrawn,
    /// A transfer was refused, and none was made.
    Rejected,
}

/// A settlement that was decided and waits for the external ledger: the
/// request it answers and the split it computed. Its three amounts add up to
/// the amount of the payment.
#[derive(Debug, PartialEq, Eq)]
pub struct Settlement {
    payment_id: String,
    amount: u64,
    accounts: SettlePayment,
    split: Split,
}

/// What a pending settlement holds, as mathematical values.
pub struct SettlementView {
    pub payment_id: Seq<char>,
    pub amount: nat,
    pub accounts: SettlePayment,
    pub split: Split,
}

/// The length of a payment identifier in bytes.
pub open spec fn payment_id_len(payment_id: Seq<char>) -> nat {
    encode_utf8(payment_id).len()
}

/// The transfers that disburse a split, in the order in which they are to be
/// made: to the seller, to the impact treasury, and, only where there is a
/// fee, to the protocol treasury.
pub open spec fn transfer_batch(accounts: SettlePayment, split: Split) -> Seq<
    TransferInstruction,
> {
    let to_seller = TransferInstruction {
        from: accounts.escrow_token_account,
        to: accounts.seller_token_account,
        authority: accounts.escrow_authority,
        amount: split.seller_amount,
    };
    let to_impact_treasury = TransferInstruction {
        from: accounts.escrow_token_account,
        to: accounts.impact_treasury_account,
        authority: accounts.escrow_authority,
        amount: split.tithe_amount,
    };
    let to_protocol_treasury = TransferInstruction {
        from: accounts.escrow_token_account,
        to: accounts.protocol_treasury_account,
        authority: accounts.escrow_authority,
        amount: split.fee_amount,
    };
    if split.fee_amount > 0 {
        seq![to_seller, to_impact_treasury, to_protocol_treasury]
    } else {
        seq![to_seller, to_impact_treasury]
    }
}

/// The sum of the amounts of a batch of transfers.
pub open spec fn batch_total(batch: Seq<TransferInstruction>) -> nat
    decreases batch.len(),
{
    if batch.len() == 0 {
        0
    } else {
        batch_total(batch.drop_last()) + batch.last().amount as nat
    }
}

/// What `settle_payment` decides: the pending settlement, or the reason for
/// which the payment is not settled. The checks come in this order: the
/// amount, the length of the identifier, the receipt ledger, the arithmetic.
pub open spec fn settle_payment_spec(
    ctx: SettlePayment,
    config: FacilitatorConfigView,
    ledger: Seq<PaymentReceiptView>,
    amount: u64,
    payment_id: Seq<char>,
) -> Result<SettlementView, ErrorCode> {
    if amount == 0 {
        Err(ErrorCode::InvalidAmount)
    } else if payment_id_len(payment_id) > MAX_PAYMENT_ID_LEN {
        Err(ErrorCode::PaymentIdTooLong)
    } else if has_receipt(ledger, payment_id) {
        Err(ErrorCode::AlreadySettled)
    } else if !split_fits(amount as nat, config.tithe_bps, config.fee_bps) {
        Err(ErrorCode::MathOverflow)
    } else if !totals_fit(config, amount as nat) {
        Err(ErrorCode::MathOverflow)
    } else {
        Ok(
            SettlementView {
                payment_id,
                amount: amount as nat,
                accounts: ctx,
                split: split_of(amount as nat, config.tithe_bps, config.fee_bps),
            },
        )
    }
}

/// The receipt of a settlement whose transfers were made at `timestamp`.
pub open spec fn receipt_for(settlement: SettlementView, timestamp: i64) -> PaymentReceiptView {
    PaymentReceiptView {
        payment_id: settlement.payment_id,
        amount: settlement.amount,
        seller: settlement.accounts.seller@,
        tithe_amount: settlement.split.tithe_amount as nat,
        fee_amount: settlement.split.fee_amount as nat,
        timestamp: timestamp as int,
        settled: true,
    }
}

/// The reason for which a settlement is not recorded, if there is one. It
/// does not depend on the time: the answer of the external ledger comes
/// first, then the receipt ledger, then the totals.
pub open spec fn record_refusal(
    config: FacilitatorConfigView,
    ledger: Seq<PaymentReceiptView>,
    settlement: SettlementView,
    outcome: TransferOutcome,
) -> Option<ErrorCode> {
    match outcome {
        TransferOutcome::Rejected => Some(ErrorCode::TransferFailed),
        TransferOutcome::AlreadyWithdrawn => Some(ErrorCode::AlreadySettled),
        TransferOutcome::Completed => {
            if has_receipt(ledger, settlement.payment_id) {
                Some(ErrorCode::AlreadySettled)
            } else if !totals_fit(config, settlement.amount) {
                Some(ErrorCode::MathOverflow)
            } else {
                None
            }
        },
    }
}

/// What `record_settlement` decides: the receipt it writes, or the reason
/// for which it writes none.
pub open spec fn record_settlement_spec(
    config: FacilitatorConfigView,
    ledger: Seq<PaymentReceiptView>,
    settlement: SettlementView,
    outcome: TransferOutcome,
    timestamp: i64,
) -> Result<PaymentReceiptView, ErrorCode> {
    match record_refusal(config, ledger, settlement, outcome) {
        Some(e) => Err(e),
        None => Ok(receipt_for(settlement, timestamp)),
    }
}

/// The configuration after `record_settlement`: with the payment counted
/// where the receipt was written, and as it was where none was.
pub open spec fn config_after_record(
    config: FacilitatorConfigView,
    ledger: Seq<PaymentReceiptView>,
    settlement: SettlementView,
    outcome: TransferOutcome,
    timestamp: i64,
) -> FacilitatorConfigView {
    match record_settlement_spec(config, ledger, settlement, outcome, timestamp) {
        Ok(_) => counted(config, settlement.amount),
        Err(_) => config,
    }
}

/// The ledger after `record_settlement`: with the receipt at its end where
/// one was written, and as it was where none was.
pub open spec fn ledger_after_record(
    config: FacilitatorConfigView,
    ledger: Seq<PaymentReceiptView>,
    settlement: SettlementView,
    outcome: TransferOutcome,
    timestamp: i64,
) -> Seq<PaymentReceiptView> {
    match record_settlement_spec(config, ledger, settlement, outcome, timestamp) {
        Ok(receipt) => ledger.push(receipt),
        Err(_) => ledger,
    }
}

/// What a receipt or an error holds, as mathematical values.
pub open spec fn recorded_view(r: Result<PaymentReceipt, ErrorCode>) -> Result<
    PaymentReceiptView,
    ErrorCode,
> {
    match r {
        Ok(receipt) => Ok(receipt@),
        Err(e) => Err(e),
    }
}

/// Whether a result and the state that goes with it are what
/// `record_settlement` gives for the transfers having been answered at
/// `timestamp`.
pub open spec fn records(
    config: FacilitatorConfigView,
    ledger: Seq<PaymentReceiptView>,
    settlement: SettlementView,
    outcome: TransferOutcome,
    timestamp: i64,
    r: Result<PaymentReceiptView, ErrorCode>,
    config_after: FacilitatorConfigView,
    ledger_after: Seq<PaymentReceiptView>,
) -> bool {
    &&& r == record_settlement_spec(config, ledger, settlement, outcome, timestamp)
    &&& config_after == config_after_record(config, ledger, settlement, outcome, timestamp)
    &&& ledger_after == ledger_after_record(config, ledger, settlement, outcome, timestamp)
}

impl View for Settlement {
    type V = SettlementView;

    closed spec fn view(&self) -> SettlementView {
        SettlementView {
            payment_id: self.payment_id@,
            amount: self.amount as nat,
            accounts: self.accounts,
            split: self.split,
        }
    }
}

/// The amount is positive, the identifier is short enough, and the three
/// amounts of the split add up to the amount.
pub open spec fn well_formed(settlement: SettlementView) -> bool {
    &&& settlement.amount > 0
    &&& payment_id_len(settlement.payment_id) <= MAX_PAYMENT_ID_LEN
    &&& settlement.split.seller_amount + settlement.split.tithe_amount
        + settlement.split.fee_amount == settlement.amount
}

impl Settlement {
    /// The invariant of the type: the settlement is well formed.
    #[verifier::type_invariant]
    pub open spec fn is_well_formed(self) -> bool {
        well_formed(self@)
    }

    /// The identifier of the payment.
    pub fn payment_id(&self) -> (id: &String)
        ensures
            id@ == self@.payment_id,
            payment_id_len(id@) <= MAX_PAYMENT_ID_LEN,
    {
        proof {
            use_type_invariant(self);
        }
        &self.payment_id
    }

    /// The amount to settle, which is positive.
    pub fn amount(&self) -> (amount: u64)
        ensures
            amount == self@.amount,
            amount > 0,
    {
        proof {
            use_type_invariant(self);
        }
        self.amount
    }

    /// The accounts between which the payment is settled.
    pub fn accounts(&self) -> (accounts: SettlePayment)
        ensures
            accounts == self@.accounts,
    {
        self.accounts
    }

    /// The three amounts, which add up to the amount of the payment.
    pub fn split(&self) -> (split: Split)
        ensures
            split == self@.split,
            split.seller_amount + split.tithe_amount + split.fee_amount == self@.amount,
    {
        proof {
            use_type_invariant(self);
        }
        self.split
    }

    /// The transfers for the external ledger to make, in order.
    pub fn transfers(&self) -> (batch: Vec<TransferInstruction>)
        ensures
            batch@ == transfer_batch(self@.accounts, self@.split),
    {
        let mut batch: Vec<TransferInstruction> = Vec::new();
        batch.push(
            TransferInstruction {
                from: self.accounts.escrow_token_account,
                to: self.accounts.seller_token_account,
                authority: self.accounts.escrow_authority,
                amount: self.split.seller_amount,
            },
        );
        batch.push(
            TransferInstruction {
                from: self.accounts.escrow_token_account,
                to: self.accounts.impact_treasury_account,
                authority: self.accounts.escrow_authority,
                amount: self.split.tithe_amount,
            },
        );
        if self.split.fee_amount > 0 {
            batch.push(
                TransferInstruction {
                    from: self.accounts.escrow_token_account,
                    to: self.accounts.protocol_treasury_account,
                    authority: self.accounts.escrow_authority,
                    amount: self.split.fee_amount,
                },
            );
        }
        batch
    }
}

/// Decides the settlement of `amount` under `payment_id`. Nothing is
/// changed: the result holds the transfers to hand to the external ledger,
/// and `record_settlement` takes its answer. A payment whose identifier
/// has a receipt is refused with `AlreadySettled`, so that no further
/// transfer is asked for.
pub fn settle_payment(
    ctx: &SettlePayment,
    config: &FacilitatorConfig,
    receipts: &ReceiptLedger,
    amount: u64,
    payment_id: String,
) -> (r: Result<Settlement, ErrorCode>)
    ensures
        match settle_payment_spec(*ctx, config@, receipts@, amount, payment_id@) {
            Ok(settlement) => r is Ok && r->Ok_0@ == settlement,
            Err(e) => r == Err::<Settlement, ErrorCode>(e),
        },
{
    if amount == 0 {
        return Err(ErrorCode::InvalidAmount);
    }
    if payment_id.as_str().as_bytes().len() > MAX_PAYMENT_ID_LEN {
        return Err(ErrorCode::PaymentIdTooLong);
    }
    if receipts.contains(&payment_id) {
        return Err(ErrorCode::AlreadySettled);
    }
    let split = match split_payment(amount, config.tithe_bps(), config.fee_bps()) {
        Ok(split) => split,
        Err(e) => return Err(e),
    };
    if !config.can_count(amount) {
        return Err(ErrorCode::MathOverflow);
    }
    Ok(Settlement { payment_id, amount, accounts: *ctx, split })
}

/// The reason for which the settlement is not recorded, if there is one.
fn refusal(
    config: &FacilitatorConfig,
    receipts: &ReceiptLedger,
    settlement: &Settlement,
    outcome: TransferOutcome,
) -> (r: Option<ErrorCode>)
    ensures
        r == record_refusal(config@, receipts@, settlement@, outcome),
{
    match outcome {
        TransferOutcome::Rejected => return Some(ErrorCode::TransferFailed),
        TransferOutcome::AlreadyWithdrawn => return Some(ErrorCode::AlreadySettled),
        TransferOutcome::Completed => {},
    }
    if receipts.contains(&settlement.payment_id) {
        return Some(ErrorCode::AlreadySettled);
    }
    if !config.can_count(settlement.amount) {
        return Some(ErrorCode::MathOverflow);
    }
    None
}

/// Takes the answer of the external ledger to the transfers of a
/// settlement. Where they were made, the receipt is written and the payment
/// is counted, both or neither. Where they were not, or where the payment
/// identifier has a receipt by now, nothing is changed.
pub fn record_settlement(
    config: &mut FacilitatorConfig,
    receipts: &mut ReceiptLedger,
    settlement: Settlement,
    outcome: TransferOutcome,
    timestamp: i64,
) -> (r: Result<PaymentReceipt, ErrorCode>)
    ensures
        records(
            old(config)@,
            old(receipts)@,
            settlement@,
            outcome,
            timestamp,
            recorded_view(r),
            final(config)@,
            final(receipts)@,
        ),
        r is Err ==> *final(config) == *old(config) && *final(receipts) == *old(receipts),
{
    if let Some(e) = refusal(config, receipts, &settlement, outcome) {
        return Err(e);
    }
    let receipt = PaymentReceipt::new(
        settlement.payment_id,
        settlement.amount,
        settlement.accounts.seller,
        settlement.split.tithe_amount,
        settlement.split.fee_amount,
        timestamp,
    );
    let written = receipt.clone();
    match receipts.insert(receipt) {
        Ok(()) => {},
        Err(e) => return Err(e),
    }
    config.count_payment(settlement.amount);
    Ok(written)
}

/// Records a settlement as `record_settlement` does, at the time that the
/// clock of the ledger gives. The clock is read only once nothing else
/// stands against the receipt, so a settlement that is refused is refused
/// for the same reason as there. Where the clock cannot be read, nothing is
/// changed and the call fails with `ClockUnavailable`; the time itself is
/// whatever the ledger says.
pub fn record_settlement_now(
    config: &mut FacilitatorConfig,
    receipts: &mut ReceiptLedger,
    settlement: Settlement,
    outcome: TransferOutcome,
) -> (r: Result<PaymentReceipt, ErrorCode>)
    ensures
        match record_refusal(old(config)@, old(receipts)@, settlement@, outcome) {
            Some(e) => r == Err::<PaymentReceipt, ErrorCode>(e),
            None => r == Err::<PaymentReceipt, ErrorCode>(ErrorCode::ClockUnavailable) || exists|
                timestamp: i64,
            |
                #[trigger] records(
                    old(config)@,
                    old(receipts)@,
                    settlement@,
                    outcome,
                    timestamp,
                    recorded_view(r),
                    final(config)@,
                    final(receipts)@,
                ),
        },
        r is Err ==> *final(config) == *old(config) && *final(receipts) == *old(receipts),
{
    if let Some(e) = refusal(config, receipts, &settlement, outcome) {
        return Err(e);
    }
    match ledger_unix_timestamp() {
        Ok(timestamp) => record_settlement(config, receipts, settlement, outcome, timestamp),
        Err(_) => Err(ErrorCode::ClockUnavailable),
    }
}

} // verus!
