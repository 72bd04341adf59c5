//! What holds of the facilitator as a whole, stated over the functions by
//! which the operations are specified.

use vstd::prelude::*;
use crate::config::{
    config_after_update, counted, initialize_spec, rates_in_bounds, slot_after_initialize,
    update_config_spec, FacilitatorConfigView, Initialize, UpdateConfig, MAX_FEE_BPS,
    MAX_TITHE_BPS,
};
use crate::error::ErrorCode;
use crate::pubkey::Pubkey;
use crate::receipt::{has_receipt, receipt_of, write_once, PaymentReceiptView};
use crate::settlement::{
    batch_total, config_after_record, ledger_after_record, payment_id_len, receipt_for,
    record_refusal, record_settlement_spec, settle_payment_spec, transfer_batch, well_formed,
    SettlePayment, SettlementView, TransferOutcome, MAX_PAYMENT_ID_LEN,
};
use crate::split::{bps_share, split_fits, split_of};

verus! {

/// A share at a rate of at most `cap` basis points is at most the share at
/// `cap` basis points.
proof fn lemma_share_is_monotonic(amount: nat, bps: nat, cap: nat)
    requires
        bps <= cap,
    ensures
        bps_share(amount, bps) <= bps_share(amount, cap),
{
    assert(amount * bps <= amount * cap) by (nonlinear_arith)
        requires
            bps <= cap,
    ;
}

/// With rates within their bounds the split of a positive amount loses
/// nothing and takes nothing more than the amount: tithe and fee together
/// stay below the amount, so the seller's part is not negative, and the three
/// parts add up to the amount. Only a product that leaves `u64` can then make
/// the split fail.
pub proof fn lemma_split_conserves_amount(amount: u64, tithe_bps: u64, fee_bps: u64)
    requires
        amount > 0,
        rates_in_bounds(fee_bps as nat, tithe_bps as nat),
    ensures
        bps_share(amount as nat, tithe_bps as nat) + bps_share(amount as nat, fee_bps as nat)
            <= amount,
        ({
            let split = split_of(amount as nat, tithe_bps as nat, fee_bps as nat);
            &&& split.tithe_amount == bps_share(amount as nat, tithe_bps as nat)
            &&& split.fee_amount == bps_share(amount as nat, fee_bps as nat)
            &&& split.seller_amount + split.tithe_amount + split.fee_amount == amount
        }),
        split_fits(amount as nat, tithe_bps as nat, fee_bps as nat) <==> amount * tithe_bps
            <= u64::MAX && amount * fee_bps <= u64::MAX,
{
    lemma_share_is_monotonic(amount as nat, tithe_bps as nat, MAX_TITHE_BPS as nat);
    lemma_share_is_monotonic(amount as nat, fee_bps as nat, MAX_FEE_BPS as nat);
}

/// Every settlement that `settle_payment` decides is well formed, whatever
/// the rates: its amount is positive, its identifier is short enough, and
/// its three amounts add up to the amount.
pub proof fn lemma_settlement_is_well_formed(
    ctx: SettlePayment,
    config: FacilitatorConfigView,
    ledger: Seq<PaymentReceiptView>,
    amount: u64,
    payment_id: Seq<char>,
)
    ensures
        settle_payment_spec(ctx, config, ledger, amount, payment_id) matches Ok(settlement)
            ==> well_formed(settlement),
{
}

/// The transfers of a well-formed settlement disburse its amount, no more
/// and no less: there are two of them where the fee is zero and three where
/// it is not, and their amounts add up to the amount of the payment.
pub proof fn lemma_transfers_disburse_the_amount(settlement: SettlementView)
    requires
        well_formed(settlement),
    ensures
        settlement.split.fee_amount > 0 ==> transfer_batch(
            settlement.accounts,
            settlement.split,
        ).len() == 3,
        settlement.split.fee_amount == 0 ==> transfer_batch(
            settlement.accounts,
            settlement.split,
        ).len() == 2,
        batch_total(transfer_batch(settlement.accounts, settlement.split)) == settlement.amount,
{
    reveal_with_fuel(batch_total, 4);
}

/// An amount whose product with a rate leaves `u64` is never settled: the
/// request that passes the checks of amount, identifier and ledger fails
/// with `MathOverflow`, and nothing wraps or is cut short.
pub proof fn lemma_an_overflowing_amount_is_refused(
    ctx: SettlePayment,
    config: FacilitatorConfigView,
    ledger: Seq<PaymentReceiptView>,
    amount: u64,
    payment_id: Seq<char>,
)
    requires
        amount > 0,
        payment_id_len(payment_id) <= MAX_PAYMENT_ID_LEN,
        !has_receipt(ledger, payment_id),
        amount * config.tithe_bps > u64::MAX || amount * config.fee_bps > u64::MAX,
    ensures
        settle_payment_spec(ctx, config, ledger, amount, payment_id) == Err::<
            SettlementView,
            ErrorCode,
        >(ErrorCode::MathOverflow),
{
}

/// Settling is idempotent. Once a settlement was decided and its transfers
/// were recorded as made, the payment identifier has exactly one receipt,
/// the one just written, and the ledger is still write-once. From then on
/// the same request, and any other request of a positive amount under that
/// identifier, is refused with `AlreadySettled`, so no further transfer is
/// asked for; and recording the settlement once more is refused too and
/// leaves both the totals and the ledger as they are.
pub proof fn lemma_settling_is_idempotent(
    ctx: SettlePayment,
    config: FacilitatorConfigView,
    ledger: Seq<PaymentReceiptView>,
    amount: u64,
    payment_id: Seq<char>,
    timestamp: i64,
    again: SettlePayment,
    amount_again: u64,
    later: i64,
)
    requires
        write_once(ledger),
        settle_payment_spec(ctx, config, ledger, amount, payment_id) is Ok,
        amount_again > 0,
    ensures
        ({
            let settlement = settle_payment_spec(ctx, config, ledger, amount, payment_id)->Ok_0;
            let receipt = receipt_for(settlement, timestamp);
            let config_then = config_after_record(
                config,
                ledger,
                settlement,
                TransferOutcome::Completed,
                timestamp,
            );
            let ledger_then = ledger_after_record(
                config,
                ledger,
                settlement,
                TransferOutcome::Completed,
                timestamp,
            );
            &&& record_settlement_spec(
                config,
                ledger,
                settlement,
                TransferOutcome::Completed,
                timestamp,
            ) == Ok::<PaymentReceiptView, ErrorCode>(receipt)
            &&& config_then == counted(config, amount as nat)
            &&& ledger_then == ledger.push(receipt)
            &&& write_once(ledger_then)
            &&& receipt_of(ledger_then, payment_id) == Some(receipt)
            &&& forall|i: int|
                0 <= i < ledger_then.len() && (#[trigger] ledger_then[i]).payment_id
                    == payment_id ==> i == ledger.len()
            &&& settle_payment_spec(ctx, config_then, ledger_then, amount, payment_id) == Err::<
                SettlementView,
                ErrorCode,
            >(ErrorCode::AlreadySettled)
            &&& settle_payment_spec(again, config_then, ledger_then, amount_again, payment_id)
                == Err::<SettlementView, ErrorCode>(ErrorCode::AlreadySettled)
            &&& record_settlement_spec(
                config_then,
                ledger_then,
                settlement,
                TransferOutcome::Completed,
                later,
            ) == Err::<PaymentReceiptView, ErrorCode>(ErrorCode::AlreadySettled)
            &&& config_after_record(
                config_then,
                ledger_then,
                settlement,
                TransferOutcome::Completed,
                later,
            ) == config_then
            &&& ledger_after_record(
                config_then,
                ledger_then,
                settlement,
                TransferOutcome::Completed,
                later,
            ) == ledger_then
        }),
{
    let settlement = settle_payment_spec(ctx, config, ledger, amount, payment_id)->Ok_0;
    let ledger_then = ledger.push(receipt_for(settlement, timestamp));
    // The receipt just written stands last, under the payment identifier.
    assert(ledger_then[ledger.len() as int].payment_id == payment_id);
}

/// Where the external ledger did not make the transfers, nothing is
/// recorded: `record_settlement` fails, with `TransferFailed` for a rejection
/// and `AlreadySettled` for an escrow already paid out, and totals and
/// ledger stay as they are.
pub proof fn lemma_failed_transfers_change_nothing(
    config: FacilitatorConfigView,
    ledger: Seq<PaymentReceiptView>,
    settlement: SettlementView,
    outcome: TransferOutcome,
    timestamp: i64,
)
    requires
        outcome != TransferOutcome::Completed,
    ensures
        record_refusal(config, ledger, settlement, outcome) == Some(
            if outcome == TransferOutcome::Rejected {
                ErrorCode::TransferFailed
            } else {
                ErrorCode::AlreadySettled
            },
        ),
        record_settlement_spec(config, ledger, settlement, outcome, timestamp) is Err,
        config_after_record(config, ledger, settlement, outcome, timestamp) == config,
        ledger_after_record(config, ledger, settlement, outcome, timestamp) == ledger,
{
}

/// The bounds of the rates are inclusive, and they are the whole of what
/// `initialize` and `update_config` ask of a rate: an empty slot is
/// configured, and the authority's change is accepted, exactly when every
/// rate supplied is within its bound. A fee above its bound is refused with
/// `FeeTooHigh`; a tithe above its bound, the fee being in order, with
/// `TitheTooHigh`.
pub proof fn lemma_rates_are_accepted_within_bounds(
    config: FacilitatorConfigView,
    init: Initialize,
    update: UpdateConfig,
    impact_treasury: Pubkey,
    fee_bps: u64,
    tithe_bps: u64,
)
    requires
        update.authority@ == config.authority,
    ensures
        initialize_spec(None, init, impact_treasury@, fee_bps as nat, tithe_bps as nat) is Ok
            <==> fee_bps <= MAX_FEE_BPS && tithe_bps <= MAX_TITHE_BPS,
        fee_bps > MAX_FEE_BPS ==> initialize_spec(
            None,
            init,
            impact_treasury@,
            fee_bps as nat,
            tithe_bps as nat,
        ) == Err::<FacilitatorConfigView, ErrorCode>(ErrorCode::FeeTooHigh),
        fee_bps <= MAX_FEE_BPS && tithe_bps > MAX_TITHE_BPS ==> initialize_spec(
            None,
            init,
            impact_treasury@,
            fee_bps as nat,
            tithe_bps as nat,
        ) == Err::<FacilitatorConfigView, ErrorCode>(ErrorCode::TitheTooHigh),
        update_config_spec(config, update, Some(fee_bps), Some(tithe_bps), Some(impact_treasury))
            is Ok <==> fee_bps <= MAX_FEE_BPS && tithe_bps <= MAX_TITHE_BPS,
        update_config_spec(config, update, Some(fee_bps), None, None) is Ok <==> fee_bps
            <= MAX_FEE_BPS,
        update_config_spec(config, update, None, Some(tithe_bps), None) is Ok <==> tithe_bps
            <= MAX_TITHE_BPS,
        fee_bps > MAX_FEE_BPS ==> update_config_spec(
            config,
            update,
            Some(fee_bps),
            Some(tithe_bps),
            Some(impact_treasury),
        ) == Err::<FacilitatorConfigView, ErrorCode>(ErrorCode::FeeTooHigh),
        fee_bps <= MAX_FEE_BPS && tithe_bps > MAX_TITHE_BPS ==> update_config_spec(
            config,
            update,
            Some(fee_bps),
            Some(tithe_bps),
            Some(impact_treasury),
        ) == Err::<FacilitatorConfigView, ErrorCode>(ErrorCode::TitheTooHigh),
{
}

/// The rates of a configuration start within their bounds: whatever
/// `initialize` creates has them so.
pub proof fn lemma_rates_start_in_bounds(
    slot: Option<FacilitatorConfigView>,
    ctx: Initialize,
    impact_treasury: Seq<u8>,
    fee_bps: nat,
    tithe_bps: nat,
)
    ensures
        initialize_spec(slot, ctx, impact_treasury, fee_bps, tithe_bps) matches Ok(created)
            ==> rates_in_bounds(created.fee_bps, created.tithe_bps),
{
}

/// The rates of a configuration stay within their bounds: `update_config`
/// keeps them so, whether it accepts or refuses the change.
pub proof fn lemma_rates_stay_in_bounds_when_updated(
    config: FacilitatorConfigView,
    ctx: UpdateConfig,
    new_fee_bps: Option<u64>,
    new_tithe_bps: Option<u64>,
    new_impact_treasury: Option<Pubkey>,
)
    requires
        rates_in_bounds(config.fee_bps, config.tithe_bps),
    ensures
        ({
            let changed = config_after_update(
                config,
                ctx,
                new_fee_bps,
                new_tithe_bps,
                new_impact_treasury,
            );
            rates_in_bounds(changed.fee_bps, changed.tithe_bps)
        }),
{
}

/// Recording a settlement touches the totals alone: the payment is counted
/// or it is not, and authority, treasury, rates and bump stay as they are.
pub proof fn lemma_recording_changes_the_totals_alone(
    config: FacilitatorConfigView,
    ledger: Seq<PaymentReceiptView>,
    settlement: SettlementView,
    outcome: TransferOutcome,
    timestamp: i64,
)
    ensures
        ({
            let recorded = config_after_record(config, ledger, settlement, outcome, timestamp);
            &&& recorded.authority == config.authority
            &&& recorded.impact_treasury == config.impact_treasury
            &&& recorded.fee_bps == config.fee_bps
            &&& recorded.tithe_bps == config.tithe_bps
            &&& recorded.bump == config.bump
            &&& recorded == config || recorded == counted(config, settlement.amount)
        }),
{
}

/// A settlement keeps the split with which it was decided. The receipt that
/// is written for it is the same whatever the configuration has become in
/// the meantime, and a change of configuration reaches no receipt: it has
/// no access to the ledger.
pub proof fn lemma_a_receipt_ignores_later_rates(
    config: FacilitatorConfigView,
    changed: FacilitatorConfigView,
    ledger: Seq<PaymentReceiptView>,
    settlement: SettlementView,
    timestamp: i64,
)
    requires
        record_settlement_spec(config, ledger, settlement, TransferOutcome::Completed, timestamp)
            is Ok,
        record_settlement_spec(changed, ledger, settlement, TransferOutcome::Completed, timestamp)
            is Ok,
    ensures
        record_settlement_spec(config, ledger, settlement, TransferOutcome::Completed, timestamp)
            == record_settlement_spec(
            changed,
            ledger,
            settlement,
            TransferOutcome::Completed,
            timestamp,
        ),
        ledger_after_record(config, ledger, settlement, TransferOutcome::Completed, timestamp)
            == ledger_after_record(
            changed,
            ledger,
            settlement,
            TransferOutcome::Completed,
            timestamp,
        ),
{
}

/// Only the authority administers. A call of `update_config` on behalf of
/// any other identity fails with `Unauthorized`, whatever it asks for, and
/// the configuration stays as it is.
pub proof fn lemma_only_the_authority_updates(
    config: FacilitatorConfigView,
    ctx: UpdateConfig,
    new_fee_bps: Option<u64>,
    new_tithe_bps: Option<u64>,
    new_impact_treasury: Option<Pubkey>,
)
    requires
        ctx.authority@ != config.authority,
    ensures
        update_config_spec(config, ctx, new_fee_bps, new_tithe_bps, new_impact_treasury) == Err::<
            FacilitatorConfigView,
            ErrorCode,
        >(ErrorCode::Unauthorized),
        config_after_update(config, ctx, new_fee_bps, new_tithe_bps, new_impact_treasury)
            == config,
{
}

/// A deployment is configured once: where the slot holds a configuration,
/// `initialize` fails with `AlreadyInitialized`, whatever it is given, and
/// the slot keeps what it holds.
pub proof fn lemma_a_deployment_is_configured_once(
    existing: FacilitatorConfigView,
    ctx: Initialize,
    impact_treasury: Seq<u8>,
    fee_bps: nat,
    tithe_bps: nat,
)
    ensures
        initialize_spec(Some(existing), ctx, impact_treasury, fee_bps, tithe_bps) == Err::<
            FacilitatorConfigView,
            ErrorCode,
        >(ErrorCode::AlreadyInitialized),
        slot_after_initialize(Some(existing), ctx, impact_treasury, fee_bps, tithe_bps) == Some(
            existing,
        ),
{
}

} // verus!
