//! The facilitator-wide configuration: who administers it, where the tithe
//! goes, the two rates, and the running totals.

use vstd::prelude::*;
use crate::error::ErrorCode;
use crate::pubkey::Pubkey;

verus! {

/// The highest protocol fee rate a configuration may hold, in basis points.
pub const MAX_FEE_BPS: u64 = 500;

/// The highest tithe rate a configuration may hold, in basis points.
pub const MAX_TITHE_BPS: u64 = 2_000;

/// The one configuration of a deployment. Its rates never leave their bounds:
/// every way of making or changing a configuration checks them.
#[derive(Clone, Copy, Debug, PartialEq, Eq)]
pub struct FacilitatorConfig {
    authority: Pubkey,
    impact_treasury: Pubkey,
    fee_bps: u64,
    tithe_bps: u64,
    total_payments: u64,
    total_volume: u64,
    bump: u8,
}

/// What a configuration holds, as mathematical values.
pub struct FacilitatorConfigView {
    pub authority: Seq<u8>,
    pub impact_treasury: Seq<u8>,
    pub fee_bps: nat,
    pub tithe_bps: nat,
    pub total_payments: nat,
    pub total_volume: nat,
    pub bump: nat,
}

/// The identity that asks for a deployment to be configured, and the bump
/// of the address under which the configuration will be kept.
#[derive(Clone, Copy, Debug, PartialEq, Eq)]
pub struct Initialize {
    pub authority: Pubkey,
    pub bump: u8,
}

/// The identity on whose behalf a change of configuration is asked for.
#[derive(Clone, Copy, Debug, PartialEq, Eq)]
pub struct UpdateConfig {
    pub authority: Pubkey,
}

/// Both rates are within their bounds, the bounds included.
pub open spec fn rates_in_bounds(fee_bps: nat, tithe_bps: nat) -> bool {
    fee_bps <= MAX_FEE_BPS && tithe_bps <= MAX_TITHE_BPS
}

/// The error that a pair of rates earns, the fee being looked at first.
pub open spec fn check_rates(fee_bps: nat, tithe_bps: nat) -> Result<(), ErrorCode> {
    if fee_bps > MAX_FEE_BPS {
        Err(ErrorCode::FeeTooHigh)
    } else if tithe_bps > MAX_TITHE_BPS {
        Err(ErrorCode::TitheTooHigh)
    } else {
        Ok(())
    }
}

/// What `initialize` decides: the configuration it creates, or the reason
/// for which it creates none.
pub open spec fn initialize_spec(
    slot: Option<FacilitatorConfigView>,
    ctx: Initialize,
    impact_treasury: Seq<u8>,
    fee_bps: nat,
    tithe_bps: nat,
) -> Result<FacilitatorConfigView, ErrorCode> {
    if slot is Some {
        Err(ErrorCode::AlreadyInitialized)
    } else {
        match check_rates(fee_bps, tithe_bps) {
            Err(e) => Err(e),
            Ok(_) => Ok(
                FacilitatorConfigView {
                    authority: ctx.authority@,
                    impact_treasury,
                    fee_bps,
                    tithe_bps,
                    total_payments: 0,
                    total_volume: 0,
                    bump: ctx.bump as nat,
                },
            ),
        }
    }
}

/// What the slot holds after `initialize`: the new configuration where one
/// was created, and what it held before where none was.
pub open spec fn slot_after_initialize(
    slot: Option<FacilitatorConfigView>,
    ctx: Initialize,
    impact_treasury: Seq<u8>,
    fee_bps: nat,
    tithe_bps: nat,
) -> Option<FacilitatorConfigView> {
    match initialize_spec(slot, ctx, impact_treasury, fee_bps, tithe_bps) {
        Ok(created) => Some(created),
        Err(_) => slot,
    }
}

/// The rate that holds after a change: the new one where one was supplied.
pub open spec fn rate_after(current: nat, supplied: Option<u64>) -> nat {
    match supplied {
        Some(rate) => rate as nat,
        None => current,
    }
}

/// What `update_config` decides: the configuration after the change, or the
/// reason for which nothing changes.
pub open spec fn update_config_spec(
    config: FacilitatorConfigView,
    ctx: UpdateConfig,
    new_fee_bps: Option<u64>,
    new_tithe_bps: Option<u64>,
    new_impact_treasury: Option<Pubkey>,
) -> Result<FacilitatorConfigView, ErrorCode> {
    if ctx.authority@ != config.authority {
        Err(ErrorCode::Unauthorized)
    } else if new_fee_bps matches Some(fee) && fee > MAX_FEE_BPS {
        Err(ErrorCode::FeeTooHigh)
    } else if new_tithe_bps matches Some(tithe) && tithe > MAX_TITHE_BPS {
        Err(ErrorCode::TitheTooHigh)
    } else {
        Ok(
            FacilitatorConfigView {
                fee_bps: rate_after(config.fee_bps, new_fee_bps),
                tithe_bps: rate_after(config.tithe_bps, new_tithe_bps),
                impact_treasury: match new_impact_treasury {
                    Some(treasury) => treasury@,
                    None => config.impact_treasury,
                },
                ..config
            },
        )
    }
}

/// The configuration after `update_config`: changed where the call was
/// accepted, and as it was where it was refused.
pub open spec fn config_after_update(
    config: FacilitatorConfigView,
    ctx: UpdateConfig,
    new_fee_bps: Option<u64>,
    new_tithe_bps: Option<u64>,
    new_impact_treasury: Option<Pubkey>,
) -> FacilitatorConfigView {
    match update_config_spec(config, ctx, new_fee_bps, new_tithe_bps, new_impact_treasury) {
        Ok(changed) => changed,
        Err(_) => config,
    }
}

/// Whether both totals can take one more payment of `amount` and stay
/// inside `u64`.
pub open spec fn totals_fit(config: FacilitatorConfigView, amount: nat) -> bool {
    config.total_payments + 1 <= u64::MAX && config.total_volume + amount <= u64::MAX
}

/// The configuration after one more payment of `amount` was counted.
pub open spec fn counted(config: FacilitatorConfigView, amount: nat) -> FacilitatorConfigView {
    FacilitatorConfigView {
        total_payments: config.total_payments + 1,
        total_volume: config.total_volume + amount,
        ..config
    }
}

impl View for FacilitatorConfig {
    type V = FacilitatorConfigView;

    closed spec fn view(&self) -> FacilitatorConfigView {
        FacilitatorConfigView {
            authority: self.authority@,
            impact_treasury: self.impact_treasury@,
            fee_bps: self.fee_bps as nat,
            tithe_bps: self.tithe_bps as nat,
            total_payments: self.total_payments as nat,
            total_volume: self.total_volume as nat,
            bump: self.bump as nat,
        }
    }
}

impl FacilitatorConfig {
    /// The invariant of the type: the rates are within their bounds.
    #[verifier::type_invariant]
    pub open spec fn rates_bounded(self) -> bool {
        rates_in_bounds(self@.fee_bps, self@.tithe_bps)
    }

    /// Puts a configuration together from stored values, totals included.
    /// The rates are checked as `initialize` checks them.
    pub fn new(
        authority: Pubkey,
        impact_treasury: Pubkey,
        fee_bps: u64,
        tithe_bps: u64,
        total_payments: u64,
        total_volume: u64,
        bump: u8,
    ) -> (r: Result<FacilitatorConfig, ErrorCode>)
        ensures
            match check_rates(fee_bps as nat, tithe_bps as nat) {
                Err(e) => r == Err::<FacilitatorConfig, ErrorCode>(e),
                Ok(_) => r is Ok && r->Ok_0@ == (FacilitatorConfigView {
                    authority: authority@,
                    impact_treasury: impact_treasury@,
                    fee_bps: fee_bps as nat,
                    tithe_bps: tithe_bps as nat,
                    total_payments: total_payments as nat,
                    total_volume: total_volume as nat,
                    bump: bump as nat,
                }),
            },
    {
        if fee_bps > MAX_FEE_BPS {
            return Err(ErrorCode::FeeTooHigh);
        }
        if tithe_bps > MAX_TITHE_BPS {
            return Err(ErrorCode::TitheTooHigh);
        }
        Ok(
            FacilitatorConfig {
                authority,
                impact_treasury,
                fee_bps,
                tithe_bps,
                total_payments,
                total_volume,
                bump,
            },
        )
    }

    /// The identity that may change the configuration.
    pub fn authority(&self) -> (key: Pubkey)
        ensures
            key@ == self@.authority,
    {
        self.authority
    }

    /// The identity to which the tithe goes.
    pub fn impact_treasury(&self) -> (key: Pubkey)
        ensures
            key@ == self@.impact_treasury,
    {
        self.impact_treasury
    }

    /// The protocol fee rate, in basis points.
    pub fn fee_bps(&self) -> (rate: u64)
        ensures
            rate == self@.fee_bps,
            rate <= MAX_FEE_BPS,
    {
        proof {
            use_type_invariant(self);
        }
        self.fee_bps
    }

    /// The tithe rate, in basis points.
    pub fn tithe_bps(&self) -> (rate: u64)
        ensures
            rate == self@.tithe_bps,
            rate <= MAX_TITHE_BPS,
    {
        proof {
            use_type_invariant(self);
        }
        self.tithe_bps
    }

    /// The number of payments settled so far.
    pub fn total_payments(&self) -> (count: u64)
        ensures
            count == self@.total_payments,
    {
        self.total_payments
    }

    /// The sum of the amounts settled so far.
    pub fn total_volume(&self) -> (volume: u64)
        ensures
            volume == self@.total_volume,
    {
        self.total_volume
    }

    /// The bump of the address under which the configuration is kept.
    pub fn bump(&self) -> (bump: u8)
        ensures
            bump == self@.bump,
    {
        self.bump
    }

    /// Whether both totals can take one more payment of `amount`.
    pub(crate) fn can_count(&self, amount: u64) -> (fits: bool)
        ensures
            fits == totals_fit(self@, amount as nat),
    {
        self.total_payments < u64::MAX && amount <= u64::MAX - self.total_volume
    }

    /// Counts one more payment of `amount`.
    pub(crate) fn count_payment(&mut self, amount: u64)
        requires
            totals_fit(old(self)@, amount as nat),
        ensures
            final(self)@ == counted(old(self)@, amount as nat),
    {
        proof {
            use_type_invariant(&*self);
        }
        self.total_payments = self.total_payments + 1;
        self.total_volume = self.total_volume + amount;
    }
}

/// What a configuration slot holds, as mathematical values.
pub open spec fn option_view(slot: Option<FacilitatorConfig>) -> Option<FacilitatorConfigView> {
    match slot {
        Some(config) => Some(config@),
        None => None,
    }
}

/// Creates the configuration of a deployment, with both totals at zero and
/// the caller as its authority. A deployment is configured once: where the
/// slot already holds a configuration, the call fails and the slot keeps it.
pub fn initialize(
    ctx: &Initialize,
    slot: &mut Option<FacilitatorConfig>,
    impact_treasury: Pubkey,
    fee_bps: u64,
    tithe_bps: u64,
) -> (r: Result<(), ErrorCode>)
    ensures
        match initialize_spec(
            option_view(*old(slot)),
            *ctx,
            impact_treasury@,
            fee_bps as nat,
            tithe_bps as nat,
        ) {
            Ok(_) => r is Ok,
            Err(e) => r == Err::<(), ErrorCode>(e) && *final(slot) == *old(slot),
        },
        option_view(*final(slot)) == slot_after_initialize(
            option_view(*old(slot)),
            *ctx,
            impact_treasury@,
            fee_bps as nat,
            tithe_bps as nat,
        ),
{
    if slot.is_some() {
        return Err(ErrorCode::AlreadyInitialized);
    }
    if fee_bps > MAX_FEE_BPS {
        return Err(ErrorCode::FeeTooHigh);
    }
    if tithe_bps > MAX_TITHE_BPS {
        return Err(ErrorCode::TitheTooHigh);
    }
    *slot = Some(
        FacilitatorConfig {
            authority: ctx.authority,
            impact_treasury,
            fee_bps,
            tithe_bps,
            total_payments: 0,
            total_volume: 0,
            bump: ctx.bump,
        },
    );
    Ok(())
}

/// Changes the rates and the destination of the tithe, each only where a new
/// value is supplied. Only the stored authority may do so, and every
/// supplied rate is checked before anything is changed: a refused call
/// leaves the configuration as it was.
pub fn update_config(
    ctx: &UpdateConfig,
    config: &mut FacilitatorConfig,
    new_fee_bps: Option<u64>,
    new_tithe_bps: Option<u64>,
    new_impact_treasury: Option<Pubkey>,
) -> (r: Result<(), ErrorCode>)
    ensures
        match update_config_spec(
            old(config)@,
            *ctx,
            new_fee_bps,
            new_tithe_bps,
            new_impact_treasury,
        ) {
            Ok(_) => r is Ok,
            Err(e) => r == Err::<(), ErrorCode>(e) && *final(config) == *old(config),
        },
        final(config)@ == config_after_update(
            old(config)@,
            *ctx,
            new_fee_bps,
            new_tithe_bps,
            new_impact_treasury,
        ),
{
    proof {
        use_type_invariant(&*config);
    }
    if ctx.authority != config.authority {
        return Err(ErrorCode::Unauthorized);
    }
    if let Some(fee) = new_fee_bps {
        if fee > MAX_FEE_BPS {
            return Err(ErrorCode::FeeTooHigh);
        }
    }
    if let Some(tithe) = new_tithe_bps {
        if tithe > MAX_TITHE_BPS {
            return Err(ErrorCode::TitheTooHigh);
        }
    }
    if let Some(fee) = new_fee_bps {
        config.fee_bps = fee;
    }
    if let Some(tithe) = new_tithe_bps {
        config.tithe_bps = tithe;
    }
    if let Some(treasury) = new_impact_treasury {
        config.impact_treasury = treasury;
    }
    Ok(())
}

} // verus!
