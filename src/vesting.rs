//! The purchase rule and the vesting engine, on the records alone.
use crate::error::PresaleError;
use crate::records::{ConfigData, PresaleData};
use vstd::prelude::*;

verus! {

/// Scale of basis-point fractions and of the exchange rate.
pub const RATIO_BOOST: u64 = 10000;
/// Stable-token units per rate unit.
pub const RATIO: u64 = 5;
/// Share of each purchase paid at the cliff, in basis points.
pub const CLIFF_PERCENT: u64 = 1000;
/// Share of the whole purchase paid per elapsed period, in basis points.
pub const UNLOCK_PERCENT: u64 = 750;
/// Length of one vesting period: thirty days.
pub const PER_MONTH_SECOND: u64 = 60 * 60 * 24 * 30;
/// Number of vesting periods.
pub const PERIOD_TOTAL: u64 = 12;
/// Last second at which purchases are accepted (2024-06-28 23:59:59 UTC).
pub const PRESALE_ENDTIME: i64 = 1719590399;
/// First second at which claims are accepted (2024-07-28 23:59:59 UTC).
pub const UNLOCK_START_TIME: i64 = 1722182399;
/// Reward tokens earmarked for the presale.
pub const NEST_TOTAL_AMOUNT: u64 = 1500000000000000;
/// Smallest accepted purchase, in stable-token units.
pub const MIN_USDT_AMOUNT: u64 = 10000000;

/// Reward tokens bought with `amount` stable-token units.
pub open spec fn reward_for(amount: u64) -> int {
    (amount / RATIO) as int * RATIO_BOOST
}

/// Cliff tranche of a purchase of `reward` tokens.
pub open spec fn cliff_for(reward: int) -> int {
    reward * CLIFF_PERCENT / RATIO_BOOST as int
}

/// Whole periods elapsed since the unlock start, at most the schedule length.
pub open spec fn elapsed_periods(now: i64) -> int {
    let p = (now - UNLOCK_START_TIME) / PER_MONTH_SECOND as int;
    if p > PERIOD_TOTAL {
        PERIOD_TOTAL as int
    } else {
        p
    }
}

/// Tokens released per period for a purchase of `total`.
pub open spec fn per_period(total: u64) -> int {
    total * UNLOCK_PERCENT / RATIO_BOOST as int
}

/// Periods that the unpaid balance still covers, at most the schedule length.
pub open spec fn periods_left(remaining: int, per: int) -> int {
    if per == 0 || remaining / per > PERIOD_TOTAL {
        PERIOD_TOTAL as int
    } else {
        remaining / per
    }
}

/// The outcome of a purchase of `amount` at time `now`: the new registry and
/// ledger and the reward bought, or the failure.
pub open spec fn purchase_outcome(c: ConfigData, d: PresaleData, amount: u64, now: i64) -> Result<
    (ConfigData, PresaleData, u64),
    PresaleError,
> {
    let reward = reward_for(amount);
    let cliff = cliff_for(reward);
    if now > PRESALE_ENDTIME {
        Err(PresaleError::PresaleClosed)
    } else if amount < MIN_USDT_AMOUNT {
        Err(PresaleError::BelowMinimum)
    } else if c.presale_total == c.nest_total {
        Err(PresaleError::SoldOut)
    } else if reward > c.nest_total - c.presale_total {
        Err(PresaleError::InsufficientAllocation)
    } else if d.nest_total + reward > u64::MAX || d.nest_cliff + cliff > u64::MAX {
        Err(PresaleError::Overflow)
    } else {
        Ok(
            (
                ConfigData { presale_total: (c.presale_total + reward) as u64, ..c },
                PresaleData {
                    nest_total: (d.nest_total + reward) as u64,
                    nest_cliff: (d.nest_cliff + cliff) as u64,
                    ..d
                },
                reward as u64,
            ),
        )
    }
}

/// Buys reward tokens for `amount` stable-token units at time `now`: reserves
/// them in the registry and credits them, with their cliff tranche, to the
/// ledger. Returns the reward bought. On failure neither record changes.
pub fn buy(config: &mut ConfigData, ledger: &mut PresaleData, amount: u64, now: i64) -> (r: Result<u64, PresaleError>)
    requires
        old(config).wf(),
        old(ledger).wf(),
    ensures
        final(config).wf(),
        final(ledger).wf(),
        match purchase_outcome(*old(config), *old(ledger), amount, now) {
            Ok((c, d, reward)) => r == Ok::<u64, PresaleError>(reward) && *final(config) == c
                && *final(ledger) == d,
            Err(e) => r == Err::<u64, PresaleError>(e) && *final(config) == *old(config)
                && *final(ledger) == *old(ledger),
        },
{
    if now > PRESALE_ENDTIME {
        return Err(PresaleError::PresaleClosed);
    }
    if amount < MIN_USDT_AMOUNT {
        return Err(PresaleError::BelowMinimum);
    }
    let reward_wide: u128 = (amount / RATIO) as u128 * RATIO_BOOST as u128;
    let remaining: u64 = config.nest_total - config.presale_total;
    if remaining == 0 {
        return Err(PresaleError::SoldOut);
    }
    if reward_wide > remaining as u128 {
        return Err(PresaleError::InsufficientAllocation);
    }
    let reward: u64 = reward_wide as u64;
    let cliff: u64 = ((reward as u128 * CLIFF_PERCENT as u128) / RATIO_BOOST as u128) as u64;
    let new_total = match ledger.nest_total.checked_add(reward) {
        Some(v) => v,
        None => return Err(PresaleError::Overflow),
    };
    let new_cliff = match ledger.nest_cliff.checked_add(cliff) {
        Some(v) => v,
        None => return Err(PresaleError::Overflow),
    };
    let reserved = config.reserve(reward);
    proof {
        assert(reserved is Ok);
    }
    ledger.nest_total = new_total;
    ledger.nest_cliff = new_cliff;
    Ok(reward)
}

/// The outcome of a claim at time `now`: the new ledger and the amount paid,
/// or the failure. The cliff tranche, if still pending, is paid first and
/// becomes the whole of what was claimed so far; then every period that has
/// elapsed and that the unpaid balance does not yet account for is paid.
pub open spec fn vest_outcome(d: PresaleData, now: i64) -> Result<(PresaleData, u64), PresaleError> {
    let cliff_paid: int = if d.nest_cliff > 0 { d.nest_cliff as int } else { 0 };
    let claimed: int = if d.nest_cliff > 0 { d.nest_cliff as int } else { d.nest_claim as int };
    let elapsed = elapsed_periods(now);
    let per = per_period(d.nest_total);
    let remaining = d.nest_total - claimed;
    let due = elapsed - (PERIOD_TOTAL - periods_left(remaining, per));
    if now < UNLOCK_START_TIME {
        Err(PresaleError::UnlockNotStarted)
    } else if d.nest_total == 0 {
        Err(PresaleError::NothingPurchased)
    } else if elapsed == 0 {
        if cliff_paid == 0 {
            Err(PresaleError::NothingClaimable)
        } else {
            Ok((PresaleData { nest_claim: claimed as u64, nest_cliff: 0, ..d }, cliff_paid as u64))
        }
    } else if remaining == 0 {
        Err(PresaleError::ClaimComplete)
    } else if due <= 0 {
        Err(PresaleError::ClaimPeriodZero)
    } else if claimed + per * due > d.nest_total {
        Err(PresaleError::ClaimComplete)
    } else if cliff_paid + per * due == 0 {
        Err(PresaleError::NothingClaimable)
    } else {
        Ok(
            (
                PresaleData { nest_claim: (claimed + per * due) as u64, nest_cliff: 0, ..d },
                (cliff_paid + per * due) as u64,
            ),
        )
    }
}

/// Runs the vesting engine on a ledger at time `now` and returns the amount
/// now due to the contributor. On failure the ledger does not change.
pub fn vest(ledger: &mut PresaleData, now: i64) -> (r: Result<u64, PresaleError>)
    requires
        old(ledger).wf(),
    ensures
        final(ledger).wf(),
        match vest_outcome(*old(ledger), now) {
            Ok((d, paid)) => r == Ok::<u64, PresaleError>(paid) && *final(ledger) == d,
            Err(e) => r == Err::<u64, PresaleError>(e) && *final(ledger) == *old(ledger),
        },
{
    if now < UNLOCK_START_TIME {
        return Err(PresaleError::UnlockNotStarted);
    }
    let total = ledger.nest_total;
    if total == 0 {
        return Err(PresaleError::NothingPurchased);
    }
    let mut paid: u64 = 0;
    let mut claimed: u64 = ledger.nest_claim;
    if ledger.nest_cliff > 0 {
        paid = ledger.nest_cliff;
        claimed = ledger.nest_cliff;
    }
    let since: u64 = (now - UNLOCK_START_TIME) as u64;
    let mut elapsed: u64 = since / PER_MONTH_SECOND;
    if elapsed > PERIOD_TOTAL {
        elapsed = PERIOD_TOTAL;
    }
    if elapsed > 0 {
        let per: u64 = ((total as u128 * UNLOCK_PERCENT as u128) / RATIO_BOOST as u128) as u64;
        let remaining: u64 = total - claimed;
        if remaining == 0 {
            return Err(PresaleError::ClaimComplete);
        }
        let mut left: u64 = PERIOD_TOTAL;
        if per > 0 && remaining / per <= PERIOD_TOTAL {
            left = remaining / per;
        }
        let outstanding: u64 = PERIOD_TOTAL - left;
        if elapsed <= outstanding {
            return Err(PresaleError::ClaimPeriodZero);
        }
        let due: u64 = elapsed - outstanding;
        assert(per as int * due as int <= 0xffff_ffff_ffff_ffff * 12) by (nonlinear_arith)
            requires
                per <= 0xffff_ffff_ffff_ffffu64,
                due <= 12,
        ;
        let step: u128 = per as u128 * due as u128;
        if claimed as u128 + step > total as u128 {
            return Err(PresaleError::ClaimComplete);
        }
        claimed = (claimed as u128 + step) as u64;
        paid = (paid as u128 + step) as u64;
    }
    if paid == 0 {
        return Err(PresaleError::NothingClaimable);
    }
    ledger.nest_claim = claimed;
    ledger.nest_cliff = 0;
    Ok(paid)
}

} // verus!
