use vstd::prelude::*;

verus! {

/// Number of microseconds in a second.
pub const MICROS_PER_SECOND: u64 = 1_000_000;

/// The time between two ticks of a clock that runs at `frequency` hertz,
/// in whole microseconds. A clock cannot run at zero hertz.
pub fn tick_period_micros(frequency: u32) -> (period: u64)
    requires
        frequency > 0,
    ensures
        period == MICROS_PER_SECOND / (frequency as u64),
{
    MICROS_PER_SECOND / frequency as u64
}

/// The number of ticks that have come due after `elapsed_micros` since
/// the last tick that was served, for a clock that ticks every
/// `period_micros`. Serving them moves the time of the last tick forward
/// by that many periods, so that what is left of the elapsed time is less
/// than one period.
pub fn ticks_due(elapsed_micros: u64, period_micros: u64) -> (ticks: u64)
    requires
        period_micros > 0,
    ensures
        ticks == elapsed_micros / period_micros,
        ticks * period_micros <= elapsed_micros < (ticks + 1) * period_micros,
{
    let ticks = elapsed_micros / period_micros;
    proof {
        vstd::arithmetic::div_mod::lemma_fundamental_div_mod(
            elapsed_micros as int,
            period_micros as int,
        );
        vstd::arithmetic::div_mod::lemma_mod_bound(elapsed_micros as int, period_micros as int);
        assert(period_micros * ticks == ticks * period_micros) by (nonlinear_arith);
        assert((ticks + 1) * period_micros == ticks * period_micros + period_micros)
            by (nonlinear_arith);
    }
    ticks
}

} // verus!
