//! Time keeping for the system clock (`systick`): the tick counter and the conversions
//! between ticks and milliseconds.
//!
//! The state that the board keeps in global counters is a [`SystemClock`] value here; the
//! interrupt handler of the `systick` exception calls [`tick`] on it.

use vstd::prelude::*;

verus! {

/// A frequency in Hz.
#[derive(Debug, Clone, Copy, PartialEq, Eq, Structural)]
pub struct Hz(pub usize);

/// The division factor `PLLP` of the main PLL.
#[derive(Debug, Clone, Copy, PartialEq, Eq, Structural)]
pub enum PllP {
    /// Division by 2.
    Div2,
    /// Division by 4.
    Div4,
    /// Division by 6.
    Div6,
    /// Division by 8.
    Div8,
}

/// The numeric division factor of a `PLLP` setting.
pub open spec fn pllp_factor(p: PllP) -> nat {
    match p {
        PllP::Div2 => 2,
        PllP::Div4 => 4,
        PllP::Div6 => 6,
        PllP::Div8 => 8,
    }
}

/// The frequency of the external oscillator (HSE) in Hz.
pub const HSE_FREQUENCY: u64 = 25_000_000;

/// The system clock speed that the main PLL produces: the HSE frequency divided by `PLLM`,
/// multiplied by `PLLN` and divided by `PLLP`, each step rounding down.
pub open spec fn pll_clock_speed(pllm: u8, plln: u16, pllp: PllP) -> int {
    ((25_000_000int / (pllm as int)) * plln) / (pllp_factor(pllp) as int)
}

/// The state of the system clock: the global tick count, the system clock speed and the
/// `systick` frequency that it was initialized with.
pub struct SystemClock {
    ticks: usize,
    system_clock_speed: u64,
    frequency: usize,
}

impl SystemClock {
    /// The current tick count.
    pub closed spec fn tick_count(&self) -> usize {
        self.ticks
    }

    /// The `systick` frequency in Hz.
    pub closed spec fn frequency_hz(&self) -> usize {
        self.frequency
    }

    /// The system clock speed in Hz.
    pub closed spec fn clock_speed_hz(&self) -> u64 {
        self.system_clock_speed
    }

    /// A clock is usable once it knows a nonzero `systick` frequency.
    pub open spec fn wf(&self) -> bool {
        self.frequency_hz() > 0
    }
}

/// Computes the system clock speed from the configuration of the main PLL.
///
/// `PLLM` must not be 0 (the division by it would fail) and `PLLN` fits into its 9 bits.
pub fn pll_system_clock_speed(pllm: u8, plln: u16, pllp: PllP) -> (speed: u64)
    requires
        1 <= pllm,
        plln < 512,
    ensures
        speed == pll_clock_speed(pllm, plln, pllp),
{
    let m = pllm as u64;
    let n = plln as u64;
    let p: u64 = match pllp {
        PllP::Div2 => 2,
        PllP::Div4 => 4,
        PllP::Div6 => 6,
        PllP::Div8 => 8,
    };
    let vco_in = HSE_FREQUENCY / m;
    assert(vco_in <= 25_000_000) by (nonlinear_arith)
        requires
            vco_in == 25_000_000u64 / m,
            m >= 1,
    ;
    assert(vco_in * n <= 25_000_000 * 511) by (nonlinear_arith)
        requires
            vco_in <= 25_000_000,
            n <= 511,
    ;
    let vco_out = vco_in * n;
    let speed = vco_out / p;
    assert(speed <= vco_out) by (nonlinear_arith)
        requires
            speed == vco_out / p,
            p >= 2,
    ;
    speed
}

/// The value for the `systick` reload register: the number of system clock cycles per
/// tick, if it is at least 1 and fits into the 24 bits of the register.
pub open spec fn systick_reload_ticks(system_clock_speed: int, frequency: int) -> int {
    system_clock_speed / frequency
}

/// Initializes the system clock state from the PLL configuration and the requested `systick`
/// frequency.
///
/// Returns the state together with the value to write into the `systick` reload register
/// (`reload_ticks - 1`). The frequency must be low enough that the reload value fits into the
/// 24 bits of the register, and not higher than the system clock speed.
pub fn init(frequency: Hz, pllm: u8, plln: u16, pllp: PllP) -> (r: (SystemClock, u32))
    requires
        1 <= pllm,
        plln < 512,
        frequency.0 > 0,
        1 <= systick_reload_ticks(pll_clock_speed(pllm, plln, pllp), frequency.0 as int),
        systick_reload_ticks(pll_clock_speed(pllm, plln, pllp), frequency.0 as int)
            < 0x0100_0000,
    ensures
        r.0.wf(),
        r.0.tick_count() == 0,
        r.0.frequency_hz() == frequency.0,
        r.0.clock_speed_hz() == pll_clock_speed(pllm, plln, pllp),
        r.1 == systick_reload_ticks(pll_clock_speed(pllm, plln, pllp), frequency.0 as int) - 1,
{
    let speed = pll_system_clock_speed(pllm, plln, pllp);
    let reload_ticks = speed / (frequency.0 as u64);
    (
        SystemClock {
            ticks: 0,
            system_clock_speed: speed,
            frequency: frequency.0,
        },
        (reload_ticks - 1) as u32,
    )
}

/// Checks whether [`init`] accepts a `systick` frequency for the given PLL configuration and
/// returns the reload ticks if so.
pub fn checked_reload_ticks(frequency: Hz, pllm: u8, plln: u16, pllp: PllP) -> (r: Option<u32>)
    ensures
        r is Some <==> (1 <= pllm && plln < 512 && frequency.0 > 0 && 1 <= systick_reload_ticks(
            pll_clock_speed(pllm, plln, pllp),
            frequency.0 as int,
        ) < 0x0100_0000),
        r matches Some(v) ==> v == systick_reload_ticks(
            pll_clock_speed(pllm, plln, pllp),
            frequency.0 as int,
        ),
{
    if pllm == 0 || plln >= 512 || frequency.0 == 0 {
        return None;
    }
    let speed = pll_system_clock_speed(pllm, plln, pllp);
    let reload_ticks = speed / (frequency.0 as u64);
    if 1 <= reload_ticks && reload_ticks < 0x0100_0000 {
        Some(reload_ticks as u32)
    } else {
        None
    }
}

/// Increases the global tick count by 1, wrapping around at `usize::MAX`.
pub fn tick(clock: &mut SystemClock)
    ensures
        final(clock).tick_count() == if old(clock).tick_count() == usize::MAX {
            0
        } else {
            old(clock).tick_count() + 1
        },
        final(clock).frequency_hz() == old(clock).frequency_hz(),
        final(clock).clock_speed_hz() == old(clock).clock_speed_hz(),
        final(clock).wf() == old(clock).wf(),
{
    clock.ticks = clock.ticks.wrapping_add(1);
}

/// Returns the current global tick count.
pub fn ticks(clock: &SystemClock) -> (r: usize)
    ensures
        r == clock.tick_count(),
{
    clock.ticks
}

/// The number of whole milliseconds that `ticks` ticks of the given frequency take.
pub open spec fn ticks_in_ms(ticks: int, frequency: int) -> int {
    (ticks * 1000) / frequency
}

/// The least number of ticks of the given frequency that take at least `ms` milliseconds.
pub open spec fn ms_in_ticks(ms: int, frequency: int) -> int {
    if (frequency * ms) % 1000 == 0 {
        (frequency * ms) / 1000
    } else {
        (frequency * ms) / 1000 + 1
    }
}

/// Returns the elapsed milliseconds since [`tick()`] was first called.
pub fn ms(clock: &SystemClock) -> (r: usize)
    requires
        clock.wf(),
        clock.tick_count() * 1000 <= usize::MAX,
    ensures
        r == ticks_in_ms(clock.tick_count() as int, clock.frequency_hz() as int),
{
    ticks_to_ms(clock, ticks(clock))
}

/// The tick count at which a wait of `ticks` ticks that starts now is over.
///
/// The waiting itself spins until the tick counter, which the `systick` interrupt advances,
/// reaches this value.
pub fn wait_ticks_deadline(clock: &SystemClock, ticks: usize) -> (r: usize)
    requires
        clock.tick_count() + ticks <= usize::MAX,
    ensures
        r == clock.tick_count() + ticks,
{
    let current = self::ticks(clock);
    current + ticks
}

/// The tick count at which a wait of `ms` milliseconds that starts now is over.
pub fn wait_ms_deadline(clock: &SystemClock, ms: usize) -> (r: usize)
    requires
        clock.wf(),
        clock.frequency_hz() * ms <= usize::MAX,
        clock.tick_count() + ms_in_ticks(ms as int, clock.frequency_hz() as int) <= usize::MAX,
    ensures
        r == clock.tick_count() + ms_in_ticks(ms as int, clock.frequency_hz() as int),
{
    let t = ms_to_ticks(clock, ms);
    wait_ticks_deadline(clock, t)
}

/// Returns the frequency of the system clock: the `systick` frequency that was passed to
/// [`init`].
pub fn system_clock_speed(clock: &SystemClock) -> (r: Hz)
    ensures
        r.0 == clock.frequency_hz(),
{
    Hz(clock.frequency)
}

/// Translates the passed tick number to a number of milliseconds, rounding down.
pub fn ticks_to_ms(clock: &SystemClock, ticks: usize) -> (r: usize)
    requires
        clock.wf(),
        ticks * 1000 <= usize::MAX,
    ensures
        r == ticks_in_ms(ticks as int, clock.frequency_hz() as int),
{
    let frequency = clock.frequency;
    (ticks * 1000) / frequency
}

/// Translates the passed number of milliseconds to a number of ticks, rounding up.
pub fn ms_to_ticks(clock: &SystemClock, ms: usize) -> (r: usize)
    requires
        clock.wf(),
        clock.frequency_hz() * ms <= usize::MAX,
    ensures
        r == ms_in_ticks(ms as int, clock.frequency_hz() as int),
{
    let frequency = clock.frequency;
    let ticks_x1000 = frequency * ms;
    if ticks_x1000 % 1000 == 0 {
        ticks_x1000 / 1000
    } else {
        (ticks_x1000 / 1000) + 1
    }
}

/// `ms_to_ticks` gives the least number of ticks that last at least `ms` milliseconds.
pub proof fn lemma_ms_in_ticks_is_least_cover(ms: nat, frequency: nat)
    requires
        frequency > 0,
    ensures
        ms_in_ticks(ms as int, frequency as int) * 1000 >= frequency * ms,
        (ms_in_ticks(ms as int, frequency as int) - 1) * 1000 < frequency * ms,
{
    let x = frequency * ms;
    assert(x == (x / 1000) * 1000 + x % 1000) by (nonlinear_arith);
}

/// Converting milliseconds to ticks and back never loses time: the ticks last at least as many
/// milliseconds as were asked for.
pub proof fn lemma_ms_ticks_round_trip(ms: nat, frequency: nat)
    requires
        frequency > 0,
    ensures
        ticks_in_ms(ms_in_ticks(ms as int, frequency as int), frequency as int) >= ms,
{
    lemma_ms_in_ticks_is_least_cover(ms, frequency);
    let t = ms_in_ticks(ms as int, frequency as int);
    let f = frequency as int;
    assert((t * 1000) / f >= ms) by (nonlinear_arith)
        requires
            t * 1000 >= f * ms,
            f > 0,
            ms >= 0,
    {
        assert(f * ms / f == ms) by (nonlinear_arith)
            requires
                f > 0,
        ;
        vstd::arithmetic::div_mod::lemma_div_is_ordered(f * ms, t * 1000, f);
    }
}

/// Ticks count time up: more ticks never mean fewer milliseconds.
pub proof fn lemma_ticks_in_ms_monotonic(t1: nat, t2: nat, frequency: nat)
    requires
        frequency > 0,
        t1 <= t2,
    ensures
        ticks_in_ms(t1 as int, frequency as int) <= ticks_in_ms(t2 as int, frequency as int),
{
    vstd::arithmetic::div_mod::lemma_div_is_ordered(
        t1 as int * 1000,
        t2 as int * 1000,
        frequency as int,
    );
}

/// Each `PLLP` setting divides the VCO output (the HSE frequency divided by `PLLM`, times
/// `PLLN`) by the number it names: `Div2` halves it, `Div4` halves that again, `Div6` takes a
/// third of what `Div2` gives, and `Div8` halves what `Div4` gives (rounding down throughout).
pub proof fn lemma_pllp_divides(pllm: u8, plln: u16)
    requires
        1 <= pllm,
    ensures
        pll_clock_speed(pllm, plln, PllP::Div2) == ((25_000_000int / (pllm as int)) * plln) / 2,
        pll_clock_speed(pllm, plln, PllP::Div4) == pll_clock_speed(pllm, plln, PllP::Div2) / 2,
        pll_clock_speed(pllm, plln, PllP::Div6) == pll_clock_speed(pllm, plln, PllP::Div2) / 3,
        pll_clock_speed(pllm, plln, PllP::Div8) == pll_clock_speed(pllm, plln, PllP::Div4) / 2,
{
    let vco = (25_000_000int / (pllm as int)) * plln;
    assert(vco >= 0) by (nonlinear_arith)
        requires
            pllm >= 1,
            vco == (25_000_000int / (pllm as int)) * plln,
    ;
    vstd::arithmetic::div_mod::lemma_div_denominator(vco, 2, 2);
    vstd::arithmetic::div_mod::lemma_div_denominator(vco, 2, 3);
    vstd::arithmetic::div_mod::lemma_div_denominator(vco, 4, 2);
}

} // verus!
