//! A wrap-safe monotonic clock over the hardware's single free-running
//! downcounting timer, and lightweight delay handles that busy-wait against
//! it.
//!
//! The hardware register counts down, so the clock inverts it at its single
//! read point: every caller then sees a value that grows (modulo the counter
//! width) as time passes, and elapsed time is one wrapping subtraction,
//! handled here once rather than at every call site.
//!
//! Many delay handles may borrow the same clock at once: a handle keeps no
//! wait state of its own, so interleaved waits by different drivers never
//! disturb each other.

use vstd::prelude::*;

use cortex_m::peripheral::SYST;

verus! {

#[verifier::external_type_specification]
#[verifier::external_body]
pub struct ExSyst(SYST);

/// Relies on cortex_m's SYST::set_reload: writes the timer's reload register.
/// Nothing is assumed of the peripheral's state afterwards.
pub assume_specification[ SYST::set_reload ](syst: &mut SYST, value: u32);

/// Relies on cortex_m's SYST::clear_current: clears the timer's current
/// value. Nothing is assumed of the peripheral's state afterwards.
pub assume_specification[ SYST::clear_current ](syst: &mut SYST);

/// Relies on cortex_m's SYST::enable_counter: starts the free-running
/// countdown. Nothing is assumed of the peripheral's state afterwards.
pub assume_specification[ SYST::enable_counter ](syst: &mut SYST);

/// Relies on cortex_m's SYST::get_current: reads the timer's current value.
/// The reading depends on the hardware and on when the call happens, so
/// nothing is assumed of the result.
pub assume_specification[ SYST::get_current ]() -> u32;

/// Ticks that have passed from the snapshot `earlier` to the snapshot
/// `later` of a monotonic clock reading, exact as long as fewer than one
/// full counter period passed between the two.
pub open spec fn elapsed_spec(later: u32, earlier: u32) -> u32 {
    vstd::wrapping::u32_specs::wrapping_sub(later, earlier)
}

/// Ticks that have passed from the snapshot `earlier` to the snapshot
/// `later`.
pub fn elapsed_ticks(later: u32, earlier: u32) -> (r: u32)
    ensures
        r == elapsed_spec(later, earlier),
{
    later.wrapping_sub(earlier)
}

/// Clock monotonicity under wrap: if the downcounting register held
/// `raw_before` and `delta` hardware ticks pass (wrapping the register as
/// often as it happens to), the elapsed time computed from the two inverted
/// snapshots is exactly `delta`.
pub proof fn lemma_elapsed_under_wrap(raw_before: u32, delta: u32)
    ensures
        ({
            let raw_after = vstd::wrapping::u32_specs::wrapping_sub(raw_before, delta);
            let snap_before = (u32::MAX - raw_before) as u32;
            let snap_after = (u32::MAX - raw_after) as u32;
            elapsed_spec(snap_after, snap_before) == delta
        }),
{
}

/// The same fact stated on the inverted readings themselves: a snapshot
/// taken `delta` ticks after another differs from it by exactly `delta`,
/// whatever the absolute values were.
pub proof fn lemma_elapsed_exact(earlier: u32, delta: u32)
    ensures
        ({
            let later = vstd::wrapping::u32_specs::wrapping_add(earlier, delta);
            elapsed_spec(later, earlier) == delta
        }),
{
}

/// The one clock of the firmware: wraps the hardware timer, configured once
/// at boot to reload from its maximum value and count down freely.
///
/// Exactly one of these may exist per physical timer; the platform's
/// take-once peripheral handoff enforces that, since constructing one
/// consumes the `SYST` handle.
pub struct SharedTimer {
    systick_freq_hz: u32,
    systick: SYST,
}

impl SharedTimer {
    /// The tick frequency the clock was created with.
    pub closed spec fn spec_freq(&self) -> u32 {
        self.systick_freq_hz
    }

    /// The hardware timer the clock owns.
    pub closed spec fn spec_systick(&self) -> SYST {
        self.systick
    }

    /// Take ownership of the hardware timer and start it counting down from
    /// its maximum value.
    pub fn new(systick: SYST, core_freq_hz: u32) -> (t: Self)
        ensures
            t.spec_freq() == core_freq_hz,
    {
        let mut systick = systick;
        systick.set_reload(u32::MAX);
        systick.clear_current();
        systick.enable_counter();
        SharedTimer { systick_freq_hz: core_freq_hz, systick }
    }

    /// A reading that increases monotonically (modulo the counter width) as
    /// time passes: the downcounting register, inverted at this single
    /// point.
    pub fn now(&self) -> u32 {
        u32::MAX - SYST::get_current()
    }

    /// The tick frequency the clock was created with.
    pub fn frequency_hz(&self) -> (f: u32)
        ensures
            f == self.spec_freq(),
    {
        self.systick_freq_hz
    }

    /// Hand the hardware timer back, for callers that reconfigure it.
    pub fn release(self) -> (s: SYST)
        ensures
            s == self.spec_systick(),
    {
        let SharedTimer { systick_freq_hz: _, systick } = self;
        systick
    }
}

/// Ticks that a wait of `ms` milliseconds has to cover at `freq` ticks per
/// second: the tick rate per millisecond is formed by truncating division,
/// as the hardware configuration fixed it.
pub open spec fn spec_ticks_for(ms: int, freq: int) -> int {
    ms * (freq / 1000)
}

/// Convert a requested wait in milliseconds into clock ticks.
pub fn ticks_for(ms: u32, freq: u32) -> (t: u32)
    requires
        spec_ticks_for(ms as int, freq as int) <= u32::MAX,
    ensures
        t == spec_ticks_for(ms as int, freq as int),
{
    ms * (freq / 1000)
}

/// Requesting no time takes no ticks: a zero wait returns at once.
pub proof fn lemma_zero_wait(freq: int)
    ensures
        spec_ticks_for(0, freq) == 0,
{
}

/// An independently usable busy-wait cursor over the shared clock. Each
/// wait captures its own start snapshot and polls only the read-only
/// `now()`, so any number of handles can be used interleaved without
/// coordination.
pub struct DelayTimer<'a> {
    timer: &'a SharedTimer,
}

impl<'a> DelayTimer<'a> {
    /// The clock this handle borrows.
    pub closed spec fn spec_clock(&self) -> SharedTimer {
        *self.timer
    }

    /// The borrowed clock's tick frequency.
    pub open spec fn spec_freq(&self) -> u32 {
        self.spec_clock().spec_freq()
    }

    /// Borrow a clock. Handles are cheap: create one per driver.
    pub fn new(timer: &'a SharedTimer) -> (d: Self)
        ensures
            d.spec_clock() == *timer,
    {
        DelayTimer { timer }
    }

    /// The borrowed clock's tick frequency, for callers that have to check
    /// a wait request against the counter width.
    pub fn frequency_hz(&self) -> (f: u32)
        ensures
            f == self.spec_freq(),
    {
        self.timer.frequency_hz()
    }

    /// Spin until at least `ticks` clock ticks have passed. On the `Some`
    /// outcome the returned pair holds the start snapshot and the final
    /// snapshot, whose distance is never below `ticks`: the wait cannot end
    /// early. `None` is returned only if the clock was polled `u64::MAX`
    /// times without the distance ever reaching `ticks` — a clock that
    /// advances at all never exhausts that budget, which exists because
    /// every loop here carries a termination measure.
    pub fn wait_ticks(&self, ticks: u32) -> (span: Option<(u32, u32)>)
        ensures
            span matches Some(p) ==> elapsed_spec(p.1, p.0) >= ticks,
    {
        let start = self.timer.now();
        let mut budget: u64 = u64::MAX;
        loop
            decreases budget,
        {
            let snap = self.timer.now();
            if elapsed_ticks(snap, start) >= ticks {
                return Some((start, snap));
            }
            if budget == 0 {
                return None;
            }
            budget = budget - 1;
        }
    }

    /// Busy-wait for `ms` milliseconds: convert to ticks, snapshot the
    /// clock, and spin until that many ticks have passed. A zero request
    /// returns without touching the clock.
    pub fn delay_ms(&mut self, ms: u32)
        requires
            spec_ticks_for(ms as int, old(self).spec_freq() as int) <= u32::MAX,
    {
        let ticks = ticks_for(ms, self.timer.frequency_hz());
        if ticks == 0 {
            return;
        }
        let _ = self.wait_ticks(ticks);
    }
}

/// A millisecond wait, as the sensor driver needs one for its settle time.
/// The bound on the request keeps the tick conversion inside the counter
/// width at every tick frequency.
pub trait WaitMs {
    fn wait_ms(&mut self, ms: u16)
        requires
            ms <= 1000,
    ;
}

impl WaitMs for DelayTimer<'_> {
    fn wait_ms(&mut self, ms: u16) {
        proof {
            let q = self.spec_freq() as int / 1000;
            assert(0 <= q <= 4294967);
            assert(ms as int * q <= u32::MAX as int) by (nonlinear_arith)
                requires
                    ms <= 1000,
                    0 <= q <= 4294967,
            ;
        }
        self.delay_ms(ms as u32);
    }
}

/// The delay handles that the firmware's drivers share, all borrowing the
/// one clock.
pub struct Delays<'a> {
    pub lcd_delay: DelayTimer<'a>,
    pub generic_delay: DelayTimer<'a>,
}

impl<'a> Delays<'a> {
    /// Create one handle per consumer from the shared clock.
    pub fn new(shared_timer: &'a SharedTimer) -> (d: Self)
        ensures
            d.lcd_delay.spec_clock() == *shared_timer,
            d.generic_delay.spec_clock() == *shared_timer,
    {
        let lcd_delay = DelayTimer::new(shared_timer);
        let generic_delay = DelayTimer::new(shared_timer);
        Delays { lcd_delay, generic_delay }
    }
}

} // verus!
