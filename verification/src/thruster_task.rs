//! Decisions of the thruster control tasks: where the next target comes from,
//! and the timing of the control ticks.
//!
//! The tasks themselves (waiting on signals, sleeping, reading the clock) run
//! in the firmware, which hands the library the clock readings as tick counts.

use vstd::prelude::*;

verus! {

/// Length of one control tick of the thruster task, in milliseconds.
pub const THRUSTER_TICK_INTERVAL: u8 = 50;

/// One control tick in clock ticks (and microseconds: the clock runs at 1 MHz).
pub open spec fn tick_interval_ticks_spec() -> int {
    THRUSTER_TICK_INTERVAL * 1000
}

/// Where the date of the last tick is put when a new target arrives: one tick
/// interval before `now`.
pub open spec fn restart_point(now: int) -> int {
    now - tick_interval_ticks_spec()
}

/// Microseconds between the last tick and `now`.
pub open spec fn elapsed_since(last_tick: int, now: int) -> int {
    now - last_tick
}

/// Converts milliseconds to clock ticks with `embassy_time::Duration::from_millis`
/// and `Duration::as_ticks`. embassy-time is built here with its 1 MHz tick rate
/// (feature `std`; the RP2040 time driver sets the same rate), at which its
/// source computes `millis * 1000` ticks, with no overflow for an 8-bit count.
#[verifier::external_body]
fn ticks_from_millis(millis: u8) -> (ticks: u64)
    ensures
        ticks == millis * 1000,
{
    embassy_time::Duration::from_millis(u64::from(millis)).as_ticks()
}

/// Converts a tick count to microseconds with `embassy_time::Duration::from_ticks`
/// and `Duration::as_micros`. At the 1 MHz tick rate embassy-time is built with,
/// its source multiplies and divides by 1, so the count is unchanged.
#[verifier::external_body]
fn micros_from_ticks(ticks: u64) -> (micros: u64)
    ensures
        micros == ticks,
{
    embassy_time::Duration::from_ticks(ticks).as_micros()
}

/// One control tick in clock ticks.
pub fn tick_interval_ticks() -> (ticks: u64)
    ensures
        ticks == tick_interval_ticks_spec(),
        ticks == 50_000,
{
    ticks_from_millis(THRUSTER_TICK_INTERVAL)
}

/// Where the thruster task takes its target from at the start of a cycle.
#[derive(Clone, Copy, Debug, PartialEq, Eq, Structural)]
pub enum TargetSource {
    /// The drive has reached its target: wait until a new target is signalled.
    AwaitNewTarget,
    /// A new target is already signalled: take it without waiting.
    TakePendingTarget,
    /// Keep steering towards the current target.
    KeepTarget,
}

/// The target source of a cycle of the thruster task: wait for a new target
/// when the drive has reached the current one, else take a signalled target if
/// there is one, else keep the current target.
pub fn next_target_source(reached: bool, signaled: bool) -> (source: TargetSource)
    ensures
        reached ==> source == TargetSource::AwaitNewTarget,
        !reached && signaled ==> source == TargetSource::TakePendingTarget,
        !reached && !signaled ==> source == TargetSource::KeepTarget,
{
    if reached {
        TargetSource::AwaitNewTarget
    } else if signaled {
        TargetSource::TakePendingTarget
    } else {
        TargetSource::KeepTarget
    }
}

/// What the thruster update task does at the start of a cycle.
#[derive(Clone, Copy, Debug, PartialEq, Eq, Structural)]
pub enum UpdateStep {
    /// The drive has reached its target: wait for the next drive update.
    AwaitUpdate,
    /// Read the shared target and apply it straight away.
    ApplyTarget,
}

/// The update task waits for a drive update exactly when the target is reached.
pub fn next_update_step(reached: bool) -> (step: UpdateStep)
    ensures
        step == (if reached { UpdateStep::AwaitUpdate } else { UpdateStep::ApplyTarget }),
{
    if reached {
        UpdateStep::AwaitUpdate
    } else {
        UpdateStep::ApplyTarget
    }
}

/// Date (in clock ticks) of the thruster task's last control tick.
pub struct TickClock {
    /// Clock reading at the last tick.
    pub last_tick: u64,
}

impl TickClock {
    /// A clock whose last tick is `now`.
    pub fn new(now: u64) -> (clock: TickClock)
        ensures
            clock.last_tick == now,
    {
        TickClock { last_tick: now }
    }

    /// Called when a new target has arrived after a wait: the last tick is
    /// dated one tick interval before `now`, so that the next tick steps the
    /// drive over a whole interval. The clock must have run for one interval.
    pub fn restart(&mut self, now: u64)
        requires
            now >= tick_interval_ticks_spec(),
        ensures
            final(self).last_tick == restart_point(now as int),
            final(self).last_tick == now - 50_000,
    {
        let interval = tick_interval_ticks();
        self.last_tick = now - interval;
    }

    /// Microseconds from the last tick to `now`; the clock does not run
    /// backwards.
    pub fn elapsed_micros(&self, now: u64) -> (micros: u64)
        requires
            now >= self.last_tick,
        ensures
            micros == elapsed_since(self.last_tick as int, now as int),
            micros == now - self.last_tick,
    {
        micros_from_ticks(now - self.last_tick)
    }

    /// Dates the last tick at `now`.
    pub fn mark_tick(&mut self, now: u64)
        ensures
            final(self).last_tick == now,
    {
        self.last_tick = now;
    }
}

/// After a restart at `now`, the time elapsed at `now` is exactly one tick
/// interval: the first tick after a wait steps the drive over a whole interval.
pub proof fn lemma_restart_gives_full_interval(now: int)
    requires
        now >= tick_interval_ticks_spec(),
    ensures
        elapsed_since(restart_point(now), now) == tick_interval_ticks_spec(),
        restart_point(now) >= 0,
{
}

/// The elapsed time is the plain difference of the two clock readings, in
/// microseconds, at every pair of readings; a tick interval is 50 000 of them,
/// and a restart dates the last tick exactly that far back.
pub proof fn lemma_elapsed_is_difference(last_tick: int, now: int)
    requires
        last_tick <= now,
    ensures
        elapsed_since(last_tick, now) == now - last_tick,
        elapsed_since(last_tick, now + 1) == elapsed_since(last_tick, now) + 1,
        tick_interval_ticks_spec() == 50_000,
        restart_point(now) == now - 50_000,
{
}

/// Right after a tick is marked at `now`, no time has elapsed; later readings
/// see the time since that mark.
pub proof fn lemma_mark_resets_elapsed(mark: int, now: int)
    requires
        mark <= now,
    ensures
        elapsed_since(mark, mark) == 0,
        elapsed_since(mark, now) >= 0,
{
}

} // verus!
