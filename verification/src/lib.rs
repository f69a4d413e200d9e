//! The telemetry core of a game-server add-on.
//!
//! The library keeps a record of every connected player, refreshes the
//! records on each tick of a timer, says which event is to be pushed to
//! the subscribers and which metrics are to be recorded. It reads nothing
//! and sends nothing itself: its caller samples the game, calls in, and
//! delivers what comes back.

use crate::server_info::counters::observation_views;
use crate::server_info::events::event_view;
use crate::server_info::logic::{
    tick_event, tick_observations, tick_refreshed, ServerInfo, TickReport,
};
use crate::server_info::samples::TickSample;
use vstd::prelude::*;

pub mod server;
pub mod server_info;

verus! {

/// The number of ticks after which the counter starts again.
pub const TICK_PERIOD: u64 = 1000;

/// Every how many ticks the lists are refreshed and a full snapshot is
/// broadcast.
pub const LOW_FREQUENCY_INTERVAL: u64 = 20;

/// The counter after one more tick.
pub open spec fn next_tick(tick: nat) -> nat {
    (tick + 1) % (TICK_PERIOD as nat)
}

/// Whether the tick that follows counter value `tick` is a low-frequency
/// tick: the counter is advanced first, and wrapped after the test.
pub open spec fn is_low_frequency(tick: nat) -> bool {
    (tick + 1) % (LOW_FREQUENCY_INTERVAL as nat) == 0
}

/// The counter after `count` more ticks.
pub open spec fn tick_after(tick: nat, count: nat) -> nat
    decreases count,
{
    if count == 0 {
        tick
    } else {
        next_tick(tick_after(tick, (count - 1) as nat))
    }
}

/// After `count` ticks the counter stands at the sum of its old value and
/// `count`, modulo the period.
pub proof fn lemma_tick_after(tick: nat, count: nat)
    requires
        tick < TICK_PERIOD,
    ensures
        tick_after(tick, count) == (tick + count) % (TICK_PERIOD as nat),
    decreases count,
{
    if count > 0 {
        lemma_tick_after(tick, (count - 1) as nat);
    }
}

/// The counter wraps: a full period of ticks brings it back to the value
/// that it had.
pub proof fn lemma_tick_counter_wraps(tick: nat)
    requires
        tick < TICK_PERIOD,
    ensures
        tick_after(tick, TICK_PERIOD as nat) == tick,
{
    lemma_tick_after(tick, TICK_PERIOD as nat);
}

/// A low-frequency tick comes exactly when the number of ticks counted,
/// this one included, is a multiple of the interval: the wrapping of the
/// counter does not disturb the cadence.
pub proof fn lemma_low_frequency_cadence(tick: nat, count: nat)
    requires
        tick < TICK_PERIOD,
    ensures
        is_low_frequency(tick_after(tick, count)) <==> (tick + count + 1) % (
        LOW_FREQUENCY_INTERVAL as nat) == 0,
{
    lemma_tick_after(tick, count);
}

/// Counts the ticks of the timer, modulo `TICK_PERIOD`.
#[derive(Debug)]
pub struct TickCounter {
    tick: u64,
}

impl Default for TickCounter {
    fn default() -> (counter: TickCounter)
        ensures
            counter.value() == 0,
    {
        TickCounter::new()
    }
}

impl TickCounter {
    #[verifier::type_invariant]
    spec fn in_period(self) -> bool {
        self.tick < TICK_PERIOD
    }

    /// The value of the counter.
    pub closed spec fn value(self) -> nat {
        self.tick as nat
    }

    /// A counter at zero.
    pub fn new() -> (counter: TickCounter)
        ensures
            counter.value() == 0,
    {
        TickCounter { tick: 0 }
    }

    /// The value of the counter, which is below `TICK_PERIOD`.
    pub fn get(&self) -> (tick: u64)
        ensures
            tick == self.value(),
            tick < TICK_PERIOD,
    {
        proof {
            use_type_invariant(self);
        }
        self.tick
    }

    /// Whether the next tick is a low-frequency tick.
    pub fn next_is_low_frequency(&self) -> (low_freq: bool)
        ensures
            low_freq == is_low_frequency(self.value()),
    {
        proof {
            use_type_invariant(self);
        }
        (self.tick + 1) % LOW_FREQUENCY_INTERVAL == 0
    }

    /// Counts one tick and says whether it is a low-frequency tick.
    pub fn advance(&mut self) -> (low_freq: bool)
        ensures
            final(self).value() == next_tick(old(self).value()),
            low_freq == is_low_frequency(old(self).value()),
    {
        proof {
            use_type_invariant(&*self);
        }
        let advanced: u64 = self.tick + 1;
        let low_freq = advanced % LOW_FREQUENCY_INTERVAL == 0;
        self.tick = advanced % TICK_PERIOD;
        low_freq
    }
}

/// One tick of the timer: the counter advances, every connected player is
/// refreshed, on a low-frequency tick with the lists, and the one event of
/// the tick is made.
pub fn tick(counter: &mut TickCounter, info: &mut ServerInfo, samples: &Vec<TickSample>) -> (report:
    TickReport)
    ensures
        final(counter).value() == next_tick(old(counter).value()),
        final(info)@ == tick_refreshed(
            old(info)@,
            samples@,
            is_low_frequency(old(counter).value()),
        ),
        observation_views(report.observations@) == tick_observations(
            old(info)@,
            samples@,
            is_low_frequency(old(counter).value()),
        ),
        event_view(report.event) == tick_event(
            final(info)@,
            is_low_frequency(old(counter).value()),
        ),
{
    let low_freq = counter.advance();
    info.update_players(low_freq, samples)
}

} // verus!
