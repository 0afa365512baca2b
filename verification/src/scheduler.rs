//! The periodic task runner's timing logic: a fixed-interval tick decided
//! from clock readings. The thread that sleeps, reads the clock and invokes
//! the registered callbacks lives outside the library; it asks `tick` with
//! each reading and runs every task exactly when `tick` says so.
use vstd::prelude::*;

verus! {

/// How often the scheduler fires, in seconds.
#[derive(Clone, Copy, PartialEq, Eq, Structural, Debug)]
pub struct Config {
    pub interval_secs: u64,
}

impl Default for Config {
    /// The standard one-minute interval.
    fn default() -> (r: Self)
        ensures
            r.interval_secs == 60,
    {
        Config { interval_secs: 60 }
    }
}

/// The tick state: when the tasks last ran (epoch seconds; `None` before the
/// first run, which is always due).
#[derive(Clone, Copy, PartialEq, Eq, Structural, Debug)]
pub struct Scheduler {
    pub config: Config,
    pub last_tick: Option<i64>,
}

/// Whether a reading of `now` makes a run due: the first reading always is;
/// later ones once a full interval has passed since the last run.
pub open spec fn spec_due(s: Scheduler, now: i64) -> bool {
    match s.last_tick {
        None => true,
        Some(last) => now >= last + s.config.interval_secs,
    }
}

impl Scheduler {
    /// A scheduler that has never fired.
    pub fn new(config: Config) -> (r: Self)
        ensures
            r.config == config,
            r.last_tick is None,
    {
        Scheduler { config, last_tick: None }
    }

    /// Decides one clock reading: reports whether the tasks must run now,
    /// and records the reading as the last run exactly when they must.
    pub fn tick(&mut self, now: i64) -> (run: bool)
        requires
            0 <= now < i64::MAX - old(self).config.interval_secs,
            old(self).last_tick matches Some(l) ==> l >= 0,
        ensures
            run == spec_due(*old(self), now),
            final (self).config == old(self).config,
            run ==> final (self).last_tick == Some(now),
            !run ==> final (self).last_tick == old(self).last_tick,
    {
        let due = match self.last_tick {
            None => true,
            Some(last) => {
                if last > now {
                    false
                } else {
                    now - last >= self.config.interval_secs as i64
                }
            },
        };
        if due {
            self.last_tick = Some(now);
        }
        due
    }
}

/// Law: a second reading of the same instant never fires again — after a
/// due tick at `now`, another tick at `now` (or any earlier reading) is not
/// due until a full interval has passed.
pub proof fn lemma_tick_not_redue(s: Scheduler, now: i64, later: i64)
    requires
        s.config.interval_secs > 0,
        later < now + s.config.interval_secs,
    ensures
        !spec_due(Scheduler { last_tick: Some(now), ..s }, later),
{
}

} // verus!
