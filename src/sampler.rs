use vstd::prelude::*;

verus! {

/// Time since `since`, in milliseconds; zero if the clock reads earlier.
pub open spec fn elapsed(since: u64, now: u64) -> nat {
    if now >= since {
        (now - since) as nat
    } else {
        0
    }
}

/// The tick clock of the input sampler: it waits for a key at most until
/// the next tick is due, and sends a tick whenever one is due.
#[derive(Clone, Copy, Debug)]
pub struct Sampler {
    tick_interval_ms: u64,
    last_tick_ms: u64,
}

impl Sampler {
    pub closed spec fn interval(&self) -> nat {
        self.tick_interval_ms as nat
    }

    pub closed spec fn last_tick(&self) -> u64 {
        self.last_tick_ms
    }

    /// How long the sampler may wait for a key at time `now`.
    pub open spec fn timeout_at(&self, now: u64) -> nat {
        if elapsed(self.last_tick(), now) >= self.interval() {
            0
        } else {
            (self.interval() - elapsed(self.last_tick(), now)) as nat
        }
    }

    /// Whether a tick is due at time `now`.
    pub open spec fn due_at(&self, now: u64) -> bool {
        elapsed(self.last_tick(), now) >= self.interval()
    }

    /// A sampler whose last tick was at `now_ms`.
    pub fn new(tick_interval_ms: u64, now_ms: u64) -> (r: Sampler)
        ensures
            r.interval() == tick_interval_ms,
            r.last_tick() == now_ms,
    {
        Sampler { tick_interval_ms, last_tick_ms: now_ms }
    }

    pub fn tick_interval_ms(&self) -> (r: u64)
        ensures
            r == self.interval(),
    {
        self.tick_interval_ms
    }

    /// The time left until the next tick, floored at zero.
    pub fn poll_timeout(&self, now_ms: u64) -> (r: u64)
        ensures
            r == self.timeout_at(now_ms),
    {
        let since = if now_ms >= self.last_tick_ms {
            now_ms - self.last_tick_ms
        } else {
            0
        };
        self.tick_interval_ms.saturating_sub(since)
    }

    /// Called after each wait: returns whether a tick is sent now, and if so
    /// restarts the tick clock at `now_ms`. Key events do not restart it.
    pub fn after_wait(&mut self, now_ms: u64) -> (tick: bool)
        ensures
            tick == old(self).due_at(now_ms),
            final(self).interval() == old(self).interval(),
            final(self).last_tick() == if tick {
                now_ms
            } else {
                old(self).last_tick()
            },
    {
        let since = if now_ms >= self.last_tick_ms {
            now_ms - self.last_tick_ms
        } else {
            0
        };
        if since >= self.tick_interval_ms {
            self.last_tick_ms = now_ms;
            true
        } else {
            false
        }
    }
}

/// Ticks keep their pace: the sampler never waits longer than one tick
/// interval, and a wait that ends by timing out, with no key, ends when a
/// tick is due, so that tick is sent no later than one interval after the
/// previous one.
pub proof fn lemma_tick_within_interval(s: Sampler, now: u64, woke: u64)
    requires
        now >= s.last_tick(),
        woke >= now + s.timeout_at(now),
    ensures
        s.timeout_at(now) <= s.interval(),
        elapsed(s.last_tick(), now) < s.interval() ==> elapsed(s.last_tick(), now)
            + s.timeout_at(now) == s.interval(),
        s.due_at(woke),
{
}

} // verus!
