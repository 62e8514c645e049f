//! Cooldown guard: per-population record of the last accepted join event,
//! used to fold bursts of duplicate deliveries into one logical event.

use vstd::prelude::*;

use std::collections::HashMap;

verus! {

/// Width of the cooldown window, in seconds.
pub const COOLDOWN_SECONDS: i64 = 3;

/// Whether an event at `now` is accepted given the recorded last events.
pub open spec fn accept_spec(m: Map<u64, i64>, population: u64, now: int) -> bool {
    !m.contains_key(population) || now - m[population] >= COOLDOWN_SECONDS
}

/// Per-population last-accepted-event instants.  One guard is constructed per
/// process and handed to the milestone detector.
pub struct CooldownGuard {
    pub last: HashMap<u64, i64>,
}

impl CooldownGuard {
    /// The recorded map from population to the instant of its last accepted
    /// event.
    pub open spec fn view_map(self) -> Map<u64, i64> {
        self.last@
    }

    /// Every recorded instant is non-negative, as every instant handed to
    /// `accept` must be.
    pub open spec fn wf(self) -> bool {
        forall|k: u64| self.last@.contains_key(k) ==> 0 <= #[trigger] self.last@[k]
    }

    /// A fresh guard with no recorded events.
    pub fn new() -> (r: CooldownGuard)
        ensures
            r.view_map() == Map::<u64, i64>::empty(),
            r.wf(),
    {
        CooldownGuard { last: HashMap::new() }
    }

    /// Accepts or suppresses an event for `population` happening at `now`
    /// (seconds since some fixed epoch).  Accepting records `now`;
    /// suppressing leaves the record as it was.
    pub fn accept(&mut self, population: u64, now: i64) -> (r: bool)
        requires
            old(self).wf(),
            0 <= now,
        ensures
            final (self).wf(),
            r == accept_spec(old(self).view_map(), population, now as int),
            r ==> final (self).view_map() == old(self).view_map().insert(population, now),
            !r ==> final (self).view_map() == old(self).view_map(),
    {
        broadcast use vstd::std_specs::hash::axiom_u64_obeys_hash_table_key_model;
        broadcast use vstd::std_specs::hash::axiom_random_state_builds_valid_hashers;

        match self.last.get(&population) {
            Some(prev) => {
                if now - *prev < COOLDOWN_SECONDS {
                    return false;
                }
                self.last.insert(population, now);
                true
            },
            None => {
                self.last.insert(population, now);
                true
            },
        }
    }
}

/// Two events for the same population, the second within the cooldown window
/// of the first, are accepted and then suppressed.
pub proof fn lemma_cooldown_suppresses_duplicate(
    m: Map<u64, i64>,
    population: u64,
    now1: i64,
    now2: i64,
)
    requires
        accept_spec(m, population, now1 as int),
        now2 - now1 < COOLDOWN_SECONDS,
    ensures
        !accept_spec(m.insert(population, now1), population, now2 as int),
{
}

/// Events for two different populations never suppress each other, whatever
/// instants they happen at.
pub proof fn lemma_cooldown_independent(m: Map<u64, i64>, pop1: u64, pop2: u64, now: i64)
    requires
        pop1 != pop2,
        accept_spec(m, pop2, now as int),
    ensures
        accept_spec(m.insert(pop1, now), pop2, now as int),
{
}

} // verus!
