//! Named frame timings: each name owns the instant its current frame
//! started and the span measured when that frame last ended.
//!
//! Clock values are opaque: nothing is promised about what the clock reads,
//! only about which entry holds which recorded value.

use vstd::prelude::*;
use vstd::map::*;
use vstd::string::StringExecFns;
use std::time::{Duration, Instant};

verus! {

/// Declares `std::time::Instant` so clock values can sit in fields and
/// contracts; Verus sees nothing inside one.
#[verifier::external_type_specification]
#[verifier::external_body]
pub struct ExInstant(Instant);

/// Relies on `std::time::Instant::now`: reads the monotonic clock. The
/// result depends on when the call happens, so nothing is promised of it.
#[verifier::external_body]
fn instant_now() -> Instant {
    Instant::now()
}

/// Relies on `std::time::Instant::elapsed`: the span from this instant to
/// now. The result depends on the clock, so nothing is promised of it.
#[verifier::external_body]
fn elapsed_since(earlier: &Instant) -> Duration {
    earlier.elapsed()
}

/// The span `std::time::Duration::from_secs` builds from a second count;
/// the same count always gives the same span.
pub uninterp spec fn duration_of_secs(secs: u64) -> Duration;

/// Relies on `std::time::Duration::from_secs`: the result depends on the
/// second count alone.
#[verifier::external_body]
fn duration_from_secs(secs: u64) -> (result: Duration)
    ensures
        result == duration_of_secs(secs),
{
    Duration::from_secs(secs)
}

/// One named timing: when its frame last started, and the span measured
/// when the frame last ended.
pub struct Timing {
    last_frame_time: Instant,
    delta_time: Duration,
}

impl Timing {
    /// The span measured when the frame last ended.
    pub closed spec fn spec_delta(self) -> Duration {
        self.delta_time
    }

    /// The instant the frame last started.
    pub closed spec fn spec_started(self) -> Instant {
        self.last_frame_time
    }
}

/// Whether some entry carries the given name.
spec fn name_present(s: Seq<(String, Timing)>, name: Seq<char>) -> bool {
    exists|i: int| 0 <= i < s.len() && s[i].0@ == name
}

/// The index of the entry carrying the given name.
spec fn name_index(s: Seq<(String, Timing)>, name: Seq<char>) -> int {
    choose|i: int| 0 <= i < s.len() && s[i].0@ == name
}

/// No two entries share a name.
spec fn names_unique(s: Seq<(String, Timing)>) -> bool {
    forall|i: int, j: int| 0 <= i < j < s.len() ==> s[i].0@ != s[j].0@
}

/// The entries read as a map from name to timing.
spec fn timings_as_map(s: Seq<(String, Timing)>) -> Map<Seq<char>, Timing> {
    Map::new(
        |name: Seq<char>| name_present(s, name),
        |name: Seq<char>| s[name_index(s, name)].1,
    )
}

/// Overwriting the entry at an index with one carrying the same name is an
/// insert on the map reading.
proof fn lemma_timings_update(s: Seq<(String, Timing)>, i: int, e: (String, Timing))
    requires
        names_unique(s),
        0 <= i < s.len(),
        s[i].0@ == e.0@,
    ensures
        timings_as_map(s.update(i, e)) == timings_as_map(s).insert(e.0@, e.1),
{
    let s2 = s.update(i, e);
    assert_maps_equal!(timings_as_map(s2), timings_as_map(s).insert(e.0@, e.1), name => {
        if name == e.0@ {
            assert(s2[i].0@ == name);
            assert(name_present(s2, name));
            let j = name_index(s2, name);
            assert(0 <= j < s2.len() && s2[j].0@ == name);
            if j != i {
                assert(s[j].0@ == name);
                assert(false);
            }
            assert(timings_as_map(s2)[name] == e.1);
        } else {
            if name_present(s, name) {
                let j = name_index(s, name);
                assert(0 <= j < s.len() && s[j].0@ == name);
                assert(j != i);
                assert(s2[j].0@ == name);
                assert(name_present(s2, name));
                let k = name_index(s2, name);
                assert(0 <= k < s2.len() && s2[k].0@ == name);
                if k != j {
                    if k == i {
                        assert(false);
                    } else {
                        assert(s[k].0@ == name);
                        assert(false);
                    }
                }
                assert(timings_as_map(s2)[name] == timings_as_map(s)[name]);
            }
            if name_present(s2, name) {
                let k = name_index(s2, name);
                assert(0 <= k < s2.len() && s2[k].0@ == name);
                assert(k != i);
                assert(s[k].0@ == name);
                assert(name_present(s, name));
            }
        }
    });
}

/// Appending an entry whose name nothing carries is an insert on the map
/// reading.
proof fn lemma_timings_push(s: Seq<(String, Timing)>, e: (String, Timing))
    requires
        names_unique(s),
        !name_present(s, e.0@),
    ensures
        timings_as_map(s.push(e)) == timings_as_map(s).insert(e.0@, e.1),
{
    let s2 = s.push(e);
    assert_maps_equal!(timings_as_map(s2), timings_as_map(s).insert(e.0@, e.1), name => {
        if name == e.0@ {
            assert(s2[s.len() as int].0@ == name);
            assert(name_present(s2, name));
            let j = name_index(s2, name);
            assert(0 <= j < s2.len() && s2[j].0@ == name);
            if j != s.len() {
                assert(s[j].0@ == name);
                assert(name_present(s, name));
                assert(false);
            }
            assert(timings_as_map(s2)[name] == e.1);
        } else {
            if name_present(s, name) {
                let j = name_index(s, name);
                assert(0 <= j < s.len() && s[j].0@ == name);
                assert(s2[j].0@ == name);
                assert(name_present(s2, name));
                let k = name_index(s2, name);
                assert(0 <= k < s2.len() && s2[k].0@ == name);
                if k != j {
                    if k == s.len() {
                        assert(false);
                    } else {
                        assert(s[k].0@ == name);
                        assert(false);
                    }
                }
                assert(timings_as_map(s2)[name] == timings_as_map(s)[name]);
            }
            if name_present(s2, name) {
                let k = name_index(s2, name);
                assert(0 <= k < s2.len() && s2[k].0@ == name);
                assert(k != s.len());
                assert(s[k].0@ == name);
                assert(name_present(s, name));
            }
        }
    });
}

/// Tracks one timing per name. Starting a frame (re)stamps the start
/// instant; ending it records the elapsed span as the delta for that name.
pub struct TimingManager {
    timings: Vec<(String, Timing)>,
}

impl View for TimingManager {
    type V = Map<Seq<char>, Timing>;

    closed spec fn view(&self) -> Map<Seq<char>, Timing> {
        timings_as_map(self.timings@)
    }
}

impl TimingManager {
    /// Each name owns at most one timing.
    #[verifier::type_invariant]
    spec fn wf(self) -> bool {
        names_unique(self.timings@)
    }

    /// An empty manager: no timings at all.
    pub fn new() -> (result: TimingManager)
        ensures
            result@ == Map::<Seq<char>, Timing>::empty(),
    {
        let result = TimingManager { timings: Vec::new() };
        proof {
            assert_maps_equal!(result@, Map::<Seq<char>, Timing>::empty());
        }
        result
    }

    /// The index of the entry carrying the given name, if there is one.
    fn index_of_name(&self, name: &str) -> (result: Option<usize>)
        ensures
            match result {
                Option::Some(i) => i < self.timings@.len() && self.timings@[i as int].0@ == name@,
                Option::None => !name_present(self.timings@, name@),
            },
    {
        let key = String::from_str(name);
        let mut idx: usize = 0;
        while idx < self.timings.len()
            invariant
                idx <= self.timings@.len(),
                key@ == name@,
                forall|j: int| 0 <= j < idx ==> self.timings@[j].0@ != name@,
            decreases self.timings@.len() - idx,
        {
            if self.timings[idx].0 == key {
                return Option::Some(idx);
            }
            idx = idx + 1;
        }
        Option::None
    }

    /// Stamps the start of a frame for the name, creating the entry if the
    /// name is new; an existing entry keeps its recorded delta.
    pub fn start_frame(&mut self, name: &str)
        ensures
            final(self)@.contains_key(name@),
            forall|n: Seq<char>| #![auto]
                final(self)@.contains_key(n) <==> (old(self)@.contains_key(n) || n == name@),
            forall|n: Seq<char>| #![auto]
                n != name@ && old(self)@.contains_key(n) ==> final(self)@[n] == old(self)@[n],
            old(self)@.contains_key(name@) ==> final(self)@[name@].spec_delta() == old(
                self,
            )@[name@].spec_delta(),
            !old(self)@.contains_key(name@) ==> final(self)@[name@].spec_delta()
                == duration_of_secs(0),
    {
        proof {
            use_type_invariant(&*self);
        }
        let ghost s_old = self.timings@;
        let found = self.index_of_name(name);
        let mut entries: Vec<(String, Timing)> = Vec::new();
        std::mem::swap(&mut entries, &mut self.timings);
        match found {
            Option::Some(i) => {
                let delta_time = entries[i].1.delta_time;
                let entry_name = entries[i].0.clone();
                let refreshed = (
                    entry_name,
                    Timing { last_frame_time: instant_now(), delta_time },
                );
                let ghost e = refreshed;
                entries[i] = refreshed;
                proof {
                    lemma_timings_update(s_old, i as int, e);
                }
            },
            Option::None => {
                let fresh = (
                    String::from_str(name),
                    Timing { last_frame_time: instant_now(), delta_time: duration_from_secs(0) },
                );
                let ghost e = fresh;
                entries.push(fresh);
                proof {
                    lemma_timings_push(s_old, e);
                }
            },
        }
        self.timings = entries;
    }

    /// Records the span since the frame's start as the delta for the name.
    /// The entry must exist: ending a frame that was never started is a
    /// programming error, not a recoverable condition.
    pub fn end_frame(&mut self, name: &str)
        requires
            old(self)@.contains_key(name@),
        ensures
            forall|n: Seq<char>| #![auto]
                final(self)@.contains_key(n) <==> old(self)@.contains_key(n),
            forall|n: Seq<char>| #![auto]
                n != name@ && old(self)@.contains_key(n) ==> final(self)@[n] == old(self)@[n],
            final(self)@[name@].spec_started() == old(self)@[name@].spec_started(),
    {
        proof {
            use_type_invariant(&*self);
        }
        let ghost s_old = self.timings@;
        let found = self.index_of_name(name);
        match found {
            Option::Some(i) => {
                proof {
                    let k = name_index(s_old, name@);
                    assert(0 <= k < s_old.len() && s_old[k].0@ == name@);
                    if k != i as int {
                        assert(false);
                    }
                }
                let mut entries: Vec<(String, Timing)> = Vec::new();
                std::mem::swap(&mut entries, &mut self.timings);
                let started = entries[i].1.last_frame_time;
                let delta_time = elapsed_since(&started);
                let entry_name = entries[i].0.clone();
                let measured = (
                    entry_name,
                    Timing { last_frame_time: started, delta_time },
                );
                let ghost e = measured;
                entries[i] = measured;
                proof {
                    lemma_timings_update(s_old, i as int, e);
                }
                self.timings = entries;
            },
            Option::None => {
                proof {
                    assert(false);
                }
            },
        }
    }

    /// The delta recorded for the name by its last ended frame. The entry
    /// must exist, as for `end_frame`.
    pub fn get_delta_time(&self, name: &str) -> (result: Duration)
        requires
            self@.contains_key(name@),
        ensures
            result == self@[name@].spec_delta(),
    {
        proof {
            use_type_invariant(self);
        }
        let found = self.index_of_name(name);
        match found {
            Option::Some(i) => {
                proof {
                    let k = name_index(self.timings@, name@);
                    assert(0 <= k < self.timings@.len() && self.timings@[k].0@ == name@);
                    if k != i as int {
                        assert(false);
                    }
                }
                self.timings[i].1.delta_time
            },
            Option::None => {
                proof {
                    assert(false);
                }
                duration_from_secs(0)
            },
        }
    }
}

} // verus!
