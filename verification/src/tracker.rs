//! The key-activity tracker.
//!
//! A keyboard repeats a held key many times a second. The tracker remembers,
//! for every key that is down, when its press was counted, and lets a later
//! key-down on the same key count again only after the key was released or
//! after the timeout has passed.
//!
//! Times are nanoseconds on a monotonic clock whose origin the host chooses.

use std::collections::HashMap;
use vstd::prelude::*;

verus! {

/// Default timeout: two seconds.
pub const KEY_TIMEOUT_NANOS: u64 = 2_000_000_000;

/// Whether a press recorded at `pressed_at` is older at `now` than `timeout`.
/// A press recorded in the future of `now` has no age.
pub open spec fn timed_out(pressed_at: u64, now: u64, timeout: u64) -> bool {
    now - pressed_at > timeout
}

/// The pressed-key set as a mathematical value: the keys that are down, each
/// with the time at which its press was counted, and the timeout in force.
#[verifier::ext_equal]
pub struct PressedKeys {
    pub held: Map<u32, u64>,
    pub timeout: u64,
}

impl PressedKeys {
    /// Whether a key-down on `key` at `now` starts a new press: the key is
    /// not down, or its recorded press has timed out.
    pub open spec fn is_new_press(self, key: u32, now: u64) -> bool {
        !self.held.contains_key(key) || timed_out(self.held[key], now, self.timeout)
    }

    /// The verdict on one key event, as (countable, genuine). Only a key-down
    /// that starts a new press is either.
    pub open spec fn classify(self, key: u32, is_down: bool, now: u64) -> (bool, bool) {
        let fresh = is_down && self.is_new_press(key, now);
        (fresh, fresh)
    }

    /// The set after one key event. A new press is recorded at `now`, a
    /// repeated key-down changes nothing, a key-up removes the key.
    pub open spec fn after_event(self, key: u32, is_down: bool, now: u64) -> PressedKeys {
        if !is_down {
            PressedKeys { held: self.held.remove(key), ..self }
        } else if self.is_new_press(key, now) {
            PressedKeys { held: self.held.insert(key, now), ..self }
        } else {
            self
        }
    }

    /// The set after a cleanup pass at `now`: exactly the entries that have
    /// not timed out, unchanged.
    pub open spec fn after_cleanup(self, now: u64) -> PressedKeys {
        PressedKeys {
            held: Map::new(
                |key: u32| self.held.contains_key(key) && !timed_out(self.held[key], now, self.timeout),
                |key: u32| self.held[key],
            ),
            ..self
        }
    }

    /// The set with no key down.
    pub open spec fn cleared(self) -> PressedKeys {
        PressedKeys { held: Map::empty(), ..self }
    }

    /// The set after a run of key-downs on `key`, one at each of `times`, in
    /// that order.
    pub open spec fn after_key_downs(self, key: u32, times: Seq<u64>) -> PressedKeys
        decreases times.len(),
    {
        if times.len() == 0 {
            self
        } else {
            self.after_key_downs(key, times.drop_last()).after_event(key, true, times.last())
        }
    }

    /// How many key-downs of such a run are countable.
    pub open spec fn counted_key_downs(self, key: u32, times: Seq<u64>) -> nat
        decreases times.len(),
    {
        if times.len() == 0 {
            0
        } else {
            let earlier = times.drop_last();
            let counts = self.after_key_downs(key, earlier).is_new_press(key, times.last());
            self.counted_key_downs(key, earlier) + if counts {
                1nat
            } else {
                0nat
            }
        }
    }
}

/// The tracker's state.
pub struct KeyTracker {
    /// Time of the counted press of every key that is down.
    pub keys: HashMap<u32, u64>,
    /// How long a recorded press suppresses further key-downs, and how long
    /// an entry may stay without a key-up.
    pub timeout: u64,
}

impl View for KeyTracker {
    type V = PressedKeys;

    open spec fn view(&self) -> PressedKeys {
        PressedKeys { held: self.keys@, timeout: self.timeout }
    }
}

/// Decides `timed_out` on machine integers.
pub fn has_timed_out(pressed_at: u64, now: u64, timeout: u64) -> (stale: bool)
    ensures
        stale == timed_out(pressed_at, now, timeout),
{
    now > pressed_at && now - pressed_at > timeout
}

impl KeyTracker {
    /// A tracker with no key down and the default timeout.
    pub fn new() -> (tracker: KeyTracker)
        ensures
            tracker@.held == Map::<u32, u64>::empty(),
            tracker@.timeout == KEY_TIMEOUT_NANOS,
    {
        KeyTracker { keys: HashMap::new(), timeout: KEY_TIMEOUT_NANOS }
    }

    /// A tracker with no key down and the given timeout.
    pub fn with_timeout(timeout: u64) -> (tracker: KeyTracker)
        ensures
            tracker@.held == Map::<u32, u64>::empty(),
            tracker@.timeout == timeout,
    {
        KeyTracker { keys: HashMap::new(), timeout }
    }
}

/// Classifies one key event at `now` and updates the pressed-key set. The
/// result is (countable, genuine).
pub fn process_keyboard_event(tracker: &mut KeyTracker, key: u32, is_down: bool, now: u64) -> (verdict: (bool, bool))
    ensures
        verdict == old(tracker)@.classify(key, is_down, now),
        final(tracker)@ == old(tracker)@.after_event(key, is_down, now),
{
    broadcast use vstd::std_specs::hash::group_hash_axioms;

    if is_down {
        let new_press = match tracker.keys.get(&key) {
            Some(pressed_at) => has_timed_out(*pressed_at, now, tracker.timeout),
            None => true,
        };
        if new_press {
            tracker.keys.insert(key, now);
            return (true, true);
        }
    } else {
        tracker.keys.remove(&key);
    }
    (false, false)
}

/// Whether `key` stands among the first `upto` entries of `list`.
spec fn listed_before(list: Seq<u32>, upto: int, key: u32) -> bool {
    exists|at: int| 0 <= at < upto && at < list.len() && list[at] == key
}

/// The keys whose recorded press has timed out at `now`.
fn stale_keys(tracker: &KeyTracker, now: u64) -> (stale: Vec<u32>)
    ensures
        forall|j: int|
            0 <= j < stale.len() ==> tracker@.held.contains_key(#[trigger] stale[j]) && timed_out(
                tracker@.held[stale[j]],
                now,
                tracker.timeout,
            ),
        forall|key: u32|
            tracker@.held.contains_key(key) && timed_out(tracker@.held[key], now, tracker.timeout)
                ==> stale@.contains(key),
{
    broadcast use vstd::std_specs::hash::group_hash_axioms;

    let mut stale: Vec<u32> = Vec::new();
    for entry in it: tracker.keys.iter()
        invariant
            forall|j: int|
                0 <= j < stale.len() ==> tracker@.held.contains_key(#[trigger] stale[j])
                    && timed_out(tracker@.held[stale[j]], now, tracker.timeout),
            forall|i: int|
                0 <= i < it.index() && timed_out(*(#[trigger] it.seq()[i]).1, now, tracker.timeout)
                    ==> stale@.contains(*it.seq()[i].0),
    {
        let (key, pressed_at) = entry;
        let ghost seen = stale@;
        if has_timed_out(*pressed_at, now, tracker.timeout) {
            stale.push(*key);
            assert(stale@[seen.len() as int] == *key);
        }
        assert forall|other: u32| seen.contains(other) implies stale@.contains(other) by {
            let at = choose|at: int| 0 <= at < seen.len() && seen[at] == other;
            assert(stale@[at] == other);
        }
    }
    stale
}

/// Removes every entry whose press has timed out at `now`.
pub fn cleanup_stale_keys(tracker: &mut KeyTracker, now: u64)
    ensures
        final(tracker)@ == old(tracker)@.after_cleanup(now),
{
    broadcast use vstd::std_specs::hash::group_hash_axioms;

    let stale = stale_keys(tracker, now);
    let ghost before = tracker.keys@;
    let mut j: usize = 0;
    while j < stale.len()
        invariant
            0 <= j <= stale.len(),
            tracker.timeout == old(tracker).timeout,
            before == old(tracker).keys@,
            forall|at: int|
                0 <= at < stale.len() ==> before.contains_key(#[trigger] stale[at]) && timed_out(
                    before[stale[at]],
                    now,
                    tracker.timeout,
                ),
            forall|key: u32|
                before.contains_key(key) && timed_out(before[key], now, tracker.timeout)
                    ==> stale@.contains(key),
            forall|key: u32|
                tracker.keys@.contains_key(key) <==> before.contains_key(key) && !listed_before(
                    stale@,
                    j as int,
                    key,
                ),
            forall|key: u32| tracker.keys@.contains_key(key) ==> tracker.keys@[key] == before[key],
        decreases stale.len() - j,
    {
        let gone = stale[j];
        tracker.keys.remove(&gone);
        j += 1;
        proof {
            assert forall|key: u32|
                listed_before(stale@, j as int, key) <==> listed_before(stale@, j - 1, key) || key
                    == gone by {
                if listed_before(stale@, j as int, key) {
                    let at = choose|at: int| 0 <= at < j && at < stale@.len() && stale@[at] == key;
                    if at < j - 1 {
                        assert(listed_before(stale@, j - 1, key));
                    }
                }
                if listed_before(stale@, j - 1, key) {
                    let at = choose|at: int|
                        0 <= at < j - 1 && at < stale@.len() && stale@[at] == key;
                    assert(stale@[at] == key);
                }
                if key == gone {
                    assert(stale@[j - 1] == key);
                }
            }
        }
    }
    let ghost kept = old(tracker)@.after_cleanup(now).held;
    assert forall|key: u32| tracker@.held.contains_key(key) <==> kept.contains_key(key) by {
        if before.contains_key(key) && timed_out(before[key], now, tracker.timeout) {
            let at = choose|at: int| 0 <= at < stale@.len() && stale@[at] == key;
            assert(listed_before(stale@, j as int, key));
        }
        if listed_before(stale@, j as int, key) {
            let at = choose|at: int| 0 <= at < j && at < stale@.len() && stale@[at] == key;
            assert(timed_out(before[stale@[at]], now, tracker.timeout));
        }
    }
    assert(tracker@.held =~= kept);
}

/// Forgets every pressed key.
pub fn reset_monitoring_state(tracker: &mut KeyTracker)
    ensures
        final(tracker)@ == old(tracker)@.cleared(),
{
    tracker.keys.clear();
}

/// A run of key-downs that starts with a new press at `first` and goes on
/// with `repeats`, none of them later than the timeout after `first`, leaves
/// the set as the first key-down left it, and exactly one of them counts.
proof fn lemma_repeats_leave_press_in_place(
    keys: PressedKeys,
    key: u32,
    first: u64,
    repeats: Seq<u64>,
)
    requires
        keys.is_new_press(key, first),
        forall|i: int| 0 <= i < repeats.len() ==> repeats[i] - first <= keys.timeout,
    ensures
        keys.after_key_downs(key, seq![first] + repeats) == keys.after_event(key, true, first),
        keys.counted_key_downs(key, seq![first] + repeats) == 1,
    decreases repeats.len(),
{
    let run = seq![first] + repeats;
    if repeats.len() == 0 {
        assert(run.drop_last() =~= Seq::<u64>::empty());
        assert(keys.after_key_downs(key, run.drop_last()) == keys);
        assert(keys.counted_key_downs(key, run.drop_last()) == 0);
    } else {
        lemma_repeats_leave_press_in_place(keys, key, first, repeats.drop_last());
        assert(run.drop_last() =~= seq![first] + repeats.drop_last());
        assert(run.last() == repeats[repeats.len() - 1]);
    }
}

/// While a key stays down, only its first key-down counts.
///
/// Take any pressed-key set in which a key-down on `key` at `first` starts a
/// new press, and any run of further key-downs on that key, each no later
/// than the timeout after `first`. Then the first key-down is countable and
/// genuine, every further one is neither, exactly one key-down of the whole
/// run counts, and the set still holds the press of `first`. The suppression
/// ends with a gap: a key-down later than the timeout after `first` counts
/// again.
pub proof fn lemma_held_key_counts_once(
    keys: PressedKeys,
    key: u32,
    first: u64,
    repeats: Seq<u64>,
    after_gap: u64,
)
    requires
        keys.is_new_press(key, first),
        forall|i: int| 0 <= i < repeats.len() ==> repeats[i] - first <= keys.timeout,
    ensures
        keys.classify(key, true, first) == (true, true),
        forall|i: int|
            0 <= i < repeats.len() ==> keys.after_key_downs(
                key,
                seq![first] + repeats.take(i),
            ).classify(key, true, #[trigger] repeats[i]) == (false, false),
        keys.counted_key_downs(key, seq![first] + repeats) == 1,
        keys.after_key_downs(key, seq![first] + repeats) == keys.after_event(key, true, first),
        after_gap - first > keys.timeout ==> keys.after_key_downs(
            key,
            seq![first] + repeats,
        ).classify(key, true, after_gap) == (true, true),
{
    lemma_repeats_leave_press_in_place(keys, key, first, repeats);
    assert forall|i: int| 0 <= i < repeats.len() implies keys.after_key_downs(
        key,
        seq![first] + repeats.take(i),
    ).classify(key, true, #[trigger] repeats[i]) == (false, false) by {
        lemma_repeats_leave_press_in_place(keys, key, first, repeats.take(i));
    }
}

/// A key-up ends the suppression: key-down, key-up, key-down on one key are
/// two genuine events.
///
/// Whatever the three times are, if the first key-down starts a new press,
/// it is countable and genuine, the key-up is neither and removes the key,
/// and the second key-down is countable and genuine again.
pub proof fn lemma_release_lets_key_count_again(
    keys: PressedKeys,
    key: u32,
    pressed: u64,
    released: u64,
    pressed_again: u64,
)
    requires
        keys.is_new_press(key, pressed),
    ensures
        keys.classify(key, true, pressed) == (true, true),
        keys.after_event(key, true, pressed).classify(key, false, released) == (false, false),
        !keys.after_event(key, true, pressed).after_event(key, false, released).held.contains_key(
            key,
        ),
        keys.after_event(key, true, pressed).after_event(key, false, released).classify(
            key,
            true,
            pressed_again,
        ) == (true, true),
{
}

/// A key-up is never countable nor genuine, and after it the next key-down
/// on that key always is.
pub proof fn lemma_key_up_never_counts(keys: PressedKeys, key: u32, released: u64, next: u64)
    ensures
        keys.classify(key, false, released) == (false, false),
        keys.after_event(key, false, released).classify(key, true, next) == (true, true),
{
}

/// A stuck key is evicted by the cleanup pass.
///
/// If `key` is in the set and its press has timed out at `now`, the set after
/// a cleanup at `now` no longer holds it, and the next key-down on it, at any
/// time, is countable and genuine. Entries that have not timed out stay as
/// they are.
pub proof fn lemma_cleanup_evicts_stuck_key(keys: PressedKeys, key: u32, now: u64, next: u64)
    requires
        keys.held.contains_key(key),
        timed_out(keys.held[key], now, keys.timeout),
    ensures
        !keys.after_cleanup(now).held.contains_key(key),
        keys.after_cleanup(now).classify(key, true, next) == (true, true),
        forall|other: u32|
            keys.held.contains_key(other) && !timed_out(keys.held[other], now, keys.timeout)
                ==> keys.after_cleanup(now).held.contains_key(other) && keys.after_cleanup(
                now,
            ).held[other] == keys.held[other],
{
}

/// The recorded time of a key that stays in the set never moves backward,
/// neither by an event on any key nor by a cleanup pass.
pub proof fn lemma_press_times_never_decrease(
    keys: PressedKeys,
    key: u32,
    is_down: bool,
    now: u64,
    cleanup_at: u64,
    watched: u32,
)
    requires
        keys.held.contains_key(watched),
    ensures
        keys.after_event(key, is_down, now).held.contains_key(watched) ==> keys.held[watched]
            <= keys.after_event(key, is_down, now).held[watched],
        keys.after_cleanup(cleanup_at).held.contains_key(watched) ==> keys.held[watched]
            == keys.after_cleanup(cleanup_at).held[watched],
{
}

} // verus!
