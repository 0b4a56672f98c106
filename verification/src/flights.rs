//! Fetches that are under way. Lookups of one key that miss the cache at
//! the same time come down to one fetch: the first to ask fetches, the
//! others wait for what the first gets, be it a value or a failure.

use vstd::prelude::*;

verus! {

/// The part of one who asks for a key that is not in the cache.
#[derive(Clone, Copy, Debug, PartialEq, Eq, Structural)]
pub enum Flight {
    /// Nobody fetches the key yet: fetch it, and tell when the fetch has
    /// ended.
    Lead,
    /// Somebody fetches the key already: wait for the outcome.
    Follow,
}

/// The keys that are being fetched.
pub struct Flights {
    keys: Vec<String>,
}

/// The keys of a list, as the contracts see them.
pub open spec fn key_set(keys: Seq<String>) -> Set<Seq<char>> {
    Set::new(|key: Seq<char>| exists|i: int| 0 <= i < keys.len() && (#[trigger] keys[i])@ == key)
}

/// No key is listed twice.
pub open spec fn distinct(keys: Seq<String>) -> bool {
    forall|i: int, j: int|
        0 <= i < keys.len() && 0 <= j < keys.len() && i != j ==> (#[trigger] keys[i])@ != (
        #[trigger] keys[j])@
}

impl View for Flights {
    type V = Set<Seq<char>>;

    closed spec fn view(&self) -> Set<Seq<char>> {
        key_set(self.keys@)
    }
}

impl Flights {
    /// No key is being fetched twice.
    pub closed spec fn wf(&self) -> bool {
        distinct(self.keys@)
    }

    /// Nothing is being fetched.
    pub fn new() -> (flights: Flights)
        ensures
            flights@ == Set::<Seq<char>>::empty(),
            flights.wf(),
    {
        let flights = Flights { keys: Vec::new() };
        assert(flights@ =~= Set::<Seq<char>>::empty());
        flights
    }

    fn position(&self, key: &String) -> (found: Option<usize>)
        ensures
            match found {
                Some(i) => i < self.keys@.len() && self.keys@[i as int]@ == key@,
                None => !self@.contains(key@),
            },
    {
        let mut i: usize = 0;
        while i < self.keys.len()
            invariant
                i <= self.keys.len(),
                forall|j: int| 0 <= j < i ==> (#[trigger] self.keys@[j])@ != key@,
            decreases self.keys.len() - i,
        {
            if self.keys[i] == *key {
                return Some(i);
            }
            i = i + 1;
        }
        None
    }

    /// Whether the key is being fetched.
    pub fn in_flight(&self, key: &String) -> (answer: bool)
        ensures
            answer == self@.contains(key@),
    {
        match self.position(key) {
            Some(i) => {
                assert(self.keys@[i as int]@ == key@);
                true
            },
            None => false,
        }
    }

    /// Somebody asks for a key that is not in the cache. The first to ask
    /// leads; whoever asks while the key is being fetched follows.
    pub fn join(&mut self, key: &String) -> (flight: Flight)
        requires
            old(self).wf(),
        ensures
            final(self).wf(),
            flight == if old(self)@.contains(key@) {
                Flight::Follow
            } else {
                Flight::Lead
            },
            final(self)@ == old(self)@.insert(key@),
    {
        match self.position(key) {
            Some(i) => {
                assert(self.keys@[i as int]@ == key@);
                assert(self@ =~= old(self)@.insert(key@));
                Flight::Follow
            },
            None => {
                let ghost before = self.keys@;
                self.keys.push(key.clone());
                proof {
                    assert forall|k: Seq<char>|
                        key_set(self.keys@).contains(k) <==> key_set(before).insert(key@).contains(
                            k,
                        ) by {
                        if key_set(self.keys@).contains(k) {
                            let i = choose|i: int|
                                0 <= i < self.keys@.len() && (#[trigger] self.keys@[i])@ == k;
                            if i < before.len() {
                                assert(before[i]@ == k);
                            }
                        }
                        if key_set(before).contains(k) {
                            let i = choose|i: int|
                                0 <= i < before.len() && (#[trigger] before[i])@ == k;
                            assert(self.keys@[i]@ == k);
                        }
                        if k == key@ {
                            assert(self.keys@[before.len() as int]@ == k);
                        }
                    }
                    assert(self@ =~= old(self)@.insert(key@));
                    assert forall|i: int, j: int|
                        0 <= i < self.keys@.len() && 0 <= j < self.keys@.len() && i != j implies (
                    #[trigger] self.keys@[i])@ != (#[trigger] self.keys@[j])@ by {
                        if i < before.len() && j < before.len() {
                            assert(before[i]@ != before[j]@);
                        } else if i < before.len() {
                            assert(before[i]@ != key@);
                        } else {
                            assert(before[j]@ != key@);
                        }
                    }
                }
                Flight::Lead
            },
        }
    }

    /// The fetch of the key has ended. Returns whether the key was being
    /// fetched; the next to ask for it leads again.
    pub fn land(&mut self, key: &String) -> (was_in_flight: bool)
        requires
            old(self).wf(),
        ensures
            final(self).wf(),
            was_in_flight == old(self)@.contains(key@),
            final(self)@ == old(self)@.remove(key@),
    {
        match self.position(key) {
            None => {
                assert(self@ =~= old(self)@.remove(key@));
                false
            },
            Some(at) => {
                let ghost before = self.keys@;
                assert(before[at as int]@ == key@);
                let _ = self.keys.remove(at);
                proof {
                    let after = self.keys@;
                    assert(after =~= before.remove(at as int));
                    assert forall|k: Seq<char>|
                        key_set(after).contains(k) <==> key_set(before).remove(key@).contains(
                            k,
                        ) by {
                        if key_set(after).contains(k) {
                            let i = choose|i: int| 0 <= i < after.len() && (#[trigger] after[i])@ == k;
                            if i < at {
                                assert(before[i]@ == k);
                            } else {
                                assert(before[i + 1]@ == k);
                            }
                        }
                        if key_set(before).contains(k) && k != key@ {
                            let i = choose|i: int|
                                0 <= i < before.len() && (#[trigger] before[i])@ == k;
                            if i < at {
                                assert(after[i]@ == k);
                            } else {
                                assert(after[i - 1]@ == k);
                            }
                        }
                    }
                    assert(self@ =~= old(self)@.remove(key@));
                    assert forall|i: int, j: int|
                        0 <= i < after.len() && 0 <= j < after.len() && i != j implies (
                    #[trigger] after[i])@ != (#[trigger] after[j])@ by {
                        let bi = if i < at {
                            i
                        } else {
                            i + 1
                        };
                        let bj = if j < at {
                            j
                        } else {
                            j + 1
                        };
                        assert(before[bi]@ != before[bj]@);
                    }
                }
                true
            },
        }
    }
}

/// While a key is being fetched, nobody else leads a fetch of it: whoever
/// joins after the leader and before the fetch has landed, follows.
pub proof fn lemma_one_leader(before: Set<Seq<char>>, key: Seq<char>, others: Seq<Seq<char>>)
    ensures
        joined_all(before.insert(key), others).contains(key),
    decreases others.len(),
{
    if others.len() > 0 {
        lemma_one_leader(before, key, others.drop_last());
    }
}

/// The keys in flight after all of `keys` have joined.
pub open spec fn joined_all(in_flight: Set<Seq<char>>, keys: Seq<Seq<char>>) -> Set<Seq<char>>
    decreases keys.len(),
{
    if keys.len() == 0 {
        in_flight
    } else {
        joined_all(in_flight, keys.drop_last()).insert(keys.last())
    }
}

} // verus!
