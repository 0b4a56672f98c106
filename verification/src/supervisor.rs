//! Keeping one worker for every instance that is known and not blocked, and
//! the life of the task that runs a worker.

use crate::seq_facts::{lemma_push_contains, lemma_push_no_duplicates, lemma_take_contains};
use vstd::prelude::*;

verus! {

/// A remote instance, as the instance directory lists it.
#[derive(Clone, Debug, PartialEq, Eq)]
pub struct Instance {
    pub id: i32,
    pub domain: String,
    pub blocked: bool,
    pub software: Option<String>,
    pub version: Option<String>,
}

/// An instance gets a worker if the directory lists it and no entry of it is
/// blocked.
pub open spec fn live(instances: Seq<Instance>, id: i32) -> bool {
    &&& exists|i: int| 0 <= i < instances.len() && (#[trigger] instances[i]).id == id
    &&& forall|i: int|
        0 <= i < instances.len() && (#[trigger] instances[i]).id == id ==> !instances[i].blocked
}

/// Whether the instance `id` gets a worker.
pub fn is_live(instances: &Vec<Instance>, id: i32) -> (answer: bool)
    ensures
        answer == live(instances@, id),
{
    let mut known = false;
    let mut i: usize = 0;
    while i < instances.len()
        invariant
            i <= instances.len(),
            known == (exists|j: int| 0 <= j < i && (#[trigger] instances@[j]).id == id),
            forall|j: int| 0 <= j < i && (#[trigger] instances@[j]).id == id ==> !instances@[j].blocked,
        decreases instances.len() - i,
    {
        if instances[i].id == id {
            if instances[i].blocked {
                return false;
            }
            known = true;
        }
        i = i + 1;
    }
    known
}

/// Whether `id` is among `ids`.
pub fn contains_id(ids: &Vec<i32>, id: i32) -> (found: bool)
    ensures
        found == ids@.contains(id),
{
    let mut i: usize = 0;
    while i < ids.len()
        invariant
            i <= ids.len(),
            forall|j: int| 0 <= j < i ==> ids@[j] != id,
        decreases ids.len() - i,
    {
        if ids[i] == id {
            return true;
        }
        i = i + 1;
    }
    false
}

/// What has to change so that the workers match the directory.
#[derive(Clone, Debug, PartialEq, Eq)]
pub struct WorkerPlan {
    /// Instances that need a worker and have none: a worker is to be started
    /// for each, from the queue state that is stored for it.
    pub start: Vec<i32>,
    /// Instances whose worker is to be cancelled.
    pub stop: Vec<i32>,
}

/// The set of instances that have a worker.
pub struct Supervisor {
    workers: Vec<i32>,
}

impl View for Supervisor {
    type V = Seq<i32>;

    closed spec fn view(&self) -> Seq<i32> {
        self.workers@
    }
}

impl Supervisor {
    /// No instance has two workers.
    pub open spec fn wf(&self) -> bool {
        self@.no_duplicates()
    }

    /// A supervisor without workers.
    pub fn new() -> (supervisor: Supervisor)
        ensures
            supervisor@ == Seq::<i32>::empty(),
            supervisor.wf(),
    {
        Supervisor { workers: Vec::new() }
    }

    /// The instances that have a worker.
    pub fn workers(&self) -> (ids: &Vec<i32>)
        ensures
            ids@ == self@,
    {
        &self.workers
    }

    /// Whether the instance has a worker.
    pub fn has_worker(&self, id: i32) -> (found: bool)
        ensures
            found == self@.contains(id),
    {
        contains_id(&self.workers, id)
    }

    /// Brings the workers in line with the directory. Afterwards exactly the
    /// instances that are known and not blocked have a worker, one each. The
    /// plan lists the workers that this takes: to start, those that were
    /// missing; to stop, those whose instance is blocked or no longer known.
    pub fn reconcile(&mut self, instances: &Vec<Instance>) -> (plan: WorkerPlan)
        requires
            old(self).wf(),
        ensures
            final(self).wf(),
            forall|id: i32| final(self)@.contains(id) <==> live(instances@, id),
            plan.start@.no_duplicates(),
            plan.stop@.no_duplicates(),
            forall|id: i32|
                plan.start@.contains(id) <==> (live(instances@, id) && !old(self)@.contains(id)),
            forall|id: i32|
                plan.stop@.contains(id) <==> (old(self)@.contains(id) && !live(instances@, id)),
    {
        let mut kept: Vec<i32> = Vec::new();
        let mut stop: Vec<i32> = Vec::new();
        let mut k: usize = 0;
        while k < self.workers.len()
            invariant
                k <= self.workers.len(),
                self.workers@ == old(self)@,
                old(self)@.no_duplicates(),
                kept@.no_duplicates(),
                stop@.no_duplicates(),
                forall|id: i32|
                    kept@.contains(id) <==> (old(self)@.take(k as int).contains(id) && live(
                        instances@,
                        id,
                    )),
                forall|id: i32|
                    stop@.contains(id) <==> (old(self)@.take(k as int).contains(id) && !live(
                        instances@,
                        id,
                    )),
            decreases self.workers.len() - k,
        {
            let id: i32 = self.workers[k];
            let ghost kept_before = kept@;
            let ghost stop_before = stop@;
            proof {
                if old(self)@.take(k as int).contains(id) {
                    let j = choose|j: int|
                        0 <= j < old(self)@.take(k as int).len() && old(self)@.take(k as int)[j]
                            == id;
                    assert(old(self)@[j] == old(self)@[k as int]);
                }
            }
            if is_live(instances, id) {
                kept.push(id);
                proof {
                    lemma_push_no_duplicates(kept_before, id);
                }
            } else {
                stop.push(id);
                proof {
                    lemma_push_no_duplicates(stop_before, id);
                }
            }
            proof {
                assert forall|x: i32|
                    kept@.contains(x) <==> (old(self)@.take(k + 1).contains(x) && live(
                        instances@,
                        x,
                    )) by {
                    lemma_take_contains(old(self)@, k as int, x);
                    lemma_push_contains(kept_before, id, x);
                }
                assert forall|x: i32|
                    stop@.contains(x) <==> (old(self)@.take(k + 1).contains(x) && !live(
                        instances@,
                        x,
                    )) by {
                    lemma_take_contains(old(self)@, k as int, x);
                    lemma_push_contains(stop_before, id, x);
                }
            }
            k = k + 1;
        }
        assert(old(self)@.take(k as int) =~= old(self)@);
        let mut start: Vec<i32> = Vec::new();
        let mut i: usize = 0;
        while i < instances.len()
            invariant
                i <= instances.len(),
                self.workers@ == old(self)@,
                kept@.no_duplicates(),
                start@.no_duplicates(),
                forall|id: i32|
                    kept@.contains(id) <==> (live(instances@, id) && (old(self)@.contains(id)
                        || start@.contains(id))),
                forall|id: i32|
                    start@.contains(id) <==> (live(instances@, id) && !old(self)@.contains(id)
                        && exists|j: int| 0 <= j < i && (#[trigger] instances@[j]).id == id),
            decreases instances.len() - i,
        {
            let id: i32 = instances[i].id;
            let ghost kept_before = kept@;
            let ghost start_before = start@;
            let add = is_live(instances, id) && !contains_id(&self.workers, id) && !contains_id(
                &start,
                id,
            );
            if add {
                start.push(id);
                kept.push(id);
                proof {
                    lemma_push_no_duplicates(start_before, id);
                    lemma_push_no_duplicates(kept_before, id);
                }
            }
            proof {
                assert forall|x: i32|
                    start@.contains(x) <==> (live(instances@, x) && !old(self)@.contains(x)
                        && exists|j: int| 0 <= j < i + 1 && (#[trigger] instances@[j]).id == x) by {
                    if add {
                        lemma_push_contains(start_before, id, x);
                    }
                    if start@.contains(x) {
                        if x == id {
                            assert(instances@[i as int].id == x);
                        } else {
                            let j = choose|j: int|
                                0 <= j < i && (#[trigger] instances@[j]).id == x;
                            assert(instances@[j].id == x);
                        }
                    }
                    if live(instances@, x) && !old(self)@.contains(x) && exists|j: int|
                        0 <= j < i + 1 && (#[trigger] instances@[j]).id == x {
                        let j = choose|j: int|
                            0 <= j < i + 1 && (#[trigger] instances@[j]).id == x;
                        if j < i {
                            assert(instances@[j].id == x);
                            assert(start_before.contains(x));
                        } else {
                            assert(x == id);
                        }
                    }
                }
                assert forall|x: i32|
                    kept@.contains(x) <==> (live(instances@, x) && (old(self)@.contains(x)
                        || start@.contains(x))) by {
                    if add {
                        lemma_push_contains(start_before, id, x);
                        lemma_push_contains(kept_before, id, x);
                    }
                }
            }
            i = i + 1;
        }
        proof {
            assert forall|x: i32| kept@.contains(x) <==> live(instances@, x) by {
                if live(instances@, x) && !old(self)@.contains(x) {
                    let j = choose|j: int|
                        0 <= j < instances@.len() && (#[trigger] instances@[j]).id == x;
                    assert(instances@[j].id == x);
                }
            }
            assert forall|x: i32|
                start@.contains(x) <==> (live(instances@, x) && !old(self)@.contains(x)) by {
                if live(instances@, x) && !old(self)@.contains(x) {
                    let j = choose|j: int|
                        0 <= j < instances@.len() && (#[trigger] instances@[j]).id == x;
                    assert(instances@[j].id == x);
                }
            }
        }
        self.workers = kept;
        WorkerPlan { start, stop }
    }
}

} // verus!
