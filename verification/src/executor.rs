//! The executor's concurrency policy: at most one backup per host may be in
//! flight. The executor tracks the set of hosts whose execution slot is
//! taken; a task whose host is busy is re-enqueued instead of dispatched.

use vstd::prelude::*;
use crate::scheduler::BackupScheduler;
use crate::task::BackupTask;

verus! {

/// The per-host execution-slot set: the identifiers of hosts with a backup
/// in flight.
pub struct Executor {
    pub running: Vec<String>,
}

/// What one slot acquisition does: it succeeds exactly when the host was
/// idle, and then the host — and nothing else — joins the in-flight set.
pub open spec fn acquire_step(pre: Executor, post: Executor, id: Seq<char>, ok: bool) -> bool {
    &&& ok == !pre.is_running_spec(id)
    &&& (ok ==> post.running@.map_values(|s: String| s@) == pre.running@.map_values(
        |s: String| s@,
    ).push(id))
    &&& (!ok ==> post == pre)
}

impl Executor {
    /// No host holds more than one execution slot.
    pub open spec fn wf(self) -> bool {
        forall|i: int, j: int|
            0 <= i < j < self.running@.len() ==> self.running@[i]@ != self.running@[j]@
    }

    /// Whether a backup for the host is in flight.
    pub open spec fn is_running_spec(self, id: Seq<char>) -> bool {
        exists|i: int| 0 <= i < self.running@.len() && self.running@[i]@ == id
    }

    /// An executor with no backup in flight.
    pub fn new() -> (r: Executor)
        ensures
            r.wf(),
            r.running@.len() == 0,
            forall|id: Seq<char>| !r.is_running_spec(id),
    {
        Executor { running: Vec::new() }
    }

    /// Whether a backup for the host is in flight.
    pub fn is_running(&self, host_id: &String) -> (r: bool)
        ensures
            r == self.is_running_spec(host_id@),
    {
        let n = self.running.len();
        let mut i: usize = 0;
        while i < n
            invariant
                n == self.running@.len(),
                i <= n,
                forall|j: int| 0 <= j < i ==> self.running@[j]@ != host_id@,
            decreases n - i,
        {
            if self.running[i].eq(host_id) {
                return true;
            }
            i = i + 1;
        }
        false
    }

    /// Tries to take the host's execution slot: succeeds exactly when no
    /// backup for the host is in flight, and then marks the host busy.
    pub fn try_acquire(&mut self, host_id: &String) -> (ok: bool)
        requires
            old(self).wf(),
        ensures
            final(self).wf(),
            acquire_step(*old(self), *final(self), host_id@, ok),
    {
        if self.is_running(host_id) {
            return false;
        }
        let ghost pre = self.running@;
        self.running.push(host_id.clone());
        proof {
            assert(self.running@.map_values(|s: String| s@) =~= pre.map_values(
                |s: String| s@,
            ).push(host_id@));
            assert forall|i: int, j: int| 0 <= i < j < self.running@.len() implies self.running@[i]@
                != self.running@[j]@ by {
                if j == pre.len() {
                    assert(self.running@[i] == pre[i]);
                }
            }
        }
        true
    }

    /// Releases the host's execution slot on task completion, so a
    /// later-queued task for the host may proceed; every other host's slot
    /// is left as it was.
    pub fn release(&mut self, host_id: &String)
        requires
            old(self).wf(),
        ensures
            final(self).wf(),
            !final(self).is_running_spec(host_id@),
            forall|p: Seq<char>| p != host_id@
                ==> (final(self).is_running_spec(p) <==> old(self).is_running_spec(p)),
    {
        let n = self.running.len();
        let mut i: usize = 0;
        while i < n
            invariant
                old(self) == self,
                self.wf(),
                n == self.running@.len(),
                i <= n,
                forall|j: int| 0 <= j < i ==> self.running@[j]@ != host_id@,
            decreases n - i,
        {
            if self.running[i].eq(host_id) {
                let ghost pre = self.running@;
                self.running.remove(i);
                proof {
                    assert forall|a: int, b: int| 0 <= a < b < self.running@.len() implies
                        self.running@[a]@ != self.running@[b]@ by {
                        assert(self.running@[a] == if a < i as int { pre[a] } else { pre[a + 1] });
                        assert(self.running@[b] == if b < i as int { pre[b] } else { pre[b + 1] });
                    }
                    assert forall|j: int| 0 <= j < self.running@.len() implies self.running@[j]@
                        != host_id@ by {
                        assert(self.running@[j] == if j < i as int { pre[j] } else { pre[j + 1] });
                        if j >= i as int {
                            assert(pre[i as int]@ == host_id@);
                        }
                    }
                    assert forall|p: Seq<char>| p != host_id@ && old(self).is_running_spec(p)
                        implies self.is_running_spec(p) by {
                        let w = choose|k: int| 0 <= k < pre.len() && pre[k]@ == p;
                        if w < i as int {
                            assert(self.running@[w]@ == p);
                        } else if w > i as int {
                            assert(self.running@[w - 1]@ == p);
                        }
                    }
                    assert forall|p: Seq<char>| p != host_id@ && self.is_running_spec(p) implies
                        old(self).is_running_spec(p) by {
                        let w = choose|k: int|
                            0 <= k < self.running@.len() && self.running@[k]@ == p;
                        assert(self.running@[w] == if w < i as int { pre[w] } else { pre[w + 1] });
                    }
                }
                return ;
            }
            i = i + 1;
        }
    }

    /// One drain step: pops the next pending task and, when its host's slot
    /// is free, hands the task out for execution; a task whose host is busy
    /// is re-enqueued at the tail, so it still runs eventually. Returns
    /// `None` when nothing was dispatched.
    pub fn dispatch_next(&mut self, scheduler: &mut BackupScheduler) -> (r: Option<BackupTask>)
        requires
            old(self).wf(),
        ensures
            final(self).wf(),
            (r matches Some(t) ==> old(scheduler).queue_model().len() > 0
                && t == old(scheduler).queue_model()[0]
                && !old(self).is_running_spec(t.host.config.identifier@)
                && final(self).is_running_spec(t.host.config.identifier@)
                && acquire_step(*old(self), *final(self), t.host.config.identifier@, true)
                && final(scheduler).queue_model() == old(scheduler).queue_model().subrange(
                1,
                old(scheduler).queue_model().len() as int,
            )),
            (old(scheduler).queue_model().len() > 0 && !old(self).is_running_spec(
                old(scheduler).queue_model()[0].host.config.identifier@,
            ) ==> r is Some),
            (r is None && old(scheduler).queue_model().len() > 0 ==> old(self).is_running_spec(
                old(scheduler).queue_model()[0].host.config.identifier@,
            )),
            (r is None ==> *final(self) == *old(self)),
            (r is None && old(scheduler).queue_model().len() == 0 ==> final(scheduler).queue_model()
                == old(scheduler).queue_model()),
            (r is None && old(scheduler).queue_model().len() > 0 ==> final(scheduler).queue_model()
                == old(scheduler).queue_model().subrange(
                1,
                old(scheduler).queue_model().len() as int,
            ).push(old(scheduler).queue_model()[0])),
            final(scheduler).schedules == old(scheduler).schedules,
            final(scheduler).global_config == old(scheduler).global_config,
            final(scheduler).settings == old(scheduler).settings,
            final(scheduler).fired_model() == old(scheduler).fired_model(),
    {
        let task = match scheduler.pop_task() {
            Some(t) => t,
            None => {
                return None;
            },
        };
        let ok = self.try_acquire(&task.host.config.identifier);
        if ok {
            proof {
                let m = self.running@.map_values(|s: String| s@);
                assert(m[m.len() - 1] == task.host.config.identifier@);
                assert(self.running@[self.running@.len() - 1]@
                    == task.host.config.identifier@);
            }
            Some(task)
        } else {
            scheduler.push_task(task);
            None
        }
    }
}

/// At most one backup per host is ever in flight: once a host's slot has
/// been acquired, every further attempt to acquire it fails until the slot
/// is released.
pub proof fn lemma_at_most_one_in_flight(
    e0: Executor,
    e1: Executor,
    e2: Executor,
    id: Seq<char>,
    ok1: bool,
    ok2: bool,
)
    requires
        acquire_step(e0, e1, id, ok1),
        acquire_step(e1, e2, id, ok2),
        ok1,
    ensures
        !ok2,
{
    let m = e1.running@.map_values(|s: String| s@);
    assert(m[m.len() - 1] == id);
    assert(e1.running@[e1.running@.len() - 1]@ == id);
}

} // verus!
