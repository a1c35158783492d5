//! The task registry: the in-memory mapping from task identity to its
//! scheduling metadata. It owns the add/replace/remove semantics and keeps
//! at most one scheduled job per task type. Invalid cron expressions are
//! never admitted: a rejected registration leaves the registry untouched.

use crate::cron::{parse, spec_parse, CronExpression, TimeFields};
use crate::definitions::{PeriodicTask, PeriodicTaskType, PeriodicTaskView};
use vstd::prelude::*;

verus! {

/// Why a registration was rejected.
#[derive(Clone, Copy, Debug, PartialEq, Eq, Structural)]
pub enum RejectedReason {
    InvalidCronExpression,
}

/// A registry entry: the task specification together with the handle and
/// the compiled expression assigned when it was registered.
#[derive(Clone, Debug)]
pub struct ScheduledJob {
    pub job_handle: u64,
    pub task: PeriodicTask,
    pub compiled: CronExpression,
}

/// The mathematical model of a registry entry.
pub struct ScheduledJobView {
    pub job_handle: u64,
    pub task: PeriodicTaskView,
    pub compiled: CronExpression,
}

impl View for ScheduledJob {
    type V = ScheduledJobView;

    open spec fn view(&self) -> ScheduledJobView {
        ScheduledJobView { job_handle: self.job_handle, task: self.task@, compiled: self.compiled }
    }
}

/// Whether some entry of `s` is for task type `t`.
pub open spec fn contains_type(s: Seq<ScheduledJobView>, t: PeriodicTaskType) -> bool {
    exists|i: int| 0 <= i < s.len() && s[i].task.task_type == t
}

/// The index of the entry for task type `t` (unique when entry types are
/// distinct).
pub open spec fn index_of_type(s: Seq<ScheduledJobView>, t: PeriodicTaskType) -> int {
    choose|i: int| 0 <= i < s.len() && s[i].task.task_type == t
}

/// `s` with the entry for task type `t` removed, if one is there.
pub open spec fn remove_type(s: Seq<ScheduledJobView>, t: PeriodicTaskType) -> Seq<
    ScheduledJobView,
> {
    if contains_type(s, t) {
        s.remove(index_of_type(s, t))
    } else {
        s
    }
}

/// Whether a registered job is due at the reference time: its schedule
/// matches and it is not disabled. A disabled job stays registered but is
/// never due.
pub open spec fn job_due(j: ScheduledJobView, t: TimeFields) -> bool {
    !j.task.disabled && j.compiled.spec_is_due(t)
}

/// The task specifications of the jobs of `s` that are due at `t`, in
/// registration order.
pub open spec fn due_tasks(s: Seq<ScheduledJobView>, t: TimeFields) -> Seq<PeriodicTaskView> {
    s.filter(|j: ScheduledJobView| job_due(j, t)).map_values(|j: ScheduledJobView| j.task)
}

/// A disabled job never appears among the due tasks, whatever the
/// reference time — even when its schedule matches — while a snapshot
/// still lists it (`snapshot` covers every entry, `due_tasks` only the
/// enabled ones whose schedule matches).
pub proof fn lemma_disabled_job_never_due(s: Seq<ScheduledJobView>, t: TimeFields, i: int)
    requires
        0 <= i < s.len(),
        s[i].task.disabled,
    ensures
        forall|k: int|
            0 <= k < due_tasks(s, t).len() ==> #[trigger] due_tasks(s, t)[k] != s[i].task,
{
    let kept = s.filter(|j: ScheduledJobView| job_due(j, t));
    assert forall|k: int| 0 <= k < due_tasks(s, t).len() implies #[trigger] due_tasks(s, t)[k]
        != s[i].task by {
        s.lemma_filter_pred(|j: ScheduledJobView| job_due(j, t), k);
        assert(due_tasks(s, t)[k] == kept[k].task);
        assert(!kept[k].task.disabled);
    }
}

/// The task specifications of the entries of `s`, in registration order.
pub open spec fn tasks_of(s: Seq<ScheduledJobView>) -> Seq<PeriodicTaskView> {
    s.map_values(|j: ScheduledJobView| j.task)
}

/// Whether some specification of `s` is for task type `t`.
pub open spec fn contains_task(s: Seq<PeriodicTaskView>, t: PeriodicTaskType) -> bool {
    exists|i: int| 0 <= i < s.len() && s[i].task_type == t
}

/// The index of the specification for task type `t` (unique when the
/// types are distinct).
pub open spec fn index_of_task(s: Seq<PeriodicTaskView>, t: PeriodicTaskType) -> int {
    choose|i: int| 0 <= i < s.len() && s[i].task_type == t
}

/// The effect of one upsert on the registered task specifications: a
/// specification that parses replaces any entry of its type and registers
/// at the end; one that does not parse changes nothing.
pub open spec fn upsert_tasks(s: Seq<PeriodicTaskView>, t: PeriodicTaskView) -> Seq<
    PeriodicTaskView,
> {
    if spec_parse(t.cron) is Ok {
        (if contains_task(s, t.task_type) {
            s.remove(index_of_task(s, t.task_type))
        } else {
            s
        }).push(t)
    } else {
        s
    }
}

/// The registered task specifications after a reset: the defaults upserted
/// in sequence order into an empty registry; a malformed default is
/// skipped.
pub open spec fn spec_reset_tasks(ds: Seq<PeriodicTaskView>) -> Seq<PeriodicTaskView>
    decreases ds.len(),
{
    if ds.len() == 0 {
        Seq::empty()
    } else {
        upsert_tasks(spec_reset_tasks(ds.drop_last()), ds.last())
    }
}

/// Upserting is idempotent on the registered task specifications: when
/// the types of `s` are pairwise distinct, upserting `t` twice leaves the
/// same specifications as upserting it once.
pub proof fn lemma_upsert_idempotent(s: Seq<PeriodicTaskView>, t: PeriodicTaskView)
    requires
        forall|i: int, j: int| 0 <= i < j < s.len() ==> s[i].task_type != s[j].task_type,
    ensures
        upsert_tasks(upsert_tasks(s, t), t) == upsert_tasks(s, t),
{
    if spec_parse(t.cron) is Ok {
        let base = if contains_task(s, t.task_type) {
            s.remove(index_of_task(s, t.task_type))
        } else {
            s
        };
        assert forall|i: int| 0 <= i < base.len() implies base[i].task_type != t.task_type by {
            if contains_task(s, t.task_type) {
                let k = index_of_task(s, t.task_type);
                assert(0 <= k < s.len() && s[k].task_type == t.task_type);
                if i < k {
                    assert(base[i] == s[i]);
                } else {
                    assert(base[i] == s[i + 1]);
                }
            } else {
                assert(base[i] == s[i]);
                assert(!(0 <= i < s.len() && s[i].task_type == t.task_type));
            }
        }
        let once = upsert_tasks(s, t);
        assert(once == base.push(t));
        assert(once[once.len() - 1].task_type == t.task_type);
        assert(contains_task(once, t.task_type));
        let k2 = index_of_task(once, t.task_type);
        assert(0 <= k2 < once.len() && once[k2].task_type == t.task_type);
        if k2 < once.len() - 1 {
            assert(once[k2] == base[k2]);
            assert(false);
        }
        assert(once.remove(k2) =~= base);
        assert(upsert_tasks(once, t) == base.push(t));
    }
}

/// When the defaults have pairwise distinct task types and every cron
/// expression among them parses, a reset restores exactly the default
/// configuration, in order and content, regardless of prior state.
pub proof fn lemma_reset_restores_defaults(ds: Seq<PeriodicTaskView>)
    requires
        forall|i: int, j: int| 0 <= i < j < ds.len() ==> ds[i].task_type != ds[j].task_type,
        forall|i: int| 0 <= i < ds.len() ==> spec_parse(#[trigger] ds[i].cron) is Ok,
    ensures
        spec_reset_tasks(ds) == ds,
    decreases ds.len(),
{
    if ds.len() == 0 {
        assert(spec_reset_tasks(ds) =~= ds);
    } else {
        let prefix = ds.drop_last();
        let last = ds.last();
        lemma_reset_restores_defaults(prefix);
        assert(spec_parse(last.cron) is Ok);
        assert(!contains_task(prefix, last.task_type)) by {
            if contains_task(prefix, last.task_type) {
                let k = choose|k: int|
                    0 <= k < prefix.len() && prefix[k].task_type == last.task_type;
                assert(ds[k].task_type == ds[ds.len() - 1].task_type);
                assert(false);
            }
        }
        assert(spec_reset_tasks(ds) == prefix.push(last));
        assert(prefix.push(last) =~= ds);
    }
}

/// The registry. Entries are kept in registration order; a replacement
/// re-registers at the end.
pub struct TaskRegistry {
    pub jobs: Vec<ScheduledJob>,
    pub next_handle: u64,
}

impl View for TaskRegistry {
    type V = Seq<ScheduledJobView>;

    open spec fn view(&self) -> Seq<ScheduledJobView> {
        self.jobs@.map_values(|j: ScheduledJob| j@)
    }
}

impl TaskRegistry {
    /// At most one entry per task type, and every entry's compiled
    /// expression is exactly what its stored cron text parses to.
    pub open spec fn wf(self) -> bool {
        &&& forall|i: int, j: int|
            0 <= i < j < self@.len() ==> self@[i].task.task_type != self@[j].task.task_type
        &&& forall|i: int|
            0 <= i < self@.len() ==> spec_parse(#[trigger] self@[i].task.cron) == Ok::<
                CronExpression,
                crate::cron::ParseError,
            >(self@[i].compiled)
        &&& forall|i: int| 0 <= i < self@.len() ==> (#[trigger] self@[i].compiled).wf()
    }

    /// A new, empty registry.
    pub fn new() -> (r: TaskRegistry)
        ensures
            r.wf(),
            r@ =~= Seq::<ScheduledJobView>::empty(),
            r.next_handle == 0,
    {
        let r = TaskRegistry { jobs: Vec::new(), next_handle: 0 };
        proof {
            assert(r@ =~= Seq::<ScheduledJobView>::empty());
        }
        r
    }

    /// The index of the entry for `t`, if one is registered.
    fn find_index(&self, t: PeriodicTaskType) -> (r: Option<usize>)
        ensures
            r matches Some(i) ==> 0 <= i < self@.len() && self@[i as int].task.task_type == t,
            r is None ==> !contains_type(self@, t),
    {
        let n = self.jobs.len();
        let mut i: usize = 0;
        while i < n
            invariant
                i <= n,
                n == self@.len(),
                forall|j: int| 0 <= j < i ==> self@[j].task.task_type != t,
            decreases n - i,
        {
            if self.jobs[i].task.task_type == t {
                return Some(i);
            }
            i += 1;
        }
        None
    }

    /// Removes the job for `task_type`. Returns whether one was there;
    /// absence is a normal outcome and leaves the registry unchanged.
    pub fn remove(&mut self, task_type: PeriodicTaskType) -> (r: bool)
        requires
            old(self).wf(),
        ensures
            final(self).wf(),
            final(self).next_handle == old(self).next_handle,
            r == contains_type(old(self)@, task_type),
            final(self)@ == remove_type(old(self)@, task_type),
            !r ==> final(self)@ == old(self)@,
            !contains_type(final(self)@, task_type),
    {
        match self.find_index(task_type) {
            None => {
                proof {
                    assert(self@ == remove_type(old(self)@, task_type));
                }
                false
            },
            Some(i) => {
                self.jobs.remove(i);
                proof {
                    let prev = old(self)@;
                    assert(contains_type(prev, task_type));
                    let k = index_of_type(prev, task_type);
                    assert(0 <= k < prev.len() && prev[k].task.task_type == task_type);
                    assert(k == i);
                    assert(self@ =~= prev.remove(i as int));
                    assert forall|j: int| 0 <= j < self@.len() implies self@[j].task.task_type
                        != task_type by {
                        if j < i {
                            assert(self@[j] == prev[j]);
                        } else {
                            assert(self@[j] == prev[j + 1]);
                        }
                    }
                }
                true
            },
        }
    }

    /// Adds or replaces the job for `task.task_type`. Fails exactly when
    /// the cron expression does not parse, and then changes nothing;
    /// otherwise the old entry (if any) is removed and the new job is
    /// registered at the end, under a fresh handle. Afterwards exactly one
    /// entry exists for that type.
    pub fn upsert(&mut self, task: PeriodicTask) -> (r: Result<(), RejectedReason>)
        requires
            old(self).wf(),
        ensures
            final(self).wf(),
            match r {
                Ok(()) => spec_parse(task@.cron) matches Ok(c) && final(self)@ == remove_type(
                    old(self)@,
                    task@.task_type,
                ).push(
                    ScheduledJobView {
                        job_handle: old(self).next_handle,
                        task: task@,
                        compiled: c,
                    },
                ),
                Err(RejectedReason::InvalidCronExpression) => spec_parse(task@.cron) is Err
                    && final(self)@ == old(self)@ && final(self).next_handle == old(
                    self
                ).next_handle,
            },
            r is Ok ==> contains_type(final(self)@, task@.task_type) && (forall|i: int, j: int|
                0 <= i < final(self)@.len() && 0 <= j < final(self)@.len() && final(
                    self
                )@[i].task.task_type == task@.task_type && final(self)@[j].task.task_type
                    == task@.task_type ==> i == j),
    {
        let compiled = match parse(task.cron.as_str()) {
            Err(_) => {
                return Err(RejectedReason::InvalidCronExpression);
            },
            Ok(c) => c,
        };
        let ghost tview = task@;
        self.remove(task.task_type);
        let handle = self.next_handle;
        self.next_handle = self.next_handle.wrapping_add(1);
        let ghost mid = self@;
        self.jobs.push(ScheduledJob { job_handle: handle, task, compiled });
        proof {
            assert(self@ =~= mid.push(
                ScheduledJobView { job_handle: handle, task: tview, compiled },
            ));
            let new = self@;
            assert(new[new.len() - 1].task.task_type == tview.task_type);
            assert forall|i: int, j: int| 0 <= i < j < new.len() implies new[i].task.task_type
                != new[j].task.task_type by {
                if j < new.len() - 1 {
                    assert(new[i] == mid[i] && new[j] == mid[j]);
                } else if i < new.len() - 1 {
                    assert(new[i] == mid[i]);
                    assert(mid[i].task.task_type != tview.task_type);
                }
            }
        }
        Ok(())
    }

    /// Drops every current entry, then upserts each default in sequence
    /// order. A malformed default is skipped rather than aborting the
    /// reset.
    pub fn reset(&mut self, defaults: &Vec<PeriodicTask>)
        requires
            old(self).wf(),
        ensures
            final(self).wf(),
            tasks_of(final(self)@) == spec_reset_tasks(
                defaults@.map_values(|d: PeriodicTask| d@),
            ),
    {
        let ghost ds = defaults@.map_values(|d: PeriodicTask| d@);
        self.jobs.clear();
        proof {
            assert(self@ =~= Seq::<ScheduledJobView>::empty());
            assert(ds.subrange(0, 0) =~= Seq::<PeriodicTaskView>::empty());
            assert(tasks_of(self@) =~= spec_reset_tasks(ds.subrange(0, 0)));
        }
        let n = defaults.len();
        let mut i: usize = 0;
        while i < n
            invariant
                i <= n,
                n == defaults@.len(),
                ds == defaults@.map_values(|d: PeriodicTask| d@),
                self.wf(),
                tasks_of(self@) == spec_reset_tasks(ds.subrange(0, i as int)),
            decreases n - i,
        {
            let d = defaults[i].duplicate();
            let ghost dv = d@;
            let ghost pre = self@;
            let r = self.upsert(d);
            proof {
                assert(ds[i as int] == dv);
                assert(ds.subrange(0, i + 1).drop_last() =~= ds.subrange(0, i as int));
                assert(ds.subrange(0, i + 1).last() == dv);
                assert(spec_reset_tasks(ds.subrange(0, i + 1)) == upsert_tasks(
                    tasks_of(pre),
                    dv,
                ));
                match r {
                    Ok(()) => {
                        assert(contains_type(pre, dv.task_type) == contains_task(
                            tasks_of(pre),
                            dv.task_type,
                        )) by {
                            if contains_type(pre, dv.task_type) {
                                let k = index_of_type(pre, dv.task_type);
                                assert(tasks_of(pre)[k].task_type == dv.task_type);
                            }
                            if contains_task(tasks_of(pre), dv.task_type) {
                                let k = index_of_task(tasks_of(pre), dv.task_type);
                                assert(pre[k].task.task_type == dv.task_type);
                            }
                        }
                        if contains_type(pre, dv.task_type) {
                            let k1 = index_of_type(pre, dv.task_type);
                            let k2 = index_of_task(tasks_of(pre), dv.task_type);
                            assert(pre[k1].task.task_type == dv.task_type);
                            assert(tasks_of(pre)[k2].task_type == dv.task_type);
                            assert(pre[k2].task.task_type == dv.task_type);
                            assert(k1 == k2);
                            assert(tasks_of(self@) =~= upsert_tasks(tasks_of(pre), dv));
                        } else {
                            assert(tasks_of(self@) =~= upsert_tasks(tasks_of(pre), dv));
                        }
                    },
                    Err(_) => {
                        assert(tasks_of(self@) == upsert_tasks(tasks_of(pre), dv));
                    },
                }
            }
            i += 1;
        }
        proof {
            assert(ds.subrange(0, n as int) =~= ds);
        }
    }

    /// Every non-disabled job whose schedule matches the reference time,
    /// in registration order. Disabled jobs are never returned, even when
    /// their schedule matches.
    pub fn due_jobs(&self, t: &TimeFields) -> (r: Vec<PeriodicTask>)
        requires
            self.wf(),
        ensures
            r@.map_values(|p: PeriodicTask| p@) == due_tasks(self@, *t),
            forall|i: int| 0 <= i < r@.len() ==> !(#[trigger] r@[i]).disabled,
    {
        let n = self.jobs.len();
        let mut out: Vec<PeriodicTask> = Vec::new();
        proof {
            assert(self@.subrange(0, 0) =~= Seq::<ScheduledJobView>::empty());
            reveal(Seq::filter);
            assert(out@.map_values(|p: PeriodicTask| p@) =~= due_tasks(self@.subrange(0, 0), *t));
        }
        let mut i: usize = 0;
        while i < n
            invariant
                i <= n,
                n == self@.len(),
                self.wf(),
                out@.map_values(|p: PeriodicTask| p@) == due_tasks(self@.subrange(0, i as int), *t),
                forall|k: int| 0 <= k < out@.len() ==> !(#[trigger] out@[k]).disabled,
            decreases n - i,
        {
            proof {
                reveal(Seq::filter);
                let pre = self@.subrange(0, i as int);
                let cur = self@.subrange(0, i + 1);
                assert(cur.drop_last() =~= pre);
                assert(cur.last() == self@[i as int]);
                assert(self@[i as int].compiled.wf());
                assert(self@[i as int] == self.jobs@[i as int]@);
            }
            let job = &self.jobs[i];
            if !job.task.disabled && job.compiled.is_due(t) {
                let ghost prev_out = out@;
                out.push(job.task.duplicate());
                proof {
                    assert(out@.map_values(|p: PeriodicTask| p@) =~= prev_out.map_values(
                        |p: PeriodicTask| p@,
                    ).push(job.task@));
                    assert(due_tasks(self@.subrange(0, i + 1), *t) =~= due_tasks(
                        self@.subrange(0, i as int),
                        *t,
                    ).push(self@[i as int].task));
                }
            } else {
                proof {
                    assert(due_tasks(self@.subrange(0, i + 1), *t) =~= due_tasks(
                        self@.subrange(0, i as int),
                        *t,
                    ));
                }
            }
            i += 1;
        }
        proof {
            assert(self@.subrange(0, n as int) =~= self@);
        }
        out
    }

    /// A snapshot of every registered job, in registration order: the
    /// handle and the task specification of each, disabled ones included.
    pub fn snapshot(&self) -> (r: Vec<(u64, PeriodicTask)>)
        ensures
            r@.len() == self@.len(),
            forall|i: int|
                0 <= i < r@.len() ==> (#[trigger] r@[i]).0 == self@[i].job_handle && r@[i].1@
                    == self@[i].task,
    {
        let n = self.jobs.len();
        let mut out: Vec<(u64, PeriodicTask)> = Vec::new();
        let mut i: usize = 0;
        while i < n
            invariant
                i <= n,
                n == self@.len(),
                out@.len() == i,
                forall|k: int|
                    0 <= k < i ==> (#[trigger] out@[k]).0 == self@[k].job_handle && out@[k].1@
                        == self@[k].task,
            decreases n - i,
        {
            let job = &self.jobs[i];
            out.push((job.job_handle, job.task.duplicate()));
            i += 1;
        }
        out
    }
}

} // verus!
