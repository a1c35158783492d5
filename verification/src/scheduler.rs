//! The scheduler loop's state and per-tick logic: evaluate due jobs against
//! the registry, push a dispatch message per due job onto the bounded
//! dispatch channel (best effort: a full channel drops the message and
//! counts the drop), and drain at most one control command per tick from
//! the inbound queue.
//!
//! The loop itself — the fixed-interval sleep and the thread it runs on —
//! lives outside the library; it calls `tick` once per interval.

use crate::config::Config;
use crate::cron::TimeFields;
use crate::definitions::{
    duplicate_tasks, spec_describe, task_views, PeriodicTask, PeriodicTaskView,
    SchedulerChannelMessage, WorkerChannelMessage,
};
use crate::registry::{
    contains_type, due_tasks, remove_type, spec_reset_tasks, ScheduledJobView, TaskRegistry,
};
use vstd::prelude::*;

verus! {

#[verifier::external_type_specification]
#[verifier::external_body]
#[verifier::reject_recursive_types(T)]
pub struct ExSender<T>(crossbeam_channel::Sender<T>);

#[verifier::external_type_specification]
#[verifier::external_body]
#[verifier::reject_recursive_types(T)]
pub struct ExReceiver<T>(crossbeam_channel::Receiver<T>);

/// Relies on crossbeam_channel::Sender::try_send: non-blocking; the
/// message is delivered exactly when the call returns Ok, and a full or
/// disconnected channel returns Err. Whether it succeeds depends on the
/// channel's concurrent consumers, so nothing more is promised.
#[verifier::external_body]
fn try_send_dispatch(
    sender: &crossbeam_channel::Sender<WorkerChannelMessage>,
    msg: WorkerChannelMessage,
) -> bool {
    sender.try_send(msg).is_ok()
}

/// Relies on crossbeam_channel::Receiver::try_recv: non-blocking; returns
/// a message exactly when one was waiting. Which message arrives depends
/// on the channel's concurrent producers, so nothing more is promised.
#[verifier::external_body]
fn try_recv_command(
    receiver: &crossbeam_channel::Receiver<SchedulerChannelMessage>,
) -> Option<SchedulerChannelMessage> {
    receiver.try_recv().ok()
}

/// One notification produced for a listing request: routed to the reply
/// target, carrying the job handle and the task's rendering.
pub struct Notification {
    pub target: i64,
    pub job_handle: u64,
    pub text: String,
}

/// `a + b`, saturating at the largest u64.
pub open spec fn sat_add_u64(a: u64, b: u64) -> u64 {
    if a + b > u64::MAX {
        u64::MAX
    } else {
        (a + b) as u64
    }
}

/// The observable effect of one control command: `pre`/`post` are the
/// registry views around it, `pre_next_handle` the handle the registry
/// would assign next, `defaults` the reset configuration, and `notes` the
/// notifications produced. An upsert replaces wholesale or is rejected
/// wholesale; a listing leaves the registry alone and notifies the reply
/// target once per registered job; a removal takes out exactly the named
/// type; a reset re-seeds from the defaults.
pub open spec fn spec_command_effect(
    pre: Seq<ScheduledJobView>,
    pre_next_handle: u64,
    defaults: Seq<PeriodicTaskView>,
    post: Seq<ScheduledJobView>,
    cmd: SchedulerChannelMessage,
    notes: Seq<Notification>,
) -> bool {
    match cmd {
        SchedulerChannelMessage::UpdatePeriodicTaskScheduleCommand(task) => notes.len() == 0 && (
        crate::cron::spec_parse(task@.cron) matches Ok(c) ==> post == remove_type(
            pre,
            task@.task_type,
        ).push(ScheduledJobView { job_handle: pre_next_handle, task: task@, compiled: c })) && (
        crate::cron::spec_parse(task@.cron) is Err ==> post == pre),
        SchedulerChannelMessage::ListPeriodicTasks(target) => post == pre && notes.len()
            == pre.len() && (forall|i: int|
            0 <= i < notes.len() ==> (#[trigger] notes[i]).target == target
                && notes[i].job_handle == pre[i].job_handle && notes[i].text@ == spec_describe(
                pre[i].task,
            )),
        SchedulerChannelMessage::RemovePeriodicTask(t) => notes.len() == 0 && post == remove_type(
            pre,
            t,
        ) && !contains_type(post, t),
        SchedulerChannelMessage::ResetTasks => notes.len() == 0 && crate::registry::tasks_of(post)
            == spec_reset_tasks(defaults),
    }
}

/// The scheduler: the registry it owns exclusively, the default
/// configuration a reset re-applies, the two channel endpoints, and
/// counters that make dispatches and drops observable.
pub struct Scheduler {
    pub registry: TaskRegistry,
    pub defaults: Vec<PeriodicTask>,
    pub scheduler_tick_ms: u64,
    pub dispatched_count: u64,
    pub dropped_count: u64,
    pub receiver: crossbeam_channel::Receiver<SchedulerChannelMessage>,
    pub sender: crossbeam_channel::Sender<WorkerChannelMessage>,
}

impl Scheduler {
    /// The registry invariant holds.
    pub open spec fn wf(self) -> bool {
        self.registry.wf()
    }

    /// A scheduler whose registry is seeded from the configuration's
    /// default tasks, with both counters at zero.
    pub fn new(
        config: &Config,
        receiver: crossbeam_channel::Receiver<SchedulerChannelMessage>,
        sender: crossbeam_channel::Sender<WorkerChannelMessage>,
    ) -> (r: Scheduler)
        ensures
            r.wf(),
            crate::registry::tasks_of(r.registry@) == spec_reset_tasks(
                config.periodic_tasks@.map_values(|d: PeriodicTask| d@),
            ),
            r.defaults@.len() == config.periodic_tasks@.len(),
            forall|i: int|
                0 <= i < config.periodic_tasks@.len() ==> (#[trigger] r.defaults@[i])@
                    == config.periodic_tasks@[i]@,
            r.scheduler_tick_ms == config.scheduler_tick_ms,
            r.dispatched_count == 0,
            r.dropped_count == 0,
    {
        let mut registry = TaskRegistry::new();
        registry.reset(&config.periodic_tasks);
        Scheduler {
            registry,
            defaults: duplicate_tasks(&config.periodic_tasks),
            scheduler_tick_ms: config.scheduler_tick_ms,
            dispatched_count: 0,
            dropped_count: 0,
            receiver,
            sender,
        }
    }

    /// Applies one control command to the registry, per the control
    /// protocol: upsert (rejected wholesale on a bad expression), listing
    /// (one notification per registered job, routed to the reply target),
    /// removal (absence silently accepted), and reset to the defaults.
    pub fn handle_command(&mut self, cmd: SchedulerChannelMessage) -> (r: Vec<Notification>)
        requires
            old(self).wf(),
        ensures
            final(self).wf(),
            final(self).scheduler_tick_ms == old(self).scheduler_tick_ms,
            final(self).defaults@ == old(self).defaults@,
            final(self).dispatched_count == old(self).dispatched_count,
            final(self).dropped_count == old(self).dropped_count,
            spec_command_effect(
                old(self).registry@,
                old(self).registry.next_handle,
                task_views(old(self).defaults@),
                final(self).registry@,
                cmd,
                r@,
            ),
    {
        match cmd {
            SchedulerChannelMessage::UpdatePeriodicTaskScheduleCommand(task) => {
                let _accepted = self.registry.upsert(task);
                Vec::new()
            },
            SchedulerChannelMessage::ListPeriodicTasks(target) => {
                let entries = self.registry.snapshot();
                let n = entries.len();
                let mut out: Vec<Notification> = Vec::new();
                let mut i: usize = 0;
                while i < n
                    invariant
                        i <= n,
                        n == entries@.len(),
                        entries@.len() == self.registry@.len(),
                        forall|k: int|
                            0 <= k < entries@.len() ==> (#[trigger] entries@[k]).0
                                == self.registry@[k].job_handle && entries@[k].1@
                                == self.registry@[k].task,
                        out@.len() == i,
                        forall|k: int|
                            0 <= k < i ==> (#[trigger] out@[k]).target == target
                                && out@[k].job_handle == self.registry@[k].job_handle
                                && out@[k].text@ == spec_describe(self.registry@[k].task),
                    decreases n - i,
                {
                    let entry = &entries[i];
                    out.push(
                        Notification {
                            target,
                            job_handle: entry.0,
                            text: entry.1.describe(),
                        },
                    );
                    i += 1;
                }
                out
            },
            SchedulerChannelMessage::RemovePeriodicTask(t) => {
                let _found = self.registry.remove(t);
                Vec::new()
            },
            SchedulerChannelMessage::ResetTasks => {
                let defaults = duplicate_tasks(&self.defaults);
                proof {
                    assert(defaults@.map_values(|d: PeriodicTask| d@) =~= self.defaults@.map_values(
                        |d: PeriodicTask| d@,
                    ));
                }
                self.registry.reset(&defaults);
                Vec::new()
            },
        }
    }

    /// Evaluates the registry's due jobs at the reference time and pushes
    /// one dispatch message per due job, best effort: every due job is
    /// either dispatched or counted as dropped, and the tick never blocks.
    /// Returns how many were dispatched and how many dropped.
    pub fn dispatch_due(&mut self, now: &TimeFields) -> (r: (usize, usize))
        requires
            old(self).wf(),
        ensures
            final(self).wf(),
            final(self).registry@ == old(self).registry@,
            final(self).registry.next_handle == old(self).registry.next_handle,
            final(self).defaults@ == old(self).defaults@,
            final(self).scheduler_tick_ms == old(self).scheduler_tick_ms,
            r.0 + r.1 == due_tasks(old(self).registry@, *now).len(),
            final(self).dispatched_count == sat_add_u64(old(self).dispatched_count, r.0 as u64),
            final(self).dropped_count == sat_add_u64(old(self).dropped_count, r.1 as u64),
    {
        let due = self.registry.due_jobs(now);
        let n = due.len();
        proof {
            assert(due@.map_values(|p: PeriodicTask| p@).len() == due@.len());
        }
        let mut sent: usize = 0;
        let mut dropped: usize = 0;
        let mut i: usize = 0;
        while i < n
            invariant
                i <= n,
                n == due@.len(),
                sent + dropped == i,
            decreases n - i,
        {
            let msg = WorkerChannelMessage::PeriodicTask(due[i].duplicate());
            if try_send_dispatch(&self.sender, msg) {
                sent += 1;
            } else {
                dropped += 1;
            }
            i += 1;
        }
        self.dispatched_count = saturating_add_u64(self.dispatched_count, sent as u64);
        self.dropped_count = saturating_add_u64(self.dropped_count, dropped as u64);
        (sent, dropped)
    }

    /// One tick of the scheduler loop: dispatch the jobs due at the
    /// reference time, then drain and apply at most one control command.
    /// Returns the notifications a listing command produced, for the
    /// caller to forward to the messaging component. Every due job is
    /// accounted for in the counters, and the registry either stays as it
    /// was (no command waiting) or changes by exactly one command's
    /// effect.
    pub fn tick(&mut self, now: &TimeFields) -> (r: Vec<Notification>)
        requires
            old(self).wf(),
        ensures
            final(self).wf(),
            final(self).scheduler_tick_ms == old(self).scheduler_tick_ms,
            final(self).defaults@ == old(self).defaults@,
            exists|sent: int, dropped: int|
                0 <= sent && 0 <= dropped && sent + dropped == due_tasks(
                    old(self).registry@,
                    *now,
                ).len() && final(self).dispatched_count == #[trigger] sat_add_u64(
                    old(self).dispatched_count,
                    sent as u64,
                ) && final(self).dropped_count == #[trigger] sat_add_u64(
                    old(self).dropped_count,
                    dropped as u64,
                ),
            (final(self).registry@ == old(self).registry@ && r@.len() == 0) || (exists|
                cmd: SchedulerChannelMessage,
            |
                #[trigger] spec_command_effect(
                    old(self).registry@,
                    old(self).registry.next_handle,
                    task_views(old(self).defaults@),
                    final(self).registry@,
                    cmd,
                    r@,
                )),
    {
        let counts = self.dispatch_due(now);
        let ghost sent_g = counts.0 as int;
        let ghost dropped_g = counts.1 as int;
        match try_recv_command(&self.receiver) {
            Some(cmd) => {
                let ghost received = cmd;
                let r = self.handle_command(cmd);
                proof {
                    assert(spec_command_effect(
                        old(self).registry@,
                        old(self).registry.next_handle,
                        task_views(old(self).defaults@),
                        self.registry@,
                        received,
                        r@,
                    ));
                    assert(sent_g + dropped_g == due_tasks(old(self).registry@, *now).len()
                        && self.dispatched_count == sat_add_u64(
                        old(self).dispatched_count,
                        sent_g as u64,
                    ) && self.dropped_count == sat_add_u64(
                        old(self).dropped_count,
                        dropped_g as u64,
                    ));
                }
                r
            },
            None => {
                proof {
                    assert(sent_g + dropped_g == due_tasks(old(self).registry@, *now).len()
                        && self.dispatched_count == sat_add_u64(
                        old(self).dispatched_count,
                        sent_g as u64,
                    ) && self.dropped_count == sat_add_u64(
                        old(self).dropped_count,
                        dropped_g as u64,
                    ));
                }
                Vec::new()
            },
        }
    }
}

/// `a + b`, saturating at the largest u64.
fn saturating_add_u64(a: u64, b: u64) -> (r: u64)
    ensures
        r == sat_add_u64(a, b),
{
    if a <= u64::MAX - b {
        a + b
    } else {
        u64::MAX
    }
}

} // verus!
