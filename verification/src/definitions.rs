//! Core data model: task identities, task specifications, and the messages
//! exchanged with the scheduler and the execution component.

use vstd::prelude::*;

verus! {

/// The closed identity of a kind of periodic task. It has a stable canonical
/// string form, used both as a map key and in user-facing commands.
#[derive(Clone, Copy, Debug, PartialEq, Eq, Structural, Hash)]
pub enum PeriodicTaskType {
    WaterPlants,
    ReadMoistureSensorsData,
}

/// The canonical string form of a task type, as a sequence of characters.
pub open spec fn spec_canonical_name(t: PeriodicTaskType) -> Seq<char> {
    match t {
        PeriodicTaskType::WaterPlants => "WaterPlants"@,
        PeriodicTaskType::ReadMoistureSensorsData => "ReadMoistureSensorsData"@,
    }
}

impl PeriodicTaskType {
    pub fn canonical_name(&self) -> (r: String)
        ensures
            r@ == spec_canonical_name(*self),
    {
        match self {
            PeriodicTaskType::WaterPlants => "WaterPlants".to_owned(),
            PeriodicTaskType::ReadMoistureSensorsData => "ReadMoistureSensorsData".to_owned(),
        }
    }

    /// Parses the canonical string form back into a task type. Returns
    /// `None` exactly on strings that are no task type's canonical name.
    pub fn from_canonical_name(input: &str) -> (r: Option<PeriodicTaskType>)
        ensures
            r == (if input@ == spec_canonical_name(PeriodicTaskType::WaterPlants) {
                Some(PeriodicTaskType::WaterPlants)
            } else if input@ == spec_canonical_name(PeriodicTaskType::ReadMoistureSensorsData) {
                Some(PeriodicTaskType::ReadMoistureSensorsData)
            } else {
                None::<PeriodicTaskType>
            }),
    {
        if str_eq(input, "WaterPlants") {
            Some(PeriodicTaskType::WaterPlants)
        } else if str_eq(input, "ReadMoistureSensorsData") {
            Some(PeriodicTaskType::ReadMoistureSensorsData)
        } else {
            None
        }
    }
}

/// Equality of two string slices, by their character sequences.
pub fn str_eq(a: &str, b: &str) -> (r: bool)
    ensures
        r == (a@ == b@),
{
    let sa: String = a.to_owned();
    let sb: String = b.to_owned();
    sa == sb
}

/// A periodic task specification: immutable once constructed; a new value
/// replaces an old one wholesale on update.
#[derive(Clone, Debug)]
pub struct PeriodicTask {
    pub task_type: PeriodicTaskType,
    pub cron: String,
    pub disabled: bool,
}

/// The mathematical model of a task specification.
pub struct PeriodicTaskView {
    pub task_type: PeriodicTaskType,
    pub cron: Seq<char>,
    pub disabled: bool,
}

impl View for PeriodicTask {
    type V = PeriodicTaskView;

    open spec fn view(&self) -> PeriodicTaskView {
        PeriodicTaskView { task_type: self.task_type, cron: self.cron@, disabled: self.disabled }
    }
}

/// The human-readable rendering of a task specification.
pub open spec fn spec_describe(t: PeriodicTaskView) -> Seq<char> {
    "Task: '"@ + spec_canonical_name(t.task_type) + "' \nSchedule: '"@ + t.cron
        + "' \nDisabled: "@ + (
    if t.disabled {
        "true"@
    } else {
        "false"@
    })
}

impl PeriodicTask {
    /// Copies the specification; the copy models the same value.
    pub fn duplicate(&self) -> (r: PeriodicTask)
        ensures
            r@ == self@,
    {
        PeriodicTask {
            task_type: self.task_type,
            cron: self.cron.clone(),
            disabled: self.disabled,
        }
    }

    /// A human-readable rendering of the task, naming its type, schedule
    /// and enable flag.
    pub fn describe(&self) -> (r: String)
        ensures
            r@ == spec_describe(self@),
    {
        let mut out: String = "Task: '".to_owned();
        out.append(self.task_type.canonical_name().as_str());
        out.append("' \nSchedule: '");
        out.append(self.cron.as_str());
        out.append("' \nDisabled: ");
        if self.disabled {
            out.append("true");
        } else {
            out.append("false");
        }
        out
    }
}

/// The models of a sequence of task specifications, in order.
pub open spec fn task_views(v: Seq<PeriodicTask>) -> Seq<PeriodicTaskView> {
    v.map_values(|d: PeriodicTask| d@)
}

/// Copies a sequence of task specifications; the copies model the same
/// values, in the same order.
pub fn duplicate_tasks(v: &Vec<PeriodicTask>) -> (r: Vec<PeriodicTask>)
    ensures
        r@.len() == v@.len(),
        forall|i: int| 0 <= i < v@.len() ==> (#[trigger] r@[i])@ == v@[i]@,
{
    let n = v.len();
    let mut out: Vec<PeriodicTask> = Vec::new();
    let mut i: usize = 0;
    while i < n
        invariant
            i <= n,
            n == v@.len(),
            out@.len() == i,
            forall|k: int| 0 <= k < i ==> (#[trigger] out@[k])@ == v@[k]@,
        decreases n - i,
    {
        out.push(v[i].duplicate());
        i += 1;
    }
    out
}

/// A control command submitted asynchronously to the scheduler loop.
/// The reply target of a listing is the opaque addressing token under
/// which the messaging component knows the submitter.
#[derive(Clone, Debug)]
pub enum SchedulerChannelMessage {
    UpdatePeriodicTaskScheduleCommand(PeriodicTask),
    ListPeriodicTasks(i64),
    RemovePeriodicTask(PeriodicTaskType),
    ResetTasks,
}

/// A dispatch message handed to the execution component: either a periodic
/// task that fired, or an immediate one-off watering request with a
/// caller-supplied cycle length in seconds.
#[derive(Clone, Debug)]
pub enum WorkerChannelMessage {
    PeriodicTask(PeriodicTask),
    WaterPlants(u64),
}

} // verus!
