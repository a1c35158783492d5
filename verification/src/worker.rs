//! The execution component's decision logic: which physical action a
//! dispatch message asks for. The physical side effect itself (driving the
//! water pump pin) is performed outside the library by whoever runs the
//! worker loop.

use crate::config::Config;
use crate::definitions::{PeriodicTaskType, WorkerChannelMessage};
use vstd::prelude::*;

verus! {

pub struct Worker {}

impl Worker {
    /// Decides what a dispatch message asks of the worker: a fired
    /// watering task asks for one watering cycle of the configured
    /// length; every other message asks for nothing.
    pub fn plan(cmd: &WorkerChannelMessage, config: &Config) -> (r: Option<u64>)
        ensures
            r == (if cmd matches WorkerChannelMessage::PeriodicTask(t) && t.task_type
                == PeriodicTaskType::WaterPlants {
                Some(config.water_pump_working_cycle_seconds)
            } else {
                None::<u64>
            }),
    {
        match cmd {
            WorkerChannelMessage::PeriodicTask(task) => {
                match task.task_type {
                    PeriodicTaskType::WaterPlants => Some(config.water_pump_working_cycle_seconds),
                    _ => None,
                }
            },
            _ => None,
        }
    }
}

} // verus!
