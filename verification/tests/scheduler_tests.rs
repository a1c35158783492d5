use crossbeam_channel::bounded;
use plant_scheduler::config::Config;
use plant_scheduler::cron::TimeFields;
use plant_scheduler::definitions::{
    PeriodicTask, PeriodicTaskType, SchedulerChannelMessage, WorkerChannelMessage,
};
use plant_scheduler::scheduler::Scheduler;
use plant_scheduler::worker::Worker;

fn at_second(second: u32) -> TimeFields {
    TimeFields { second, minute: 0, hour: 0, day_of_month: 1, month: 1, day_of_week: 0 }
}

fn make_scheduler(
    control_capacity: usize,
    dispatch_capacity: usize,
) -> (
    Scheduler,
    crossbeam_channel::Sender<SchedulerChannelMessage>,
    crossbeam_channel::Receiver<WorkerChannelMessage>,
) {
    let config = Config::new();
    let (control_tx, control_rx) = bounded(control_capacity);
    let (dispatch_tx, dispatch_rx) = bounded(dispatch_capacity);
    (Scheduler::new(&config, control_rx, dispatch_tx), control_tx, dispatch_rx)
}

#[test]
fn test_new_seeds_registry_from_defaults() {
    let (scheduler, _control, _dispatch) = make_scheduler(8, 8);
    let snapshot = scheduler.registry.snapshot();
    assert_eq!(snapshot.len(), 2);
    assert_eq!(snapshot[0].1.task_type, PeriodicTaskType::WaterPlants);
    assert!(!snapshot[0].1.disabled);
    assert_eq!(snapshot[1].1.task_type, PeriodicTaskType::ReadMoistureSensorsData);
    assert!(snapshot[1].1.disabled);
}

#[test]
fn test_tick_dispatches_due_job() {
    let (mut scheduler, _control, dispatch_rx) = make_scheduler(8, 8);
    scheduler.tick(&at_second(11));
    let msg = dispatch_rx.try_recv().expect("a due job should have been dispatched");
    match msg {
        WorkerChannelMessage::PeriodicTask(task) => {
            assert_eq!(task.task_type, PeriodicTaskType::WaterPlants);
        },
        other => panic!("unexpected dispatch {:?}", other),
    }
    assert!(dispatch_rx.try_recv().is_err());
    assert_eq!(scheduler.dispatched_count, 1);
    assert_eq!(scheduler.dropped_count, 0);
}

#[test]
fn test_tick_dispatches_nothing_when_not_due() {
    let (mut scheduler, _control, dispatch_rx) = make_scheduler(8, 8);
    scheduler.tick(&at_second(5));
    assert!(dispatch_rx.try_recv().is_err());
    assert_eq!(scheduler.dispatched_count, 0);
}

#[test]
fn test_upsert_bad_expression_changes_nothing_and_dispatches_nothing() {
    let (mut scheduler, control_tx, dispatch_rx) = make_scheduler(8, 8);
    let before: Vec<_> = scheduler
        .registry
        .snapshot()
        .into_iter()
        .map(|(h, t)| (h, t.cron.clone(), t.disabled))
        .collect();
    control_tx
        .send(SchedulerChannelMessage::UpdatePeriodicTaskScheduleCommand(PeriodicTask {
            task_type: PeriodicTaskType::WaterPlants,
            cron: "bad expr".to_string(),
            disabled: false,
        }))
        .unwrap();
    let notifications = scheduler.tick(&at_second(5));
    assert!(notifications.is_empty());
    let after: Vec<_> = scheduler
        .registry
        .snapshot()
        .into_iter()
        .map(|(h, t)| (h, t.cron.clone(), t.disabled))
        .collect();
    assert_eq!(before, after);
    assert!(dispatch_rx.try_recv().is_err());
}

#[test]
fn test_list_tasks_notifies_target_per_registered_job() {
    let (mut scheduler, control_tx, _dispatch_rx) = make_scheduler(8, 8);
    control_tx.send(SchedulerChannelMessage::ListPeriodicTasks(42)).unwrap();
    let notifications = scheduler.tick(&at_second(5));
    assert_eq!(notifications.len(), 2);
    for n in &notifications {
        assert_eq!(n.target, 42);
    }
    assert_eq!(
        notifications[0].text,
        "Task: 'WaterPlants' \nSchedule: '1/10 * * * * *' \nDisabled: false"
    );
    assert_eq!(
        notifications[1].text,
        "Task: 'ReadMoistureSensorsData' \nSchedule: '* * * * * *' \nDisabled: true"
    );
}

#[test]
fn test_remove_and_reset_commands() {
    let (mut scheduler, control_tx, _dispatch_rx) = make_scheduler(8, 8);
    control_tx
        .send(SchedulerChannelMessage::RemovePeriodicTask(PeriodicTaskType::WaterPlants))
        .unwrap();
    scheduler.tick(&at_second(5));
    assert_eq!(scheduler.registry.snapshot().len(), 1);
    control_tx.send(SchedulerChannelMessage::ResetTasks).unwrap();
    scheduler.tick(&at_second(5));
    let snapshot = scheduler.registry.snapshot();
    assert_eq!(snapshot.len(), 2);
    assert_eq!(snapshot[0].1.task_type, PeriodicTaskType::WaterPlants);
}

#[test]
fn test_at_most_one_command_per_tick() {
    let (mut scheduler, control_tx, _dispatch_rx) = make_scheduler(8, 8);
    control_tx
        .send(SchedulerChannelMessage::RemovePeriodicTask(PeriodicTaskType::WaterPlants))
        .unwrap();
    control_tx
        .send(SchedulerChannelMessage::RemovePeriodicTask(
            PeriodicTaskType::ReadMoistureSensorsData,
        ))
        .unwrap();
    scheduler.tick(&at_second(5));
    assert_eq!(scheduler.registry.snapshot().len(), 1);
    scheduler.tick(&at_second(5));
    assert_eq!(scheduler.registry.snapshot().len(), 0);
}

#[test]
fn test_full_dispatch_channel_drops_without_blocking() {
    // A dispatch channel with one free slot, and both jobs due every second.
    let (mut scheduler, _control_tx, dispatch_rx) = make_scheduler(8, 1);
    scheduler.handle_command(SchedulerChannelMessage::UpdatePeriodicTaskScheduleCommand(
        PeriodicTask {
            task_type: PeriodicTaskType::ReadMoistureSensorsData,
            cron: "* * * * * *".to_string(),
            disabled: false,
        },
    ));
    scheduler.handle_command(SchedulerChannelMessage::UpdatePeriodicTaskScheduleCommand(
        PeriodicTask {
            task_type: PeriodicTaskType::WaterPlants,
            cron: "* * * * * *".to_string(),
            disabled: false,
        },
    ));
    assert!(dispatch_rx.try_recv().is_err());
    // Two jobs due in the same tick, capacity for one: one dispatch
    // succeeds, one is dropped, and the tick returns.
    let (sent, dropped) = scheduler.dispatch_due(&at_second(0));
    assert_eq!(sent, 1);
    assert_eq!(dropped, 1);
    assert_eq!(scheduler.dispatched_count, 1);
    assert_eq!(scheduler.dropped_count, 1);
    assert!(dispatch_rx.try_recv().is_ok());
    assert!(dispatch_rx.try_recv().is_err());
}

#[test]
fn test_worker_plan_waters_on_fired_watering_task() {
    let config = Config::new();
    let fired = WorkerChannelMessage::PeriodicTask(PeriodicTask {
        task_type: PeriodicTaskType::WaterPlants,
        cron: "1/10 * * * * *".to_string(),
        disabled: false,
    });
    assert_eq!(Worker::plan(&fired, &config), Some(60));
    let moisture = WorkerChannelMessage::PeriodicTask(PeriodicTask {
        task_type: PeriodicTaskType::ReadMoistureSensorsData,
        cron: "* * * * * *".to_string(),
        disabled: false,
    });
    assert_eq!(Worker::plan(&moisture, &config), None);
    assert_eq!(Worker::plan(&WorkerChannelMessage::WaterPlants(30), &config), None);
}

#[test]
fn test_task_type_canonical_names_round_trip() {
    for t in [PeriodicTaskType::WaterPlants, PeriodicTaskType::ReadMoistureSensorsData] {
        let name = t.canonical_name();
        assert_eq!(PeriodicTaskType::from_canonical_name(&name), Some(t));
    }
    assert_eq!(PeriodicTaskType::from_canonical_name("MowLawn"), None);
}

#[test]
fn test_config_reference_values() {
    let config = Config::new();
    assert_eq!(config.scheduler_tick_ms, 1000);
    assert_eq!(config.water_pump_working_cycle_seconds, 60);
    assert_eq!(config.messages_in_flight_limit, 8);
    assert_eq!(config.periodic_tasks.len(), 2);
}
