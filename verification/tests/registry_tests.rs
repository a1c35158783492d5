use plant_scheduler::config::Config;
use plant_scheduler::cron::TimeFields;
use plant_scheduler::definitions::{PeriodicTask, PeriodicTaskType};
use plant_scheduler::registry::{RejectedReason, TaskRegistry};

fn at_second(second: u32) -> TimeFields {
    TimeFields { second, minute: 0, hour: 0, day_of_month: 1, month: 1, day_of_week: 0 }
}

fn water_task(cron: &str, disabled: bool) -> PeriodicTask {
    PeriodicTask { task_type: PeriodicTaskType::WaterPlants, cron: cron.to_string(), disabled }
}

fn moisture_task(cron: &str, disabled: bool) -> PeriodicTask {
    PeriodicTask {
        task_type: PeriodicTaskType::ReadMoistureSensorsData,
        cron: cron.to_string(),
        disabled,
    }
}

fn snapshot_specs(registry: &TaskRegistry) -> Vec<(String, String, bool)> {
    registry
        .snapshot()
        .into_iter()
        .map(|(_, t)| (t.task_type.canonical_name(), t.cron.clone(), t.disabled))
        .collect()
}

#[test]
fn test_upsert_replaces_never_duplicates() {
    let mut registry = TaskRegistry::new();
    assert!(registry.upsert(water_task("1/10 * * * * *", false)).is_ok());
    assert!(registry.upsert(water_task("* * * * * *", false)).is_ok());
    assert!(registry.upsert(water_task("* * * * * *", false)).is_ok());
    let snapshot = registry.snapshot();
    assert_eq!(snapshot.len(), 1);
    assert_eq!(snapshot[0].1.cron, "* * * * * *");
}

#[test]
fn test_upsert_invalid_expression_leaves_registry_unchanged() {
    let mut registry = TaskRegistry::new();
    assert!(registry.upsert(water_task("1/10 * * * * *", false)).is_ok());
    let before = snapshot_specs(&registry);
    let outcome = registry.upsert(water_task("bad expr", false));
    assert_eq!(outcome, Err(RejectedReason::InvalidCronExpression));
    assert_eq!(snapshot_specs(&registry), before);
}

#[test]
fn test_remove_absent_reports_not_found_and_changes_nothing() {
    let mut registry = TaskRegistry::new();
    assert!(registry.upsert(water_task("1/10 * * * * *", false)).is_ok());
    let before = snapshot_specs(&registry);
    let found = registry.remove(PeriodicTaskType::ReadMoistureSensorsData);
    assert!(!found);
    assert_eq!(snapshot_specs(&registry), before);
}

#[test]
fn test_remove_present_removes_exactly_that_entry() {
    let mut registry = TaskRegistry::new();
    assert!(registry.upsert(water_task("1/10 * * * * *", false)).is_ok());
    assert!(registry.upsert(moisture_task("* * * * * *", true)).is_ok());
    let found = registry.remove(PeriodicTaskType::WaterPlants);
    assert!(found);
    let specs = snapshot_specs(&registry);
    assert_eq!(specs.len(), 1);
    assert_eq!(specs[0].0, "ReadMoistureSensorsData");
}

#[test]
fn test_reset_restores_default_configuration_in_order() {
    let config = Config::new();
    let mut registry = TaskRegistry::new();
    assert!(registry.upsert(moisture_task("0 0 0 1 1 0", false)).is_ok());
    registry.reset(&config.periodic_tasks);
    let specs = snapshot_specs(&registry);
    assert_eq!(
        specs,
        vec![
            ("WaterPlants".to_string(), "1/10 * * * * *".to_string(), false),
            ("ReadMoistureSensorsData".to_string(), "* * * * * *".to_string(), true),
        ]
    );
}

#[test]
fn test_reset_skips_malformed_default() {
    let defaults = vec![water_task("not a cron", false), moisture_task("* * * * * *", false)];
    let mut registry = TaskRegistry::new();
    registry.reset(&defaults);
    let specs = snapshot_specs(&registry);
    assert_eq!(specs.len(), 1);
    assert_eq!(specs[0].0, "ReadMoistureSensorsData");
}

#[test]
fn test_disabled_job_never_due_but_listed() {
    let mut registry = TaskRegistry::new();
    assert!(registry.upsert(moisture_task("* * * * * *", true)).is_ok());
    for second in 0..60 {
        assert!(registry.due_jobs(&at_second(second)).is_empty());
    }
    assert_eq!(registry.snapshot().len(), 1);
}

#[test]
fn test_water_schedule_due_seconds_scenario() {
    let mut registry = TaskRegistry::new();
    assert!(registry.upsert(water_task("1/10 * * * * *", false)).is_ok());
    for second in [1, 11, 21] {
        let due = registry.due_jobs(&at_second(second));
        assert_eq!(due.len(), 1);
        assert_eq!(due[0].cron, "1/10 * * * * *");
    }
    assert!(registry.due_jobs(&at_second(5)).is_empty());
}
