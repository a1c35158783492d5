//! The static configuration: tick interval, watering cycle, channel
//! capacity, and the default periodic tasks that seed the registry at
//! startup and on a reset.

use crate::cron::{
    digits_val, first_slash_at, spec_parse, spec_parse_field, spec_tokens, split_acc, CronField,
};
use crate::definitions::{PeriodicTask, PeriodicTaskType, PeriodicTaskView};
use crate::registry::{lemma_reset_restores_defaults, spec_reset_tasks};
use vstd::prelude::*;

verus! {

/// The default watering schedule: every ten seconds, starting at second 1.
pub open spec fn spec_default_water_cron() -> Seq<char> {
    "1/10 * * * * *"@
}

/// The default moisture-reading schedule: every second.
pub open spec fn spec_default_moisture_cron() -> Seq<char> {
    "* * * * * *"@
}

/// Both default cron expressions are accepted by the grammar, so seeding
/// the registry from the reference configuration registers both tasks.
#[verifier::rlimit(50)]
pub proof fn lemma_default_crons_parse()
    ensures
        spec_parse(spec_default_water_cron()) is Ok,
        spec_parse(spec_default_moisture_cron()) is Ok,
{
    let star = seq!['*'];
    assert(spec_parse_field(star, 0, 59) == Some(CronField::Any));
    assert(spec_parse_field(star, 0, 23) == Some(CronField::Any));
    assert(spec_parse_field(star, 1, 31) == Some(CronField::Any));
    assert(spec_parse_field(star, 1, 12) == Some(CronField::Any));
    assert(spec_parse_field(star, 0, 6) == Some(CronField::Any));

    let w = spec_default_water_cron();
    reveal_strlit("1/10 * * * * *");
    assert(w.len() == 14);
    reveal_with_fuel(split_acc, 16);
    let wt = spec_tokens(w);
    let step_tok = seq!['1', '/', '1', '0'];
    assert(wt =~~= seq![step_tok, star, star, star, star, star]);
    assert(first_slash_at(step_tok, 1));
    let kk = choose|k: int| first_slash_at(step_tok, k);
    assert(kk == 1) by {
        if kk != 1 {
            assert(step_tok[1] == '/');
            assert(false);
        }
    }
    let a = step_tok.subrange(0, 1);
    let b = step_tok.subrange(2, 4);
    assert(a =~= seq!['1']);
    assert(b =~= seq!['1', '0']);
    reveal_with_fuel(digits_val, 4);
    assert(digits_val(a) == 1) by {
        assert(a.drop_last() =~= Seq::<char>::empty());
    }
    assert(digits_val(b) == 10) by {
        assert(b.drop_last() =~= seq!['1']);
        assert(b.drop_last().drop_last() =~= Seq::<char>::empty());
    }
    assert(!(step_tok.len() == 1 && step_tok[0] == '*'));
    assert(!crate::cron::all_digits(step_tok)) by {
        assert(!crate::cron::spec_is_digit(step_tok[1]));
    }
    assert(spec_parse_field(step_tok, 0, 59) == Some(CronField::Step { start: 1, step: 10 }));
    assert(spec_parse(w) is Ok);

    let m = spec_default_moisture_cron();
    reveal_strlit("* * * * * *");
    assert(m.len() == 11);
    let mt = spec_tokens(m);
    assert(mt =~~= seq![star, star, star, star, star, star]);
    assert(spec_parse(m) is Ok);
}

/// A reset over the reference default configuration restores exactly it,
/// in order and content, whatever the prior state: its task types are
/// distinct and both expressions parse.
pub proof fn lemma_reset_restores_reference_defaults(ds: Seq<PeriodicTaskView>)
    requires
        ds.len() == 2,
        ds[0] == (PeriodicTaskView {
            task_type: PeriodicTaskType::WaterPlants,
            cron: spec_default_water_cron(),
            disabled: false,
        }),
        ds[1] == (PeriodicTaskView {
            task_type: PeriodicTaskType::ReadMoistureSensorsData,
            cron: spec_default_moisture_cron(),
            disabled: true,
        }),
    ensures
        spec_reset_tasks(ds) == ds,
{
    lemma_default_crons_parse();
    assert forall|i: int| 0 <= i < ds.len() implies spec_parse(#[trigger] ds[i].cron) is Ok by {
        if i == 0 {
            assert(ds[0].cron == spec_default_water_cron());
        } else {
            assert(ds[1].cron == spec_default_moisture_cron());
        }
    }
    lemma_reset_restores_defaults(ds);
}

/// The configuration value, constructed once at process start and passed
/// into the scheduler and the execution component.
#[derive(Debug)]
pub struct Config {
    pub scheduler_tick_ms: u64,
    pub water_pump_working_cycle_seconds: u64,
    pub messages_in_flight_limit: usize,
    pub periodic_tasks: Vec<PeriodicTask>,
}

impl Config {
    /// The reference configuration: a 1000 ms tick, a 60 s watering cycle,
    /// channels of capacity 8, and two default tasks — watering enabled,
    /// moisture reading present but disabled.
    pub fn new() -> (r: Config)
        ensures
            r.scheduler_tick_ms == 1000,
            r.water_pump_working_cycle_seconds == 60,
            r.messages_in_flight_limit == 8,
            r.periodic_tasks@.len() == 2,
            r.periodic_tasks@[0]@ == (PeriodicTaskView {
                task_type: PeriodicTaskType::WaterPlants,
                cron: spec_default_water_cron(),
                disabled: false,
            }),
            r.periodic_tasks@[1]@ == (PeriodicTaskView {
                task_type: PeriodicTaskType::ReadMoistureSensorsData,
                cron: spec_default_moisture_cron(),
                disabled: true,
            }),
    {
        let mut periodic_tasks: Vec<PeriodicTask> = Vec::new();
        periodic_tasks.push(
            PeriodicTask {
                disabled: false,
                task_type: PeriodicTaskType::WaterPlants,
                cron: "1/10 * * * * *".to_owned(),
            },
        );
        periodic_tasks.push(
            PeriodicTask {
                disabled: true,
                task_type: PeriodicTaskType::ReadMoistureSensorsData,
                cron: "* * * * * *".to_owned(),
            },
        );
        Config {
            scheduler_tick_ms: 1000,
            water_pump_working_cycle_seconds: 60,
            messages_in_flight_limit: 8,
            periodic_tasks,
        }
    }
}

} // verus!
