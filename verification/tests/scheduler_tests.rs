use seismic_intensity::scheduler::{
    SampleScheduler, ScheduleConfig, ScheduleError, DEFAULT_GUARD, MAX_GUARD, RESTART_TICK,
};

fn scheduler(sample_rate: u32, report_every: u32, guard: u64) -> SampleScheduler {
    SampleScheduler::new(ScheduleConfig { sample_rate, report_every, guard }).unwrap()
}

#[test]
fn console_and_display_cadences() {
    assert_eq!(
        ScheduleConfig::console(200),
        ScheduleConfig { sample_rate: 200, report_every: 20, guard: 2_147_483_647 }
    );
    assert_eq!(
        ScheduleConfig::display(200),
        ScheduleConfig { sample_rate: 200, report_every: 200, guard: 2_147_483_647 }
    );
    assert_eq!(DEFAULT_GUARD, 2_147_483_647);
}

#[test]
fn faulty_schedules_are_refused() {
    let new = |sample_rate, report_every, guard| {
        SampleScheduler::new(ScheduleConfig { sample_rate, report_every, guard })
    };
    assert_eq!(new(0, 20, 100), Err(ScheduleError::ZeroRate));
    assert_eq!(new(0, 0, 0), Err(ScheduleError::ZeroRate));
    assert_eq!(new(200, 0, 100), Err(ScheduleError::ZeroCadence));
    assert_eq!(new(200, 20, 0), Err(ScheduleError::GuardOutOfRange));
    assert_eq!(new(200, 20, 1), Err(ScheduleError::GuardOutOfRange));
    assert_eq!(new(200, 20, MAX_GUARD + 1), Err(ScheduleError::GuardOutOfRange));
    assert!(new(200, 20, 2).is_ok());
    assert!(new(200, 20, MAX_GUARD).is_ok());
    assert_eq!(
        SampleScheduler::new(ScheduleConfig::console(9)),
        Err(ScheduleError::ZeroCadence)
    );
}

#[test]
fn a_new_scheduler_is_at_tick_zero() {
    assert_eq!(scheduler(200, 20, 1000).tick(), 0);
}

#[test]
fn reports_fall_on_multiples_of_the_cadence() {
    let mut s = scheduler(200, 20, 1_000_000);
    let mut reported: Vec<u64> = Vec::new();
    for _ in 0..100 {
        let plan = s.plan(true);
        assert!(plan.process);
        if plan.report {
            reported.push(s.tick());
        }
        s.advance(0);
    }
    assert_eq!(reported, vec![0, 20, 40, 60, 80]);
}

#[test]
fn a_failed_read_skips_the_work_and_keeps_the_tick() {
    let mut s = scheduler(200, 20, 1_000_000);
    let plan = s.plan(false);
    assert!(!plan.process);
    assert!(!plan.report);
    let pace = s.advance(1);
    assert_eq!(pace.sleep_millis, 4);
    assert_eq!(s.tick(), 1);
}

#[test]
fn the_wait_is_what_is_left_until_the_tick_is_due() {
    let mut s = scheduler(200, 20, 1_000_000);
    assert_eq!(s.advance(0).sleep_millis, 5);
    assert_eq!(s.advance(7).sleep_millis, 3);
    assert_eq!(s.advance(15).sleep_millis, 0);
    assert_eq!(s.advance(19).sleep_millis, 1);
    assert_eq!(s.tick(), 4);
}

#[test]
fn a_late_tick_gets_no_sleep_and_the_schedule_is_kept() {
    let mut s = scheduler(200, 20, 1_000_000);
    let first = s.advance(3);
    assert_eq!(first.sleep_millis, 2);
    let late = s.advance(12);
    assert_eq!(late.sleep_millis, 0);
    assert_eq!(s.tick(), 2);
    let next = s.advance(13);
    assert_eq!(next.sleep_millis, 2);
    assert_eq!(s.tick(), 3);
    let after = s.advance(16);
    assert_eq!(after.sleep_millis, 4);
    assert_eq!(s.tick(), 4);
}

#[test]
fn due_times_round_down_to_whole_milliseconds() {
    let mut s = scheduler(3, 1, 1_000_000);
    assert_eq!(s.advance(0).sleep_millis, 333);
    assert_eq!(s.advance(100).sleep_millis, 566);
    assert_eq!(s.advance(1000).sleep_millis, 0);
    assert_eq!(s.advance(1000).sleep_millis, 333);
}

#[test]
fn a_clock_that_ran_backwards_lengthens_the_wait() {
    let mut s = scheduler(200, 20, 1_000_000);
    assert_eq!(s.advance(-10).sleep_millis, 15);
    let mut t = scheduler(1, 1, MAX_GUARD);
    assert_eq!(t.advance(i64::MIN).sleep_millis, 1000 + 9_223_372_036_854_775_808u64);
}

#[test]
fn counter_and_epoch_start_over_at_the_guard() {
    let mut s = scheduler(200, 20, 3);
    let a = s.advance(0);
    assert!(!a.restart_epoch);
    assert_eq!(s.tick(), 1);
    let b = s.advance(5);
    assert!(!b.restart_epoch);
    assert_eq!(s.tick(), 2);
    let c = s.advance(10);
    assert!(c.restart_epoch);
    assert_eq!(c.sleep_millis, 5);
    assert_eq!(s.tick(), RESTART_TICK);
    assert_eq!(s.tick(), 1);
    let d = s.advance(0);
    assert!(!d.restart_epoch);
    assert_eq!(d.sleep_millis, 10);
    assert_eq!(s.tick(), 2);
}

#[test]
fn the_smallest_guard_restarts_on_every_second_tick() {
    let mut s = scheduler(10, 1, 2);
    assert!(!s.advance(0).restart_epoch);
    assert_eq!(s.tick(), 1);
    assert!(s.advance(0).restart_epoch);
    assert_eq!(s.tick(), 1);
    assert!(s.advance(0).restart_epoch);
}
