use gpu_life::scheduler::StepScheduler;

#[test]
fn one_second_at_sixty_in_fine_ticks_gives_exactly_sixty_steps() {
    // 1000 ticks of one millisecond each
    let mut sched = StepScheduler::new(60);
    let mut total: u64 = 0;
    for _ in 0..1000 {
        total += sched.tick(1_000) as u64;
    }
    assert_eq!(total, 60);
    assert!((sched.accumulated_micros as i64) < 1_000_000 / 60);
}

#[test]
fn one_second_at_sixty_in_coarse_ticks_gives_exactly_sixty_steps() {
    // 16 ticks of 62.5 milliseconds each
    let mut sched = StepScheduler::new(60);
    let mut total: u64 = 0;
    for _ in 0..16 {
        total += sched.tick(62_500) as u64;
    }
    assert_eq!(total, 60);
    assert!((sched.accumulated_micros as i64) < 1_000_000 / 60);
}

#[test]
fn one_second_at_sixty_in_one_tick_gives_exactly_sixty_steps() {
    let mut sched = StepScheduler::new(60);
    let steps = sched.tick(1_000_000);
    assert_eq!(steps, 60);
    assert_eq!(sched.accumulated_micros, 40); // 1_000_000 - 60 * 16_666
}

#[test]
fn granularity_does_not_change_the_cumulative_outcome() {
    let mut fine = StepScheduler::new(977);
    let mut coarse = StepScheduler::new(977);
    let mut fine_total: u64 = 0;
    for _ in 0..25 {
        fine_total += fine.tick(4_000) as u64;
    }
    let coarse_total = coarse.tick(100_000) as u64;
    assert_eq!(fine_total, coarse_total);
    assert_eq!(fine.accumulated_micros, coarse.accumulated_micros);
}

#[test]
fn a_large_time_jump_is_capped_and_the_backlog_discarded() {
    let mut sched = StepScheduler::new(60);
    // ten seconds at once would be 600 steps; the cap clamps to 100
    let steps = sched.tick(10_000_000);
    assert_eq!(steps, 100);
    assert_eq!(sched.accumulated_micros, 0);
    // the next short tick starts from a clean slate
    assert_eq!(sched.tick(10_000), 0);
    assert_eq!(sched.accumulated_micros, 10_000);
}

#[test]
fn exactly_one_hundred_steps_is_not_clamped() {
    let mut sched = StepScheduler::new(100);
    // interval is 10_000 microseconds; exactly one hundred intervals plus 5
    let steps = sched.tick(1_000_005);
    assert_eq!(steps, 100);
    assert_eq!(sched.accumulated_micros, 5);
}

#[test]
fn changing_the_rate_keeps_accumulated_time() {
    let mut sched = StepScheduler::new(60);
    assert_eq!(sched.tick(10_000), 0);
    assert_eq!(sched.accumulated_micros, 10_000);
    sched.set_rate(100_000);
    assert_eq!(sched.steps_per_second, 100_000);
    assert_eq!(sched.accumulated_micros, 10_000);
    // at 100_000 steps/second the interval is 10 microseconds
    assert_eq!(sched.tick(0), 100);
    assert_eq!(sched.accumulated_micros, 0);
}

#[test]
fn slowest_rate_runs_one_step_per_second() {
    let mut sched = StepScheduler::new(1);
    assert_eq!(sched.tick(999_999), 0);
    assert_eq!(sched.tick(1), 1);
    assert_eq!(sched.accumulated_micros, 0);
}
