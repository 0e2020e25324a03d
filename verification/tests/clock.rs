use simcore::world::time::{
    phase_at, ClockConfig, GameTime, LoopAction, Phase, TickLoop, TimeManager, NANOS_PER_SECOND,
    SLEEP_MILLIS, STANDARD_SECONDS_PER_DAY, STANDARD_TICKS_PER_DAY,
};

const SECOND: u64 = 1_000_000_000;

fn time(tick: u32, day: u32, phase: Phase) -> GameTime {
    GameTime { tick, day, phase }
}

fn standard_loop(seed: GameTime) -> TickLoop {
    TickLoop::new(ClockConfig::standard(), seed).expect("a valid seed")
}

#[test]
fn game_time_starts_at_dawn_of_the_first_day() {
    assert_eq!(GameTime::new(), time(0, 1, Phase::Dawn));
}

#[test]
fn constants_have_their_documented_values() {
    assert_eq!(NANOS_PER_SECOND, 1_000_000_000);
    assert_eq!(STANDARD_SECONDS_PER_DAY, 900);
    assert_eq!(STANDARD_TICKS_PER_DAY, 900);
    assert_eq!(SLEEP_MILLIS, 1);
}

#[test]
fn standard_configuration_ticks_once_a_second() {
    let config = ClockConfig::standard();
    assert_eq!(config, ClockConfig { real_seconds_per_day: 900, ticks_per_day: 900 });
    assert!(config.usable());
    assert_eq!(config.tick_duration_nanos(), SECOND);
}

#[test]
fn tick_duration_is_rounded_down() {
    let config = ClockConfig { real_seconds_per_day: 1, ticks_per_day: 3 };
    assert!(config.usable());
    assert_eq!(config.tick_duration_nanos(), 333_333_333);
    let config = ClockConfig { real_seconds_per_day: 60, ticks_per_day: 7 };
    assert_eq!(config.tick_duration_nanos(), 8_571_428_571);
}

#[test]
fn configuration_without_ticks_is_not_usable() {
    assert!(!ClockConfig { real_seconds_per_day: 900, ticks_per_day: 0 }.usable());
}

#[test]
fn configuration_with_ticks_under_a_nanosecond_is_not_usable() {
    assert!(!ClockConfig { real_seconds_per_day: 1, ticks_per_day: 1_000_000_001 }.usable());
    assert!(ClockConfig { real_seconds_per_day: 1, ticks_per_day: 1_000_000_000 }.usable());
    assert!(!ClockConfig { real_seconds_per_day: 0, ticks_per_day: 1 }.usable());
}

#[test]
fn phase_of_the_first_tick_is_dawn() {
    assert_eq!(phase_at(0, 900), Phase::Dawn);
    assert_eq!(phase_at(0, 1), Phase::Dawn);
    assert_eq!(phase_at(0, 0), Phase::Dawn);
}

#[test]
fn boundary_ticks_belong_to_the_phase_that_ends_there() {
    assert_eq!(phase_at(225, 900), Phase::Dawn);
    assert_eq!(phase_at(226, 900), Phase::Day);
    assert_eq!(phase_at(450, 900), Phase::Day);
    assert_eq!(phase_at(451, 900), Phase::Dusk);
    assert_eq!(phase_at(675, 900), Phase::Dusk);
    assert_eq!(phase_at(676, 900), Phase::Night);
    assert_eq!(phase_at(899, 900), Phase::Night);
}

#[test]
fn boundaries_are_rounded_down() {
    // A day of 10 ticks: the quarters end at ticks 2, 5 and 7.
    let expected = [
        Phase::Dawn,
        Phase::Dawn,
        Phase::Dawn,
        Phase::Day,
        Phase::Day,
        Phase::Day,
        Phase::Dusk,
        Phase::Dusk,
        Phase::Night,
        Phase::Night,
    ];
    for tick in 0..10u32 {
        assert_eq!(phase_at(tick, 10), expected[tick as usize], "tick {}", tick);
    }
}

#[test]
fn phase_with_the_largest_day_does_not_overflow() {
    assert_eq!(phase_at(u32::MAX, u32::MAX), Phase::Night);
    assert_eq!(phase_at(3_221_225_471, u32::MAX), Phase::Dusk);
    assert_eq!(phase_at(3_221_225_472, u32::MAX), Phase::Night);
}

#[test]
fn phase_never_goes_back_within_a_day() {
    let rank = |phase: Phase| match phase {
        Phase::Dawn => 0,
        Phase::Day => 1,
        Phase::Dusk => 2,
        Phase::Night => 3,
    };
    for ticks_per_day in [1u32, 2, 3, 4, 7, 900] {
        for tick in 1..ticks_per_day {
            assert!(rank(phase_at(tick - 1, ticks_per_day)) <= rank(phase_at(tick, ticks_per_day)));
        }
    }
}

#[test]
fn validity_asks_for_tick_day_and_phase() {
    let config = ClockConfig::standard();
    assert!(GameTime::new().valid_for(&config));
    assert!(time(899, 7, Phase::Night).valid_for(&config));
    assert!(!time(900, 1, Phase::Night).valid_for(&config));
    assert!(!time(0, 0, Phase::Dawn).valid_for(&config));
    assert!(!time(0, 1, Phase::Night).valid_for(&config));
}

#[test]
fn tick_once_moves_one_tick() {
    let config = ClockConfig::standard();
    assert_eq!(GameTime::new().tick_once(&config), time(1, 1, Phase::Dawn));
    assert_eq!(time(225, 3, Phase::Dawn).tick_once(&config), time(226, 3, Phase::Day));
}

#[test]
fn tick_once_wraps_into_the_next_day() {
    let config = ClockConfig::standard();
    assert_eq!(time(899, 1, Phase::Night).tick_once(&config), time(0, 2, Phase::Dawn));
    let config = ClockConfig { real_seconds_per_day: 1, ticks_per_day: 1 };
    assert_eq!(time(0, 5, Phase::Dawn).tick_once(&config), time(0, 6, Phase::Dawn));
}

#[test]
fn every_tick_of_two_days_is_visited_in_order() {
    let config = ClockConfig { real_seconds_per_day: 12, ticks_per_day: 12 };
    let mut now = GameTime::new();
    for step in 1..=24u32 {
        let next = now.tick_once(&config);
        assert_eq!(next.tick, step % 12);
        assert_eq!(next.day, 1 + step / 12);
        assert_eq!(next.phase, phase_at(next.tick, 12));
        assert_eq!(next.day == now.day + 1, next.tick == 0);
        now = next;
    }
}

#[test]
fn end_to_end_clock_runs_through_the_first_day() {
    let mut tick_loop = standard_loop(GameTime::new());
    assert_eq!(tick_loop.time(), time(0, 1, Phase::Dawn));
    assert!(tick_loop.absorbs(899 * SECOND));
    let action = tick_loop.step(false, 899 * SECOND);
    assert_eq!(action, LoopAction::Publish(time(899, 1, Phase::Night)));
    assert_eq!(tick_loop.time(), time(899, 1, Phase::Night));
    tick_loop.published(true);
    let action = tick_loop.step(false, SECOND);
    assert_eq!(action, LoopAction::Publish(time(0, 2, Phase::Dawn)));
    assert_eq!(tick_loop.time(), time(0, 2, Phase::Dawn));
}

#[test]
fn new_loop_has_nothing_waiting_and_nothing_pending() {
    let tick_loop = standard_loop(time(10, 2, Phase::Dawn));
    assert_eq!(tick_loop.config(), ClockConfig::standard());
    assert_eq!(tick_loop.time(), time(10, 2, Phase::Dawn));
    assert_eq!(tick_loop.accumulated_nanos(), 0);
    assert!(!tick_loop.is_pending());
}

#[test]
fn loop_refuses_an_invalid_seed() {
    assert!(TickLoop::new(ClockConfig::standard(), time(900, 1, Phase::Night)).is_none());
    assert!(TickLoop::new(ClockConfig::standard(), time(0, 0, Phase::Dawn)).is_none());
    assert!(TickLoop::new(ClockConfig::standard(), time(0, 1, Phase::Day)).is_none());
}

#[test]
fn loop_refuses_an_unusable_configuration() {
    let config = ClockConfig { real_seconds_per_day: 900, ticks_per_day: 0 };
    assert!(TickLoop::new(config, GameTime::new()).is_none());
}

#[test]
fn less_than_a_tick_only_waits() {
    let mut tick_loop = standard_loop(GameTime::new());
    assert_eq!(tick_loop.step(false, SECOND - 1), LoopAction::Sleep);
    assert_eq!(tick_loop.time(), GameTime::new());
    assert_eq!(tick_loop.accumulated_nanos(), SECOND - 1);
    assert!(!tick_loop.is_pending());
    assert_eq!(tick_loop.step(false, 1), LoopAction::Publish(time(1, 1, Phase::Dawn)));
    assert_eq!(tick_loop.accumulated_nanos(), 0);
}

#[test]
fn what_is_left_of_a_tick_keeps_waiting() {
    let mut tick_loop = standard_loop(GameTime::new());
    let action = tick_loop.step(false, 2 * SECOND + 500_000_000);
    assert_eq!(action, LoopAction::Publish(time(2, 1, Phase::Dawn)));
    assert_eq!(tick_loop.accumulated_nanos(), 500_000_000);
    tick_loop.published(true);
    let action = tick_loop.step(false, 500_000_000);
    assert_eq!(action, LoopAction::Publish(time(3, 1, Phase::Dawn)));
    assert_eq!(tick_loop.accumulated_nanos(), 0);
}

#[test]
fn a_delayed_loop_catches_up_over_several_days() {
    let mut tick_loop = standard_loop(time(890, 1, Phase::Night));
    let action = tick_loop.step(false, 2000 * SECOND);
    // 890 + 2000 = 2890 = 3 * 900 + 190
    assert_eq!(action, LoopAction::Publish(time(190, 4, Phase::Dawn)));
}

#[test]
fn uneven_increments_end_where_their_sum_ends() {
    let increments: [u64; 9] = [
        1,
        999_999_998,
        1,
        3 * SECOND + 7,
        0,
        250_000_000,
        749_999_992,
        1,
        898 * SECOND + 123,
    ];
    let total: u64 = increments.iter().sum();
    let mut stepwise = standard_loop(GameTime::new());
    for elapsed in increments {
        stepwise.step(false, elapsed);
    }
    let mut at_once = standard_loop(GameTime::new());
    at_once.step(false, total);
    assert_eq!(total, 903 * SECOND + 123);
    assert_eq!(stepwise.time(), time(3, 2, Phase::Dawn));
    assert_eq!(stepwise.accumulated_nanos(), 123);
    assert_eq!(stepwise.time(), at_once.time());
    assert_eq!(stepwise.accumulated_nanos(), at_once.accumulated_nanos());
    assert_eq!(stepwise.is_pending(), at_once.is_pending());
}

#[test]
fn shutdown_ends_the_loop_and_keeps_its_state() {
    let mut tick_loop = standard_loop(time(5, 1, Phase::Dawn));
    tick_loop.step(false, SECOND / 2);
    assert_eq!(tick_loop.step(true, 10 * SECOND), LoopAction::Stop);
    assert_eq!(tick_loop.time(), time(5, 1, Phase::Dawn));
    assert_eq!(tick_loop.accumulated_nanos(), SECOND / 2);
    assert!(!tick_loop.is_pending());
}

#[test]
fn a_failed_write_is_asked_for_again() {
    let mut tick_loop = standard_loop(GameTime::new());
    assert_eq!(tick_loop.step(false, SECOND), LoopAction::Publish(time(1, 1, Phase::Dawn)));
    assert!(tick_loop.is_pending());
    tick_loop.published(false);
    assert!(tick_loop.is_pending());
    assert_eq!(tick_loop.step(false, 0), LoopAction::Publish(time(1, 1, Phase::Dawn)));
    tick_loop.published(false);
    assert_eq!(tick_loop.step(false, 2 * SECOND), LoopAction::Publish(time(3, 1, Phase::Dawn)));
    tick_loop.published(true);
    assert!(!tick_loop.is_pending());
    assert_eq!(tick_loop.step(false, 0), LoopAction::Sleep);
}

#[test]
fn outcome_of_a_write_changes_nothing_but_what_is_pending() {
    let mut tick_loop = standard_loop(GameTime::new());
    tick_loop.step(false, SECOND + 5);
    tick_loop.published(true);
    assert_eq!(tick_loop.time(), time(1, 1, Phase::Dawn));
    assert_eq!(tick_loop.accumulated_nanos(), 5);
    tick_loop.published(true);
    assert!(!tick_loop.is_pending());
}

#[test]
fn day_counter_at_its_end_cannot_absorb_another_day() {
    let tick_loop = standard_loop(time(899, u32::MAX, Phase::Night));
    assert!(tick_loop.absorbs(SECOND - 1));
    assert!(!tick_loop.absorbs(SECOND));
    let tick_loop = standard_loop(time(0, u32::MAX, Phase::Dawn));
    assert!(tick_loop.absorbs(899 * SECOND));
    assert!(!tick_loop.absorbs(900 * SECOND));
    let tick_loop = standard_loop(GameTime::new());
    assert!(tick_loop.absorbs(u64::MAX));
}

#[test]
fn last_tick_of_the_last_day_is_reached() {
    let mut tick_loop = standard_loop(time(0, u32::MAX, Phase::Dawn));
    let action = tick_loop.step(false, 899 * SECOND);
    assert_eq!(action, LoopAction::Publish(time(899, u32::MAX, Phase::Night)));
}

#[test]
fn new_engine_is_not_started() {
    let manager = TimeManager::new();
    assert_eq!(manager.time(), None);
    assert!(!manager.shutdown_requested());
    assert_eq!(manager.config(), ClockConfig::standard());
}

#[test]
fn engine_with_an_unusable_configuration_is_refused() {
    assert!(TimeManager::with_config(ClockConfig { real_seconds_per_day: 0, ticks_per_day: 9 })
        .is_none());
    let config = ClockConfig { real_seconds_per_day: 60, ticks_per_day: 24 };
    let manager = TimeManager::with_config(config).expect("a usable configuration");
    assert_eq!(manager.config(), config);
    assert_eq!(manager.time(), None);
    assert!(!manager.shutdown_requested());
}

#[test]
fn first_start_runs_from_the_initial_time() {
    let mut manager = TimeManager::new();
    let tick_loop = manager.start(time(30, 2, Phase::Dawn)).expect("a valid time");
    assert_eq!(tick_loop.time(), time(30, 2, Phase::Dawn));
    assert_eq!(tick_loop.accumulated_nanos(), 0);
    assert!(!tick_loop.is_pending());
    assert_eq!(tick_loop.config(), ClockConfig::standard());
    assert_eq!(manager.time(), Some(time(30, 2, Phase::Dawn)));
    assert!(!manager.shutdown_requested());
}

#[test]
fn restart_goes_on_from_the_shared_time() {
    let mut manager = TimeManager::new();
    let mut tick_loop = manager.start(GameTime::new()).expect("a valid time");
    if let LoopAction::Publish(now) = tick_loop.step(manager.shutdown_requested(), 400 * SECOND) {
        manager.publish(now);
    }
    manager.stop();
    assert!(manager.shutdown_requested());
    let resumed = manager.start(GameTime::new()).expect("a valid time");
    assert_eq!(resumed.time(), time(400, 1, Phase::Day));
    assert_eq!(manager.time(), Some(time(400, 1, Phase::Day)));
    assert!(!manager.shutdown_requested());
}

#[test]
fn restart_ignores_a_shared_time_that_is_not_valid() {
    let mut manager = TimeManager::new();
    manager.publish(time(5000, 1, Phase::Night));
    let tick_loop = manager.start(time(7, 3, Phase::Dawn)).expect("a valid time");
    assert_eq!(tick_loop.time(), time(7, 3, Phase::Dawn));
    assert_eq!(manager.time(), Some(time(7, 3, Phase::Dawn)));
}

#[test]
fn start_with_an_invalid_time_changes_nothing() {
    let mut manager = TimeManager::new();
    manager.stop();
    assert!(manager.start(time(900, 1, Phase::Night)).is_none());
    assert_eq!(manager.time(), None);
    assert!(manager.shutdown_requested());
}

#[test]
fn stop_is_idempotent_and_keeps_the_shared_time() {
    let mut manager = TimeManager::new();
    manager.stop();
    assert!(manager.shutdown_requested());
    assert_eq!(manager.time(), None);
    manager.start(GameTime::new());
    manager.publish(time(3, 1, Phase::Dawn));
    manager.stop();
    manager.stop();
    assert!(manager.shutdown_requested());
    assert_eq!(manager.time(), Some(time(3, 1, Phase::Dawn)));
}

#[test]
fn stopped_engine_ends_its_loop_at_the_next_look() {
    let mut manager = TimeManager::new();
    let mut tick_loop = manager.start(GameTime::new()).expect("a valid time");
    assert_eq!(
        tick_loop.step(manager.shutdown_requested(), SECOND),
        LoopAction::Publish(time(1, 1, Phase::Dawn))
    );
    manager.publish(time(1, 1, Phase::Dawn));
    tick_loop.published(true);
    manager.stop();
    assert_eq!(tick_loop.step(manager.shutdown_requested(), 5 * SECOND), LoopAction::Stop);
    assert_eq!(manager.time(), Some(time(1, 1, Phase::Dawn)));
}

#[test]
fn publish_replaces_the_whole_value() {
    let mut manager = TimeManager::new();
    manager.start(GameTime::new());
    manager.publish(time(899, 1, Phase::Night));
    manager.publish(time(0, 2, Phase::Dawn));
    assert_eq!(manager.time(), Some(time(0, 2, Phase::Dawn)));
    assert!(!manager.shutdown_requested());
}
