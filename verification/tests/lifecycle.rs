use interval_timer::{Interval, Schedule, Timer, TimerRequest, TimerSlots, TimerStyle};

fn off() -> Schedule {
    Schedule { interval: Interval { sec: 0, usec: 0 }, initial_delay: Interval { sec: 0, usec: 0 } }
}

fn every(usec: i64) -> Schedule {
    Schedule { interval: Interval { sec: 0, usec }, initial_delay: Interval { sec: 0, usec } }
}

#[test]
fn hundred_hertz_wall_clock() {
    let (timer, armed) = Timer::new(100, TimerStyle::WallClock);
    assert_eq!(armed.style, TimerStyle::WallClock);
    assert_eq!(armed.schedule.interval, Interval { sec: 0, usec: 10_000 });
    assert_eq!(armed.schedule.initial_delay, Interval { sec: 0, usec: 10_000 });
    let cancelled = timer.disarm();
    assert_eq!(cancelled, TimerRequest { style: TimerStyle::WallClock, schedule: off() });
}

#[test]
fn three_hertz_cpu() {
    let (timer, armed) = Timer::new(3, TimerStyle::Cpu);
    assert_eq!(armed.style, TimerStyle::Cpu);
    assert_eq!(armed.schedule.interval, Interval { sec: 0, usec: 333_333 });
    assert_eq!(armed.schedule.initial_delay, Interval { sec: 0, usec: 333_333 });
    let cancelled = timer.disarm();
    assert_eq!(cancelled, TimerRequest { style: TimerStyle::Cpu, schedule: off() });
}

#[test]
fn style_codes_are_fixed_and_distinct() {
    assert_eq!(TimerStyle::WallClock.code(), 0);
    assert_eq!(TimerStyle::Cpu.code(), 2);
    assert_ne!(TimerStyle::WallClock.code(), TimerStyle::Cpu.code());
}

#[test]
fn requests_carry_the_code_of_their_style() {
    let (wall, wall_armed) = Timer::new(50, TimerStyle::WallClock);
    let (cpu, cpu_armed) = Timer::new(50, TimerStyle::Cpu);
    assert_eq!(wall_armed.which(), 0);
    assert_eq!(cpu_armed.which(), 2);
    assert_ne!(wall_armed, cpu_armed);
    assert_eq!(wall_armed.schedule, cpu_armed.schedule);
    assert_eq!(wall.disarm().which(), 0);
    assert_eq!(cpu.disarm().which(), 2);
}

#[test]
fn first_expiry_is_one_period_away() {
    let frequencies: [i32; 8] = [1, 2, 3, 99, 100, 1000, 1_000_000, i32::MAX];
    for f in frequencies {
        let (_timer, armed) = Timer::new(f, TimerStyle::Cpu);
        assert_eq!(armed.schedule.initial_delay, armed.schedule.interval);
        assert_eq!(armed.schedule.interval, Interval::from_frequency(f));
    }
}

#[test]
fn arming_is_not_a_cancellation() {
    let (_timer, armed) = Timer::new(100, TimerStyle::WallClock);
    assert!(!armed.schedule.cancels());
    let (_timer, armed) = Timer::new(1, TimerStyle::WallClock);
    assert!(!armed.schedule.cancels());
}

#[test]
fn too_fast_a_timer_is_armed_with_nothing() {
    let (_timer, armed) = Timer::new(1_000_001, TimerStyle::WallClock);
    assert!(armed.schedule.cancels());
    assert_eq!(armed.schedule, off());
}

#[test]
fn disarm_is_all_zero_for_the_same_style() {
    let styles = [TimerStyle::WallClock, TimerStyle::Cpu];
    let frequencies: [i32; 4] = [1, 7, 100, 250_000];
    for style in styles {
        for f in frequencies {
            let (timer, _armed) = Timer::new(f, style);
            let cancelled = timer.disarm();
            assert_eq!(cancelled.style, style);
            assert_eq!(cancelled.schedule, off());
            assert!(cancelled.schedule.cancels());
        }
    }
}

#[test]
fn handle_remembers_frequency_and_style() {
    let (timer, _armed) = Timer::new(99, TimerStyle::Cpu);
    assert_eq!(timer.frequency(), 99);
    assert_eq!(timer.style(), TimerStyle::Cpu);
    let (timer, _armed) = Timer::new(i32::MAX, TimerStyle::WallClock);
    assert_eq!(timer.frequency(), i32::MAX);
    assert_eq!(timer.style(), TimerStyle::WallClock);
}

#[test]
fn cancels_needs_both_parts_zero() {
    assert!(off().cancels());
    assert!(!every(1).cancels());
    let only_delay =
        Schedule { interval: Interval { sec: 0, usec: 0 }, initial_delay: Interval { sec: 2, usec: 0 } };
    assert!(!only_delay.cancels());
    let only_interval =
        Schedule { interval: Interval { sec: 0, usec: 5 }, initial_delay: Interval { sec: 0, usec: 0 } };
    assert!(!only_interval.cancels());
}

#[test]
fn idle_slots_are_off() {
    let slots = TimerSlots::idle();
    assert_eq!(slots.get(TimerStyle::WallClock), off());
    assert_eq!(slots.get(TimerStyle::Cpu), off());
}

#[test]
fn set_replaces_one_slot_and_returns_the_old() {
    let mut slots = TimerSlots::idle();
    let (wall, armed) = Timer::new(100, TimerStyle::WallClock);
    assert_eq!(slots.set(armed), off());
    assert_eq!(slots.get(TimerStyle::WallClock), every(10_000));
    assert_eq!(slots.get(TimerStyle::Cpu), off());

    let (cpu, armed) = Timer::new(3, TimerStyle::Cpu);
    assert_eq!(slots.set(armed), off());
    assert_eq!(slots.get(TimerStyle::WallClock), every(10_000));
    assert_eq!(slots.get(TimerStyle::Cpu), every(333_333));

    assert_eq!(slots.set(wall.disarm()), every(10_000));
    assert_eq!(slots.get(TimerStyle::WallClock), off());
    assert_eq!(slots.get(TimerStyle::Cpu), every(333_333));

    assert_eq!(slots.set(cpu.disarm()), every(333_333));
    assert_eq!(slots, TimerSlots::idle());
}

#[test]
fn sequential_lifetimes_are_independent() {
    let mut twice = TimerSlots::idle();
    let (first, armed) = Timer::new(100, TimerStyle::Cpu);
    twice.set(armed);
    twice.set(first.disarm());
    assert_eq!(twice, TimerSlots::idle());
    let (_second, armed_again) = Timer::new(250, TimerStyle::Cpu);
    twice.set(armed_again);

    let mut once = TimerSlots::idle();
    let (_only, armed_once) = Timer::new(250, TimerStyle::Cpu);
    once.set(armed_once);

    assert_eq!(armed_again, armed_once);
    assert_eq!(twice, once);
    assert_eq!(twice.get(TimerStyle::Cpu), every(4_000));
    assert_eq!(twice.get(TimerStyle::WallClock), off());
}

#[test]
fn same_arguments_give_the_same_request() {
    let (first, armed_first) = Timer::new(100, TimerStyle::WallClock);
    let cancelled_first = first.disarm();
    let (second, armed_second) = Timer::new(100, TimerStyle::WallClock);
    let cancelled_second = second.disarm();
    assert_eq!(armed_first, armed_second);
    assert_eq!(cancelled_first, cancelled_second);
}
