use gameboy::clock::{SystemClock, TCycle};
use gameboy::cpu::interrupt_vector;
use gameboy::interrupts::{Interrupt, Interrupts};
use gameboy::timer::{Timer, TimerInterrupt};

fn scenario_timer() -> (Timer, Interrupts) {
    let timer = Timer {
        tima: 0xFF,
        tma: 0x1C,
        tac: 0x05,
        counter: 0x3FF0,
        timer_interrupt: TimerInterrupt::Idle,
    };
    let mut interrupts = Interrupts::new();
    interrupts.set_enabled(0xFF);
    (timer, interrupts)
}

fn run(timer: &mut Timer, interrupts: &mut Interrupts, clock: &mut SystemClock, ticks: usize) {
    for _ in 0..ticks {
        clock.increment_clock();
        timer.step(interrupts, clock);
    }
}

#[test]
fn tima_overflow_with_interrupt() {
    let (mut timer, mut interrupts) = scenario_timer();
    let mut clock = SystemClock::new();
    // Bit 1 of the M-cycle counter falls on the fourth M-cycle from 0x3FF0.
    run(&mut timer, &mut interrupts, &mut clock, 16);
    assert_eq!(timer.read_register(0xFF05), 0);
    assert_eq!(timer.timer_interrupt, TimerInterrupt::Overflowed { ticks: 0 });
    assert_eq!(interrupts.requested & 0x04, 0);
    run(&mut timer, &mut interrupts, &mut clock, 4);
    assert_eq!(timer.read_register(0xFF05), 0x1C);
    assert_eq!(interrupts.requested & 0x04, 0x04);
    assert_eq!(Interrupts::next_interrupt_from_bitfield(interrupts.pending_bitfield()), Some(Interrupt::Timer));
}

#[test]
fn tima_overflow_cancelled() {
    let (mut timer, mut interrupts) = scenario_timer();
    let mut clock = SystemClock::new();
    run(&mut timer, &mut interrupts, &mut clock, 16);
    assert_eq!(timer.tima, 0);
    timer.write_register(0xFF05, 0x0F);
    run(&mut timer, &mut interrupts, &mut clock, 4);
    assert_eq!(timer.tima, 0x0F);
    assert_eq!(interrupts.requested & 0x04, 0);
}

#[test]
fn reload_window_ignores_tima_and_follows_tma() {
    let (mut timer, mut interrupts) = scenario_timer();
    let mut clock = SystemClock::new();
    run(&mut timer, &mut interrupts, &mut clock, 20);
    assert_eq!(timer.timer_interrupt, TimerInterrupt::Reloading { ticks: 0 });
    timer.write_register(0xFF05, 0x55);
    assert_eq!(timer.tima, 0x1C);
    timer.write_register(0xFF06, 0x33);
    assert_eq!(timer.tima, 0x33);
    run(&mut timer, &mut interrupts, &mut clock, 4);
    assert_eq!(timer.timer_interrupt, TimerInterrupt::Idle);
    timer.write_register(0xFF05, 0x55);
    assert_eq!(timer.tima, 0x55);
}

#[test]
fn tima_counts_only_falling_edges() {
    let mut timer = Timer { tima: 7, tma: 0, tac: 0x05, counter: 0x0000, timer_interrupt: TimerInterrupt::Idle };
    let mut interrupts = Interrupts::new();
    let mut clock = SystemClock::new();
    // Four M-cycles: counter 1, 2, 3, 4; bit 1 falls once, on the fourth.
    run(&mut timer, &mut interrupts, &mut clock, 12);
    assert_eq!(timer.tima, 7);
    run(&mut timer, &mut interrupts, &mut clock, 4);
    assert_eq!(timer.tima, 8);
    assert_eq!(timer.counter, 4);
    // Disabled: no increments at all.
    let mut off = Timer { tima: 7, tma: 0, tac: 0x01, counter: 0x0000, timer_interrupt: TimerInterrupt::Idle };
    run(&mut off, &mut interrupts, &mut clock, 64);
    assert_eq!(off.tima, 7);
}

#[test]
fn div_write_resets_counter_with_one_increment() {
    let mut timer = Timer { tima: 9, tma: 0, tac: 0x05, counter: 0x1236, timer_interrupt: TimerInterrupt::Idle };
    assert_eq!(timer.read_register(0xFF04), (0x1236u16 >> 6) as u8);
    timer.write_register(0xFF04, 0x77);
    assert_eq!(timer.counter, 0);
    assert_eq!(timer.tima, 10);
    timer.write_register(0xFF04, 0x77);
    assert_eq!(timer.tima, 10);
}

#[test]
fn tac_write_keeps_three_bits_and_can_clock() {
    let mut timer = Timer { tima: 1, tma: 0, tac: 0x05, counter: 0x0002, timer_interrupt: TimerInterrupt::Idle };
    timer.write_register(0xFF07, 0xF9);
    assert_eq!(timer.tac, 0x01);
    assert_eq!(timer.tima, 2);
}

#[test]
fn tac_bit_masks() {
    assert_eq!(gameboy::timer::tac_bit_mask(0), 0x80);
    assert_eq!(gameboy::timer::tac_bit_mask(1), 0x02);
    assert_eq!(gameboy::timer::tac_bit_mask(2), 0x08);
    assert_eq!(gameboy::timer::tac_bit_mask(7), 0x20);
    assert!(gameboy::timer::counter_and_result(0x0080, 0x04));
    assert!(!gameboy::timer::counter_and_result(0x0080, 0x00));
}

#[test]
fn clock_phases() {
    let mut clock = SystemClock::new();
    assert_eq!(clock.t_cycle(), TCycle::T4);
    clock.increment_clock();
    assert_eq!(clock.t_cycle(), TCycle::T1);
    clock.increment_clock();
    clock.increment_clock();
    assert_eq!(clock.t_cycle(), TCycle::T3);
    let mut top = SystemClock(usize::MAX);
    top.increment_clock();
    assert_eq!(top.0, 0);
}

#[test]
fn interrupt_priority_and_vectors() {
    assert_eq!(Interrupts::next_interrupt_from_bitfield(0b1_0110), Some(Interrupt::Lcd));
    assert_eq!(Interrupts::next_interrupt_from_bitfield(0b1_0000), Some(Interrupt::Joypad));
    assert_eq!(Interrupts::next_interrupt_from_bitfield(0xE0), None);
    assert_eq!(Interrupt::VBlank.to_vector(), 0x40);
    assert_eq!(Interrupt::Timer.to_vector(), 0x50);
    assert_eq!(Interrupt::Joypad.to_vector(), 0x60);
}

#[test]
fn interrupt_registers() {
    let mut ints = Interrupts::new();
    ints.set_requested(0xFF);
    assert_eq!(ints.requested, 0x1F);
    assert_eq!(ints.requested_bitfield(), 0xFF);
    ints.set_enabled(0x05);
    assert_eq!(ints.enabled_bitfield(), 0x05);
    assert_eq!(ints.pending_bitfield(), 0x05);
    ints.clear_interrupt(Interrupt::VBlank);
    assert_eq!(ints.pending_bitfield(), 0x04);
    ints.request_interrupt(Interrupt::VBlank);
    assert_eq!(ints.requested, 0x1F);
}

#[test]
fn dispatch_choice_and_cancellation_vector() {
    assert_eq!(interrupt_vector(None), 0x0000);
    assert_eq!(interrupt_vector(Some(Interrupt::Serial)), 0x58);
}
