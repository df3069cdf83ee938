use lpc8xx_hal::ctimer::{CTIMER, CTIMER0};
use lpc8xx_hal::i2c::clock::{Clock, ClockSource};
use lpc8xx_hal::syscon::{Handle, CTIMER0_CLOCK};

fn registers() -> CTIMER0 {
    CTIMER0 { pr: 5, mr0: 10, mr1: 20, mr2: 30, mr3: 40, mcr: 0, pwmc: 0, tcr: 0 }
}

#[test]
fn ctimer_free_returns_registers() {
    assert_eq!(CTIMER::new(registers()).free(), registers());
}

#[test]
fn ctimer_enable_programs_pwm() {
    let mut syscon = Handle::new(0b1);
    let ct = CTIMER::new(registers()).enable(256, 3, &mut syscon);
    assert_eq!(syscon.sysahbclkctrl0, 0b1 | (1 << 25));
    let regs = ct.free();
    assert_eq!(regs.pr, 3);
    assert_eq!(regs.mr3, 256);
    assert_eq!(regs.mr0, 10);
    assert_eq!(regs.mcr, (1 << 10) | (1 << 24) | (1 << 25) | (1 << 26));
    assert_eq!(regs.pwmc, 0b111);
    assert_eq!(regs.tcr, 1);
}

#[test]
fn ctimer_disable_stops_clock() {
    let mut syscon = Handle::new(0b1);
    let ct = CTIMER::new(registers()).enable(256, 0, &mut syscon);
    let ct = ct.disable(&mut syscon);
    assert_eq!(syscon.sysahbclkctrl0, 0b1);
    assert_eq!(syscon.sysahbclkctrl0 & CTIMER0_CLOCK, 0);
    assert_eq!(ct.free().mr3, 256);
}

#[test]
fn clock_encodes_scl_times() {
    let clock: Clock<()> = Clock::new(&(), 15, 2, 9);
    assert_eq!(clock.divval, 15);
    assert_eq!(clock.mstsclhigh, 0);
    assert_eq!(clock.mstscllow, 7);
    let clock: Clock<()> = Clock::new(&(), 0, 5, 4);
    assert_eq!(clock.mstsclhigh, 3);
    assert_eq!(clock.mstscllow, 2);
}

#[test]
fn default_clock_source_select_leaves_handle() {
    let mut syscon = Handle::new(0b1010);
    <() as ClockSource>::select(&0u8, &mut syscon);
    assert_eq!(syscon.sysahbclkctrl0, 0b1010);
}
