//! API for the CTimer peripheral
//!
//! Currently, only PWM output functionality is implemented. The timer counts
//! up to the period held in match register 3, which resets it; match
//! registers 0 to 2 hold the duty cycles of the three PWM outputs.

use core::marker::PhantomData;

use vstd::prelude::*;

use crate::{
    init_state::{Disabled, Enabled},
    syscon::{self, CTIMER0_CLOCK},
};

verus! {

/// MCR: reset the counter on a match of match register 3
pub const MCR_MR3R: u32 = 1 << 10;

/// MCR: reload match register 0 from its shadow register on a counter reset
pub const MCR_MR0RL: u32 = 1 << 24;

/// MCR: reload match register 1 from its shadow register on a counter reset
pub const MCR_MR1RL: u32 = 1 << 25;

/// MCR: reload match register 2 from its shadow register on a counter reset
pub const MCR_MR2RL: u32 = 1 << 26;

/// PWMC: PWM mode for outputs 0, 1 and 2
pub const PWMC_PWMEN012: u32 = 0b111;

/// TCR: the counter is enabled
pub const TCR_CEN: u32 = 1;

/// The registers of the CTimer peripheral
#[derive(Clone, Copy, Debug, PartialEq, Eq)]
pub struct CTIMER0 {
    /// Prescale register
    pub pr: u32,
    /// Match register 0
    pub mr0: u32,
    /// Match register 1
    pub mr1: u32,
    /// Match register 2
    pub mr2: u32,
    /// Match register 3
    pub mr3: u32,
    /// Match control register
    pub mcr: u32,
    /// PWM control register
    pub pwmc: u32,
    /// Timer control register
    pub tcr: u32,
}

/// A PWM channel that is not attached to an output pin
pub struct Detached;

/// The PWM channels of a CTimer
pub struct Channels<State, Channel1State, Channel2State, Channel3State> {
    /// The states of the timer and of its three channels
    pub _state: PhantomData<(State, Channel1State, Channel2State, Channel3State)>,
}

impl<State, Channel1State, Channel2State, Channel3State> Channels<
    State,
    Channel1State,
    Channel2State,
    Channel3State,
> {
    fn new() -> Self {
        Channels { _state: PhantomData }
    }
}

/// Interface to a CTimer peripheral
///
/// Controls the CTimer. `State` is [`Disabled`] or [`Enabled`]; each state
/// offers the operations that are valid in it.
pub struct CTIMER<State, Channel1State, Channel2State, Channel3State> {
    /// The PWM channels of this CTIMER
    pub channels: Channels<State, Channel1State, Channel2State, Channel3State>,
    inner: CTIMER0,
    _state: State,
}

impl<State, Channel1State, Channel2State, Channel3State> CTIMER<
    State,
    Channel1State,
    Channel2State,
    Channel3State,
> {
    /// The contents of the timer's registers
    pub closed spec fn registers(&self) -> CTIMER0 {
        self.inner
    }

    /// Return the raw peripheral
    ///
    /// This method serves as an escape hatch from this API. It returns the
    /// raw peripheral, allowing you to do whatever you want with it, without
    /// limitations imposed by the API.
    pub fn free(self) -> (r: CTIMER0)
        ensures
            r == self.registers(),
    {
        self.inner
    }
}

impl CTIMER<Disabled, Detached, Detached, Detached> {
    /// Take control of the CTimer, with its registers as they are
    pub fn new(ct: CTIMER0) -> (r: Self)
        ensures
            r.registers() == ct,
    {
        CTIMER { channels: Channels::new(), inner: ct, _state: Disabled }
    }
}

impl<Channel1State, Channel2State, Channel3State> CTIMER<
    Disabled,
    Channel1State,
    Channel2State,
    Channel3State,
> {
    /// Start the PWM timer, with a predefined period and prescaler
    ///
    /// The `period` sets the resolution of the PWM. The timer's bus clock is
    /// switched on, match register 3 resets the counter at `period`, the
    /// three outputs run in PWM mode with shadowed match registers, and the
    /// counter starts.
    pub fn enable(self, period: u32, prescaler: u32, syscon: &mut syscon::Handle) -> (r: CTIMER<
        Enabled,
        Channel1State,
        Channel2State,
        Channel3State,
    >)
        ensures
            final(syscon).sysahbclkctrl0 == old(syscon).sysahbclkctrl0 | CTIMER0_CLOCK,
            r.registers() == (CTIMER0 {
                pr: prescaler,
                mr3: period,
                mcr: MCR_MR3R | MCR_MR0RL | MCR_MR1RL | MCR_MR2RL,
                pwmc: PWMC_PWMEN012,
                tcr: TCR_CEN,
                ..self.registers()
            }),
    {
        syscon.enable_clock(CTIMER0_CLOCK);
        let mut inner = self.inner;
        inner.pr = prescaler;
        // Use MAT3 to reset the counter
        inner.mr3 = period;
        // Use shadow registers for the pwm output matches
        inner.mcr = MCR_MR3R | MCR_MR0RL | MCR_MR1RL | MCR_MR2RL;
        inner.pwmc = PWMC_PWMEN012;
        // Start the timer
        inner.tcr = TCR_CEN;
        CTIMER { channels: Channels::new(), inner, _state: Enabled(()) }
    }
}

impl<Channel1State, Channel2State, Channel3State> CTIMER<
    Enabled,
    Channel1State,
    Channel2State,
    Channel3State,
> {
    /// Disable the CTIMER
    ///
    /// This method is only available if `CTIMER` is in the [`Enabled`] state.
    /// It switches the timer's bus clock off and leaves its registers as
    /// they are.
    pub fn disable(self, syscon: &mut syscon::Handle) -> (r: CTIMER<
        Disabled,
        Channel1State,
        Channel2State,
        Channel3State,
    >)
        ensures
            final(syscon).sysahbclkctrl0 == old(syscon).sysahbclkctrl0 & !CTIMER0_CLOCK,
            r.registers() == self.registers(),
    {
        syscon.disable_clock(CTIMER0_CLOCK);
        CTIMER { channels: Channels::new(), inner: self.inner, _state: Disabled }
    }
}

} // verus!
