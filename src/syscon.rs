//! The system configuration block, as far as the peripherals here need it:
//! the register that switches each peripheral's bus clock on and off

use vstd::prelude::*;

verus! {

/// The bus clock bit of the CTimer in the clock control register
pub const CTIMER0_CLOCK: u32 = 1 << 25;

/// Controls the bus clocks of the peripherals
pub struct Handle {
    /// The clock control register: bit `n` enables the clock of peripheral `n`
    pub sysahbclkctrl0: u32,
}

impl Handle {
    /// The handle of a clock control register that holds `sysahbclkctrl0`
    pub fn new(sysahbclkctrl0: u32) -> (r: Self)
        ensures
            r.sysahbclkctrl0 == sysahbclkctrl0,
    {
        Handle { sysahbclkctrl0 }
    }

    /// Enable the bus clocks selected by `mask`
    pub fn enable_clock(&mut self, mask: u32)
        ensures
            final(self).sysahbclkctrl0 == old(self).sysahbclkctrl0 | mask,
    {
        self.sysahbclkctrl0 = self.sysahbclkctrl0 | mask;
    }

    /// Disable the bus clocks selected by `mask`
    pub fn disable_clock(&mut self, mask: u32)
        ensures
            final(self).sysahbclkctrl0 == old(self).sysahbclkctrl0 & !mask,
    {
        self.sysahbclkctrl0 = self.sysahbclkctrl0 & !mask;
    }
}

} // verus!
