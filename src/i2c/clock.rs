//! The clock configuration of the I2C peripheral

use core::marker::PhantomData;

use vstd::prelude::*;

use crate::syscon;

use super::private::Sealed;

verus! {

/// A struct containing the clock configuration for a peripheral
///
/// The two SCL times are kept as the hardware encodes them: two less than the
/// number of clock cycles.
pub struct Clock<Clock> {
    /// The clock divider
    pub divval: u16,
    /// The SCL high time, in clock cycles minus two
    pub mstsclhigh: u8,
    /// The SCL low time, in clock cycles minus two
    pub mstscllow: u8,
    /// The clock source
    pub _clock: PhantomData<Clock>,
}

impl<C: ClockSource> Clock<C> {
    /// Whether the SCL times are ones that the hardware can encode
    pub open spec fn wf(&self) -> bool {
        self.mstsclhigh <= 7 && self.mstscllow <= 7
    }

    /// Create the clock config for the I2C peripheral
    ///
    /// `mstsclhigh` and `mstscllow` have to be between 2 and 9.
    pub fn new(_source: &C, divval: u16, mstsclhigh: u8, mstscllow: u8) -> (r: Self)
        requires
            1 < mstsclhigh < 10,
            1 < mstscllow < 10,
        ensures
            r.divval == divval,
            r.mstsclhigh == mstsclhigh - 2,
            r.mstscllow == mstscllow - 2,
            r.wf(),
    {
        Clock {
            divval,
            mstsclhigh: mstsclhigh - 2,
            mstscllow: mstscllow - 2,
            _clock: PhantomData,
        }
    }
}

/// Implemented for I2C clock sources
pub trait ClockSource: Sealed {
    /// The clock configuration after this source was selected in `handle`
    spec fn selected(handle: syscon::Handle) -> syscon::Handle;

    /// Select the clock source
    ///
    /// This method is used by the I2C API internally. It should not be relevant
    /// to most users.
    ///
    /// The `selector` argument should not be required to implement this trait,
    /// but it makes sure that the caller has access to the peripheral they are
    /// selecting the clock for.
    fn select<S>(selector: &S, handle: &mut syscon::Handle)
        ensures
            *final(handle) == Self::selected(*old(handle)),
    ;
}

impl Sealed for () {}

/// The clock that the I2C peripheral runs on unless another is selected
///
/// This is the only source on targets whose I2C clock is fixed. Targets with a
/// selectable peripheral clock would add a source for each of its options.
impl ClockSource for () {
    open spec fn selected(handle: syscon::Handle) -> syscon::Handle {
        handle
    }

    fn select<S>(_selector: &S, _handle: &mut syscon::Handle) {
        // nothing to do; `()` represents the clock that is selected by default
    }
}

} // verus!
