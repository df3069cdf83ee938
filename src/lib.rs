//! Hardware-proximate control of the DMA channels, the CTimer and the I2C
//! clock configuration of an LPC8xx microcontroller, with every register
//! access modelled as a plain value whose changes are stated and proved.

pub mod ctimer;
pub mod dma;
pub mod i2c;
pub mod init_state;
pub mod syscon;
