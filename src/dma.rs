//! The DMA controller

pub mod channels;
