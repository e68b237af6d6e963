//! Board support for STM32F4 parts.
//!
//! The heart of the crate is the safe hand-off of fixed-size buffers between
//! software and the DMA engine ([`dma`]), and the priority-ceiling discipline
//! under which interrupt handlers share data ([`resource`]). Around them sit
//! the pure parts of the peripheral drivers: serial status decisions and DMA
//! entry points, ADC circular sampling, clock and timer arithmetic, bit-band
//! addresses, cycle-counter deadlines, units of time, and sensor settings.
pub mod adc;
pub mod bb;
pub mod button;
pub mod capture;
mod checked;
pub mod clock;
pub mod dma;
pub mod dwt;
pub mod gpio;
pub mod i2c;
pub mod led;
pub mod lsm9ds1;
pub mod math_utils;
pub mod pwm;
pub mod resource;
pub mod serial;
pub mod time;
pub mod timer;
