//! Device library for the STM32F746NG discovery board: the board-independent logic of
//! its drivers (colors and framebuffers, clocks, GPIO pin bookkeeping, I2C register
//! encodings, SD card status decoding, Ethernet descriptors and more), verified.

pub mod lcd;
pub mod system_clock;
pub mod bits;
pub mod ethernet;
pub mod gpio;
pub mod sd;
pub mod i2c;
pub mod semi_hosting;
pub mod touch;
pub mod exti;
pub mod random;
pub mod interrupts;
pub mod init;
pub mod task_runtime;
