//! The logic of the firmware around a W5100-class TCP/IP offload chip and
//! of a small jukebox beside it.
//!
//! The chip hangs on SPI and is driven through four-byte command
//! streams; [`w5100`] holds its registers and buffers, [`tcp`] the life of
//! a TCP session on one socket, and [`server`] the service that lends one
//! session at a time to one client. [`jukebox`] plays songs on a buzzer
//! whose timer [`piezo`] sets.
//!
//! Nothing in this crate touches a bus, a clock, a timer or a client's
//! memory. Every operation on the chip is a value that names the next
//! thing to be done for it, a [`bus::Action`], and is resumed with what
//! came of it, a [`bus::Event`]; the jukebox is told the time and answers
//! with what the buzzer is to do. Whoever owns the hardware runs those
//! loops.

pub mod bus;
pub mod error;
pub mod jukebox;
pub mod piezo;
pub mod server;
pub mod tcp;
pub mod w5100;
