//! Device-communication core of a companion for Galaxy Buds earbuds.
//!
//! The earbuds speak over a serial Bluetooth stream in frames that begin
//! and end with fixed bytes. This library holds what is decided on the way
//! between that stream and a user interface, and proves it:
//!
//! - [`framing`] cuts frames out of the bytes as they arrive, and
//!   [`stream`] shows that the frames come out as they went in, however the
//!   stream was cut into chunks and whatever stands between them;
//! - [`model`] classifies frames into messages, encodes commands and keeps
//!   the state of the earbuds; [`codec`] is the boundary to the crate that
//!   knows the payloads;
//! - [`bluetooth`] picks the earbuds out of the known devices and orders
//!   the steps of a connection attempt;
//! - [`buds_worker`] is the state machine of a session, and [`session`]
//!   shows in which order its outputs come and that a session ends once;
//! - [`ui`] holds the decisions of the graphical shell.
//!
//! The library performs no input or output. Whoever uses it makes the
//! Bluetooth calls, hands in what they gave and does what the library
//! answers.

pub mod bluetooth;
pub mod buds_worker;
pub mod codec;
pub mod framing;
pub mod model;
pub mod session;
pub mod stream;
pub mod ui;
