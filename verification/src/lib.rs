//! A telemetry agent core for a register-based temperature sensor publishing
//! over a wireless link: calibration decoding, fixed-point temperature
//! compensation, payload formatting, and the state machines that supervise
//! the wireless association and the resolve/connect/handshake/publish
//! session. All I/O (bus transactions, radio control, sockets, timers) is
//! performed by the surrounding runtime, which feeds results back into these
//! functions as plain values.

pub mod calibration;
pub mod link;
pub mod payload;
pub mod sensor;
pub mod session;
