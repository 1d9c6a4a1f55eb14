//! A synchronous radio-streaming exerciser for a software-defined radio.
//!
//! The library holds the decisions of a TX-then-RX session: the tone that is
//! transmitted, the average power of a received burst, the ordered driver calls
//! that configure a channel, and the TX, RX and session state machines. The
//! driver itself is driven by the caller, which performs each requested call and
//! hands its outcome back.
pub mod channel;
pub mod config;
pub mod driver;
pub mod power;
pub mod rx;
pub mod session;
pub mod tx;
pub mod waveform;
