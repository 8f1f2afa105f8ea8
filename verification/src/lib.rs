//! Driver logic for a monochrome, bit-addressable memory LCD panel driven
//! over a serial bus with a line-oriented write protocol.
//!
//! The library owns the in-memory framebuffer and the protocol state
//! (command encoding, polarity toggle, per-line and full-frame framing).
//! Transmission operations assemble the exact byte frames the panel
//! expects; performing the bus write itself is left to the caller.

pub mod bits;
pub mod driver;
pub mod model;
