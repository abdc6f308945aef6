//! Driver core for USB picture-frame displays built on the AX206 controller.
//!
//! The display speaks a vendor command set carried in the envelopes of the
//! USB mass-storage bulk-only transport. This library holds everything about
//! that conversation that can be decided without touching the bus: the wire
//! formats, the order of the transfers, the pixel packing and the letterbox
//! geometry. The caller performs each bulk transfer it is asked for and
//! reports what came back.

pub mod codec;
pub mod frame;
pub mod error;
pub mod command;
pub mod transport;
pub mod compositor;
pub mod lifecycle;
pub mod display;
pub mod session;
pub mod config;
pub mod models;
pub mod text;
pub mod metrics;
