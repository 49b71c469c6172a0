//! A non-blocking, ownership-safe DMA transmit pipeline for serial telemetry.
//!
//! A fixed-capacity byte buffer, a DMA channel and a serial transmitter cycle
//! between an idle state and an in-flight transfer handle; a single `send`
//! operation appends a payload and starts a transfer when the hardware is
//! free, and reclaims the resources once the hardware reports completion.

pub mod buffer;
pub mod console;
pub mod telemetry;

pub use buffer::TxBuffer;
pub use telemetry::{Channel, DmaTelemetry, TelemetryModel, Transmitter};
