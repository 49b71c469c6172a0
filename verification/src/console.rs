//! The serial-console decision: what the receive-interrupt handler does with
//! one poll of the receive line.
//!
//! The handler alternates hardware work (reading the data register, clearing
//! error flags, echoing a byte) with one small decision: a received `q`
//! toggles the verbosity flag, any other byte is echoed back, and each
//! receive error asks for its own clear. The decision is verified here; the
//! firmware shell performs the returned action on the hardware.

use vstd::prelude::*;

verus! {

/// The byte that toggles verbosity instead of being echoed: ASCII `q`.
pub const TURN_QUIET: u8 = 113;

/// What one non-blocking read of the receive line yielded.
#[derive(Clone, Copy, Debug, PartialEq, Eq, Structural)]
pub enum RxEvent {
    /// A byte arrived.
    Byte(u8),
    /// Nothing to read yet.
    WouldBlock,
    /// The receiver overran.
    Overrun,
    /// A framing error was flagged.
    Framing,
    /// A noise error was flagged.
    Noise,
    /// Any other receive error.
    OtherError,
}

/// The hardware action the handler must perform in response.
#[derive(Clone, Copy, Debug, PartialEq, Eq, Structural)]
pub enum RxAction {
    /// Nothing to do.
    Nothing,
    /// Echo this byte back over the transmit line.
    Echo(u8),
    /// Clear the receiver's overrun flag.
    ClearOverrun,
    /// Clear the receiver's framing-error flag.
    ClearFraming,
    /// Clear the receiver's noise-error flag.
    ClearNoise,
    /// Report an unrecognised receive error.
    ReportError,
}

/// One step of the receive-interrupt handler: given what the read yielded
/// and the current verbosity flag, toggles the flag on the quiet byte and
/// says which hardware action to perform. Only the quiet byte ever changes
/// the flag, and every other byte is echoed back unchanged.
pub fn usart_exti25(quiet: &mut bool, ev: RxEvent) -> (r: RxAction)
    ensures
        *final(quiet) == (if ev == RxEvent::Byte(TURN_QUIET) {
            !*old(quiet)
        } else {
            *old(quiet)
        }),
        r == (match ev {
            RxEvent::Byte(b) => if b == TURN_QUIET {
                RxAction::Nothing
            } else {
                RxAction::Echo(b)
            },
            RxEvent::WouldBlock => RxAction::Nothing,
            RxEvent::Overrun => RxAction::ClearOverrun,
            RxEvent::Framing => RxAction::ClearFraming,
            RxEvent::Noise => RxAction::ClearNoise,
            RxEvent::OtherError => RxAction::ReportError,
        }),
{
    match ev {
        RxEvent::Byte(b) => {
            if b == TURN_QUIET {
                *quiet = !*quiet;
                RxAction::Nothing
            } else {
                RxAction::Echo(b)
            }
        }
        RxEvent::WouldBlock => RxAction::Nothing,
        RxEvent::Overrun => RxAction::ClearOverrun,
        RxEvent::Framing => RxAction::ClearFraming,
        RxEvent::Noise => RxAction::ClearNoise,
        RxEvent::OtherError => RxAction::ReportError,
    }
}

} // verus!
