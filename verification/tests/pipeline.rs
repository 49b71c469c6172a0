//! End-to-end tests of the DMA transmit pipeline state machine.

use dma_telemetry::buffer::{buffer_bytes, new_buffer, try_fill};
use dma_telemetry::telemetry::handle_mpu;
use dma_telemetry::{Channel, DmaTelemetry, Transmitter};

fn fresh() -> DmaTelemetry {
    DmaTelemetry::create(Channel::new(4), Transmitter::new(1))
}

#[test]
fn create_is_idle_with_empty_buffer() {
    let tele = fresh();
    assert!(!tele.is_busy());
    assert_eq!(tele.buffer_contents(), Vec::<u8>::new());
    assert_eq!(tele.channel_id(), 4);
    assert_eq!(tele.transmitter_id(), 1);
}

#[test]
fn idle_send_always_starts_a_transfer() {
    // Even an empty payload moves an idle machine to in-flight, and the
    // bytes handed to the hardware are exactly the bytes appended.
    let tele = fresh().send("", false);
    assert!(tele.is_busy());
    assert_eq!(tele.buffer_contents(), b"".to_vec());

    let tele = fresh().send("hi", true);
    assert!(tele.is_busy());
    assert_eq!(tele.buffer_contents(), b"hi".to_vec());
}

#[test]
fn busy_not_done_never_restarts() {
    // While the transfer is in flight and the poll says "not done", repeated
    // sends change nothing and the new payloads are dropped.
    let tele = fresh().send("first", false);
    let tele = tele.send("second", false);
    assert!(tele.is_busy());
    assert_eq!(tele.buffer_contents(), b"first".to_vec());
    let tele = tele.send("third", false);
    assert!(tele.is_busy());
    assert_eq!(tele.buffer_contents(), b"first".to_vec());
    assert_eq!(tele.channel_id(), 4);
    assert_eq!(tele.transmitter_id(), 1);
}

#[test]
fn reclaim_then_restart_leaves_no_residue() {
    // Once the poll reports completion, one send reclaims the resources,
    // clears the buffer and queues exactly the new payload.
    let tele = fresh().send("old payload", false);
    let tele = tele.send("new", true);
    assert!(tele.is_busy());
    assert_eq!(tele.buffer_contents(), b"new".to_vec());
    assert_eq!(tele.channel_id(), 4);
    assert_eq!(tele.transmitter_id(), 1);
}

#[test]
fn dma_ok_scenario() {
    // Ready with a 256-byte-capacity empty buffer; sending the 9-byte boot
    // line leaves it in flight with exactly those 9 bytes queued.
    let tele = fresh().send("Dma ok!\r\n", false);
    assert!(tele.is_busy());
    let queued = tele.buffer_contents();
    assert_eq!(queued, b"Dma ok!\r\n".to_vec());
    assert_eq!(queued.len(), 9);
    assert_eq!(256 - queued.len(), 247);
}

#[test]
fn interrupt_while_running_drops_payload() {
    // The previous transfer is still running: the 11-byte interrupt line is
    // never queued and the in-flight transfer is untouched.
    let tele = fresh().send("Dma ok!\r\n", false);
    let tele = tele.send("interrupt!\n", false);
    assert!(tele.is_busy());
    assert_eq!(tele.buffer_contents(), b"Dma ok!\r\n".to_vec());
}

#[test]
fn interrupt_after_completion_is_queued() {
    // Same call once the poll reports completion: the buffer is cleared and
    // a new transfer starts with exactly the 11 interrupt bytes.
    let tele = fresh().send("Dma ok!\r\n", false);
    let tele = tele.send("interrupt!\n", true);
    assert!(tele.is_busy());
    let queued = tele.buffer_contents();
    assert_eq!(queued, b"interrupt!\n".to_vec());
    assert_eq!(queued.len(), 11);
}

#[test]
fn capacity_boundary() {
    // A payload of exactly the remaining capacity fits; one byte beyond does
    // not, and the buffer is left exactly as it was.
    let mut buf = new_buffer();
    let exact = "a".repeat(256);
    assert!(try_fill(&mut buf, &exact));
    assert_eq!(buffer_bytes(&buf).len(), 256);
    assert!(!try_fill(&mut buf, "b"));
    assert_eq!(buffer_bytes(&buf), exact.as_bytes().to_vec());

    let mut buf = new_buffer();
    let almost = "x".repeat(255);
    assert!(try_fill(&mut buf, &almost));
    assert!(!try_fill(&mut buf, "yz"));
    assert_eq!(buffer_bytes(&buf), almost.as_bytes().to_vec());
    assert!(try_fill(&mut buf, "y"));
    assert_eq!(buffer_bytes(&buf).len(), 256);
}

#[test]
fn send_at_exact_capacity() {
    let line = "z".repeat(256);
    let tele = fresh().send(&line, false);
    assert!(tele.is_busy());
    assert_eq!(tele.buffer_contents(), line.as_bytes().to_vec());
}

#[test]
fn handle_mpu_takes_and_puts_back() {
    let mut slot = Some(fresh());
    handle_mpu(&mut slot, "interrupt!\n", false);
    let tele = slot.as_ref().expect("slot refilled");
    assert!(tele.is_busy());
    assert_eq!(tele.buffer_contents(), b"interrupt!\n".to_vec());

    // Still running: the slot keeps the same in-flight transfer.
    handle_mpu(&mut slot, "dropped\n", false);
    let tele = slot.as_ref().expect("slot refilled");
    assert_eq!(tele.buffer_contents(), b"interrupt!\n".to_vec());

    // Completed: the next line is queued with no residue.
    handle_mpu(&mut slot, "next line\n", true);
    let tele = slot.as_ref().expect("slot refilled");
    assert_eq!(tele.buffer_contents(), b"next line\n".to_vec());
}

#[test]
fn handle_mpu_on_empty_slot_does_nothing() {
    let mut slot: Option<DmaTelemetry> = None;
    handle_mpu(&mut slot, "interrupt!\n", true);
    assert!(slot.is_none());
}

#[test]
fn buffer_is_a_heapless_vec() {
    // The transfer buffer really is the heapless vector the firmware uses.
    let buf: heapless::Vec<u8, 256> = heapless::Vec::new();
    assert_eq!(buffer_bytes(&buf), Vec::<u8>::new());
    let mut buf = buf;
    assert!(try_fill(&mut buf, "abc"));
    assert_eq!(buf.as_slice(), b"abc");
}
