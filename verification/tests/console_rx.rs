//! Tests of the serial-console receive decision and the line formatter.

use dma_telemetry::buffer::{buffer_bytes, fill_with_str, new_buffer};
use dma_telemetry::console::{usart_exti25, RxAction, RxEvent, TURN_QUIET};

#[test]
fn quiet_byte_toggles_and_is_not_echoed() {
    assert_eq!(TURN_QUIET, b'q');
    let mut quiet = true;
    let action = usart_exti25(&mut quiet, RxEvent::Byte(b'q'));
    assert_eq!(action, RxAction::Nothing);
    assert!(!quiet);
    let action = usart_exti25(&mut quiet, RxEvent::Byte(b'q'));
    assert_eq!(action, RxAction::Nothing);
    assert!(quiet);
}

#[test]
fn other_bytes_echo_unchanged() {
    let mut quiet = true;
    let action = usart_exti25(&mut quiet, RxEvent::Byte(b'h'));
    assert_eq!(action, RxAction::Echo(b'h'));
    assert!(quiet);
    let action = usart_exti25(&mut quiet, RxEvent::Byte(0));
    assert_eq!(action, RxAction::Echo(0));
    assert!(quiet);
}

#[test]
fn each_error_asks_for_its_clear() {
    let mut quiet = false;
    assert_eq!(usart_exti25(&mut quiet, RxEvent::Overrun), RxAction::ClearOverrun);
    assert_eq!(usart_exti25(&mut quiet, RxEvent::Framing), RxAction::ClearFraming);
    assert_eq!(usart_exti25(&mut quiet, RxEvent::Noise), RxAction::ClearNoise);
    assert_eq!(usart_exti25(&mut quiet, RxEvent::OtherError), RxAction::ReportError);
    assert_eq!(usart_exti25(&mut quiet, RxEvent::WouldBlock), RxAction::Nothing);
    assert!(!quiet);
}

#[test]
fn fill_appends_utf8_bytes_in_order() {
    let mut buf = new_buffer();
    fill_with_str(&mut buf, "init...");
    fill_with_str(&mut buf, "\r\n");
    assert_eq!(buffer_bytes(&buf), b"init...\r\n".to_vec());
}
