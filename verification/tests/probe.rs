use led_chase::pin::PinLevel;
use led_chase::probe::{
    cs_pulse_sequence, high_byte, low_byte, probe_request, probe_request_buffer,
    PROBE_REQUEST_WORD, SPI_CLOCK_HZ,
};

/// The request buffer holds exactly the fixed probe word.
#[test]
fn request_buffer_holds_fixed_word() {
    let b = probe_request_buffer();
    assert_eq!(b.len(), 1);
    assert_eq!(b[0], 0x8F00);
    assert_eq!(probe_request(), 0x8F00);
    assert_eq!(PROBE_REQUEST_WORD, 0x8F00);
}

/// Byte splits of the request and of a response word.
#[test]
fn byte_splits() {
    assert_eq!(high_byte(0x8F00), 0x8F);
    assert_eq!(low_byte(0x8F00), 0x00);
    assert_eq!(high_byte(0x1234), 0x12);
    assert_eq!(low_byte(0x1234), 0x34);
    assert_eq!(high_byte(0x0000), 0x00);
    assert_eq!(low_byte(0xFFFF), 0xFF);
    assert_eq!(high_byte(0xFFFF), 0xFF);
}

/// The chip-select sync pulse is exactly high, low, high, low, ending low.
#[test]
fn chip_select_pulse() {
    let s = cs_pulse_sequence();
    assert_eq!(
        s,
        vec![PinLevel::High, PinLevel::Low, PinLevel::High, PinLevel::Low]
    );
    assert_eq!(*s.last().unwrap(), PinLevel::Low);
}

/// The bus rate the probe is configured for.
#[test]
fn bus_clock_rate() {
    assert_eq!(SPI_CLOCK_HZ, 1_000_000);
}
