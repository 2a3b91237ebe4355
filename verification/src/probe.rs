use vstd::prelude::*;

use crate::pin::PinLevel;

verus! {

/// The fixed word the startup probe puts on the serial bus.
pub const PROBE_REQUEST_WORD: u16 = 0x8F00;

/// The serial bus clock rate the probe is configured for, in hertz.
pub const SPI_CLOCK_HZ: u32 = 1_000_000;

/// The high byte of a bus word.
pub open spec fn high_of(w: u16) -> u8 {
    (w / 256) as u8
}

/// The low byte of a bus word.
pub open spec fn low_of(w: u16) -> u8 {
    (w % 256) as u8
}

/// The chip-select levels driven before the transfer, oldest first: a
/// high-low-high-low sync pulse, leaving the line low for the transfer.
pub open spec fn cs_pulse_view() -> Seq<PinLevel> {
    seq![PinLevel::High, PinLevel::Low, PinLevel::High, PinLevel::Low]
}

/// The word the probe sends.
pub fn probe_request() -> (w: u16)
    ensures
        w == PROBE_REQUEST_WORD,
{
    PROBE_REQUEST_WORD
}

/// The probe's one-element request buffer, as handed to the bus transfer
/// (which overwrites it in place with the response).
pub fn probe_request_buffer() -> (b: Vec<u16>)
    ensures
        b@ == seq![PROBE_REQUEST_WORD],
{
    let mut b: Vec<u16> = Vec::new();
    b.push(PROBE_REQUEST_WORD);
    b
}

/// The high byte of a bus word, as reported on the diagnostic channel.
pub fn high_byte(w: u16) -> (b: u8)
    ensures
        b == high_of(w),
{
    let b: u8 = (w >> 8) as u8;
    proof {
        assert((w >> 8) as u8 == (w / 256) as u8) by (bit_vector);
    }
    b
}

/// The low byte of a bus word, as reported on the diagnostic channel.
pub fn low_byte(w: u16) -> (b: u8)
    ensures
        b == low_of(w),
{
    let b: u8 = (w & 0x00FF) as u8;
    proof {
        assert((w & 0x00FF) as u8 == (w % 256) as u8) by (bit_vector);
    }
    b
}

/// The chip-select sync pulse, as the sequence of levels to drive in order.
pub fn cs_pulse_sequence() -> (s: Vec<PinLevel>)
    ensures
        s@ == cs_pulse_view(),
{
    let mut s: Vec<PinLevel> = Vec::new();
    s.push(PinLevel::High);
    s.push(PinLevel::Low);
    s.push(PinLevel::High);
    s.push(PinLevel::Low);
    s
}

} // verus!
