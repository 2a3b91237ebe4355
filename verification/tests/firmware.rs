use led_chase::diag::LogEntry;
use led_chase::fault::Fault;
use led_chase::firmware::{Firmware, Phase};
use led_chase::pin::PinLevel;

/// End-to-end: boot, probe, then sixteen timer ticks with none missed. The
/// sequencer advances exactly sixteen positions (two full cycles, back to
/// zero) and the diagnostic channel holds exactly one sanity record and one
/// pair of probe-result records.
#[test]
fn sixteen_ticks_end_to_end() {
    let mut fw = Firmware::power_on();
    assert_eq!(fw.current_phase(), Phase::PowerOn);
    assert_eq!(fw.start(), Ok(()));
    assert_eq!(fw.record_probe(Some(0x1234)), Ok(()));
    assert_eq!(fw.current_phase(), Phase::Running);
    for _ in 0..16 {
        fw.tick();
    }
    assert_eq!(fw.tick_count(), 16);
    assert_eq!(fw.position(), 0);
    assert_eq!(fw.drive_history().len(), 32);
    let log = fw.log();
    assert_eq!(log.len(), 3);
    let sanity = log.iter().filter(|e| matches!(e, LogEntry::Sanity)).count();
    let sent = log
        .iter()
        .filter(|e| matches!(e, LogEntry::ProbeSent { .. }))
        .count();
    let received = log
        .iter()
        .filter(|e| matches!(e, LogEntry::ProbeReceived { .. }))
        .count();
    assert_eq!(sanity, 1);
    assert_eq!(sent, 1);
    assert_eq!(received, 1);
}

/// The probe logs the request word with its byte split before the transfer,
/// and the mocked response with its byte split after it.
#[test]
fn probe_log_words_and_splits() {
    let mut fw = Firmware::power_on();
    assert_eq!(fw.start(), Ok(()));
    assert_eq!(fw.record_probe(Some(0x1234)), Ok(()));
    let log = fw.log();
    assert_eq!(log[0], LogEntry::Sanity);
    assert_eq!(
        log[1],
        LogEntry::ProbeSent { word: 0x8F00, high: 0x8F, low: 0x00 }
    );
    assert_eq!(
        log[2],
        LogEntry::ProbeReceived { word: 0x1234, high: 0x12, low: 0x34 }
    );
}

/// The chip-select line is toggled high, low, high, low during setup,
/// before the transfer.
#[test]
fn chip_select_trace_after_start() {
    let mut fw = Firmware::power_on();
    assert_eq!(fw.chip_select_trace().len(), 0);
    assert_eq!(fw.start(), Ok(()));
    assert_eq!(
        *fw.chip_select_trace(),
        vec![PinLevel::High, PinLevel::Low, PinLevel::High, PinLevel::Low]
    );
}

/// A bus fault on the one-shot transfer is fatal: the request was logged,
/// the response never is.
#[test]
fn probe_bus_fault() {
    let mut fw = Firmware::power_on();
    assert_eq!(fw.start(), Ok(()));
    assert_eq!(fw.record_probe(None), Err(Fault::BusFault));
    let log = fw.log();
    assert_eq!(log.len(), 2);
    assert_eq!(
        log[1],
        LogEntry::ProbeSent { word: 0x8F00, high: 0x8F, low: 0x00 }
    );
    assert_eq!(fw.current_phase(), Phase::ProbePending);
}

/// Claiming the peripheral ownership token a second time is a fatal setup
/// failure; the startup marker is still written first.
#[test]
fn second_start_is_fatal() {
    let mut fw = Firmware::power_on();
    assert_eq!(fw.start(), Ok(()));
    assert_eq!(fw.start(), Err(Fault::PeripheralsAlreadyTaken));
    let log = fw.log();
    assert_eq!(log.len(), 2);
    assert_eq!(log[0], LogEntry::Sanity);
    assert_eq!(log[1], LogEntry::Sanity);
}

/// At power-on every output line is in its unspecified reset state; the
/// first steps then drive them as the chase reaches them.
#[test]
fn lines_unspecified_until_driven() {
    let mut fw = Firmware::power_on();
    assert_eq!(fw.start(), Ok(()));
    assert_eq!(fw.record_probe(Some(0x0000)), Ok(()));
    for i in 0..8 {
        assert_eq!(fw.line(i), None);
    }
    fw.tick();
    assert_eq!(fw.line(0), Some(PinLevel::High));
    assert_eq!(fw.line(4), Some(PinLevel::Low));
    for i in [1usize, 2, 3, 5, 6, 7] {
        assert_eq!(fw.line(i), None);
    }
}
