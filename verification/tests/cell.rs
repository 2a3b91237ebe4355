use led_chase::cell::SharedTimerCell;
use led_chase::fault::Fault;
use led_chase::timer::{PeriodicTimer, TIMER_PERIOD_MS};

/// A handler invocation before the bootstrap stored the timer is the
/// detectable fatal condition; the cell stays empty.
#[test]
fn handler_before_store_is_fatal() {
    let mut c = SharedTimerCell::empty();
    assert_eq!(c.on_timer_interrupt(), Err(Fault::HandlerBeforeStore));
    assert_eq!(c.on_timer_interrupt(), Err(Fault::HandlerBeforeStore));
}

/// The cell transitions from empty to occupied exactly once: after the one
/// store, every handler invocation succeeds and none empties the cell again.
#[test]
fn empty_to_occupied_once() {
    let mut c = SharedTimerCell::empty();
    let mut t = PeriodicTimer::new(TIMER_PERIOD_MS);
    t.enable_update_interrupt();
    t.start();
    c.store(t);
    for _ in 0..16 {
        c.hardware_update();
        assert_eq!(c.on_timer_interrupt(), Ok(()));
    }
}

/// The handler's only effect is acknowledging the update event: the stored
/// timer keeps its period, its interrupt enable and its running state.
#[test]
fn handler_clears_pending_only() {
    let mut t = PeriodicTimer::new(TIMER_PERIOD_MS);
    assert_eq!(t.period_ms, 75);
    assert!(!t.counting);
    t.enable_update_interrupt();
    t.start();
    t.hardware_update();
    assert!(t.update_pending);
    t.clear_update_event();
    assert!(!t.update_pending);
    assert!(t.counting);
    assert!(t.update_irq_enabled);
    assert_eq!(t.period_ms, 75);
}
