//! Step-by-step checks of the tick engine and the session wrapper on
//! hand-computed sample sequences.

use ac_estimator::ac_driver::{
    Estimated, EstimatedOp, Initializing, InitializingOp, Range, Reading, Session, TickState,
};
use ac_estimator::Volt;

fn fresh() -> Initializing {
    match Session::new() {
        Session::Initializing(state) => state,
        Session::Estimated(_) => panic!("a fresh session must be initializing"),
    }
}

fn expect_idle(state: Initializing, when: u64, value: i64) -> Initializing {
    match state.voltage_read(when, Volt(value)) {
        InitializingOp::Idle(next) => next,
        InitializingOp::CarrierDetected(_) => {
            panic!("unexpected carrier at t={when}")
        }
    }
}

fn expect_detected(state: Initializing, when: u64, value: i64) -> Estimated {
    match state.voltage_read(when, Volt(value)) {
        InitializingOp::Idle(_) => panic!("expected carrier-detected at t={when}"),
        InitializingOp::CarrierDetected(next) => next,
    }
}

fn reading(value: i64, when: u64) -> Reading {
    Reading {
        value: Volt(value),
        when,
    }
}

#[test]
fn first_tick_discarded_second_reported() {
    let s = fresh();
    let s = expect_idle(s, 0, 0);
    assert_eq!(
        s.tick_state,
        TickState::RangeDetect {
            range: Range { min: reading(0, 0), max: reading(0, 0) },
        }
    );
    let s = expect_idle(s, 1000, -100);
    let s = expect_idle(s, 2000, -200);
    let s = expect_idle(s, 3000, -150);
    assert_eq!(
        s.tick_state,
        TickState::PeriodMeasureUp {
            range: Range { min: reading(-200, 2000), max: reading(0, 0) },
        }
    );
    assert!(!s.first_tick_skipped);

    // A full half-period has elapsed: the first tick fires here, and must be
    // swallowed by the debounce.
    let s = expect_idle(s, 4000, -150);
    assert!(s.first_tick_skipped);
    assert_eq!(
        s.tick_state,
        TickState::PeriodMeasureDown {
            range: Range { min: reading(-200, 2000), max: reading(-150, 4000) },
        }
    );

    // The second tick is reported, with the exact frequency of a 2000 us
    // half-period: 500_000_000 / 2000 millihertz.
    let est = expect_detected(s, 6000, -175);
    let values = *est.values();
    assert_eq!(values.taken_at, 6000);
    assert_eq!(values.frequency.0, 500_000_000 / 2000);
    assert_eq!(values.frequency.0, 250_000);
    assert_eq!(
        values.amplitude,
        Range { min: reading(-200, 2000), max: reading(-150, 4000) }
    );
}

#[test]
fn carrier_lost_once_then_reacquired() {
    let s = fresh();
    let s = expect_idle(s, 0, 0);
    let s = expect_idle(s, 1000, -100);
    let s = expect_idle(s, 2000, -200);
    let s = expect_idle(s, 3000, -150);
    let s = expect_idle(s, 4000, -150);
    let est = expect_detected(s, 6000, -175);

    // One sample far below every prior minimum only widens the envelope:
    // the session stays estimated for the moment.
    let est = match est.voltage_read(7000, Volt(-1_000_000)) {
        EstimatedOp::Idle(next) => next,
        EstimatedOp::CarrierLost(_) => panic!("widening alone must not lose the carrier"),
    };
    assert_eq!(est.values().taken_at, 6000);

    // The next ordinary sample contradicts the falling direction: reset,
    // carrier lost, debounce cleared.
    let s = match est.voltage_read(8000, Volt(0)) {
        EstimatedOp::Idle(_) => panic!("direction contradiction must lose the carrier"),
        EstimatedOp::CarrierLost(next) => next,
    };
    assert!(!s.first_tick_skipped);

    // Reacquisition takes two fresh ticks: the first is discarded again.
    let s = expect_idle(s, 9000, -100);
    assert!(!s.first_tick_skipped);
    let s = expect_idle(s, 10_000, -100);
    assert!(s.first_tick_skipped);
    let s = expect_idle(s, 11_000, -50);
    let est = expect_detected(s, 12_000, -50);
    assert_eq!(est.values().taken_at, 12_000);
    assert_eq!(est.values().frequency.0, 250_000);
}

#[test]
fn no_op_reading_is_a_fixed_point() {
    // In RangeDetect, a reading inside the envelope changes nothing.
    let s = fresh();
    let s = expect_idle(s, 0, 0);
    let before = s.tick_state;
    let s = expect_idle(s, 50, 0);
    assert_eq!(s.tick_state, before);

    // In PeriodMeasureUp, a reading inside the envelope before the
    // half-period has elapsed changes nothing either.
    let s = expect_idle(s, 1000, -100);
    let s = expect_idle(s, 2000, -200);
    let s = expect_idle(s, 3000, -150);
    let before = s.tick_state;
    assert!(matches!(before, TickState::PeriodMeasureUp { .. }));
    let s = expect_idle(s, 3500, -150);
    assert_eq!(s.tick_state, before);
}

#[test]
fn zero_duration_envelope_never_ticks() {
    // Two samples at the same timestamp leave an envelope whose anchors are
    // zero microseconds apart; however long the signal then sits inside it,
    // no tick may fire.
    let s = fresh();
    let s = expect_idle(s, 0, 0);
    let s = expect_idle(s, 0, -100);
    let s = expect_idle(s, 5, -50);
    assert!(matches!(s.tick_state, TickState::PeriodMeasureUp { .. }));
    let mut s = s;
    for i in 1..50u64 {
        s = expect_idle(s, 10 * i, -50);
        assert!(matches!(s.tick_state, TickState::PeriodMeasureUp { .. }));
        assert!(!s.first_tick_skipped);
    }
}

#[test]
fn envelope_invariant_holds_after_every_transition() {
    // A jagged, drifting sequence; after every step the tracked envelope
    // must satisfy min.value <= max.value.
    let values: [i64; 16] = [
        0, -300, 200, -100, 400, 400, -500, 0, 0, 600, -600, 100, 100, -50, 700, -700,
    ];
    let mut session = Session::new();
    for (i, v) in values.iter().enumerate() {
        let when = 1000 * (i as u64 + 1);
        session = match session {
            Session::Initializing(state) => match state.voltage_read(when, Volt(*v)) {
                InitializingOp::Idle(next) => {
                    check_envelope(&next.tick_state);
                    next.into()
                }
                InitializingOp::CarrierDetected(next) => {
                    check_envelope(&next.tick_state);
                    next.into()
                }
            },
            Session::Estimated(state) => match state.voltage_read(when, Volt(*v)) {
                EstimatedOp::Idle(next) => {
                    check_envelope(&next.tick_state);
                    next.into()
                }
                EstimatedOp::CarrierLost(next) => {
                    check_envelope(&next.tick_state);
                    next.into()
                }
            },
        };
    }
}

fn check_envelope(state: &TickState) {
    let range = match state {
        TickState::Bootstrap => return,
        TickState::RangeDetect { range } => range,
        TickState::RangeExpandToMin { range } => range,
        TickState::PeriodMeasureUp { range } => range,
        TickState::RangeExpandToMax { range } => range,
        TickState::PeriodMeasureDown { range } => range,
    };
    assert!(range.min.value.0 <= range.max.value.0);
}

#[test]
fn duration_is_direction_agnostic() {
    let forward = Range {
        min: reading(-5, 40),
        max: reading(5, 100),
    };
    assert_eq!(forward.duration(), 60);
    let backward = Range {
        min: reading(-5, 100),
        max: reading(5, 40),
    };
    assert_eq!(backward.duration(), 60);
    let together = Range {
        min: reading(-5, 70),
        max: reading(5, 70),
    };
    assert_eq!(together.duration(), 0);
}
