//! Checks of the envelope-only driver and of the MCP3008 driver's decisions.

use ac_estimator::freq_driver;
use ac_estimator::mcp3008::{
    Channel, Error, Initializing, InitializingOp, Params, ProbeEvent, Probing, ProbingOp,
    ProbingState, Ready, Vdd, Vref,
};
use ac_estimator::Volt;

fn detect_step(
    state: freq_driver::Initializing,
    when: u64,
    value: i64,
) -> freq_driver::Initializing {
    match state.voltage_read(when, Volt(value)) {
        freq_driver::InitializingOp::Idle(next) => next,
    }
}

#[test]
fn envelope_detection_tracks_both_bounds() {
    let freq_driver::Session::Initializing(s) = freq_driver::Session::new();
    assert_eq!(s.state, freq_driver::InitializingState::Bootstrap);
    let s = detect_step(s, 0, 10);
    assert!(matches!(
        s.state,
        freq_driver::InitializingState::RangeDetect { .. }
    ));
    let s = detect_step(s, 10, -20);
    assert!(matches!(
        s.state,
        freq_driver::InitializingState::RangeExpandToMin { .. }
    ));
    let s = detect_step(s, 20, 30);
    assert!(matches!(
        s.state,
        freq_driver::InitializingState::RangeDetect { .. }
    ));
    let s = detect_step(s, 30, 40);
    match s.state {
        freq_driver::InitializingState::RangeExpandToMax { range } => {
            assert_eq!(range.min.value.0, -20);
            assert_eq!(range.max.value.0, 40);
            assert!(range.min.value.0 <= range.max.value.0);
        }
        other => panic!("expected RangeExpandToMax, found {other:?}"),
    }
}

#[test]
fn spi_clock_follows_supply() {
    assert_eq!(Vdd::Positive3v3.spi_clock_hz(), 1_350_000);
    assert_eq!(Vdd::Positive5v.spi_clock_hz(), 3_600_000);
}

#[test]
fn reference_voltage_follows_wiring() {
    let p = Params {
        voltage_drain: Vdd::Positive3v3,
        voltage_ref: Vref::EqualToVdd,
    };
    assert_eq!(p.reference_voltage(), Volt(3_300_000));
    let p = Params {
        voltage_drain: Vdd::Positive5v,
        voltage_ref: Vref::EqualToVdd,
    };
    assert_eq!(p.reference_voltage(), Volt(5_000_000));
    let p = Params {
        voltage_drain: Vdd::Positive5v,
        voltage_ref: Vref::Other {
            voltage: Volt(2_048_000),
        },
    };
    assert_eq!(p.reference_voltage(), Volt(2_048_000));
}

#[test]
fn probe_follows_worker_events() {
    assert!(matches!(
        Initializing {}.probe(ProbeEvent::Initialized),
        Ok(InitializingOp::Ready(_))
    ));
    assert!(matches!(
        Initializing {}.probe(ProbeEvent::Pending),
        Ok(InitializingOp::Idle(_))
    ));
    assert_eq!(
        Initializing {}.probe(ProbeEvent::Fault(Error::SpiInitialize)),
        Err(Error::SpiInitialize)
    );
    assert_eq!(
        Initializing {}.probe(ProbeEvent::Disconnected),
        Err(Error::SpiThreadLost)
    );
}

#[test]
fn probe_channel_encodes_each_channel() {
    let channels = [
        (Channel::Ch0, 0u8),
        (Channel::Ch1, 1),
        (Channel::Ch2, 2),
        (Channel::Ch3, 3),
        (Channel::Ch4, 4),
        (Channel::Ch5, 5),
        (Channel::Ch6, 6),
        (Channel::Ch7, 7),
    ];
    for (channel, expected) in channels {
        let probing = Ready {}.probe_channel(channel);
        assert_eq!(probing.channel_value, expected);
        assert_eq!(probing.state, ProbingState::Request);
    }
}

#[test]
fn poll_keeps_the_probe() {
    let probing = Probing {
        channel_value: 3,
        state: ProbingState::Request,
    };
    match probing.poll() {
        Ok(ProbingOp::Idle(next)) => assert_eq!(next, probing),
        other => panic!("expected idle, found {other:?}"),
    }
}
