//! Driver state machine for the MCP3008 analog-to-digital converter.
//!
//! The converter is reached over SPI from a worker owned by the embedding
//! program; that worker performs the bus I/O and reports back plain events.
//! This module holds what can be decided without touching the bus: the
//! supply-dependent clock rate, the reference voltage, the channel encoding,
//! and the state machine that consumes the worker's events.

use vstd::prelude::*;

use crate::Volt;

verus! {

/// The driver as a whole: one of its three phases.
pub enum Mcp3008 {
    Initializing(Initializing),
    Ready(Ready),
    Probing(Probing),
}

/// How the converter is wired: its supply and its reference input.
#[derive(Clone, Copy, Debug)]
pub struct Params {
    pub voltage_drain: Vdd,
    pub voltage_ref: Vref,
}

/// The converter's supply voltage, which bounds the usable SPI clock rate.
#[derive(Clone, Copy, PartialEq, Eq, Structural, Debug)]
pub enum Vdd {
    Positive3v3,
    Positive5v,
}

/// The converter's reference input: tied to the supply, or driven from an
/// independent source of a known voltage.
#[derive(Clone, Copy, PartialEq, Eq, Structural, Debug)]
pub enum Vref {
    EqualToVdd,
    Other { voltage: Volt },
}

/// One of the converter's eight single-ended input channels.
#[derive(Clone, Copy, PartialEq, Eq, Structural, Debug)]
pub enum Channel {
    Ch0,
    Ch1,
    Ch2,
    Ch3,
    Ch4,
    Ch5,
    Ch6,
    Ch7,
}

/// The driver's failures. Each mirrors a fault of the SPI worker; the
/// embedding program keeps the underlying cause alongside.
#[derive(Clone, Copy, PartialEq, Eq, Structural, Debug)]
pub enum Error {
    SpiThreadSpawn,
    SpiThreadLost,
    SpiInitialize,
    SpiTransferSegments,
}

/// What the SPI worker had to report when last asked: it came up, it failed,
/// it has nothing yet, or it is gone.
#[derive(Clone, Copy, PartialEq, Eq, Structural, Debug)]
pub enum ProbeEvent {
    Initialized,
    Fault(Error),
    Pending,
    Disconnected,
}

impl Vdd {
    /// The fastest SPI clock rate, in hertz, at which the converter still
    /// meets its accuracy figures under this supply voltage.
    pub fn spi_clock_hz(&self) -> (hz: u32)
        ensures
            hz == (match self {
                Vdd::Positive3v3 => 1_350_000u32,
                Vdd::Positive5v => 3_600_000u32,
            }),
    {
        match self {
            Vdd::Positive3v3 => 1_350_000,
            Vdd::Positive5v => 3_600_000,
        }
    }
}

impl Params {
    /// The voltage against which the converter scales its samples: the
    /// supply when the reference input is tied to it, else the independent
    /// source's own voltage.
    pub fn reference_voltage(&self) -> (v: Volt)
        ensures
            v == (match self.voltage_ref {
                Vref::EqualToVdd => match self.voltage_drain {
                    Vdd::Positive3v3 => Volt(3_300_000),
                    Vdd::Positive5v => Volt(5_000_000),
                },
                Vref::Other { voltage } => voltage,
            }),
    {
        match self.voltage_ref {
            Vref::EqualToVdd => match self.voltage_drain {
                Vdd::Positive3v3 => Volt(3_300_000),
                Vdd::Positive5v => Volt(5_000_000),
            },
            Vref::Other { voltage } => voltage,
        }
    }
}

// Initializing

/// Waiting for the SPI worker to come up.
#[derive(Clone, Copy, PartialEq, Eq, Structural, Debug)]
pub struct Initializing {}

impl From<Initializing> for Mcp3008 {
    fn from(state: Initializing) -> (m: Mcp3008) {
        Mcp3008::Initializing(state)
    }
}

impl vstd::std_specs::convert::FromSpecImpl<Initializing> for Mcp3008 {
    open spec fn obeys_from_spec() -> bool {
        true
    }

    open spec fn from_spec(state: Initializing) -> Mcp3008 {
        Mcp3008::Initializing(state)
    }
}

impl Initializing {
    /// Consume what the worker reported: it came up, so the driver is ready;
    /// it reported a fault, which is the driver's failure; nothing yet, so
    /// keep waiting; or it is gone, which is [`Error::SpiThreadLost`].
    pub fn probe(self, event: ProbeEvent) -> (r: Result<InitializingOp, Error>)
        ensures
            r == (match event {
                ProbeEvent::Initialized => Ok::<InitializingOp, Error>(
                    InitializingOp::Ready(Ready {}),
                ),
                ProbeEvent::Fault(error) => Err::<InitializingOp, Error>(error),
                ProbeEvent::Pending => Ok::<InitializingOp, Error>(InitializingOp::Idle(self)),
                ProbeEvent::Disconnected => Err::<InitializingOp, Error>(Error::SpiThreadLost),
            }),
    {
        match event {
            ProbeEvent::Initialized => Ok(InitializingOp::Ready(Ready {})),
            ProbeEvent::Fault(error) => Err(error),
            ProbeEvent::Pending => Ok(InitializingOp::Idle(self)),
            ProbeEvent::Disconnected => Err(Error::SpiThreadLost),
        }
    }
}

/// Result of probing an initializing driver.
#[derive(Clone, Copy, PartialEq, Eq, Structural, Debug)]
pub enum InitializingOp {
    Idle(Initializing),
    Ready(Ready),
}

// Ready

/// The worker is up and no conversion is in flight.
#[derive(Clone, Copy, PartialEq, Eq, Structural, Debug)]
pub struct Ready {}

impl From<Ready> for Mcp3008 {
    fn from(state: Ready) -> (m: Mcp3008) {
        Mcp3008::Ready(state)
    }
}

impl vstd::std_specs::convert::FromSpecImpl<Ready> for Mcp3008 {
    open spec fn obeys_from_spec() -> bool {
        true
    }

    open spec fn from_spec(state: Ready) -> Mcp3008 {
        Mcp3008::Ready(state)
    }
}

impl Channel {
    /// The channel's number as the converter's request frame encodes it.
    pub open spec fn spec_index(self) -> u8 {
        match self {
            Channel::Ch0 => 0,
            Channel::Ch1 => 1,
            Channel::Ch2 => 2,
            Channel::Ch3 => 3,
            Channel::Ch4 => 4,
            Channel::Ch5 => 5,
            Channel::Ch6 => 6,
            Channel::Ch7 => 7,
        }
    }
}

impl Ready {
    /// Start a conversion on `channel`: encode its number and move to the
    /// probing phase, with the request still to be issued.
    pub fn probe_channel(self, channel: Channel) -> (p: Probing)
        ensures
            p == (Probing { channel_value: channel.spec_index(), state: ProbingState::Request }),
    {
        let channel_value: u8 = match channel {
            Channel::Ch0 => 0,
            Channel::Ch1 => 1,
            Channel::Ch2 => 2,
            Channel::Ch3 => 3,
            Channel::Ch4 => 4,
            Channel::Ch5 => 5,
            Channel::Ch6 => 6,
            Channel::Ch7 => 7,
        };
        Probing { channel_value, state: ProbingState::Request }
    }
}

// Probing

/// A conversion in flight on one channel.
#[derive(Clone, Copy, PartialEq, Eq, Structural, Debug)]
pub struct Probing {
    pub channel_value: u8,
    pub state: ProbingState,
}

impl From<Probing> for Mcp3008 {
    fn from(state: Probing) -> (m: Mcp3008) {
        Mcp3008::Probing(state)
    }
}

impl vstd::std_specs::convert::FromSpecImpl<Probing> for Mcp3008 {
    open spec fn obeys_from_spec() -> bool {
        true
    }

    open spec fn from_spec(state: Probing) -> Mcp3008 {
        Mcp3008::Probing(state)
    }
}

/// Progress of the conversion in flight.
#[derive(Clone, Copy, PartialEq, Eq, Structural, Debug)]
pub enum ProbingState {
    Request,
}

impl Probing {
    /// Check on the conversion; the request phase has nothing to collect
    /// yet, so the probe is unchanged.
    pub fn poll(self) -> (r: Result<ProbingOp, Error>)
        ensures
            r == Ok::<ProbingOp, Error>(ProbingOp::Idle(self)),
    {
        Ok(ProbingOp::Idle(self))
    }
}

/// Result of polling a conversion in flight.
#[derive(Clone, Copy, PartialEq, Eq, Structural, Debug)]
pub enum ProbingOp {
    Idle(Probing),
}

} // verus!
