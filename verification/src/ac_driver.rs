//! Tick-based frequency and amplitude estimation.
//!
//! A six-state machine ([`TickState`]) consumes one [`Reading`] at a time and
//! classifies each transition as `Reset`, `Idle` or `Tick`; a two-variant
//! session wrapper ([`Session`]) adds a one-tick debounce on acquisition and
//! demotes back to [`Initializing`] on any `Reset`.

use vstd::prelude::*;

use crate::{Hertz, Volt};

verus! {

/// One timestamped voltage sample: `when` is in microseconds on a monotonic
/// clock, `value` in microvolts.
#[derive(Clone, Copy, PartialEq, Eq, Structural, Debug)]
pub struct Reading {
    pub value: Volt,
    pub when: u64,
}

/// The current envelope of the waveform: the readings anchoring its lowest
/// and highest voltage seen so far.
#[derive(Clone, Copy, PartialEq, Eq, Structural, Debug)]
pub struct Range {
    pub min: Reading,
    pub max: Reading,
}

impl Range {
    /// The envelope is well formed when its minimum does not exceed its
    /// maximum.
    pub open spec fn wf(self) -> bool {
        self.min.value.0 <= self.max.value.0
    }

    /// Elapsed time between the two anchor readings, irrespective of which
    /// was taken first.
    pub open spec fn spec_duration(self) -> int {
        if self.min.when < self.max.when {
            self.max.when - self.min.when
        } else {
            self.min.when - self.max.when
        }
    }

    /// Microseconds between the readings anchoring `min` and `max`,
    /// direction-agnostic: the anchors may have been taken in either order.
    pub fn duration(&self) -> (d: u64)
        ensures
            d == self.spec_duration(),
    {
        if self.min.when < self.max.when {
            self.max.when - self.min.when
        } else {
            self.min.when - self.max.when
        }
    }
}

/// Numerator of the frequency formula `0.5 / half_period`, scaled so that a
/// half-period in microseconds yields a frequency in millihertz.
pub const HALF_CYCLE_MILLIHERTZ_DIVIDEND: u64 = 500_000_000;

/// `r` falls strictly below the envelope's current minimum.
pub open spec fn is_new_min(range: Range, r: Reading) -> bool {
    r.value.0 < range.min.value.0
}

/// `r` rises strictly above the envelope's current maximum.
pub open spec fn is_new_max(range: Range, r: Reading) -> bool {
    r.value.0 > range.max.value.0
}

/// The envelope with its minimum anchor replaced by `r`.
pub open spec fn range_with_min(range: Range, r: Reading) -> Range {
    Range { min: r, max: range.max }
}

/// The envelope with its maximum anchor replaced by `r`.
pub open spec fn range_with_max(range: Range, r: Reading) -> Range {
    Range { min: range.min, max: r }
}

/// Frequency, in millihertz, of a waveform whose half-period lasted
/// `half_period_us` microseconds: `0.5 / half_period` cycles per second,
/// rounded down to the nearest millihertz.
pub open spec fn spec_half_cycle_frequency(half_period_us: int) -> Hertz
    recommends
        half_period_us > 0,
{
    Hertz((HALF_CYCLE_MILLIHERTZ_DIVIDEND as int / half_period_us) as u64)
}

/// A rising half-cycle completes at `r`: the time elapsed since the envelope's
/// minimum anchor has reached the previously measured half-period. A
/// zero-duration envelope never fires: it holds no half-period to measure.
pub open spec fn rising_tick_fires(range: Range, r: Reading) -> bool
    recommends
        range.min.when <= r.when,
{
    &&& r.when - range.min.when >= range.spec_duration()
    &&& range.spec_duration() > 0
}

/// A falling half-cycle completes at `r`, measured from the envelope's
/// maximum anchor; the mirror image of [`rising_tick_fires`].
pub open spec fn falling_tick_fires(range: Range, r: Reading) -> bool
    recommends
        range.max.when <= r.when,
{
    &&& r.when - range.max.when >= range.spec_duration()
    &&& range.spec_duration() > 0
}

/// The six states of the tick engine: no envelope yet (`Bootstrap`), first
/// envelope search (`RangeDetect`), then alternating expand and measure
/// phases, one pair per half-cycle direction.
#[derive(Clone, Copy, PartialEq, Eq, Structural, Debug)]
pub enum TickState {
    Bootstrap,
    RangeDetect { range: Range },
    RangeExpandToMin { range: Range },
    PeriodMeasureUp { range: Range },
    RangeExpandToMax { range: Range },
    PeriodMeasureDown { range: Range },
}

/// Classification of one transition of the tick engine. `Reset` voids any
/// timing confidence, `Idle` reports mere progress, and `Tick` carries one
/// completed frequency and amplitude estimate.
#[derive(Clone, Copy, PartialEq, Eq, Structural, Debug)]
pub enum TickStateOp {
    Reset(TickState),
    Idle(TickState),
    Tick { tick_state: TickState, frequency: Hertz, amplitude: Range },
}

/// The state a transition result moves the engine into, whatever its
/// classification.
pub open spec fn op_state(op: TickStateOp) -> TickState {
    match op {
        TickStateOp::Reset(tick_state) => tick_state,
        TickStateOp::Idle(tick_state) => tick_state,
        TickStateOp::Tick { tick_state, .. } => tick_state,
    }
}

/// The transition relation of the tick engine, one reading at a time.
pub open spec fn tick_next(s: TickState, r: Reading) -> TickStateOp {
    match s {
        TickState::Bootstrap => TickStateOp::Reset(
            TickState::RangeDetect { range: Range { min: r, max: r } },
        ),
        TickState::RangeDetect { range } => {
            if is_new_min(range, r) {
                TickStateOp::Idle(TickState::RangeExpandToMin { range: range_with_min(range, r) })
            } else if is_new_max(range, r) {
                TickStateOp::Idle(TickState::RangeExpandToMax { range: range_with_max(range, r) })
            } else {
                TickStateOp::Idle(TickState::RangeDetect { range })
            }
        },
        TickState::RangeExpandToMin { range } => {
            if is_new_min(range, r) {
                TickStateOp::Idle(TickState::RangeExpandToMin { range: range_with_min(range, r) })
            } else if is_new_max(range, r) {
                TickStateOp::Reset(TickState::RangeExpandToMax { range: range_with_max(range, r) })
            } else {
                TickStateOp::Idle(TickState::PeriodMeasureUp { range })
            }
        },
        TickState::PeriodMeasureUp { range } => {
            if is_new_min(range, r) {
                TickStateOp::Idle(TickState::RangeExpandToMin { range: range_with_min(range, r) })
            } else if is_new_max(range, r) {
                TickStateOp::Idle(TickState::PeriodMeasureUp { range: range_with_max(range, r) })
            } else if rising_tick_fires(range, r) {
                TickStateOp::Tick {
                    tick_state: TickState::PeriodMeasureDown { range: range_with_max(range, r) },
                    frequency: spec_half_cycle_frequency(range.spec_duration()),
                    amplitude: range,
                }
            } else {
                TickStateOp::Idle(TickState::PeriodMeasureUp { range })
            }
        },
        TickState::RangeExpandToMax { range } => {
            if is_new_min(range, r) {
                TickStateOp::Reset(TickState::RangeExpandToMin { range: range_with_min(range, r) })
            } else if is_new_max(range, r) {
                TickStateOp::Idle(TickState::RangeExpandToMax { range: range_with_max(range, r) })
            } else {
                TickStateOp::Idle(TickState::PeriodMeasureDown { range })
            }
        },
        TickState::PeriodMeasureDown { range } => {
            if is_new_min(range, r) {
                TickStateOp::Idle(TickState::PeriodMeasureDown { range: range_with_min(range, r) })
            } else if is_new_max(range, r) {
                TickStateOp::Idle(TickState::RangeExpandToMax { range: range_with_max(range, r) })
            } else if falling_tick_fires(range, r) {
                TickStateOp::Tick {
                    tick_state: TickState::PeriodMeasureUp { range: range_with_min(range, r) },
                    frequency: spec_half_cycle_frequency(range.spec_duration()),
                    amplitude: range,
                }
            } else {
                TickStateOp::Idle(TickState::PeriodMeasureDown { range })
            }
        },
    }
}

impl TickState {
    /// The envelope the state carries, if it has one.
    pub open spec fn env(self) -> Option<Range> {
        match self {
            TickState::Bootstrap => None,
            TickState::RangeDetect { range } => Some(range),
            TickState::RangeExpandToMin { range } => Some(range),
            TickState::PeriodMeasureUp { range } => Some(range),
            TickState::RangeExpandToMax { range } => Some(range),
            TickState::PeriodMeasureDown { range } => Some(range),
        }
    }

    /// The state is well formed when its envelope, if any, is.
    pub open spec fn wf(self) -> bool {
        match self.env() {
            Option::None => true,
            Option::Some(range) => range.wf(),
        }
    }

    /// Every reading anchored in the state was taken no later than `t`; what
    /// a state reached by samples up to `t` always satisfies, and what the
    /// next transition needs of an in-order sample taken at `t`.
    pub open spec fn whens_within(self, t: u64) -> bool {
        match self.env() {
            Option::None => true,
            Option::Some(range) => range.min.when <= t && range.max.when <= t,
        }
    }

    /// Consume one reading and classify the transition it causes.
    ///
    /// Callers must feed readings in non-decreasing timestamp order; the
    /// `whens_within` precondition is exactly that, and every transition
    /// re-establishes it for the timestamp just consumed.
    pub fn next(self, reading: Reading) -> (op: TickStateOp)
        requires
            self.wf(),
            self.whens_within(reading.when),
        ensures
            op == tick_next(self, reading),
    {
        match self {
            TickState::Bootstrap => TickStateOp::Reset(
                TickState::RangeDetect { range: Range { min: reading, max: reading } },
            ),
            TickState::RangeDetect { mut range } => {
                if reading.value.0 < range.min.value.0 {
                    range.min = reading;
                    TickStateOp::Idle(TickState::RangeExpandToMin { range })
                } else if reading.value.0 > range.max.value.0 {
                    range.max = reading;
                    TickStateOp::Idle(TickState::RangeExpandToMax { range })
                } else {
                    TickStateOp::Idle(TickState::RangeDetect { range })
                }
            },
            TickState::RangeExpandToMin { mut range } => {
                if reading.value.0 < range.min.value.0 {
                    range.min = reading;
                    TickStateOp::Idle(TickState::RangeExpandToMin { range })
                } else if reading.value.0 > range.max.value.0 {
                    range.max = reading;
                    TickStateOp::Reset(TickState::RangeExpandToMax { range })
                } else {
                    TickStateOp::Idle(TickState::PeriodMeasureUp { range })
                }
            },
            TickState::PeriodMeasureUp { mut range } => {
                if reading.value.0 < range.min.value.0 {
                    range.min = reading;
                    TickStateOp::Idle(TickState::RangeExpandToMin { range })
                } else if reading.value.0 > range.max.value.0 {
                    range.max = reading;
                    TickStateOp::Idle(TickState::PeriodMeasureUp { range })
                } else {
                    let tick_duration = reading.when - range.min.when;
                    let range_duration = range.duration();
                    if tick_duration >= range_duration && range_duration > 0 {
                        let frequency = Hertz(HALF_CYCLE_MILLIHERTZ_DIVIDEND / range_duration);
                        TickStateOp::Tick {
                            tick_state: TickState::PeriodMeasureDown {
                                range: Range { max: reading, ..range },
                            },
                            frequency,
                            amplitude: range,
                        }
                    } else {
                        TickStateOp::Idle(TickState::PeriodMeasureUp { range })
                    }
                }
            },
            TickState::RangeExpandToMax { mut range } => {
                if reading.value.0 < range.min.value.0 {
                    range.min = reading;
                    TickStateOp::Reset(TickState::RangeExpandToMin { range })
                } else if reading.value.0 > range.max.value.0 {
                    range.max = reading;
                    TickStateOp::Idle(TickState::RangeExpandToMax { range })
                } else {
                    TickStateOp::Idle(TickState::PeriodMeasureDown { range })
                }
            },
            TickState::PeriodMeasureDown { mut range } => {
                if reading.value.0 < range.min.value.0 {
                    range.min = reading;
                    TickStateOp::Idle(TickState::PeriodMeasureDown { range })
                } else if reading.value.0 > range.max.value.0 {
                    range.max = reading;
                    TickStateOp::Idle(TickState::RangeExpandToMax { range })
                } else {
                    let tick_duration = reading.when - range.max.when;
                    let range_duration = range.duration();
                    if tick_duration >= range_duration && range_duration > 0 {
                        let frequency = Hertz(HALF_CYCLE_MILLIHERTZ_DIVIDEND / range_duration);
                        TickStateOp::Tick {
                            tick_state: TickState::PeriodMeasureUp {
                                range: Range { min: reading, ..range },
                            },
                            frequency,
                            amplitude: range,
                        }
                    } else {
                        TickStateOp::Idle(TickState::PeriodMeasureDown { range })
                    }
                }
            },
        }
    }
}

/// One completed estimate: the timestamp of the reading that completed the
/// half-cycle, the frequency it implies, and the envelope it was measured on.
/// Replaced wholesale by the next tick, never merged or averaged.
#[derive(Clone, Copy, PartialEq, Eq, Structural, Debug)]
pub struct Values {
    pub taken_at: u64,
    pub frequency: Hertz,
    pub amplitude: Range,
}

/// A per-channel estimation session: `Initializing` until two ticks have
/// been seen, `Estimated` while a carrier is tracked.
pub enum Session {
    Initializing(Initializing),
    Estimated(Estimated),
}

impl Session {
    /// A fresh session: `Initializing`, engine at `Bootstrap`, debounce
    /// flag cleared.
    pub fn new() -> (s: Session)
        ensures
            s == Session::Initializing(
                Initializing { tick_state: TickState::Bootstrap, first_tick_skipped: false },
            ),
    {
        Session::Initializing(Initializing {
            tick_state: TickState::Bootstrap,
            first_tick_skipped: false,
        })
    }
}

// Initializing

/// No carrier acquired yet: the engine is running, and `first_tick_skipped`
/// records whether the one-tick debounce has already swallowed a tick.
pub struct Initializing {
    pub tick_state: TickState,
    pub first_tick_skipped: bool,
}

impl From<Initializing> for Session {
    fn from(state: Initializing) -> (s: Session) {
        Session::Initializing(state)
    }
}

impl vstd::std_specs::convert::FromSpecImpl<Initializing> for Session {
    open spec fn obeys_from_spec() -> bool {
        true
    }

    open spec fn from_spec(state: Initializing) -> Session {
        Session::Initializing(state)
    }
}

impl Initializing {
    /// The session is well formed when its engine state is.
    pub open spec fn wf(self) -> bool {
        self.tick_state.wf()
    }

    /// What one reading does to an initializing session: engine transition
    /// first, then the one-tick debounce — the first tick only sets the flag
    /// and its values are discarded, the second reports carrier-detected.
    pub open spec fn spec_voltage_read(self, when: u64, value: Volt) -> InitializingOp {
        match tick_next(self.tick_state, Reading { value, when }) {
            TickStateOp::Reset(tick_state) => InitializingOp::Idle(
                Initializing { tick_state, first_tick_skipped: self.first_tick_skipped },
            ),
            TickStateOp::Idle(tick_state) => InitializingOp::Idle(
                Initializing { tick_state, first_tick_skipped: self.first_tick_skipped },
            ),
            TickStateOp::Tick { tick_state, frequency, amplitude } => {
                if !self.first_tick_skipped {
                    InitializingOp::Idle(Initializing { tick_state, first_tick_skipped: true })
                } else {
                    InitializingOp::CarrierDetected(Estimated {
                        values: Values { taken_at: when, frequency, amplitude },
                        tick_state,
                    })
                }
            },
        }
    }

    /// Consume one sample while no carrier is acquired.
    pub fn voltage_read(self, when: u64, value: Volt) -> (op: InitializingOp)
        requires
            self.wf(),
            self.tick_state.whens_within(when),
        ensures
            op == self.spec_voltage_read(when, value),
    {
        match self.tick_state.next(Reading { when, value }) {
            TickStateOp::Reset(tick_state) => InitializingOp::Idle(
                Initializing { tick_state, ..self },
            ),
            TickStateOp::Idle(tick_state) => InitializingOp::Idle(
                Initializing { tick_state, ..self },
            ),
            TickStateOp::Tick { tick_state, frequency, amplitude } => {
                if !self.first_tick_skipped {
                    InitializingOp::Idle(Initializing { tick_state, first_tick_skipped: true })
                } else {
                    InitializingOp::CarrierDetected(Estimated {
                        values: Values { taken_at: when, frequency, amplitude },
                        tick_state,
                    })
                }
            },
        }
    }
}

/// Result of feeding an initializing session: still initializing, or the
/// carrier was just acquired.
pub enum InitializingOp {
    Idle(Initializing),
    CarrierDetected(Estimated),
}

// Estimated

/// A carrier is tracked: `values` is the most recently completed estimate,
/// `tick_state` the running engine.
pub struct Estimated {
    pub values: Values,
    pub tick_state: TickState,
}

impl From<Estimated> for Session {
    fn from(state: Estimated) -> (s: Session) {
        Session::Estimated(state)
    }
}

impl vstd::std_specs::convert::FromSpecImpl<Estimated> for Session {
    open spec fn obeys_from_spec() -> bool {
        true
    }

    open spec fn from_spec(state: Estimated) -> Session {
        Session::Estimated(state)
    }
}

impl Estimated {
    /// The session is well formed when its engine state is.
    pub open spec fn wf(self) -> bool {
        self.tick_state.wf()
    }

    /// The most recently completed estimate.
    pub fn values(&self) -> (v: &Values)
        ensures
            *v == self.values,
    {
        &self.values
    }

    /// What one reading does to an estimated session: a `Reset` demotes to
    /// `Initializing` with the debounce cleared (carrier-lost), an `Idle`
    /// keeps the values, a `Tick` replaces them wholesale.
    pub open spec fn spec_voltage_read(self, when: u64, value: Volt) -> EstimatedOp {
        match tick_next(self.tick_state, Reading { value, when }) {
            TickStateOp::Reset(tick_state) => EstimatedOp::CarrierLost(
                Initializing { tick_state, first_tick_skipped: false },
            ),
            TickStateOp::Idle(tick_state) => EstimatedOp::Idle(
                Estimated { values: self.values, tick_state },
            ),
            TickStateOp::Tick { tick_state, frequency, amplitude } => EstimatedOp::Idle(
                Estimated { values: Values { taken_at: when, frequency, amplitude }, tick_state },
            ),
        }
    }

    /// Consume one sample while a carrier is tracked.
    pub fn voltage_read(self, when: u64, value: Volt) -> (op: EstimatedOp)
        requires
            self.wf(),
            self.tick_state.whens_within(when),
        ensures
            op == self.spec_voltage_read(when, value),
    {
        match self.tick_state.next(Reading { when, value }) {
            TickStateOp::Reset(tick_state) => EstimatedOp::CarrierLost(
                Initializing { tick_state, first_tick_skipped: false },
            ),
            TickStateOp::Idle(tick_state) => EstimatedOp::Idle(
                Estimated { values: self.values, tick_state },
            ),
            TickStateOp::Tick { tick_state, frequency, amplitude } => EstimatedOp::Idle(
                Estimated { values: Values { taken_at: when, frequency, amplitude }, tick_state },
            ),
        }
    }
}

/// Result of feeding an estimated session: still tracking, or the carrier
/// was just lost.
pub enum EstimatedOp {
    Idle(Estimated),
    CarrierLost(Initializing),
}

// Laws of the tick engine

/// Law: every transition preserves the envelope invariant
/// `min.value <= max.value`, whatever the reading.
pub proof fn lemma_tick_next_preserves_wf(s: TickState, r: Reading)
    requires
        s.wf(),
    ensures
        op_state(tick_next(s, r)).wf(),
{
}

/// Law: after consuming a reading taken at `r.when`, every anchor held by
/// the next state was taken no later than `r.when`; with samples arriving in
/// non-decreasing timestamp order, each transition's precondition therefore
/// re-establishes the next one's.
pub proof fn lemma_tick_next_whens_within(s: TickState, r: Reading)
    requires
        s.whens_within(r.when),
    ensures
        op_state(tick_next(s, r)).whens_within(r.when),
{
}

/// Law: every emitted tick was measured on an envelope whose anchors are a
/// positive duration apart, and carries exactly the frequency
/// `0.5 / half_period` that this duration implies. No tick comes from a
/// zero-duration envelope.
pub proof fn lemma_tick_frequency(s: TickState, r: Reading)
    ensures
        tick_next(s, r) matches TickStateOp::Tick { frequency, amplitude, .. } ==> {
            &&& amplitude.spec_duration() > 0
            &&& frequency == spec_half_cycle_frequency(amplitude.spec_duration())
        },
{
}

/// Law: a reading that neither extends the envelope nor completes a
/// half-cycle is a fixed point: the engine answers `Idle` and keeps the very
/// same state and envelope. This holds of the searching and measuring
/// states; the expanding states instead move on to their measuring phase on
/// such a reading, and `Bootstrap` has no envelope yet.
pub proof fn lemma_no_op_reading_fixed_point(s: TickState, r: Reading)
    requires
        s is RangeDetect || s is PeriodMeasureUp || s is PeriodMeasureDown,
        s.env() matches Some(range) ==> !is_new_min(range, r) && !is_new_max(range, r),
        s matches TickState::PeriodMeasureUp { range } ==> !rising_tick_fires(range, r),
        s matches TickState::PeriodMeasureDown { range } ==> !falling_tick_fires(range, r),
    ensures
        tick_next(s, r) == TickStateOp::Idle(s),
{
}

// Laws of the session wrapper

/// Law: while the debounce flag is unset — as it is right after `Session::new`
/// and right after a carrier loss — a tick is discarded: it is never reported
/// as carrier-detected, and only sets the flag.
pub proof fn lemma_first_tick_discarded(s: Initializing, when: u64, value: Volt)
    requires
        !s.first_tick_skipped,
    ensures
        !(s.spec_voltage_read(when, value) is CarrierDetected),
        tick_next(s.tick_state, Reading { value, when }) is Tick ==> (
        s.spec_voltage_read(when, value) matches InitializingOp::Idle(n)
            && n.first_tick_skipped),
{
}

/// Law: once the debounce flag is set, the next tick is reported as
/// carrier-detected, carrying exactly the values the engine computed.
pub proof fn lemma_second_tick_reported(s: Initializing, when: u64, value: Volt)
    requires
        s.first_tick_skipped,
        tick_next(s.tick_state, Reading { value, when }) is Tick,
    ensures
        s.spec_voltage_read(when, value) is CarrierDetected,
        tick_next(s.tick_state, Reading { value, when }) matches TickStateOp::Tick {
            tick_state,
            frequency,
            amplitude,
        } ==> s.spec_voltage_read(when, value) == InitializingOp::CarrierDetected(
            Estimated { values: Values { taken_at: when, frequency, amplitude }, tick_state },
        ),
{
}

/// Law: any reset while a carrier is tracked immediately reports
/// carrier-lost, demoting to `Initializing` with the debounce flag cleared.
pub proof fn lemma_reset_while_estimated_demotes(s: Estimated, when: u64, value: Volt)
    requires
        tick_next(s.tick_state, Reading { value, when }) is Reset,
    ensures
        s.spec_voltage_read(when, value) matches EstimatedOp::CarrierLost(n)
            && !n.first_tick_skipped
            && n.tick_state == op_state(tick_next(s.tick_state, Reading { value, when })),
{
}

/// Law: a no-op reading — no new extremum, no completed half-cycle — leaves
/// an estimated session exactly as it was: same variant, same values, same
/// engine state.
pub proof fn lemma_estimated_no_op_fixed_point(s: Estimated, when: u64, value: Volt)
    requires
        s.tick_state is RangeDetect || s.tick_state is PeriodMeasureUp
            || s.tick_state is PeriodMeasureDown,
        s.tick_state.env() matches Some(range)
            ==> !is_new_min(range, Reading { value, when })
                && !is_new_max(range, Reading { value, when }),
        s.tick_state matches TickState::PeriodMeasureUp { range }
            ==> !rising_tick_fires(range, Reading { value, when }),
        s.tick_state matches TickState::PeriodMeasureDown { range }
            ==> !falling_tick_fires(range, Reading { value, when }),
    ensures
        s.spec_voltage_read(when, value) == EstimatedOp::Idle(s),
{
    lemma_no_op_reading_fixed_point(s.tick_state, Reading { value, when });
}

// The session invariant over whole sample sequences

/// The session is well formed when its engine state is.
pub open spec fn session_wf(s: Session) -> bool {
    match s {
        Session::Initializing(st) => st.wf(),
        Session::Estimated(st) => st.wf(),
    }
}

/// Every anchor held by the session was taken no later than `t`.
pub open spec fn session_whens_within(s: Session, t: u64) -> bool {
    match s {
        Session::Initializing(st) => st.tick_state.whens_within(t),
        Session::Estimated(st) => st.tick_state.whens_within(t),
    }
}

/// The session a transition moves into, whatever was reported.
pub open spec fn session_step(s: Session, r: Reading) -> Session {
    match s {
        Session::Initializing(st) => match st.spec_voltage_read(r.when, r.value) {
            InitializingOp::Idle(n) => Session::Initializing(n),
            InitializingOp::CarrierDetected(n) => Session::Estimated(n),
        },
        Session::Estimated(st) => match st.spec_voltage_read(r.when, r.value) {
            EstimatedOp::Idle(n) => Session::Estimated(n),
            EstimatedOp::CarrierLost(n) => Session::Initializing(n),
        },
    }
}

/// The session reached after consuming a whole sample sequence in order.
pub open spec fn session_run(s: Session, rs: Seq<Reading>) -> Session
    decreases rs.len(),
{
    if rs.len() == 0 {
        s
    } else {
        session_run(session_step(s, rs[0]), rs.drop_first())
    }
}

/// The samples are in non-decreasing timestamp order, none earlier than `t`.
pub open spec fn in_order_from(rs: Seq<Reading>, t: u64) -> bool {
    &&& rs.len() > 0 ==> t <= rs[0].when
    &&& forall|i: int| 0 <= i < rs.len() - 1 ==> #[trigger] rs[i].when <= rs[i + 1].when
}

/// The engine state the session currently runs, in either variant.
pub open spec fn session_tick_state(s: Session) -> TickState {
    match s {
        Session::Initializing(st) => st.tick_state,
        Session::Estimated(st) => st.tick_state,
    }
}

/// The transition consuming `r` is classified as a tick.
pub open spec fn step_ticks(s: Session, r: Reading) -> bool {
    tick_next(session_tick_state(s), r) is Tick
}

/// How many transitions along the run over `rs` are classified as ticks.
pub open spec fn session_tick_count(s: Session, rs: Seq<Reading>) -> nat
    decreases rs.len(),
{
    if rs.len() == 0 {
        0
    } else {
        (if step_ticks(s, rs[0]) {
            1nat
        } else {
            0nat
        }) + session_tick_count(session_step(s, rs[0]), rs.drop_first())
    }
}

/// Law: a run over a sequence with one more sample at its end is the run
/// over the sequence followed by one more step.
pub proof fn lemma_session_run_push(s: Session, rs: Seq<Reading>, r: Reading)
    ensures
        session_run(s, rs.push(r)) == session_step(session_run(s, rs), r),
    decreases rs.len(),
{
    if rs.len() == 0 {
        assert(rs.push(r)[0] == r);
        assert(rs.push(r).drop_first() =~= Seq::<Reading>::empty());
        assert(session_run(s, rs.push(r)) == session_run(
            session_step(s, r),
            Seq::<Reading>::empty(),
        ));
        assert(session_run(session_step(s, r), Seq::<Reading>::empty()) == session_step(s, r));
        assert(session_run(s, rs) == s);
    } else {
        let s1 = session_step(s, rs[0]);
        assert(rs.push(r)[0] == rs[0]);
        assert(rs.push(r).drop_first() =~= rs.drop_first().push(r));
        assert(session_run(s, rs.push(r)) == session_run(s1, rs.drop_first().push(r)));
        assert(session_run(s, rs) == session_run(s1, rs.drop_first()));
        lemma_session_run_push(s1, rs.drop_first(), r);
    }
}

/// Law: the debounce over whole runs. From an initializing session, as long
/// as the debounce flag and the tick-classified transitions along the run
/// amount to at most one tick seen, the session is still initializing — no
/// carrier was reported — and its flag records whether that one tick
/// happened. In particular, from a fresh session the first tick along any
/// run is discarded and never reported as carrier-detected.
pub proof fn lemma_first_tick_never_acquires(s: Session, rs: Seq<Reading>)
    requires
        s matches Session::Initializing(st) && session_tick_count(s, rs) + (
        if st.first_tick_skipped {
            1int
        } else {
            0int
        }) <= 1,
    ensures
        session_run(s, rs) matches Session::Initializing(st2) && (st2.first_tick_skipped <==> (
        s->Initializing_0.first_tick_skipped || session_tick_count(s, rs) == 1)),
    decreases rs.len(),
{
    if rs.len() > 0 {
        let r = rs[0];
        let s1 = session_step(s, r);
        lemma_first_tick_never_acquires(s1, rs.drop_first());
    }
}

/// Law: the second tick is reported. If a run from a session with the
/// debounce still clear saw exactly one tick, then the next tick-classified
/// transition acquires the carrier: the session becomes estimated.
pub proof fn lemma_second_tick_acquires(s: Session, rs: Seq<Reading>, r: Reading)
    requires
        s matches Session::Initializing(st) && !st.first_tick_skipped,
        session_tick_count(s, rs) == 1,
        step_ticks(session_run(s, rs), r),
    ensures
        session_run(s, rs.push(r)) is Estimated,
{
    lemma_first_tick_never_acquires(s, rs);
    lemma_session_run_push(s, rs, r);
}

/// Law: one in-order step preserves the session invariants: the envelope
/// stays well formed and every anchor is bounded by the sample just consumed.
pub proof fn lemma_session_step_wf(s: Session, r: Reading)
    requires
        session_wf(s),
        session_whens_within(s, r.when),
    ensures
        session_wf(session_step(s, r)),
        session_whens_within(session_step(s, r), r.when),
{
    match s {
        Session::Initializing(st) => {
            lemma_tick_next_preserves_wf(st.tick_state, r);
            lemma_tick_next_whens_within(st.tick_state, r);
        },
        Session::Estimated(st) => {
            lemma_tick_next_preserves_wf(st.tick_state, r);
            lemma_tick_next_whens_within(st.tick_state, r);
        },
    }
}

/// Law: over any sample sequence fed in non-decreasing timestamp order, the
/// envelope invariant `min.value <= max.value` holds after every transition:
/// the session reached after the whole sequence — and, by instantiating a
/// prefix, after each step — is well formed.
pub proof fn lemma_session_run_preserves_wf(s: Session, rs: Seq<Reading>, t: u64)
    requires
        session_wf(s),
        session_whens_within(s, t),
        in_order_from(rs, t),
    ensures
        session_wf(session_run(s, rs)),
        session_whens_within(session_run(s, rs), if rs.len() == 0 { t } else { rs.last().when }),
    decreases rs.len(),
{
    if rs.len() > 0 {
        let r = rs[0];
        lemma_session_step_wf(s, r);
        let s1 = session_step(s, r);
        let rest = rs.drop_first();
        assert(in_order_from(rest, r.when)) by {
            if rest.len() > 0 {
                assert(rs[0].when <= rs[1].when);
            }
            assert forall|i: int| 0 <= i < rest.len() - 1 implies #[trigger] rest[i].when
                <= rest[i + 1].when by {
                assert(rest[i] == rs[i + 1]);
                assert(rest[i + 1] == rs[i + 2]);
            }
        }
        lemma_session_run_preserves_wf(s1, rest, r.when);
        if rest.len() == 0 {
            assert(rs.last() == r);
        } else {
            assert(rs.last() == rest.last());
        }
    }
}

} // verus!
