//! Envelope detection alone: a reduced four-state driver that tracks the
//! waveform's range without measuring a period. Its session never leaves the
//! [`Initializing`] variant and classifies every transition as `Idle`.

use vstd::prelude::*;

use crate::ac_driver::{is_new_max, is_new_min, range_with_max, range_with_min, Range, Reading};
use crate::Volt;

verus! {

/// A per-channel envelope-detection session.
pub enum Session {
    Initializing(Initializing),
}

impl Session {
    /// A fresh session, with no envelope yet.
    pub fn new() -> (s: Session)
        ensures
            s == Session::Initializing(Initializing { state: InitializingState::Bootstrap }),
    {
        Session::Initializing(Initializing { state: InitializingState::Bootstrap })
    }
}

// Initializing

/// The session's only variant: envelope detection in progress.
pub struct Initializing {
    pub state: InitializingState,
}

impl From<Initializing> for Session {
    fn from(state: Initializing) -> (s: Session) {
        Session::Initializing(state)
    }
}

impl vstd::std_specs::convert::FromSpecImpl<Initializing> for Session {
    open spec fn obeys_from_spec() -> bool {
        true
    }

    open spec fn from_spec(state: Initializing) -> Session {
        Session::Initializing(state)
    }
}

/// The four states of envelope detection: no envelope yet, searching for the
/// first extremum, or expanding toward one of the two bounds.
#[derive(Clone, Copy, PartialEq, Eq, Structural, Debug)]
pub enum InitializingState {
    Bootstrap,
    RangeDetect { range: Range },
    RangeExpandToMin { range: Range },
    RangeExpandToMax { range: Range },
}

/// The transition relation of envelope detection, one reading at a time.
pub open spec fn detect_next(s: InitializingState, r: Reading) -> InitializingState {
    match s {
        InitializingState::Bootstrap => InitializingState::RangeDetect {
            range: Range { min: r, max: r },
        },
        InitializingState::RangeDetect { range } => {
            if is_new_min(range, r) {
                InitializingState::RangeExpandToMin { range: range_with_min(range, r) }
            } else if is_new_max(range, r) {
                InitializingState::RangeExpandToMax { range: range_with_max(range, r) }
            } else {
                InitializingState::RangeDetect { range }
            }
        },
        InitializingState::RangeExpandToMin { range } => {
            if is_new_min(range, r) {
                InitializingState::RangeExpandToMin { range: range_with_min(range, r) }
            } else if is_new_max(range, r) {
                InitializingState::RangeDetect { range: range_with_max(range, r) }
            } else {
                InitializingState::RangeExpandToMin { range }
            }
        },
        InitializingState::RangeExpandToMax { range } => {
            if is_new_min(range, r) {
                InitializingState::RangeDetect { range: range_with_min(range, r) }
            } else if is_new_max(range, r) {
                InitializingState::RangeExpandToMax { range: range_with_max(range, r) }
            } else {
                InitializingState::RangeExpandToMax { range }
            }
        },
    }
}

impl InitializingState {
    /// The envelope the state carries, if it has one.
    pub open spec fn env(self) -> Option<Range> {
        match self {
            InitializingState::Bootstrap => None,
            InitializingState::RangeDetect { range } => Some(range),
            InitializingState::RangeExpandToMin { range } => Some(range),
            InitializingState::RangeExpandToMax { range } => Some(range),
        }
    }

    /// The state is well formed when its envelope, if any, is.
    pub open spec fn wf(self) -> bool {
        match self.env() {
            Option::None => true,
            Option::Some(range) => range.wf(),
        }
    }
}

impl Initializing {
    /// The session is well formed when its detection state is.
    pub open spec fn wf(self) -> bool {
        self.state.wf()
    }

    /// Consume one sample; every transition is classified `Idle`.
    pub fn voltage_read(self, when: u64, value: Volt) -> (op: InitializingOp)
        requires
            self.wf(),
        ensures
            op == InitializingOp::Idle(
                Initializing { state: detect_next(self.state, Reading { value, when }) },
            ),
    {
        let reading = Reading { when, value };
        match self.state {
            InitializingState::Bootstrap => InitializingOp::Idle(Initializing {
                state: InitializingState::RangeDetect {
                    range: Range { min: reading, max: reading },
                },
            }),
            InitializingState::RangeDetect { mut range } => {
                if reading.value.0 < range.min.value.0 {
                    range.min = reading;
                    InitializingOp::Idle(Initializing {
                        state: InitializingState::RangeExpandToMin { range },
                    })
                } else if reading.value.0 > range.max.value.0 {
                    range.max = reading;
                    InitializingOp::Idle(Initializing {
                        state: InitializingState::RangeExpandToMax { range },
                    })
                } else {
                    InitializingOp::Idle(Initializing {
                        state: InitializingState::RangeDetect { range },
                    })
                }
            },
            InitializingState::RangeExpandToMin { mut range } => {
                if reading.value.0 < range.min.value.0 {
                    range.min = reading;
                    InitializingOp::Idle(Initializing {
                        state: InitializingState::RangeExpandToMin { range },
                    })
                } else if reading.value.0 > range.max.value.0 {
                    range.max = reading;
                    InitializingOp::Idle(Initializing {
                        state: InitializingState::RangeDetect { range },
                    })
                } else {
                    InitializingOp::Idle(Initializing {
                        state: InitializingState::RangeExpandToMin { range },
                    })
                }
            },
            InitializingState::RangeExpandToMax { mut range } => {
                if reading.value.0 < range.min.value.0 {
                    range.min = reading;
                    InitializingOp::Idle(Initializing {
                        state: InitializingState::RangeDetect { range },
                    })
                } else if reading.value.0 > range.max.value.0 {
                    range.max = reading;
                    InitializingOp::Idle(Initializing {
                        state: InitializingState::RangeExpandToMax { range },
                    })
                } else {
                    InitializingOp::Idle(Initializing {
                        state: InitializingState::RangeExpandToMax { range },
                    })
                }
            },
        }
    }
}

/// Result of feeding the envelope-detection session.
pub enum InitializingOp {
    Idle(Initializing),
}

/// Law: envelope detection preserves the invariant `min.value <= max.value`
/// on every transition.
pub proof fn lemma_detect_next_preserves_wf(s: InitializingState, r: Reading)
    requires
        s.wf(),
    ensures
        detect_next(s, r).wf(),
{
}

} // verus!
