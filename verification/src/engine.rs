use vstd::prelude::*;

use crate::descriptor::{LoadShape, TaskDescriptor};

verus! {

/// Milliseconds slept between two clock samples while the start gate holds.
pub const POLL_QUANTUM_MS: u64 = 100;

/// Milliseconds slept between two rate-mode batches.
pub const BATCH_PAUSE_MS: u64 = 1000;

/// Where a run stands. After each step the driver performs the returned
/// action, then feeds the event the new state asks for.
#[derive(Clone, Copy, Debug, PartialEq, Eq, Structural)]
pub enum State {
    /// Nothing has happened yet; asks for a clock sample.
    Init,
    /// Gating on the start instant; asks for a clock sample.
    WaitGate,
    /// Ready to pick the dispatch algorithm; asks for `Go`.
    Dispatch,
    /// A rate-mode batch is in flight; asks for its combined outcome.
    RateAwait,
    /// Pausing between batches; asks for a clock sample taken after the pause.
    RateSleep,
    /// A count-mode request is in flight; on success `left` more follow it.
    CountAwait { left: u64 },
    /// The one request of single mode is in flight; asks for its outcome.
    SingleAwait,
    /// The run is over; `ok` tells graceful completion from fatal failure.
    Done { ok: bool },
}

/// What the driver reports back to the engine.
#[derive(Clone, Copy, Debug, PartialEq, Eq, Structural)]
pub enum Event {
    /// A wall-clock sample, milliseconds since the Unix epoch.
    Now { ms: i64 },
    /// The driver is ready to go on.
    Go,
    /// The request, or the whole batch, in flight has finished; `ok` is false
    /// on any transport failure.
    Fetched { ok: bool },
}

/// What the driver must perform before feeding the next event.
#[derive(Clone, Copy, Debug, PartialEq, Eq, Structural)]
pub enum Action {
    /// Nothing to perform.
    Nothing,
    /// Report how old the descriptor is, in whole seconds; negative when it
    /// was created in the future.
    LogAge { seconds: i64 },
    /// Pause for `ms` milliseconds.
    Sleep { ms: u64 },
    /// Issue `width` concurrent requests against the descriptor's URL and
    /// wait until every one of them has finished.
    IssueBatch { width: u64 },
    /// Issue one request against the descriptor's URL and wait for it.
    IssueRequest,
    /// The run is over; exit successfully exactly when `ok` holds.
    Finish { ok: bool },
}

/// Whole seconds between two instants given in milliseconds, truncated toward
/// zero, as the age report prints them.
pub open spec fn age_seconds_spec(now_ms: int, created_ms: int) -> int {
    let d = now_ms - created_ms;
    if d >= 0 {
        d / 1000
    } else {
        -((-d) / 1000)
    }
}

/// How many sequential requests a count shape issues: the integer quotient,
/// with the remainder discarded.
pub open spec fn count_rounds(n: u64, c: u64) -> int
    recommends
        c >= 1,
{
    n as int / c as int
}

/// The fan-out width of one rate-mode batch.
pub open spec fn batch_width(d: TaskDescriptor) -> u64 {
    match d.load_shape {
        LoadShape::Rate { qps } => qps,
        _ => 1,
    }
}

/// The transition relation of the engine: from a state and the event the
/// driver feeds it, the next state and the action the driver must perform.
/// An event the state does not ask for changes nothing. A failed fetch is
/// fatal in every mode: in rate mode one failed unit poisons its batch and
/// ends the whole run, stated here explicitly rather than by tearing the
/// process down from inside a concurrent unit.
pub open spec fn spec_step(d: TaskDescriptor, s: State, ev: Event) -> (State, Action) {
    match (s, ev) {
        (State::Init, Event::Now { ms }) => {
            let action = match d.created_at {
                Some(created) => Action::LogAge {
                    seconds: age_seconds_spec(ms as int, created as int) as i64,
                },
                None => Action::Nothing,
            };
            (State::WaitGate, action)
        },
        (State::WaitGate, Event::Now { ms }) => {
            match d.start_time {
                Some(start) => {
                    if ms < start {
                        (State::WaitGate, Action::Sleep { ms: POLL_QUANTUM_MS })
                    } else {
                        (State::Dispatch, Action::Nothing)
                    }
                },
                None => (State::Dispatch, Action::Nothing),
            }
        },
        (State::Dispatch, Event::Go) => {
            match d.url {
                None => (State::Done { ok: true }, Action::Finish { ok: true }),
                Some(_) => {
                    match d.load_shape {
                        LoadShape::Rate { qps } => (
                            State::RateAwait,
                            Action::IssueBatch { width: qps },
                        ),
                        LoadShape::Count { n, c } => {
                            let rounds = count_rounds(n, c);
                            if rounds == 0 {
                                (State::Done { ok: true }, Action::Finish { ok: true })
                            } else {
                                (
                                    State::CountAwait { left: (rounds - 1) as u64 },
                                    Action::IssueRequest,
                                )
                            }
                        },
                        LoadShape::Single => (State::SingleAwait, Action::IssueRequest),
                    }
                },
            }
        },
        (State::RateAwait, Event::Fetched { ok }) => {
            if ok {
                (State::RateSleep, Action::Sleep { ms: BATCH_PAUSE_MS })
            } else {
                (State::Done { ok: false }, Action::Finish { ok: false })
            }
        },
        (State::RateSleep, Event::Now { ms }) => {
            match d.end_time {
                Some(end) => {
                    if ms > end {
                        (State::Done { ok: true }, Action::Finish { ok: true })
                    } else {
                        (State::RateAwait, Action::IssueBatch { width: batch_width(d) })
                    }
                },
                None => (State::RateAwait, Action::IssueBatch { width: batch_width(d) }),
            }
        },
        (State::CountAwait { left }, Event::Fetched { ok }) => {
            if !ok {
                (State::Done { ok: false }, Action::Finish { ok: false })
            } else if left == 0 {
                (State::Done { ok: true }, Action::Finish { ok: true })
            } else {
                (State::CountAwait { left: (left - 1) as u64 }, Action::IssueRequest)
            }
        },
        (State::SingleAwait, Event::Fetched { ok }) => (
            State::Done { ok },
            Action::Finish { ok },
        ),
        (State::Done { ok }, _) => (State::Done { ok }, Action::Nothing),
        _ => (s, Action::Nothing),
    }
}

/// Whole seconds from `created_ms` to `now_ms`, truncated toward zero.
pub fn age_seconds(now_ms: i64, created_ms: i64) -> (r: i64)
    ensures
        r as int == age_seconds_spec(now_ms as int, created_ms as int),
{
    let nonneg = now_ms >= created_ms;
    let mag: u128 = if nonneg {
        (now_ms as i128 - created_ms as i128) as u128
    } else {
        (created_ms as i128 - now_ms as i128) as u128
    };
    let q: u128 = mag / 1000;
    if nonneg {
        q as i64
    } else {
        -(q as i64)
    }
}

/// One transition of the engine. The driver performs the returned action,
/// then feeds the event the returned state asks for.
pub fn step(d: &TaskDescriptor, s: State, ev: Event) -> (r: (State, Action))
    requires
        d.wf(),
    ensures
        r == spec_step(*d, s, ev),
{
    match (s, ev) {
        (State::Init, Event::Now { ms }) => {
            let action = match d.created_at {
                Some(created) => Action::LogAge { seconds: age_seconds(ms, created) },
                None => Action::Nothing,
            };
            (State::WaitGate, action)
        },
        (State::WaitGate, Event::Now { ms }) => {
            match d.start_time {
                Some(start) => {
                    if ms < start {
                        (State::WaitGate, Action::Sleep { ms: POLL_QUANTUM_MS })
                    } else {
                        (State::Dispatch, Action::Nothing)
                    }
                },
                None => (State::Dispatch, Action::Nothing),
            }
        },
        (State::Dispatch, Event::Go) => {
            match &d.url {
                None => (State::Done { ok: true }, Action::Finish { ok: true }),
                Some(_) => {
                    match d.load_shape {
                        LoadShape::Rate { qps } => (
                            State::RateAwait,
                            Action::IssueBatch { width: qps },
                        ),
                        LoadShape::Count { n, c } => {
                            let rounds: u64 = n / c;
                            if rounds == 0 {
                                (State::Done { ok: true }, Action::Finish { ok: true })
                            } else {
                                (State::CountAwait { left: rounds - 1 }, Action::IssueRequest)
                            }
                        },
                        LoadShape::Single => (State::SingleAwait, Action::IssueRequest),
                    }
                },
            }
        },
        (State::RateAwait, Event::Fetched { ok }) => {
            if ok {
                (State::RateSleep, Action::Sleep { ms: BATCH_PAUSE_MS })
            } else {
                (State::Done { ok: false }, Action::Finish { ok: false })
            }
        },
        (State::RateSleep, Event::Now { ms }) => {
            let width = match d.load_shape {
                LoadShape::Rate { qps } => qps,
                _ => 1,
            };
            match d.end_time {
                Some(end) => {
                    if ms > end {
                        (State::Done { ok: true }, Action::Finish { ok: true })
                    } else {
                        (State::RateAwait, Action::IssueBatch { width })
                    }
                },
                None => (State::RateAwait, Action::IssueBatch { width }),
            }
        },
        (State::CountAwait { left }, Event::Fetched { ok }) => {
            if !ok {
                (State::Done { ok: false }, Action::Finish { ok: false })
            } else if left == 0 {
                (State::Done { ok: true }, Action::Finish { ok: true })
            } else {
                (State::CountAwait { left: left - 1 }, Action::IssueRequest)
            }
        },
        (State::SingleAwait, Event::Fetched { ok }) => (
            State::Done { ok },
            Action::Finish { ok },
        ),
        (State::Done { ok }, _) => (State::Done { ok }, Action::Nothing),
        _ => (s, Action::Nothing),
    }
}

} // verus!
