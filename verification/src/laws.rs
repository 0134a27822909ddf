use vstd::prelude::*;

use crate::descriptor::{LoadShape, TaskDescriptor};
use crate::engine::{spec_step, Action, Event, State, POLL_QUANTUM_MS};

verus! {

/// The state the engine reaches after feeding it the events of `evs` in
/// order, starting from `s`.
pub open spec fn run_states(d: TaskDescriptor, s: State, evs: Seq<Event>) -> State
    decreases evs.len(),
{
    if evs.len() == 0 {
        s
    } else {
        run_states(d, spec_step(d, s, evs[0]).0, evs.drop_first())
    }
}

/// The actions the engine asks for along a run, one per event.
pub open spec fn run_actions(d: TaskDescriptor, s: State, evs: Seq<Event>) -> Seq<Action>
    decreases evs.len(),
{
    if evs.len() == 0 {
        Seq::empty()
    } else {
        seq![spec_step(d, s, evs[0]).1] + run_actions(d, spec_step(d, s, evs[0]).0, evs.drop_first())
    }
}

/// How many requests one action asks the driver to issue.
pub open spec fn action_requests(a: Action) -> nat {
    match a {
        Action::IssueRequest => 1,
        Action::IssueBatch { width } => width as nat,
        _ => 0,
    }
}

/// How many requests a sequence of actions asks for in total.
pub open spec fn requests_of(acts: Seq<Action>) -> nat
    decreases acts.len(),
{
    if acts.len() == 0 {
        0
    } else {
        action_requests(acts[0]) + requests_of(acts.drop_first())
    }
}

/// How many batch fan-outs stand among the actions.
pub open spec fn batches_of(acts: Seq<Action>) -> nat
    decreases acts.len(),
{
    if acts.len() == 0 {
        0
    } else {
        (if acts[0] is IssueBatch {
            1nat
        } else {
            0nat
        }) + batches_of(acts.drop_first())
    }
}

/// No fetch among the events reported a failure.
pub open spec fn all_success(evs: Seq<Event>) -> bool {
    forall|i: int| 0 <= i < evs.len() ==> ((#[trigger] evs[i]) matches Event::Fetched { ok } ==> ok)
}

/// The request total splits over a front action.
proof fn lemma_requests_cons(a: Action, t: Seq<Action>)
    ensures
        requests_of(seq![a] + t) == action_requests(a) + requests_of(t),
{
    let s = seq![a] + t;
    assert(s[0] == a);
    assert(s.drop_first() =~= t);
}

/// The batch total splits over a front action.
proof fn lemma_batches_cons(a: Action, t: Seq<Action>)
    ensures
        batches_of(seq![a] + t) == (if a is IssueBatch {
            1nat
        } else {
            0nat
        }) + batches_of(t),
{
    let s = seq![a] + t;
    assert(s[0] == a);
    assert(s.drop_first() =~= t);
}

/// A finished run stays finished and never asks for another request.
pub proof fn lemma_done_absorbs(d: TaskDescriptor, ok: bool, evs: Seq<Event>)
    ensures
        run_states(d, State::Done { ok }, evs) == (State::Done { ok }),
        requests_of(run_actions(d, State::Done { ok }, evs)) == 0,
    decreases evs.len(),
{
    if evs.len() > 0 {
        lemma_done_absorbs(d, ok, evs.drop_first());
        lemma_requests_cons(
            spec_step(d, State::Done { ok }, evs[0]).1,
            run_actions(d, State::Done { ok }, evs.drop_first()),
        );
    }
}

/// A start time that is not in the future holds nothing up: one clock sample
/// moves the engine from waiting straight to dispatch, with no sleep asked
/// for on the way.
pub proof fn lemma_start_in_past_proceeds(d: TaskDescriptor, now_ms: i64)
    requires
        d.start_time matches Some(start) ==> start <= now_ms,
    ensures
        spec_step(d, State::WaitGate, Event::Now { ms: now_ms }) == (
            State::Dispatch,
            Action::Nothing,
        ),
{
}

/// While every clock sample is earlier than the start time, the engine keeps
/// waiting and never asks for a request; each sample before the start only
/// buys one more bounded sleep.
pub proof fn lemma_gate_holds_before_start(d: TaskDescriptor, start: i64, evs: Seq<Event>)
    requires
        d.start_time == Some(start),
        forall|i: int| 0 <= i < evs.len() ==> ((#[trigger] evs[i]) matches Event::Now { ms }
            ==> ms < start),
    ensures
        run_states(d, State::WaitGate, evs) == State::WaitGate,
        requests_of(run_actions(d, State::WaitGate, evs)) == 0,
    decreases evs.len(),
{
    if evs.len() > 0 {
        let (s1, a0) = spec_step(d, State::WaitGate, evs[0]);
        assert(s1 == State::WaitGate && action_requests(a0) == 0);
        assert forall|i: int| 0 <= i < evs.drop_first().len() implies ((#[trigger] evs.drop_first()[i])
            matches Event::Now { ms } ==> ms < start) by {
            assert(evs.drop_first()[i] == evs[i + 1]);
        }
        lemma_gate_holds_before_start(d, start, evs.drop_first());
        lemma_requests_cons(a0, run_actions(d, s1, evs.drop_first()));
    }
}

/// While every clock sample is earlier than the start time, the only thing
/// the engine ever asks for while waiting is one more quantum-bounded sleep,
/// so dispatch can start at most one polling quantum after the start instant
/// has passed.
pub proof fn lemma_gate_sleeps_are_bounded(d: TaskDescriptor, start: i64, evs: Seq<Event>)
    requires
        d.start_time == Some(start),
        forall|i: int| 0 <= i < evs.len() ==> ((#[trigger] evs[i]) matches Event::Now { ms }
            ==> ms < start),
    ensures
        forall|i: int| 0 <= i < run_actions(d, State::WaitGate, evs).len() ==> ((
        #[trigger] run_actions(d, State::WaitGate, evs)[i]) == (Action::Sleep {
            ms: POLL_QUANTUM_MS,
        }) || run_actions(d, State::WaitGate, evs)[i] == Action::Nothing),
    decreases evs.len(),
{
    if evs.len() > 0 {
        let (s1, a0) = spec_step(d, State::WaitGate, evs[0]);
        assert(s1 == State::WaitGate);
        let rest = evs.drop_first();
        assert forall|i: int| 0 <= i < rest.len() implies ((#[trigger] rest[i])
            matches Event::Now { ms } ==> ms < start) by {
            assert(rest[i] == evs[i + 1]);
        }
        lemma_gate_sleeps_are_bounded(d, start, rest);
        let tail = run_actions(d, s1, rest);
        assert forall|i: int| 0 <= i < run_actions(d, State::WaitGate, evs).len() implies ((
        #[trigger] run_actions(d, State::WaitGate, evs)[i]) == (Action::Sleep {
            ms: POLL_QUANTUM_MS,
        }) || run_actions(d, State::WaitGate, evs)[i] == Action::Nothing) by {
            if i == 0 {
                assert(run_actions(d, State::WaitGate, evs)[0] == a0);
            } else {
                assert(run_actions(d, State::WaitGate, evs)[i] == tail[i - 1]);
            }
        }
    }
}

/// From a pending count-mode request with `left` more to follow it, a run
/// that ends gracefully asks for exactly `left` further requests.
proof fn lemma_count_await_total(d: TaskDescriptor, left: u64, evs: Seq<Event>)
    requires
        run_states(d, State::CountAwait { left }, evs) == (State::Done { ok: true }),
    ensures
        requests_of(run_actions(d, State::CountAwait { left }, evs)) == left,
    decreases evs.len(),
{
    let s = State::CountAwait { left };
    if evs.len() == 0 {
        assert(false);
    } else {
        let (s1, a0) = spec_step(d, s, evs[0]);
        let rest = evs.drop_first();
        lemma_requests_cons(a0, run_actions(d, s1, rest));
        match evs[0] {
            Event::Fetched { ok } => {
                if !ok {
                    lemma_done_absorbs(d, false, rest);
                    assert(false);
                } else if left == 0 {
                    lemma_done_absorbs(d, true, rest);
                } else {
                    lemma_count_await_total(d, (left - 1) as u64, rest);
                }
            },
            _ => {
                lemma_count_await_total(d, left, rest);
            },
        }
    }
}

/// In count mode with a target URL, a run from dispatch that ends gracefully
/// issues exactly `n / c` requests: the quotient is never rounded up, and a
/// run that asked for more could not have ended gracefully.
pub proof fn lemma_count_mode_total(d: TaskDescriptor, evs: Seq<Event>)
    requires
        d.wf(),
        d.url is Some,
        d.load_shape is Count,
        run_states(d, State::Dispatch, evs) == (State::Done { ok: true }),
    ensures
        d.load_shape matches LoadShape::Count { n, c } ==> requests_of(
            run_actions(d, State::Dispatch, evs),
        ) == n as int / c as int,
    decreases evs.len(),
{
    if evs.len() == 0 {
        assert(false);
    } else {
        let (s1, a0) = spec_step(d, State::Dispatch, evs[0]);
        let rest = evs.drop_first();
        lemma_requests_cons(a0, run_actions(d, s1, rest));
        match evs[0] {
            Event::Go => {
                let n = d.load_shape->Count_n;
                let c = d.load_shape->Count_c;
                let rounds = n as int / c as int;
                if rounds == 0 {
                    lemma_done_absorbs(d, true, rest);
                } else {
                    lemma_count_await_total(d, (rounds - 1) as u64, rest);
                }
            },
            _ => {
                lemma_count_mode_total(d, rest);
            },
        }
    }
}

/// From the pending request of single mode, a run that ends gracefully asks
/// for no further request.
proof fn lemma_single_await_total(d: TaskDescriptor, evs: Seq<Event>)
    requires
        run_states(d, State::SingleAwait, evs) == (State::Done { ok: true }),
    ensures
        requests_of(run_actions(d, State::SingleAwait, evs)) == 0,
    decreases evs.len(),
{
    if evs.len() == 0 {
        assert(false);
    } else {
        let (s1, a0) = spec_step(d, State::SingleAwait, evs[0]);
        let rest = evs.drop_first();
        lemma_requests_cons(a0, run_actions(d, s1, rest));
        match evs[0] {
            Event::Fetched { ok } => {
                lemma_done_absorbs(d, ok, rest);
                if !ok {
                    assert(false);
                }
            },
            _ => {
                lemma_single_await_total(d, rest);
            },
        }
    }
}

/// In single mode with a target URL, a run from dispatch that ends gracefully
/// issues exactly one request, whatever the events were: nothing outside the
/// descriptor and the events — no state left behind by earlier runs — can
/// change that.
pub proof fn lemma_single_mode_total(d: TaskDescriptor, evs: Seq<Event>)
    requires
        d.url is Some,
        d.load_shape is Single,
        run_states(d, State::Dispatch, evs) == (State::Done { ok: true }),
    ensures
        requests_of(run_actions(d, State::Dispatch, evs)) == 1,
    decreases evs.len(),
{
    if evs.len() == 0 {
        assert(false);
    } else {
        let (s1, a0) = spec_step(d, State::Dispatch, evs[0]);
        let rest = evs.drop_first();
        lemma_requests_cons(a0, run_actions(d, s1, rest));
        match evs[0] {
            Event::Go => {
                lemma_single_await_total(d, rest);
            },
            _ => {
                lemma_single_mode_total(d, rest);
            },
        }
    }
}

/// An absent URL short-circuits dispatch: the run finishes gracefully at
/// once.
pub proof fn lemma_no_url_finishes(d: TaskDescriptor)
    requires
        d.url is None,
    ensures
        spec_step(d, State::Dispatch, Event::Go) == (
            State::Done { ok: true },
            Action::Finish { ok: true },
        ),
{
}

/// Without a URL the engine never asks for a request, whatever events arrive,
/// from any of the states such a run can be in.
proof fn lemma_no_url_no_requests_from(d: TaskDescriptor, s: State, evs: Seq<Event>)
    requires
        d.url is None,
        s is Init || s is WaitGate || s is Dispatch || s is Done,
    ensures
        requests_of(run_actions(d, s, evs)) == 0,
    decreases evs.len(),
{
    if evs.len() > 0 {
        let (s1, a0) = spec_step(d, s, evs[0]);
        lemma_requests_cons(a0, run_actions(d, s1, evs.drop_first()));
        lemma_no_url_no_requests_from(d, s1, evs.drop_first());
    }
}

/// Without a URL no request is ever issued: a whole run from its very start
/// asks for none, whatever events arrive.
pub proof fn lemma_no_url_no_requests(d: TaskDescriptor, evs: Seq<Event>)
    requires
        d.url is None,
    ensures
        requests_of(run_actions(d, State::Init, evs)) == 0,
{
    lemma_no_url_no_requests_from(d, State::Init, evs);
}

/// Every batch the engine ever asks for in rate mode fans out exactly the
/// configured `qps` requests, from any state and under any events.
pub proof fn lemma_batches_carry_qps(d: TaskDescriptor, s: State, evs: Seq<Event>)
    requires
        d.load_shape is Rate,
    ensures
        forall|i: int| 0 <= i < run_actions(d, s, evs).len() ==> ((#[trigger] run_actions(
            d,
            s,
            evs,
        )[i]) matches Action::IssueBatch { width } ==> width == d.load_shape->Rate_qps),
    decreases evs.len(),
{
    if evs.len() > 0 {
        let (s1, a0) = spec_step(d, s, evs[0]);
        let tail = run_actions(d, s1, evs.drop_first());
        lemma_batches_carry_qps(d, s1, evs.drop_first());
        assert forall|i: int| 0 <= i < run_actions(d, s, evs).len() implies ((
        #[trigger] run_actions(d, s, evs)[i]) matches Action::IssueBatch { width } ==> width
            == d.load_shape->Rate_qps) by {
            if i == 0 {
                assert(run_actions(d, s, evs)[0] == a0);
            } else {
                assert(run_actions(d, s, evs)[i] == tail[i - 1]);
            }
        }
    }
}

/// In rate mode without an end time the run never finishes on its own: as
/// long as every fetch succeeds, the engine keeps cycling between fanning a
/// batch out, awaiting it and pausing, and an outside stop is the only way
/// out.
pub proof fn lemma_rate_mode_never_done(d: TaskDescriptor, s: State, evs: Seq<Event>)
    requires
        d.url is Some,
        d.load_shape is Rate,
        d.end_time is None,
        all_success(evs),
        s is Dispatch || s is RateAwait || s is RateSleep,
    ensures
        !(run_states(d, s, evs) is Done),
    decreases evs.len(),
{
    if evs.len() > 0 {
        let s1 = spec_step(d, s, evs[0]).0;
        assert(s1 is Dispatch || s1 is RateAwait || s1 is RateSleep);
        assert forall|i: int| 0 <= i < evs.drop_first().len() implies ((#[trigger] evs.drop_first()[i])
            matches Event::Fetched { ok } ==> ok) by {
            assert(evs.drop_first()[i] == evs[i + 1]);
        }
        lemma_rate_mode_never_done(d, s1, evs.drop_first());
    }
}

/// Rate mode always fans its first batch out before any end-time check:
/// dispatch asks for a full batch at once, so even an end time that has
/// already passed stops the loop only after one batch has run.
pub proof fn lemma_rate_first_batch(d: TaskDescriptor)
    requires
        d.url is Some,
        d.load_shape is Rate,
    ensures
        spec_step(d, State::Dispatch, Event::Go) == (
            State::RateAwait,
            Action::IssueBatch { width: d.load_shape->Rate_qps },
        ),
{
}

/// Once the pause after a batch is over and the clock stands past the end
/// time, the run finishes gracefully; the check fires only between batches.
pub proof fn lemma_rate_ends_after_end_time(d: TaskDescriptor, now_ms: i64)
    requires
        d.end_time matches Some(end) && now_ms > end,
    ensures
        spec_step(d, State::RateSleep, Event::Now { ms: now_ms }) == (
            State::Done { ok: true },
            Action::Finish { ok: true },
        ),
{
}

/// A rate-mode run that reached its end has fanned out at least one batch.
pub proof fn lemma_rate_run_has_a_batch(d: TaskDescriptor, evs: Seq<Event>)
    requires
        d.url is Some,
        d.load_shape is Rate,
        run_states(d, State::Dispatch, evs) is Done,
    ensures
        batches_of(run_actions(d, State::Dispatch, evs)) >= 1,
    decreases evs.len(),
{
    if evs.len() == 0 {
        assert(false);
    } else {
        let (s1, a0) = spec_step(d, State::Dispatch, evs[0]);
        let rest = evs.drop_first();
        lemma_batches_cons(a0, run_actions(d, s1, rest));
        match evs[0] {
            Event::Go => {
                assert(a0 is IssueBatch);
            },
            _ => {
                lemma_rate_run_has_a_batch(d, rest);
            },
        }
    }
}

} // verus!

