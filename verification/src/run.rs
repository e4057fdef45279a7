//! Whole operations: what holds once the session has answered `Finished`,
//! however many answers of the transport it took.

use crate::line::ProtocolError;
use crate::session::{goal_met, Ask, Goal, Phase, PicoGPIO, Reply};
use crate::store::line_feeds;
use crate::values::{PinInput, PinValueRead, PinValueWrite};
use vstd::prelude::*;

verus! {

/// A run of the machine: `states[0]` is the session as the start of an
/// operation left it, and each further state follows from the one before by
/// one step, on `replies[i]` and with the outcome `results[i]`.
pub open spec fn is_run(
    states: Seq<PicoGPIO>,
    replies: Seq<Reply>,
    results: Seq<Result<Ask, ProtocolError>>,
) -> bool {
    &&& states.len() == replies.len() + 1
    &&& results.len() == replies.len()
    &&& forall|i: int| 0 <= i < states.len() ==> (#[trigger] states[i]).wf()
    &&& forall|i: int|
        0 <= i < replies.len() ==> states[i + 1].stepped(
            &states[i],
            replies[i],
            #[trigger] results[i],
        )
}

/// No step of a run changes the goal or the intended table.
pub proof fn lemma_run_keeps_goal_and_intended(
    states: Seq<PicoGPIO>,
    replies: Seq<Reply>,
    results: Seq<Result<Ask, ProtocolError>>,
    k: int,
)
    requires
        is_run(states, replies, results),
        0 <= k < states.len(),
    ensures
        states[k].goal == states[0].goal,
        states[k].tables.intended == states[0].tables.intended,
    decreases k,
{
    if k > 0 {
        lemma_run_keeps_goal_and_intended(states, replies, results, k - 1);
        assert(states[k - 1 + 1].stepped(&states[k - 1], replies[k - 1], results[k - 1]));
    }
}

/// A run that ends in `Finished` has met the goal that it started with: the
/// session is idle, and the confirmed state satisfies the goal.
pub proof fn lemma_finished_run_meets_goal(
    states: Seq<PicoGPIO>,
    replies: Seq<Reply>,
    results: Seq<Result<Ask, ProtocolError>>,
)
    requires
        is_run(states, replies, results),
        replies.len() > 0,
        results.last() == Ok::<Ask, ProtocolError>(Ask::Finished),
    ensures
        states.last().phase == Phase::Idle,
        goal_met(&states.last().tables, states[0].goal),
        states.last().tables.intended == states[0].tables.intended,
{
    let n = replies.len() as int;
    lemma_run_keeps_goal_and_intended(states, replies, results, n);
    assert(states[n - 1 + 1].stepped(&states[n - 1], replies[n - 1], results[n - 1]));
}

/// A blocking write of a digital level that has finished, however the
/// device's answers were spread over the transport, leaves that level as the
/// confirmed state of the pin. A read from the confirmed state, which
/// changes nothing, therefore returns a value that answers the written one,
/// and it is of the kind that a pull-down or pull-up read asks for.
pub proof fn lemma_blocking_write_then_cached_read(
    states: Seq<PicoGPIO>,
    replies: Seq<Reply>,
    results: Seq<Result<Ask, ProtocolError>>,
    pin: usize,
    v: bool,
)
    requires
        is_run(states, replies, results),
        replies.len() > 0,
        states[0].goal == Goal::Written(pin, PinValueWrite::Digital(v)),
        results.last() == Ok::<Ask, ProtocolError>(Ask::Finished),
    ensures
        pin < states.last().tables.actual.pins.len(),
        states.last().tables.actual.pins[pin as int] == PinValueRead::Digital(v),
        states.last().tables.actual.pins[pin as int].spec_matches(PinValueWrite::Digital(v)),
        states.last().tables.actual.pins[pin as int].spec_matches_in(PinInput::PDown),
        states.last().tables.intended == states[0].tables.intended,
{
    lemma_finished_run_meets_goal(states, replies, results);
}

/// A blocking PWM setup that has finished has seen both confirmations,
/// whichever came first.
pub proof fn lemma_blocking_pwm_setup_is_confirmed(
    states: Seq<PicoGPIO>,
    replies: Seq<Reply>,
    results: Seq<Result<Ask, ProtocolError>>,
    freq: u32,
    res: u8,
)
    requires
        is_run(states, replies, results),
        replies.len() > 0,
        states[0].goal == Goal::Pwm(freq, res),
        results.last() == Ok::<Ask, ProtocolError>(Ask::Finished),
    ensures
        states.last().tables.actual.pwmfreq == freq,
        states.last().tables.actual.pwmres == res,
{
    lemma_finished_run_meets_goal(states, replies, results);
}

/// An opening that has finished has seen the device's banner.
pub proof fn lemma_opened_session_is_greeted(
    states: Seq<PicoGPIO>,
    replies: Seq<Reply>,
    results: Seq<Result<Ask, ProtocolError>>,
)
    requires
        is_run(states, replies, results),
        replies.len() > 0,
        states[0].goal == Goal::Greeted,
        results.last() == Ok::<Ask, ProtocolError>(Ask::Finished),
    ensures
        states.last().tables.greeted,
        states.last().phase == Phase::Idle,
{
    lemma_finished_run_meets_goal(states, replies, results);
}

/// While no stream was started, a run keeps the intended PWM resolution
/// that a hand-over has put aside. Giving the hand-over up at any such point
/// therefore puts back the resolution from before it, and the intended
/// frequency and pins were never changed.
pub proof fn lemma_failed_hand_over_keeps_resolution(
    states: Seq<PicoGPIO>,
    replies: Seq<Reply>,
    results: Seq<Result<Ask, ProtocolError>>,
    k: int,
)
    requires
        is_run(states, replies, results),
        0 <= k < states.len(),
        states[k].started is None,
    ensures
        states[k].fallback == states[0].fallback,
        states[k].tables.intended == states[0].tables.intended,
        states[0].started is None,
    decreases k,
{
    if k > 0 {
        assert(states[k - 1 + 1].stepped(&states[k - 1], replies[k - 1], results[k - 1]));
        assert(states[k - 1].wf());
        lemma_failed_hand_over_keeps_resolution(states, replies, results, k - 1);
    }
}

/// While lines are owed, a drain does not end: told that nothing is
/// buffered, it asks for the first byte of the next burst.
pub proof fn lemma_drain_goes_on_while_lines_are_owed(
    pre: &PicoGPIO,
    post: &PicoGPIO,
    buffered: u32,
    r: Result<Ask, ProtocolError>,
)
    requires
        pre.phase == Phase::Polling,
        pre.min_lines > 0,
        post.stepped(pre, Reply::Buffered(buffered), r),
    ensures
        r == Ok::<Ask, ProtocolError>(Ask::ReadByte),
        post.phase == Phase::Heading,
        post.min_lines == pre.min_lines,
        post.tables == pre.tables,
{
}

/// A session in the middle of a plain drain: no goal, no command to follow,
/// no stream to start.
pub open spec fn draining(s: &PicoGPIO) -> bool {
    &&& s.goal == Goal::Nothing
    &&& s.pending is None
    &&& s.handoff is None
    &&& (s.phase == Phase::Polling || s.phase == Phase::Heading || s.phase == Phase::Assembling)
}

/// The lines that one step takes: the line feeds of the burst, where the
/// step brings a burst to its end, and none otherwise.
pub open spec fn lines_of_step(pre: &PicoGPIO, reply: Reply) -> nat {
    match (pre.phase, reply) {
        (Phase::Assembling, Reply::Chunk(v)) => {
            let whole = pre.line@ + v@;
            if whole.len() > 0 && whole.last() == 10 {
                line_feeds(whole)
            } else {
                0
            }
        },
        _ => 0,
    }
}

/// The lines that the first `k` steps of a run take.
pub open spec fn lines_taken(states: Seq<PicoGPIO>, replies: Seq<Reply>, k: int) -> nat
    decreases k,
{
    if k <= 0 {
        0
    } else {
        lines_taken(states, replies, k - 1) + lines_of_step(&states[k - 1], replies[k - 1])
    }
}

/// Throughout a drain, the lines still owed and the lines taken so far make
/// up at least the lines that were asked for, until the drain has ended.
pub proof fn lemma_drain_accounts_for_lines(
    states: Seq<PicoGPIO>,
    replies: Seq<Reply>,
    results: Seq<Result<Ask, ProtocolError>>,
    k: int,
)
    requires
        is_run(states, replies, results),
        0 <= k < states.len(),
        draining(&states[0]),
    ensures
        states[k].phase == Phase::Idle || (draining(&states[k]) && states[k].min_lines
            + lines_taken(states, replies, k) >= states[0].min_lines),
        states[k].goal == Goal::Nothing,
        states[k].pending is None,
        states[k].handoff is None,
    decreases k,
{
    if k > 0 {
        lemma_drain_accounts_for_lines(states, replies, results, k - 1);
        assert(states[k - 1 + 1].stepped(&states[k - 1], replies[k - 1], results[k - 1]));
    }
}

/// A drain that has finished has taken at least the lines that were asked
/// for, and its last step was the transport's word that nothing is
/// buffered.
pub proof fn lemma_finished_drain_took_its_lines(
    states: Seq<PicoGPIO>,
    replies: Seq<Reply>,
    results: Seq<Result<Ask, ProtocolError>>,
)
    requires
        is_run(states, replies, results),
        replies.len() > 0,
        draining(&states[0]),
        results.last() == Ok::<Ask, ProtocolError>(Ask::Finished),
    ensures
        lines_taken(states, replies, replies.len() as int) >= states[0].min_lines,
        replies.last() matches Reply::Buffered(n) && n == 0,
{
    let n = replies.len() as int;
    lemma_drain_accounts_for_lines(states, replies, results, n - 1);
    assert(states[n - 1 + 1].stepped(&states[n - 1], replies[n - 1], results[n - 1]));
}

} // verus!
