//! Polls against a recorded sequence of answers, and what holds of every
//! such run.
//!
//! A script records what the readiness bridge and the device answer, round
//! by round. Running the steps of the frame stream against a script shows
//! what a consumer of the stream receives.

use vstd::prelude::*;
use crate::camera::{Retrieval, Session, StartPlan, SPURIOUS_RETRY_LIMIT, count_of};
use crate::error::Platform;
use crate::result::GrabResult;
use crate::stream::{PollStep, Readiness, after_readiness, after_retrieval, at_rest, poll_begin};

verus! {

/// One round of answers.
pub enum Round {
    /// Nothing is ready.
    Quiet,
    /// Readiness has fired, and the device answers the retrieval so.
    Signal(Retrieval),
}

/// How a run of one or more polls ended.
pub ghost struct PollRun {
    /// The session after the run.
    pub session: Session,
    /// The step that the last poll was over with.
    pub outcome: PollStep,
    /// The rounds that were not asked for.
    pub rest: Seq<Round>,
}

/// What the device answers in the next round of `script`: nothing where no
/// round is left or nothing is ready.
pub open spec fn next_answer(script: Seq<Round>) -> Retrieval {
    if script.len() > 0 && script[0] is Signal {
        script[0]->0
    } else {
        Retrieval::NoFrame
    }
}

/// `script` without its next round.
pub open spec fn later(script: Seq<Round>) -> Seq<Round> {
    if script.len() > 0 {
        script.drop_first()
    } else {
        script
    }
}

/// The rest of a poll whose next step is `step`, against `script`.
pub open spec fn poll_from(s: Session, step: PollStep, script: Seq<Round>) -> PollRun
    decreases script.len(),
{
    match step {
        PollStep::PollReadiness { .. } => {
            if script.len() > 0 && script[0] is Signal {
                let asked = after_readiness(s, Readiness::Ready);
                if asked.1 is Retrieve {
                    let answered = after_retrieval(asked.0, script[0]->0);
                    poll_from(answered.0, answered.1, script.drop_first())
                } else {
                    PollRun { session: asked.0, outcome: asked.1, rest: script }
                }
            } else {
                let asked = after_readiness(s, Readiness::Pending);
                PollRun { session: asked.0, outcome: asked.1, rest: later(script) }
            }
        },
        PollStep::Retrieve { .. } => {
            let answered = after_retrieval(s, next_answer(script));
            if script.len() > 0 {
                poll_from(answered.0, answered.1, script.drop_first())
            } else if answered.1 is PollReadiness {
                let asked = after_readiness(answered.0, Readiness::Pending);
                PollRun { session: asked.0, outcome: asked.1, rest: script }
            } else {
                PollRun { session: answered.0, outcome: answered.1, rest: script }
            }
        },
        _ => PollRun { session: s, outcome: step, rest: script },
    }
}

/// One poll of the session `s` against `script`.
pub open spec fn poll(s: Session, script: Seq<Round>) -> PollRun {
    let begun = poll_begin(s);
    poll_from(begun.0, begun.1, script)
}

/// The polls that follow one another with no wake-up from outside: a poll
/// that yields has woken its own task and is followed by the next.
pub open spec fn settle(s: Session, script: Seq<Round>) -> PollRun
    decreases script.len(),
{
    let run = poll(s, script);
    if run.outcome is Yield && run.rest.len() < script.len() {
        settle(run.session, run.rest)
    } else {
        run
    }
}

/// What a consumer has received after a number of polls.
pub ghost struct StreamRun {
    /// The session after the polls.
    pub session: Session,
    /// The items of the stream, in the order of their arrival.
    pub items: Seq<GrabResult>,
    /// The rounds that were not asked for.
    pub rest: Seq<Round>,
}

/// The item that a poll was over with, if any.
pub open spec fn item_of(outcome: PollStep) -> Seq<GrabResult> {
    match outcome {
        PollStep::Ready(Some(frame)) => seq![frame],
        _ => Seq::empty(),
    }
}

/// `polls` polls of the session `s`, one after the other, against `script`.
pub open spec fn stream_of(s: Session, script: Seq<Round>, polls: nat) -> StreamRun
    decreases polls,
{
    if polls == 0 {
        StreamRun { session: s, items: Seq::empty(), rest: script }
    } else {
        let first = poll(s, script);
        let then = stream_of(first.session, first.rest, (polls - 1) as nat);
        StreamRun {
            session: then.session,
            items: item_of(first.outcome) + then.items,
            rest: then.rest,
        }
    }
}

/// The results that the device hands out in the rounds of `script`.
pub open spec fn frames_in(script: Seq<Round>) -> Seq<GrabResult>
    decreases script.len(),
{
    if script.len() == 0 {
        Seq::empty()
    } else {
        let first = match script[0] {
            Round::Signal(Retrieval::Frame(frame)) => seq![frame],
            _ => Seq::empty(),
        };
        first + frames_in(script.drop_first())
    }
}

/// `n` rounds in which readiness fires and the device has nothing.
pub open spec fn spurious(n: nat) -> Seq<Round> {
    Seq::new(n, |i: int| Round::Signal(Retrieval::NoFrame))
}

/// The rounds in which readiness fires `n` times for nothing, then once for
/// `frame`, followed by `tail`.
pub open spec fn false_alarms_then(n: nat, frame: GrabResult, tail: Seq<Round>) -> Seq<Round> {
    spurious(n) + seq![Round::Signal(Retrieval::Frame(frame))] + tail
}

/// Whether two sessions are at the same point of the same run: what the
/// stream keeps between the rounds of its polls is left aside.
pub open spec fn same_run(a: Session, b: Session) -> bool {
    &&& a.platform == b.platform
    &&& a.open == b.open
    &&& a.grabbing == b.grabbing
    &&& a.remaining == b.remaining
    &&& a.strategy == b.strategy
}

/// The number of results that the run of `s` can still hand out, where it
/// is bounded: none without acquisition.
pub open spec fn quota(s: Session) -> Option<nat> {
    if !s.grabbing {
        Some(0nat)
    } else {
        match s.remaining {
            Some(left) => Some(left as nat),
            None => None,
        }
    }
}

/// Whether a poll is over with `step`.
pub open spec fn is_over(step: PollStep) -> bool {
    step is Ready || step is Pending || step is Yield
}

/// Without acquisition a poll ends the stream at once: nothing is asked of
/// bridge or device, and the session stays as it is.
pub proof fn lemma_poll_without_acquisition(s: Session, script: Seq<Round>)
    requires
        !s.grabbing,
    ensures
        poll(s, script) == (PollRun { session: s, outcome: PollStep::Ready(None), rest: script }),
{
}

proof fn lemma_poll_from(s: Session, step: PollStep, script: Seq<Round>)
    requires
        s.wf(),
        s.grabbing,
        step is PollReadiness || step is Retrieve,
    ensures
        ({
            let run = poll_from(s, step, script);
            &&& run.session.wf()
            &&& is_over(run.outcome)
            &&& run.rest.len() <= script.len()
            &&& frames_in(script) == item_of(run.outcome) + frames_in(run.rest)
            &&& item_of(run.outcome).len() == 1 ==> same_run(run.session, s.delivered())
            &&& item_of(run.outcome).len() != 1 ==> same_run(run.session, s)
        }),
    decreases script.len(),
{
    reveal_with_fuel(poll_from, 2);
    if script.len() > 0 && (step is Retrieve || script[0] is Signal) {
        let asked = if step is PollReadiness {
            after_readiness(s, Readiness::Ready)
        } else {
            (s, step)
        };
        let answered = after_retrieval(asked.0, next_answer(script));
        if answered.1 is PollReadiness {
            lemma_poll_from(answered.0, answered.1, script.drop_first());
        }
    }
}

/// Of one poll: the session stays well formed; the poll is over with an
/// item, the end of the stream, or a wait; it hands out the next result of
/// the device or none, and passes over no result; an item counts once
/// against the bound of the run, and nothing else does.
pub proof fn lemma_poll(s: Session, script: Seq<Round>)
    requires
        s.wf(),
    ensures
        ({
            let run = poll(s, script);
            &&& run.session.wf()
            &&& is_over(run.outcome)
            &&& run.rest.len() <= script.len()
            &&& frames_in(script) == item_of(run.outcome) + frames_in(run.rest)
            &&& item_of(run.outcome).len() == 1 ==> s.grabbing && same_run(
                run.session,
                s.delivered(),
            )
            &&& item_of(run.outcome).len() != 1 ==> same_run(run.session, s)
        }),
{
    if s.grabbing {
        let begun = poll_begin(s);
        lemma_poll_from(begun.0, begun.1, script);
    }
}

/// The stream loses no result and makes none up: what a consumer has
/// received after any number of polls, followed by what the device hands
/// out in the rounds that are left, is what the device hands out in all the
/// rounds, in the same order.
pub proof fn lemma_stream_faithful(s: Session, script: Seq<Round>, polls: nat)
    requires
        s.wf(),
    ensures
        ({
            let run = stream_of(s, script, polls);
            &&& run.session.wf()
            &&& frames_in(script) == run.items + frames_in(run.rest)
        }),
    decreases polls,
{
    if polls > 0 {
        let first = poll(s, script);
        lemma_poll(s, script);
        lemma_stream_faithful(first.session, first.rest, (polls - 1) as nat);
        let then = stream_of(first.session, first.rest, (polls - 1) as nat);
        assert((item_of(first.outcome) + then.items) + frames_in(then.rest) =~= item_of(
            first.outcome,
        ) + (then.items + frames_in(then.rest)));
    }
}

/// A run that is bounded by a count hands out no more items than the count:
/// each item takes one from what is left, nothing else does, and with the
/// last one acquisition is over.
pub proof fn lemma_stream_within_count(s: Session, script: Seq<Round>, polls: nat, left: nat)
    requires
        s.wf(),
        quota(s) == Some(left),
    ensures
        ({
            let run = stream_of(s, script, polls);
            &&& run.items.len() <= left
            &&& quota(run.session) == Some((left - run.items.len()) as nat)
            &&& run.session.grabbing == (run.items.len() < left)
        }),
    decreases polls,
{
    if polls > 0 {
        let first = poll(s, script);
        lemma_poll(s, script);
        let taken = item_of(first.outcome).len();
        lemma_stream_within_count(first.session, first.rest, (polls - 1) as nat, (left - taken) as nat);
    }
}

/// The run that is over with the poll that hands out `frame` and leaves
/// `tail`, reached from the session `s`.
pub open spec fn handed_out(s: Session, frame: GrabResult, tail: Seq<Round>) -> PollRun {
    PollRun { session: s.delivered(), outcome: PollStep::Ready(Some(frame)), rest: tail }
}

/// `run`, followed by the polls that it brings about by itself where it
/// ended with a poll that yields; `before` is the number of rounds that
/// were left when `run` began.
pub open spec fn settle_after(run: PollRun, before: nat) -> PollRun {
    if run.outcome is Yield && run.rest.len() < before {
        settle(run.session, run.rest)
    } else {
        run
    }
}

proof fn lemma_rearm_from(
    s: Session,
    found_nothing: nat,
    rearm: bool,
    n: nat,
    frame: GrabResult,
    tail: Seq<Round>,
    before: nat,
)
    requires
        s.wf(),
        s.grabbing,
        s.platform == Platform::Posix,
        found_nothing < SPURIOUS_RETRY_LIMIT,
        before >= false_alarms_then(n, frame, tail).len(),
    ensures
        settle_after(
            poll_from(
                at_rest(s, found_nothing),
                PollStep::PollReadiness { rearm },
                false_alarms_then(n, frame, tail),
            ),
            before,
        ) == handed_out(s, frame, tail),
    decreases n,
{
    reveal_with_fuel(poll_from, 2);
    let script = false_alarms_then(n, frame, tail);
    if n == 0 {
        assert(script.drop_first() =~= tail);
    } else {
        let rest = false_alarms_then((n - 1) as nat, frame, tail);
        assert(script.drop_first() =~= rest);
        if found_nothing + 1 < SPURIOUS_RETRY_LIMIT {
            lemma_rearm_from(s, found_nothing + 1, true, (n - 1) as nat, frame, tail, before);
        } else {
            lemma_rearm_from(at_rest(s, 0), 0, false, (n - 1) as nat, frame, tail, rest.len());
        }
    }
}

/// Readiness that fires for nothing costs no frame and no wake-up: after
/// any number of rounds in which readiness fires and the device has
/// nothing, the result of the round that follows is handed out, by polls
/// that no one outside has to bring about. The polls between end in a
/// yield, which wakes the task itself; none of them waits.
pub proof fn lemma_rearm(s: Session, n: nat, frame: GrabResult, tail: Seq<Round>)
    requires
        s.wf(),
        s.grabbing,
        s.platform == Platform::Posix,
    ensures
        settle(s, false_alarms_then(n, frame, tail)) == handed_out(s, frame, tail),
{
    lemma_rearm_from(s, 0, false, n, frame, tail, false_alarms_then(n, frame, tail).len());
}

/// The rounds in which readiness fires once for each of `frames`, in order.
pub open spec fn signalled(frames: Seq<GrabResult>) -> Seq<Round> {
    Seq::new(frames.len(), |i: int| Round::Signal(Retrieval::Frame(frames[i])))
}

/// While the device has a result in every round, every poll hands out the
/// next one: as many polls as there are results within the bound of the run
/// hand them all out, in order, and ask for nothing further.
pub proof fn lemma_each_frame_an_item(s: Session, frames: Seq<GrabResult>, tail: Seq<Round>)
    requires
        s.wf(),
        frames.len() > 0 ==> s.grabbing,
        quota(s) matches Some(left) ==> frames.len() <= left,
    ensures
        ({
            let run = stream_of(s, signalled(frames) + tail, frames.len());
            &&& run.items == frames
            &&& run.rest == tail
            &&& run.session.wf()
            &&& quota(s) matches Some(left) ==> quota(run.session) == Some(
                (left - frames.len()) as nat,
            )
            &&& quota(s) is None ==> quota(run.session) is None
        }),
    decreases frames.len(),
{
    let script = signalled(frames) + tail;
    if frames.len() > 0 {
        reveal_with_fuel(poll_from, 2);
        let later_frames = frames.drop_first();
        assert(script.drop_first() =~= signalled(later_frames) + tail);
        lemma_poll(s, script);
        lemma_each_frame_an_item(poll(s, script).session, later_frames, tail);
    }
}

/// Of a run that starts with a bound of `count`: the stream hands out no
/// more than `count` items, acquisition is over as soon as the last of them
/// is handed out and not before, and every poll after that ends the stream.
pub proof fn lemma_count_bounds_stream(
    s: Session,
    plan: StartPlan,
    count: u32,
    script: Seq<Round>,
    polls: nat,
)
    requires
        s.wf(),
        s.can_start(),
        count_of(plan.command) == Some(count),
    ensures
        ({
            let run = stream_of(s.started(plan), script, polls);
            &&& run.items.len() <= count
            &&& run.session.grabbing == (run.items.len() < count)
            &&& run.items.len() == count ==> poll(run.session, run.rest) == (PollRun {
                session: run.session,
                outcome: PollStep::Ready(None),
                rest: run.rest,
            })
        }),
{
    lemma_stream_within_count(s.started(plan), script, polls, count as nat);
}

/// After a restart the stream hands out nothing of the earlier run: what
/// a consumer receives is what it would receive from a device that has only
/// been opened and started in the same way, and every item is a result that
/// the device has handed out since the restart.
pub proof fn lemma_restart_hands_out_nothing_old(
    s: Session,
    plan: StartPlan,
    script: Seq<Round>,
    polls: nat,
)
    requires
        s.wf(),
        s.open,
    ensures
        ({
            let fresh = Session { open: true, ..Session::closed(s.platform) };
            let run = stream_of(s.ended().started(plan), script, polls);
            &&& run == stream_of(fresh.started(plan), script, polls)
            &&& frames_in(script) == run.items + frames_in(run.rest)
        }),
{
    lemma_stream_faithful(s.ended().started(plan), script, polls);
}

} // verus!
