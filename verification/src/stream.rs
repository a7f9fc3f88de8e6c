//! The frame stream of a session: a poll, taken apart into the decisions
//! that are made here and the work on the readiness bridge and the device
//! that the embedding program does between them.
//!
//! A poll begins with `poll_next`. Each step says what is to be done next;
//! `readiness_polled` and `result_retrieved` take the answers. The poll is
//! over with a step that is `Ready`, `Pending` or `Yield`.

use vstd::prelude::*;
use crate::camera::{InstantCamera, Retrieval, Session, SPURIOUS_RETRY_LIMIT};
use crate::error::Platform;
use crate::options::TimeoutHandling;
use crate::result::GrabResult;

verus! {

/// What the readiness bridge answered.
#[derive(Clone, Copy, Debug, PartialEq, Eq, Structural)]
pub enum Readiness {
    /// A result may be retrieved without blocking.
    Ready,
    /// Nothing is ready; the task is registered for a wake-up.
    Pending,
}

/// What a poll has come to, or what is to be done for it next.
#[derive(Debug)]
pub enum PollStep {
    /// Ask the readiness bridge, after clearing its ready state where
    /// `rearm` is set, and hand the answer to `readiness_polled`.
    PollReadiness { rearm: bool },
    /// Retrieve from the device, after starting the thread that waits on
    /// the device where `start_waiter` is set, and hand the answer to
    /// `result_retrieved`.
    Retrieve { timeout_ms: u32, timeout_handling: TimeoutHandling, start_waiter: bool },
    /// The poll is over: an item of the stream, or its end.
    Ready(Option<GrabResult>),
    /// The poll is over: the task waits for the wake-up it is registered for.
    Pending,
    /// The poll is over: clear the ready state of the bridge, wake the task
    /// itself, and let others run.
    Yield,
}

/// The retrieval that a poll makes: it does not block and does not fail on
/// finding nothing.
pub open spec fn retrieve_now(start_waiter: bool) -> PollStep {
    PollStep::Retrieve { timeout_ms: 0, timeout_handling: TimeoutHandling::Return, start_waiter }
}

/// The session between two polls, or between two rounds of one poll that
/// has found nothing `spurious` times.
pub open spec fn at_rest(s: Session, spurious: nat) -> Session {
    Session { draining: false, spurious, ..s }
}

/// The first step of a poll.
///
/// Without acquisition the stream is at its end. Otherwise the bridge is
/// asked where the platform has descriptors to wait on; elsewhere the
/// device is tried at once, and the waiting thread is started with the
/// first poll of a run.
pub open spec fn poll_begin(s: Session) -> (Session, PollStep) {
    if !s.grabbing {
        (s, PollStep::Ready(None))
    } else {
        match s.platform {
            Platform::Posix => (at_rest(s, 0), PollStep::PollReadiness { rearm: false }),
            Platform::Windows => (
                Session { readiness: true, draining: true, spurious: 0, ..s },
                retrieve_now(!s.readiness),
            ),
        }
    }
}

/// The step that follows an answer of the readiness bridge.
pub open spec fn after_readiness(s: Session, readiness: Readiness) -> (Session, PollStep) {
    if !s.grabbing {
        (s, PollStep::Ready(None))
    } else {
        match readiness {
            Readiness::Pending => (at_rest(s, 0), PollStep::Pending),
            Readiness::Ready => (Session { draining: true, ..s }, retrieve_now(false)),
        }
    }
}

/// The step that follows an answer of the device to a retrieval.
///
/// A result is an item of the stream, whether the capture succeeded or not,
/// and counts against the bound of the run. A failure of the retrieval ends
/// the stream and is not handed on. Where readiness had fired and nothing
/// was there, the bridge is re-armed and asked again within the same poll,
/// up to the retry limit; at the limit the poll yields. Where a thread
/// waits on the device, the task waits for it.
pub open spec fn after_retrieval(s: Session, device: Retrieval) -> (Session, PollStep) {
    if !s.grabbing {
        (s, PollStep::Ready(None))
    } else {
        match device {
            Retrieval::Frame(frame) => (s.delivered(), PollStep::Ready(Some(frame))),
            Retrieval::Failed(_) => (at_rest(s, 0), PollStep::Ready(None)),
            Retrieval::NoFrame => match s.platform {
                Platform::Windows => (at_rest(s, 0), PollStep::Pending),
                Platform::Posix => if s.spurious + 1 < SPURIOUS_RETRY_LIMIT {
                    (at_rest(s, s.spurious + 1), PollStep::PollReadiness { rearm: true })
                } else {
                    (at_rest(s, 0), PollStep::Yield)
                },
            },
        }
    }
}

/// One wait on the device in a run, and no more: a poll starts the waiting
/// thread only where none waits yet, and from then on one does; no step of
/// a poll makes or drops a readiness handle while the run lasts; and with
/// the run the handle is gone.
pub proof fn lemma_one_wait_in_a_run(s: Session, readiness: Readiness, device: Retrieval)
    requires
        s.wf(),
        s.grabbing,
    ensures
        poll_begin(s).1 matches PollStep::Retrieve { start_waiter, .. } ==> {
            &&& start_waiter == !s.readiness
            &&& poll_begin(s).0.readiness
        },
        poll_begin(s).1 is PollReadiness ==> poll_begin(s).0.readiness == s.readiness,
        after_readiness(s, readiness).0.readiness == s.readiness,
        after_readiness(s, readiness).1 matches PollStep::Retrieve { start_waiter, .. }
            ==> !start_waiter,
        after_retrieval(s, device).0.readiness == (s.readiness && after_retrieval(
            s,
            device,
        ).0.grabbing),
{
}

/// A poll waits only where a wake-up is due: it answers that it waits when
/// the bridge has just registered the task, or when a thread waits on the
/// device; where readiness had fired for nothing it asks the bridge again
/// or yields, and never just waits.
pub proof fn lemma_no_wait_without_wake_up(s: Session, device: Retrieval)
    requires
        s.wf(),
        s.grabbing,
        s.platform == Platform::Posix,
    ensures
        !(after_retrieval(s, device).1 is Pending),
        device is NoFrame ==> after_retrieval(s, device).1 is PollReadiness || after_retrieval(
            s,
            device,
        ).1 is Yield,
        after_retrieval(s, device).1 matches PollStep::PollReadiness { rearm } ==> rearm,
{
}

impl<'a> InstantCamera<'a> {
    /// Begins a poll of the frame stream.
    ///
    /// Where the platform has descriptors to wait on, a stream can be polled
    /// only with a live readiness handle: a run that was started outside a
    /// scheduler has none.
    pub fn poll_next(&mut self) -> (step: PollStep)
        requires
            old(self)@.grabbing && old(self)@.platform == Platform::Posix ==> old(self)@.readiness,
        ensures
            final(self).scope() == old(self).scope(),
            final(self)@.wf(),
            (final(self)@, step) == poll_begin(old(self)@),
    {
        if !self.is_grabbing() {
            return PollStep::Ready(None);
        }
        match self.platform() {
            Platform::Posix => {
                self.note_poll(self.has_readiness(), false, 0);
                PollStep::PollReadiness { rearm: false }
            },
            Platform::Windows => {
                let start_waiter = !self.has_readiness();
                self.note_poll(true, true, 0);
                PollStep::Retrieve {
                    timeout_ms: 0,
                    timeout_handling: TimeoutHandling::Return,
                    start_waiter,
                }
            },
        }
    }

    /// Takes the answer of the readiness bridge.
    pub fn readiness_polled(&mut self, readiness: Readiness) -> (step: PollStep)
        ensures
            final(self).scope() == old(self).scope(),
            final(self)@.wf(),
            (final(self)@, step) == after_readiness(old(self)@, readiness),
    {
        if !self.is_grabbing() {
            return PollStep::Ready(None);
        }
        match readiness {
            Readiness::Pending => {
                self.note_poll(self.has_readiness(), false, 0);
                PollStep::Pending
            },
            Readiness::Ready => {
                self.note_poll(self.has_readiness(), true, self.spurious());
                PollStep::Retrieve {
                    timeout_ms: 0,
                    timeout_handling: TimeoutHandling::Return,
                    start_waiter: false,
                }
            },
        }
    }

    /// Takes the answer of the device to the retrieval of a poll.
    pub fn result_retrieved(&mut self, device: Retrieval) -> (step: PollStep)
        ensures
            final(self).scope() == old(self).scope(),
            final(self)@.wf(),
            (final(self)@, step) == after_retrieval(old(self)@, device),
    {
        if !self.is_grabbing() {
            return PollStep::Ready(None);
        }
        match device {
            Retrieval::Frame(frame) => {
                self.deliver();
                PollStep::Ready(Some(frame))
            },
            Retrieval::Failed(_) => {
                self.note_poll(self.has_readiness(), false, 0);
                PollStep::Ready(None)
            },
            Retrieval::NoFrame => match self.platform() {
                Platform::Windows => {
                    self.note_poll(self.has_readiness(), false, 0);
                    PollStep::Pending
                },
                Platform::Posix => {
                    let found_nothing: u32 = self.spurious() + 1;
                    if found_nothing < SPURIOUS_RETRY_LIMIT {
                        self.note_poll(self.has_readiness(), false, found_nothing);
                        PollStep::PollReadiness { rearm: true }
                    } else {
                        self.note_poll(self.has_readiness(), false, 0);
                        PollStep::Yield
                    }
                },
            },
        }
    }
}

} // verus!
