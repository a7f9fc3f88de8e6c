//! The device session: what this side knows of one camera, and how each
//! answer of the device changes it.
//!
//! The device itself is reached by the embedding program. A function here
//! that stands for an operation of the device takes the device's answer as
//! its last argument and says what the operation has come to.

use vstd::prelude::*;
use crate::error::{ErrorKind, Platform, PylonError, PylonErrorView, PylonResult};
use crate::options::{
    command_for, GrabOptions, GrabOptionsView, GrabStrategy, StartCommand, TimeoutHandling,
};
use crate::pylon::Pylon;
use crate::result::GrabResult;

verus! {

/// The number of retrievals that may find nothing, one after the other
/// within one poll, before the poll hands control back to the scheduler.
pub const SPURIOUS_RETRY_LIMIT: u32 = 8;

/// What the device answered to a retrieval.
#[derive(Debug)]
pub enum Retrieval {
    /// A result: a captured frame, or a capture that failed.
    Frame(GrabResult),
    /// Nothing was available within the timeout.
    NoFrame,
    /// The retrieval itself failed.
    Failed(PylonError),
}

/// Where the frame stream of a session stands.
#[derive(Clone, Copy, Debug, PartialEq, Eq, Structural)]
pub enum StreamPhase {
    /// No acquisition runs: every poll ends the stream at once.
    NotGrabbing,
    /// Acquisition runs and no retrieval is under way.
    Idle,
    /// Readiness has fired and the answer to a retrieval is awaited.
    Draining,
}

/// What is to be done to start acquisition.
#[derive(Clone, Copy, Debug, PartialEq, Eq, Structural)]
pub struct StartPlan {
    /// Whether a readiness handle is to be created before the device is asked.
    pub arm_readiness: bool,
    /// The request to the device.
    pub command: StartCommand,
}

/// The bound on the number of retrievals that `command` carries.
pub open spec fn count_of(command: StartCommand) -> Option<u32> {
    match command {
        StartCommand::Continuous => None,
        StartCommand::WithStrategy(_) => None,
        StartCommand::WithCount(count) => Some(count),
        StartCommand::WithCountAndStrategy(count, _) => Some(count),
    }
}

/// The strategy that `command` carries.
pub open spec fn strategy_of(command: StartCommand) -> Option<GrabStrategy> {
    match command {
        StartCommand::Continuous => None,
        StartCommand::WithStrategy(strategy) => Some(strategy),
        StartCommand::WithCount(_) => None,
        StartCommand::WithCountAndStrategy(_, strategy) => Some(strategy),
    }
}

/// The state of a device session.
pub ghost struct Session {
    /// The platform that the session runs on.
    pub platform: Platform,
    /// Whether the device has confirmed that it is open.
    pub open: bool,
    /// Whether acquisition runs.
    pub grabbing: bool,
    /// The number of retrievals after which acquisition stops by itself.
    pub remaining: Option<u32>,
    /// The strategy of the run.
    pub strategy: Option<GrabStrategy>,
    /// Whether a readiness handle is live.
    pub readiness: bool,
    /// Whether the answer to a retrieval of the stream is awaited.
    pub draining: bool,
    /// The number of retrievals of the current poll that found nothing.
    pub spurious: nat,
}

impl Session {
    /// What holds of every session: acquisition runs only on an open device
    /// and with retrievals left, and nothing of a run outlives it.
    pub open spec fn wf(self) -> bool {
        &&& self.grabbing ==> self.open && self.remaining != Some(0u32)
        &&& !self.grabbing ==> {
            &&& self.remaining is None
            &&& self.strategy is None
            &&& !self.readiness
            &&& !self.draining
            &&& self.spurious == 0
        }
        &&& self.spurious < SPURIOUS_RETRY_LIMIT
    }

    /// A session on a device that is not open.
    pub open spec fn closed(platform: Platform) -> Session {
        Session {
            platform,
            open: false,
            grabbing: false,
            remaining: None,
            strategy: None,
            readiness: false,
            draining: false,
            spurious: 0,
        }
    }

    /// The session once its run is over: only the platform, and whether the
    /// device is open, are left.
    pub open spec fn ended(self) -> Session {
        Session { open: self.open, ..Session::closed(self.platform) }
    }

    /// Whether acquisition can start.
    pub open spec fn can_start(self) -> bool {
        self.open && !self.grabbing
    }

    /// The session once the device has started acquisition as `plan` says.
    /// With a bound of zero the run is over as it begins.
    pub open spec fn started(self, plan: StartPlan) -> Session {
        if count_of(plan.command) == Some(0u32) {
            self.ended()
        } else {
            Session {
                grabbing: true,
                remaining: count_of(plan.command),
                strategy: strategy_of(plan.command),
                readiness: self.platform == Platform::Posix && plan.arm_readiness,
                ..self.ended()
            }
        }
    }

    /// The session once one more result has been retrieved: the run is over
    /// where that was the last one of a bounded run.
    pub open spec fn delivered(self) -> Session {
        match self.remaining {
            Some(left) => if left <= 1 {
                self.ended()
            } else {
                Session { remaining: Some((left - 1) as u32), draining: false, spurious: 0, ..self }
            },
            None => Session { draining: false, spurious: 0, ..self },
        }
    }

    /// Where the frame stream stands.
    pub open spec fn phase(self) -> StreamPhase {
        if !self.grabbing {
            StreamPhase::NotGrabbing
        } else if self.draining {
            StreamPhase::Draining
        } else {
            StreamPhase::Idle
        }
    }
}

/// The message of the failure to start acquisition on a device that is not open.
pub open spec fn not_open_failure() -> Seq<char> {
    "Cannot start grabbing: the camera is not open"@
}

/// The message of the failure to start acquisition while it runs.
pub open spec fn already_grabbing_failure() -> Seq<char> {
    "Cannot start grabbing: the camera is already grabbing"@
}

/// The message of the failure to retrieve while no acquisition runs.
pub open spec fn not_grabbing_failure() -> Seq<char> {
    "Cannot retrieve a grab result: the camera is not grabbing"@
}

/// The message of the failure of a retrieval that found nothing in time.
pub open spec fn timeout_failure() -> Seq<char> {
    "Grab timed out: no grab result was available"@
}

/// A failure of the kind of run-time failures with the message `msg`.
pub open spec fn runtime_failure(msg: Seq<char>) -> PylonErrorView {
    PylonErrorView { msg, kind: Some(ErrorKind::RuntimeException) }
}

/// What a request to start acquisition with `options` comes to in the
/// session `s`: a failure where the device is not open or acquisition runs
/// already, otherwise the plan. A readiness handle is planned where the
/// platform has descriptors to wait on and a scheduler is present.
pub open spec fn start_plan_of(s: Session, options: GrabOptionsView, scheduler_present: bool)
    -> Result<StartPlan, PylonErrorView> {
    if !s.open {
        Err(runtime_failure(not_open_failure()))
    } else if s.grabbing {
        Err(runtime_failure(already_grabbing_failure()))
    } else {
        Ok(
            StartPlan {
                arm_readiness: s.platform == Platform::Posix && scheduler_present,
                command: command_for(options),
            },
        )
    }
}

/// The view of a plan or of the failure in its place.
pub open spec fn plan_view(plan: PylonResult<StartPlan>) -> Result<StartPlan, PylonErrorView> {
    match plan {
        Ok(p) => Ok(p),
        Err(e) => Err(e@),
    }
}

/// What a request to stop acquisition comes to in the session `s`, given
/// the device's answer: success where nothing runs, else the answer.
pub open spec fn stopped_of(s: Session, device: PylonResult<()>) -> PylonResult<()> {
    if !s.grabbing {
        Ok(())
    } else {
        device
    }
}

/// The failure of a retrieval that found nothing in time.
pub open spec fn timeout_error() -> PylonErrorView {
    PylonErrorView { msg: timeout_failure(), kind: Some(ErrorKind::TimeoutException) }
}

/// What a retrieval made with `timeout_handling` comes to in the session
/// `s`, given the device's answer: whether a result was retrieved, or the
/// failure.
pub open spec fn retrieved_of(s: Session, timeout_handling: TimeoutHandling, device: Retrieval)
    -> Result<bool, PylonErrorView> {
    if !s.grabbing {
        Err(runtime_failure(not_grabbing_failure()))
    } else {
        match device {
            Retrieval::Frame(_) => Ok(true),
            Retrieval::NoFrame => match timeout_handling {
                TimeoutHandling::Return => Ok(false),
                TimeoutHandling::ThrowException => Err(timeout_error()),
            },
            Retrieval::Failed(e) => Err(e@),
        }
    }
}

/// The view of the outcome of a retrieval.
pub open spec fn outcome_view(outcome: PylonResult<bool>) -> Result<bool, PylonErrorView> {
    match outcome {
        Ok(retrieved) => Ok(retrieved),
        Err(e) => Err(e@),
    }
}

/// Stopping is idempotent: in a session without acquisition a request to
/// stop does not fail, whatever the device answers, and the end of the run
/// changes nothing, so acquisition stays off. A second request to stop after
/// one that succeeded is such a request.
pub proof fn lemma_stop_without_acquisition(s: Session, device: PylonResult<()>)
    requires
        s.wf(),
        !s.grabbing,
    ensures
        stopped_of(s, device) is Ok,
        s.ended() == s,
        !s.ended().grabbing,
        !s.ended().readiness,
{
}

/// Whatever ran before, nothing runs after a request to stop that
/// succeeded.
pub proof fn lemma_stop_ends_the_run(s: Session)
    requires
        s.wf(),
    ensures
        s.ended().wf(),
        !s.ended().grabbing,
        !s.ended().readiness,
        s.ended().open == s.open,
        s.ended().ended() == s.ended(),
{
}

/// A restart begins afresh: the session in which a run has been stopped and
/// another started is the session that a device which has only been opened
/// is in after the same start. Nothing of the earlier run is left in it.
pub proof fn lemma_restart_is_fresh(s: Session, plan: StartPlan)
    requires
        s.wf(),
        s.open,
    ensures
        s.ended().started(plan) == (Session { open: true, ..Session::closed(s.platform) }).started(
            plan,
        ),
        s.ended().started(plan).wf(),
{
}

/// At most one readiness handle is live: a handle is planned only for a
/// session that has none, since acquisition cannot start while it runs.
pub proof fn lemma_one_readiness_handle(
    s: Session,
    options: GrabOptionsView,
    scheduler_present: bool,
)
    requires
        s.wf(),
    ensures
        start_plan_of(s, options, scheduler_present) is Ok <==> s.can_start(),
        start_plan_of(s, options, scheduler_present) is Ok ==> !s.readiness,
{
}

/// One device session.
pub struct InstantCamera<'a> {
    lib: &'a Pylon,
    platform: Platform,
    open: bool,
    grabbing: bool,
    remaining: Option<u32>,
    strategy: Option<GrabStrategy>,
    readiness: bool,
    draining: bool,
    spurious: u32,
}

impl<'a> View for InstantCamera<'a> {
    type V = Session;

    closed spec fn view(&self) -> Session {
        Session {
            platform: self.platform,
            open: self.open,
            grabbing: self.grabbing,
            remaining: self.remaining,
            strategy: self.strategy,
            readiness: self.readiness,
            draining: self.draining,
            spurious: self.spurious as nat,
        }
    }
}

impl<'a> InstantCamera<'a> {
    #[verifier::type_invariant]
    closed spec fn inv(self) -> bool {
        self@.wf()
    }

    /// The SDK scope that the session lives in.
    pub closed spec fn scope(&self) -> &'a Pylon {
        self.lib
    }

    /// A session on a device that is not open yet.
    pub fn new(lib: &'a Pylon, platform: Platform) -> (camera: Self)
        ensures
            camera@ == Session::closed(platform),
            camera.scope() == lib,
            camera@.wf(),
    {
        InstantCamera {
            lib,
            platform,
            open: false,
            grabbing: false,
            remaining: None,
            strategy: None,
            readiness: false,
            draining: false,
            spurious: 0,
        }
    }

    /// The platform that the session runs on.
    pub fn platform(&self) -> (platform: Platform)
        ensures
            platform == self@.platform,
    {
        self.platform
    }

    /// Whether the device has confirmed that it is open.
    pub fn is_open(&self) -> (open: bool)
        ensures
            open == self@.open,
            self@.wf(),
    {
        proof {
            use_type_invariant(self);
        }
        self.open
    }

    /// Whether acquisition runs.
    pub fn is_grabbing(&self) -> (grabbing: bool)
        ensures
            grabbing == self@.grabbing,
            self@.wf(),
    {
        proof {
            use_type_invariant(self);
        }
        self.grabbing
    }

    /// The number of retrievals after which acquisition stops by itself.
    pub fn remaining(&self) -> (left: Option<u32>)
        ensures
            left == self@.remaining,
    {
        self.remaining
    }

    /// The strategy of the run.
    pub fn grab_strategy(&self) -> (strategy: Option<GrabStrategy>)
        ensures
            strategy == self@.strategy,
    {
        self.strategy
    }

    /// Whether a readiness handle is live.
    pub fn has_readiness(&self) -> (live: bool)
        ensures
            live == self@.readiness,
    {
        self.readiness
    }

    /// Where the frame stream stands.
    pub fn phase(&self) -> (phase: StreamPhase)
        ensures
            phase == self@.phase(),
    {
        if !self.grabbing {
            StreamPhase::NotGrabbing
        } else if self.draining {
            StreamPhase::Draining
        } else {
            StreamPhase::Idle
        }
    }

    /// Takes the device's answer to the request to open it: the device is
    /// open once it has confirmed so, and its failure is handed on.
    pub fn open(&mut self, device: PylonResult<()>) -> (outcome: PylonResult<()>)
        ensures
            outcome == device,
            final(self).scope() == old(self).scope(),
            final(self)@ == if device is Ok {
                Session { open: true, ..old(self)@ }
            } else {
                old(self)@
            },
            final(self)@.wf(),
    {
        proof {
            use_type_invariant(&*self);
        }
        if device.is_ok() {
            *self = InstantCamera { open: true, ..*self };
        }
        device
    }

    /// Takes the device's answer to the request to close it: once the device
    /// has confirmed, it is closed and its run, if any, is over. Its failure
    /// is handed on and changes nothing.
    pub fn close(&mut self, device: PylonResult<()>) -> (outcome: PylonResult<()>)
        ensures
            outcome == device,
            final(self).scope() == old(self).scope(),
            final(self)@ == if device is Ok {
                Session::closed(old(self)@.platform)
            } else {
                old(self)@
            },
            final(self)@.wf(),
    {
        proof {
            use_type_invariant(&*self);
        }
        if device.is_ok() {
            *self = InstantCamera::new(self.lib, self.platform);
        }
        device
    }

    /// What a request to start acquisition with `options` comes to, given
    /// whether a scheduler is present.
    pub fn start_plan(&self, options: &GrabOptions, scheduler_present: bool) -> (plan: PylonResult<
        StartPlan,
    >)
        ensures
            plan_view(plan) == start_plan_of(self@, options@, scheduler_present),
    {
        if !self.open {
            Err(
                PylonError::new(
                    "Cannot start grabbing: the camera is not open",
                    ErrorKind::RuntimeException,
                ),
            )
        } else if self.grabbing {
            Err(
                PylonError::new(
                    "Cannot start grabbing: the camera is already grabbing",
                    ErrorKind::RuntimeException,
                ),
            )
        } else {
            Ok(
                StartPlan {
                    arm_readiness: self.platform == Platform::Posix && scheduler_present,
                    command: options.start_command(),
                },
            )
        }
    }

    /// What a request to start acquisition with `options` comes to where it
    /// is made: a readiness handle is planned only where the calling thread
    /// runs inside a scheduler.
    pub fn start_grabbing(&self, options: &GrabOptions) -> (plan: PylonResult<StartPlan>)
        ensures
            plan_view(plan) == start_plan_of(
                self@,
                options@,
                plan matches Ok(p) && p.arm_readiness,
            ),
    {
        let present = scheduler_present();
        self.start_plan(options, present)
    }

    /// Takes the device's answer to the request that `plan` holds. Once the
    /// device has confirmed, acquisition runs as `plan` says. A failure of
    /// the device is handed on; a session in which acquisition cannot start
    /// gives the failure that the plan would have been. Neither changes
    /// anything.
    pub fn grabbing_started(&mut self, plan: StartPlan, device: PylonResult<()>) -> (outcome:
        PylonResult<()>)
        ensures
            final(self).scope() == old(self).scope(),
            final(self)@.wf(),
            device is Err ==> outcome == device && final(self)@ == old(self)@,
            device is Ok && !old(self)@.open ==> {
                &&& outcome matches Err(e) && e@ == runtime_failure(not_open_failure())
                &&& final(self)@ == old(self)@
            },
            device is Ok && old(self)@.open && old(self)@.grabbing ==> {
                &&& outcome matches Err(e) && e@ == runtime_failure(already_grabbing_failure())
                &&& final(self)@ == old(self)@
            },
            device is Ok && old(self)@.can_start() ==> {
                &&& outcome is Ok
                &&& final(self)@ == old(self)@.started(plan)
            },
    {
        proof {
            use_type_invariant(&*self);
        }
        if device.is_err() {
            return device;
        }
        if !self.open {
            return Err(
                PylonError::new(
                    "Cannot start grabbing: the camera is not open",
                    ErrorKind::RuntimeException,
                ),
            );
        }
        if self.grabbing {
            return Err(
                PylonError::new(
                    "Cannot start grabbing: the camera is already grabbing",
                    ErrorKind::RuntimeException,
                ),
            );
        }
        let (count, strategy) = match plan.command {
            StartCommand::Continuous => (None, None),
            StartCommand::WithStrategy(strategy) => (None, Some(strategy)),
            StartCommand::WithCount(count) => (Some(count), None),
            StartCommand::WithCountAndStrategy(count, strategy) => (Some(count), Some(strategy)),
        };
        let over = match count {
            Some(bound) => bound == 0,
            None => false,
        };
        if !over {
            *self = InstantCamera {
                grabbing: true,
                remaining: count,
                strategy,
                readiness: self.platform == Platform::Posix && plan.arm_readiness,
                draining: false,
                spurious: 0,
                ..*self
            };
        }
        Ok(())
    }

    /// Takes the device's answer to the request to stop acquisition.
    ///
    /// Without acquisition there is nothing to stop: the request succeeds
    /// and changes nothing, and the device need not be asked. Otherwise,
    /// once the device has confirmed, the run is over and its readiness
    /// handle is no longer live; a failure of the device is handed on and
    /// changes nothing.
    pub fn stop_grabbing(&mut self, device: PylonResult<()>) -> (outcome: PylonResult<()>)
        ensures
            final(self).scope() == old(self).scope(),
            final(self)@.wf(),
            outcome == stopped_of(old(self)@, device),
            final(self)@ == if outcome is Ok {
                old(self)@.ended()
            } else {
                old(self)@
            },
            !old(self)@.grabbing ==> final(self)@ == old(self)@,
    {
        proof {
            use_type_invariant(&*self);
        }
        if !self.grabbing {
            return Ok(());
        }
        if device.is_ok() {
            self.end_run();
        }
        device
    }

    /// Takes the device's answer to a retrieval made with `timeout_handling`.
    ///
    /// While no acquisition runs a retrieval fails, whatever the device
    /// answered. A result is stored in `grab_result` and counts against the
    /// bound of the run: with the last one the run is over. Where nothing
    /// was available in time the retrieval reports so, or fails with a
    /// timeout, as `timeout_handling` says. A failure of the device is
    /// handed on. Only a result changes the session or `grab_result`.
    pub fn retrieve_result(
        &mut self,
        grab_result: &mut GrabResult,
        timeout_handling: TimeoutHandling,
        device: Retrieval,
    ) -> (outcome: PylonResult<bool>)
        ensures
            final(self).scope() == old(self).scope(),
            final(self)@.wf(),
            outcome_view(outcome) == retrieved_of(old(self)@, timeout_handling, device),
            outcome == Ok::<bool, PylonError>(true) ==> {
                &&& device matches Retrieval::Frame(frame) && *final(grab_result) == frame
                &&& final(self)@ == old(self)@.delivered()
            },
            outcome != Ok::<bool, PylonError>(true) ==> {
                &&& *final(grab_result) == *old(grab_result)
                &&& final(self)@ == old(self)@
            },
            device matches Retrieval::Failed(e) ==> old(self)@.grabbing ==> outcome == Err::<
                bool,
                PylonError,
            >(e),
    {
        proof {
            use_type_invariant(&*self);
        }
        if !self.grabbing {
            return Err(
                PylonError::new(
                    "Cannot retrieve a grab result: the camera is not grabbing",
                    ErrorKind::RuntimeException,
                ),
            );
        }
        match device {
            Retrieval::Frame(frame) => {
                *grab_result = frame;
                self.deliver();
                Ok(true)
            },
            Retrieval::NoFrame => match timeout_handling {
                TimeoutHandling::Return => Ok(false),
                TimeoutHandling::ThrowException => Err(
                    PylonError::new(
                        "Grab timed out: no grab result was available",
                        ErrorKind::TimeoutException,
                    ),
                ),
            },
            Retrieval::Failed(e) => Err(e),
        }
    }

    /// One more result has been retrieved.
    pub(crate) fn deliver(&mut self)
        requires
            old(self)@.grabbing,
        ensures
            final(self).scope() == old(self).scope(),
            final(self)@ == old(self)@.delivered(),
            final(self)@.wf(),
    {
        proof {
            use_type_invariant(&*self);
        }
        match self.remaining {
            Some(left) => {
                if left <= 1 {
                    self.end_run();
                } else {
                    *self = InstantCamera {
                        remaining: Some(left - 1),
                        draining: false,
                        spurious: 0,
                        ..*self
                    };
                }
            },
            None => {
                *self = InstantCamera { draining: false, spurious: 0, ..*self };
            },
        }
    }

    /// Notes where the current poll of the frame stream stands.
    pub(crate) fn note_poll(&mut self, readiness: bool, draining: bool, spurious: u32)
        requires
            old(self)@.grabbing,
            spurious < SPURIOUS_RETRY_LIMIT,
        ensures
            final(self).scope() == old(self).scope(),
            final(self)@ == (Session {
                readiness,
                draining,
                spurious: spurious as nat,
                ..old(self)@
            }),
            final(self)@.wf(),
    {
        proof {
            use_type_invariant(&*self);
        }
        *self = InstantCamera { readiness, draining, spurious, ..*self };
    }

    /// The number of retrievals of the current poll that found nothing.
    pub(crate) fn spurious(&self) -> (spurious: u32)
        ensures
            spurious == self@.spurious,
            spurious < SPURIOUS_RETRY_LIMIT,
    {
        proof {
            use_type_invariant(self);
        }
        self.spurious
    }

    /// The run is over.
    fn end_run(&mut self)
        ensures
            final(self).scope() == old(self).scope(),
            final(self)@ == old(self)@.ended(),
            final(self)@.wf(),
    {
        proof {
            use_type_invariant(&*self);
        }
        *self = InstantCamera {
            grabbing: false,
            remaining: None,
            strategy: None,
            readiness: false,
            draining: false,
            spurious: 0,
            ..*self
        };
    }
}

/// `tokio::runtime::Handle::try_current`: whether the calling thread runs
/// inside a runtime of the scheduler. The answer depends on where the call
/// is made, so nothing is stated of it.
#[verifier::external_body]
fn scheduler_present() -> (present: bool) {
    tokio::runtime::Handle::try_current().is_ok()
}

} // verus!
