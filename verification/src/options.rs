//! What a caller asks for when acquisition starts, and the way in which a
//! retrieval that finds nothing in time is to end.

use vstd::prelude::*;

verus! {

/// Which buffered frame a retrieval hands out when several are pending.
#[derive(Clone, Copy, Debug, PartialEq, Eq, Structural)]
pub enum GrabStrategy {
    /// Frames in the order of their arrival, none dropped.
    OneByOne,
    /// A single slot that every new frame overwrites.
    LatestImageOnly,
    /// A bounded queue that drops its oldest frame on overflow.
    LatestImages,
    /// Only a frame whose capture begins after the request.
    UpcomingImage,
}

/// What a retrieval does when its timeout elapses with nothing available.
#[derive(Clone, Copy, Debug, PartialEq, Eq, Structural)]
pub enum TimeoutHandling {
    /// It reports that nothing was retrieved.
    Return,
    /// It fails with a timeout.
    ThrowException,
}

/// Options passed to `start_grabbing`.
#[derive(Clone, Copy, Debug)]
pub struct GrabOptions {
    pub(crate) count: Option<u32>,
    pub(crate) strategy: Option<GrabStrategy>,
}

/// What a `GrabOptions` holds: the bound on the number of retrievals after
/// which acquisition stops by itself, and the strategy, each where one was
/// asked for.
pub ghost struct GrabOptionsView {
    pub count: Option<u32>,
    pub strategy: Option<GrabStrategy>,
}

impl View for GrabOptions {
    type V = GrabOptionsView;

    closed spec fn view(&self) -> GrabOptionsView {
        GrabOptionsView { count: self.count, strategy: self.strategy }
    }
}

/// The form of the request to start acquisition that the device is given.
#[derive(Clone, Copy, Debug, PartialEq, Eq, Structural)]
pub enum StartCommand {
    /// Until stopped, with the strategy of the device's choice.
    Continuous,
    /// Until stopped, with a strategy.
    WithStrategy(GrabStrategy),
    /// For a number of retrievals.
    WithCount(u32),
    /// For a number of retrievals, with a strategy.
    WithCountAndStrategy(u32, GrabStrategy),
}

/// The request that carries exactly what `options` asks for.
pub open spec fn command_for(options: GrabOptionsView) -> StartCommand {
    match (options.count, options.strategy) {
        (Some(count), Some(strategy)) => StartCommand::WithCountAndStrategy(count, strategy),
        (Some(count), None) => StartCommand::WithCount(count),
        (None, Some(strategy)) => StartCommand::WithStrategy(strategy),
        (None, None) => StartCommand::Continuous,
    }
}

impl Default for GrabOptions {
    /// No bound and no strategy.
    fn default() -> (options: GrabOptions)
        ensures
            options@ == (GrabOptionsView { count: None, strategy: None }),
    {
        GrabOptions { count: None, strategy: None }
    }
}

impl GrabOptions {
    /// These options with the bound `count`.
    pub fn count(self, count: u32) -> (options: GrabOptions)
        ensures
            options@ == (GrabOptionsView { count: Some(count), ..self@ }),
    {
        GrabOptions { count: Some(count), ..self }
    }

    /// These options with the strategy `strategy`.
    pub fn strategy(self, strategy: GrabStrategy) -> (options: GrabOptions)
        ensures
            options@ == (GrabOptionsView { strategy: Some(strategy), ..self@ }),
    {
        GrabOptions { strategy: Some(strategy), ..self }
    }

    /// The request to the device that these options amount to.
    pub fn start_command(&self) -> (command: StartCommand)
        ensures
            command == command_for(self@),
    {
        match (self.count, self.strategy) {
            (Some(count), Some(strategy)) => StartCommand::WithCountAndStrategy(count, strategy),
            (Some(count), None) => StartCommand::WithCount(count),
            (None, Some(strategy)) => StartCommand::WithStrategy(strategy),
            (None, None) => StartCommand::Continuous,
        }
    }
}

} // verus!
