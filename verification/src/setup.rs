//! The setup of the main window, one command at a time.
//!
//! The caller owns the window and the framework. It asks [`begin`] for the
//! first command, carries each command out, and reports to [`step`] whether it
//! went well; `step` answers with the phase that follows and the next command.
//! No phase needs more than the outcome of the command before it.

use vstd::prelude::*;
use crate::effects::{Effect, Platform};

verus! {

/// What a build of the shell is made for.
#[derive(Clone, Copy, Debug, PartialEq, Eq, Structural)]
pub struct Profile {
    pub platform: Platform,
    /// Whether debug assertions are compiled in.
    pub debug: bool,
}

/// Verbosity of a logging sink, from silent to most talkative.
#[derive(Clone, Copy, Debug, PartialEq, Eq, Structural)]
pub enum LogLevel {
    Off,
    Error,
    Warn,
    Info,
    Debug,
    Trace,
}

/// How the caller fared with the command it was given.
#[derive(Clone, Copy, Debug, PartialEq, Eq, Structural)]
pub enum Outcome {
    Succeeded,
    Failed,
}

/// Why a setup did not complete.
#[derive(Clone, Copy, Debug, PartialEq, Eq, Structural)]
pub enum Failure {
    /// The framework knows no main window.
    WindowMissing,
    /// The compositor refused this backdrop, and nothing stands in for it.
    EffectRejected(Effect),
    /// The framework refused the logging sink.
    LoggerRejected,
}

/// Where a setup stands: what the caller is busy with, or how it ended.
#[derive(Clone, Copy, Debug, PartialEq, Eq, Structural)]
pub enum Phase {
    /// The main window is being looked up.
    Locating,
    /// This backdrop is being applied.
    Styling(Effect),
    /// The logging sink is being attached.
    Logging,
    /// The setup completed.
    Ready,
    /// The setup was given up.
    Failed(Failure),
}

/// What the caller is to do next.
#[derive(Clone, Copy, Debug, PartialEq, Eq, Structural)]
pub enum Command {
    /// Look up the main window.
    LocateWindow,
    /// Apply this backdrop to the main window.
    Apply(Effect),
    /// Say that `failed` could not be applied, then apply `next` in its place.
    FallBack { failed: Effect, next: Effect },
    /// Attach a logging sink of this verbosity.
    AttachLogger(LogLevel),
    /// Report the setup as done.
    Finish,
    /// Stop the process with a diagnostic.
    Abort(Failure),
    /// Hand the error of the last command to the framework as the outcome of
    /// the setup.
    ReturnError,
}

impl Failure {
    /// The command that ends a setup given up for this reason.
    pub open spec fn spec_closing(self) -> Command {
        match self {
            Failure::LoggerRejected => Command::ReturnError,
            _ => Command::Abort(self),
        }
    }

    /// The command that ends a setup given up for this reason: a refused
    /// logging sink is reported to the framework, anything else stops the
    /// process.
    #[verifier::when_used_as_spec(spec_closing)]
    pub fn closing(self) -> (command: Command)
        ensures
            command == self.spec_closing(),
    {
        match self {
            Failure::LoggerRejected => Command::ReturnError,
            Failure::WindowMissing => Command::Abort(Failure::WindowMissing),
            Failure::EffectRejected(effect) => Command::Abort(Failure::EffectRejected(effect)),
        }
    }
}

impl Phase {
    /// Whether the setup has ended, well or badly.
    pub open spec fn spec_is_terminal(self) -> bool {
        self is Ready || self is Failed
    }

    /// Whether the setup has ended, well or badly.
    #[verifier::when_used_as_spec(spec_is_terminal)]
    pub fn is_terminal(self) -> (ended: bool)
        ensures
            ended == self.spec_is_terminal(),
    {
        match self {
            Phase::Ready => true,
            Phase::Failed(_) => true,
            _ => false,
        }
    }

    /// An upper bound on the commands still to come, the closing one left out.
    pub open spec fn remaining(self) -> nat {
        match self {
            Phase::Locating => 4,
            Phase::Styling(effect) => if effect.spec_fallback() is Some { 3 } else { 2 },
            Phase::Logging => 1,
            Phase::Ready => 0,
            Phase::Failed(_) => 0,
        }
    }
}

/// The phase and command that follow once the window is styled, or needs no
/// styling.
pub open spec fn styled(profile: Profile) -> (Phase, Command) {
    if profile.debug {
        (Phase::Logging, Command::AttachLogger(LogLevel::Info))
    } else {
        (Phase::Ready, Command::Finish)
    }
}

/// The phase and command with which every setup starts.
pub open spec fn begin_spec() -> (Phase, Command) {
    (Phase::Locating, Command::LocateWindow)
}

/// The transition of the setup: the phase and command that follow `phase`
/// once its command has ended with `outcome`.
pub open spec fn step_spec(profile: Profile, phase: Phase, outcome: Outcome) -> (Phase, Command) {
    match phase {
        Phase::Locating => match outcome {
            Outcome::Failed => (
                Phase::Failed(Failure::WindowMissing),
                Command::Abort(Failure::WindowMissing),
            ),
            Outcome::Succeeded => match profile.platform.spec_primary_effect() {
                Some(effect) => (Phase::Styling(effect), Command::Apply(effect)),
                None => styled(profile),
            },
        },
        Phase::Styling(effect) => match outcome {
            Outcome::Succeeded => styled(profile),
            Outcome::Failed => match effect.spec_fallback() {
                Some(next) => (Phase::Styling(next), Command::FallBack { failed: effect, next }),
                None => (
                    Phase::Failed(Failure::EffectRejected(effect)),
                    Command::Abort(Failure::EffectRejected(effect)),
                ),
            },
        },
        Phase::Logging => match outcome {
            Outcome::Succeeded => (Phase::Ready, Command::Finish),
            Outcome::Failed => (Phase::Failed(Failure::LoggerRejected), Command::ReturnError),
        },
        Phase::Ready => (Phase::Ready, Command::Finish),
        Phase::Failed(failure) => (Phase::Failed(failure), failure.spec_closing()),
    }
}

/// Starts a setup: the main window is looked up first.
pub fn begin() -> (first: (Phase, Command))
    ensures
        first == begin_spec(),
{
    (Phase::Locating, Command::LocateWindow)
}

/// Where the setup goes once the window is styled: to the logging sink in a
/// debug build, to its end in a release build.
fn after_styling(profile: Profile) -> (next: (Phase, Command))
    ensures
        next == styled(profile),
{
    if profile.debug {
        (Phase::Logging, Command::AttachLogger(LogLevel::Info))
    } else {
        (Phase::Ready, Command::Finish)
    }
}

/// Advances a setup by one command.
///
/// `phase` is where the setup stood and `outcome` how the command of that
/// phase ended. A missing window stops the process. A found one gets the
/// platform's backdrop; when the compositor refuses a backdrop, the one that
/// stands in for it is tried, and where none does the process stops. After
/// the backdrop a debug build attaches a logging sink at `Info`, whose refusal
/// is handed to the framework. A setup that has ended stays as it is and
/// repeats its closing command, whatever the outcome says.
pub fn step(profile: Profile, phase: Phase, outcome: Outcome) -> (next: (Phase, Command))
    ensures
        next == step_spec(profile, phase, outcome),
{
    let went_well: bool = match outcome {
        Outcome::Succeeded => true,
        Outcome::Failed => false,
    };
    match phase {
        Phase::Ready => (Phase::Ready, Command::Finish),
        Phase::Failed(failure) => (Phase::Failed(failure), failure.closing()),
        Phase::Locating => {
            if !went_well {
                return (Phase::Failed(Failure::WindowMissing), Failure::WindowMissing.closing());
            }
            match profile.platform.primary_effect() {
                Some(effect) => (Phase::Styling(effect), Command::Apply(effect)),
                None => after_styling(profile),
            }
        },
        Phase::Styling(effect) => {
            if went_well {
                return after_styling(profile);
            }
            match effect.fallback() {
                Some(next) => (Phase::Styling(next), Command::FallBack { failed: effect, next }),
                None => {
                    let failure = Failure::EffectRejected(effect);
                    (Phase::Failed(failure), failure.closing())
                },
            }
        },
        Phase::Logging => {
            if went_well {
                (Phase::Ready, Command::Finish)
            } else {
                (Phase::Failed(Failure::LoggerRejected), Failure::LoggerRejected.closing())
            }
        },
    }
}

} // verus!
