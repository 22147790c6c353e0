//! What holds of every setup, whatever the framework and the compositor
//! answer.

use vstd::prelude::*;
use crate::effects::{Effect, Platform, Tint};
use crate::setup::{begin_spec, step_spec, Command, Failure, LogLevel, Outcome, Phase, Profile};

verus! {

/// The backdrops that a setup on `platform` may come to apply: the platform's
/// own, and the one that stands in for it.
pub open spec fn offered(platform: Platform, effect: Effect) -> bool {
    match platform.spec_primary_effect() {
        Some(first) => effect == first || first.spec_fallback() == Some(effect),
        None => false,
    }
}

/// The phases that a setup under `profile` can be in.
pub open spec fn admissible(profile: Profile, phase: Phase) -> bool {
    match phase {
        Phase::Locating => true,
        Phase::Styling(effect) => offered(profile.platform, effect),
        Phase::Logging => profile.debug,
        Phase::Ready => true,
        Phase::Failed(Failure::WindowMissing) => true,
        Phase::Failed(Failure::EffectRejected(effect)) => {
            &&& offered(profile.platform, effect)
            &&& effect.spec_fallback() is None
        },
        Phase::Failed(Failure::LoggerRejected) => profile.debug,
    }
}

/// The commands that a setup under `profile` can give.
pub open spec fn sanctioned(profile: Profile, command: Command) -> bool {
    match command {
        Command::LocateWindow => true,
        Command::Apply(effect) => profile.platform.spec_primary_effect() == Some(effect),
        Command::FallBack { failed, next } => {
            &&& profile.platform.spec_primary_effect() == Some(failed)
            &&& failed.spec_fallback() == Some(next)
        },
        Command::AttachLogger(level) => profile.debug && level == LogLevel::Info,
        Command::Finish => true,
        Command::Abort(failure) => {
            &&& failure != Failure::LoggerRejected
            &&& admissible(profile, Phase::Failed(failure))
        },
        Command::ReturnError => profile.debug,
    }
}

/// The phase that a setup under `profile` has reached when its commands have
/// ended as `outcomes` says, in that order.
pub open spec fn phase_after(profile: Profile, outcomes: Seq<Outcome>) -> Phase
    decreases outcomes.len(),
{
    if outcomes.len() == 0 {
        begin_spec().0
    } else {
        step_spec(profile, phase_after(profile, outcomes.drop_last()), outcomes.last()).0
    }
}

/// A setup starts in an admissible phase, with a sanctioned command.
pub proof fn lemma_begin_admissible(profile: Profile)
    ensures
        admissible(profile, begin_spec().0),
        sanctioned(profile, begin_spec().1),
        !begin_spec().0.spec_is_terminal(),
{
}

/// A step out of an admissible phase leads to an admissible phase and gives a
/// sanctioned command: a backdrop is applied only where the platform has it,
/// the blur only after mica was refused, the logging sink only in a debug
/// build and only at `Info`.
pub proof fn lemma_step_admissible(profile: Profile, phase: Phase, outcome: Outcome)
    requires
        admissible(profile, phase),
    ensures
        admissible(profile, step_spec(profile, phase, outcome).0),
        sanctioned(profile, step_spec(profile, phase, outcome).1),
{
}

/// Every step out of a phase that has not ended brings the setup closer to
/// its end, so a caller that steps until the phase is terminal stops after at
/// most four steps.
pub proof fn lemma_step_progress(profile: Profile, phase: Phase, outcome: Outcome)
    requires
        !phase.spec_is_terminal(),
    ensures
        step_spec(profile, phase, outcome).0.remaining() < phase.remaining(),
        phase.remaining() <= 4,
{
}

/// The phases with nothing left to do are the terminal ones.
pub proof fn lemma_remaining_zero(phase: Phase)
    ensures
        phase.remaining() == 0 <==> phase.spec_is_terminal(),
{
}

/// A setup that has ended stays where it is and repeats its closing command,
/// whatever outcome it is told.
pub proof fn lemma_terminal_absorbs(profile: Profile, phase: Phase, outcome: Outcome)
    requires
        phase.spec_is_terminal(),
    ensures
        step_spec(profile, phase, outcome).0 == phase,
        step_spec(profile, phase, outcome).1 == step_spec(profile, phase, Outcome::Succeeded).1,
        phase is Ready ==> step_spec(profile, phase, outcome).1 == Command::Finish,
        phase matches Phase::Failed(failure) ==> step_spec(profile, phase, outcome).1
            == failure.spec_closing(),
{
}

/// The command of a step tells the phase it leads to: the caller needs no
/// more than the command to know what it is busy with.
pub proof fn lemma_command_tells_phase(profile: Profile, phase: Phase, outcome: Outcome)
    ensures
        ({
            let (next, command) = step_spec(profile, phase, outcome);
            match command {
                Command::LocateWindow => false,
                Command::Apply(effect) => next == Phase::Styling(effect),
                Command::FallBack { failed, next: substitute } => {
                    &&& next == Phase::Styling(substitute)
                    &&& phase == Phase::Styling(failed)
                    &&& failed.spec_fallback() == Some(substitute)
                    &&& outcome == Outcome::Failed
                },
                Command::AttachLogger(_) => next == Phase::Logging,
                Command::Finish => next == Phase::Ready,
                Command::Abort(failure) => next == Phase::Failed(failure),
                Command::ReturnError => next == Phase::Failed(Failure::LoggerRejected),
            }
        }),
{
}

/// However the commands end, the phase reached is admissible.
pub proof fn lemma_reached_admissible(profile: Profile, outcomes: Seq<Outcome>)
    ensures
        admissible(profile, phase_after(profile, outcomes)),
    decreases outcomes.len(),
{
    if outcomes.len() == 0 {
        lemma_begin_admissible(profile);
    } else {
        lemma_reached_admissible(profile, outcomes.drop_last());
        lemma_step_admissible(
            profile,
            phase_after(profile, outcomes.drop_last()),
            outcomes.last(),
        );
    }
}

/// After `n` outcomes at most `4 - n` commands are left, the closing one not
/// counted.
pub proof fn lemma_reached_remaining(profile: Profile, outcomes: Seq<Outcome>)
    ensures
        phase_after(profile, outcomes).remaining() + outcomes.len() <= 4
            || phase_after(profile, outcomes).spec_is_terminal(),
    decreases outcomes.len(),
{
    if outcomes.len() > 0 {
        let before = phase_after(profile, outcomes.drop_last());
        lemma_reached_remaining(profile, outcomes.drop_last());
        if before.spec_is_terminal() {
            lemma_terminal_absorbs(profile, before, outcomes.last());
        } else {
            lemma_step_progress(profile, before, outcomes.last());
        }
    }
}

/// Four outcomes end every setup.
pub proof fn lemma_four_steps_end(profile: Profile, outcomes: Seq<Outcome>)
    requires
        outcomes.len() >= 4,
    ensures
        phase_after(profile, outcomes).spec_is_terminal(),
{
    lemma_reached_remaining(profile, outcomes);
    lemma_remaining_zero(phase_after(profile, outcomes));
}

/// On Windows a setup that applies a blur applies the smoke-tinted one, and
/// no other platform blurs.
pub proof fn lemma_blur_is_smoke(profile: Profile, outcomes: Seq<Outcome>, tint: Tint)
    requires
        phase_after(profile, outcomes) == Phase::Styling(Effect::Blur(tint)),
    ensures
        profile.platform == Platform::Windows,
        tint == Tint::spec_smoke(),
{
    lemma_reached_admissible(profile, outcomes);
}

/// Where the platform has no backdrop, no setup ever styles the window or
/// fails over a backdrop.
pub proof fn lemma_other_platform_unstyled(profile: Profile, outcomes: Seq<Outcome>)
    requires
        profile.platform == Platform::Other,
    ensures
        !(phase_after(profile, outcomes) is Styling),
        !(phase_after(profile, outcomes) matches Phase::Failed(Failure::EffectRejected(_))),
{
    lemma_reached_admissible(profile, outcomes);
}

/// A release build never attaches a logging sink, and so never fails over
/// one.
pub proof fn lemma_release_never_logs(profile: Profile, outcomes: Seq<Outcome>)
    requires
        !profile.debug,
    ensures
        phase_after(profile, outcomes) != Phase::Logging,
        phase_after(profile, outcomes) != Phase::Failed(Failure::LoggerRejected),
{
    lemma_reached_admissible(profile, outcomes);
}

/// A refused mica alone never ends a setup: the process stops over a backdrop
/// only when the blur or the vibrancy was refused.
pub proof fn lemma_mica_refusal_not_fatal(profile: Profile, outcomes: Seq<Outcome>)
    ensures
        phase_after(profile, outcomes) != Phase::Failed(Failure::EffectRejected(Effect::Mica)),
{
    lemma_reached_admissible(profile, outcomes);
}

} // verus!
