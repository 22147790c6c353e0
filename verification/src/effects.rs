//! Translucent window backdrops and the order in which they are tried.

use vstd::prelude::*;

verus! {

/// The operating systems that the shell tells apart when it styles a window.
#[derive(Clone, Copy, Debug, PartialEq, Eq, Structural)]
pub enum Platform {
    Windows,
    MacOs,
    /// Any other system: its compositor is left alone.
    Other,
}

/// An RGBA colour laid behind a blurred window.
#[derive(Clone, Copy, Debug, PartialEq, Eq, Structural)]
pub struct Tint {
    pub red: u8,
    pub green: u8,
    pub blue: u8,
    pub alpha: u8,
}

/// A backdrop that the compositor can be asked to draw behind a window.
#[derive(Clone, Copy, Debug, PartialEq, Eq, Structural)]
pub enum Effect {
    /// The mica material, light or dark as the system is.
    Mica,
    /// A blur of what lies behind the window, tinted.
    Blur(Tint),
    /// Vibrancy in the material of a heads-up display window.
    Vibrancy,
}

impl Tint {
    /// The dark grey, about half opaque, that tints the blur.
    pub open spec fn spec_smoke() -> Tint {
        Tint { red: 18, green: 18, blue: 18, alpha: 125 }
    }

    /// The dark grey, about half opaque, that tints the blur.
    #[verifier::when_used_as_spec(spec_smoke)]
    pub fn smoke() -> (tint: Tint)
        ensures
            tint == Tint::spec_smoke(),
    {
        Tint { red: 18, green: 18, blue: 18, alpha: 125 }
    }
}

impl Platform {
    /// The backdrop tried first on this platform, if it gets one at all.
    pub open spec fn spec_primary_effect(self) -> Option<Effect> {
        match self {
            Platform::Windows => Some(Effect::Mica),
            Platform::MacOs => Some(Effect::Vibrancy),
            Platform::Other => None,
        }
    }

    /// The backdrop tried first on this platform: mica on Windows, vibrancy on
    /// macOS, none elsewhere.
    #[verifier::when_used_as_spec(spec_primary_effect)]
    pub fn primary_effect(self) -> (effect: Option<Effect>)
        ensures
            effect == self.spec_primary_effect(),
    {
        match self {
            Platform::Windows => Some(Effect::Mica),
            Platform::MacOs => Some(Effect::Vibrancy),
            Platform::Other => None,
        }
    }
}

impl Effect {
    /// The backdrop tried in place of this one when the compositor refuses it.
    pub open spec fn spec_fallback(self) -> Option<Effect> {
        match self {
            Effect::Mica => Some(Effect::Blur(Tint::spec_smoke())),
            Effect::Blur(_) => None,
            Effect::Vibrancy => None,
        }
    }

    /// The backdrop tried in place of this one when the compositor refuses it:
    /// the smoke-tinted blur for mica, nothing for the others.
    #[verifier::when_used_as_spec(spec_fallback)]
    pub fn fallback(self) -> (next: Option<Effect>)
        ensures
            next == self.spec_fallback(),
    {
        match self {
            Effect::Mica => Some(Effect::Blur(Tint::smoke())),
            Effect::Blur(_) => None,
            Effect::Vibrancy => None,
        }
    }
}

} // verus!
