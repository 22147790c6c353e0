use desktop_shell::effects::{Effect, Platform, Tint};

#[test]
fn smoke_tint_is_dark_grey_half_opaque() {
    assert_eq!(Tint::smoke(), Tint { red: 18, green: 18, blue: 18, alpha: 125 });
}

#[test]
fn primary_effect_of_each_platform() {
    assert_eq!(Platform::Windows.primary_effect(), Some(Effect::Mica));
    assert_eq!(Platform::MacOs.primary_effect(), Some(Effect::Vibrancy));
    assert_eq!(Platform::Other.primary_effect(), None);
}

#[test]
fn only_mica_has_a_fallback() {
    assert_eq!(Effect::Mica.fallback(), Some(Effect::Blur(Tint::smoke())));
    assert_eq!(Effect::Vibrancy.fallback(), None);
    assert_eq!(Effect::Blur(Tint::smoke()).fallback(), None);
    assert_eq!(Effect::Blur(Tint { red: 0, green: 0, blue: 0, alpha: 0 }).fallback(), None);
}

#[test]
fn fallback_chain_ends_after_one_step() {
    for platform in [Platform::Windows, Platform::MacOs, Platform::Other] {
        if let Some(first) = platform.primary_effect() {
            if let Some(second) = first.fallback() {
                assert_eq!(second.fallback(), None);
            }
        }
    }
}
