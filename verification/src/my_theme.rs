//! The palettes used by the single-render variant of the shell.
//!
//! A colour is a `0xRRGGBB` value, as handed to `gpui::rgb`.
use vstd::prelude::*;

verus! {

/// Palette fields: background, panel, text, secondary text and accent.
pub struct Colors {
    pub bg: u32,
    pub secondary: u32,
    pub text: u32,
    pub text_secondary: u32,
    pub accent: u32,
}

/// The dark palette, as a value.
pub open spec fn spec_dark() -> Colors {
    Colors {
        bg: 0x1e1e1e,
        secondary: 0x2d2d2d,
        text: 0xe0e0e0,
        text_secondary: 0x888888,
        accent: 0x007acc,
    }
}

/// The light palette, as a value.
pub open spec fn spec_light() -> Colors {
    Colors {
        bg: 0xffffff,
        secondary: 0xf5f5f5,
        text: 0x1a1a1a,
        text_secondary: 0x888888,
        accent: 0x007acc,
    }
}

/// Dark theme.
pub fn dark() -> (c: Colors)
    ensures
        c == spec_dark(),
{
    Colors {
        bg: 0x1e1e1e,
        secondary: 0x2d2d2d,
        text: 0xe0e0e0,
        text_secondary: 0x888888,
        accent: 0x007acc,
    }
}

/// Light theme.
pub fn light() -> (c: Colors)
    ensures
        c == spec_light(),
{
    Colors {
        bg: 0xffffff,
        secondary: 0xf5f5f5,
        text: 0x1a1a1a,
        text_secondary: 0x888888,
        accent: 0x007acc,
    }
}

/// The two themes share accent and secondary text colour and differ in
/// background and body text.
pub proof fn lemma_themes_share_accent()
    ensures
        spec_dark().accent == spec_light().accent,
        spec_dark().text_secondary == spec_light().text_secondary,
        spec_dark().bg != spec_light().bg,
        spec_dark().text != spec_light().text,
{
}

/// This module and `crate::theme` carry the same two palettes, role by
/// role: the single-render shell and the split-render shell look alike.
pub proof fn lemma_same_palettes_as_theme()
    ensures
        spec_dark().bg == crate::theme::spec_dark_colors().bg,
        spec_dark().secondary == crate::theme::spec_dark_colors().secondary_bg,
        spec_dark().text == crate::theme::spec_dark_colors().text,
        spec_dark().text_secondary == crate::theme::spec_dark_colors().text_secondary,
        spec_dark().accent == crate::theme::spec_dark_colors().accent,
        spec_light().bg == crate::theme::spec_light_colors().bg,
        spec_light().secondary == crate::theme::spec_light_colors().secondary_bg,
        spec_light().text == crate::theme::spec_light_colors().text,
        spec_light().text_secondary == crate::theme::spec_light_colors().text_secondary,
        spec_light().accent == crate::theme::spec_light_colors().accent,
{
}

} // verus!
