//! The two colour palettes of the application shell.
//!
//! A colour is a `0xRRGGBB` value, as handed to `gpui::rgb`.
use vstd::prelude::*;

verus! {

/// The palette of the shell, one field per semantic colour role.
pub struct ThemeColors {
    /// Page background.
    pub bg: u32,
    /// Background of cards, panels and the sidebar.
    pub secondary_bg: u32,
    /// Body text.
    pub text: u32,
    /// Secondary text (hints, separators).
    pub text_secondary: u32,
    /// Accent: selected items, buttons, links.
    pub accent: u32,
}

/// The dark palette, as a value.
pub open spec fn spec_dark_colors() -> ThemeColors {
    ThemeColors {
        bg: 0x1e1e1e,
        secondary_bg: 0x2d2d2d,
        text: 0xe0e0e0,
        text_secondary: 0x888888,
        accent: 0x007acc,
    }
}

/// The light palette, as a value.
pub open spec fn spec_light_colors() -> ThemeColors {
    ThemeColors {
        bg: 0xffffff,
        secondary_bg: 0xf5f5f5,
        text: 0x1a1a1a,
        text_secondary: 0x888888,
        accent: 0x007acc,
    }
}

/// Dark palette: dark background and light text.
pub fn dark_colors() -> (c: ThemeColors)
    ensures
        c == spec_dark_colors(),
{
    ThemeColors {
        bg: 0x1e1e1e,
        secondary_bg: 0x2d2d2d,
        text: 0xe0e0e0,
        text_secondary: 0x888888,
        accent: 0x007acc,
    }
}

/// Light palette: white background and dark text.
pub fn light_colors() -> (c: ThemeColors)
    ensures
        c == spec_light_colors(),
{
    ThemeColors {
        bg: 0xffffff,
        secondary_bg: 0xf5f5f5,
        text: 0x1a1a1a,
        text_secondary: 0x888888,
        accent: 0x007acc,
    }
}

/// Both palettes use the same accent and the same secondary text colour, and
/// differ in background and body text, so that switching themes keeps the
/// accent while swapping light and dark.
pub proof fn lemma_palettes_share_accent()
    ensures
        spec_dark_colors().accent == spec_light_colors().accent,
        spec_dark_colors().text_secondary == spec_light_colors().text_secondary,
        spec_dark_colors().bg != spec_light_colors().bg,
        spec_dark_colors().text != spec_light_colors().text,
{
}

} // verus!
