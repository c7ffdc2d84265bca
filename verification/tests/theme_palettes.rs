use reader_shell::my_theme::{dark, light};
use reader_shell::theme::{dark_colors, light_colors};

#[test]
fn dark_palette_values() {
    let c = dark_colors();
    assert_eq!(c.bg, 0x1e1e1e);
    assert_eq!(c.secondary_bg, 0x2d2d2d);
    assert_eq!(c.text, 0xe0e0e0);
    assert_eq!(c.text_secondary, 0x888888);
    assert_eq!(c.accent, 0x007acc);
}

#[test]
fn light_palette_values() {
    let c = light_colors();
    assert_eq!(c.bg, 0xffffff);
    assert_eq!(c.secondary_bg, 0xf5f5f5);
    assert_eq!(c.text, 0x1a1a1a);
    assert_eq!(c.text_secondary, 0x888888);
    assert_eq!(c.accent, 0x007acc);
}

#[test]
fn palettes_share_accent() {
    assert_eq!(dark_colors().accent, light_colors().accent);
    assert_eq!(dark_colors().text_secondary, light_colors().text_secondary);
    assert_ne!(dark_colors().bg, light_colors().bg);
    assert_ne!(dark_colors().text, light_colors().text);
}

#[test]
fn my_theme_matches_theme() {
    let (d, dc) = (dark(), dark_colors());
    assert_eq!((d.bg, d.secondary, d.text, d.text_secondary, d.accent),
        (dc.bg, dc.secondary_bg, dc.text, dc.text_secondary, dc.accent));
    let (l, lc) = (light(), light_colors());
    assert_eq!((l.bg, l.secondary, l.text, l.text_secondary, l.accent),
        (lc.bg, lc.secondary_bg, lc.text, lc.text_secondary, lc.accent));
}
