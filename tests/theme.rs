use h5t_core::theme::{Rgb, Theme};

#[test]
fn mix_rounds_down() {
    assert_eq!(Rgb(0, 255, 10).mix(Rgb(255, 255, 13)), Rgb(127, 255, 11));
    assert_eq!(Rgb(1, 2, 3).mix(Rgb(1, 2, 3)), Rgb(1, 2, 3));
}

#[test]
fn default_theme_colors() {
    let theme = Theme::new();
    assert_eq!(theme.background, Rgb(26, 27, 38));
    assert_eq!(theme.primary, Rgb(0, 48, 130));
    assert_eq!(theme.dead, Rgb(100, 0, 0));
    assert_eq!(Theme::default(), theme);
}

#[test]
fn dim_mixes_with_background() {
    let dim = Theme::new().dim();
    assert_eq!(dim.background, Rgb(26, 27, 38));
    assert_eq!(dim.foreground, Rgb(109, 114, 141));
    assert_eq!(dim.accent, Rgb(140, 96, 19));
    assert_eq!(dim.dead, Rgb(63, 13, 19));
}
