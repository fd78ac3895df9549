use vstd::prelude::*;

verus! {

/// The midpoint of two color components, rounded down.
pub open spec fn midpoint(a: u8, b: u8) -> u8 {
    ((a + b) / 2) as u8
}

/// An RGB color.
#[derive(Debug, Clone, Copy, PartialEq, Eq, Structural)]
pub struct Rgb(pub u8, pub u8, pub u8);

impl Rgb {
    /// The color halfway between `self` and `other`.
    pub open spec fn spec_mix(self, other: Rgb) -> Rgb {
        Rgb(midpoint(self.0, other.0), midpoint(self.1, other.1), midpoint(self.2, other.2))
    }

    /// Mix the current color with another color by taking the average of their RGB components,
    /// rounded down.
    pub fn mix(self, other: Rgb) -> (r: Rgb)
        ensures
            r == self.spec_mix(other),
    {
        Rgb(
            ((self.0 as u16 + other.0 as u16) / 2) as u8,
            ((self.1 as u16 + other.1 as u16) / 2) as u8,
            ((self.2 as u16 + other.2 as u16) / 2) as u8,
        )
    }
}

/// A theme specifying the colors used in the UI.
#[derive(Debug, Clone, Copy, PartialEq, Eq, Structural)]
pub struct Theme {
    pub background: Rgb,
    pub foreground: Rgb,
    pub primary: Rgb,
    pub secondary: Rgb,
    pub select: Rgb,
    pub accent: Rgb,
    pub error: Rgb,
    pub warning: Rgb,
    // domain-specific colors
    pub action: Rgb,
    pub bonus_action: Rgb,
    pub reaction: Rgb,
    pub dead: Rgb,
}

/// The default theme.
pub open spec fn default_theme() -> Theme {
    Theme {
        background: Rgb(26, 27, 38),
        foreground: Rgb(192, 202, 245),
        primary: Rgb(0, 48, 130),
        secondary: Rgb(65, 72, 104),
        select: Rgb(128, 85, 0),
        accent: Rgb(255, 165, 0),
        error: Rgb(247, 118, 142),
        warning: Rgb(224, 175, 104),
        action: Rgb(158, 206, 106),
        bonus_action: Rgb(255, 165, 0),
        reaction: Rgb(187, 154, 247),
        dead: Rgb(100, 0, 0),
    }
}

impl Default for Theme {
    fn default() -> (r: Self)
        ensures
            r == default_theme(),
    {
        Theme::new()
    }
}

impl Theme {
    /// The theme with each color except the background mixed with the background.
    pub open spec fn spec_dim(self) -> Theme {
        Theme {
            background: self.background,
            foreground: self.foreground.spec_mix(self.background),
            primary: self.primary.spec_mix(self.background),
            secondary: self.secondary.spec_mix(self.background),
            select: self.select.spec_mix(self.background),
            accent: self.accent.spec_mix(self.background),
            error: self.error.spec_mix(self.background),
            warning: self.warning.spec_mix(self.background),
            action: self.action.spec_mix(self.background),
            bonus_action: self.bonus_action.spec_mix(self.background),
            reaction: self.reaction.spec_mix(self.background),
            dead: self.dead.spec_mix(self.background),
        }
    }

    /// Returns the default theme.
    pub fn new() -> (r: Self)
        ensures
            r == default_theme(),
    {
        Theme {
            background: Rgb(26, 27, 38),  // indigo
            foreground: Rgb(192, 202, 245),  // light blue
            primary: Rgb(0, 48, 130),  // dark blue
            secondary: Rgb(65, 72, 104),  // blue gray
            select: Rgb(128, 85, 0),  // dark yellow
            accent: Rgb(255, 165, 0),
            error: Rgb(247, 118, 142),  // pastel red
            warning: Rgb(224, 175, 104),  // pastel yellow
            action: Rgb(158, 206, 106),  // lime green
            bonus_action: Rgb(255, 165, 0),  // gold
            reaction: Rgb(187, 154, 247),  // pastel purple
            dead: Rgb(100, 0, 0),  // dark red
        }
    }

    /// Return a dimmed version of the theme, obtained by mixing each color with the background
    /// color.
    pub fn dim(self) -> (r: Self)
        ensures
            r == self.spec_dim(),
    {
        let background = self.background;
        Theme {
            background,
            foreground: self.foreground.mix(background),
            primary: self.primary.mix(background),
            secondary: self.secondary.mix(background),
            select: self.select.mix(background),
            accent: self.accent.mix(background),
            error: self.error.mix(background),
            warning: self.warning.mix(background),
            action: self.action.mix(background),
            bonus_action: self.bonus_action.mix(background),
            reaction: self.reaction.mix(background),
            dead: self.dead.mix(background),
        }
    }
}

} // verus!
