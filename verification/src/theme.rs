//! Theme choices of the graphical front end: palette families, corner
//! rounding and shadow depth, and how a saved configuration resolves them.

use vstd::prelude::*;

verus! {

/// Named color families — ten aesthetic moods, each with a dark and light variant.
#[derive(Debug, Clone, Copy, PartialEq, Eq, Structural)]
pub enum PaletteFamily {
    /// KU Burgundy — the default palette.
    Crimson,
    /// Cool steel-blue (Breeze / KDE-inspired).
    Frost,
    /// Neutral gray (Adwaita / GNOME-inspired).
    Pebble,
    /// Blue-gray (Windows Fluent-inspired).
    Slate,
    /// Warm gray (macOS-inspired).
    Sand,
    /// Dark green with vivid emerald accent.
    Forest,
    /// Dark teal with bright cyan accent.
    Ocean,
    /// Dark purple with vivid violet accent.
    Violet,
    /// Dark amber with bright warm accent.
    Ember,
    /// Dark pink with vivid rose accent.
    Rose,
}

/// Corner radius style.
#[derive(Debug, Clone, Copy, PartialEq, Eq, Structural)]
pub enum Rounding {
    /// 0 px — completely square corners.
    Square,
    /// 4 px — crisp, nearly square (Windows-flavoured).
    Sharp,
    /// 10 px — clearly rounded (Breeze / KDE).
    Rounded,
    /// 16 px — soft, card-like (Adwaita / GNOME).
    Smooth,
    /// 24 px — pill-shaped buttons, large cards.
    Pill,
}

/// Drop-shadow intensity.
#[derive(Debug, Clone, Copy, PartialEq, Eq, Structural)]
pub enum ShadowDepth {
    /// No shadow at all.
    Flat,
    /// Faint lift — 6 px blur.
    Subtle,
    /// Visible card elevation — 16 px blur.
    Medium,
    /// Strong floating shadow — 28 px blur.
    Elevated,
}

pub open spec fn family_rounding(f: PaletteFamily) -> Rounding {
    match f {
        PaletteFamily::Crimson => Rounding::Rounded,
        PaletteFamily::Frost => Rounding::Rounded,
        PaletteFamily::Pebble => Rounding::Smooth,
        PaletteFamily::Slate => Rounding::Sharp,
        PaletteFamily::Sand => Rounding::Rounded,
        PaletteFamily::Forest => Rounding::Smooth,
        PaletteFamily::Ocean => Rounding::Rounded,
        PaletteFamily::Violet => Rounding::Smooth,
        PaletteFamily::Ember => Rounding::Rounded,
        PaletteFamily::Rose => Rounding::Pill,
    }
}

pub open spec fn family_shadow(f: PaletteFamily) -> ShadowDepth {
    match f {
        PaletteFamily::Crimson => ShadowDepth::Medium,
        PaletteFamily::Frost => ShadowDepth::Subtle,
        PaletteFamily::Pebble => ShadowDepth::Medium,
        PaletteFamily::Slate => ShadowDepth::Subtle,
        PaletteFamily::Sand => ShadowDepth::Subtle,
        PaletteFamily::Forest => ShadowDepth::Medium,
        PaletteFamily::Ocean => ShadowDepth::Medium,
        PaletteFamily::Violet => ShadowDepth::Elevated,
        PaletteFamily::Ember => ShadowDepth::Medium,
        PaletteFamily::Rose => ShadowDepth::Subtle,
    }
}

pub open spec fn family_label(f: PaletteFamily) -> Seq<char> {
    match f {
        PaletteFamily::Crimson => "Crimson"@,
        PaletteFamily::Frost => "Frost"@,
        PaletteFamily::Pebble => "Pebble"@,
        PaletteFamily::Slate => "Slate"@,
        PaletteFamily::Sand => "Sand"@,
        PaletteFamily::Forest => "Forest"@,
        PaletteFamily::Ocean => "Ocean"@,
        PaletteFamily::Violet => "Violet"@,
        PaletteFamily::Ember => "Ember"@,
        PaletteFamily::Rose => "Rose"@,
    }
}

impl PaletteFamily {
    /// Every family, in the order the settings list them.
    pub fn all() -> (v: Vec<PaletteFamily>)
        ensures
            v@ == seq![
                PaletteFamily::Crimson, PaletteFamily::Frost, PaletteFamily::Pebble, PaletteFamily::Slate,
                PaletteFamily::Sand, PaletteFamily::Forest, PaletteFamily::Ocean, PaletteFamily::Violet,
                PaletteFamily::Ember, PaletteFamily::Rose,
            ],
    {
        let v = vec![
            PaletteFamily::Crimson, PaletteFamily::Frost, PaletteFamily::Pebble, PaletteFamily::Slate,
            PaletteFamily::Sand, PaletteFamily::Forest, PaletteFamily::Ocean, PaletteFamily::Violet,
            PaletteFamily::Ember, PaletteFamily::Rose,
        ];
        v
    }

    pub fn default_rounding(self) -> (r: Rounding)
        ensures
            r == family_rounding(self),
    {
        match self {
            PaletteFamily::Crimson => Rounding::Rounded,
            PaletteFamily::Frost => Rounding::Rounded,
            PaletteFamily::Pebble => Rounding::Smooth,
            PaletteFamily::Slate => Rounding::Sharp,
            PaletteFamily::Sand => Rounding::Rounded,
            PaletteFamily::Forest => Rounding::Smooth,
            PaletteFamily::Ocean => Rounding::Rounded,
            PaletteFamily::Violet => Rounding::Smooth,
            PaletteFamily::Ember => Rounding::Rounded,
            PaletteFamily::Rose => Rounding::Pill,
        }
    }

    pub fn default_shadow(self) -> (r: ShadowDepth)
        ensures
            r == family_shadow(self),
    {
        match self {
            PaletteFamily::Crimson => ShadowDepth::Medium,
            PaletteFamily::Frost => ShadowDepth::Subtle,
            PaletteFamily::Pebble => ShadowDepth::Medium,
            PaletteFamily::Slate => ShadowDepth::Subtle,
            PaletteFamily::Sand => ShadowDepth::Subtle,
            PaletteFamily::Forest => ShadowDepth::Medium,
            PaletteFamily::Ocean => ShadowDepth::Medium,
            PaletteFamily::Violet => ShadowDepth::Elevated,
            PaletteFamily::Ember => ShadowDepth::Medium,
            PaletteFamily::Rose => ShadowDepth::Subtle,
        }
    }

    pub fn label(self) -> (r: &'static str)
        ensures
            r@ == family_label(self),
    {
        match self {
            PaletteFamily::Crimson => "Crimson",
            PaletteFamily::Frost => "Frost",
            PaletteFamily::Pebble => "Pebble",
            PaletteFamily::Slate => "Slate",
            PaletteFamily::Sand => "Sand",
            PaletteFamily::Forest => "Forest",
            PaletteFamily::Ocean => "Ocean",
            PaletteFamily::Violet => "Violet",
            PaletteFamily::Ember => "Ember",
            PaletteFamily::Rose => "Rose",
        }
    }
}

impl Default for PaletteFamily {
    fn default() -> (r: PaletteFamily)
        ensures
            r == PaletteFamily::Crimson,
    {
        PaletteFamily::Crimson
    }
}

pub open spec fn rounding_label(r: Rounding) -> Seq<char> {
    match r {
        Rounding::Square => "Square"@,
        Rounding::Sharp => "Sharp"@,
        Rounding::Rounded => "Rounded"@,
        Rounding::Smooth => "Smooth"@,
        Rounding::Pill => "Pill"@,
    }
}

impl Rounding {
    pub fn label(self) -> (r: &'static str)
        ensures
            r@ == rounding_label(self),
    {
        match self {
            Rounding::Square => "Square",
            Rounding::Sharp => "Sharp",
            Rounding::Rounded => "Rounded",
            Rounding::Smooth => "Smooth",
            Rounding::Pill => "Pill",
        }
    }
}

impl Default for Rounding {
    fn default() -> (r: Rounding)
        ensures
            r == Rounding::Rounded,
    {
        Rounding::Rounded
    }
}

pub open spec fn shadow_label(s: ShadowDepth) -> Seq<char> {
    match s {
        ShadowDepth::Flat => "None"@,
        ShadowDepth::Subtle => "Subtle"@,
        ShadowDepth::Medium => "Medium"@,
        ShadowDepth::Elevated => "Elevated"@,
    }
}

impl ShadowDepth {
    pub fn label(self) -> (r: &'static str)
        ensures
            r@ == shadow_label(self),
    {
        match self {
            ShadowDepth::Flat => "None",
            ShadowDepth::Subtle => "Subtle",
            ShadowDepth::Medium => "Medium",
            ShadowDepth::Elevated => "Elevated",
        }
    }
}

impl Default for ShadowDepth {
    fn default() -> (r: ShadowDepth)
        ensures
            r == ShadowDepth::Subtle,
    {
        ShadowDepth::Subtle
    }
}

/// Theme configuration persisted in the GUI settings.
#[derive(Debug, Clone, Copy, PartialEq, Eq, Structural)]
pub struct ThemeConfig {
    pub family: PaletteFamily,
    pub dark: bool,
    /// `None` → use `family.default_rounding()`; `Some` → explicit user override.
    pub rounding: Option<Rounding>,
    /// `None` → use `family.default_shadow()`; `Some` → explicit user override.
    pub shadow: Option<ShadowDepth>,
}

impl Default for ThemeConfig {
    fn default() -> (c: ThemeConfig)
        ensures
            c.family == PaletteFamily::Crimson,
            c.dark,
            c.rounding is None,
            c.shadow is None,
    {
        ThemeConfig { family: PaletteFamily::Crimson, dark: true, rounding: None, shadow: None }
    }
}

impl ThemeConfig {
    /// The rounding in effect: the explicit override, else the family's default.
    pub fn resolved_rounding(&self) -> (r: Rounding)
        ensures
            r == match self.rounding {
                Some(x) => x,
                None => family_rounding(self.family),
            },
    {
        match self.rounding {
            Some(x) => x,
            None => self.family.default_rounding(),
        }
    }

    /// The shadow in effect: the explicit override, else the family's default.
    pub fn resolved_shadow(&self) -> (r: ShadowDepth)
        ensures
            r == match self.shadow {
                Some(x) => x,
                None => family_shadow(self.family),
            },
    {
        match self.shadow {
            Some(x) => x,
            None => self.family.default_shadow(),
        }
    }
}

} // verus!
