//! The colour theme's data: which colour each part of the screen uses.
use vstd::prelude::*;

verus! {

/// A Tailwind colour family.
#[derive(Clone, Copy, PartialEq, Eq, Debug, Structural)]
#[allow(non_camel_case_types)]
pub enum TailwindColor {
    SLATE,
    GRAY,
    ZINC,
    NEUTRAL,
    STONE,
    RED,
    ORANGE,
    AMBER,
    YELLOW,
    LIME,
    GREEN,
    EMERALD,
    TEAL,
    CYAN,
    SKY,
    BLUE,
    INDIGO,
    VIOLET,
    PURPLE,
    FUCHSIA,
    PINK,
    BLACK,
    WHITE,
}

/// A shade of a Tailwind colour family.
#[derive(Clone, Copy, PartialEq, Eq, Debug, Structural)]
pub enum TailwindPalette {
    C50,
    C100,
    C200,
    C300,
    C400,
    C500,
    C600,
    C700,
    C800,
    C900,
    C950,
}

impl Default for TailwindPalette {
    fn default() -> (r: Self)
        ensures
            r == TailwindPalette::C500,
    {
        TailwindPalette::C500
    }
}

/// A colour: a Tailwind shade, a hex code, RGB values, or the terminal's
/// default.
#[derive(Debug)]
pub enum Color {
    Tailwind(TailwindColor, TailwindPalette),
    Hex(String),
    Rgb(u8, u8, u8),
    Default,
}

impl Default for Color {
    fn default() -> (r: Self)
        ensures
            r is Default,
    {
        Color::Default
    }
}

/// The colours of the tabs.
#[derive(Debug)]
pub struct Tab {
    pub explorer: Color,
    pub cli: Color,
    pub logger: Color,
}

impl Default for Tab {
    fn default() -> (r: Self)
        ensures
            r.explorer is Default,
            r.cli is Default,
            r.logger is Default,
    {
        Tab { explorer: Color::Default, cli: Color::Default, logger: Color::Default }
    }
}

/// The colours of the toast messages.
#[derive(Debug)]
pub struct Toast {
    pub info: Color,
    pub warn: Color,
    pub error: Color,
}

impl Default for Toast {
    fn default() -> (r: Self)
        ensures
            r.info is Default,
            r.warn is Default,
            r.error is Default,
    {
        Toast { info: Color::Default, warn: Color::Default, error: Color::Default }
    }
}

/// A named colour theme.
#[derive(Debug)]
pub struct Theme {
    pub name: String,
    pub tab: Tab,
    pub toast: Toast,
}

impl Default for Theme {
    fn default() -> (r: Self)
        ensures
            r.name@ == Seq::<char>::empty(),
            r.tab.explorer is Default,
            r.tab.cli is Default,
            r.tab.logger is Default,
            r.toast.info is Default,
            r.toast.warn is Default,
            r.toast.error is Default,
    {
        Theme { name: String::new(), tab: Tab::default(), toast: Toast::default() }
    }
}

} // verus!
