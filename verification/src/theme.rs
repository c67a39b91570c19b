//! Color themes. A theme names the five colors the dashboard draws with;
//! the palette shipped here is Catppuccin.
//!
//! Colors are plain 24-bit RGB triples; turning them into terminal styles is
//! the unverified shell's concern.

use vstd::prelude::*;

verus! {

/// A 24-bit color.
#[derive(Clone, Copy, Debug, PartialEq, Eq, Structural)]
pub struct Rgb {
    pub r: u8,
    pub g: u8,
    pub b: u8,
}

/// The five colors a theme provides. Each exec function returns exactly the
/// color its spec names, so rendering contracts can speak of them.
pub trait Theme {
    spec fn spec_text() -> Rgb;

    spec fn spec_background() -> Rgb;

    spec fn spec_red() -> Rgb;

    spec fn spec_green() -> Rgb;

    spec fn spec_blue() -> Rgb;

    fn text() -> (c: Rgb)
        ensures
            c == Self::spec_text(),
    ;

    fn background() -> (c: Rgb)
        ensures
            c == Self::spec_background(),
    ;

    fn red() -> (c: Rgb)
        ensures
            c == Self::spec_red(),
    ;

    fn green() -> (c: Rgb)
        ensures
            c == Self::spec_green(),
    ;

    fn blue() -> (c: Rgb)
        ensures
            c == Self::spec_blue(),
    ;
}

/// The Catppuccin palette.
pub struct Catpuccin;

impl Theme for Catpuccin {
    open spec fn spec_text() -> Rgb {
        Rgb { r: 205, g: 214, b: 244 }
    }

    open spec fn spec_background() -> Rgb {
        Rgb { r: 49, g: 50, b: 68 }
    }

    open spec fn spec_red() -> Rgb {
        Rgb { r: 243, g: 139, b: 168 }
    }

    open spec fn spec_green() -> Rgb {
        Rgb { r: 166, g: 227, b: 161 }
    }

    open spec fn spec_blue() -> Rgb {
        Rgb { r: 137, g: 180, b: 250 }
    }

    fn text() -> (c: Rgb) {
        Rgb { r: 205, g: 214, b: 244 }
    }

    fn background() -> (c: Rgb) {
        Rgb { r: 49, g: 50, b: 68 }
    }

    fn red() -> (c: Rgb) {
        Rgb { r: 243, g: 139, b: 168 }
    }

    fn green() -> (c: Rgb) {
        Rgb { r: 166, g: 227, b: 161 }
    }

    fn blue() -> (c: Rgb) {
        Rgb { r: 137, g: 180, b: 250 }
    }
}

} // verus!
