//! The three glyphs that a switcher shows, and their colour.
use vstd::prelude::*;
use crate::preference::ThemePreference;

verus! {

/// One of the three glyphs, from left to right.
#[derive(Clone, Copy, Debug, PartialEq, Eq, Structural)]
pub enum Glyph {
    LightMode,
    Settings,
    DarkMode,
}

impl Glyph {
    /// The preference that a click on this glyph selects.
    pub open spec fn spec_selects(self) -> ThemePreference {
        match self {
            Glyph::LightMode => ThemePreference::Light,
            Glyph::Settings => ThemePreference::System,
            Glyph::DarkMode => ThemePreference::Dark,
        }
    }

    /// The preference that a click on this glyph selects.
    #[verifier::when_used_as_spec(spec_selects)]
    pub fn selects(self) -> (preference: ThemePreference)
        ensures
            preference == self.spec_selects(),
    {
        match self {
            Glyph::LightMode => ThemePreference::Light,
            Glyph::Settings => ThemePreference::System,
            Glyph::DarkMode => ThemePreference::Dark,
        }
    }

    /// The code point that the icon font draws this glyph from.
    pub open spec fn code_point(self) -> char {
        match self {
            Glyph::LightMode => '\u{e518}',
            Glyph::Settings => '\u{e8b8}',
            Glyph::DarkMode => '\u{e51c}',
        }
    }
}

/// `egui_material_icons::icons::ICON_LIGHT_MODE`: the string made of the
/// single code point U+E518. Taken on trust from the icon crate's table.
#[verifier::external_body]
fn icon_light_mode() -> (text: &'static str)
    ensures
        text@ == seq!['\u{e518}'],
{
    egui_material_icons::icons::ICON_LIGHT_MODE
}

/// `egui_material_icons::icons::ICON_SETTINGS`: the string made of the single
/// code point U+E8B8. Taken on trust from the icon crate's table.
#[verifier::external_body]
fn icon_settings() -> (text: &'static str)
    ensures
        text@ == seq!['\u{e8b8}'],
{
    egui_material_icons::icons::ICON_SETTINGS
}

/// `egui_material_icons::icons::ICON_DARK_MODE`: the string made of the
/// single code point U+E51C. Taken on trust from the icon crate's table.
#[verifier::external_body]
fn icon_dark_mode() -> (text: &'static str)
    ensures
        text@ == seq!['\u{e51c}'],
{
    egui_material_icons::icons::ICON_DARK_MODE
}

/// A colour without transparency, by its red, green and blue parts.
#[derive(Clone, Copy, Debug, PartialEq, Eq, Structural)]
pub struct Color {
    pub r: u8,
    pub g: u8,
    pub b: u8,
}

/// The colour of the three glyphs: white, whatever the theme.
pub open spec fn spec_glyph_color() -> Color {
    Color { r: 255, g: 255, b: 255 }
}

/// `egui::Color32::WHITE` by its parts, read with `Color32::r`, `g` and `b`:
/// each is 255. Taken on trust from the colour crate's constant.
#[verifier::external_body]
fn color32_white() -> (color: Color)
    ensures
        color == (Color { r: 255, g: 255, b: 255 }),
{
    let white = egui::Color32::WHITE;
    Color { r: white.r(), g: white.g(), b: white.b() }
}

/// The colour to draw the three glyphs in.
#[verifier::when_used_as_spec(spec_glyph_color)]
pub fn glyph_color() -> (color: Color)
    ensures
        color == spec_glyph_color(),
{
    color32_white()
}

/// The text to draw for `glyph` with the material icon font: one code point.
pub fn glyph_text(glyph: Glyph) -> (text: &'static str)
    ensures
        text@ == seq![glyph.code_point()],
{
    match glyph {
        Glyph::LightMode => icon_light_mode(),
        Glyph::Settings => icon_settings(),
        Glyph::DarkMode => icon_dark_mode(),
    }
}

} // verus!
