//! A tri-state theme switcher (light / system / dark) for immediate-mode
//! user interfaces.
//!
//! The crate holds the switcher's rules: how large it wants to be, where its
//! parts go inside the rectangle it was given, which glyph a click lands on,
//! and how the shared preference changes from one frame to the next. All
//! lengths and coordinates are whole numbers of a sub-pixel step that the
//! embedding application chooses; scale factors are given in thousandths.
//! Painting and input stay with the embedder, which hands each frame's
//! observations in and carries the returned scene out.
pub mod dimension;
pub mod geometry;
pub mod icons;
pub mod preference;
pub mod switcher;

pub use dimension::{desired_size, Dimension, Size};
pub use geometry::{Point, Rect, WidgetGeometry};
pub use icons::{glyph_color, glyph_text, Color, Glyph};
pub use preference::{preference_or_default, SharedPreferenceState, ThemePreference};
pub use switcher::{
    route_click, theme_switcher, theme_switcher_ui, theme_switcher_with_dimension, Frame,
    GlyphRects, Response, Scene, ThemeSwitcher, WidgetInfo, WidgetRole,
};
