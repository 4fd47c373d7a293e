//! One frame of a switcher: what it shows, and how a click changes the shared
//! preference.
use vstd::prelude::*;
use crate::dimension::Dimension;
use crate::geometry::{Point, Rect, WidgetGeometry};
use crate::icons::{glyph_color, spec_glyph_color, Color, Glyph};
use crate::preference::{SharedPreferenceState, ThemePreference};

verus! {

/// The rectangles that the three glyphs occupy on the surface, as the
/// surface's text layout reports them.
#[derive(Clone, Copy, Debug, PartialEq, Eq, Structural)]
pub struct GlyphRects {
    pub light: Rect,
    pub system: Rect,
    pub dark: Rect,
}

/// What the surface reports to a switcher in one frame.
#[derive(Clone, Copy, Debug, PartialEq, Eq)]
pub struct Frame {
    /// The rectangle reserved for the switcher.
    pub rect: Rect,
    /// Whether any of that rectangle can be seen.
    pub visible: bool,
    /// Whether the surface accepts input.
    pub enabled: bool,
    /// Where the pointer was when a click on the switcher was completed in
    /// this frame, if one was.
    pub click: Option<Point>,
    /// Where the three glyphs are.
    pub glyphs: GlyphRects,
}

/// The kind of control that a screen reader announces.
#[derive(Clone, Copy, Debug, PartialEq, Eq, Structural)]
pub enum WidgetRole {
    /// One choice out of several, of which one is selected.
    RadioButton,
}

/// What a screen reader is told about a switcher: a selected radio-style
/// control, labelled "theme switcher", enabled where the surface is.
#[derive(Clone, Copy, Debug, PartialEq, Eq, Structural)]
pub struct WidgetInfo {
    pub role: WidgetRole,
    pub enabled: bool,
    pub selected: bool,
}

impl WidgetInfo {
    /// The label read out for the switcher.
    pub fn label(&self) -> (text: &'static str)
        ensures
            text@ == "theme switcher"@,
    {
        "theme switcher"
    }
}

/// What to paint for a switcher, back to front: the background over
/// `geometry.rect` with corners of `geometry.radius`; the three glyphs centred
/// on their anchors, the font scaled by `font_milli`/1000; the indicator
/// circle of `geometry.radius` around `geometry.indicator`.
#[derive(Clone, Copy, Debug, PartialEq, Eq, Structural)]
pub struct Scene {
    pub geometry: WidgetGeometry,
    /// The glyphs' font size, in thousandths of the surface's default.
    pub font_milli: u32,
    /// Whether the background takes the surface's style for a selected
    /// control: it does not.
    pub background_selected: bool,
    /// Whether the indicator takes the surface's style for a selected
    /// control: it does.
    pub indicator_selected: bool,
    /// The colour of the three glyphs: white, whatever the theme.
    pub glyph_color: Color,
}

impl Scene {
    /// The scene of a switcher of dimension `dim` that fills `rect` and shows
    /// `preference`.
    pub open spec fn spec_compose(rect: Rect, preference: ThemePreference, dim: Dimension) -> Scene {
        Scene {
            geometry: WidgetGeometry::spec_layout(rect, preference),
            font_milli: dim.spec_multiplier_milli(),
            background_selected: false,
            indicator_selected: true,
            glyph_color: spec_glyph_color(),
        }
    }

    /// Composes the scene of a switcher of dimension `dim` that fills `rect`
    /// and shows `preference`.
    pub fn compose(rect: Rect, preference: ThemePreference, dim: Dimension) -> (scene: Scene)
        requires
            rect.wf(),
        ensures
            scene == Self::spec_compose(rect, preference, dim),
    {
        Scene {
            geometry: WidgetGeometry::layout(rect, preference),
            font_milli: dim.multiplier_milli(),
            background_selected: false,
            indicator_selected: true,
            glyph_color: glyph_color(),
        }
    }
}

/// What a switcher hands back after a frame.
#[derive(Clone, Copy, Debug, PartialEq, Eq)]
pub struct Response {
    /// Whether a click on the switcher was completed in this frame.
    pub clicked: bool,
    /// Whether that click landed on a glyph, so that the shared preference was
    /// written.
    pub changed: bool,
    /// The preference read at the start of the frame. The embedder makes it
    /// the surface's theme, in every frame.
    pub theme: ThemePreference,
    /// What a screen reader is told.
    pub info: WidgetInfo,
    /// What to paint; `None` where nothing of the switcher can be seen.
    pub scene: Option<Scene>,
}

/// The glyph that a click at `p` lands on. Where glyph rectangles overlap, the
/// light glyph wins over the dark one, and both win over the system glyph.
pub open spec fn spec_route_click(glyphs: GlyphRects, p: Point) -> Option<Glyph> {
    if glyphs.light.spec_contains(p) {
        Some(Glyph::LightMode)
    } else if glyphs.dark.spec_contains(p) {
        Some(Glyph::DarkMode)
    } else if glyphs.system.spec_contains(p) {
        Some(Glyph::Settings)
    } else {
        None
    }
}

/// The glyph that this frame's click landed on, if there was a click and it
/// landed on one.
pub open spec fn glyph_hit(frame: Frame) -> Option<Glyph> {
    match frame.click {
        Some(p) => spec_route_click(frame.glyphs, p),
        None => None,
    }
}

/// The shared preference after a frame that began with `current`.
pub open spec fn next_preference(current: ThemePreference, frame: Frame) -> ThemePreference {
    match glyph_hit(frame) {
        Some(glyph) => glyph.spec_selects(),
        None => current,
    }
}

/// What a frame that began with `current` paints: nothing where the rectangle
/// is out of sight or cannot be laid out in, else the layout for `current`.
pub open spec fn scene_of(
    current: ThemePreference,
    dim: Dimension,
    frame: Frame,
) -> Option<Scene> {
    if frame.visible && frame.rect.wf() {
        Some(Scene::spec_compose(frame.rect, current, dim))
    } else {
        None
    }
}

/// What a switcher of dimension `dim` hands back after a frame that began
/// with `current`.
pub open spec fn response_of(current: ThemePreference, dim: Dimension, frame: Frame) -> Response {
    Response {
        clicked: frame.click is Some,
        changed: glyph_hit(frame) is Some,
        theme: current,
        info: WidgetInfo { role: WidgetRole::RadioButton, enabled: frame.enabled, selected: true },
        scene: scene_of(current, dim, frame),
    }
}

/// Finds the glyph that a click at `p` lands on.
pub fn route_click(glyphs: &GlyphRects, p: Point) -> (hit: Option<Glyph>)
    ensures
        hit == spec_route_click(*glyphs, p),
{
    if glyphs.light.contains(p) {
        Some(Glyph::LightMode)
    } else if glyphs.dark.contains(p) {
        Some(Glyph::DarkMode)
    } else if glyphs.system.contains(p) {
        Some(Glyph::Settings)
    } else {
        None
    }
}

/// Runs one frame of a switcher of dimension `dim` over the shared preference.
///
/// The preference is read once, at the start: it is the theme to apply and
/// what the scene shows. A click that landed on a glyph then overwrites the
/// shared preference with that glyph's; any other frame leaves it as it was.
pub fn theme_switcher_ui(
    state: &mut SharedPreferenceState,
    dim: Dimension,
    frame: &Frame,
) -> (response: Response)
    ensures
        response == response_of(old(state)@, dim, *frame),
        final(state)@ == next_preference(old(state)@, *frame),
        response.changed == (glyph_hit(*frame) is Some),
        !response.changed ==> final(state)@ == old(state)@,
{
    let theme = state.read();
    let scene = if frame.visible && frame.rect.is_well_formed() {
        Some(Scene::compose(frame.rect, theme, dim))
    } else {
        None
    };
    let hit = match frame.click {
        Some(p) => route_click(&frame.glyphs, p),
        None => None,
    };
    let changed = match hit {
        Some(glyph) => {
            state.write(glyph.selects());
            true
        },
        None => false,
    };
    Response {
        clicked: frame.click.is_some(),
        changed,
        theme,
        info: WidgetInfo { role: WidgetRole::RadioButton, enabled: frame.enabled, selected: true },
        scene,
    }
}

/// A switcher of a given dimension, ready to be run frame by frame.
#[derive(Clone, Copy, Debug, PartialEq, Eq, Structural)]
pub struct ThemeSwitcher {
    pub dimension: Dimension,
}

impl ThemeSwitcher {
    /// Runs one frame of this switcher over the shared preference.
    pub fn ui(&self, state: &mut SharedPreferenceState, frame: &Frame) -> (response: Response)
        ensures
            response == response_of(old(state)@, self.dimension, *frame),
            final(state)@ == next_preference(old(state)@, *frame),
    {
        theme_switcher_ui(state, self.dimension, frame)
    }
}

/// A switcher of dimension `dim`.
pub fn theme_switcher_with_dimension(dim: Dimension) -> (switcher: ThemeSwitcher)
    ensures
        switcher.dimension == dim,
{
    ThemeSwitcher { dimension: dim }
}

/// A switcher of dimension `S`.
pub fn theme_switcher() -> (switcher: ThemeSwitcher)
    ensures
        switcher.dimension == Dimension::S,
{
    ThemeSwitcher { dimension: Dimension::S }
}

/// A frame without a click leaves the shared preference as it was, and so do
/// two such frames in a row.
pub proof fn lemma_idle_frames_keep_preference(
    current: ThemePreference,
    first: Frame,
    second: Frame,
)
    requires
        first.click is None,
        second.click is None,
    ensures
        next_preference(current, first) == current,
        next_preference(next_preference(current, first), second) == current,
{
}

/// A click strictly inside the light glyph's rectangle selects `Light`,
/// whatever the preference was.
pub proof fn lemma_click_in_light_selects_light(current: ThemePreference, frame: Frame, p: Point)
    requires
        frame.click == Some(p),
        frame.glyphs.light.strictly_contains(p),
    ensures
        next_preference(current, frame) == ThemePreference::Light,
{
}

/// A click strictly inside the dark glyph's rectangle, and not on the light
/// glyph's, selects `Dark`, whatever the preference was.
pub proof fn lemma_click_in_dark_selects_dark(current: ThemePreference, frame: Frame, p: Point)
    requires
        frame.click == Some(p),
        frame.glyphs.dark.strictly_contains(p),
        !frame.glyphs.light.spec_contains(p),
    ensures
        next_preference(current, frame) == ThemePreference::Dark,
{
}

/// A click strictly inside the system glyph's rectangle, and on neither of
/// the other two, selects `System`, whatever the preference was.
pub proof fn lemma_click_in_system_selects_system(
    current: ThemePreference,
    frame: Frame,
    p: Point,
)
    requires
        frame.click == Some(p),
        frame.glyphs.system.strictly_contains(p),
        !frame.glyphs.light.spec_contains(p),
        !frame.glyphs.dark.spec_contains(p),
    ensures
        next_preference(current, frame) == ThemePreference::System,
{
}

/// Whether no point lies on two of the three glyph rectangles.
pub open spec fn glyphs_disjoint(glyphs: GlyphRects) -> bool {
    forall|q: Point|
        {
            &&& !(#[trigger] glyphs.light.spec_contains(q) && glyphs.dark.spec_contains(q))
            &&& !(glyphs.light.spec_contains(q) && glyphs.system.spec_contains(q))
            &&& !(glyphs.dark.spec_contains(q) && glyphs.system.spec_contains(q))
        }
}

/// Where the glyph rectangles do not overlap, a click selects the preference
/// of the one glyph whose rectangle it is in, whatever the preference was.
pub proof fn lemma_click_routing_of_disjoint_glyphs(
    current: ThemePreference,
    frame: Frame,
    p: Point,
)
    requires
        frame.click == Some(p),
        glyphs_disjoint(frame.glyphs),
    ensures
        frame.glyphs.light.spec_contains(p) ==> next_preference(current, frame)
            == ThemePreference::Light,
        frame.glyphs.dark.spec_contains(p) ==> next_preference(current, frame)
            == ThemePreference::Dark,
        frame.glyphs.system.spec_contains(p) ==> next_preference(current, frame)
            == ThemePreference::System,
{
    assert(!(frame.glyphs.light.spec_contains(p) && frame.glyphs.dark.spec_contains(p)));
    assert(!(frame.glyphs.light.spec_contains(p) && frame.glyphs.system.spec_contains(p)));
    assert(!(frame.glyphs.dark.spec_contains(p) && frame.glyphs.system.spec_contains(p)));
}

/// A click on none of the three glyph rectangles leaves the preference as it
/// was and is not reported as a change.
pub proof fn lemma_click_off_glyphs_changes_nothing(
    current: ThemePreference,
    dim: Dimension,
    frame: Frame,
    p: Point,
)
    requires
        frame.click == Some(p),
        !frame.glyphs.light.spec_contains(p),
        !frame.glyphs.dark.spec_contains(p),
        !frame.glyphs.system.spec_contains(p),
    ensures
        next_preference(current, frame) == current,
        response_of(current, dim, frame).clicked,
        !response_of(current, dim, frame).changed,
{
}

/// A frame is reported as a change exactly when its click landed on a glyph,
/// and then the preference afterwards is that glyph's. Every frame that
/// leaves a different preference behind is reported as a change.
pub proof fn lemma_changed_reports_writes(current: ThemePreference, dim: Dimension, frame: Frame)
    ensures
        response_of(current, dim, frame).changed <==> glyph_hit(frame) is Some,
        response_of(current, dim, frame).changed ==> next_preference(current, frame) == glyph_hit(
            frame,
        ).unwrap().spec_selects(),
        next_preference(current, frame) != current ==> response_of(current, dim, frame).changed,
{
}

/// A switcher that is out of sight paints nothing, and everything else about
/// its frame is as if it were in sight: the theme to apply, the click, the
/// change, and the preference left behind.
pub proof fn lemma_culling_only_drops_scene(current: ThemePreference, dim: Dimension, frame: Frame)
    requires
        !frame.visible,
    ensures
        response_of(current, dim, frame).scene is None,
        response_of(current, dim, frame) == (Response {
            scene: None,
            ..response_of(current, dim, Frame { visible: true, ..frame })
        }),
        next_preference(current, frame) == next_preference(
            current,
            Frame { visible: true, ..frame },
        ),
{
}

} // verus!
