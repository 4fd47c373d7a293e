//! Points, rectangles, and where the switcher's parts go.
use vstd::prelude::*;
use crate::preference::ThemePreference;

verus! {

/// The largest magnitude of a coordinate that the layout rules work with.
pub const COORD_LIMIT: i64 = 1_099_511_627_776;

/// A position on the surface, in sub-pixel steps.
#[derive(Clone, Copy, Debug, PartialEq, Eq, Structural)]
pub struct Point {
    pub x: i64,
    pub y: i64,
}

/// An axis-aligned rectangle given by its top-left and bottom-right corners.
#[derive(Clone, Copy, Debug, PartialEq, Eq, Structural)]
pub struct Rect {
    pub min: Point,
    pub max: Point,
}

impl Rect {
    /// Whether `p` lies in the rectangle, its edges included.
    pub open spec fn spec_contains(self, p: Point) -> bool {
        &&& self.min.x <= p.x <= self.max.x
        &&& self.min.y <= p.y <= self.max.y
    }

    /// Whether `p` lies in the rectangle and on none of its edges.
    pub open spec fn strictly_contains(self, p: Point) -> bool {
        &&& self.min.x < p.x < self.max.x
        &&& self.min.y < p.y < self.max.y
    }

    /// Whether no coordinate exceeds `COORD_LIMIT` in magnitude.
    pub open spec fn in_range(self) -> bool {
        &&& -COORD_LIMIT <= self.min.x <= COORD_LIMIT
        &&& -COORD_LIMIT <= self.min.y <= COORD_LIMIT
        &&& -COORD_LIMIT <= self.max.x <= COORD_LIMIT
        &&& -COORD_LIMIT <= self.max.y <= COORD_LIMIT
    }

    /// Whether the rectangle can be laid out in: its corners are in order (it
    /// may be empty, but not inside out) and it is in range.
    pub open spec fn wf(self) -> bool {
        &&& self.in_range()
        &&& self.min.x <= self.max.x
        &&& self.min.y <= self.max.y
    }

    pub open spec fn spec_width(self) -> int {
        self.max.x - self.min.x
    }

    pub open spec fn spec_height(self) -> int {
        self.max.y - self.min.y
    }

    /// The rectangle from (`left`, `top`) to (`right`, `bottom`).
    pub fn new(left: i64, top: i64, right: i64, bottom: i64) -> (rect: Self)
        ensures
            rect.min == (Point { x: left, y: top }),
            rect.max == (Point { x: right, y: bottom }),
    {
        Rect { min: Point { x: left, y: top }, max: Point { x: right, y: bottom } }
    }

    /// Whether the rectangle can be laid out in.
    pub fn is_well_formed(&self) -> (ok: bool)
        ensures
            ok == self.wf(),
    {
        -COORD_LIMIT <= self.min.x && self.min.x <= self.max.x && self.max.x <= COORD_LIMIT
            && -COORD_LIMIT <= self.min.y && self.min.y <= self.max.y && self.max.y
            <= COORD_LIMIT
    }

    /// Whether `p` lies in the rectangle, its edges included.
    pub fn contains(&self, p: Point) -> (inside: bool)
        ensures
            inside == self.spec_contains(p),
    {
        self.min.x <= p.x && p.x <= self.max.x && self.min.y <= p.y && p.y <= self.max.y
    }

    /// The rectangle's width; negative where it is inside out.
    pub fn width(&self) -> (w: i64)
        requires
            self.in_range(),
        ensures
            w == self.spec_width(),
    {
        self.max.x - self.min.x
    }

    /// The rectangle's height; negative where it is inside out.
    pub fn height(&self) -> (h: i64)
        requires
            self.in_range(),
        ensures
            h == self.spec_height(),
    {
        self.max.y - self.min.y
    }
}

/// The point `halves`/2 of the way from `lo` to `hi`, rounded down to a whole
/// step.
pub open spec fn lerp_halves(lo: int, hi: int, halves: int) -> int {
    lo + (hi - lo) * halves / 2
}

/// Where the parts of a switcher go inside the rectangle it was given.
#[derive(Clone, Copy, Debug, PartialEq, Eq, Structural)]
pub struct WidgetGeometry {
    /// The whole switcher; the background fills it.
    pub rect: Rect,
    /// Radius of the indicator and of the background's corners.
    pub radius: i64,
    /// Centre of the light-mode glyph.
    pub light: Point,
    /// Centre of the system glyph.
    pub system: Point,
    /// Centre of the dark-mode glyph.
    pub dark: Point,
    /// Centre of the indicator circle.
    pub indicator: Point,
}

impl WidgetGeometry {
    /// The layout of a switcher that fills `rect` and shows `preference`.
    ///
    /// The radius is half the height. The system glyph sits in the middle; the
    /// light and dark glyphs sit 1.1 radii in from the left and right edges,
    /// a tenth of a radius above the middle line. The indicator sits on the
    /// middle line, `preference`'s on-fraction of the way from one radius
    /// right of the left edge to one radius left of the right edge.
    pub open spec fn spec_layout(rect: Rect, preference: ThemePreference) -> WidgetGeometry {
        let radius = rect.spec_height() / 2;
        let middle = rect.min.y + rect.spec_height() / 2;
        WidgetGeometry {
            rect,
            radius: radius as i64,
            light: Point {
                x: (rect.min.x + 11 * radius / 10) as i64,
                y: (middle - radius / 10) as i64,
            },
            system: Point { x: (rect.min.x + rect.spec_width() / 2) as i64, y: middle as i64 },
            dark: Point {
                x: (rect.max.x - 11 * radius / 10) as i64,
                y: (middle - radius / 10) as i64,
            },
            indicator: Point {
                x: lerp_halves(
                    rect.min.x + radius,
                    rect.max.x - radius,
                    preference.spec_on_halves() as int,
                ) as i64,
                y: middle as i64,
            },
        }
    }

    /// Lays a switcher out in `rect`, with the indicator where `preference`
    /// puts it.
    pub fn layout(rect: Rect, preference: ThemePreference) -> (geometry: Self)
        requires
            rect.wf(),
        ensures
            geometry == Self::spec_layout(rect, preference),
            geometry.radius == rect.spec_height() / 2,
            geometry.indicator.y == rect.min.y + geometry.radius,
            geometry.indicator.x == match preference {
                ThemePreference::Light => rect.min.x + geometry.radius,
                ThemePreference::System => rect.min.x + rect.spec_width() / 2,
                ThemePreference::Dark => rect.max.x - geometry.radius,
            },
    {
        let width: i64 = rect.width();
        let height: i64 = rect.height();
        let radius: i64 = height / 2;
        let middle: i64 = rect.min.y + radius;
        let inset: i64 = 11 * radius / 10;
        let lift: i64 = radius / 10;
        let indicator_x: i64 = match preference {
            ThemePreference::Light => rect.min.x + radius,
            ThemePreference::System => rect.min.x + width / 2,
            ThemePreference::Dark => rect.max.x - radius,
        };
        proof {
            let lo = rect.min.x + radius;
            let hi = rect.max.x - radius;
            assert(hi - lo == width - 2 * radius);
            assert((hi - lo) * 0 / 2 == 0);
            assert((hi - lo) * 1 / 2 == width / 2 - radius);
            assert((hi - lo) * 2 / 2 == hi - lo);
            assert(indicator_x == lerp_halves(lo, hi, preference.spec_on_halves() as int));
        }
        WidgetGeometry {
            rect,
            radius,
            light: Point { x: rect.min.x + inset, y: middle - lift },
            system: Point { x: rect.min.x + width / 2, y: middle },
            dark: Point { x: rect.max.x - inset, y: middle - lift },
            indicator: Point { x: indicator_x, y: middle },
        }
    }
}

impl WidgetGeometry {
    /// Lays a switcher out in `rect` where that can be done, and says so
    /// where it cannot.
    pub fn try_layout(rect: Rect, preference: ThemePreference) -> (geometry: Option<Self>)
        ensures
            geometry == if rect.wf() {
                Some(Self::spec_layout(rect, preference))
            } else {
                None
            },
    {
        if rect.is_well_formed() {
            Some(Self::layout(rect, preference))
        } else {
            None
        }
    }
}

/// The indicator never leaves the track: for a rectangle at least as wide as
/// it is high, its centre stays between one radius right of the left edge and
/// one radius left of the right edge, and moves right as the preference goes
/// from `Light` over `System` to `Dark`.
pub proof fn lemma_indicator_on_track(rect: Rect, preference: ThemePreference)
    requires
        rect.wf(),
        rect.spec_height() <= rect.spec_width(),
    ensures
        rect.min.x + rect.spec_height() / 2 <= WidgetGeometry::spec_layout(
            rect,
            preference,
        ).indicator.x <= rect.max.x - rect.spec_height() / 2,
        WidgetGeometry::spec_layout(rect, ThemePreference::Light).indicator.x
            <= WidgetGeometry::spec_layout(rect, ThemePreference::System).indicator.x
            <= WidgetGeometry::spec_layout(rect, ThemePreference::Dark).indicator.x,
{
    let radius = rect.spec_height() / 2;
    let lo = rect.min.x + radius;
    let hi = rect.max.x - radius;
    assert(hi - lo == rect.spec_width() - 2 * radius);
    assert(lerp_halves(lo, hi, 0) == lo) by {
        assert((hi - lo) * 0 / 2 == 0);
    }
    assert(lerp_halves(lo, hi, 1) == rect.min.x + rect.spec_width() / 2) by {
        assert((hi - lo) * 1 / 2 == rect.spec_width() / 2 - radius);
    }
    assert(lerp_halves(lo, hi, 2) == hi) by {
        assert((hi - lo) * 2 / 2 == hi - lo);
    }
}

} // verus!
