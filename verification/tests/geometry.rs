use egui_theme_switcher::{
    glyph_color, glyph_text, Color, Glyph, Point, Rect, ThemePreference, WidgetGeometry,
};

#[test]
fn rect_contains_its_edges() {
    let rect = Rect::new(10, 20, 30, 40);
    assert!(rect.contains(Point { x: 10, y: 20 }));
    assert!(rect.contains(Point { x: 30, y: 40 }));
    assert!(rect.contains(Point { x: 20, y: 30 }));
    assert!(!rect.contains(Point { x: 9, y: 30 }));
    assert!(!rect.contains(Point { x: 31, y: 30 }));
    assert!(!rect.contains(Point { x: 20, y: 19 }));
    assert!(!rect.contains(Point { x: 20, y: 41 }));
}

#[test]
fn rect_width_and_height() {
    let rect = Rect::new(-10, 20, 30, 45);
    assert!(rect.is_well_formed());
    assert_eq!(rect.width(), 40);
    assert_eq!(rect.height(), 25);
    let inside_out = Rect::new(30, 45, -10, 20);
    assert_eq!(inside_out.width(), -40);
    assert_eq!(inside_out.height(), -25);
}

#[test]
fn try_layout_refuses_what_cannot_be_laid_out_in() {
    let rect = Rect::new(100, 200, 600, 300);
    assert_eq!(
        WidgetGeometry::try_layout(rect, ThemePreference::Dark),
        Some(WidgetGeometry::layout(rect, ThemePreference::Dark))
    );
    assert_eq!(WidgetGeometry::try_layout(Rect::new(1, 1, 0, 0), ThemePreference::Dark), None);
    assert_eq!(
        WidgetGeometry::try_layout(Rect::new(0, 0, i64::MAX, 1), ThemePreference::Light),
        None
    );
}

#[test]
fn inside_out_or_huge_rects_are_not_well_formed() {
    assert!(Rect::new(0, 0, 0, 0).is_well_formed());
    assert!(!Rect::new(10, 0, 0, 10).is_well_formed());
    assert!(!Rect::new(0, 10, 10, 0).is_well_formed());
    assert!(Rect::new(-1_099_511_627_776, 0, 1_099_511_627_776, 1).is_well_formed());
    assert!(!Rect::new(0, 0, 1_099_511_627_777, 1).is_well_formed());
    assert!(!Rect::new(0, -1_099_511_627_777, 1, 1).is_well_formed());
    assert!(!Rect::new(i64::MIN, i64::MIN, i64::MAX, i64::MAX).is_well_formed());
}

#[test]
fn layout_places_glyphs_and_radius() {
    let rect = Rect::new(100, 200, 600, 300);
    let geometry = WidgetGeometry::layout(rect, ThemePreference::System);
    assert_eq!(geometry.rect, rect);
    assert_eq!(geometry.radius, 50);
    assert_eq!(geometry.light, Point { x: 155, y: 245 });
    assert_eq!(geometry.system, Point { x: 350, y: 250 });
    assert_eq!(geometry.dark, Point { x: 545, y: 245 });
}

#[test]
fn indicator_follows_the_preference() {
    let rect = Rect::new(100, 200, 600, 300);
    let light = WidgetGeometry::layout(rect, ThemePreference::Light);
    let system = WidgetGeometry::layout(rect, ThemePreference::System);
    let dark = WidgetGeometry::layout(rect, ThemePreference::Dark);
    assert_eq!(light.indicator, Point { x: 150, y: 250 });
    assert_eq!(system.indicator, Point { x: 350, y: 250 });
    assert_eq!(dark.indicator, Point { x: 550, y: 250 });
}

#[test]
fn layout_rounds_down_to_whole_steps() {
    let rect = Rect::new(-7, -5, 8, 0);
    let geometry = WidgetGeometry::layout(rect, ThemePreference::System);
    assert_eq!(geometry.radius, 2);
    assert_eq!(geometry.light, Point { x: -5, y: -3 });
    assert_eq!(geometry.system, Point { x: 0, y: -3 });
    assert_eq!(geometry.dark, Point { x: 6, y: -3 });
    assert_eq!(geometry.indicator, Point { x: 0, y: -3 });
}

#[test]
fn layout_of_an_empty_rect_collapses_to_its_corner() {
    let rect = Rect::new(4, 9, 4, 9);
    let geometry = WidgetGeometry::layout(rect, ThemePreference::Dark);
    assert_eq!(geometry.radius, 0);
    assert_eq!(geometry.light, Point { x: 4, y: 9 });
    assert_eq!(geometry.system, Point { x: 4, y: 9 });
    assert_eq!(geometry.dark, Point { x: 4, y: 9 });
    assert_eq!(geometry.indicator, Point { x: 4, y: 9 });
}

#[test]
fn layout_at_the_coordinate_limit() {
    let limit: i64 = 1_099_511_627_776;
    let rect = Rect::new(-limit, -limit, limit, limit);
    let geometry = WidgetGeometry::layout(rect, ThemePreference::Dark);
    assert_eq!(geometry.radius, limit);
    assert_eq!(geometry.indicator, Point { x: 0, y: 0 });
    assert_eq!(geometry.system, Point { x: 0, y: 0 });
}

#[test]
fn glyph_texts_are_the_material_icons() {
    assert_eq!(glyph_text(Glyph::LightMode), "\u{e518}");
    assert_eq!(glyph_text(Glyph::Settings), "\u{e8b8}");
    assert_eq!(glyph_text(Glyph::DarkMode), "\u{e51c}");
    assert_eq!(glyph_text(Glyph::LightMode), egui_material_icons::icons::ICON_LIGHT_MODE);
    assert_eq!(glyph_text(Glyph::Settings), egui_material_icons::icons::ICON_SETTINGS);
    assert_eq!(glyph_text(Glyph::DarkMode), egui_material_icons::icons::ICON_DARK_MODE);
}

#[test]
fn glyphs_select_their_preference() {
    assert_eq!(Glyph::LightMode.selects(), ThemePreference::Light);
    assert_eq!(Glyph::Settings.selects(), ThemePreference::System);
    assert_eq!(Glyph::DarkMode.selects(), ThemePreference::Dark);
}

#[test]
fn glyphs_are_white() {
    assert_eq!(glyph_color(), Color { r: 255, g: 255, b: 255 });
    let white = egui::Color32::WHITE;
    assert_eq!(glyph_color(), Color { r: white.r(), g: white.g(), b: white.b() });
    assert_eq!(white.a(), 255);
}
