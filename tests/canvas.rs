use silkstick::canvas::{create_canvas, DrawOp};
use silkstick::color::{black, cyan, red, Color};
use silkstick::paint::{Paint, SkiaPaint};

fn painted(color: Color) -> SkiaPaint {
    let mut p = SkiaPaint::new();
    p.set_color(color);
    p
}

#[test]
fn fresh_paint_is_black() {
    assert_eq!(SkiaPaint::new().color(), black());
}

#[test]
fn set_color_changes_paint() {
    let mut p = SkiaPaint::new();
    p.set_color(red());
    assert_eq!(p.color(), red());
}

#[test]
fn fresh_canvas_is_empty() {
    let c = create_canvas();
    assert!(c.operations().is_empty());
}

#[test]
fn draw_rect_uses_current_paint() {
    let mut c = create_canvas();
    c.draw_rect((10, 10), (100, 100));
    assert_eq!(
        c.operations(),
        &vec![DrawOp::Rect { pos: (10, 10), size: (100, 100), paint: SkiaPaint::new() }]
    );
}

#[test]
fn alter_paint_applies_to_later_shapes() {
    let mut c = create_canvas();
    c.alter_paint(|p| {
        let mut p = p;
        p.set_color(red());
        p
    });
    c.draw_elipse((1, 2), (3, 4));
    assert_eq!(
        c.operations(),
        &vec![DrawOp::Ellipse { pos: (1, 2), size: (3, 4), paint: painted(red()) }]
    );
}

#[test]
fn draw_line_ends_at_start_plus_move() {
    let mut c = create_canvas();
    c.draw_line((5, -7), (10, 20));
    assert_eq!(
        c.operations(),
        &vec![DrawOp::Line { start: (5, -7), end: (15, 13), paint: SkiaPaint::new() }]
    );
}

#[test]
fn draw_line_does_not_overflow() {
    let mut c = create_canvas();
    c.draw_line((i32::MAX, i32::MIN), (i32::MAX, i32::MIN));
    assert_eq!(
        c.operations(),
        &vec![DrawOp::Line {
            start: (i32::MAX, i32::MIN),
            end: (2 * i32::MAX as i64, 2 * i32::MIN as i64),
            paint: SkiaPaint::new(),
        }]
    );
}

#[test]
fn draw_text_records_text() {
    let mut c = create_canvas();
    c.draw_text((3, 4), "hello");
    assert_eq!(
        c.operations(),
        &vec![DrawOp::Text { pos: (3, 4), text: "hello".to_string(), paint: SkiaPaint::new() }]
    );
}

#[test]
fn paint_taken_and_handed_back() {
    let mut c = create_canvas();
    let mut p = c.take_paint();
    assert_eq!(p, SkiaPaint::new());
    p.set_color(red());
    c.put_paint(p);
    c.draw_rect((0, 0), (1, 1));
    assert_eq!(
        c.operations(),
        &vec![DrawOp::Rect { pos: (0, 0), size: (1, 1), paint: painted(red()) }]
    );
}

#[test]
fn section_with_clip() {
    let mut c = create_canvas();
    c.enter_section((200, 200), (100, 100), true, |inner| {
        let mut inner = inner;
        inner.draw_rect((0, 0), (5, 5));
        inner
    });
    assert_eq!(
        c.operations(),
        &vec![
            DrawOp::Save,
            DrawOp::ClipRect { pos: (200, 200), size: (100, 100) },
            DrawOp::Translate { offset: (200, 200) },
            DrawOp::Rect { pos: (0, 0), size: (5, 5), paint: SkiaPaint::new() },
            DrawOp::Restore,
        ]
    );
}

#[test]
fn section_without_clip() {
    let mut c = create_canvas();
    c.enter_section((7, 8), (9, 10), false, |inner| inner);
    assert_eq!(
        c.operations(),
        &vec![DrawOp::Save, DrawOp::Translate { offset: (7, 8) }, DrawOp::Restore]
    );
}

#[test]
fn section_starts_from_default_paint() {
    let mut c = create_canvas();
    c.alter_paint(|p| {
        let mut p = p;
        p.set_color(red());
        p
    });
    c.enter_section((0, 0), (1, 1), false, |inner| {
        let mut inner = inner;
        inner.draw_rect((0, 0), (1, 1));
        inner
    });
    assert_eq!(
        c.operations()[2],
        DrawOp::Rect { pos: (0, 0), size: (1, 1), paint: SkiaPaint::new() }
    );
}

#[test]
fn section_paint_does_not_leak() {
    let mut c = create_canvas();
    c.alter_paint(|p| {
        let mut p = p;
        p.set_color(red());
        p
    });
    c.enter_section((0, 0), (1, 1), true, |inner| {
        let mut inner = inner;
        inner
            .alter_paint(|p| {
                let mut p = p;
                p.set_color(cyan());
                p
            });
        inner
    });
    c.draw_rect((2, 2), (3, 3));
    assert_eq!(
        c.operations().last(),
        Some(&DrawOp::Rect { pos: (2, 2), size: (3, 3), paint: painted(red()) })
    );
}

#[test]
fn nested_sections_are_balanced() {
    let mut c = create_canvas();
    c.enter_section((1, 1), (2, 2), false, |inner| {
        let mut inner = inner;
        inner.enter_section((3, 3), (4, 4), true, |deep| deep);
        inner
    });
    assert_eq!(
        c.operations(),
        &vec![
            DrawOp::Save,
            DrawOp::Translate { offset: (1, 1) },
            DrawOp::Save,
            DrawOp::ClipRect { pos: (3, 3), size: (4, 4) },
            DrawOp::Translate { offset: (3, 3) },
            DrawOp::Restore,
            DrawOp::Restore,
        ]
    );
}

#[test]
fn section_keeps_earlier_instructions() {
    let mut c = create_canvas();
    c.draw_rect((0, 0), (1, 1));
    c.enter_section((0, 0), (1, 1), false, |inner| inner);
    assert_eq!(c.operations().len(), 4);
    assert_eq!(
        c.operations()[0],
        DrawOp::Rect { pos: (0, 0), size: (1, 1), paint: SkiaPaint::new() }
    );
}
