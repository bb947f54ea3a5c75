use app_utility::editor::Editor;
use app_utility::stroke::{Color, Point, Shape, Style, ToolKind};

fn style(width: u32) -> Style {
    Style { width, color: Color { r: 0, g: 0, b: 0, a: 255 } }
}

fn drawing_editor(tool: ToolKind) -> Editor {
    let mut e = Editor::new(style(100));
    e.set_session(true);
    e.set_active_tool(tool);
    e
}

fn p(x: i32, y: i32) -> Point {
    Point { x, y }
}

fn stroke_points(s: &Shape) -> (ToolKind, Vec<Point>, Style) {
    match s {
        Shape::Stroke { kind, points, style } => (*kind, points.clone(), *style),
        Shape::Label { .. } => panic!("expected a stroke"),
    }
}

#[test]
fn pen_three_points_then_undo() {
    let mut e = drawing_editor(ToolKind::Pen);
    e.feed_pointer(p(1, 1), style(100));
    e.feed_pointer(p(2, 2), style(100));
    e.feed_pointer(p(3, 3), style(100));
    e.end_pointer_input();
    let shapes = e.visible_shapes();
    assert_eq!(shapes.len(), 1);
    let (kind, points, _) = stroke_points(&shapes[0]);
    assert_eq!(kind, ToolKind::Pen);
    assert_eq!(points, vec![p(1, 1), p(2, 2), p(3, 3)]);
    e.undo_last();
    assert_eq!(e.visible_shapes().len(), 0);
}

#[test]
fn sealed_stroke_uses_first_sample_style() {
    let mut e = drawing_editor(ToolKind::Line);
    e.feed_pointer(p(0, 0), style(150));
    e.feed_pointer(p(5, 0), style(300));
    e.end_pointer_input();
    let shapes = e.visible_shapes();
    assert_eq!(shapes.len(), 1);
    let (kind, points, st) = stroke_points(&shapes[0]);
    assert_eq!(kind, ToolKind::Line);
    assert_eq!(points.len(), 2);
    assert_eq!(st, style(150));
    assert_eq!(e.undo_log().clone(), vec![ToolKind::Line]);
}

#[test]
fn repeated_samples_are_recorded_once() {
    let mut e = drawing_editor(ToolKind::Pen);
    e.feed_pointer(p(4, 4), style(100));
    e.feed_pointer(p(4, 4), style(100));
    e.feed_pointer(p(4, 4), style(100));
    e.feed_pointer(p(9, 9), style(100));
    e.end_pointer_input();
    let (_, points, _) = stroke_points(&e.visible_shapes()[0]);
    assert_eq!(points, vec![p(4, 4), p(9, 9)]);
}

#[test]
fn single_sample_stroke_is_not_visible() {
    let mut e = drawing_editor(ToolKind::Rectangle);
    e.feed_pointer(p(7, 7), style(100));
    e.end_pointer_input();
    assert_eq!(e.visible_shapes().len(), 0);
    assert_eq!(e.undo_log().len(), 1);
}

#[test]
fn single_sample_arrow_is_visible() {
    let mut e = drawing_editor(ToolKind::Arrow);
    e.feed_pointer(p(7, 7), style(100));
    e.end_pointer_input();
    let shapes = e.visible_shapes();
    assert_eq!(shapes.len(), 1);
    assert_eq!(stroke_points(&shapes[0]).0, ToolKind::Arrow);
}

#[test]
fn end_without_samples_logs_nothing() {
    let mut e = drawing_editor(ToolKind::Circle);
    e.end_pointer_input();
    e.end_pointer_input();
    assert_eq!(e.undo_log().len(), 0);
}

#[test]
fn no_input_without_session() {
    let mut e = Editor::new(style(100));
    e.set_active_tool(ToolKind::Pen);
    e.feed_pointer(p(1, 1), style(100));
    e.feed_pointer(p(2, 2), style(100));
    e.end_pointer_input();
    assert_eq!(e.visible_shapes().len(), 0);
    assert_eq!(e.undo_log().len(), 0);
}

#[test]
fn undo_leaves_other_tools_untouched() {
    let mut e = drawing_editor(ToolKind::Pen);
    e.feed_pointer(p(1, 1), style(100));
    e.feed_pointer(p(2, 2), style(100));
    e.end_pointer_input();
    e.set_active_tool(ToolKind::Circle);
    e.feed_pointer(p(10, 10), style(100));
    e.feed_pointer(p(20, 20), style(100));
    e.end_pointer_input();
    assert_eq!(e.visible_shapes().len(), 2);
    e.undo_last();
    let shapes = e.visible_shapes();
    assert_eq!(shapes.len(), 1);
    assert_eq!(stroke_points(&shapes[0]).0, ToolKind::Pen);
    assert_eq!(e.undo_log().clone(), vec![ToolKind::Pen]);
}

#[test]
fn undo_with_empty_log_changes_nothing() {
    let mut e = drawing_editor(ToolKind::Pen);
    e.feed_pointer(p(1, 1), style(100));
    e.feed_pointer(p(2, 2), style(100));
    e.undo_last();
    assert_eq!(e.visible_shapes().len(), 1);
    assert_eq!(e.active_tool(), ToolKind::Pen);
}

#[test]
fn text_commit_and_undo() {
    let mut e = drawing_editor(ToolKind::Text);
    e.set_text("hello".to_string());
    e.commit_text(p(3, 4), "hello".to_string(), style(200));
    assert_eq!(e.active_tool(), ToolKind::NotSelected);
    assert_eq!(e.text().as_str(), "Example");
    let shapes = e.visible_shapes();
    assert_eq!(shapes.len(), 1);
    match &shapes[0] {
        Shape::Label { pos, text, style: st } => {
            assert_eq!(*pos, p(3, 4));
            assert_eq!(text.as_str(), "hello");
            assert_eq!(*st, style(200));
        }
        Shape::Stroke { .. } => panic!("expected a label"),
    }
    assert_eq!(e.undo_log().clone(), vec![ToolKind::Text]);
    e.undo_last();
    assert_eq!(e.visible_shapes().len(), 0);
}

#[test]
fn selecting_text_twice_deselects() {
    let mut e = Editor::new(style(100));
    e.set_active_tool(ToolKind::Text);
    assert_eq!(e.active_tool(), ToolKind::Text);
    e.set_active_tool(ToolKind::Text);
    assert_eq!(e.active_tool(), ToolKind::NotSelected);
    e.set_active_tool(ToolKind::Pen);
    e.set_active_tool(ToolKind::Pen);
    assert_eq!(e.active_tool(), ToolKind::Pen);
}

#[test]
fn clear_all_empties_everything() {
    let mut e = drawing_editor(ToolKind::Pen);
    e.feed_pointer(p(1, 1), style(100));
    e.feed_pointer(p(2, 2), style(100));
    e.end_pointer_input();
    e.commit_text(p(0, 0), "x".to_string(), style(100));
    e.set_active_tool(ToolKind::Line);
    e.feed_pointer(p(1, 1), style(100));
    e.feed_pointer(p(3, 3), style(100));
    e.clear_all();
    assert_eq!(e.visible_shapes().len(), 0);
    assert_eq!(e.undo_log().len(), 0);
    assert_eq!(e.active_tool(), ToolKind::NotSelected);
}

#[test]
fn open_stroke_is_shown_while_drawing() {
    let mut e = drawing_editor(ToolKind::Pen);
    e.feed_pointer(p(1, 1), style(100));
    assert_eq!(e.visible_shapes().len(), 0);
    e.feed_pointer(p(2, 1), style(100));
    assert_eq!(e.visible_shapes().len(), 1);
}
