use screen_grabber::selection::{edit_rect, DragHandle, Point, Rect, Selection};

fn p(x: f64, y: f64) -> Point<f64> {
    Point { x, y }
}

fn fresh() -> Selection<f64> {
    Selection::new(Rect { x0: 0.0, y0: 0.0, x1: 0.0, y1: 0.0 })
}

fn same(a: Option<Point<f64>>, b: Point<f64>) -> bool {
    match a {
        Some(a) => a.x == b.x && a.y == b.y,
        None => false,
    }
}

#[test]
fn drag_a_selection() {
    let mut s = fresh();
    let grab = s.mouse_down(true, p(20.0, 40.0), p(10.0, 20.0), None);
    assert!(!grab);
    assert!(s.is_selecting);
    assert!(same(s.start_position, p(20.0, 40.0)));
    assert!(same(s.start_position_to_display, p(10.0, 20.0)));
    let repaint = s.mouse_move(false, p(60.0, 80.0), p(30.0, 40.0));
    assert!(repaint);
    assert!(same(s.end_position, p(60.0, 80.0)));
    let fx = s.mouse_up(true, p(60.0, 80.0), p(30.0, 40.0), false, true);
    assert!(!fx.release_active);
    let (a, b) = fx.rect_corners.unwrap();
    assert_eq!((a.x, a.y, b.x, b.y), (10.0, 20.0, 30.0, 40.0));
    assert!(s.modify && !s.is_selecting && !s.hide_buttons);
    let (a, b) = s.selected_corners().unwrap();
    assert_eq!((a.x, b.x), (20.0, 60.0));
}

#[test]
fn release_before_start_swaps() {
    let mut s = fresh();
    s.mouse_down(true, p(50.0, 50.0), p(25.0, 25.0), None);
    let fx = s.mouse_up(true, p(10.0, 10.0), p(5.0, 5.0), true, false);
    assert!(same(s.start_position, p(10.0, 10.0)));
    assert!(same(s.end_position, p(50.0, 50.0)));
    assert!(same(s.start_position_to_display, p(5.0, 5.0)));
    assert!(same(s.end_position_to_display, p(25.0, 25.0)));
    let (a, b) = fx.rect_corners.unwrap();
    assert_eq!((a.x, b.x), (10.0, 50.0));
}

#[test]
fn click_after_selection_resets() {
    let mut s = fresh();
    s.mouse_down(true, p(1.0, 1.0), p(1.0, 1.0), None);
    s.mouse_up(true, p(9.0, 9.0), p(9.0, 9.0), false, true);
    assert!(s.modify);
    s.mouse_down(false, p(3.0, 3.0), p(3.0, 3.0), None);
    assert!(!s.modify && !s.is_selecting);
    assert!(s.start_position.is_none() && s.end_position_to_display.is_none());
}

#[test]
fn dragging_a_corner() {
    let mut s = fresh();
    s.mouse_down(true, p(10.0, 10.0), p(10.0, 10.0), None);
    s.mouse_move(false, p(50.0, 50.0), p(50.0, 50.0));
    s.mouse_up(true, p(50.0, 50.0), p(50.0, 50.0), false, true);
    s.rect = Rect { x0: 10.0, y0: 10.0, x1: 50.0, y1: 50.0 };
    s.begin_edit(true);
    assert!(s.is_dragging && s.hide_buttons);
    let grab = s.mouse_down(true, p(12.0, 12.0), p(12.0, 12.0), Some(DragHandle::TopLeft));
    assert!(grab);
    assert_eq!(s.where_dragging, Some(DragHandle::TopLeft));
    let repaint = s.mouse_move(true, p(5.0, 6.0), p(5.0, 6.0));
    assert!(repaint);
    assert_eq!((s.rect.x0, s.rect.y0), (5.0, 6.0));
    assert!(same(s.start_position, p(5.0, 6.0)));
    let fx = s.mouse_up(true, p(5.0, 6.0), p(5.0, 6.0), false, true);
    assert!(fx.release_active);
    assert!(fx.rect_corners.is_none());
    assert!(s.where_dragging.is_none());
    assert!(s.needs_repaint());
}

#[test]
fn press_away_from_corners_shows_buttons() {
    let mut s = fresh();
    s.is_dragging = true;
    s.hide_buttons = true;
    let grab = s.mouse_down(true, p(1.0, 1.0), p(1.0, 1.0), None);
    assert!(!grab);
    assert!(!s.hide_buttons);
    assert!(s.is_selecting);
}

#[test]
fn edit_rect_corners() {
    let mut s = fresh();
    s.start_position = Some(p(10.0, 10.0));
    s.start_position_to_display = Some(p(1.0, 1.0));
    s.end_position = Some(p(50.0, 50.0));
    s.end_position_to_display = Some(p(5.0, 5.0));
    s.rect = Rect { x0: 1.0, y0: 1.0, x1: 5.0, y1: 5.0 };
    let mut bl = s;
    edit_rect(&DragHandle::BottomLeft, p(20.0, 70.0), &mut bl, p(2.0, 7.0));
    assert_eq!((bl.rect.x0, bl.rect.y0, bl.rect.x1, bl.rect.y1), (2.0, 1.0, 5.0, 7.0));
    assert!(same(bl.end_position, p(50.0, 70.0)));
    assert!(same(bl.end_position_to_display, p(5.0, 7.0)));
    assert!(same(bl.start_position, p(20.0, 10.0)));
    assert!(same(bl.start_position_to_display, p(2.0, 1.0)));
    let mut tr = s;
    edit_rect(&DragHandle::TopRight, p(60.0, 5.0), &mut tr, p(6.0, 0.5));
    assert_eq!((tr.rect.x0, tr.rect.y0, tr.rect.x1, tr.rect.y1), (1.0, 0.5, 6.0, 5.0));
    assert!(same(tr.end_position, p(60.0, 50.0)));
    assert!(same(tr.end_position_to_display, p(6.0, 5.0)));
    assert!(same(tr.start_position, p(10.0, 5.0)));
    assert!(same(tr.start_position_to_display, p(1.0, 0.5)));
    let mut br = s;
    edit_rect(&DragHandle::BottomRight, p(70.0, 80.0), &mut br, p(7.0, 8.0));
    assert_eq!((br.rect.x1, br.rect.y1), (7.0, 8.0));
    assert!(same(br.end_position, p(70.0, 80.0)));
    assert!(br.is_selecting);
}

#[test]
fn paint_and_buttons() {
    let mut s = fresh();
    assert!(s.rect_to_paint().is_none());
    s.mouse_down(true, p(1.0, 1.0), p(1.0, 1.0), None);
    s.mouse_move(false, p(2.0, 2.0), p(2.0, 2.0));
    assert!(s.rect_to_paint().is_some());
    s.request_entire_screen();
    assert!(s.capture_screen && s.hide_buttons && s.start_position.is_none());
    s.start_selection();
    assert!(s.hide_buttons && s.capture_screen);
    s.begin_edit(true);
    assert!(!s.is_dragging);
}
