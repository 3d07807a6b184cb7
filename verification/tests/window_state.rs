use dock_state::{Point, Rect, Size, WindowState};
use dock_state::geometry::is_finite_bits;

fn point(x: f32, y: f32) -> Point {
    Point::new(x.to_bits(), y.to_bits())
}

fn size(w: f32, h: f32) -> Size {
    Size::new(w.to_bits(), h.to_bits())
}

fn bounds() -> Rect {
    Rect::new(point(0.0, 0.0), point(1920.0, 1080.0))
}

#[test]
fn new_state_observes_blank() {
    let w = WindowState::new();
    assert_eq!(w.rect(), Rect::empty());
    assert_eq!(w.rect(), Rect::new(point(0.0, 0.0), point(0.0, 0.0)));
    assert!(!w.dragged());
    assert!(!w.is_minimized());
    assert!(w.is_new());
}

#[test]
fn default_equals_new() {
    let d = WindowState::default();
    assert_eq!(d.rect(), Rect::empty());
    assert!(!d.dragged());
    assert!(!d.is_minimized());
    assert!(d.is_new());
    assert_eq!(d.peek_next_position(), None);
    assert_eq!(d.peek_next_size(), None);
    assert_eq!(d.peek_expanded_height(), None);
    assert_eq!(d.screen_rect(), None);
}

#[test]
fn position_override_is_one_shot() {
    let mut w = WindowState::new();
    let p = point(42.0, 17.5);
    w.set_position(p);
    let d1 = w.create_window(1, bounds());
    assert_eq!(d1.position, Some(p));
    let d2 = w.create_window(1, bounds());
    assert_eq!(d2.position, None);
}

#[test]
fn size_override_is_one_shot() {
    let mut w = WindowState::new();
    let z = size(640.0, 480.0);
    w.set_size(z);
    let d1 = w.create_window(1, bounds());
    assert_eq!(d1.size, Some(z));
    let d2 = w.create_window(1, bounds());
    assert_eq!(d2.size, None);
}

#[test]
fn toggle_minimized_twice_restores() {
    let mut w = WindowState::new();
    assert!(!w.is_minimized());
    w.toggle_minimized();
    assert!(w.is_minimized());
    w.toggle_minimized();
    assert!(!w.is_minimized());
}

#[test]
fn toggle_minimized_leaves_overrides_alone() {
    let mut w = WindowState::new();
    let p = point(1.0, 2.0);
    let z = size(3.0, 4.0);
    w.set_position(p);
    w.set_size(z);
    w.toggle_minimized();
    assert_eq!(w.peek_next_position(), Some(p));
    assert_eq!(w.peek_next_size(), Some(z));
}

#[test]
fn expanded_height_restores_on_first_frame_only() {
    let h: f32 = 240.5;
    let mut w = WindowState::new();
    w.set_expanded_height(h.to_bits());
    let d1 = w.create_window(1, bounds());
    assert_eq!(d1.height_clamp, Some(h.to_bits()));
    let d2 = w.create_window(1, bounds());
    assert_eq!(d2.height_clamp, None);
}

#[test]
fn expanded_height_waits_for_new_flag() {
    let h: f32 = 300.0;
    let mut w = WindowState::new();
    let _ = w.create_window(1, bounds());
    assert!(!w.is_new());
    w.set_expanded_height(h.to_bits());
    let d = w.create_window(1, bounds());
    assert_eq!(d.height_clamp, None);
    // not consumed while the window was not new
    assert_eq!(w.peek_expanded_height(), Some(h.to_bits()));
    w.set_new(true);
    let d = w.create_window(1, bounds());
    assert_eq!(d.height_clamp, Some(h.to_bits()));
    assert_eq!(w.peek_expanded_height(), None);
}

#[test]
fn scenario_first_frame_applies_overrides_then_clears() {
    let mut w = WindowState::new();
    w.set_position(point(10.0, 20.0));
    w.set_size(size(300.0, 200.0));
    let d1 = w.create_window(9, bounds());
    assert_eq!(d1.position, Some(point(10.0, 20.0)));
    assert_eq!(d1.size, Some(size(300.0, 200.0)));
    assert_eq!(d1.id, 9);
    assert!(!d1.title_bar);
    assert_eq!(d1.bounds, bounds());
    assert!(!w.is_new());
    let d2 = w.create_window(9, bounds());
    assert_eq!(d2.position, None);
    assert_eq!(d2.size, None);
}

#[test]
fn chained_setters_apply_both() {
    let mut w = WindowState::new();
    w.set_position(point(5.0, 6.0)).set_size(size(7.0, 8.0));
    assert_eq!(w.peek_next_position(), Some(point(5.0, 6.0)));
    assert_eq!(w.peek_next_size(), Some(size(7.0, 8.0)));
}

#[test]
fn reported_rect_is_read_back() {
    let mut w = WindowState::new();
    let r = Rect::new(point(10.0, 20.0), point(310.0, 220.0));
    w.set_screen_rect(r);
    assert_eq!(w.rect(), r);
    assert_eq!(w.screen_rect(), Some(r));
}

#[test]
fn dragged_is_read_back() {
    let mut w = WindowState::new();
    w.set_dragged(true);
    assert!(w.dragged());
    w.set_dragged(false);
    assert!(!w.dragged());
}

#[test]
fn takers_consume_exactly_once() {
    let mut w = WindowState::new();
    w.set_position(point(1.0, 1.0));
    assert_eq!(w.next_position(), Some(point(1.0, 1.0)));
    assert_eq!(w.next_position(), None);
    w.set_size(size(2.0, 2.0));
    assert_eq!(w.next_size(), Some(size(2.0, 2.0)));
    assert_eq!(w.next_size(), None);
    w.set_expanded_height(3.0f32.to_bits());
    assert_eq!(w.expanded_height(), Some(3.0f32.to_bits()));
    assert_eq!(w.expanded_height(), None);
}

#[test]
fn from_parts_round_trips() {
    let r = Rect::new(point(1.0, 2.0), point(3.0, 4.0));
    let w = WindowState::from_parts(
        Some(r),
        true,
        Some(point(5.0, 6.0)),
        Some(size(7.0, 8.0)),
        Some(9.0f32.to_bits()),
        false,
        true,
    );
    assert_eq!(w.screen_rect(), Some(r));
    assert!(w.dragged());
    assert_eq!(w.peek_next_position(), Some(point(5.0, 6.0)));
    assert_eq!(w.peek_next_size(), Some(size(7.0, 8.0)));
    assert_eq!(w.peek_expanded_height(), Some(9.0f32.to_bits()));
    assert!(!w.is_new());
    assert!(w.is_minimized());
}

#[test]
fn finite_bits_matches_float_finiteness() {
    assert!(is_finite_bits(0.0f32.to_bits()));
    assert!(is_finite_bits((-0.0f32).to_bits()));
    assert!(is_finite_bits(1.5f32.to_bits()));
    assert!(is_finite_bits(f32::MAX.to_bits()));
    assert!(is_finite_bits(f32::MIN.to_bits()));
    assert!(!is_finite_bits(f32::INFINITY.to_bits()));
    assert!(!is_finite_bits(f32::NEG_INFINITY.to_bits()));
    assert!(!is_finite_bits(f32::NAN.to_bits()));
}

#[test]
fn empty_sentinel_is_the_zero_rect() {
    let s = Rect::empty();
    assert_eq!(f32::from_bits(s.min.x_bits), 0.0);
    assert_eq!(f32::from_bits(s.min.y_bits), 0.0);
    assert_eq!(f32::from_bits(s.max.x_bits), 0.0);
    assert_eq!(f32::from_bits(s.max.y_bits), 0.0);
}
