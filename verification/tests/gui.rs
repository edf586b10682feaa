use twitch_chat::gui::buffer::CellState;
use twitch_chat::gui::chat_widget::ChatWidget;
use twitch_chat::gui::window::Window;
use twitch_chat::gui::{Pos, Size};

#[test]
fn test_size_into() {
    let value: Size = (16, 16).into();
    assert_eq!(value, Size::new(16, 16));
}

#[test]
fn test_size_from() {
    assert_eq!(Size::from((16, 16)), Size::new(16, 16));
}

#[test]
fn test_add_for_pos() {
    assert_eq!(Pos::new(5, 5) + Pos::new(6, 8), Pos::new(11, 13));
}

#[test]
fn test_addassign_for_pos() {
    let mut v1 = Pos::new(1, 2);
    let v2 = Pos::new(3, 4);
    v1 += v2;
    assert_eq!(v1, Pos::new(4, 6));
}

#[test]
fn test_sub_for_pos() {
    assert_eq!(Pos::new(10, 11) - Pos::new(6, 8), Pos::new(4, 3));
}

#[test]
fn test_subassign_for_pos() {
    let mut v1 = Pos::new(3, 4);
    let v2 = Pos::new(1, 2);
    v1 -= v2;
    assert_eq!(v1, Pos::new(2, 2));
}

#[test]
fn size_accessors_return_the_dimensions() {
    let s = Size::new(80, 24);
    assert_eq!(s.width(), 80);
    assert_eq!(s.height(), 24);
}

#[test]
fn new_window_has_cursor_at_origin() {
    let w = Window::new(Pos::new(2, 3), Size::new(10, 10));
    assert_eq!(w.cursor, Pos::zero());
    assert_eq!(w.pos, Pos::new(2, 3));
}

#[test]
fn new_chat_widget_starts_empty() {
    let w = Window::new(Pos::zero(), Size::new(10, 10));
    let c = ChatWidget::new(w, Pos::zero(), Size::new(10, 10));
    assert_eq!(c.padder.current_max, 0);
}

#[test]
fn cell_states_are_distinct() {
    assert_ne!(CellState::Empty, CellState::Continuation);
    assert_ne!(CellState::Occupied('a'), CellState::Occupied('b'));
}
