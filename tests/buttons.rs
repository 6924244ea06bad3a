use tug_of_war::buttons::{Button, ButtonState};

#[test]
fn sticky_both_pressed() {
    let mut b = ButtonState::new();
    assert!(!b.both_pressed());
    assert_eq!(b.last_edge(), Button::A);
    b.on_edge(Button::A, false);
    assert!(!b.both_pressed());
    assert_eq!(b.last_edge(), Button::A);
    b.on_edge(Button::B, true);
    assert!(b.both_pressed());
    assert_eq!(b.last_edge(), Button::B);
    assert!(!b.last_a());
    b.on_edge(Button::A, false);
    assert!(b.both_pressed());
    assert!(b.last_a());
    b.reset();
    assert!(!b.both_pressed());
    assert_eq!(b.last_edge(), Button::A);
}

#[test]
fn interrupt_with_both_edges() {
    let mut b = ButtonState::new();
    b.handle_interrupt(true, true, false, false);
    assert_eq!(b.last_edge(), Button::B);
    assert!(!b.both_pressed());
    b.handle_interrupt(true, false, false, true);
    assert_eq!(b.last_edge(), Button::A);
    assert!(b.both_pressed());
}

#[test]
fn interrupt_without_edges_changes_nothing() {
    let mut b = ButtonState::new();
    b.on_edge(Button::B, false);
    b.handle_interrupt(false, false, true, true);
    assert_eq!(b.last_edge(), Button::B);
    assert!(!b.both_pressed());
}
