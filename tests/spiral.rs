use tug_of_war::spiral::{DotState, CENTER, SPIRAL_LEN, START};

#[test]
fn new_dot_starts_mid_path() {
    let d = DotState::new();
    assert_eq!(d.pos(), START);
    assert_eq!(d.pos(), 24);
    assert_eq!(d.px(), (0, 2));
    assert!(d.is_clockwise());
    assert!(!d.is_left());
    assert!(!d.is_right());
}

#[test]
fn spiral_returns_to_start() {
    let mut d = DotState::new();
    for _ in 0..48 {
        d.spiral();
    }
    assert_eq!(d.pos(), 24);
    assert!(!d.is_clockwise());
    for _ in 0..48 {
        d.spiral();
    }
    assert_eq!(d.pos(), 24);
    assert!(d.is_clockwise());
}

#[test]
fn forty_nine_steps_do_not_return() {
    let mut d = DotState::new();
    for _ in 0..49 {
        d.spiral();
    }
    assert_eq!(d.pos(), 23);
    assert!(!d.is_clockwise());
}

#[test]
fn ends_only_at_zero_and_forty_eight() {
    let mut d = DotState::new();
    let mut lefts = 0;
    let mut rights = 0;
    for _ in 0..96 {
        d.spiral();
        let p = d.pos();
        assert_eq!(d.is_left(), p == 0);
        assert_eq!(d.is_right(), p == 48);
        if d.is_left() {
            lefts += 1;
        }
        if d.is_right() {
            rights += 1;
        }
        assert!((p as usize) < SPIRAL_LEN);
    }
    assert_eq!(lefts, 1);
    assert_eq!(rights, 1);
}

#[test]
fn both_ends_are_the_centre() {
    let mut d = DotState::new();
    for _ in 0..24 {
        d.next();
    }
    assert!(d.is_right());
    assert_eq!(d.px(), CENTER);
    d.toggle_clockwise();
    for _ in 0..48 {
        d.next();
    }
    assert!(d.is_left());
    assert_eq!(d.px(), CENTER);
}

#[test]
fn turns_at_the_right_end() {
    let mut d = DotState::new();
    for _ in 0..24 {
        d.spiral();
    }
    assert!(d.is_right());
    assert!(d.is_clockwise());
    d.spiral();
    assert_eq!(d.pos(), 47);
    assert!(!d.is_clockwise());
    assert_eq!(d.px(), (1, 1));
}

#[test]
fn toggle_and_step_back() {
    let mut d = DotState::new();
    d.toggle_clockwise();
    assert!(!d.is_clockwise());
    d.next();
    assert_eq!(d.pos(), 23);
    assert_eq!(d.px(), (0, 1));
    d.toggle_clockwise();
    d.next();
    assert_eq!(d.pos(), 24);
}
