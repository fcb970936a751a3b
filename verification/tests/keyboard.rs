use buttons::Keyboard;
use buttons::KeyboardInterface;
use buttons::Modifiers;

#[test]
fn key_not_pressed_or_released_by_default() {
    let keyboard: Keyboard<usize, Modifiers> = Keyboard::new();
    assert!(!keyboard.down(&10));
    assert!(!keyboard.pressed(&10));
    assert!(!keyboard.released(&10));
}

#[test]
fn key_down_when_pressed() {
    let mut keyboard: Keyboard<usize, Modifiers> = Keyboard::new();
    keyboard.press(10);
    assert!(keyboard.down(&10));
}

#[test]
fn key_not_down_when_released() {
    let mut keyboard: Keyboard<usize, Modifiers> = Keyboard::new();
    keyboard.press(10).release(10);
    assert!(!keyboard.down(&10));
}

#[test]
fn key_pressed_after_pressing() {
    let mut keyboard: Keyboard<usize, Modifiers> = Keyboard::new();
    keyboard.press(10);
    assert!(keyboard.pressed(&10));
}

#[test]
fn key_released_after_releasing() {
    let mut keyboard: Keyboard<usize, Modifiers> = Keyboard::new();
    keyboard.release(10);
    assert!(keyboard.released(&10));
}

#[test]
fn key_can_be_pressed_and_released_on_same_frame() {
    let mut keyboard: Keyboard<usize, Modifiers> = Keyboard::new();
    keyboard.press(10).release(10);
    assert!(keyboard.pressed(&10));
    assert!(keyboard.released(&10));
}

#[test]
fn key_pressed_resets_at_start_of_frame() {
    let mut keyboard: Keyboard<usize, Modifiers> = Keyboard::new();
    keyboard.press(10);
    keyboard.clear_presses();
    assert!(!keyboard.pressed(&10));
}

#[test]
fn key_released_resets_at_start_of_frame() {
    let mut keyboard: Keyboard<usize, Modifiers> = Keyboard::new();
    keyboard.release(10);
    keyboard.clear_presses();
    assert!(!keyboard.pressed(&10));
}

#[test]
fn key_down_persists_across_frames() {
    let mut keyboard: Keyboard<usize, Modifiers> = Keyboard::new();
    keyboard.press(10);
    keyboard.clear_presses();
    assert!(keyboard.down(&10));
}

#[test]
fn modifiers_empty_by_default() {
    let keyboard: Keyboard<usize, Modifiers> = Keyboard::new();
    assert_eq!(keyboard.modifiers(), None);
}

#[test]
fn can_set_modifiers() {
    let mut keyboard: Keyboard<usize, Modifiers> = Keyboard::new();
    keyboard.set_modifiers(Modifiers {
        ctrl: true,
        alt: true,
        shift: true,
        logo: true,
    });

    assert_eq!(
        keyboard.modifiers(),
        Some(&Modifiers {
            ctrl: true,
            alt: true,
            shift: true,
            logo: true,
        })
    )
}

#[test]
fn modifiers_persisit_over_frames() {
    let mut keyboard: Keyboard<usize, Modifiers> = Keyboard::new();
    keyboard.set_modifiers(Modifiers {
        ctrl: true,
        alt: true,
        shift: true,
        logo: true,
    });

    keyboard.clear_presses();
    assert_eq!(
        keyboard.modifiers(),
        Some(&Modifiers {
            ctrl: true,
            alt: true,
            shift: true,
            logo: true,
        })
    )
}

#[test]
fn fresh_keyboard_has_no_text() {
    let keyboard: Keyboard<usize, Modifiers> = Keyboard::new();
    assert_eq!(keyboard.text(), "");
    let by_default: Keyboard<usize, Modifiers> = Keyboard::default();
    assert_eq!(by_default.text(), "");
    assert_eq!(by_default.modifiers(), None);
    assert!(!by_default.down(&0));
}

#[test]
fn default_modifiers_hold_nothing() {
    assert_eq!(
        Modifiers::default(),
        Modifiers {
            ctrl: false,
            alt: false,
            shift: false,
            logo: false,
        }
    );
}

#[test]
fn released_key_was_not_pressed() {
    let mut keyboard: Keyboard<usize, Modifiers> = Keyboard::new();
    keyboard.release(10);
    assert!(!keyboard.pressed(&10));
    assert!(!keyboard.down(&10));
}

#[test]
fn release_clears_down_and_keeps_the_press_edge() {
    let mut keyboard: Keyboard<usize, Modifiers> = Keyboard::new();
    keyboard.press(10).release(10);
    assert!(!keyboard.down(&10));
    assert!(keyboard.released(&10));
    assert!(keyboard.pressed(&10));
}

#[test]
fn reset_clears_both_edges_and_keeps_the_level() {
    let mut keyboard: Keyboard<usize, Modifiers> = Keyboard::new();
    keyboard.press(10);
    keyboard.clear_presses();
    assert!(!keyboard.pressed(&10));
    assert!(!keyboard.released(&10));
    assert!(keyboard.down(&10));
}

#[test]
fn press_after_release_in_one_frame_is_down_and_released() {
    let mut keyboard: Keyboard<usize, Modifiers> = Keyboard::new();
    keyboard.press(10).release(10).press(10);
    assert!(keyboard.down(&10));
    assert!(keyboard.pressed(&10));
    assert!(keyboard.released(&10));
}

#[test]
fn keys_are_tracked_one_by_one() {
    let mut keyboard: Keyboard<usize, Modifiers> = Keyboard::new();
    keyboard.press(1).press(2).press(3).release(2);
    assert!(keyboard.down(&1));
    assert!(!keyboard.down(&2));
    assert!(keyboard.down(&3));
    assert!(keyboard.released(&2));
    assert!(!keyboard.released(&1));
    assert!(!keyboard.down(&4));
    assert!(!keyboard.pressed(&4));
    assert!(!keyboard.released(&4));
}

#[test]
fn repeated_press_is_one_press() {
    let mut keyboard: Keyboard<usize, Modifiers> = Keyboard::new();
    keyboard.press(10).press(10).press(10);
    keyboard.release(10);
    assert!(!keyboard.down(&10));
    assert!(keyboard.pressed(&10));
}

#[test]
fn keys_that_are_not_copy_are_tracked() {
    let mut keyboard: Keyboard<String, Modifiers> = Keyboard::new();
    keyboard.press(String::from("space"));
    assert!(keyboard.down(&String::from("space")));
    assert!(keyboard.pressed(&String::from("space")));
    assert!(!keyboard.down(&String::from("enter")));
    keyboard.release(String::from("space"));
    assert!(!keyboard.down(&String::from("space")));
    assert!(keyboard.released(&String::from("space")));
}

#[test]
fn keyboard_reset_twice_is_reset_once() {
    let mut once: Keyboard<usize, Modifiers> = Keyboard::new();
    once.press(1).press(2).release(2).receive_text("ab");
    once.set_modifiers(Modifiers {
        ctrl: true,
        alt: false,
        shift: false,
        logo: false,
    });
    let mut twice = once.clone();
    once.clear_presses();
    twice.clear_presses().clear_presses();
    for key in 0..4 {
        assert_eq!(once.down(&key), twice.down(&key));
        assert_eq!(once.pressed(&key), twice.pressed(&key));
        assert_eq!(once.released(&key), twice.released(&key));
    }
    assert_eq!(once.text(), twice.text());
    assert_eq!(once.modifiers(), twice.modifiers());
    assert!(twice.down(&1));
    assert!(!twice.down(&2));
    assert_eq!(twice.text(), "");
}

#[test]
fn last_modifiers_win() {
    let mut keyboard: Keyboard<usize, Modifiers> = Keyboard::new();
    let first = Modifiers {
        ctrl: true,
        alt: false,
        shift: false,
        logo: false,
    };
    let second = Modifiers {
        ctrl: false,
        alt: true,
        shift: true,
        logo: false,
    };
    keyboard.set_modifiers(first).set_modifiers(second);
    assert_eq!(keyboard.modifiers(), Some(&second));
}

#[test]
fn text_is_kept_in_order() {
    let mut keyboard: Keyboard<usize, Modifiers> = Keyboard::new();
    keyboard.receive_text("he").receive_char('l').receive_text("lo");
    assert_eq!(keyboard.text(), "hello");
    keyboard.receive_char('!');
    assert_eq!(keyboard.text(), "hello!");
}

#[test]
fn empty_text_adds_nothing() {
    let mut keyboard: Keyboard<usize, Modifiers> = Keyboard::new();
    keyboard.receive_text("");
    assert_eq!(keyboard.text(), "");
    keyboard.receive_text("a").receive_text("");
    assert_eq!(keyboard.text(), "a");
}

#[test]
fn long_text_is_kept_whole() {
    let mut keyboard: Keyboard<usize, Modifiers> = Keyboard::new();
    keyboard.receive_text("the quick brown fox ");
    keyboard.receive_text("jumps over the lazy dog");
    keyboard.receive_char('\u{e9}');
    assert_eq!(
        keyboard.text(),
        "the quick brown fox jumps over the lazy dog\u{e9}"
    );
}

#[test]
fn reset_clears_text() {
    let mut keyboard: Keyboard<usize, Modifiers> = Keyboard::new();
    keyboard.receive_text("abc");
    keyboard.clear_presses();
    assert_eq!(keyboard.text(), "");
    keyboard.receive_char('d');
    assert_eq!(keyboard.text(), "d");
}

#[test]
fn keys_do_not_touch_text_or_modifiers() {
    let mut keyboard: Keyboard<usize, Modifiers> = Keyboard::new();
    keyboard.receive_text("abc");
    keyboard.set_modifiers(Modifiers::default());
    keyboard.press(1).release(1);
    assert_eq!(keyboard.text(), "abc");
    assert_eq!(keyboard.modifiers(), Some(&Modifiers::default()));
}
