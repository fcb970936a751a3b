use buttons::InputEvent;
use buttons::Modifiers;
use buttons::Touch;
use buttons::TouchInterface;
use buttons::TouchPhase;
use buttons::Touchpad;

fn make_touch_event(
    id: u64,
    pos: [f64; 2],
    phase: TouchPhase,
) -> InputEvent<usize, Modifiers, usize, u64, f64> {
    InputEvent::Touch {
        id,
        position: pos,
        phase,
    }
}

#[test]
fn touch_via_event() {
    let mut touch: Touchpad<u64, f64> = Touchpad::new();
    let event = make_touch_event(0, [1., 1.], TouchPhase::Start);
    touch.handle_event(&event);

    assert_eq!(
        touch.first_touch(),
        Some(&Touch {
            id: 0,
            position: [1., 1.],
            tapped: true,
            released: false,
        })
    );

    touch.clear_taps();

    assert_eq!(
        touch.first_touch(),
        Some(&Touch {
            id: 0,
            position: [1., 1.],
            tapped: false,
            released: false,
        })
    );

    let event = make_touch_event(0, [10., 10.], TouchPhase::End);
    touch.handle_event(&event);

    assert_eq!(
        touch.first_touch(),
        Some(&Touch {
            id: 0,
            position: [10., 10.],
            tapped: false,
            released: true,
        })
    );

    touch.clear_taps();

    assert_eq!(touch.first_touch(), None);
}

#[test]
fn touch_lifecycle() {
    let mut touchpad: Touchpad<u64, f64> = Touchpad::new();
    touchpad.touch_event(1_u64, [1., 1.], TouchPhase::Start);
    assert_eq!(
        touchpad.first_touch(),
        Some(&Touch {
            id: 1,
            position: [1., 1.],
            tapped: true,
            released: false,
        })
    );
    touchpad.clear_taps();
    assert_eq!(
        touchpad.first_touch(),
        Some(&Touch {
            id: 1,
            position: [1., 1.],
            tapped: false,
            released: false,
        })
    );
    touchpad.touch_event(1_u64, [10., 10.], TouchPhase::End);
    assert_eq!(
        touchpad.first_touch(),
        Some(&Touch {
            id: 1,
            position: [10., 10.],
            tapped: false,
            released: true,
        })
    );
    touchpad.clear_taps();
    assert_eq!(touchpad.first_touch(), None);
}

#[test]
fn fresh_touchpad_has_no_touches() {
    let touchpad: Touchpad<u64, f64> = Touchpad::new();
    assert_eq!(touchpad.first_touch(), None);
    assert_eq!(touchpad.touches().count(), 0);
    assert_eq!(touchpad.touch(&0), None);
    let by_default: Touchpad<u64, f64> = Touchpad::default();
    assert_eq!(by_default.touches().count(), 0);
}

#[test]
fn move_creates_a_touch_without_flags() {
    let mut touchpad: Touchpad<u64, i32> = Touchpad::new();
    touchpad.touch_event(7_u64, [3, 4], TouchPhase::Move);
    assert_eq!(
        touchpad.touch(&7),
        Some(&Touch {
            id: 7,
            position: [3, 4],
            tapped: false,
            released: false,
        })
    );
}

#[test]
fn cancel_releases_like_end() {
    let mut touchpad: Touchpad<u64, i32> = Touchpad::new();
    touchpad.touch_event(7_u64, [3, 4], TouchPhase::Start);
    touchpad.touch_event(7_u64, [5, 6], TouchPhase::Cancel);
    assert_eq!(
        touchpad.touch(&7),
        Some(&Touch {
            id: 7,
            position: [5, 6],
            tapped: true,
            released: true,
        })
    );
    touchpad.clear_taps();
    assert_eq!(touchpad.touch(&7), None);
}

#[test]
fn end_on_an_unknown_touch_creates_it_released() {
    let mut touchpad: Touchpad<u64, i32> = Touchpad::new();
    touchpad.touch_event(2_u64, [8, 9], TouchPhase::End);
    assert_eq!(
        touchpad.first_touch(),
        Some(&Touch {
            id: 2,
            position: [8, 9],
            tapped: false,
            released: true,
        })
    );
}

#[test]
fn start_does_not_clear_released() {
    let mut touchpad: Touchpad<u64, i32> = Touchpad::new();
    touchpad.touch_event(2_u64, [8, 9], TouchPhase::End);
    touchpad.touch_event(2_u64, [1, 1], TouchPhase::Start);
    assert_eq!(
        touchpad.first_touch(),
        Some(&Touch {
            id: 2,
            position: [1, 1],
            tapped: true,
            released: true,
        })
    );
}

#[test]
fn touches_keep_insertion_order() {
    let mut touchpad: Touchpad<u64, i32> = Touchpad::new();
    touchpad.touch_event(5_u64, [0, 0], TouchPhase::Start);
    touchpad.touch_event(3_u64, [1, 1], TouchPhase::Start);
    touchpad.touch_event(9_u64, [2, 2], TouchPhase::Start);
    touchpad.touch_event(3_u64, [7, 7], TouchPhase::Move);
    let ids: Vec<u64> = touchpad.touches().map(|touch| touch.id).collect();
    assert_eq!(ids, vec![5, 3, 9]);
    let again: Vec<u64> = touchpad.touches().map(|touch| touch.id).collect();
    assert_eq!(again, vec![5, 3, 9]);
    assert_eq!(touchpad.first_touch().map(|touch| touch.id), Some(5));
    assert_eq!(touchpad.touch(&3).map(|touch| touch.position), Some([7, 7]));
    assert_eq!(touchpad.touch(&4), None);
}

#[test]
fn one_touch_per_id() {
    let mut touchpad: Touchpad<u64, i32> = Touchpad::new();
    touchpad.touch_event(5_u64, [0, 0], TouchPhase::Start);
    touchpad.touch_event(5_u64, [1, 1], TouchPhase::Move);
    touchpad.touch_event(5_u64, [2, 2], TouchPhase::End);
    touchpad.touch_event(5_u64, [3, 3], TouchPhase::Start);
    assert_eq!(touchpad.touches().count(), 1);
}

#[test]
fn reset_drops_released_touches_and_keeps_the_others_in_order() {
    let mut touchpad: Touchpad<u64, i32> = Touchpad::new();
    touchpad.touch_event(1_u64, [0, 0], TouchPhase::Start);
    touchpad.touch_event(2_u64, [1, 1], TouchPhase::End);
    touchpad.touch_event(3_u64, [2, 2], TouchPhase::Start);
    touchpad.touch_event(4_u64, [3, 3], TouchPhase::Cancel);
    touchpad.touch_event(5_u64, [4, 4], TouchPhase::Move);
    touchpad.clear_taps();
    let left: Vec<Touch<u64, i32>> = touchpad.touches().cloned().collect();
    assert_eq!(
        left,
        vec![
            Touch {
                id: 1,
                position: [0, 0],
                tapped: false,
                released: false,
            },
            Touch {
                id: 3,
                position: [2, 2],
                tapped: false,
                released: false,
            },
            Touch {
                id: 5,
                position: [4, 4],
                tapped: false,
                released: false,
            },
        ]
    );
}

#[test]
fn touch_reset_twice_is_reset_once() {
    let mut once: Touchpad<u64, i32> = Touchpad::new();
    once.touch_event(1_u64, [0, 0], TouchPhase::Start);
    once.touch_event(2_u64, [1, 1], TouchPhase::End);
    once.touch_event(3_u64, [2, 2], TouchPhase::Move);
    let mut twice = once.clone();
    once.clear_taps();
    twice.clear_taps().clear_taps();
    let left_once: Vec<Touch<u64, i32>> = once.touches().cloned().collect();
    let left_twice: Vec<Touch<u64, i32>> = twice.touches().cloned().collect();
    assert_eq!(left_once, left_twice);
    assert_eq!(left_twice.len(), 2);
}

#[test]
fn record_does_what_touch_event_does() {
    let mut recorded: Touchpad<u64, i32> = Touchpad::new();
    let mut converted: Touchpad<u64, i32> = Touchpad::new();
    recorded.record(1, [1, 2], TouchPhase::Start);
    recorded.record(1, [3, 4], TouchPhase::End);
    converted.touch_event(1_u32, [1, 2], TouchPhase::Start);
    converted.touch_event(1_u8, [3, 4], TouchPhase::End);
    assert_eq!(recorded.first_touch(), converted.first_touch());
    assert_eq!(
        recorded.first_touch(),
        Some(&Touch {
            id: 1,
            position: [3, 4],
            tapped: true,
            released: true,
        })
    );
}

#[test]
fn other_events_leave_the_touchpad_alone() {
    let mut touchpad: Touchpad<u64, f64> = Touchpad::new();
    touchpad.touch_event(1_u64, [1., 1.], TouchPhase::Start);
    let events: Vec<InputEvent<usize, Modifiers, usize, u64, f64>> = vec![
        InputEvent::Other,
        InputEvent::ReceivedCharacter('a'),
        InputEvent::CursorMoved {
            position: [4., 4.],
        },
        InputEvent::ModifiersChanged(Modifiers::default()),
    ];
    for event in events.iter() {
        touchpad.handle_event(event);
    }
    assert_eq!(touchpad.touches().count(), 1);
    assert_eq!(
        touchpad.first_touch(),
        Some(&Touch {
            id: 1,
            position: [1., 1.],
            tapped: true,
            released: false,
        })
    );
}
