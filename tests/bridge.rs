use imgui_support::{
    key_index, key_table, modifier_of, role_of, ButtonStates, ElementState, Event, InputState,
    KeyRole, Modifier, MouseButton, ScrollDelta, TouchPhase, UiAction, VirtualKey, KEY_COUNT,
};

const MAPPED: [(VirtualKey, KeyRole, u8); 19] = [
    (VirtualKey::Tab, KeyRole::Tab, 0),
    (VirtualKey::Left, KeyRole::LeftArrow, 1),
    (VirtualKey::Right, KeyRole::RightArrow, 2),
    (VirtualKey::Up, KeyRole::UpArrow, 3),
    (VirtualKey::Down, KeyRole::DownArrow, 4),
    (VirtualKey::PageUp, KeyRole::PageUp, 5),
    (VirtualKey::PageDown, KeyRole::PageDown, 6),
    (VirtualKey::Home, KeyRole::Home, 7),
    (VirtualKey::End, KeyRole::End, 8),
    (VirtualKey::Delete, KeyRole::Delete, 9),
    (VirtualKey::Back, KeyRole::Backspace, 10),
    (VirtualKey::Return, KeyRole::Enter, 11),
    (VirtualKey::Escape, KeyRole::Escape, 12),
    (VirtualKey::A, KeyRole::A, 13),
    (VirtualKey::C, KeyRole::C, 14),
    (VirtualKey::V, KeyRole::V, 15),
    (VirtualKey::X, KeyRole::X, 16),
    (VirtualKey::Y, KeyRole::Y, 17),
    (VirtualKey::Z, KeyRole::Z, 18),
];

fn key(state: ElementState, k: VirtualKey) -> Event {
    Event::KeyboardInput { state, key: Some(k) }
}

fn wheel(y: f32, phase: TouchPhase) -> Event {
    Event::MouseWheel { delta: ScrollDelta::LineDelta { y_bits: y.to_bits() }, phase }
}

#[test]
fn key_table_binds_each_role_to_its_slot() {
    let t = key_table();
    assert_eq!(t.len(), KEY_COUNT);
    for (_, role, idx) in MAPPED.iter() {
        assert_eq!(t[*idx as usize], *role);
        assert_eq!(key_index(*role), *idx);
    }
}

#[test]
fn mapped_key_press_and_release_set_its_slot() {
    let mut s = InputState::new(0);
    let mut slots = [false; 19];
    for (k, role, idx) in MAPPED.iter() {
        assert_eq!(role_of(*k), Some(*role));
        let before = s;
        let a = s.handle_event(&key(ElementState::Pressed, *k));
        assert_eq!(a, UiAction::SetKey { index: *idx, pressed: true });
        assert_eq!(s, before);
        if let UiAction::SetKey { index, pressed } = a {
            slots[index as usize] = pressed;
        }
        for (i, down) in slots.iter().enumerate() {
            assert_eq!(*down, i == *idx as usize);
        }
        let a = s.handle_event(&key(ElementState::Released, *k));
        assert_eq!(a, UiAction::SetKey { index: *idx, pressed: false });
        if let UiAction::SetKey { index, pressed } = a {
            slots[index as usize] = pressed;
        }
        assert!(slots.iter().all(|d| !*d));
    }
}

#[test]
fn unmapped_keys_set_nothing() {
    let mut s = InputState::new(0);
    assert_eq!(role_of(VirtualKey::Other), None);
    assert_eq!(s.handle_event(&key(ElementState::Pressed, VirtualKey::Other)), UiAction::Nothing);
    assert_eq!(
        s.handle_event(&Event::KeyboardInput { state: ElementState::Pressed, key: None }),
        UiAction::Nothing
    );
    assert_eq!(s, InputState::new(0));
}

#[test]
fn both_sides_of_a_modifier_drive_one_flag() {
    let pairs = [
        (VirtualKey::LControl, VirtualKey::RControl, Modifier::Ctrl),
        (VirtualKey::LShift, VirtualKey::RShift, Modifier::Shift),
        (VirtualKey::LAlt, VirtualKey::RAlt, Modifier::Alt),
        (VirtualKey::LWin, VirtualKey::RWin, Modifier::Super),
    ];
    let mut s = InputState::new(0);
    for (l, r, m) in pairs.iter() {
        assert_eq!(modifier_of(*l), Some(*m));
        assert_eq!(role_of(*l), None);
        for k in [*l, *r] {
            assert_eq!(
                s.handle_event(&key(ElementState::Pressed, k)),
                UiAction::SetModifier { modifier: *m, pressed: true }
            );
            assert_eq!(
                s.handle_event(&key(ElementState::Released, k)),
                UiAction::SetModifier { modifier: *m, pressed: false }
            );
        }
    }
}

#[test]
fn flush_clears_the_wheel() {
    let mut s = InputState::new(0);
    s.handle_event(&wheel(3.5, TouchPhase::Moved));
    assert_eq!(s.wheel_bits, 3.5f32.to_bits());
    let r = s.flush_mouse();
    assert_eq!(f32::from_bits(r.wheel_bits), 3.5);
    assert_eq!(s.wheel_bits, 0);
    let r = s.flush_mouse();
    assert_eq!(r.wheel_bits, 0);
    assert_eq!(s.wheel_bits, 0);
}

#[test]
fn flush_reports_physical_position() {
    let mut s = InputState::new(0);
    s.handle_event(&Event::MouseMoved { x: 100, y: 50 });
    let r = s.flush_mouse();
    assert_eq!((r.x, r.y), (100, 50));
}

#[test]
fn second_move_overwrites_first() {
    let mut s = InputState::new(0);
    s.handle_event(&Event::MouseMoved { x: 10, y: 20 });
    s.handle_event(&Event::MouseMoved { x: -3, y: 7 });
    let r = s.flush_mouse();
    assert_eq!((r.x, r.y), (-3, 7));
}

#[test]
fn frame_deltas_follow_the_clock() {
    let mut s = InputState::new(1_000);
    assert_eq!(s.begin_frame(1_000), 0);
    assert_eq!(s.begin_frame(17_667_000), 17_666_000);
    assert_eq!(s.last_frame_nanos, 17_667_000);
    assert_eq!(s.begin_frame(5), 0);
    assert_eq!(s.last_frame_nanos, 17_667_000);
    assert_eq!(s.begin_frame(17_667_250), 250);
}

#[test]
fn scroll_outside_moved_phase_is_ignored() {
    let mut s = InputState::new(0);
    s.handle_event(&wheel(2.0, TouchPhase::Moved));
    for phase in [TouchPhase::Started, TouchPhase::Ended, TouchPhase::Cancelled] {
        assert_eq!(s.handle_event(&wheel(9.0, phase)), UiAction::Nothing);
        assert_eq!(s.wheel_bits, 2.0f32.to_bits());
    }
}

#[test]
fn latest_scroll_sample_wins() {
    let mut s = InputState::new(0);
    s.handle_event(&wheel(1.0, TouchPhase::Moved));
    s.handle_event(&Event::MouseWheel {
        delta: ScrollDelta::PixelDelta { y_bits: (-4.0f32).to_bits() },
        phase: TouchPhase::Moved,
    });
    let r = s.flush_mouse();
    assert_eq!(f32::from_bits(r.wheel_bits), -4.0);
}

#[test]
fn button_vector_has_five_slots_with_last_two_clear() {
    let mut s = InputState::new(0);
    for b in [MouseButton::Left, MouseButton::Right, MouseButton::Middle, MouseButton::Other] {
        s.handle_event(&Event::MouseInput { state: ElementState::Pressed, button: b });
    }
    assert_eq!(s.buttons, ButtonStates { left: true, middle: true, right: true });
    let r = s.flush_mouse();
    assert_eq!(r.buttons.len(), 5);
    assert_eq!(r.buttons, [true, true, true, false, false]);
    s.handle_event(&Event::MouseInput { state: ElementState::Released, button: MouseButton::Right });
    let r = s.flush_mouse();
    assert_eq!(r.buttons, [true, false, true, false, false]);
    assert!(!r.buttons[3] && !r.buttons[4]);
}

#[test]
fn text_input_is_forwarded() {
    let mut s = InputState::new(0);
    assert_eq!(s.handle_event(&Event::ReceivedCharacter('é')), UiAction::AddCharacter('é'));
    assert_eq!(s.handle_event(&Event::Other), UiAction::Nothing);
    assert_eq!(s, InputState::new(0));
}
