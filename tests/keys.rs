use retrospector::update::{slot_for_code, Key, KeyEvent, KEY_COUNT};

fn all_keys() -> Vec<Key> {
    vec![
        Key::Enter,
        Key::ArrowLeft,
        Key::ArrowUp,
        Key::ArrowRight,
        Key::ArrowDown,
        Key::Digit0,
        Key::Digit1,
        Key::Digit2,
        Key::Digit3,
        Key::Digit4,
        Key::Digit5,
        Key::Digit6,
        Key::Digit7,
        Key::Digit8,
        Key::Digit9,
        Key::KeyA,
        Key::KeyB,
        Key::KeyC,
        Key::KeyD,
        Key::KeyE,
        Key::KeyF,
        Key::KeyG,
        Key::KeyH,
        Key::KeyI,
        Key::KeyJ,
        Key::KeyK,
        Key::KeyL,
        Key::KeyM,
        Key::KeyN,
        Key::KeyO,
        Key::KeyP,
        Key::KeyQ,
        Key::KeyR,
        Key::KeyS,
        Key::KeyT,
        Key::KeyU,
        Key::KeyV,
        Key::KeyW,
        Key::KeyX,
        Key::KeyY,
        Key::KeyZ,
    ]
}

fn named_getter(state: &KeyEvent, key: Key) -> bool {
    match key {
        Key::Enter => state.is_enter_down(),
        Key::ArrowLeft => state.is_arrow_left_down(),
        Key::ArrowUp => state.is_arrow_up_down(),
        Key::ArrowRight => state.is_arrow_right_down(),
        Key::ArrowDown => state.is_arrow_down_down(),
        Key::Digit0 => state.is_digit_0_down(),
        Key::Digit1 => state.is_digit_1_down(),
        Key::Digit2 => state.is_digit_2_down(),
        Key::Digit3 => state.is_digit_3_down(),
        Key::Digit4 => state.is_digit_4_down(),
        Key::Digit5 => state.is_digit_5_down(),
        Key::Digit6 => state.is_digit_6_down(),
        Key::Digit7 => state.is_digit_7_down(),
        Key::Digit8 => state.is_digit_8_down(),
        Key::Digit9 => state.is_digit_9_down(),
        Key::KeyA => state.is_key_a_down(),
        Key::KeyB => state.is_key_b_down(),
        Key::KeyC => state.is_key_c_down(),
        Key::KeyD => state.is_key_d_down(),
        Key::KeyE => state.is_key_e_down(),
        Key::KeyF => state.is_key_f_down(),
        Key::KeyG => state.is_key_g_down(),
        Key::KeyH => state.is_key_h_down(),
        Key::KeyI => state.is_key_i_down(),
        Key::KeyJ => state.is_key_j_down(),
        Key::KeyK => state.is_key_k_down(),
        Key::KeyL => state.is_key_l_down(),
        Key::KeyM => state.is_key_m_down(),
        Key::KeyN => state.is_key_n_down(),
        Key::KeyO => state.is_key_o_down(),
        Key::KeyP => state.is_key_p_down(),
        Key::KeyQ => state.is_key_q_down(),
        Key::KeyR => state.is_key_r_down(),
        Key::KeyS => state.is_key_s_down(),
        Key::KeyT => state.is_key_t_down(),
        Key::KeyU => state.is_key_u_down(),
        Key::KeyV => state.is_key_v_down(),
        Key::KeyW => state.is_key_w_down(),
        Key::KeyX => state.is_key_x_down(),
        Key::KeyY => state.is_key_y_down(),
        Key::KeyZ => state.is_key_z_down(),
    }
}

fn down_keys(state: &KeyEvent) -> Vec<Key> {
    all_keys().into_iter().filter(|k| state.is_down(*k)).collect()
}

#[test]
fn fresh_state_has_no_key_down() {
    let state = KeyEvent::new();
    assert!(down_keys(&state).is_empty());
}

#[test]
fn key_codes_follow_the_host_table() {
    let expected = vec![
        (Key::Enter, 13),
        (Key::ArrowLeft, 37),
        (Key::ArrowUp, 38),
        (Key::ArrowRight, 39),
        (Key::ArrowDown, 40),
        (Key::Digit0, 48),
        (Key::Digit1, 49),
        (Key::Digit2, 50),
        (Key::Digit3, 51),
        (Key::Digit4, 52),
        (Key::Digit5, 53),
        (Key::Digit6, 54),
        (Key::Digit7, 55),
        (Key::Digit8, 56),
        (Key::Digit9, 57),
        (Key::KeyA, 65),
        (Key::KeyB, 66),
        (Key::KeyC, 67),
        (Key::KeyD, 68),
        (Key::KeyE, 69),
        (Key::KeyF, 70),
        (Key::KeyG, 71),
        (Key::KeyH, 72),
        (Key::KeyI, 73),
        (Key::KeyJ, 74),
        (Key::KeyK, 75),
        (Key::KeyL, 76),
        (Key::KeyM, 77),
        (Key::KeyN, 78),
        (Key::KeyO, 79),
        (Key::KeyP, 80),
        (Key::KeyQ, 81),
        (Key::KeyR, 82),
        (Key::KeyS, 83),
        (Key::KeyT, 84),
        (Key::KeyU, 85),
        (Key::KeyV, 86),
        (Key::KeyW, 87),
        (Key::KeyX, 88),
        (Key::KeyY, 89),
        (Key::KeyZ, 90),
    ];
    assert_eq!(expected.len(), KEY_COUNT);
    for (key, code) in expected {
        assert_eq!(key.code(), code);
    }
}

#[test]
fn every_key_has_its_own_slot() {
    let keys = all_keys();
    assert_eq!(keys.len(), KEY_COUNT);
    for (i, key) in keys.iter().enumerate() {
        assert_eq!(key.index(), i);
        assert_eq!(slot_for_code(key.code()), Some(i));
    }
}

#[test]
fn press_then_release_each_key() {
    for key in all_keys() {
        let mut state = KeyEvent::new();
        state.update_on_keydown(key.code());
        assert!(state.is_down(key));
        assert!(named_getter(&state, key));
        assert_eq!(down_keys(&state), vec![key]);
        state.update_on_keyup(key.code());
        assert!(!state.is_down(key));
        assert!(!named_getter(&state, key));
        assert!(down_keys(&state).is_empty());
    }
}

#[test]
fn unmapped_codes_change_nothing() {
    let mut state = KeyEvent::new();
    state.update_on_keydown(65);
    for code in [0u32, 12, 14, 32, 36, 41, 47, 58, 64, 91, 97, 122, 300, u32::MAX] {
        assert_eq!(slot_for_code(code), None);
        state.update_on_keydown(code);
        assert_eq!(down_keys(&state), vec![Key::KeyA]);
        state.update_on_keyup(code);
        assert_eq!(down_keys(&state), vec![Key::KeyA]);
    }
}

#[test]
fn repeated_press_and_release_are_levels() {
    let mut state = KeyEvent::new();
    state.update_on_keydown(39);
    state.update_on_keydown(39);
    state.update_on_keydown(39);
    assert!(state.is_arrow_right_down());
    state.update_on_keyup(39);
    assert!(!state.is_arrow_right_down());
    state.update_on_keyup(39);
    assert!(!state.is_arrow_right_down());
    assert!(down_keys(&state).is_empty());
}

#[test]
fn press_a_enter_release_a() {
    let mut state = KeyEvent::new();
    state.update_on_keydown(Key::KeyA.code());
    state.update_on_keydown(Key::Enter.code());
    state.update_on_keyup(Key::KeyA.code());
    assert!(!state.is_key_a_down());
    assert!(state.is_enter_down());
    assert_eq!(down_keys(&state), vec![Key::Enter]);
}

#[test]
fn keys_are_independent() {
    let mut state = KeyEvent::new();
    state.update_on_keydown(37);
    state.update_on_keydown(48);
    state.update_on_keydown(90);
    assert!(state.is_arrow_left_down());
    assert!(state.is_digit_0_down());
    assert!(state.is_key_z_down());
    state.update_on_keyup(48);
    assert_eq!(down_keys(&state), vec![Key::ArrowLeft, Key::KeyZ]);
}
