use rog_core::aura::{
    next_mode, previous_mode, step_down, step_up, BuiltInModeByte, LAST_MODE_CODE,
    RESERVED_MODE_CODE,
};

const ALL_MODES: [BuiltInModeByte; 12] = [
    BuiltInModeByte::Stable,
    BuiltInModeByte::Breathe,
    BuiltInModeByte::Cycle,
    BuiltInModeByte::Rainbow,
    BuiltInModeByte::Rain,
    BuiltInModeByte::Random,
    BuiltInModeByte::Highlight,
    BuiltInModeByte::Laser,
    BuiltInModeByte::Ripple,
    BuiltInModeByte::Pulse,
    BuiltInModeByte::ThinZoomy,
    BuiltInModeByte::WideZoomy,
];

#[test]
fn mode_codes() {
    let codes: Vec<u8> = ALL_MODES.iter().map(|m| m.to_byte()).collect();
    assert_eq!(
        codes,
        vec![0x00, 0x01, 0x02, 0x03, 0x04, 0x05, 0x06, 0x07, 0x08, 0x0a, 0x0b, 0x0c]
    );
    assert_eq!(LAST_MODE_CODE, 0x0c);
    assert_eq!(RESERVED_MODE_CODE, 0x09);
}

#[test]
fn next_mode_visits_every_mode_but_the_reserved_one() {
    let mut visited = Vec::new();
    let mut mode = 0x00;
    for _ in 0..13 {
        mode = next_mode(mode);
        visited.push(mode);
    }
    assert_eq!(
        visited,
        vec![0x01, 0x02, 0x03, 0x04, 0x05, 0x06, 0x07, 0x08, 0x0a, 0x0b, 0x0c, 0x00, 0x01]
    );
}

#[test]
fn previous_mode_walks_back() {
    let mut visited = Vec::new();
    let mut mode = 0x00;
    for _ in 0..13 {
        mode = previous_mode(mode);
        visited.push(mode);
    }
    assert_eq!(
        visited,
        vec![0x0c, 0x0b, 0x0a, 0x08, 0x07, 0x06, 0x05, 0x04, 0x03, 0x02, 0x01, 0x00, 0x0c]
    );
}

#[test]
fn previous_mode_skips_the_reserved_code() {
    assert_eq!(previous_mode(0x00), 0x0c);
    assert_eq!(previous_mode(0x0a), 0x08);
    assert_eq!(next_mode(0x08), 0x0a);
    assert_eq!(next_mode(0x0c), 0x00);
}

#[test]
fn next_mode_never_gives_the_reserved_code() {
    for current in 0..=255u8 {
        let mode = next_mode(current);
        assert!(mode <= 0x0c);
        assert_ne!(mode, 0x09);
        let expected = if current >= 0x0c {
            0x00
        } else if current == 0x08 {
            0x0a
        } else {
            current + 1
        };
        assert_eq!(mode, expected);
    }
}

#[test]
fn next_mode_from_the_reserved_code_moves_on() {
    assert_eq!(next_mode(0x09), 0x0a);
    assert_eq!(next_mode(0xff), 0x00);
    assert_eq!(next_mode(0x0d), 0x00);
}

#[test]
fn previous_mode_for_every_byte() {
    for current in 0..=255u8 {
        let expected = if current == 0x00 {
            0x0c
        } else if current == 0x0a {
            0x08
        } else {
            current - 1
        };
        assert_eq!(previous_mode(current), expected);
    }
}

#[test]
fn forwards_and_backwards_undo_each_other() {
    for mode in ALL_MODES {
        let code = mode.to_byte();
        assert_eq!(previous_mode(next_mode(code)), code);
        assert_eq!(next_mode(previous_mode(code)), code);
    }
}

#[test]
fn step_up_stops_at_the_highest_level() {
    assert_eq!(step_up(0, 3), 1);
    assert_eq!(step_up(2, 3), 3);
    assert_eq!(step_up(3, 3), 3);
    assert_eq!(step_up(200, 3), 200);
    assert_eq!(step_up(254, 255), 255);
    assert_eq!(step_up(255, 255), 255);
}

#[test]
fn step_down_stops_at_the_lowest_level() {
    assert_eq!(step_down(3, 0), 2);
    assert_eq!(step_down(1, 0), 0);
    assert_eq!(step_down(0, 0), 0);
    assert_eq!(step_down(5, 5), 5);
    assert_eq!(step_down(2, 5), 2);
}
