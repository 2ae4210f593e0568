use rog_core::laptops::GX502GWKeys;

fn expected(byte: u8) -> GX502GWKeys {
    match byte {
        0x38 => GX502GWKeys::Rog,
        0x7C => GX502GWKeys::MicToggle,
        0xAE => GX502GWKeys::Fan,
        0x35 => GX502GWKeys::ScreenToggle,
        0x10 => GX502GWKeys::ScreenBrightDown,
        0x20 => GX502GWKeys::ScreenBrightUp,
        0x6B => GX502GWKeys::TouchPadToggle,
        0x6C => GX502GWKeys::Sleep,
        0x88 => GX502GWKeys::AirplaneMode,
        0xC4 => GX502GWKeys::LedBrightUp,
        0xC5 => GX502GWKeys::LedBrightDown,
        0xB2 => GX502GWKeys::AuraPrevious,
        0xB3 => GX502GWKeys::AuraNext,
        _ => GX502GWKeys::Unmapped,
    }
}

#[test]
fn every_hotkey_is_recognised() {
    assert_eq!(GX502GWKeys::from(0x38), GX502GWKeys::Rog);
    assert_eq!(GX502GWKeys::from(0x7C), GX502GWKeys::MicToggle);
    assert_eq!(GX502GWKeys::from(0xAE), GX502GWKeys::Fan);
    assert_eq!(GX502GWKeys::from(0x35), GX502GWKeys::ScreenToggle);
    assert_eq!(GX502GWKeys::from(0x10), GX502GWKeys::ScreenBrightDown);
    assert_eq!(GX502GWKeys::from(0x20), GX502GWKeys::ScreenBrightUp);
    assert_eq!(GX502GWKeys::from(0x6B), GX502GWKeys::TouchPadToggle);
    assert_eq!(GX502GWKeys::from(0x6C), GX502GWKeys::Sleep);
    assert_eq!(GX502GWKeys::from(0x88), GX502GWKeys::AirplaneMode);
    assert_eq!(GX502GWKeys::from(0xC4), GX502GWKeys::LedBrightUp);
    assert_eq!(GX502GWKeys::from(0xC5), GX502GWKeys::LedBrightDown);
    assert_eq!(GX502GWKeys::from(0xB2), GX502GWKeys::AuraPrevious);
    assert_eq!(GX502GWKeys::from(0xB3), GX502GWKeys::AuraNext);
}

#[test]
fn every_other_byte_is_unmapped() {
    let mut unmapped = 0;
    for byte in 0..=255u8 {
        let key = GX502GWKeys::from(byte);
        assert_eq!(key, expected(byte));
        if key == GX502GWKeys::Unmapped {
            unmapped += 1;
        }
    }
    assert_eq!(unmapped, 256 - 13);
    assert_eq!(GX502GWKeys::from(0x00), GX502GWKeys::Unmapped);
    assert_eq!(GX502GWKeys::from(0xFF), GX502GWKeys::Unmapped);
}

#[test]
fn into_classifies_too() {
    let key: GX502GWKeys = 0x6Cu8.into();
    assert_eq!(key, GX502GWKeys::Sleep);
}

#[test]
fn every_hotkey_knows_its_byte() {
    let table = [
        (GX502GWKeys::Rog, 0x38u8),
        (GX502GWKeys::MicToggle, 0x7C),
        (GX502GWKeys::Fan, 0xAE),
        (GX502GWKeys::ScreenToggle, 0x35),
        (GX502GWKeys::ScreenBrightDown, 0x10),
        (GX502GWKeys::ScreenBrightUp, 0x20),
        (GX502GWKeys::TouchPadToggle, 0x6B),
        (GX502GWKeys::Sleep, 0x6C),
        (GX502GWKeys::AirplaneMode, 0x88),
        (GX502GWKeys::LedBrightUp, 0xC4),
        (GX502GWKeys::LedBrightDown, 0xC5),
        (GX502GWKeys::AuraPrevious, 0xB2),
        (GX502GWKeys::AuraNext, 0xB3),
    ];
    for (key, byte) in table {
        assert_eq!(key.byte(), Some(byte));
        assert_eq!(GX502GWKeys::from(byte), key);
    }
    assert_eq!(GX502GWKeys::Unmapped.byte(), None);
}

#[test]
fn a_byte_is_the_byte_of_its_hotkey() {
    for byte in 0..=255u8 {
        match GX502GWKeys::from(byte).byte() {
            Some(own) => assert_eq!(own, byte),
            None => assert_eq!(GX502GWKeys::from(byte), GX502GWKeys::Unmapped),
        }
    }
}
