use rog_core::board::is_board;
use rog_core::laptops::{is_known_board, match_laptop, Laptop, LaptopModel};

#[test]
fn bare_name_is_the_board() {
    assert!(is_board("GX502GW", "GX502GW"));
}

#[test]
fn trailing_line_break_is_cut_off() {
    assert!(is_board("GX502GW\n", "GX502GW"));
    assert!(is_board("GX502GW\r\n", "GX502GW"));
}

#[test]
fn trailing_blanks_and_control_characters_are_cut_off() {
    assert!(is_board("GX502GW \t\n", "GX502GW"));
    assert!(is_board("GX502GW\0", "GX502GW"));
    assert!(is_board("GX502GW\u{7f}\n", "GX502GW"));
}

#[test]
fn leading_padding_is_kept() {
    assert!(!is_board(" GX502GW", "GX502GW"));
    assert!(!is_board("\nGX502GW\n", "GX502GW"));
}

#[test]
fn padding_inside_the_name_is_kept() {
    assert!(!is_board("GX502 GW", "GX502GW"));
    assert!(is_board("GX 502\n", "GX 502"));
}

#[test]
fn other_names_are_not_the_board() {
    assert!(!is_board("GX502G", "GX502GW"));
    assert!(!is_board("GX502GWX", "GX502GW"));
    assert!(!is_board("gx502gw", "GX502GW"));
    assert!(!is_board("GX502GV\n", "GX502GW"));
    assert!(!is_board("", "GX502GW"));
    assert!(!is_board("\n", "GX502GW"));
}

#[test]
fn characters_beyond_ascii_are_no_padding() {
    assert!(!is_board("GX502GW\u{a0}", "GX502GW"));
    assert!(!is_board("GX502GW\u{2028}", "GX502GW"));
    assert!(is_board("GÜ502\n", "GÜ502"));
}

#[test]
fn empty_name_matches_padding_only() {
    assert!(is_board("", ""));
    assert!(is_board(" \n", ""));
    assert!(!is_board("a", ""));
}

#[test]
fn the_name_itself_is_not_trimmed() {
    assert!(!is_board("GX502GW", "GX502GW\n"));
    assert!(!is_board("GX502GW\n", "GX502GW\n"));
}

#[test]
fn known_boards() {
    assert!(is_known_board("GX502GW\n"));
    assert!(is_known_board("GX502GW"));
    assert!(!is_known_board("GX531GW\n"));
    assert!(!is_known_board(""));
}

#[test]
fn match_laptop_finds_the_gx502gw() {
    let laptop = match_laptop("GX502GW\n");
    assert!(matches!(laptop, LaptopModel::GX502GW(_)));
    assert_eq!(laptop.board_name(), "GX502GW");
    assert_eq!(laptop.prod_family(), "Zephyrus S");
    assert_eq!(laptop.usb_vendor(), 0x0B05);
    assert_eq!(laptop.usb_product(), 0x1866);
}

#[test]
fn matched_laptop_serves_as_a_trait_object() {
    let laptop: Box<dyn Laptop> = Box::new(match_laptop("GX502GW"));
    assert_eq!(laptop.board_name(), "GX502GW");
    assert_eq!(laptop.led_iface_num(), 0x81);
    assert_eq!(laptop.hotkey_group_bytes(), [0x5a, 0x02]);
}
