//! The laptop models that the daemon knows.
//!
//! A model is described by fixed facts (its USB identifiers, its names, the
//! lighting modes it supports) and by its reaction to the bytes that its
//! hotkeys emit. [`match_laptop`] picks the model by the board identifier
//! that the firmware reports.

use vstd::prelude::*;
use crate::action::{CoreState, Effect};
use crate::aura::{supports, BuiltInModeByte};
use crate::board::{is_board, names_board};
use crate::gx502gw::{gx502gw, GX502GW_BOARD_NAME};
pub use crate::gx502gw::{GX502GWKeys, LaptopGX502GW};

verus! {

/// The fixed facts of a laptop model.
pub struct Descriptor {
    /// USB vendor identifier of the keyboard.
    pub usb_vendor: u16,
    /// USB product identifier of the keyboard.
    pub usb_product: u16,
    /// Board name, as the firmware reports it without padding.
    pub board_name: Seq<char>,
    /// Name of the product family.
    pub prod_family: Seq<char>,
    /// The bytes that mark a report as one of the model's hotkeys.
    pub hotkey_group_bytes: Seq<u8>,
    /// Lowest LED brightness level.
    pub min_led_bright: u8,
    /// Highest LED brightness level.
    pub max_led_bright: u8,
    /// Number of the interface through which the LEDs are controlled.
    pub led_iface_num: u8,
    /// The lighting modes that the model supports, in cycling order.
    pub supported_modes: Seq<BuiltInModeByte>,
    /// Name of the screen backlight device.
    pub backlight: Seq<char>,
}

impl Descriptor {
    /// Whether `level` lies in the model's range of LED brightness levels.
    pub open spec fn in_led_range(self, level: u8) -> bool {
        self.min_led_bright <= level <= self.max_led_bright
    }
}

/// What every laptop model offers to the daemon.
///
/// `do_hotkey_action` is handed the byte that a hotkey emits. It changes
/// the core state as the model's rules say and returns the work that is
/// left for the caller. On every model a zero byte does nothing, the LED
/// brightness stays within the model's range, and the lighting mode stays
/// one that the model supports.
pub trait Laptop {
    /// The fixed facts of the model.
    spec fn descriptor(&self) -> Descriptor;

    /// What a key does on this model: the state after it and the effect it
    /// leaves.
    spec fn reaction(&self, state: CoreState, key_byte: u8) -> (CoreState, Effect);

    /// Handles the byte `key_byte` that a hotkey emitted: changes `core` and
    /// returns the work that is left for the caller.
    fn do_hotkey_action(&self, core: &mut CoreState, key_byte: u8) -> (effect: Effect)
        ensures
            (*final(core), effect) == self.reaction(*old(core), key_byte),
            key_byte == 0 ==> *final(core) == *old(core) && effect == Effect::Done,
            self.descriptor().in_led_range(old(core).brightness) ==> self.descriptor().in_led_range(
                final(core).brightness,
            ),
            supports(self.descriptor().supported_modes, old(core).mode()) ==> supports(
                self.descriptor().supported_modes,
                final(core).mode(),
            ),
    ;

    /// The bytes that mark a report as one of the model's hotkeys.
    fn hotkey_group_bytes(&self) -> (bytes: &[u8])
        ensures
            bytes@ == self.descriptor().hotkey_group_bytes,
    ;

    /// Number of the interface through which the LEDs are controlled.
    fn led_iface_num(&self) -> (number: u8)
        ensures
            number == self.descriptor().led_iface_num,
    ;

    /// The lighting modes that the model supports, in cycling order.
    fn supported_modes(&self) -> (modes: &[BuiltInModeByte])
        ensures
            modes@ == self.descriptor().supported_modes,
    ;

    /// USB vendor identifier of the keyboard.
    fn usb_vendor(&self) -> (id: u16)
        ensures
            id == self.descriptor().usb_vendor,
    ;

    /// USB product identifier of the keyboard.
    fn usb_product(&self) -> (id: u16)
        ensures
            id == self.descriptor().usb_product,
    ;

    /// Board name of the model.
    fn board_name(&self) -> (name: &str)
        ensures
            name@ == self.descriptor().board_name,
    ;

    /// Name of the product family of the model.
    fn prod_family(&self) -> (name: &str)
        ensures
            name@ == self.descriptor().prod_family,
    ;
}

/// A laptop of one of the models that the daemon knows.
pub enum LaptopModel {
    GX502GW(LaptopGX502GW),
}

impl Laptop for LaptopModel {
    open spec fn descriptor(&self) -> Descriptor {
        match self {
            LaptopModel::GX502GW(laptop) => laptop.descriptor(),
        }
    }

    open spec fn reaction(&self, state: CoreState, key_byte: u8) -> (CoreState, Effect) {
        match self {
            LaptopModel::GX502GW(laptop) => laptop.reaction(state, key_byte),
        }
    }

    fn do_hotkey_action(&self, core: &mut CoreState, key_byte: u8) -> (effect: Effect) {
        match self {
            LaptopModel::GX502GW(laptop) => laptop.do_hotkey_action(core, key_byte),
        }
    }

    fn hotkey_group_bytes(&self) -> (bytes: &[u8]) {
        match self {
            LaptopModel::GX502GW(laptop) => laptop.hotkey_group_bytes(),
        }
    }

    fn led_iface_num(&self) -> (number: u8) {
        match self {
            LaptopModel::GX502GW(laptop) => laptop.led_iface_num(),
        }
    }

    fn supported_modes(&self) -> (modes: &[BuiltInModeByte]) {
        match self {
            LaptopModel::GX502GW(laptop) => laptop.supported_modes(),
        }
    }

    fn usb_vendor(&self) -> (id: u16) {
        match self {
            LaptopModel::GX502GW(laptop) => laptop.usb_vendor(),
        }
    }

    fn usb_product(&self) -> (id: u16) {
        match self {
            LaptopModel::GX502GW(laptop) => laptop.usb_product(),
        }
    }

    fn board_name(&self) -> (name: &str) {
        match self {
            LaptopModel::GX502GW(laptop) => laptop.board_name(),
        }
    }

    fn prod_family(&self) -> (name: &str) {
        match self {
            LaptopModel::GX502GW(laptop) => laptop.prod_family(),
        }
    }
}

/// Whether the board identifier `id` names a model that the daemon knows.
pub open spec fn known_board(id: Seq<char>) -> bool {
    names_board(id, GX502GW_BOARD_NAME@)
}

/// Whether the board identifier `board_name` names a model that the daemon
/// knows.
pub fn is_known_board(board_name: &str) -> (known: bool)
    ensures
        known == known_board(board_name@),
{
    is_board(board_name, GX502GW_BOARD_NAME)
}

/// The laptop whose firmware reports the board identifier `board_name`.
///
/// There is no laptop to fall back on: the identifier must name a known
/// model.
pub fn match_laptop(board_name: &str) -> (laptop: LaptopModel)
    requires
        known_board(board_name@),
    ensures
        names_board(board_name@, laptop.descriptor().board_name),
        laptop.descriptor() == gx502gw(),
        laptop is GX502GW,
{
    LaptopModel::GX502GW(LaptopGX502GW::new())
}

} // verus!
