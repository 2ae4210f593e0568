//! The ASUS ROG Zephyrus S GX502GW: its facts, its hotkeys, and what they do.

use vstd::prelude::*;
use crate::action::{
    consumer_report, keyboard_report, make_consumer_report, make_keyboard_report, AuraError,
    CoreState, Effect, Outcome, CONSUMER_REPORT, MODE_INDEX,
};
use crate::aura::{
    brightness_after_downs, brightness_after_ups, brightness_down, brightness_up, is_mode_code,
    lemma_brightness_downs, lemma_brightness_ups, mode_after, mode_before, next_mode,
    previous_mode, step_down, step_up, supports, BuiltInModeByte,
};
use crate::laptops::{Descriptor, Laptop};

verus! {

/// Board name of the GX502GW.
pub const GX502GW_BOARD_NAME: &'static str = "GX502GW";

/// Product family of the GX502GW.
pub const GX502GW_PROD_FAMILY: &'static str = "Zephyrus S";

/// Name of the screen backlight device of the GX502GW.
pub const GX502GW_BACKLIGHT: &'static str = "intel_backlight";

/// Lowest LED brightness level of the GX502GW.
pub const GX502GW_MIN_LED_BRIGHT: u8 = 0x00;

/// Highest LED brightness level of the GX502GW.
pub const GX502GW_MAX_LED_BRIGHT: u8 = 0x03;

/// Number of lighting modes that the GX502GW supports.
pub const GX502GW_MODE_COUNT: usize = 12;

/// Usage code of the F13 key, which stands for the vendor key.
pub const KEY_F13: u8 = 0x68;

/// Usage code of the F21 key, which toggles the touchpad.
pub const KEY_F21: u8 = 0x70;

/// Consumer-control usage code of the key that toggles the display backlight.
pub const KEY_BACKLIGHT_TOGGLE: u8 = 0x72;

/// The hotkeys of the GX502GW.
#[derive(Clone, Copy, Debug, PartialEq, Eq, Structural)]
pub enum GX502GWKeys {
    Rog,
    MicToggle,
    Fan,
    ScreenToggle,
    ScreenBrightDown,
    ScreenBrightUp,
    TouchPadToggle,
    Sleep,
    AirplaneMode,
    LedBrightUp,
    LedBrightDown,
    AuraPrevious,
    AuraNext,
    /// No hotkey emits the byte.
    Unmapped,
}

impl GX502GWKeys {
    /// The byte that the hotkey emits. [`GX502GWKeys::Unmapped`] stands for
    /// the bytes that no hotkey emits and has none of its own.
    pub open spec fn emits(self) -> Option<u8> {
        match self {
            GX502GWKeys::Rog => Some(0x38u8),
            GX502GWKeys::MicToggle => Some(0x7Cu8),
            GX502GWKeys::Fan => Some(0xAEu8),
            GX502GWKeys::ScreenToggle => Some(0x35u8),
            GX502GWKeys::ScreenBrightDown => Some(0x10u8),
            GX502GWKeys::ScreenBrightUp => Some(0x20u8),
            GX502GWKeys::TouchPadToggle => Some(0x6bu8),
            GX502GWKeys::Sleep => Some(0x6Cu8),
            GX502GWKeys::AirplaneMode => Some(0x88u8),
            GX502GWKeys::LedBrightUp => Some(0xC4u8),
            GX502GWKeys::LedBrightDown => Some(0xC5u8),
            GX502GWKeys::AuraPrevious => Some(0xB2u8),
            GX502GWKeys::AuraNext => Some(0xB3u8),
            GX502GWKeys::Unmapped => None,
        }
    }

    /// The byte that the hotkey emits, if it is a hotkey.
    pub fn byte(self) -> (byte: Option<u8>)
        ensures
            byte == self.emits(),
    {
        match self {
            GX502GWKeys::Rog => Some(0x38),
            GX502GWKeys::MicToggle => Some(0x7C),
            GX502GWKeys::Fan => Some(0xAE),
            GX502GWKeys::ScreenToggle => Some(0x35),
            GX502GWKeys::ScreenBrightDown => Some(0x10),
            GX502GWKeys::ScreenBrightUp => Some(0x20),
            GX502GWKeys::TouchPadToggle => Some(0x6b),
            GX502GWKeys::Sleep => Some(0x6C),
            GX502GWKeys::AirplaneMode => Some(0x88),
            GX502GWKeys::LedBrightUp => Some(0xC4),
            GX502GWKeys::LedBrightDown => Some(0xC5),
            GX502GWKeys::AuraPrevious => Some(0xB2),
            GX502GWKeys::AuraNext => Some(0xB3),
            GX502GWKeys::Unmapped => None,
        }
    }
}

/// The hotkey that emits `byte`; [`GX502GWKeys::Unmapped`] where none does.
pub open spec fn key_of(byte: u8) -> GX502GWKeys {
    if byte == 0x38 {
        GX502GWKeys::Rog
    } else if byte == 0x7C {
        GX502GWKeys::MicToggle
    } else if byte == 0xAE {
        GX502GWKeys::Fan
    } else if byte == 0x35 {
        GX502GWKeys::ScreenToggle
    } else if byte == 0x10 {
        GX502GWKeys::ScreenBrightDown
    } else if byte == 0x20 {
        GX502GWKeys::ScreenBrightUp
    } else if byte == 0x6b {
        GX502GWKeys::TouchPadToggle
    } else if byte == 0x6C {
        GX502GWKeys::Sleep
    } else if byte == 0x88 {
        GX502GWKeys::AirplaneMode
    } else if byte == 0xC4 {
        GX502GWKeys::LedBrightUp
    } else if byte == 0xC5 {
        GX502GWKeys::LedBrightDown
    } else if byte == 0xB2 {
        GX502GWKeys::AuraPrevious
    } else if byte == 0xB3 {
        GX502GWKeys::AuraNext
    } else {
        GX502GWKeys::Unmapped
    }
}

impl From<u8> for GX502GWKeys {
    /// The hotkey that emits `byte`.
    fn from(byte: u8) -> (key: Self)
        ensures
            key == key_of(byte),
    {
        match byte {
            0x38 => GX502GWKeys::Rog,
            0x7C => GX502GWKeys::MicToggle,
            0xAE => GX502GWKeys::Fan,
            0x35 => GX502GWKeys::ScreenToggle,
            0x10 => GX502GWKeys::ScreenBrightDown,
            0x20 => GX502GWKeys::ScreenBrightUp,
            0x6b => GX502GWKeys::TouchPadToggle,
            0x6C => GX502GWKeys::Sleep,
            0x88 => GX502GWKeys::AirplaneMode,
            0xC4 => GX502GWKeys::LedBrightUp,
            0xC5 => GX502GWKeys::LedBrightDown,
            0xB2 => GX502GWKeys::AuraPrevious,
            0xB3 => GX502GWKeys::AuraNext,
            _ => GX502GWKeys::Unmapped,
        }
    }
}

impl vstd::std_specs::convert::FromSpecImpl<u8> for GX502GWKeys {
    open spec fn obeys_from_spec() -> bool {
        true
    }

    open spec fn from_spec(byte: u8) -> GX502GWKeys {
        key_of(byte)
    }
}

/// A byte is taken for the hotkey that emits it, and for no other.
pub proof fn lemma_key_of_finds_the_key(byte: u8, key: GX502GWKeys)
    ensures
        key.emits() == Some(byte) <==> key_of(byte) == key && key != GX502GWKeys::Unmapped,
{
}

/// The lighting modes of the GX502GW, in the order in which its keys cycle
/// through them.
pub open spec fn gx502gw_modes() -> Seq<BuiltInModeByte> {
    seq![
        BuiltInModeByte::Stable,
        BuiltInModeByte::Breathe,
        BuiltInModeByte::Cycle,
        BuiltInModeByte::Rainbow,
        BuiltInModeByte::Rain,
        BuiltInModeByte::Random,
        BuiltInModeByte::Highlight,
        BuiltInModeByte::Laser,
        BuiltInModeByte::Ripple,
        BuiltInModeByte::Pulse,
        BuiltInModeByte::ThinZoomy,
        BuiltInModeByte::WideZoomy,
    ]
}

/// The fixed facts of the GX502GW.
pub open spec fn gx502gw() -> Descriptor {
    Descriptor {
        usb_vendor: 0x0B05,
        usb_product: 0x1866,
        board_name: GX502GW_BOARD_NAME@,
        prod_family: GX502GW_PROD_FAMILY@,
        hotkey_group_bytes: seq![0x5au8, 0x02u8],
        min_led_bright: GX502GW_MIN_LED_BRIGHT,
        max_led_bright: GX502GW_MAX_LED_BRIGHT,
        led_iface_num: 0x81,
        supported_modes: gx502gw_modes(),
        backlight: GX502GW_BACKLIGHT@,
    }
}

/// What a key does on the GX502GW.
///
/// The LED brightness keys move the level by one step within the model's
/// range and always have the level sent again. The lighting mode keys
/// select the next or the previous mode and have its settings sent; going
/// back also has the configuration saved. The screen brightness, sleep and
/// airplane mode keys leave the state alone and pass the work on. The
/// microphone and fan keys do nothing. The remaining hotkeys, and every
/// byte but zero that no hotkey emits, become a press on the virtual
/// keyboard.
pub open spec fn gx502gw_reaction(state: CoreState, key_byte: u8) -> (CoreState, Effect) {
    match key_of(key_byte) {
        GX502GWKeys::LedBrightUp => {
            let level = brightness_up(state.brightness, GX502GW_MAX_LED_BRIGHT);
            (state.with_brightness(level), Effect::SetLedBrightness { level })
        },
        GX502GWKeys::LedBrightDown => {
            let level = brightness_down(state.brightness, GX502GW_MIN_LED_BRIGHT);
            (state.with_brightness(level), Effect::SetLedBrightness { level })
        },
        GX502GWKeys::AuraNext => {
            let mode = mode_after(state.mode());
            (state.with_mode(mode), Effect::SetLedMode { mode, save: false })
        },
        GX502GWKeys::AuraPrevious => {
            let mode = mode_before(state.mode());
            (state.with_mode(mode), Effect::SetLedMode { mode, save: true })
        },
        GX502GWKeys::ScreenBrightUp => (state, Effect::ScreenBrightnessUp),
        GX502GWKeys::ScreenBrightDown => (state, Effect::ScreenBrightnessDown),
        GX502GWKeys::Sleep => (state, Effect::Suspend),
        GX502GWKeys::AirplaneMode => (state, Effect::ToggleAirplaneMode),
        GX502GWKeys::MicToggle => (state, Effect::Done),
        GX502GWKeys::Fan => (state, Effect::Done),
        GX502GWKeys::ScreenToggle => (
            state,
            Effect::PressKeys { report: consumer_report(KEY_BACKLIGHT_TOGGLE) },
        ),
        GX502GWKeys::TouchPadToggle => (
            state,
            Effect::PressKeys { report: keyboard_report(KEY_F21) },
        ),
        GX502GWKeys::Rog => (state, Effect::PressKeys { report: keyboard_report(KEY_F13) }),
        GX502GWKeys::Unmapped => if key_byte != 0 {
            (state, Effect::PressKeys { report: consumer_report(key_byte) })
        } else {
            (state, Effect::Done)
        },
    }
}

/// The ASUS ROG Zephyrus S GX502GW.
pub struct LaptopGX502GW {
    usb_vendor: u16,
    usb_product: u16,
    board_name: &'static str,
    prod_family: &'static str,
    hotkey_group_bytes: [u8; 2],
    min_led_bright: u8,
    max_led_bright: u8,
    led_iface_num: u8,
    supported_modes: [BuiltInModeByte; GX502GW_MODE_COUNT],
    backlight: &'static str,
}

impl LaptopGX502GW {
    /// Every laptop of this type holds the facts of the GX502GW.
    #[verifier::type_invariant]
    spec fn holds_the_facts(&self) -> bool {
        self.descriptor() == gx502gw()
    }

    /// A laptop whose record holds the facts of the GX502GW: its USB
    /// identifiers, its names, its hotkey group bytes, its range of LED
    /// brightness levels, its LED interface, its lighting modes in cycling
    /// order, and the name of its backlight device.
    pub fn new() -> (laptop: Self)
        ensures
            laptop.descriptor() == gx502gw(),
            laptop.descriptor().usb_vendor == 0x0B05,
            laptop.descriptor().usb_product == 0x1866,
            laptop.descriptor().board_name == GX502GW_BOARD_NAME@,
            laptop.descriptor().prod_family == GX502GW_PROD_FAMILY@,
            laptop.descriptor().hotkey_group_bytes == seq![0x5au8, 0x02u8],
            laptop.descriptor().min_led_bright == GX502GW_MIN_LED_BRIGHT,
            laptop.descriptor().max_led_bright == GX502GW_MAX_LED_BRIGHT,
            laptop.descriptor().led_iface_num == 0x81,
            laptop.descriptor().supported_modes == gx502gw_modes(),
            laptop.descriptor().backlight == GX502GW_BACKLIGHT@,
    {
        let hotkey_group_bytes = [0x5au8, 0x02u8];
        let supported_modes = [
            BuiltInModeByte::Stable,
            BuiltInModeByte::Breathe,
            BuiltInModeByte::Cycle,
            BuiltInModeByte::Rainbow,
            BuiltInModeByte::Rain,
            BuiltInModeByte::Random,
            BuiltInModeByte::Highlight,
            BuiltInModeByte::Laser,
            BuiltInModeByte::Ripple,
            BuiltInModeByte::Pulse,
            BuiltInModeByte::ThinZoomy,
            BuiltInModeByte::WideZoomy,
        ];
        assert(hotkey_group_bytes@ =~= gx502gw().hotkey_group_bytes);
        assert(supported_modes@ =~= gx502gw().supported_modes);
        LaptopGX502GW {
            usb_vendor: 0x0B05,
            usb_product: 0x1866,
            board_name: GX502GW_BOARD_NAME,
            prod_family: GX502GW_PROD_FAMILY,
            hotkey_group_bytes,
            min_led_bright: GX502GW_MIN_LED_BRIGHT,
            max_led_bright: GX502GW_MAX_LED_BRIGHT,
            led_iface_num: 0x81,
            supported_modes,
            backlight: GX502GW_BACKLIGHT,
        }
    }

    /// Name of the screen backlight device of this model.
    pub fn backlight(&self) -> (name: &str)
        ensures
            name@ == self.descriptor().backlight,
            name@ == GX502GW_BACKLIGHT@,
    {
        proof {
            use_type_invariant(self);
        }
        self.backlight
    }
}

/// On the GX502GW the supported modes are those with a mode code.
pub proof fn lemma_gx502gw_supports(code: u8)
    ensures
        supports(gx502gw_modes(), code) <==> is_mode_code(code),
{
    let modes = gx502gw_modes();
    if is_mode_code(code) {
        let i: int = if code < 0x09 {
            code as int
        } else {
            code - 1
        };
        assert(modes[i].code() == code);
    }
    if supports(modes, code) {
        let i = choose|i: int| 0 <= i < modes.len() && #[trigger] modes[i].code() == code;
        assert(is_mode_code(modes[i].code()));
    }
}

impl Laptop for LaptopGX502GW {
    /// The record that this laptop holds.
    closed spec fn descriptor(&self) -> Descriptor {
        Descriptor {
            usb_vendor: self.usb_vendor,
            usb_product: self.usb_product,
            board_name: self.board_name@,
            prod_family: self.prod_family@,
            hotkey_group_bytes: self.hotkey_group_bytes@,
            min_led_bright: self.min_led_bright,
            max_led_bright: self.max_led_bright,
            led_iface_num: self.led_iface_num,
            supported_modes: self.supported_modes@,
            backlight: self.backlight@,
        }
    }

    open spec fn reaction(&self, state: CoreState, key_byte: u8) -> (CoreState, Effect) {
        gx502gw_reaction(state, key_byte)
    }

    fn do_hotkey_action(&self, core: &mut CoreState, key_byte: u8) -> (effect: Effect) {
        proof {
            use_type_invariant(self);
            lemma_gx502gw_supports(old(core).mode());
            lemma_gx502gw_supports(gx502gw_reaction(*old(core), key_byte).0.mode());
        }
        let effect = match GX502GWKeys::from(key_byte) {
            GX502GWKeys::LedBrightUp => {
                let level = step_up(core.brightness, self.max_led_bright);
                core.brightness = level;
                Effect::SetLedBrightness { level }
            },
            GX502GWKeys::LedBrightDown => {
                let level = step_down(core.brightness, self.min_led_bright);
                core.brightness = level;
                Effect::SetLedBrightness { level }
            },
            GX502GWKeys::AuraNext => {
                let mode = next_mode(core.current_mode[MODE_INDEX]);
                core.current_mode[MODE_INDEX] = mode;
                Effect::SetLedMode { mode, save: false }
            },
            GX502GWKeys::AuraPrevious => {
                let mode = previous_mode(core.current_mode[MODE_INDEX]);
                core.current_mode[MODE_INDEX] = mode;
                Effect::SetLedMode { mode, save: true }
            },
            GX502GWKeys::ScreenBrightUp => Effect::ScreenBrightnessUp,
            GX502GWKeys::ScreenBrightDown => Effect::ScreenBrightnessDown,
            GX502GWKeys::Sleep => Effect::Suspend,
            GX502GWKeys::AirplaneMode => Effect::ToggleAirplaneMode,
            GX502GWKeys::MicToggle => Effect::Done,
            GX502GWKeys::Fan => Effect::Done,
            GX502GWKeys::ScreenToggle => Effect::PressKeys {
                report: make_consumer_report(KEY_BACKLIGHT_TOGGLE),
            },
            GX502GWKeys::TouchPadToggle => Effect::PressKeys { report: make_keyboard_report(KEY_F21) },
            GX502GWKeys::Rog => Effect::PressKeys { report: make_keyboard_report(KEY_F13) },
            GX502GWKeys::Unmapped => {
                if key_byte != 0 {
                    Effect::PressKeys { report: make_consumer_report(key_byte) }
                } else {
                    Effect::Done
                }
            },
        };
        assert(core.current_mode =~= gx502gw_reaction(*old(core), key_byte).0.current_mode);
        effect
    }

    fn hotkey_group_bytes(&self) -> (bytes: &[u8])
        ensures
            bytes@ == gx502gw().hotkey_group_bytes,
    {
        proof {
            use_type_invariant(self);
        }
        &self.hotkey_group_bytes
    }

    fn led_iface_num(&self) -> (number: u8)
        ensures
            number == gx502gw().led_iface_num,
    {
        proof {
            use_type_invariant(self);
        }
        self.led_iface_num
    }

    fn supported_modes(&self) -> (modes: &[BuiltInModeByte])
        ensures
            modes@ == gx502gw_modes(),
    {
        proof {
            use_type_invariant(self);
        }
        &self.supported_modes
    }

    fn usb_vendor(&self) -> (id: u16)
        ensures
            id == gx502gw().usb_vendor,
    {
        proof {
            use_type_invariant(self);
        }
        self.usb_vendor
    }

    fn usb_product(&self) -> (id: u16)
        ensures
            id == gx502gw().usb_product,
    {
        proof {
            use_type_invariant(self);
        }
        self.usb_product
    }

    fn board_name(&self) -> (name: &str)
        ensures
            name@ == GX502GW_BOARD_NAME@,
    {
        proof {
            use_type_invariant(self);
        }
        self.board_name
    }

    fn prod_family(&self) -> (name: &str)
        ensures
            name@ == GX502GW_PROD_FAMILY@,
    {
        proof {
            use_type_invariant(self);
        }
        self.prod_family
    }
}

/// Whether the GX502GW holds `state` to be in order: the brightness level
/// lies in its range and the current mode is one that it supports.
pub open spec fn gx502gw_state_ok(state: CoreState) -> bool {
    &&& gx502gw().in_led_range(state.brightness)
    &&& is_mode_code(state.mode())
}

/// The state after the GX502GW has handled the bytes of `keys` in order.
pub open spec fn gx502gw_state_after(state: CoreState, keys: Seq<u8>) -> CoreState
    decreases keys.len(),
{
    if keys.len() == 0 {
        state
    } else {
        gx502gw_reaction(gx502gw_state_after(state, keys.drop_last()), keys.last()).0
    }
}

/// A state that is in order stays in order, whatever keys are pressed.
pub proof fn lemma_gx502gw_state_stays_ok(state: CoreState, keys: Seq<u8>)
    requires
        gx502gw_state_ok(state),
    ensures
        gx502gw_state_ok(gx502gw_state_after(state, keys)),
    decreases keys.len(),
{
    if keys.len() > 0 {
        lemma_gx502gw_state_stays_ok(state, keys.drop_last());
    }
}

/// Pressing the key that raises the LED brightness again and again raises
/// the level by one per press up to the highest level and leaves it there.
pub proof fn lemma_gx502gw_led_bright_up_repeated(state: CoreState, key_byte: u8, presses: nat)
    requires
        key_of(key_byte) == GX502GWKeys::LedBrightUp,
    ensures
        gx502gw_state_after(state, Seq::new(presses, |i: int| key_byte)).brightness
            == brightness_after_ups(state.brightness, GX502GW_MAX_LED_BRIGHT, presses),
        state.brightness <= GX502GW_MAX_LED_BRIGHT ==> gx502gw_state_after(
            state,
            Seq::new(presses, |i: int| key_byte),
        ).brightness <= GX502GW_MAX_LED_BRIGHT,
    decreases presses,
{
    lemma_brightness_ups(state.brightness, GX502GW_MAX_LED_BRIGHT, presses);
    if presses > 0 {
        let keys = Seq::new(presses, |i: int| key_byte);
        assert(keys.drop_last() =~= Seq::new((presses - 1) as nat, |i: int| key_byte));
        lemma_gx502gw_led_bright_up_repeated(state, key_byte, (presses - 1) as nat);
    }
}

/// Pressing the key that lowers the LED brightness again and again lowers
/// the level by one per press down to the lowest level and leaves it there.
pub proof fn lemma_gx502gw_led_bright_down_repeated(state: CoreState, key_byte: u8, presses: nat)
    requires
        key_of(key_byte) == GX502GWKeys::LedBrightDown,
    ensures
        gx502gw_state_after(state, Seq::new(presses, |i: int| key_byte)).brightness
            == brightness_after_downs(state.brightness, GX502GW_MIN_LED_BRIGHT, presses),
        gx502gw_state_after(state, Seq::new(presses, |i: int| key_byte)).brightness
            >= GX502GW_MIN_LED_BRIGHT,
    decreases presses,
{
    lemma_brightness_downs(state.brightness, GX502GW_MIN_LED_BRIGHT, presses);
    if presses > 0 {
        let keys = Seq::new(presses, |i: int| key_byte);
        assert(keys.drop_last() =~= Seq::new((presses - 1) as nat, |i: int| key_byte));
        lemma_gx502gw_led_bright_down_repeated(state, key_byte, (presses - 1) as nat);
    }
}

/// The mode code at place `i` of the list of supported modes, with the
/// places counted round the list in both directions.
pub open spec fn gx502gw_mode_at(i: int) -> u8 {
    gx502gw_modes()[i % (GX502GW_MODE_COUNT as int)].code()
}

/// The mode keys walk the list of supported modes: forwards to the entry
/// that follows, backwards to the entry before, and round at either end.
pub proof fn lemma_gx502gw_mode_keys_walk_the_list(i: int)
    ensures
        is_mode_code(gx502gw_mode_at(i)),
        mode_after(gx502gw_mode_at(i)) == gx502gw_mode_at(i + 1),
        mode_before(gx502gw_mode_at(i)) == gx502gw_mode_at(i - 1),
{
}

/// Pressing the key for the next mode again and again, starting at place
/// `i` of the list of supported modes, arrives after `presses` presses
/// `presses` places further on. So the modes come in the order of the list,
/// and the reserved code never comes.
pub proof fn lemma_gx502gw_mode_next_repeated(
    state: CoreState,
    key_byte: u8,
    i: int,
    presses: nat,
)
    requires
        key_of(key_byte) == GX502GWKeys::AuraNext,
        state.mode() == gx502gw_mode_at(i),
    ensures
        gx502gw_state_after(state, Seq::new(presses, |k: int| key_byte)).mode() == gx502gw_mode_at(
            i + presses,
        ),
    decreases presses,
{
    if presses > 0 {
        let keys = Seq::new(presses, |k: int| key_byte);
        assert(keys.drop_last() =~= Seq::new((presses - 1) as nat, |k: int| key_byte));
        lemma_gx502gw_mode_next_repeated(state, key_byte, i, (presses - 1) as nat);
        lemma_gx502gw_mode_keys_walk_the_list(i + presses - 1);
    }
}

/// Pressing the key for the previous mode again and again, starting at
/// place `i` of the list of supported modes, arrives after `presses`
/// presses `presses` places further back.
pub proof fn lemma_gx502gw_mode_previous_repeated(
    state: CoreState,
    key_byte: u8,
    i: int,
    presses: nat,
)
    requires
        key_of(key_byte) == GX502GWKeys::AuraPrevious,
        state.mode() == gx502gw_mode_at(i),
    ensures
        gx502gw_state_after(state, Seq::new(presses, |k: int| key_byte)).mode() == gx502gw_mode_at(
            i - presses,
        ),
    decreases presses,
{
    if presses > 0 {
        let keys = Seq::new(presses, |k: int| key_byte);
        assert(keys.drop_last() =~= Seq::new((presses - 1) as nat, |k: int| key_byte));
        lemma_gx502gw_mode_previous_repeated(state, key_byte, i, (presses - 1) as nat);
        lemma_gx502gw_mode_keys_walk_the_list(i - presses + 1);
    }
}

/// A byte other than zero that no hotkey emits is passed on as it is: the
/// state stays, one report goes to the virtual keyboard, made of the
/// consumer-control tag, the byte and zeros, and nothing follows it.
pub proof fn lemma_gx502gw_unmapped_key_is_forwarded(
    state: CoreState,
    key_byte: u8,
    outcome: Outcome,
)
    requires
        key_of(key_byte) == GX502GWKeys::Unmapped,
        key_byte != 0,
    ensures
        gx502gw_reaction(state, key_byte).0 == state,
        gx502gw_reaction(state, key_byte).1 matches Effect::PressKeys { report } && report@
            == seq![CONSUMER_REPORT, key_byte, 0u8, 0u8, 0u8, 0u8, 0u8, 0u8],
        gx502gw_reaction(state, key_byte).1.after(outcome) == Ok::<Effect, AuraError>(Effect::Done),
{
    assert(consumer_report(key_byte)@ =~= seq![
        CONSUMER_REPORT,
        key_byte,
        0u8,
        0u8,
        0u8,
        0u8,
        0u8,
        0u8,
    ]);
}

/// The zero byte changes nothing and asks for nothing.
pub proof fn lemma_gx502gw_zero_key_does_nothing(state: CoreState)
    ensures
        gx502gw_reaction(state, 0) == (state, Effect::Done),
{
}

} // verus!
