//! Tuning settings stored at fixed offsets of the ROM image, the patches
//! that change them, and the names of their known states.

use vstd::prelude::*;

verus! {

/// MIL blink count.
pub const BLINK_OFFSET: u16 = 0x6020;
/// Idle air control valve switch.
pub const IACV_OFFSET: u16 = 0x6116;
/// Shift light switch.
pub const SHIFT_LIGHT_ENABLE_OFFSET: u16 = 0x6142;
/// Shift light RPM divider, low byte.
pub const SHIFT_LIGHT_RPM_LO_OFFSET: u16 = 0x6144;
/// Shift light RPM divider, high byte.
pub const SHIFT_LIGHT_RPM_HI_OFFSET: u16 = 0x6145;
/// Fan control switch.
pub const FAN_CONTROL_ENABLE_OFFSET: u16 = 0x616D;
/// Fan control temperature (raw coolant sensor value).
pub const FAN_CONTROL_TEMP_OFFSET: u16 = 0x616E;
/// Rev limiter cut mode, first byte.
pub const CUT_A_OFFSET: u16 = 0x6125;
/// Rev limiter cut mode, second byte.
pub const CUT_B_OFFSET: u16 = 0x6126;
/// Ignition cut timing, first copy.
pub const IGN_TIMING_61D8_OFFSET: u16 = 0x61D8;
/// Ignition cut timing, second copy.
pub const IGN_TIMING_61E4_OFFSET: u16 = 0x61E4;
/// Ignition cut timing, third copy.
pub const IGN_TIMING_61E5_OFFSET: u16 = 0x61E5;
/// Launch control switch.
pub const LAUNCH_OFFSET: u16 = 0x6152;
/// Launch control TPS condition switch.
pub const LAUNCH_TPS_ENABLE_OFFSET: u16 = 0x6155;
/// Launch control TPS threshold.
pub const LAUNCH_TPS_VALUE_OFFSET: u16 = 0x6158;
/// VTEC switch, first byte.
pub const VTEC_SW_6120_OFFSET: u16 = 0x6120;
/// VTEC switch, second byte.
pub const VTEC_SW_61F2_OFFSET: u16 = 0x61F2;
/// VTEC switch, third byte.
pub const VTEC_SW_6657_OFFSET: u16 = 0x6657;
/// VTEC engagement point, first value.
pub const VTEC_VAL_6658_OFFSET: u16 = 0x6658;
/// VTEC switch, fourth byte.
pub const VTEC_SW_6659_OFFSET: u16 = 0x6659;
/// VTEC engagement point, second value.
pub const VTEC_VAL_665A_OFFSET: u16 = 0x665A;

/// The byte at `off` of `rom`, or `prev` when the ROM is too short.
pub open spec fn byte_at_or(rom: Seq<u8>, off: u16, prev: u8) -> u8 {
    if (off as int) < rom.len() {
        rom[off as int]
    } else {
        prev
    }
}

/// Little-endian value of two bytes.
pub open spec fn le_u16(lo: u8, hi: u8) -> u16 {
    (lo as nat + 256 * (hi as nat)) as u16
}

/// The settings read from a ROM image.
#[derive(Debug, Clone, Copy, PartialEq, Eq)]
pub struct RomSettings {
    pub mil_blinks: u8,
    pub iacv: u8,
    pub shift_light_enable: u8,
    pub shift_light_rpm_raw: u16,
    pub fan_control_enable: u8,
    pub fan_control_temp: u8,
    pub cut_a: u8,
    pub cut_b: u8,
    pub ign_timing_61d8: u8,
    pub ign_timing_61e4: u8,
    pub ign_timing_61e5: u8,
    pub launch: u8,
    pub launch_tps_enable: u8,
    pub launch_tps_value: u8,
    pub vtec_sw_6120: u8,
    pub vtec_sw_61f2: u8,
    pub vtec_sw_6657: u8,
    pub vtec_val_6658: u8,
    pub vtec_sw_6659: u8,
    pub vtec_val_665a: u8,
}

/// The settings after reading `rom` over `prev`: every setting whose bytes
/// lie inside the ROM is taken from it, the others keep their value.
pub open spec fn refreshed(prev: RomSettings, rom: Seq<u8>) -> RomSettings {
    RomSettings {
        mil_blinks: byte_at_or(rom, BLINK_OFFSET, prev.mil_blinks),
        iacv: byte_at_or(rom, IACV_OFFSET, prev.iacv),
        shift_light_enable: byte_at_or(rom, SHIFT_LIGHT_ENABLE_OFFSET, prev.shift_light_enable),
        shift_light_rpm_raw: if (SHIFT_LIGHT_RPM_HI_OFFSET as int) < rom.len() {
            le_u16(rom[SHIFT_LIGHT_RPM_LO_OFFSET as int], rom[SHIFT_LIGHT_RPM_HI_OFFSET as int])
        } else {
            prev.shift_light_rpm_raw
        },
        fan_control_enable: byte_at_or(rom, FAN_CONTROL_ENABLE_OFFSET, prev.fan_control_enable),
        fan_control_temp: byte_at_or(rom, FAN_CONTROL_TEMP_OFFSET, prev.fan_control_temp),
        cut_a: byte_at_or(rom, CUT_A_OFFSET, prev.cut_a),
        cut_b: byte_at_or(rom, CUT_B_OFFSET, prev.cut_b),
        ign_timing_61d8: byte_at_or(rom, IGN_TIMING_61D8_OFFSET, prev.ign_timing_61d8),
        ign_timing_61e4: byte_at_or(rom, IGN_TIMING_61E4_OFFSET, prev.ign_timing_61e4),
        ign_timing_61e5: byte_at_or(rom, IGN_TIMING_61E5_OFFSET, prev.ign_timing_61e5),
        launch: byte_at_or(rom, LAUNCH_OFFSET, prev.launch),
        launch_tps_enable: byte_at_or(rom, LAUNCH_TPS_ENABLE_OFFSET, prev.launch_tps_enable),
        launch_tps_value: byte_at_or(rom, LAUNCH_TPS_VALUE_OFFSET, prev.launch_tps_value),
        vtec_sw_6120: byte_at_or(rom, VTEC_SW_6120_OFFSET, prev.vtec_sw_6120),
        vtec_sw_61f2: byte_at_or(rom, VTEC_SW_61F2_OFFSET, prev.vtec_sw_61f2),
        vtec_sw_6657: byte_at_or(rom, VTEC_SW_6657_OFFSET, prev.vtec_sw_6657),
        vtec_val_6658: byte_at_or(rom, VTEC_VAL_6658_OFFSET, prev.vtec_val_6658),
        vtec_sw_6659: byte_at_or(rom, VTEC_SW_6659_OFFSET, prev.vtec_sw_6659),
        vtec_val_665a: byte_at_or(rom, VTEC_VAL_665A_OFFSET, prev.vtec_val_665a),
    }
}

/// Law: on a ROM that holds every setting, each setting is the byte at its
/// documented offset, and the shift light divider is the little-endian
/// value of bytes 0x6144 (low) and 0x6145 (high).
pub proof fn settings_at_offsets(prev: RomSettings, rom: Seq<u8>)
    requires
        rom.len() > 0x665A,
    ensures
        refreshed(prev, rom).mil_blinks == rom[0x6020],
        refreshed(prev, rom).iacv == rom[0x6116],
        refreshed(prev, rom).shift_light_enable == rom[0x6142],
        refreshed(prev, rom).fan_control_enable == rom[0x616D],
        refreshed(prev, rom).fan_control_temp == rom[0x616E],
        refreshed(prev, rom).cut_a == rom[0x6125],
        refreshed(prev, rom).cut_b == rom[0x6126],
        refreshed(prev, rom).ign_timing_61d8 == rom[0x61D8],
        refreshed(prev, rom).ign_timing_61e4 == rom[0x61E4],
        refreshed(prev, rom).ign_timing_61e5 == rom[0x61E5],
        refreshed(prev, rom).launch == rom[0x6152],
        refreshed(prev, rom).launch_tps_enable == rom[0x6155],
        refreshed(prev, rom).launch_tps_value == rom[0x6158],
        refreshed(prev, rom).vtec_sw_6120 == rom[0x6120],
        refreshed(prev, rom).vtec_sw_61f2 == rom[0x61F2],
        refreshed(prev, rom).vtec_sw_6657 == rom[0x6657],
        refreshed(prev, rom).vtec_val_6658 == rom[0x6658],
        refreshed(prev, rom).vtec_sw_6659 == rom[0x6659],
        refreshed(prev, rom).vtec_val_665a == rom[0x665A],
        refreshed(prev, rom).shift_light_rpm_raw as int == rom[0x6144] as int + 256 * rom[0x6145] as int,
{
}

fn get_or(rom: &[u8], off: u16, prev: u8) -> (b: u8)
    ensures
        b == byte_at_or(rom@, off, prev),
{
    if (off as usize) < rom.len() {
        rom[off as usize]
    } else {
        prev
    }
}

impl RomSettings {
    /// All settings zero, as before any ROM has been read.
    pub fn new() -> (s: RomSettings)
        ensures
            s == (RomSettings {
                mil_blinks: 0,
                iacv: 0,
                shift_light_enable: 0,
                shift_light_rpm_raw: 0,
                fan_control_enable: 0,
                fan_control_temp: 0,
                cut_a: 0,
                cut_b: 0,
                ign_timing_61d8: 0,
                ign_timing_61e4: 0,
                ign_timing_61e5: 0,
                launch: 0,
                launch_tps_enable: 0,
                launch_tps_value: 0,
                vtec_sw_6120: 0,
                vtec_sw_61f2: 0,
                vtec_sw_6657: 0,
                vtec_val_6658: 0,
                vtec_sw_6659: 0,
                vtec_val_665a: 0,
            }),
    {
        RomSettings {
            mil_blinks: 0,
            iacv: 0,
            shift_light_enable: 0,
            shift_light_rpm_raw: 0,
            fan_control_enable: 0,
            fan_control_temp: 0,
            cut_a: 0,
            cut_b: 0,
            ign_timing_61d8: 0,
            ign_timing_61e4: 0,
            ign_timing_61e5: 0,
            launch: 0,
            launch_tps_enable: 0,
            launch_tps_value: 0,
            vtec_sw_6120: 0,
            vtec_sw_61f2: 0,
            vtec_sw_6657: 0,
            vtec_val_6658: 0,
            vtec_sw_6659: 0,
            vtec_val_665a: 0,
        }
    }

    /// Reads every setting whose bytes lie inside `rom`; settings beyond its
    /// end keep their value.
    pub fn refresh_from_rom(&mut self, rom: &[u8])
        ensures
            *final(self) == refreshed(*old(self), rom@),
    {
        self.mil_blinks = get_or(rom, BLINK_OFFSET, self.mil_blinks);
        self.iacv = get_or(rom, IACV_OFFSET, self.iacv);
        self.shift_light_enable = get_or(rom, SHIFT_LIGHT_ENABLE_OFFSET, self.shift_light_enable);
        if (SHIFT_LIGHT_RPM_HI_OFFSET as usize) < rom.len() {
            let lo = rom[SHIFT_LIGHT_RPM_LO_OFFSET as usize];
            let hi = rom[SHIFT_LIGHT_RPM_HI_OFFSET as usize];
            self.shift_light_rpm_raw = long2bytes(lo, hi);
        }
        self.fan_control_enable = get_or(rom, FAN_CONTROL_ENABLE_OFFSET, self.fan_control_enable);
        self.fan_control_temp = get_or(rom, FAN_CONTROL_TEMP_OFFSET, self.fan_control_temp);
        self.cut_a = get_or(rom, CUT_A_OFFSET, self.cut_a);
        self.cut_b = get_or(rom, CUT_B_OFFSET, self.cut_b);
        self.ign_timing_61d8 = get_or(rom, IGN_TIMING_61D8_OFFSET, self.ign_timing_61d8);
        self.ign_timing_61e4 = get_or(rom, IGN_TIMING_61E4_OFFSET, self.ign_timing_61e4);
        self.ign_timing_61e5 = get_or(rom, IGN_TIMING_61E5_OFFSET, self.ign_timing_61e5);
        self.launch = get_or(rom, LAUNCH_OFFSET, self.launch);
        self.launch_tps_enable = get_or(rom, LAUNCH_TPS_ENABLE_OFFSET, self.launch_tps_enable);
        self.launch_tps_value = get_or(rom, LAUNCH_TPS_VALUE_OFFSET, self.launch_tps_value);
        self.vtec_sw_6120 = get_or(rom, VTEC_SW_6120_OFFSET, self.vtec_sw_6120);
        self.vtec_sw_61f2 = get_or(rom, VTEC_SW_61F2_OFFSET, self.vtec_sw_61f2);
        self.vtec_sw_6657 = get_or(rom, VTEC_SW_6657_OFFSET, self.vtec_sw_6657);
        self.vtec_val_6658 = get_or(rom, VTEC_VAL_6658_OFFSET, self.vtec_val_6658);
        self.vtec_sw_6659 = get_or(rom, VTEC_SW_6659_OFFSET, self.vtec_sw_6659);
        self.vtec_val_665a = get_or(rom, VTEC_VAL_665A_OFFSET, self.vtec_val_665a);
    }
}

/// Little-endian 16-bit value of `byte1` (low) and `byte2` (high).
pub fn long2bytes(byte1: u8, byte2: u8) -> (v: u16)
    ensures
        v == le_u16(byte1, byte2),
        v as nat == byte1 as nat + 256 * (byte2 as nat),
{
    (byte2 as u16) * 256 + byte1 as u16
}


/// Name of the IACV setting's state.
pub open spec fn iacv_state(value: u8) -> Seq<char> {
    if value == 0x00 {
        "IACV ON"@
    } else if value == 0xFF {
        "IACV OFF (NO IACV)"@
    } else {
        "IACV CUSTOM"@
    }
}

/// Names the state of the IACV setting: `00` is on, `FF` is off.
pub fn iacv_state_label(value: u8) -> (s: &'static str)
    ensures
        s@ == iacv_state(value),
{
    match value {
        0x00 => "IACV ON",
        0xFF => "IACV OFF (NO IACV)",
        _ => "IACV CUSTOM",
    }
}


/// Name of the fan control setting's state.
pub open spec fn fan_control_state(value: u8) -> Seq<char> {
    if value == 0xFF {
        "FAN CONTROL ON"@
    } else if value == 0x00 {
        "FAN CONTROL OFF"@
    } else {
        "FAN CONTROL CUSTOM"@
    }
}

/// Names the state of the fan control setting: `FF` is on, `00` is off.
pub fn fan_control_state_label(value: u8) -> (s: &'static str)
    ensures
        s@ == fan_control_state(value),
{
    match value {
        0xFF => "FAN CONTROL ON",
        0x00 => "FAN CONTROL OFF",
        _ => "FAN CONTROL CUSTOM",
    }
}

/// Name of the shift light setting's state.
pub open spec fn shift_light_state(value: u8) -> Seq<char> {
    if value == 0xFF {
        "SHIFT LIGHT ON"@
    } else if value == 0x00 {
        "SHIFT LIGHT OFF"@
    } else {
        "SHIFT LIGHT CUSTOM"@
    }
}

/// Names the state of the shift light setting: `FF` is on, `00` is off.
pub fn shift_light_state_label(value: u8) -> (s: &'static str)
    ensures
        s@ == shift_light_state(value),
{
    match value {
        0xFF => "SHIFT LIGHT ON",
        0x00 => "SHIFT LIGHT OFF",
        _ => "SHIFT LIGHT CUSTOM",
    }
}

/// Name of the rev limiter cut mode.
pub open spec fn cut_state(a: u8, b: u8) -> Seq<char> {
    if a == 0x00 && b == 0x00 {
        "FUEL CUT"@
    } else if a == 0xFF && b == 0xFF {
        "IGN CUT"@
    } else if a == 0xFF && b == 0x00 {
        "FUEL+IGN CUT"@
    } else if a == 0x00 && b == 0xFF {
        "CUT UNKNOWN (00/FF)"@
    } else {
        "CUT CUSTOM"@
    }
}

/// Names the rev limiter cut mode from its two bytes.
pub fn cut_state_label(a: u8, b: u8) -> (s: &'static str)
    ensures
        s@ == cut_state(a, b),
{
    match (a, b) {
        (0x00, 0x00) => "FUEL CUT",
        (0xFF, 0xFF) => "IGN CUT",
        (0xFF, 0x00) => "FUEL+IGN CUT",
        (0x00, 0xFF) => "CUT UNKNOWN (00/FF)",
        _ => "CUT CUSTOM",
    }
}

/// Name of the launch control setting's state.
pub open spec fn launch_state(value: u8) -> Seq<char> {
    if value == 0x00 {
        "LAUNCH OFF"@
    } else if value == 0x80 {
        "LAUNCH ON"@
    } else {
        "LAUNCH CUSTOM"@
    }
}

/// Names the state of launch control: `00` is off, `80` is on.
pub fn launch_state_label(value: u8) -> (s: &'static str)
    ensures
        s@ == launch_state(value),
{
    match value {
        0x00 => "LAUNCH OFF",
        0x80 => "LAUNCH ON",
        _ => "LAUNCH CUSTOM",
    }
}

/// Name of the launch control TPS condition's state.
pub open spec fn launch_tps_state(enable: u8, value: u8) -> Seq<char> {
    if enable == 0x00 && value == 0x5F {
        "LAUNCH TPS OFF"@
    } else if enable == 0xFF && value == 0x5E {
        "LAUNCH TPS ON"@
    } else {
        "LAUNCH TPS CUSTOM"@
    }
}

/// Names the state of the launch control TPS condition.
pub fn launch_tps_state_label(enable: u8, value: u8) -> (s: &'static str)
    ensures
        s@ == launch_tps_state(enable, value),
{
    match (enable, value) {
        (0x00, 0x5F) => "LAUNCH TPS OFF",
        (0xFF, 0x5E) => "LAUNCH TPS ON",
        _ => "LAUNCH TPS CUSTOM",
    }
}

/// Name of the VTEC switch's state.
pub open spec fn vtec_switch_state(sw6120: u8, sw61f2: u8, sw6657: u8, sw6659: u8) -> Seq<char> {
    if sw6120 == 0x44 && sw61f2 == 0xFF && sw6657 == 0x52 && sw6659 == 0x37 {
        "VTEC ON"@
    } else if sw6120 == 0x43 && sw61f2 == 0x00 && sw6657 == 0x54 && sw6659 == 0x33 {
        "VTEC OFF"@
    } else {
        "VTEC CUSTOM"@
    }
}

/// Names the state of the VTEC switch from its four bytes.
pub fn vtec_switch_state_label(sw6120: u8, sw61f2: u8, sw6657: u8, sw6659: u8) -> (s: &'static str)
    ensures
        s@ == vtec_switch_state(sw6120, sw61f2, sw6657, sw6659),
{
    match (sw6120, sw61f2, sw6657, sw6659) {
        (0x44, 0xFF, 0x52, 0x37) => "VTEC ON",
        (0x43, 0x00, 0x54, 0x33) => "VTEC OFF",
        _ => "VTEC CUSTOM",
    }
}

/// The two engagement bytes of a VTEC RPM preset.
pub open spec fn vtec_rpm_preset(rpm: u16) -> Option<(u8, u8)> {
    if rpm == 4000 {
        Some((0xC0u8, 0xC0u8))
    } else if rpm == 4500 {
        Some((0xC0u8, 0xC8u8))
    } else if rpm == 5000 {
        Some((0xDBu8, 0xD0u8))
    } else if rpm == 5500 {
        Some((0xD8u8, 0xD8u8))
    } else if rpm == 6000 {
        Some((0xD0u8, 0xE0u8))
    } else {
        None
    }
}

/// The engagement bytes for a VTEC RPM preset (4000 to 6000 in steps of
/// 500), or `None` for any other RPM.
pub fn vtec_rpm_preset_values(rpm: u16) -> (r: Option<(u8, u8)>)
    ensures
        r == vtec_rpm_preset(rpm),
{
    match rpm {
        4000 => Some((0xC0, 0xC0)),
        4500 => Some((0xC0, 0xC8)),
        5000 => Some((0xDB, 0xD0)),
        5500 => Some((0xD8, 0xD8)),
        6000 => Some((0xD0, 0xE0)),
        _ => None,
    }
}

/// The ignition cut timing byte of a preset.
pub open spec fn ign_timing_preset(ms: u16) -> Option<u8> {
    if ms == 50 {
        Some(0x05u8)
    } else if ms == 70 {
        Some(0x07u8)
    } else if ms == 100 {
        Some(0x0Au8)
    } else {
        None
    }
}

/// The timing byte for an ignition cut preset (50, 70 or 100 ms), or `None`
/// for any other duration.
pub fn ign_timing_preset_value(ms: u16) -> (r: Option<u8>)
    ensures
        r == ign_timing_preset(ms),
{
    match ms {
        50 => Some(0x05),
        70 => Some(0x07),
        100 => Some(0x0A),
        _ => None,
    }
}

} // verus!
