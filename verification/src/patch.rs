//! Byte patches applied to a ROM image, and the setting presets that are
//! made of them.

use vstd::prelude::*;
use crate::ostrich::rom_address;
use crate::session::{blink_value, patch_write_target, WriteTarget};
use crate::text::{parse_u8_spec, trimmed};
use crate::settings::{
    RomSettings, refreshed, iacv_state, fan_control_state, shift_light_state, cut_state,
    launch_state, launch_tps_state, vtec_switch_state, le_u16, BLINK_OFFSET, IACV_OFFSET,
    SHIFT_LIGHT_ENABLE_OFFSET, SHIFT_LIGHT_RPM_LO_OFFSET, SHIFT_LIGHT_RPM_HI_OFFSET,
    FAN_CONTROL_ENABLE_OFFSET, FAN_CONTROL_TEMP_OFFSET, CUT_A_OFFSET, CUT_B_OFFSET,
    IGN_TIMING_61D8_OFFSET, IGN_TIMING_61E4_OFFSET, IGN_TIMING_61E5_OFFSET, LAUNCH_OFFSET,
    LAUNCH_TPS_ENABLE_OFFSET, LAUNCH_TPS_VALUE_OFFSET, VTEC_SW_6120_OFFSET, VTEC_SW_61F2_OFFSET,
    VTEC_SW_6657_OFFSET, VTEC_VAL_6658_OFFSET, VTEC_SW_6659_OFFSET, VTEC_VAL_665A_OFFSET,
};

verus! {

/// A ROM image with `patches` applied in order: each writes its byte at its
/// offset, so a later patch of the same offset wins.
pub open spec fn apply_patch_seq(rom: Seq<u8>, patches: Seq<(u16, u8)>) -> Seq<u8>
    decreases patches.len(),
{
    if patches.len() == 0 {
        rom
    } else {
        let p = patches.last();
        apply_patch_seq(rom, patches.drop_last()).update(p.0 as int, p.1)
    }
}

/// The offset of the first patch that lies beyond a ROM of `len` bytes.
pub open spec fn first_out_of_range(len: nat, patches: Seq<(u16, u8)>) -> Option<u16>
    decreases patches.len(),
{
    if patches.len() == 0 {
        None
    } else if patches[0].0 as nat >= len {
        Some(patches[0].0)
    } else {
        first_out_of_range(len, patches.drop_first())
    }
}

/// The value the last patch of offset `off` writes, or `default` when no
/// patch writes there.
pub open spec fn last_patch_value(patches: Seq<(u16, u8)>, off: int, default: u8) -> u8
    decreases patches.len(),
{
    if patches.len() == 0 {
        default
    } else if patches.last().0 as int == off {
        patches.last().1
    } else {
        last_patch_value(patches.drop_last(), off, default)
    }
}

/// Why a patch set could not be applied.
#[derive(Debug, PartialEq, Eq)]
pub enum PatchError {
    /// The ROM image ends at or before this patch offset.
    RomTooSmall { offset: u16 },
}

proof fn lemma_first_out_of_range_none(len: nat, patches: Seq<(u16, u8)>, i: int)
    requires
        first_out_of_range(len, patches) is None,
        0 <= i < patches.len(),
    ensures
        (patches[i].0 as nat) < len,
    decreases patches.len(),
{
    if i > 0 {
        lemma_first_out_of_range_none(len, patches.drop_first(), i - 1);
    }
}

proof fn lemma_first_out_of_range_prefix(len: nat, patches: Seq<(u16, u8)>, i: int)
    requires
        0 <= i <= patches.len(),
        forall|j: int| 0 <= j < i ==> (#[trigger] patches[j].0 as nat) < len,
    ensures
        first_out_of_range(len, patches) == first_out_of_range(len, patches.subrange(i, patches.len() as int)),
    decreases i,
{
    if i > 0 {
        assert((patches[0].0 as nat) < len);
        assert(patches.drop_first().subrange(i - 1, patches.drop_first().len() as int) =~= patches.subrange(
            i,
            patches.len() as int,
        ));
        assert forall|j: int| 0 <= j < i - 1 implies (#[trigger] patches.drop_first()[j].0 as nat) < len by {
            assert(patches.drop_first()[j] == patches[j + 1]);
        }
        lemma_first_out_of_range_prefix(len, patches.drop_first(), i - 1);
    } else {
        assert(patches.subrange(0, patches.len() as int) =~= patches);
    }
}

proof fn lemma_apply_len(rom: Seq<u8>, patches: Seq<(u16, u8)>)
    requires
        forall|j: int| 0 <= j < patches.len() ==> (#[trigger] patches[j].0 as nat) < rom.len(),
    ensures
        apply_patch_seq(rom, patches).len() == rom.len(),
    decreases patches.len(),
{
    if patches.len() > 0 {
        assert forall|j: int| 0 <= j < patches.len() - 1 implies (#[trigger] patches.drop_last()[j].0 as nat)
            < rom.len() by {
            assert(patches.drop_last()[j] == patches[j]);
        }
        lemma_apply_len(rom, patches.drop_last());
    }
}

/// Applies `patches` to `rom` in order. When any patch lies beyond the end
/// of the ROM, nothing is written and the first such offset is reported.
pub fn apply_patches(rom: &mut Vec<u8>, patches: &[(u16, u8)]) -> (r: Result<(), PatchError>)
    ensures
        match first_out_of_range(old(rom)@.len(), patches@) {
            Some(off) => r == Err::<(), PatchError>(PatchError::RomTooSmall { offset: off })
                && final(rom)@ == old(rom)@,
            None => r is Ok && final(rom)@ == apply_patch_seq(old(rom)@, patches@),
        },
{
    let mut i: usize = 0;
    while i < patches.len()
        invariant
            i <= patches@.len(),
            rom@ == old(rom)@,
            forall|j: int| 0 <= j < i ==> (#[trigger] patches@[j].0 as nat) < rom@.len(),
        decreases patches@.len() - i,
    {
        let (offset, _) = patches[i];
        if rom.len() <= offset as usize {
            proof {
                lemma_first_out_of_range_prefix(rom@.len(), patches@, i as int);
                reveal_with_fuel(first_out_of_range, 2);
            }
            return Err(PatchError::RomTooSmall { offset });
        }
        i = i + 1;
    }
    proof {
        lemma_first_out_of_range_prefix(rom@.len(), patches@, patches@.len() as int);
    }
    let ghost orig = rom@;
    let mut k: usize = 0;
    while k < patches.len()
        invariant
            k <= patches@.len(),
            orig == old(rom)@,
            rom@ == apply_patch_seq(orig, patches@.take(k as int)),
            forall|j: int| 0 <= j < patches@.len() ==> (#[trigger] patches@[j].0 as nat) < orig.len(),
        decreases patches@.len() - k,
    {
        let (offset, value) = patches[k];
        proof {
            assert forall|j: int| 0 <= j < k implies (#[trigger] patches@.take(k as int)[j].0 as nat) < orig.len() by {
                assert(patches@.take(k as int)[j] == patches@[j]);
            }
            lemma_apply_len(orig, patches@.take(k as int));
            assert(patches@.take(k + 1).drop_last() =~= patches@.take(k as int));
        }
        rom.set(offset as usize, value);
        k = k + 1;
    }
    proof {
        assert(patches@.take(patches@.len() as int) =~= patches@);
    }
    Ok(())
}

/// Law: after applying a patch set, every byte of the ROM holds the value
/// of the last patch of its offset, or its old value when no patch writes
/// there; the length does not change.
pub proof fn patched_byte(rom: Seq<u8>, patches: Seq<(u16, u8)>, off: int)
    requires
        0 <= off < rom.len(),
        first_out_of_range(rom.len(), patches) is None,
    ensures
        apply_patch_seq(rom, patches).len() == rom.len(),
        apply_patch_seq(rom, patches)[off] == last_patch_value(patches, off, rom[off]),
    decreases patches.len(),
{
    assert forall|j: int| 0 <= j < patches.len() implies (#[trigger] patches[j].0 as nat) < rom.len() by {
        lemma_first_out_of_range_none(rom.len(), patches, j);
    }
    lemma_apply_len(rom, patches);
    if patches.len() > 0 {
        assert forall|i: int| 0 <= i < patches.len() - 1 implies (#[trigger] patches.drop_last()[i].0 as nat)
            < rom.len() by {
            lemma_first_out_of_range_none(rom.len(), patches, i);
        }
        lemma_first_out_of_range_prefix(rom.len(), patches.drop_last(), patches.len() - 1);
        reveal_with_fuel(first_out_of_range, 1);
        assert(patches.drop_last().subrange(patches.len() - 1, patches.len() - 1) =~= Seq::<
            (u16, u8),
        >::empty());
        lemma_first_out_of_range_none(rom.len(), patches, patches.len() - 1);
        patched_byte(rom, patches.drop_last(), off);
    }
}


proof fn lemma_last_patch_value_stable(patches: Seq<(u16, u8)>, off: int, default: u8)
    ensures
        last_patch_value(patches, off, last_patch_value(patches, off, default)) == last_patch_value(
            patches,
            off,
            default,
        ),
    decreases patches.len(),
{
    if patches.len() > 0 && patches.last().0 as int != off {
        lemma_last_patch_value_stable(patches.drop_last(), off, default);
    }
}

/// Law: applying a patch set a second time changes nothing more, so
/// pressing a setting's button again leaves the ROM as it is.
pub proof fn patches_idempotent(rom: Seq<u8>, patches: Seq<(u16, u8)>)
    requires
        first_out_of_range(rom.len(), patches) is None,
    ensures
        apply_patch_seq(apply_patch_seq(rom, patches), patches) == apply_patch_seq(rom, patches),
{
    let once = apply_patch_seq(rom, patches);
    let twice = apply_patch_seq(once, patches);
    assert forall|i: int| 0 <= i < rom.len() implies #[trigger] twice[i] == once[i] by {
        patched_byte(rom, patches, i);
        patched_byte(once, patches, i);
        lemma_last_patch_value_stable(patches, i, rom[i]);
    }
    assert forall|j: int| 0 <= j < patches.len() implies (#[trigger] patches[j].0 as nat) < rom.len() by {
        lemma_first_out_of_range_none(rom.len(), patches, j);
    }
    lemma_apply_len(rom, patches);
    lemma_apply_len(once, patches);
    assert(twice =~= once);
}

/// A change of a setting, as offered by the settings panel.
#[derive(Debug, Clone, Copy, PartialEq, Eq)]
pub enum SettingPreset {
    IacvOn,
    NoIacv,
    ShiftLightOn,
    ShiftLightOff,
    FanControlOn,
    FanControlOff,
    /// Rev limiter cuts fuel (`00/00`).
    FuelCut,
    /// Rev limiter cuts ignition (`FF/FF`).
    IgnCut,
    /// Rev limiter cuts fuel and ignition (`FF/00`).
    FuelIgnCut,
    LaunchOff,
    LaunchOn,
    LaunchTpsOff,
    LaunchTpsOn,
    VtecOn,
    VtecOff,
    /// Ignition cut timing byte, written to its three copies.
    IgnTiming(u8),
    /// VTEC engagement bytes.
    VtecRpm(u8, u8),
    /// Shift light RPM divider.
    ShiftLightRpm(u16),
    /// Fan control temperature (raw coolant sensor value).
    FanTemp(u8),
    /// MIL blink count.
    MilBlinks(u8),
}

/// The patches that make up a preset.
pub open spec fn preset_patch_seq(p: SettingPreset) -> Seq<(u16, u8)> {
    match p {
        SettingPreset::IacvOn => seq![(IACV_OFFSET, 0x00u8)],
        SettingPreset::NoIacv => seq![(IACV_OFFSET, 0xFFu8)],
        SettingPreset::ShiftLightOn => seq![(SHIFT_LIGHT_ENABLE_OFFSET, 0xFFu8)],
        SettingPreset::ShiftLightOff => seq![(SHIFT_LIGHT_ENABLE_OFFSET, 0x00u8)],
        SettingPreset::FanControlOn => seq![(FAN_CONTROL_ENABLE_OFFSET, 0xFFu8)],
        SettingPreset::FanControlOff => seq![(FAN_CONTROL_ENABLE_OFFSET, 0x00u8)],
        SettingPreset::FuelCut => seq![(CUT_A_OFFSET, 0x00u8), (CUT_B_OFFSET, 0x00u8)],
        SettingPreset::IgnCut => seq![(CUT_A_OFFSET, 0xFFu8), (CUT_B_OFFSET, 0xFFu8)],
        SettingPreset::FuelIgnCut => seq![(CUT_A_OFFSET, 0xFFu8), (CUT_B_OFFSET, 0x00u8)],
        SettingPreset::LaunchOff => seq![(LAUNCH_OFFSET, 0x00u8)],
        SettingPreset::LaunchOn => seq![(LAUNCH_OFFSET, 0x80u8)],
        SettingPreset::LaunchTpsOff => seq![(LAUNCH_TPS_ENABLE_OFFSET, 0x00u8), (LAUNCH_TPS_VALUE_OFFSET, 0x5Fu8)],
        SettingPreset::LaunchTpsOn => seq![(LAUNCH_TPS_ENABLE_OFFSET, 0xFFu8), (LAUNCH_TPS_VALUE_OFFSET, 0x5Eu8)],
        SettingPreset::VtecOn => seq![
            (VTEC_SW_6120_OFFSET, 0x44u8),
            (VTEC_SW_61F2_OFFSET, 0xFFu8),
            (VTEC_SW_6657_OFFSET, 0x52u8),
            (VTEC_SW_6659_OFFSET, 0x37u8),
        ],
        SettingPreset::VtecOff => seq![
            (VTEC_SW_6120_OFFSET, 0x43u8),
            (VTEC_SW_61F2_OFFSET, 0x00u8),
            (VTEC_SW_6657_OFFSET, 0x54u8),
            (VTEC_SW_6659_OFFSET, 0x33u8),
        ],
        SettingPreset::IgnTiming(v) => seq![
            (IGN_TIMING_61D8_OFFSET, v),
            (IGN_TIMING_61E4_OFFSET, v),
            (IGN_TIMING_61E5_OFFSET, v),
        ],
        SettingPreset::VtecRpm(a, b) => seq![(VTEC_VAL_6658_OFFSET, a), (VTEC_VAL_665A_OFFSET, b)],
        SettingPreset::ShiftLightRpm(raw) => seq![
            (SHIFT_LIGHT_RPM_LO_OFFSET, (raw % 256) as u8),
            (SHIFT_LIGHT_RPM_HI_OFFSET, (raw / 256) as u8),
        ],
        SettingPreset::FanTemp(raw) => seq![(FAN_CONTROL_TEMP_OFFSET, raw)],
        SettingPreset::MilBlinks(v) => seq![(BLINK_OFFSET, v)],
    }
}

/// The patches that make up a preset.
pub fn preset_patches(p: SettingPreset) -> (v: Vec<(u16, u8)>)
    ensures
        v@ == preset_patch_seq(p),
{
    match p {
        SettingPreset::IacvOn => vec![(IACV_OFFSET, 0x00u8)],
        SettingPreset::NoIacv => vec![(IACV_OFFSET, 0xFFu8)],
        SettingPreset::ShiftLightOn => vec![(SHIFT_LIGHT_ENABLE_OFFSET, 0xFFu8)],
        SettingPreset::ShiftLightOff => vec![(SHIFT_LIGHT_ENABLE_OFFSET, 0x00u8)],
        SettingPreset::FanControlOn => vec![(FAN_CONTROL_ENABLE_OFFSET, 0xFFu8)],
        SettingPreset::FanControlOff => vec![(FAN_CONTROL_ENABLE_OFFSET, 0x00u8)],
        SettingPreset::FuelCut => vec![(CUT_A_OFFSET, 0x00u8), (CUT_B_OFFSET, 0x00u8)],
        SettingPreset::IgnCut => vec![(CUT_A_OFFSET, 0xFFu8), (CUT_B_OFFSET, 0xFFu8)],
        SettingPreset::FuelIgnCut => vec![(CUT_A_OFFSET, 0xFFu8), (CUT_B_OFFSET, 0x00u8)],
        SettingPreset::LaunchOff => vec![(LAUNCH_OFFSET, 0x00u8)],
        SettingPreset::LaunchOn => vec![(LAUNCH_OFFSET, 0x80u8)],
        SettingPreset::LaunchTpsOff => vec![(LAUNCH_TPS_ENABLE_OFFSET, 0x00u8), (LAUNCH_TPS_VALUE_OFFSET, 0x5Fu8)],
        SettingPreset::LaunchTpsOn => vec![(LAUNCH_TPS_ENABLE_OFFSET, 0xFFu8), (LAUNCH_TPS_VALUE_OFFSET, 0x5Eu8)],
        SettingPreset::VtecOn => vec![
            (VTEC_SW_6120_OFFSET, 0x44u8),
            (VTEC_SW_61F2_OFFSET, 0xFFu8),
            (VTEC_SW_6657_OFFSET, 0x52u8),
            (VTEC_SW_6659_OFFSET, 0x37u8),
        ],
        SettingPreset::VtecOff => vec![
            (VTEC_SW_6120_OFFSET, 0x43u8),
            (VTEC_SW_61F2_OFFSET, 0x00u8),
            (VTEC_SW_6657_OFFSET, 0x54u8),
            (VTEC_SW_6659_OFFSET, 0x33u8),
        ],
        SettingPreset::IgnTiming(v) => vec![
            (IGN_TIMING_61D8_OFFSET, v),
            (IGN_TIMING_61E4_OFFSET, v),
            (IGN_TIMING_61E5_OFFSET, v),
        ],
        SettingPreset::VtecRpm(a, b) => vec![(VTEC_VAL_6658_OFFSET, a), (VTEC_VAL_665A_OFFSET, b)],
        SettingPreset::ShiftLightRpm(raw) => vec![
            (SHIFT_LIGHT_RPM_LO_OFFSET, (raw % 256) as u8),
            (SHIFT_LIGHT_RPM_HI_OFFSET, (raw / 256) as u8),
        ],
        SettingPreset::FanTemp(raw) => vec![(FAN_CONTROL_TEMP_OFFSET, raw)],
        SettingPreset::MilBlinks(v) => vec![(BLINK_OFFSET, v)],
    }
}

/// Whether the settings are in the state a preset sets.
pub open spec fn preset_holds(p: SettingPreset, s: RomSettings) -> bool {
    match p {
        SettingPreset::IacvOn => s.iacv == 0x00,
        SettingPreset::NoIacv => s.iacv == 0xFF,
        SettingPreset::ShiftLightOn => s.shift_light_enable == 0xFF,
        SettingPreset::ShiftLightOff => s.shift_light_enable == 0x00,
        SettingPreset::FanControlOn => s.fan_control_enable == 0xFF,
        SettingPreset::FanControlOff => s.fan_control_enable == 0x00,
        SettingPreset::FuelCut => s.cut_a == 0x00 && s.cut_b == 0x00,
        SettingPreset::IgnCut => s.cut_a == 0xFF && s.cut_b == 0xFF,
        SettingPreset::FuelIgnCut => s.cut_a == 0xFF && s.cut_b == 0x00,
        SettingPreset::LaunchOff => s.launch == 0x00,
        SettingPreset::LaunchOn => s.launch == 0x80,
        SettingPreset::LaunchTpsOff => s.launch_tps_enable == 0x00 && s.launch_tps_value == 0x5F,
        SettingPreset::LaunchTpsOn => s.launch_tps_enable == 0xFF && s.launch_tps_value == 0x5E,
        SettingPreset::VtecOn => s.vtec_sw_6120 == 0x44 && s.vtec_sw_61f2 == 0xFF && s.vtec_sw_6657 == 0x52
            && s.vtec_sw_6659 == 0x37,
        SettingPreset::VtecOff => s.vtec_sw_6120 == 0x43 && s.vtec_sw_61f2 == 0x00 && s.vtec_sw_6657 == 0x54
            && s.vtec_sw_6659 == 0x33,
        SettingPreset::IgnTiming(v) => s.ign_timing_61d8 == v && s.ign_timing_61e4 == v && s.ign_timing_61e5 == v,
        SettingPreset::VtecRpm(a, b) => s.vtec_val_6658 == a && s.vtec_val_665a == b,
        SettingPreset::ShiftLightRpm(raw) => s.shift_light_rpm_raw == raw,
        SettingPreset::FanTemp(raw) => s.fan_control_temp == raw,
        SettingPreset::MilBlinks(v) => s.mil_blinks == v,
    }
}

/// Whether the settings are already in the state a preset sets (the panel
/// highlights such presets).
pub fn is_preset_active(p: SettingPreset, s: &RomSettings) -> (b: bool)
    ensures
        b == preset_holds(p, *s),
{
    match p {
        SettingPreset::IacvOn => s.iacv == 0x00,
        SettingPreset::NoIacv => s.iacv == 0xFF,
        SettingPreset::ShiftLightOn => s.shift_light_enable == 0xFF,
        SettingPreset::ShiftLightOff => s.shift_light_enable == 0x00,
        SettingPreset::FanControlOn => s.fan_control_enable == 0xFF,
        SettingPreset::FanControlOff => s.fan_control_enable == 0x00,
        SettingPreset::FuelCut => s.cut_a == 0x00 && s.cut_b == 0x00,
        SettingPreset::IgnCut => s.cut_a == 0xFF && s.cut_b == 0xFF,
        SettingPreset::FuelIgnCut => s.cut_a == 0xFF && s.cut_b == 0x00,
        SettingPreset::LaunchOff => s.launch == 0x00,
        SettingPreset::LaunchOn => s.launch == 0x80,
        SettingPreset::LaunchTpsOff => s.launch_tps_enable == 0x00 && s.launch_tps_value == 0x5F,
        SettingPreset::LaunchTpsOn => s.launch_tps_enable == 0xFF && s.launch_tps_value == 0x5E,
        SettingPreset::VtecOn => s.vtec_sw_6120 == 0x44 && s.vtec_sw_61f2 == 0xFF && s.vtec_sw_6657 == 0x52
            && s.vtec_sw_6659 == 0x37,
        SettingPreset::VtecOff => s.vtec_sw_6120 == 0x43 && s.vtec_sw_61f2 == 0x00 && s.vtec_sw_6657 == 0x54
            && s.vtec_sw_6659 == 0x33,
        SettingPreset::IgnTiming(v) => s.ign_timing_61d8 == v && s.ign_timing_61e4 == v && s.ign_timing_61e5 == v,
        SettingPreset::VtecRpm(a, b) => s.vtec_val_6658 == a && s.vtec_val_665a == b,
        SettingPreset::ShiftLightRpm(raw) => s.shift_light_rpm_raw == raw,
        SettingPreset::FanTemp(raw) => s.fan_control_temp == raw,
        SettingPreset::MilBlinks(v) => s.mil_blinks == v,
    }
}

/// Highest offset a setting occupies.
pub const SETTINGS_END: u16 = 0x665A;

/// Law: on a ROM that holds every setting, a preset's patches apply, and
/// reading the settings back from the patched ROM shows the preset's state.
pub proof fn preset_read_back(p: SettingPreset, rom: Seq<u8>, prev: RomSettings)
    requires
        rom.len() > SETTINGS_END as nat,
    ensures
        first_out_of_range(rom.len(), preset_patch_seq(p)) is None,
        preset_holds(p, refreshed(prev, apply_patch_seq(rom, preset_patch_seq(p)))),
{
    let ps = preset_patch_seq(p);
    reveal_with_fuel(first_out_of_range, 5);
    reveal_with_fuel(last_patch_value, 5);
    assert(first_out_of_range(rom.len(), ps) is None);
    let r2 = apply_patch_seq(rom, ps);
    patched_byte(rom, ps, BLINK_OFFSET as int);
    patched_byte(rom, ps, IACV_OFFSET as int);
    patched_byte(rom, ps, SHIFT_LIGHT_ENABLE_OFFSET as int);
    patched_byte(rom, ps, SHIFT_LIGHT_RPM_LO_OFFSET as int);
    patched_byte(rom, ps, SHIFT_LIGHT_RPM_HI_OFFSET as int);
    patched_byte(rom, ps, FAN_CONTROL_ENABLE_OFFSET as int);
    patched_byte(rom, ps, FAN_CONTROL_TEMP_OFFSET as int);
    patched_byte(rom, ps, CUT_A_OFFSET as int);
    patched_byte(rom, ps, CUT_B_OFFSET as int);
    patched_byte(rom, ps, IGN_TIMING_61D8_OFFSET as int);
    patched_byte(rom, ps, IGN_TIMING_61E4_OFFSET as int);
    patched_byte(rom, ps, IGN_TIMING_61E5_OFFSET as int);
    patched_byte(rom, ps, LAUNCH_OFFSET as int);
    patched_byte(rom, ps, LAUNCH_TPS_ENABLE_OFFSET as int);
    patched_byte(rom, ps, LAUNCH_TPS_VALUE_OFFSET as int);
    patched_byte(rom, ps, VTEC_SW_6120_OFFSET as int);
    patched_byte(rom, ps, VTEC_SW_61F2_OFFSET as int);
    patched_byte(rom, ps, VTEC_SW_6657_OFFSET as int);
    patched_byte(rom, ps, VTEC_VAL_6658_OFFSET as int);
    patched_byte(rom, ps, VTEC_SW_6659_OFFSET as int);
    patched_byte(rom, ps, VTEC_VAL_665A_OFFSET as int);
    match p {
        SettingPreset::ShiftLightRpm(raw) => {
            assert(le_u16((raw % 256) as u8, (raw / 256) as u8) == raw);
        },
        _ => {},
    }
}

/// Law: settings in the state of a fixed preset are named by that state.
pub proof fn preset_state_name(p: SettingPreset, s: RomSettings)
    requires
        preset_holds(p, s),
    ensures
        p == SettingPreset::IacvOn ==> iacv_state(s.iacv) == "IACV ON"@,
        p == SettingPreset::NoIacv ==> iacv_state(s.iacv) == "IACV OFF (NO IACV)"@,
        p == SettingPreset::ShiftLightOn ==> shift_light_state(s.shift_light_enable) == "SHIFT LIGHT ON"@,
        p == SettingPreset::ShiftLightOff ==> shift_light_state(s.shift_light_enable) == "SHIFT LIGHT OFF"@,
        p == SettingPreset::FanControlOn ==> fan_control_state(s.fan_control_enable) == "FAN CONTROL ON"@,
        p == SettingPreset::FanControlOff ==> fan_control_state(s.fan_control_enable) == "FAN CONTROL OFF"@,
        p == SettingPreset::FuelCut ==> cut_state(s.cut_a, s.cut_b) == "FUEL CUT"@,
        p == SettingPreset::IgnCut ==> cut_state(s.cut_a, s.cut_b) == "IGN CUT"@,
        p == SettingPreset::FuelIgnCut ==> cut_state(s.cut_a, s.cut_b) == "FUEL+IGN CUT"@,
        p == SettingPreset::LaunchOff ==> launch_state(s.launch) == "LAUNCH OFF"@,
        p == SettingPreset::LaunchOn ==> launch_state(s.launch) == "LAUNCH ON"@,
        p == SettingPreset::LaunchTpsOff ==> launch_tps_state(s.launch_tps_enable, s.launch_tps_value)
            == "LAUNCH TPS OFF"@,
        p == SettingPreset::LaunchTpsOn ==> launch_tps_state(s.launch_tps_enable, s.launch_tps_value)
            == "LAUNCH TPS ON"@,
        p == SettingPreset::VtecOn ==> vtec_switch_state(s.vtec_sw_6120, s.vtec_sw_61f2, s.vtec_sw_6657, s.vtec_sw_6659)
            == "VTEC ON"@,
        p == SettingPreset::VtecOff ==> vtec_switch_state(s.vtec_sw_6120, s.vtec_sw_61f2, s.vtec_sw_6657, s.vtec_sw_6659)
            == "VTEC OFF"@,
{
}

/// How a change of the MIL blink count reaches the ECU: the value, the
/// patch that sets it, where the patched ROM is written, and the Ostrich
/// address and value to read back after a persistent write.
pub struct BlinkWrite {
    pub value: u8,
    pub patches: Vec<(u16, u8)>,
    pub target: WriteTarget,
    pub verify: Option<(u16, u8)>,
}

/// The blink count typed as `input` (or `current` when it is not a decimal
/// `u8`), set through the MIL blink patch. With an Ostrich port set the ROM
/// is written to flash at base 0x8000 and the byte at 0xE020 is read back
/// to check it; with none it goes to the live ROM until the next reboot.
pub fn blink_write(input: &str, current: u8, rom_port: &str) -> (w: BlinkWrite)
    ensures
        w.value == (match parse_u8_spec(input@) {
            Some(x) => x,
            None => current,
        }),
        w.patches@ == preset_patch_seq(SettingPreset::MilBlinks(w.value)),
        w.target == (if trimmed(rom_port@).len() == 0 {
            WriteTarget::LiveTemporary
        } else {
            WriteTarget::OstrichPersistent
        }),
        w.verify == (if w.target == WriteTarget::OstrichPersistent {
            Some((0xE020u16, w.value))
        } else {
            None::<(u16, u8)>
        }),
{
    let value = blink_value(input, current);
    let patches = preset_patches(SettingPreset::MilBlinks(value));
    let target = patch_write_target(rom_port);
    let verify = match target {
        WriteTarget::OstrichPersistent => Some((rom_address(BLINK_OFFSET), value)),
        WriteTarget::LiveTemporary => None,
    };
    BlinkWrite { value, patches, target, verify }
}

} // verus!
