use onerom_honda::hexdump::{format_hex_dump, hex_dump_bytes};
use onerom_honda::patch::{
    apply_patches, blink_write, is_preset_active, preset_patches, PatchError, SettingPreset, SETTINGS_END,
};
use onerom_honda::session::WriteTarget;
use onerom_honda::settings::{
    cut_state_label, fan_control_state_label, iacv_state_label, ign_timing_preset_value, launch_state_label,
    launch_tps_state_label, long2bytes, shift_light_state_label, vtec_rpm_preset_values, vtec_switch_state_label,
    RomSettings, BLINK_OFFSET, SHIFT_LIGHT_RPM_HI_OFFSET, SHIFT_LIGHT_RPM_LO_OFFSET,
};
use onerom_honda::tables::{
    apply_rom_fuel_table_zone, apply_rom_ign_table_zone, full_table_zone, normalize_zone, rom_fuel_table_raw,
    rom_ign_table_raw, zone_contains, zone_from_anchor, RomFuelTableKind, TableError, TableZone,
};

fn rom_32k() -> Vec<u8> {
    (0..0x8000usize).map(|i| (i % 251) as u8).collect()
}

#[test]
fn long2bytes_is_little_endian() {
    assert_eq!(long2bytes(0x34, 0x12), 0x1234);
    assert_eq!(long2bytes(0xFF, 0xFF), 0xFFFF);
    assert_eq!(long2bytes(0, 0), 0);
}

#[test]
fn settings_are_read_from_their_offsets() {
    let mut rom = vec![0u8; 0x8000];
    rom[0x6020] = 3;
    rom[0x6116] = 0xFF;
    rom[0x6144] = 0x10;
    rom[0x6145] = 0x27;
    rom[0x6125] = 0xFF;
    rom[0x6126] = 0x00;
    rom[0x6152] = 0x80;
    rom[0x665A] = 0xE0;
    let mut s = RomSettings::new();
    s.refresh_from_rom(&rom);
    assert_eq!(s.mil_blinks, 3);
    assert_eq!(s.iacv, 0xFF);
    assert_eq!(s.shift_light_rpm_raw, 0x2710);
    assert_eq!(s.cut_a, 0xFF);
    assert_eq!(s.cut_b, 0x00);
    assert_eq!(s.launch, 0x80);
    assert_eq!(s.vtec_val_665a, 0xE0);
    assert_eq!(iacv_state_label(s.iacv), "IACV OFF (NO IACV)");
    assert_eq!(cut_state_label(s.cut_a, s.cut_b), "FUEL+IGN CUT");
    assert_eq!(launch_state_label(s.launch), "LAUNCH ON");
}

#[test]
fn short_rom_keeps_settings_beyond_its_end() {
    let mut s = RomSettings::new();
    s.iacv = 0x12;
    s.shift_light_rpm_raw = 0x0BB8;
    let rom = vec![7u8; 0x6100];
    s.refresh_from_rom(&rom);
    assert_eq!(s.mil_blinks, 7);
    assert_eq!(s.iacv, 0x12);
    assert_eq!(s.shift_light_rpm_raw, 0x0BB8);
}

#[test]
fn state_labels() {
    assert_eq!(iacv_state_label(0x00), "IACV ON");
    assert_eq!(iacv_state_label(0x12), "IACV CUSTOM");
    assert_eq!(fan_control_state_label(0xFF), "FAN CONTROL ON");
    assert_eq!(fan_control_state_label(0x00), "FAN CONTROL OFF");
    assert_eq!(fan_control_state_label(0x01), "FAN CONTROL CUSTOM");
    assert_eq!(shift_light_state_label(0xFF), "SHIFT LIGHT ON");
    assert_eq!(shift_light_state_label(0x00), "SHIFT LIGHT OFF");
    assert_eq!(shift_light_state_label(0x80), "SHIFT LIGHT CUSTOM");
    assert_eq!(cut_state_label(0x00, 0x00), "FUEL CUT");
    assert_eq!(cut_state_label(0xFF, 0xFF), "IGN CUT");
    assert_eq!(cut_state_label(0x00, 0xFF), "CUT UNKNOWN (00/FF)");
    assert_eq!(cut_state_label(0x01, 0x02), "CUT CUSTOM");
    assert_eq!(launch_state_label(0x00), "LAUNCH OFF");
    assert_eq!(launch_state_label(0x40), "LAUNCH CUSTOM");
    assert_eq!(launch_tps_state_label(0x00, 0x5F), "LAUNCH TPS OFF");
    assert_eq!(launch_tps_state_label(0xFF, 0x5E), "LAUNCH TPS ON");
    assert_eq!(launch_tps_state_label(0xFF, 0x5F), "LAUNCH TPS CUSTOM");
    assert_eq!(vtec_switch_state_label(0x44, 0xFF, 0x52, 0x37), "VTEC ON");
    assert_eq!(vtec_switch_state_label(0x43, 0x00, 0x54, 0x33), "VTEC OFF");
    assert_eq!(vtec_switch_state_label(0x44, 0x00, 0x52, 0x37), "VTEC CUSTOM");
}

#[test]
fn vtec_and_ign_presets() {
    assert_eq!(vtec_rpm_preset_values(4000), Some((0xC0, 0xC0)));
    assert_eq!(vtec_rpm_preset_values(4500), Some((0xC0, 0xC8)));
    assert_eq!(vtec_rpm_preset_values(5000), Some((0xDB, 0xD0)));
    assert_eq!(vtec_rpm_preset_values(5500), Some((0xD8, 0xD8)));
    assert_eq!(vtec_rpm_preset_values(6000), Some((0xD0, 0xE0)));
    assert_eq!(vtec_rpm_preset_values(6500), None);
    assert_eq!(ign_timing_preset_value(50), Some(0x05));
    assert_eq!(ign_timing_preset_value(70), Some(0x07));
    assert_eq!(ign_timing_preset_value(100), Some(0x0A));
    assert_eq!(ign_timing_preset_value(60), None);
}

#[test]
fn patches_apply_in_order() {
    let mut rom = vec![0u8; 0x20];
    assert_eq!(apply_patches(&mut rom, &[(0x10, 1), (0x11, 2), (0x10, 3)]), Ok(()));
    assert_eq!(rom[0x10], 3);
    assert_eq!(rom[0x11], 2);
    assert_eq!(rom.len(), 0x20);
}

#[test]
fn patch_beyond_rom_writes_nothing() {
    let mut rom = vec![0u8; 0x6100];
    let before = rom.clone();
    assert_eq!(
        apply_patches(&mut rom, &[(BLINK_OFFSET, 5), (0x6116, 1), (0x7000, 2)]),
        Err(PatchError::RomTooSmall { offset: 0x6116 })
    );
    assert_eq!(rom, before);
}

#[test]
fn preset_read_back_vtec_on() {
    let mut rom = rom_32k();
    assert!(rom.len() > SETTINGS_END as usize);
    let p = preset_patches(SettingPreset::VtecOn);
    assert_eq!(p, vec![(0x6120, 0x44), (0x61F2, 0xFF), (0x6657, 0x52), (0x6659, 0x37)]);
    apply_patches(&mut rom, &p).unwrap();
    let mut s = RomSettings::new();
    s.refresh_from_rom(&rom);
    assert!(is_preset_active(SettingPreset::VtecOn, &s));
    assert!(!is_preset_active(SettingPreset::VtecOff, &s));
    assert_eq!(vtec_switch_state_label(s.vtec_sw_6120, s.vtec_sw_61f2, s.vtec_sw_6657, s.vtec_sw_6659), "VTEC ON");
}

#[test]
fn preset_read_back_every_preset() {
    let presets = [
        SettingPreset::IacvOn,
        SettingPreset::NoIacv,
        SettingPreset::ShiftLightOn,
        SettingPreset::ShiftLightOff,
        SettingPreset::FanControlOn,
        SettingPreset::FanControlOff,
        SettingPreset::FuelCut,
        SettingPreset::IgnCut,
        SettingPreset::FuelIgnCut,
        SettingPreset::LaunchOff,
        SettingPreset::LaunchOn,
        SettingPreset::LaunchTpsOff,
        SettingPreset::LaunchTpsOn,
        SettingPreset::VtecOn,
        SettingPreset::VtecOff,
        SettingPreset::IgnTiming(0x07),
        SettingPreset::VtecRpm(0xD8, 0xD8),
        SettingPreset::ShiftLightRpm(0x1234),
        SettingPreset::FanTemp(0x5A),
        SettingPreset::MilBlinks(9),
    ];
    for p in presets {
        let mut rom = rom_32k();
        apply_patches(&mut rom, &preset_patches(p)).unwrap();
        let mut s = RomSettings::new();
        s.refresh_from_rom(&rom);
        assert!(is_preset_active(p, &s), "{:?}", p);
    }
}

#[test]
fn shift_light_rpm_preset_is_little_endian() {
    assert_eq!(
        preset_patches(SettingPreset::ShiftLightRpm(0x1234)),
        vec![(SHIFT_LIGHT_RPM_LO_OFFSET, 0x34), (SHIFT_LIGHT_RPM_HI_OFFSET, 0x12)]
    );
    assert_eq!(preset_patches(SettingPreset::IgnTiming(0x0A)), vec![(0x61D8, 0x0A), (0x61E4, 0x0A), (0x61E5, 0x0A)]);
    assert_eq!(preset_patches(SettingPreset::LaunchTpsOn), vec![(0x6155, 0xFF), (0x6158, 0x5E)]);
}

#[test]
fn table_kinds_labels_and_offsets() {
    assert_eq!(RomFuelTableKind::LowCam.label(), "LOW CAM");
    assert_eq!(RomFuelTableKind::HighCam.label(), "HIGH CAM VTEC");
    assert_eq!(RomFuelTableKind::LowCam.offset(), 0x6EAD);
    assert_eq!(RomFuelTableKind::HighCam.offset(), 0x70A5);
    assert_eq!(RomFuelTableKind::LowCam.ign_offset(), 0x729D);
    assert_eq!(RomFuelTableKind::HighCam.ign_offset(), 0x747D);
}

#[test]
fn fuel_table_cells_follow_row_stride() {
    let rom = rom_32k();
    let t = rom_fuel_table_raw(&rom, RomFuelTableKind::LowCam).unwrap();
    assert_eq!(t.len(), 20);
    for r in 0..20 {
        assert_eq!(t[r].len(), 10);
        for c in 0..10 {
            assert_eq!(t[r][c], rom[0x6EAD + r * 0x18 + c]);
        }
    }
    let ig = rom_ign_table_raw(&rom, RomFuelTableKind::HighCam).unwrap();
    assert_eq!(ig[19][9], rom[0x747D + 19 * 0x18 + 9]);
}

#[test]
fn table_needs_its_last_cell() {
    let last = 0x6EAD + 19 * 0x18 + 9;
    assert!(rom_fuel_table_raw(&vec![0u8; last], RomFuelTableKind::LowCam).is_none());
    assert!(rom_fuel_table_raw(&vec![0u8; last + 1], RomFuelTableKind::LowCam).is_some());
}

#[test]
fn zone_normalization() {
    assert_eq!(normalize_zone(25, 0, 12, 3), TableZone { row_start: 1, row_end: 20, col_start: 3, col_end: 10 });
    assert_eq!(normalize_zone(4, 2, 5, 5), TableZone { row_start: 2, row_end: 4, col_start: 5, col_end: 5 });
    let z = normalize_zone(7, 3, 9, 2);
    assert_eq!(normalize_zone(z.row_start, z.row_end, z.col_start, z.col_end), z);
    assert_eq!(full_table_zone(), TableZone { row_start: 1, row_end: 20, col_start: 1, col_end: 10 });
    let a = zone_from_anchor((5, 7), (2, 9));
    assert_eq!(a, TableZone { row_start: 2, row_end: 5, col_start: 7, col_end: 9 });
    assert!(zone_contains(&a, 2, 7));
    assert!(zone_contains(&a, 5, 9));
    assert!(!zone_contains(&a, 6, 8));
    assert!(!zone_contains(&a, 3, 6));
}

#[test]
fn zone_edit_maps_only_zone_cells() {
    let mut rom = vec![0u8; 0x8000];
    let base = 0x6EAD;
    rom[base + 24 + 3] = 10;
    let mut map: Vec<u8> = (0..256usize).map(|v| v as u8).collect();
    map[0] = 5;
    map[10] = 10;
    let zone = normalize_zone(2, 3, 4, 5);
    let before = rom.clone();
    let changed = apply_rom_fuel_table_zone(&mut rom, RomFuelTableKind::LowCam, zone, &map).unwrap();
    assert_eq!(changed, 3);
    assert_eq!(rom[base + 24 + 3], 10);
    assert_eq!(rom[base + 24 + 4], 5);
    assert_eq!(rom[base + 2 * 24 + 3], 5);
    assert_eq!(rom[base + 2 * 24 + 4], 5);
    for i in 0..rom.len() {
        let inside = i >= base && {
            let row = (i - base) / 24 + 1;
            let col = (i - base) % 24 + 1;
            (2..=3).contains(&row) && (4..=5).contains(&col)
        };
        if !inside {
            assert_eq!(rom[i], before[i], "byte {i:#x}");
        }
    }
}

#[test]
fn zone_edit_refuses_short_rom() {
    let mut rom = vec![1u8; 0x7200];
    let map: Vec<u8> = (0..256usize).map(|v| (255 - v) as u8).collect();
    let r = apply_rom_ign_table_zone(&mut rom, RomFuelTableKind::LowCam, full_table_zone(), &map);
    assert_eq!(r, Err(TableError::RomTooSmall));
    assert!(rom.iter().all(|&b| b == 1));
    let r2 = apply_rom_fuel_table_zone(&mut rom, RomFuelTableKind::LowCam, full_table_zone(), &map);
    assert_eq!(r2, Ok(200));
}

#[test]
fn hex_dump_single_short_line() {
    let s = format_hex_dump(&[0x41, 0x00, 0x7E, 0x20]);
    let expected = format!("0000: 41 00 7E 20 {}|A.~ |\n", "   ".repeat(12));
    assert_eq!(s, expected);
}

#[test]
fn hex_dump_two_lines() {
    let data: Vec<u8> = (0x30..0x41u8).collect();
    let s = format_hex_dump(&data);
    let expected = format!(
        "0000: 30 31 32 33 34 35 36 37 38 39 3A 3B 3C 3D 3E 3F |0123456789:;<=>?|\n0010: 40 {}|@|\n",
        "   ".repeat(15)
    );
    assert_eq!(s, expected);
    assert_eq!(hex_dump_bytes(&data), expected.into_bytes());
}

#[test]
fn hex_dump_of_nothing_is_empty() {
    assert_eq!(format_hex_dump(&[]), "");
}

#[test]
fn hex_dump_offsets_grow_past_four_digits() {
    let data = vec![0xFFu8; 0x10010];
    let s = format_hex_dump(&data);
    let last = s.lines().last().unwrap();
    assert!(last.starts_with("10000: FF "), "{last}");
    assert!(last.ends_with("|................|"));
}

#[test]
fn preset_applied_twice_changes_nothing_more() {
    let mut once = rom_32k();
    let p = preset_patches(SettingPreset::LaunchTpsOn);
    apply_patches(&mut once, &p).unwrap();
    let mut twice = once.clone();
    apply_patches(&mut twice, &p).unwrap();
    assert_eq!(twice, once);
}

#[test]
fn blink_goes_to_flash_with_readback_at_e020() {
    let w = blink_write("7", 3, "/dev/ttyACM0");
    assert_eq!(w.value, 7);
    assert_eq!(w.patches, vec![(0x6020, 7)]);
    assert_eq!(w.target, WriteTarget::OstrichPersistent);
    assert_eq!(w.verify, Some((0xE020, 7)));
}

#[test]
fn blink_without_ostrich_port_goes_live() {
    let w = blink_write("abc", 3, "  ");
    assert_eq!(w.value, 3);
    assert_eq!(w.patches, vec![(0x6020, 3)]);
    assert_eq!(w.target, WriteTarget::LiveTemporary);
    assert_eq!(w.verify, None);
}
