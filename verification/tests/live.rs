use onerom_honda::datalog::{
    bit_is_set, calc_gear, poll_due, DATALOG_POLL_INTERVAL_MS, decode_datalog_packet, decode_digital_states, handshake_accepted, ic_quarter_steps,
    DATALOG_HANDSHAKE, DATALOG_HANDSHAKE_REPLY, DATALOG_PACKET_LEN, DATALOG_POLL,
};
use onerom_honda::modes::{
    GraphSensor, LiveTrackingAfrMapMode, LiveTrackingCellMode, RomTableViewMode, TableMetric,
};
use onerom_honda::tables::RomFuelTableKind;
use onerom_honda::tracking::{live_cells, live_kind_from_vtec, TableKinds, TrackingCounters, AFR_TABLE_SIZE};

#[test]
fn handshake_bytes() {
    assert_eq!(DATALOG_HANDSHAKE, 0x10);
    assert_eq!(DATALOG_POLL, 0x20);
    assert!(handshake_accepted(DATALOG_HANDSHAKE_REPLY));
    assert!(handshake_accepted(0xCD));
    assert!(!handshake_accepted(0xCC));
}

#[test]
fn bits_counted_from_least_significant() {
    assert!(bit_is_set(0b1000_0000, 7));
    assert!(!bit_is_set(0b1000_0000, 6));
    assert!(bit_is_set(0b0000_0001, 0));
    assert!(!bit_is_set(0x00, 3));
    for b in 0..8u8 {
        assert!(bit_is_set(0xFF, b));
    }
}

#[test]
fn gear_thresholds() {
    assert_eq!(calc_gear(0, 500), 0);
    assert_eq!(calc_gear(50, 0), 0);
    // num = 50 * 256 * 300 / 65535 = 58
    assert_eq!(calc_gear(50, 300), 1);
    // num = 100 * 256 * 200 / 65535 = 78
    assert_eq!(calc_gear(100, 200), 2);
    // num = 100 * 256 * 300 / 65535 = 117
    assert_eq!(calc_gear(100, 300), 3);
    // num = 100 * 256 * 400 / 65535 = 156
    assert_eq!(calc_gear(100, 400), 4);
    // num = 100 * 256 * 500 / 65535 = 195
    assert_eq!(calc_gear(100, 500), 5);
    assert_eq!(calc_gear(255, 65535), 5);
}

#[test]
fn ignition_correction_steps() {
    assert_eq!(ic_quarter_steps(128), 0);
    assert_eq!(ic_quarter_steps(132), 4);
    assert_eq!(ic_quarter_steps(120), -8);
    assert_eq!(ic_quarter_steps(0), -128);
    assert_eq!(ic_quarter_steps(255), 127);
}

fn sample_packet() -> Vec<u8> {
    let mut p = vec![0u8; DATALOG_PACKET_LEN];
    p[0] = 0x30;
    p[1] = 0x40;
    p[2] = 0x80;
    p[4] = 0x55;
    p[5] = 0x19;
    p[6] = 0x2C;
    p[7] = 0x01;
    p[8] = 0b0001_0100;
    p[16] = 100;
    p[17] = 0xE8;
    p[18] = 0x03;
    p[19] = 0x40;
    p[21] = 0b1000_1001;
    p[22] = 0b1000_0001;
    p[23] = 0b1010_0000;
    p[24] = 0x11;
    p[25] = 0x9B;
    p[36] = 0x84;
    p[38] = 0b1000_0001;
    p[39] = 0b0100_0000;
    p[43] = 0b1000_0001;
    p[49] = 0x00;
    p[50] = 0x80;
    p
}

#[test]
fn packet_fields_decode() {
    let p = sample_packet();
    let d = decode_datalog_packet(&p).unwrap();
    assert_eq!(d.ect_raw, 0x30);
    assert_eq!(d.iat_raw, 0x40);
    assert_eq!(d.wideband_raw, 0x80);
    assert_eq!(d.map_raw, 0x55);
    assert_eq!(d.tps_raw, 0x19);
    assert_eq!(d.rpm_div, 300);
    assert_eq!(d.vss_kmh, 100);
    assert_eq!(d.inj_raw, 1000);
    assert_eq!(d.ign_raw, 0x40);
    assert_eq!(d.eld_raw, 0x11);
    assert_eq!(d.battery_raw, 0x9B);
    assert_eq!(d.gear_ic_raw, 0x84);
    assert_eq!(d.iacv_raw, 0x8000);
    assert_eq!(d.gear, 3);
    assert!(d.digital.vts);
    assert!(d.digital.mil);
    assert!(!d.digital.o2heater);
    assert!(d.digital.park_n);
    assert!(d.digital.vtp);
    assert!(d.digital.psp);
    assert!(!d.digital.bksw);
    assert!(d.digital.fuelcut1);
    assert!(d.digital.igncut);
    assert!(!d.digital.fuelcut2);
    assert!(d.digital.ac);
    assert!(d.digital.fuelpump);
    assert!(d.digital.fan);
    assert!(d.digital.input_ftl);
    assert!(d.digital.input_bst);
    assert!(d.digital.gpo1);
    assert!(d.digital.leanprotect);
    assert_eq!(d.digital, decode_digital_states(&p));
}

#[test]
fn packet_must_have_exact_length() {
    assert!(decode_datalog_packet(&[0u8; 51]).is_none());
    assert!(decode_datalog_packet(&[0u8; 53]).is_none());
    assert!(decode_datalog_packet(&[]).is_none());
    let d = decode_datalog_packet(&[0u8; 52]).unwrap();
    assert_eq!(d.gear, 0);
    assert!(!d.digital.vts);
}

#[test]
fn mode_labels() {
    assert_eq!(LiveTrackingCellMode::Single.label(), "1 CELL");
    assert_eq!(LiveTrackingCellMode::Quad.label(), "4 CELLS");
    assert_eq!(LiveTrackingAfrMapMode::LiveAfr.label(), "LIVE AFR MAP");
    assert_eq!(LiveTrackingAfrMapMode::TargetAfr.label(), "AFR TARGET MAP");
    assert_eq!(LiveTrackingAfrMapMode::DiffPct.label(), "AFR DIFF % MAP");
    assert_eq!(RomTableViewMode::TwoD.label(), "2D");
    assert_eq!(RomTableViewMode::ThreeD.label(), "3D");
    assert_eq!(TableMetric::Afr.label(), "AFR");
    assert_eq!(TableMetric::FuelValue.label(), "FUEL VALUE");
    assert_eq!(TableMetric::InjDuty.label(), "INJ DUTY");
    assert_eq!(TableMetric::Ign.label(), "IGN");
    assert_eq!(TableMetric::FuelValue.unit(), "fv");
    assert_eq!(TableMetric::InjDuty.unit(), "%");
    assert_eq!(TableMetric::Ign.unit(), "deg");
    assert_eq!(TableMetric::Afr.unit(), "");
}

#[test]
fn graph_sensors_in_order_with_units() {
    let all = GraphSensor::all();
    let labels: Vec<&str> = all.iter().map(|s| s.label()).collect();
    assert_eq!(labels, vec!["TPS", "RPM", "AFR", "MAP", "BATT", "INJ", "IGN", "LAMBDA", "BOOST", "VSS"]);
    let units: Vec<&str> = all.iter().map(|s| s.unit()).collect();
    assert_eq!(units, vec!["%", "rpm", "", "mbar", "V", "ms", "deg", "", "psi", "km/h"]);
    assert_eq!(TableMetric::all(), vec![TableMetric::Afr, TableMetric::FuelValue, TableMetric::InjDuty, TableMetric::Ign]);
}

#[test]
fn single_cell_is_held_inside_the_map() {
    let max = AFR_TABLE_SIZE - 1;
    assert_eq!(live_cells(LiveTrackingCellMode::Single, 3, 40, 0, 0, 0, 0, 0, max, max), vec![(3, 15)]);
    assert_eq!(live_cells(LiveTrackingCellMode::Single, 25, 0, 0, 0, 0, 0, 1, 20, 10), vec![(20, 1)]);
}

#[test]
fn quad_cells_are_sorted_and_distinct() {
    let max = AFR_TABLE_SIZE - 1;
    assert_eq!(
        live_cells(LiveTrackingCellMode::Quad, 0, 0, 4, 5, 8, 9, 0, max, max),
        vec![(4, 8), (4, 9), (5, 8), (5, 9)]
    );
    assert_eq!(live_cells(LiveTrackingCellMode::Quad, 0, 0, 3, 4, 7, 7, 0, max, max), vec![(3, 7), (4, 7)]);
    assert_eq!(live_cells(LiveTrackingCellMode::Quad, 0, 0, 6, 6, 2, 3, 0, max, max), vec![(6, 2), (6, 3)]);
    assert_eq!(live_cells(LiveTrackingCellMode::Quad, 0, 0, 15, 16, 15, 16, 0, max, max), vec![(15, 15)]);
    assert_eq!(
        live_cells(LiveTrackingCellMode::Quad, 0, 0, 9, 8, 1, 0, 1, 20, 10),
        vec![(8, 1), (9, 1)]
    );
}

#[test]
fn vtec_selects_high_cam() {
    assert_eq!(live_kind_from_vtec(true), RomFuelTableKind::HighCam);
    assert_eq!(live_kind_from_vtec(false), RomFuelTableKind::LowCam);
    let mut k = TableKinds::new();
    assert_eq!(k.rom_table, RomFuelTableKind::LowCam);
    k.sync_table_kinds_to_vtec(true);
    assert_eq!(k.rom_table, RomFuelTableKind::HighCam);
    assert_eq!(k.rom_ign_table, RomFuelTableKind::HighCam);
    assert_eq!(k.live_tracking, RomFuelTableKind::HighCam);
    assert_eq!(k.live_tracking_afr, RomFuelTableKind::HighCam);
    assert_eq!(k.sensor_table, RomFuelTableKind::HighCam);
    k.sync_table_kinds_to_vtec(false);
    assert_eq!(k.sensor_table, RomFuelTableKind::LowCam);
}

#[test]
fn batches_close_every_third_sample() {
    let mut t = TrackingCounters::new();
    assert_eq!(t.record_cell(RomFuelTableKind::LowCam, 4, 6), None);
    assert_eq!(t.record_cell(RomFuelTableKind::LowCam, 4, 6), None);
    assert_eq!(t.record_cell(RomFuelTableKind::HighCam, 4, 6), None);
    assert_eq!(t.record_cell(RomFuelTableKind::LowCam, 4, 6), Some(3));
    assert_eq!(t.record_cell(RomFuelTableKind::LowCam, 4, 6), None);
    assert_eq!(t.record_cell(RomFuelTableKind::LowCam, 20, 10), None);
    assert_eq!(t.record_cell(RomFuelTableKind::HighCam, 4, 6), None);
    assert_eq!(t.record_cell(RomFuelTableKind::HighCam, 4, 6), Some(3));
    assert_eq!(t.samples(), 0);
    t.record_sample();
    t.record_sample();
    assert_eq!(t.samples(), 2);
}

#[test]
fn polls_every_hundred_milliseconds_while_connected() {
    assert_eq!(DATALOG_POLL_INTERVAL_MS, 100);
    assert!(!poll_due(true, 99));
    assert!(poll_due(true, 100));
    assert!(!poll_due(false, 5000));
}
