//! Decoding of the datalog packets streamed by the ECU.
//!
//! The host sends [`DATALOG_HANDSHAKE`] and expects [`DATALOG_HANDSHAKE_REPLY`];
//! after that every [`DATALOG_POLL`] is answered with a packet of
//! [`DATALOG_PACKET_LEN`] bytes. This module extracts the raw sensor fields
//! and the digital states of a packet; turning raw fields into physical
//! units is left to the caller.

use vstd::prelude::*;
use crate::settings::{le_u16, long2bytes};

verus! {

/// Byte that opens a datalog session.
pub const DATALOG_HANDSHAKE: u8 = 0x10;
/// Byte the ECU answers the handshake with.
pub const DATALOG_HANDSHAKE_REPLY: u8 = 0xCD;
/// Byte that asks for one packet.
pub const DATALOG_POLL: u8 = 0x20;
/// Length of a packet.
pub const DATALOG_PACKET_LEN: usize = 52;

/// Milliseconds between two datalog polls.
pub const DATALOG_POLL_INTERVAL_MS: u64 = 100;

/// Whether a datalog poll is due: the session is open and at least
/// [`DATALOG_POLL_INTERVAL_MS`] have passed since the last poll.
pub fn poll_due(connected: bool, elapsed_ms: u64) -> (b: bool)
    ensures
        b == (connected && elapsed_ms >= DATALOG_POLL_INTERVAL_MS),
{
    connected && elapsed_ms >= DATALOG_POLL_INTERVAL_MS
}

/// Whether the reply to the handshake opens the session.
pub fn handshake_accepted(reply: u8) -> (b: bool)
    ensures
        b == (reply == DATALOG_HANDSHAKE_REPLY),
{
    reply == DATALOG_HANDSHAKE_REPLY
}

/// Bit `b` (0 = least significant) of `v`.
pub open spec fn bit(v: u8, b: u8) -> bool {
    (v >> b) & 1u8 == 1u8
}

/// Whether bit `bit` (0 to 7, 0 = least significant) of `value` is set.
pub fn bit_is_set(value: u8, bit: u8) -> (r: bool)
    requires
        bit < 8,
    ensures
        r == self::bit(value, bit),
{
    let r = (value & (1u8 << bit)) != 0;
    assert(r == (((value >> bit) & 1u8) == 1u8)) by (bit_vector)
        requires
            bit < 8,
            r == ((value & (1u8 << bit)) != 0),
    ;
    r
}

/// The digital states reported by a packet.
#[derive(Debug, Clone, Copy, PartialEq, Eq)]
pub struct DigitalStates {
    /// Bit 7 of byte 23.
    pub vts: bool,
    /// Bit 3 of byte 21.
    pub vtp: bool,
    /// Bit 6 of byte 21.
    pub vts_feedback: bool,
    /// Bit 0 of byte 21.
    pub park_n: bool,
    /// Bit 1 of byte 21.
    pub bksw: bool,
    /// Bit 2 of byte 21.
    pub acc: bool,
    /// Bit 4 of byte 21.
    pub start: bool,
    /// Bit 5 of byte 21.
    pub scc: bool,
    /// Bit 7 of byte 21.
    pub psp: bool,
    /// Bit 5 of byte 23.
    pub mil: bool,
    /// Bit 6 of byte 39.
    pub fan: bool,
    /// Bit 5 of byte 39.
    pub output_2nd_map: bool,
    /// Bit 0 of byte 39.
    pub flr: bool,
    /// Bit 2 of byte 39.
    pub output_fts: bool,
    /// Bit 4 of byte 8.
    pub fuelcut1: bool,
    /// Bit 5 of byte 8.
    pub fuelcut2: bool,
    /// Bit 2 of byte 8.
    pub igncut: bool,
    /// Bit 1 of byte 8.
    pub scc_checker: bool,
    /// Bit 3 of byte 8.
    pub vtsm: bool,
    /// Bit 0 of byte 8.
    pub post_fuel: bool,
    /// Bit 6 of byte 8.
    pub at_shift1: bool,
    /// Bit 7 of byte 8.
    pub at_shift2: bool,
    /// Bit 7 of byte 43.
    pub leanprotect: bool,
    /// Bit 3 of byte 39.
    pub boostcut: bool,
    /// Bit 7 of byte 39.
    pub bst: bool,
    /// Bit 1 of byte 39.
    pub antilag: bool,
    /// Bit 4 of byte 39.
    pub ebc: bool,
    /// Bit 7 of byte 22.
    pub ac: bool,
    /// Bit 5 of byte 22.
    pub atlctrl: bool,
    /// Bit 6 of byte 23.
    pub o2heater: bool,
    /// Bit 2 of byte 22.
    pub iab: bool,
    /// Bit 6 of byte 22.
    pub purge: bool,
    /// Bit 0 of byte 22.
    pub fuelpump: bool,
    /// Bit 0 of byte 38.
    pub input_ftl: bool,
    /// Bit 1 of byte 38.
    pub input_fts: bool,
    /// Bit 2 of byte 38.
    pub input_ebc: bool,
    /// Bit 3 of byte 38.
    pub input_ebc_hi: bool,
    /// Bit 7 of byte 38.
    pub input_bst: bool,
    /// Bit 4 of byte 38.
    pub input_gpo1: bool,
    /// Bit 5 of byte 38.
    pub input_gpo2: bool,
    /// Bit 6 of byte 38.
    pub input_gpo3: bool,
    /// Bit 0 of byte 43.
    pub gpo1: bool,
    /// Bit 1 of byte 43.
    pub gpo2: bool,
    /// Bit 2 of byte 43.
    pub gpo3: bool,
    /// Bit 3 of byte 43.
    pub bst_stage2: bool,
    /// Bit 4 of byte 43.
    pub bst_stage3: bool,
    /// Bit 5 of byte 43.
    pub bst_stage4: bool,
}

/// The digital states of packet `p`.
pub open spec fn digital_states_spec(p: Seq<u8>) -> DigitalStates {
    DigitalStates {
        vts: bit(p[23], 7u8),
        vtp: bit(p[21], 3u8),
        vts_feedback: bit(p[21], 6u8),
        park_n: bit(p[21], 0u8),
        bksw: bit(p[21], 1u8),
        acc: bit(p[21], 2u8),
        start: bit(p[21], 4u8),
        scc: bit(p[21], 5u8),
        psp: bit(p[21], 7u8),
        mil: bit(p[23], 5u8),
        fan: bit(p[39], 6u8),
        output_2nd_map: bit(p[39], 5u8),
        flr: bit(p[39], 0u8),
        output_fts: bit(p[39], 2u8),
        fuelcut1: bit(p[8], 4u8),
        fuelcut2: bit(p[8], 5u8),
        igncut: bit(p[8], 2u8),
        scc_checker: bit(p[8], 1u8),
        vtsm: bit(p[8], 3u8),
        post_fuel: bit(p[8], 0u8),
        at_shift1: bit(p[8], 6u8),
        at_shift2: bit(p[8], 7u8),
        leanprotect: bit(p[43], 7u8),
        boostcut: bit(p[39], 3u8),
        bst: bit(p[39], 7u8),
        antilag: bit(p[39], 1u8),
        ebc: bit(p[39], 4u8),
        ac: bit(p[22], 7u8),
        atlctrl: bit(p[22], 5u8),
        o2heater: bit(p[23], 6u8),
        iab: bit(p[22], 2u8),
        purge: bit(p[22], 6u8),
        fuelpump: bit(p[22], 0u8),
        input_ftl: bit(p[38], 0u8),
        input_fts: bit(p[38], 1u8),
        input_ebc: bit(p[38], 2u8),
        input_ebc_hi: bit(p[38], 3u8),
        input_bst: bit(p[38], 7u8),
        input_gpo1: bit(p[38], 4u8),
        input_gpo2: bit(p[38], 5u8),
        input_gpo3: bit(p[38], 6u8),
        gpo1: bit(p[43], 0u8),
        gpo2: bit(p[43], 1u8),
        gpo3: bit(p[43], 2u8),
        bst_stage2: bit(p[43], 3u8),
        bst_stage3: bit(p[43], 4u8),
        bst_stage4: bit(p[43], 5u8),
    }
}

/// Reads the digital states of a packet.
pub fn decode_digital_states(packet: &[u8]) -> (d: DigitalStates)
    requires
        packet@.len() == DATALOG_PACKET_LEN,
    ensures
        d == digital_states_spec(packet@),
{
    DigitalStates {
        vts: bit_is_set(packet[23], 7),
        vtp: bit_is_set(packet[21], 3),
        vts_feedback: bit_is_set(packet[21], 6),
        park_n: bit_is_set(packet[21], 0),
        bksw: bit_is_set(packet[21], 1),
        acc: bit_is_set(packet[21], 2),
        start: bit_is_set(packet[21], 4),
        scc: bit_is_set(packet[21], 5),
        psp: bit_is_set(packet[21], 7),
        mil: bit_is_set(packet[23], 5),
        fan: bit_is_set(packet[39], 6),
        output_2nd_map: bit_is_set(packet[39], 5),
        flr: bit_is_set(packet[39], 0),
        output_fts: bit_is_set(packet[39], 2),
        fuelcut1: bit_is_set(packet[8], 4),
        fuelcut2: bit_is_set(packet[8], 5),
        igncut: bit_is_set(packet[8], 2),
        scc_checker: bit_is_set(packet[8], 1),
        vtsm: bit_is_set(packet[8], 3),
        post_fuel: bit_is_set(packet[8], 0),
        at_shift1: bit_is_set(packet[8], 6),
        at_shift2: bit_is_set(packet[8], 7),
        leanprotect: bit_is_set(packet[43], 7),
        boostcut: bit_is_set(packet[39], 3),
        bst: bit_is_set(packet[39], 7),
        antilag: bit_is_set(packet[39], 1),
        ebc: bit_is_set(packet[39], 4),
        ac: bit_is_set(packet[22], 7),
        atlctrl: bit_is_set(packet[22], 5),
        o2heater: bit_is_set(packet[23], 6),
        iab: bit_is_set(packet[22], 2),
        purge: bit_is_set(packet[22], 6),
        fuelpump: bit_is_set(packet[22], 0),
        input_ftl: bit_is_set(packet[38], 0),
        input_fts: bit_is_set(packet[38], 1),
        input_ebc: bit_is_set(packet[38], 2),
        input_ebc_hi: bit_is_set(packet[38], 3),
        input_bst: bit_is_set(packet[38], 7),
        input_gpo1: bit_is_set(packet[38], 4),
        input_gpo2: bit_is_set(packet[38], 5),
        input_gpo3: bit_is_set(packet[38], 6),
        gpo1: bit_is_set(packet[43], 0),
        gpo2: bit_is_set(packet[43], 1),
        gpo3: bit_is_set(packet[43], 2),
        bst_stage2: bit_is_set(packet[43], 3),
        bst_stage3: bit_is_set(packet[43], 4),
        bst_stage4: bit_is_set(packet[43], 5),
    }
}


/// Gear estimated from road speed (km/h) and the RPM divider.
pub open spec fn gear_spec(vss_kmh: u8, rpm_div_raw: u16) -> u8 {
    if vss_kmh == 0 || rpm_div_raw == 0 {
        0
    } else {
        let num = (vss_kmh as nat * 256 * rpm_div_raw as nat) / 65535;
        if num < 70 {
            1
        } else if num < 103 {
            2
        } else if num < 142 {
            3
        } else if num < 184 {
            4
        } else {
            5
        }
    }
}

/// Estimates the engaged gear (1 to 5) from road speed and the RPM divider
/// of a packet; 0 when the car stands still or the engine does not turn
/// (a zero divider).
pub fn calc_gear(vss_kmh: u8, rpm_div_raw: u16) -> (g: u8)
    ensures
        g == gear_spec(vss_kmh, rpm_div_raw),
        g <= 5,
{
    if vss_kmh == 0 || rpm_div_raw == 0 {
        return 0;
    }
    proof {
        assert(vss_kmh as nat * 256 * rpm_div_raw as nat <= 255 * 256 * 65535) by (nonlinear_arith)
            requires
                vss_kmh <= 255,
                rpm_div_raw <= 65535,
        ;
    }
    let num = ((vss_kmh as u32) * 256 * (rpm_div_raw as u32)) / 65535;
    if num < 70 {
        1
    } else if num < 103 {
        2
    } else if num < 142 {
        3
    } else if num < 184 {
        4
    } else {
        5
    }
}

/// Law: the gear is 0 exactly when the car stands still or the engine does
/// not turn, and otherwise between 1 and 5; at a given engine speed a higher
/// road speed never gives a lower gear, and at a given road speed a higher
/// RPM divider (a lower RPM) never gives a lower gear.
pub proof fn gear_law(vss: u8, div: u16, vss2: u8, div2: u16)
    ensures
        gear_spec(vss, div) == 0 <==> (vss == 0 || div == 0),
        gear_spec(vss, div) <= 5,
        vss != 0 && div != 0 ==> 1 <= gear_spec(vss, div),
        vss != 0 && div != 0 && vss <= vss2 ==> gear_spec(vss, div) <= gear_spec(vss2, div),
        vss != 0 && div != 0 && div <= div2 ==> gear_spec(vss, div) <= gear_spec(vss, div2),
{
    let n1 = (vss as nat * 256 * div as nat) / 65535;
    let n2 = (vss2 as nat * 256 * div as nat) / 65535;
    let n3 = (vss as nat * 256 * div2 as nat) / 65535;
    assert(vss <= vss2 ==> n1 <= n2) by (nonlinear_arith)
        requires
            n1 == (vss as nat * 256 * div as nat) / 65535,
            n2 == (vss2 as nat * 256 * div as nat) / 65535,
    ;
    assert(div <= div2 ==> n1 <= n3) by (nonlinear_arith)
        requires
            n1 == (vss as nat * 256 * div as nat) / 65535,
            n3 == (vss as nat * 256 * div2 as nat) / 65535,
    ;
}

/// An ignition correction byte as a signed count of quarter degrees:
/// 128 is no correction.
pub fn ic_quarter_steps(value: u8) -> (q: i16)
    ensures
        q == value as int - 128,
{
    value as i16 - 128
}

/// The raw fields of a datalog packet.
#[derive(Debug, Clone, Copy, PartialEq, Eq)]
pub struct DatalogRaw {
    /// Coolant temperature sensor, byte 0.
    pub ect_raw: u8,
    /// Intake air temperature sensor, byte 1.
    pub iat_raw: u8,
    /// Wideband lambda sensor, byte 2.
    pub wideband_raw: u8,
    /// Manifold pressure sensor, byte 4.
    pub map_raw: u8,
    /// Throttle position sensor, byte 5.
    pub tps_raw: u8,
    /// RPM divider, bytes 6 (low) and 7 (high).
    pub rpm_div: u16,
    /// Road speed in km/h, byte 16.
    pub vss_kmh: u8,
    /// Injector duration, bytes 17 (low) and 18 (high).
    pub inj_raw: u16,
    /// Ignition advance, byte 19.
    pub ign_raw: u8,
    /// Electrical load detector, byte 24.
    pub eld_raw: u8,
    /// Battery voltage, byte 25.
    pub battery_raw: u8,
    /// Coolant fuel correction, byte 26.
    pub ect_fc_raw: u8,
    /// Short-term O2 fuel correction, bytes 27 and 28.
    pub o2_short_fc_raw: u16,
    /// Long-term O2 fuel correction, bytes 29 and 30.
    pub o2_long_fc_raw: u16,
    /// Intake air fuel correction, bytes 31 and 32.
    pub iat_fc_raw: u16,
    /// Volumetric efficiency fuel correction, byte 33.
    pub ve_fc_raw: u8,
    /// Intake air ignition correction, byte 34.
    pub iat_ic_raw: u8,
    /// Coolant ignition correction, byte 35.
    pub ect_ic_raw: u8,
    /// Gear ignition correction, byte 36.
    pub gear_ic_raw: u8,
    /// Boost controller base duty, byte 40.
    pub ebc_base_raw: u8,
    /// Boost controller duty, byte 41.
    pub ebc_raw: u8,
    /// Idle air control valve duty, bytes 49 and 50.
    pub iacv_raw: u16,
    /// Estimated gear, from bytes 16, 6 and 7.
    pub gear: u8,
    /// Digital states.
    pub digital: DigitalStates,
}

/// The raw fields of packet `p`.
pub open spec fn datalog_raw_spec(p: Seq<u8>) -> DatalogRaw {
    DatalogRaw {
        ect_raw: p[0],
        iat_raw: p[1],
        wideband_raw: p[2],
        map_raw: p[4],
        tps_raw: p[5],
        rpm_div: le_u16(p[6], p[7]),
        vss_kmh: p[16],
        inj_raw: le_u16(p[17], p[18]),
        ign_raw: p[19],
        eld_raw: p[24],
        battery_raw: p[25],
        ect_fc_raw: p[26],
        o2_short_fc_raw: le_u16(p[27], p[28]),
        o2_long_fc_raw: le_u16(p[29], p[30]),
        iat_fc_raw: le_u16(p[31], p[32]),
        ve_fc_raw: p[33],
        iat_ic_raw: p[34],
        ect_ic_raw: p[35],
        gear_ic_raw: p[36],
        ebc_base_raw: p[40],
        ebc_raw: p[41],
        iacv_raw: le_u16(p[49], p[50]),
        gear: gear_spec(p[16], le_u16(p[6], p[7])),
        digital: digital_states_spec(p),
    }
}

/// Law: each digital state is the bit documented for it: bit `b` (0 = least
/// significant) of packet byte `k`, read as set when it is 1.
pub proof fn digital_states_at_bits(p: Seq<u8>)
    requires
        p.len() == DATALOG_PACKET_LEN,
    ensures
        digital_states_spec(p).vts == ((p[23] >> 7u8) & 1u8 == 1u8),
        digital_states_spec(p).vtp == ((p[21] >> 3u8) & 1u8 == 1u8),
        digital_states_spec(p).vts_feedback == ((p[21] >> 6u8) & 1u8 == 1u8),
        digital_states_spec(p).park_n == ((p[21] >> 0u8) & 1u8 == 1u8),
        digital_states_spec(p).bksw == ((p[21] >> 1u8) & 1u8 == 1u8),
        digital_states_spec(p).acc == ((p[21] >> 2u8) & 1u8 == 1u8),
        digital_states_spec(p).start == ((p[21] >> 4u8) & 1u8 == 1u8),
        digital_states_spec(p).scc == ((p[21] >> 5u8) & 1u8 == 1u8),
        digital_states_spec(p).psp == ((p[21] >> 7u8) & 1u8 == 1u8),
        digital_states_spec(p).mil == ((p[23] >> 5u8) & 1u8 == 1u8),
        digital_states_spec(p).fan == ((p[39] >> 6u8) & 1u8 == 1u8),
        digital_states_spec(p).output_2nd_map == ((p[39] >> 5u8) & 1u8 == 1u8),
        digital_states_spec(p).flr == ((p[39] >> 0u8) & 1u8 == 1u8),
        digital_states_spec(p).output_fts == ((p[39] >> 2u8) & 1u8 == 1u8),
        digital_states_spec(p).fuelcut1 == ((p[8] >> 4u8) & 1u8 == 1u8),
        digital_states_spec(p).fuelcut2 == ((p[8] >> 5u8) & 1u8 == 1u8),
        digital_states_spec(p).igncut == ((p[8] >> 2u8) & 1u8 == 1u8),
        digital_states_spec(p).scc_checker == ((p[8] >> 1u8) & 1u8 == 1u8),
        digital_states_spec(p).vtsm == ((p[8] >> 3u8) & 1u8 == 1u8),
        digital_states_spec(p).post_fuel == ((p[8] >> 0u8) & 1u8 == 1u8),
        digital_states_spec(p).at_shift1 == ((p[8] >> 6u8) & 1u8 == 1u8),
        digital_states_spec(p).at_shift2 == ((p[8] >> 7u8) & 1u8 == 1u8),
        digital_states_spec(p).leanprotect == ((p[43] >> 7u8) & 1u8 == 1u8),
        digital_states_spec(p).boostcut == ((p[39] >> 3u8) & 1u8 == 1u8),
        digital_states_spec(p).bst == ((p[39] >> 7u8) & 1u8 == 1u8),
        digital_states_spec(p).antilag == ((p[39] >> 1u8) & 1u8 == 1u8),
        digital_states_spec(p).ebc == ((p[39] >> 4u8) & 1u8 == 1u8),
        digital_states_spec(p).ac == ((p[22] >> 7u8) & 1u8 == 1u8),
        digital_states_spec(p).atlctrl == ((p[22] >> 5u8) & 1u8 == 1u8),
        digital_states_spec(p).o2heater == ((p[23] >> 6u8) & 1u8 == 1u8),
        digital_states_spec(p).iab == ((p[22] >> 2u8) & 1u8 == 1u8),
        digital_states_spec(p).purge == ((p[22] >> 6u8) & 1u8 == 1u8),
        digital_states_spec(p).fuelpump == ((p[22] >> 0u8) & 1u8 == 1u8),
        digital_states_spec(p).input_ftl == ((p[38] >> 0u8) & 1u8 == 1u8),
        digital_states_spec(p).input_fts == ((p[38] >> 1u8) & 1u8 == 1u8),
        digital_states_spec(p).input_ebc == ((p[38] >> 2u8) & 1u8 == 1u8),
        digital_states_spec(p).input_ebc_hi == ((p[38] >> 3u8) & 1u8 == 1u8),
        digital_states_spec(p).input_bst == ((p[38] >> 7u8) & 1u8 == 1u8),
        digital_states_spec(p).input_gpo1 == ((p[38] >> 4u8) & 1u8 == 1u8),
        digital_states_spec(p).input_gpo2 == ((p[38] >> 5u8) & 1u8 == 1u8),
        digital_states_spec(p).input_gpo3 == ((p[38] >> 6u8) & 1u8 == 1u8),
        digital_states_spec(p).gpo1 == ((p[43] >> 0u8) & 1u8 == 1u8),
        digital_states_spec(p).gpo2 == ((p[43] >> 1u8) & 1u8 == 1u8),
        digital_states_spec(p).gpo3 == ((p[43] >> 2u8) & 1u8 == 1u8),
        digital_states_spec(p).bst_stage2 == ((p[43] >> 3u8) & 1u8 == 1u8),
        digital_states_spec(p).bst_stage3 == ((p[43] >> 4u8) & 1u8 == 1u8),
        digital_states_spec(p).bst_stage4 == ((p[43] >> 5u8) & 1u8 == 1u8),
{
}

/// Law: each raw field of a packet is the packet byte documented for it, or
/// the little-endian value of the two bytes documented for it (low byte
/// first).
pub proof fn datalog_fields_at_offsets(p: Seq<u8>)
    requires
        p.len() == DATALOG_PACKET_LEN,
    ensures
        datalog_raw_spec(p).ect_raw == p[0],
        datalog_raw_spec(p).iat_raw == p[1],
        datalog_raw_spec(p).wideband_raw == p[2],
        datalog_raw_spec(p).map_raw == p[4],
        datalog_raw_spec(p).tps_raw == p[5],
        datalog_raw_spec(p).rpm_div as int == p[6] as int + 256 * p[7] as int,
        datalog_raw_spec(p).vss_kmh == p[16],
        datalog_raw_spec(p).inj_raw as int == p[17] as int + 256 * p[18] as int,
        datalog_raw_spec(p).ign_raw == p[19],
        datalog_raw_spec(p).eld_raw == p[24],
        datalog_raw_spec(p).battery_raw == p[25],
        datalog_raw_spec(p).ect_fc_raw == p[26],
        datalog_raw_spec(p).o2_short_fc_raw as int == p[27] as int + 256 * p[28] as int,
        datalog_raw_spec(p).o2_long_fc_raw as int == p[29] as int + 256 * p[30] as int,
        datalog_raw_spec(p).iat_fc_raw as int == p[31] as int + 256 * p[32] as int,
        datalog_raw_spec(p).ve_fc_raw == p[33],
        datalog_raw_spec(p).iat_ic_raw == p[34],
        datalog_raw_spec(p).ect_ic_raw == p[35],
        datalog_raw_spec(p).gear_ic_raw == p[36],
        datalog_raw_spec(p).ebc_base_raw == p[40],
        datalog_raw_spec(p).ebc_raw == p[41],
        datalog_raw_spec(p).iacv_raw as int == p[49] as int + 256 * p[50] as int,
{
}

/// Decodes a datalog packet; `None` unless it has exactly
/// [`DATALOG_PACKET_LEN`] bytes.
pub fn decode_datalog_packet(packet: &[u8]) -> (r: Option<DatalogRaw>)
    ensures
        r is Some <==> packet@.len() == DATALOG_PACKET_LEN,
        r matches Some(d) ==> d == datalog_raw_spec(packet@),
        r matches Some(d) ==> d.ect_raw == packet@[0],
        r matches Some(d) ==> d.iat_raw == packet@[1],
        r matches Some(d) ==> d.wideband_raw == packet@[2],
        r matches Some(d) ==> d.map_raw == packet@[4],
        r matches Some(d) ==> d.tps_raw == packet@[5],
        r matches Some(d) ==> d.rpm_div as int == packet@[6] as int + 256 * packet@[7] as int,
        r matches Some(d) ==> d.vss_kmh == packet@[16],
        r matches Some(d) ==> d.inj_raw as int == packet@[17] as int + 256 * packet@[18] as int,
        r matches Some(d) ==> d.ign_raw == packet@[19],
        r matches Some(d) ==> d.eld_raw == packet@[24],
        r matches Some(d) ==> d.battery_raw == packet@[25],
        r matches Some(d) ==> d.ect_fc_raw == packet@[26],
        r matches Some(d) ==> d.o2_short_fc_raw as int == packet@[27] as int + 256 * packet@[28] as int,
        r matches Some(d) ==> d.o2_long_fc_raw as int == packet@[29] as int + 256 * packet@[30] as int,
        r matches Some(d) ==> d.iat_fc_raw as int == packet@[31] as int + 256 * packet@[32] as int,
        r matches Some(d) ==> d.ve_fc_raw == packet@[33],
        r matches Some(d) ==> d.iat_ic_raw == packet@[34],
        r matches Some(d) ==> d.ect_ic_raw == packet@[35],
        r matches Some(d) ==> d.gear_ic_raw == packet@[36],
        r matches Some(d) ==> d.ebc_base_raw == packet@[40],
        r matches Some(d) ==> d.ebc_raw == packet@[41],
        r matches Some(d) ==> d.iacv_raw as int == packet@[49] as int + 256 * packet@[50] as int,
{
    if packet.len() != DATALOG_PACKET_LEN {
        return None;
    }
    let rpm_div = long2bytes(packet[6], packet[7]);
    Some(DatalogRaw {
        ect_raw: packet[0],
        iat_raw: packet[1],
        wideband_raw: packet[2],
        map_raw: packet[4],
        tps_raw: packet[5],
        rpm_div,
        vss_kmh: packet[16],
        inj_raw: long2bytes(packet[17], packet[18]),
        ign_raw: packet[19],
        eld_raw: packet[24],
        battery_raw: packet[25],
        ect_fc_raw: packet[26],
        o2_short_fc_raw: long2bytes(packet[27], packet[28]),
        o2_long_fc_raw: long2bytes(packet[29], packet[30]),
        iat_fc_raw: long2bytes(packet[31], packet[32]),
        ve_fc_raw: packet[33],
        iat_ic_raw: packet[34],
        ect_ic_raw: packet[35],
        gear_ic_raw: packet[36],
        ebc_base_raw: packet[40],
        ebc_raw: packet[41],
        iacv_raw: long2bytes(packet[49], packet[50]),
        gear: calc_gear(packet[16], rpm_div),
        digital: decode_digital_states(packet),
    })
}

} // verus!
