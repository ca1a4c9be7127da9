//! Geometry of the fuel and ignition maps stored in the ROM image, the
//! rectangular zones selected on them, and zone edits of their raw bytes.

use vstd::prelude::*;
use vstd::arithmetic::div_mod::{lemma_fundamental_div_mod, lemma_fundamental_div_mod_converse};

verus! {

/// Rows of a ROM map.
pub const ROM_FUEL_TABLE_ROWS: usize = 20;
/// Columns of a ROM map.
pub const ROM_FUEL_TABLE_COLS: usize = 10;
/// Distance in bytes between the starts of two rows.
pub const ROM_FUEL_TABLE_ROW_STRIDE: usize = 0x18;
/// Low cam fuel map.
pub const LOW_CAM_FUEL_TABLE_OFFSET: usize = 0x6EAD;
/// High cam fuel map.
pub const HIGH_CAM_FUEL_TABLE_OFFSET: usize = 0x70A5;
/// Low cam ignition map.
pub const LOW_CAM_IGN_TABLE_OFFSET: usize = 0x729D;
/// High cam ignition map.
pub const HIGH_CAM_IGN_TABLE_OFFSET: usize = 0x747D;

/// Which cam profile's maps are meant.
#[derive(Debug, Clone, Copy, PartialEq, Eq, Structural)]
pub enum RomFuelTableKind {
    LowCam,
    HighCam,
}

/// Offset of the fuel map of a cam profile.
pub open spec fn fuel_base(kind: RomFuelTableKind) -> usize {
    match kind {
        RomFuelTableKind::LowCam => LOW_CAM_FUEL_TABLE_OFFSET,
        RomFuelTableKind::HighCam => HIGH_CAM_FUEL_TABLE_OFFSET,
    }
}

/// Offset of the ignition map of a cam profile.
pub open spec fn ign_base(kind: RomFuelTableKind) -> usize {
    match kind {
        RomFuelTableKind::LowCam => LOW_CAM_IGN_TABLE_OFFSET,
        RomFuelTableKind::HighCam => HIGH_CAM_IGN_TABLE_OFFSET,
    }
}

/// Display name of a cam profile.
pub open spec fn kind_label(kind: RomFuelTableKind) -> Seq<char> {
    match kind {
        RomFuelTableKind::LowCam => "LOW CAM"@,
        RomFuelTableKind::HighCam => "HIGH CAM VTEC"@,
    }
}

impl RomFuelTableKind {
    /// Display name of the cam profile.
    pub fn label(self) -> (s: &'static str)
        ensures
            s@ == kind_label(self),
    {
        match self {
            RomFuelTableKind::LowCam => "LOW CAM",
            RomFuelTableKind::HighCam => "HIGH CAM VTEC",
        }
    }

    /// Offset of the cam profile's fuel map in the ROM image.
    pub fn offset(self) -> (o: usize)
        ensures
            o == fuel_base(self),
    {
        match self {
            RomFuelTableKind::LowCam => LOW_CAM_FUEL_TABLE_OFFSET,
            RomFuelTableKind::HighCam => HIGH_CAM_FUEL_TABLE_OFFSET,
        }
    }

    /// Offset of the cam profile's ignition map in the ROM image.
    pub fn ign_offset(self) -> (o: usize)
        ensures
            o == ign_base(self),
    {
        match self {
            RomFuelTableKind::LowCam => LOW_CAM_IGN_TABLE_OFFSET,
            RomFuelTableKind::HighCam => HIGH_CAM_IGN_TABLE_OFFSET,
        }
    }
}

/// Offset of the cell in 0-based `row` and `col` of the map at `base`.
pub open spec fn cell_index(base: nat, row: nat, col: nat) -> nat {
    base + row * 24 + col
}

/// Offset of the last cell of the map at `base`.
pub open spec fn last_cell_index(base: nat) -> nat {
    base + 19 * 24 + 9
}

/// The raw bytes of the map at `base`, row by row.
pub open spec fn table_raw_spec(rom: Seq<u8>, base: nat) -> Seq<Seq<u8>> {
    Seq::new(20, |r: int| Seq::new(10, |c: int| rom[cell_index(base, r as nat, c as nat) as int]))
}

/// The raw bytes of the 20 x 10 map at `base`, or `None` when the ROM
/// image ends at or before its last cell.
pub fn table_raw(rom: &[u8], base: usize) -> (t: Option<Vec<Vec<u8>>>)
    requires
        base <= 0x1_0000,
    ensures
        t is None <==> rom@.len() <= last_cell_index(base as nat),
        t matches Some(v) ==> v@.len() == 20 && (forall|r: int| 0 <= r < 20 ==> (#[trigger] v@[r])@
            == table_raw_spec(rom@, base as nat)[r]),
{
    let last = base + 19 * ROM_FUEL_TABLE_ROW_STRIDE + (ROM_FUEL_TABLE_COLS - 1);
    if rom.len() <= last {
        return None;
    }
    let mut out: Vec<Vec<u8>> = Vec::new();
    let mut r: usize = 0;
    while r < ROM_FUEL_TABLE_ROWS
        invariant
            r <= 20,
            base <= 0x1_0000,
            rom@.len() > last_cell_index(base as nat),
            out@.len() == r,
            forall|i: int| 0 <= i < r ==> (#[trigger] out@[i])@ == table_raw_spec(rom@, base as nat)[i],
        decreases 20 - r,
    {
        let mut row: Vec<u8> = Vec::new();
        let mut c: usize = 0;
        while c < ROM_FUEL_TABLE_COLS
            invariant
                c <= 10,
                r < 20,
                base <= 0x1_0000,
                rom@.len() > last_cell_index(base as nat),
                row@.len() == c,
                forall|j: int| 0 <= j < c ==> #[trigger] row@[j] == rom@[cell_index(base as nat, r as nat, j as nat) as int],
            decreases 10 - c,
        {
            row.push(rom[base + r * ROM_FUEL_TABLE_ROW_STRIDE + c]);
            c = c + 1;
        }
        proof {
            assert(row@ =~= table_raw_spec(rom@, base as nat)[r as int]);
        }
        out.push(row);
        r = r + 1;
    }
    Some(out)
}

/// The raw bytes of a cam profile's fuel map, or `None` when the ROM image
/// is too short to hold it.
pub fn rom_fuel_table_raw(rom: &[u8], kind: RomFuelTableKind) -> (t: Option<Vec<Vec<u8>>>)
    ensures
        t is None <==> rom@.len() <= last_cell_index(fuel_base(kind) as nat),
        t matches Some(v) ==> v@.len() == 20 && (forall|r: int| 0 <= r < 20 ==> (#[trigger] v@[r])@
            == table_raw_spec(rom@, fuel_base(kind) as nat)[r]),
{
    table_raw(rom, kind.offset())
}

/// The raw bytes of a cam profile's ignition map, or `None` when the ROM
/// image is too short to hold it.
pub fn rom_ign_table_raw(rom: &[u8], kind: RomFuelTableKind) -> (t: Option<Vec<Vec<u8>>>)
    ensures
        t is None <==> rom@.len() <= last_cell_index(ign_base(kind) as nat),
        t matches Some(v) ==> v@.len() == 20 && (forall|r: int| 0 <= r < 20 ==> (#[trigger] v@[r])@
            == table_raw_spec(rom@, ign_base(kind) as nat)[r]),
{
    table_raw(rom, kind.ign_offset())
}


/// A rectangular zone of a ROM map: 1-based, inclusive rows and columns.
#[derive(Debug, Clone, Copy, PartialEq, Eq, Structural)]
pub struct TableZone {
    pub row_start: usize,
    pub row_end: usize,
    pub col_start: usize,
    pub col_end: usize,
}

/// `v` held within `lo..=hi`.
pub open spec fn clamp_nat(v: nat, lo: nat, hi: nat) -> nat {
    if v < lo {
        lo
    } else if v > hi {
        hi
    } else {
        v
    }
}

/// The smaller of two numbers.
pub open spec fn min_nat(a: nat, b: nat) -> nat {
    if a <= b {
        a
    } else {
        b
    }
}

/// The larger of two numbers.
pub open spec fn max_nat(a: nat, b: nat) -> nat {
    if a >= b {
        a
    } else {
        b
    }
}

/// A zone lies inside the 20 x 10 map with its starts before its ends.
pub open spec fn zone_wf(z: TableZone) -> bool {
    &&& 1 <= z.row_start <= z.row_end <= 20
    &&& 1 <= z.col_start <= z.col_end <= 10
}

/// The zone spanned by two row bounds and two column bounds given in any
/// order: each bound is first held inside the map, then the smaller becomes
/// the start.
pub open spec fn normalized_zone(rs: nat, re: nat, cs: nat, ce: nat) -> TableZone {
    TableZone {
        row_start: min_nat(clamp_nat(rs, 1, 20), clamp_nat(re, 1, 20)) as usize,
        row_end: max_nat(clamp_nat(rs, 1, 20), clamp_nat(re, 1, 20)) as usize,
        col_start: min_nat(clamp_nat(cs, 1, 10), clamp_nat(ce, 1, 10)) as usize,
        col_end: max_nat(clamp_nat(cs, 1, 10), clamp_nat(ce, 1, 10)) as usize,
    }
}

fn clamp_usize(v: usize, lo: usize, hi: usize) -> (r: usize)
    requires
        lo <= hi,
    ensures
        r == clamp_nat(v as nat, lo as nat, hi as nat),
{
    if v < lo {
        lo
    } else if v > hi {
        hi
    } else {
        v
    }
}

/// The zone selected by row bounds `row_start_1`, `row_end_1` and column
/// bounds `col_start_1`, `col_end_1` (1-based, in any order, possibly
/// outside the map).
pub fn normalize_zone(row_start_1: usize, row_end_1: usize, col_start_1: usize, col_end_1: usize) -> (z: TableZone)
    ensures
        z == normalized_zone(row_start_1 as nat, row_end_1 as nat, col_start_1 as nat, col_end_1 as nat),
        zone_wf(z),
{
    let a = clamp_usize(row_start_1, 1, ROM_FUEL_TABLE_ROWS);
    let b = clamp_usize(row_end_1, 1, ROM_FUEL_TABLE_ROWS);
    let c = clamp_usize(col_start_1, 1, ROM_FUEL_TABLE_COLS);
    let d = clamp_usize(col_end_1, 1, ROM_FUEL_TABLE_COLS);
    TableZone {
        row_start: if a <= b { a } else { b },
        row_end: if a >= b { a } else { b },
        col_start: if c <= d { c } else { d },
        col_end: if c >= d { c } else { d },
    }
}

/// Law: selecting the smaller bound first and holding it inside the map
/// afterwards gives the same zone as holding each bound first, so the zone
/// that is drawn is the zone that is edited.
pub proof fn zone_order_irrelevant(a: nat, b: nat, lo: nat, hi: nat)
    requires
        lo <= hi,
    ensures
        clamp_nat(min_nat(a, b), lo, hi) == min_nat(clamp_nat(a, lo, hi), clamp_nat(b, lo, hi)),
        clamp_nat(max_nat(a, b), lo, hi) == max_nat(clamp_nat(a, lo, hi), clamp_nat(b, lo, hi)),
{
}

/// Law: a zone inside the map is left as it is by normalization.
pub proof fn normalize_zone_idempotent(z: TableZone)
    requires
        zone_wf(z),
    ensures
        normalized_zone(z.row_start as nat, z.row_end as nat, z.col_start as nat, z.col_end as nat) == z,
{
}

/// The whole map.
pub fn full_table_zone() -> (z: TableZone)
    ensures
        z == (TableZone { row_start: 1, row_end: 20, col_start: 1, col_end: 10 }),
        zone_wf(z),
{
    TableZone { row_start: 1, row_end: ROM_FUEL_TABLE_ROWS, col_start: 1, col_end: ROM_FUEL_TABLE_COLS }
}

/// Whether the 1-based cell `row1`, `col1` lies in the zone.
pub fn zone_contains(z: &TableZone, row1: usize, col1: usize) -> (b: bool)
    ensures
        b == (z.row_start <= row1 <= z.row_end && z.col_start <= col1 <= z.col_end),
{
    row1 >= z.row_start && row1 <= z.row_end && col1 >= z.col_start && col1 <= z.col_end
}

/// The zone dragged out from the cell `anchor` to the cell `cell`.
pub fn zone_from_anchor(anchor: (usize, usize), cell: (usize, usize)) -> (z: TableZone)
    ensures
        z.row_start as nat == min_nat(anchor.0 as nat, cell.0 as nat),
        z.row_end as nat == max_nat(anchor.0 as nat, cell.0 as nat),
        z.col_start as nat == min_nat(anchor.1 as nat, cell.1 as nat),
        z.col_end as nat == max_nat(anchor.1 as nat, cell.1 as nat),
{
    TableZone {
        row_start: if anchor.0 <= cell.0 { anchor.0 } else { cell.0 },
        row_end: if anchor.0 >= cell.0 { anchor.0 } else { cell.0 },
        col_start: if anchor.1 <= cell.1 { anchor.1 } else { cell.1 },
        col_end: if anchor.1 >= cell.1 { anchor.1 } else { cell.1 },
    }
}

/// 0-based map row of the byte at offset `i` of the map at `base`.
pub open spec fn row_of(base: nat, i: int) -> int {
    (i - base) / 24
}

/// 0-based map column of the byte at offset `i` of the map at `base`.
pub open spec fn col_of(base: nat, i: int) -> int {
    (i - base) % 24
}

/// Whether offset `i` is a cell of zone `z` of the map at `base`.
pub open spec fn in_zone_cell(base: nat, z: TableZone, i: int) -> bool {
    &&& i >= base
    &&& z.row_start <= row_of(base, i) + 1 <= z.row_end
    &&& z.col_start <= col_of(base, i) + 1 <= z.col_end
}

/// The ROM image with every byte of zone `z` of the map at `base` replaced
/// by its image under `map`.
pub open spec fn zone_mapped(rom: Seq<u8>, base: nat, z: TableZone, map: Seq<u8>) -> Seq<u8> {
    Seq::new(rom.len(), |i: int| if in_zone_cell(base, z, i) { map[rom[i] as int] } else { rom[i] })
}

/// Number of cells of 1-based row `row1`, 1-based columns `cs..c_end`,
/// that `map` changes.
pub open spec fn row_changes(rom: Seq<u8>, map: Seq<u8>, base: nat, row1: nat, cs: nat, c_end: nat) -> nat
    decreases c_end,
{
    if c_end <= cs || c_end < 2 {
        0
    } else {
        let i = cell_index(base, (row1 - 1) as nat, (c_end - 2) as nat) as int;
        row_changes(rom, map, base, row1, cs, (c_end - 1) as nat) + if map[rom[i] as int] != rom[i] {
            1nat
        } else {
            0nat
        }
    }
}

/// Number of cells of zone `z`, rows `z.row_start..r_end`, that `map`
/// changes.
pub open spec fn zone_changes(rom: Seq<u8>, map: Seq<u8>, base: nat, z: TableZone, r_end: nat) -> nat
    decreases r_end,
{
    if r_end <= z.row_start || r_end == 0 {
        0
    } else {
        zone_changes(rom, map, base, z, (r_end - 1) as nat) + row_changes(
            rom,
            map,
            base,
            (r_end - 1) as nat,
            z.col_start as nat,
            (z.col_end + 1) as nat,
        )
    }
}

/// Law: cell (`row`, `col`) of a map (0-based) is the ROM byte `24 * row +
/// col` past the map's base: rows are 0x18 bytes apart and only their first
/// ten bytes are cells.
pub proof fn table_cell_at_offset(rom: Seq<u8>, base: nat, row: int, col: int)
    requires
        0 <= row < 20,
        0 <= col < 10,
    ensures
        table_raw_spec(rom, base)[row][col] == rom[base + 24 * row + col],
{
}

/// Law: a zone edit maps exactly the bytes of the zone's cells through the
/// byte table. The byte of 1-based cell (`row1`, `col1`), at `base + 24 *
/// (row1 - 1) + (col1 - 1)`, is mapped when the cell lies in the zone and
/// kept otherwise; bytes before the map, and the padding bytes past the
/// tenth column of a row, are kept.
pub proof fn zone_edit_law(rom: Seq<u8>, base: nat, z: TableZone, map: Seq<u8>, row1: int, col1: int, i: int)
    requires
        zone_wf(z),
        map.len() == 256,
        1 <= row1 <= 20,
        1 <= col1 <= 10,
        base + 24 * (row1 - 1) + (col1 - 1) < rom.len(),
        0 <= i < rom.len(),
    ensures
        zone_mapped(rom, base, z, map).len() == rom.len(),
        zone_mapped(rom, base, z, map)[base + 24 * (row1 - 1) + (col1 - 1)] == if z.row_start <= row1 <= z.row_end
            && z.col_start <= col1 <= z.col_end {
            map[rom[base + 24 * (row1 - 1) + (col1 - 1)] as int]
        } else {
            rom[base + 24 * (row1 - 1) + (col1 - 1)]
        },
        i < base ==> zone_mapped(rom, base, z, map)[i] == rom[i],
        i >= base && (i - base) % 24 >= 10 ==> zone_mapped(rom, base, z, map)[i] == rom[i],
{
    let k = base + 24 * (row1 - 1) + (col1 - 1);
    lemma_fundamental_div_mod_converse(k - base, 24, row1 - 1, col1 - 1);
    assert(row_of(base, k) == row1 - 1 && col_of(base, k) == col1 - 1);
}

/// Why a map edit could not be made.
#[derive(Debug, PartialEq, Eq)]
pub enum TableError {
    /// The ROM image ends at or before the last cell of the map.
    RomTooSmall,
}

proof fn lemma_row_changes_bound(rom: Seq<u8>, map: Seq<u8>, base: nat, row1: nat, cs: nat, c_end: nat)
    ensures
        row_changes(rom, map, base, row1, cs, c_end) <= if c_end >= cs { c_end - cs } else { 0 },
    decreases c_end,
{
    if c_end > cs && c_end >= 2 {
        lemma_row_changes_bound(rom, map, base, row1, cs, (c_end - 1) as nat);
    }
}

proof fn lemma_zone_changes_bound(rom: Seq<u8>, map: Seq<u8>, base: nat, z: TableZone, r_end: nat)
    requires
        zone_wf(z),
    ensures
        zone_changes(rom, map, base, z, r_end) <= if r_end >= z.row_start { (r_end - z.row_start) * 10 } else { 0 },
    decreases r_end,
{
    if r_end > z.row_start && r_end > 0 {
        lemma_zone_changes_bound(rom, map, base, z, (r_end - 1) as nat);
        lemma_row_changes_bound(rom, map, base, (r_end - 1) as nat, z.col_start as nat, (z.col_end + 1) as nat);
    }
}

/// Whether offset `i` is a zone cell visited before 1-based cell
/// (`row`, `col`) in row-major order.
spec fn visited(base: nat, z: TableZone, row: nat, col: nat, i: int) -> bool {
    &&& in_zone_cell(base, z, i)
    &&& (row_of(base, i) + 1 < row || (row_of(base, i) + 1 == row && col_of(base, i) + 1 < col))
}

/// Replaces every byte of zone `zone` of the map at `base` by its image
/// under the 256-entry table `map`, and returns how many bytes changed. A
/// ROM image too short to hold the map is left alone.
pub fn apply_zone_map(rom: &mut Vec<u8>, base: usize, zone: TableZone, map: &[u8]) -> (r: Result<usize, TableError>)
    requires
        zone_wf(zone),
        map@.len() == 256,
        base <= 0x1_0000,
    ensures
        r is Err <==> old(rom)@.len() <= last_cell_index(base as nat),
        r is Err ==> final(rom)@ == old(rom)@,
        r matches Ok(n) ==> final(rom)@ == zone_mapped(old(rom)@, base as nat, zone, map@) && n as nat
            == zone_changes(old(rom)@, map@, base as nat, zone, (zone.row_end + 1) as nat),
{
    let last = base + 19 * ROM_FUEL_TABLE_ROW_STRIDE + (ROM_FUEL_TABLE_COLS - 1);
    if rom.len() <= last {
        return Err(TableError::RomTooSmall);
    }
    let ghost orig = rom@;
    let ghost b = base as nat;
    let mut changed: usize = 0;
    let mut row = zone.row_start;
    while row <= zone.row_end
        invariant
            zone_wf(zone),
            map@.len() == 256,
            base <= 0x1_0000,
            b == base as nat,
            orig.len() > last_cell_index(b),
            zone.row_start <= row <= zone.row_end + 1,
            rom@.len() == orig.len(),
            forall|i: int| 0 <= i < orig.len() ==> #[trigger] rom@[i] == if visited(b, zone, row as nat, zone.col_start as nat, i) {
                map@[orig[i] as int]
            } else {
                orig[i]
            },
            changed as nat == zone_changes(orig, map@, b, zone, row as nat),
        decreases zone.row_end + 1 - row,
    {
        let mut col = zone.col_start;
        proof {
            lemma_zone_changes_bound(orig, map@, b, zone, row as nat);
            assert(row_changes(orig, map@, b, row as nat, zone.col_start as nat, zone.col_start as nat) == 0);
        }
        while col <= zone.col_end
            invariant
                zone_wf(zone),
                map@.len() == 256,
                base <= 0x1_0000,
                b == base as nat,
                orig.len() > last_cell_index(b),
                zone.row_start <= row <= zone.row_end,
                zone.col_start <= col <= zone.col_end + 1,
                rom@.len() == orig.len(),
                forall|i: int| 0 <= i < orig.len() ==> #[trigger] rom@[i] == if visited(b, zone, row as nat, col as nat, i) {
                    map@[orig[i] as int]
                } else {
                    orig[i]
                },
                changed as nat == zone_changes(orig, map@, b, zone, row as nat) + row_changes(
                    orig,
                    map@,
                    b,
                    row as nat,
                    zone.col_start as nat,
                    col as nat,
                ),
            decreases zone.col_end + 1 - col,
        {
            let idx = base + (row - 1) * ROM_FUEL_TABLE_ROW_STRIDE + (col - 1);
            proof {
                lemma_fundamental_div_mod_converse(idx - b, 24, row - 1, col - 1);
                assert(in_zone_cell(b, zone, idx as int));
                assert(!visited(b, zone, row as nat, col as nat, idx as int));
                lemma_zone_changes_bound(orig, map@, b, zone, row as nat);
                lemma_row_changes_bound(orig, map@, b, row as nat, zone.col_start as nat, col as nat);
            }
            let old_val = rom[idx];
            let new_val = map[old_val as usize];
            if new_val != old_val {
                rom.set(idx, new_val);
                changed = changed + 1;
            }
            proof {
                assert forall|i: int| 0 <= i < orig.len() implies #[trigger] rom@[i] == if visited(
                    b,
                    zone,
                    row as nat,
                    (col + 1) as nat,
                    i,
                ) {
                    map@[orig[i] as int]
                } else {
                    orig[i]
                } by {
                    if i != idx as int && i >= b {
                        lemma_fundamental_div_mod(i - b, 24);
                    }
                }
            }
            col = col + 1;
        }
        proof {
            assert forall|i: int| 0 <= i < orig.len() implies #[trigger] rom@[i] == if visited(
                b,
                zone,
                (row + 1) as nat,
                zone.col_start as nat,
                i,
            ) {
                map@[orig[i] as int]
            } else {
                orig[i]
            } by {
                assert(visited(b, zone, (row + 1) as nat, zone.col_start as nat, i) == visited(
                    b,
                    zone,
                    row as nat,
                    col as nat,
                    i,
                ));
            }
        }
        row = row + 1;
    }
    proof {
        assert forall|i: int| 0 <= i < orig.len() implies #[trigger] rom@[i] == zone_mapped(orig, b, zone, map@)[i] by {
            assert(visited(b, zone, row as nat, zone.col_start as nat, i) == in_zone_cell(b, zone, i));
        }
        assert(rom@ =~= zone_mapped(orig, b, zone, map@));
    }
    Ok(changed)
}


/// Edits zone `zone` of a cam profile's fuel map through the byte table
/// `map`; see [`apply_zone_map`].
pub fn apply_rom_fuel_table_zone(rom: &mut Vec<u8>, kind: RomFuelTableKind, zone: TableZone, map: &[u8]) -> (r: Result<usize, TableError>)
    requires
        zone_wf(zone),
        map@.len() == 256,
    ensures
        r is Err <==> old(rom)@.len() <= last_cell_index(fuel_base(kind) as nat),
        r is Err ==> final(rom)@ == old(rom)@,
        r matches Ok(n) ==> final(rom)@ == zone_mapped(old(rom)@, fuel_base(kind) as nat, zone, map@) && n as nat
            == zone_changes(old(rom)@, map@, fuel_base(kind) as nat, zone, (zone.row_end + 1) as nat),
{
    apply_zone_map(rom, kind.offset(), zone, map)
}

/// Edits zone `zone` of a cam profile's ignition map through the byte
/// table `map`; see [`apply_zone_map`].
pub fn apply_rom_ign_table_zone(rom: &mut Vec<u8>, kind: RomFuelTableKind, zone: TableZone, map: &[u8]) -> (r: Result<usize, TableError>)
    requires
        zone_wf(zone),
        map@.len() == 256,
    ensures
        r is Err <==> old(rom)@.len() <= last_cell_index(ign_base(kind) as nat),
        r is Err ==> final(rom)@ == old(rom)@,
        r matches Ok(n) ==> final(rom)@ == zone_mapped(old(rom)@, ign_base(kind) as nat, zone, map@) && n as nat
            == zone_changes(old(rom)@, map@, ign_base(kind) as nat, zone, (zone.row_end + 1) as nat),
{
    apply_zone_map(rom, kind.ign_offset(), zone, map)
}

} // verus!
