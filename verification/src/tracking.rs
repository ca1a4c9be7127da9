//! Live tracking of the operating point on the maps: which cells a sample
//! falls into, how samples are counted into batches, and which cam
//! profile's maps follow the VTEC state.

use vstd::prelude::*;
use crate::modes::LiveTrackingCellMode;
use crate::tables::{RomFuelTableKind, clamp_nat, min_nat, max_nat};

verus! {

/// Rows of the live datalog table.
pub const AFR_TABLE_SIZE: usize = 16;
/// Samples averaged into one live tracking value.
pub const TRACKING_BATCH: u32 = 3;

fn clamp_usize(v: usize, lo: usize, hi: usize) -> (r: usize)
    requires
        lo <= hi,
    ensures
        r == clamp_nat(v as nat, lo as nat, hi as nat),
{
    if v < lo {
        lo
    } else if v > hi {
        hi
    } else {
        v
    }
}

/// The cells spanned by rows `a..=b` and columns `c..=d` where each range
/// holds one or two values: every distinct cell once, in row-major order.
pub open spec fn span_cells(a: nat, b: nat, c: nat, d: nat) -> Seq<(usize, usize)> {
    if a == b && c == d {
        seq![(a as usize, c as usize)]
    } else if a == b {
        seq![(a as usize, c as usize), (a as usize, d as usize)]
    } else if c == d {
        seq![(a as usize, c as usize), (b as usize, c as usize)]
    } else {
        seq![(a as usize, c as usize), (a as usize, d as usize), (b as usize, c as usize), (b as usize, d as usize)]
    }
}

/// The cells a sample is recorded into. In single mode the cell
/// (`row`, `col`); in quad mode every cell with a row among `row_lo`,
/// `row_hi` and a column among `col_lo`, `col_hi`. Each index is first held
/// within `lo..=row_max` or `lo..=col_max`.
pub open spec fn live_cells_spec(
    mode: LiveTrackingCellMode,
    row: nat,
    col: nat,
    row_lo: nat,
    row_hi: nat,
    col_lo: nat,
    col_hi: nat,
    lo: nat,
    row_max: nat,
    col_max: nat,
) -> Seq<(usize, usize)> {
    match mode {
        LiveTrackingCellMode::Single => seq![
            (clamp_nat(row, lo, row_max) as usize, clamp_nat(col, lo, col_max) as usize),
        ],
        LiveTrackingCellMode::Quad => {
            let r1 = clamp_nat(row_lo, lo, row_max);
            let r2 = clamp_nat(row_hi, lo, row_max);
            let c1 = clamp_nat(col_lo, lo, col_max);
            let c2 = clamp_nat(col_hi, lo, col_max);
            span_cells(min_nat(r1, r2), max_nat(r1, r2), min_nat(c1, c2), max_nat(c1, c2))
        },
    }
}

/// Lexicographic order of cells.
pub open spec fn cell_lt(x: (usize, usize), y: (usize, usize)) -> bool {
    x.0 < y.0 || (x.0 == y.0 && x.1 < y.1)
}

/// The cells a sample is recorded into, as described by
/// [`live_cells_spec`]. Indices come from the caller's position on the
/// RPM and MAP axes; `lo` is 0 for the 0-based datalog table and 1 for the
/// 1-based ROM maps.
pub fn live_cells(
    mode: LiveTrackingCellMode,
    row: usize,
    col: usize,
    row_lo: usize,
    row_hi: usize,
    col_lo: usize,
    col_hi: usize,
    lo: usize,
    row_max: usize,
    col_max: usize,
) -> (v: Vec<(usize, usize)>)
    requires
        lo <= row_max,
        lo <= col_max,
    ensures
        v@ == live_cells_spec(
            mode,
            row as nat,
            col as nat,
            row_lo as nat,
            row_hi as nat,
            col_lo as nat,
            col_hi as nat,
            lo as nat,
            row_max as nat,
            col_max as nat,
        ),
{
    match mode {
        LiveTrackingCellMode::Single => {
            vec![(clamp_usize(row, lo, row_max), clamp_usize(col, lo, col_max))]
        },
        LiveTrackingCellMode::Quad => {
            let r1 = clamp_usize(row_lo, lo, row_max);
            let r2 = clamp_usize(row_hi, lo, row_max);
            let c1 = clamp_usize(col_lo, lo, col_max);
            let c2 = clamp_usize(col_hi, lo, col_max);
            let a = if r1 <= r2 { r1 } else { r2 };
            let b = if r1 >= r2 { r1 } else { r2 };
            let c = if c1 <= c2 { c1 } else { c2 };
            let d = if c1 >= c2 { c1 } else { c2 };
            if a == b && c == d {
                vec![(a, c)]
            } else if a == b {
                vec![(a, c), (a, d)]
            } else if c == d {
                vec![(a, c), (b, c)]
            } else {
                vec![(a, c), (a, d), (b, c), (b, d)]
            }
        },
    }
}

/// Law: the quad-mode cells are in strictly increasing row-major order (so
/// no cell is recorded twice), each lies inside the map, and they are
/// exactly the cells formed from the held row and column bounds.
pub proof fn quad_cells_sorted_and_complete(
    row_lo: nat,
    row_hi: nat,
    col_lo: nat,
    col_hi: nat,
    lo: nat,
    row_max: nat,
    col_max: nat,
)
    requires
        lo <= row_max,
        lo <= col_max,
        row_max <= usize::MAX,
        col_max <= usize::MAX,
    ensures
        ({
            let v = live_cells_spec(LiveTrackingCellMode::Quad, 0, 0, row_lo, row_hi, col_lo, col_hi, lo, row_max, col_max);
            let r1 = clamp_nat(row_lo, lo, row_max);
            let r2 = clamp_nat(row_hi, lo, row_max);
            let c1 = clamp_nat(col_lo, lo, col_max);
            let c2 = clamp_nat(col_hi, lo, col_max);
            &&& forall|i: int, j: int| 0 <= i < j < v.len() ==> cell_lt(#[trigger] v[i], #[trigger] v[j])
            &&& forall|i: int| 0 <= i < v.len() ==> lo <= (#[trigger] v[i]).0 <= row_max && lo <= v[i].1 <= col_max
            &&& forall|i: int| 0 <= i < v.len() ==> ((#[trigger] v[i]).0 == r1 || v[i].0 == r2) && (v[i].1 == c1
                || v[i].1 == c2)
            &&& forall|r: nat, c: nat| (r == r1 || r == r2) && (c == c1 || c == c2) ==> #[trigger] v.contains(
                (r as usize, c as usize),
            )
        }),
{
    let v = live_cells_spec(LiveTrackingCellMode::Quad, 0, 0, row_lo, row_hi, col_lo, col_hi, lo, row_max, col_max);
    let r1 = clamp_nat(row_lo, lo, row_max);
    let r2 = clamp_nat(row_hi, lo, row_max);
    let c1 = clamp_nat(col_lo, lo, col_max);
    let c2 = clamp_nat(col_hi, lo, col_max);
    assert forall|r: nat, c: nat| (r == r1 || r == r2) && (c == c1 || c == c2) implies #[trigger] v.contains(
        (r as usize, c as usize),
    ) by {
        let a = min_nat(r1, r2);
        let b = max_nat(r1, r2);
        let cc = min_nat(c1, c2);
        let d = max_nat(c1, c2);
        if a == b && cc == d {
            assert(v[0] == (r as usize, c as usize));
        } else if a == b {
            if c == cc {
                assert(v[0] == (r as usize, c as usize));
            } else {
                assert(v[1] == (r as usize, c as usize));
            }
        } else if cc == d {
            if r == a {
                assert(v[0] == (r as usize, c as usize));
            } else {
                assert(v[1] == (r as usize, c as usize));
            }
        } else {
            if r == a && c == cc {
                assert(v[0] == (r as usize, c as usize));
            } else if r == a {
                assert(v[1] == (r as usize, c as usize));
            } else if c == cc {
                assert(v[2] == (r as usize, c as usize));
            } else {
                assert(v[3] == (r as usize, c as usize));
            }
        }
    }
}

/// The cam profile whose maps a live sample belongs to.
pub open spec fn kind_for_vtec(vtec_engaged: bool) -> RomFuelTableKind {
    if vtec_engaged {
        RomFuelTableKind::HighCam
    } else {
        RomFuelTableKind::LowCam
    }
}

/// High cam while VTEC is engaged, low cam otherwise.
pub fn live_kind_from_vtec(vtec_engaged: bool) -> (k: RomFuelTableKind)
    ensures
        k == kind_for_vtec(vtec_engaged),
{
    if vtec_engaged {
        RomFuelTableKind::HighCam
    } else {
        RomFuelTableKind::LowCam
    }
}

/// The cam profile shown by each map panel.
#[derive(Debug, Clone, Copy, PartialEq, Eq, Structural)]
pub struct TableKinds {
    pub rom_table: RomFuelTableKind,
    pub rom_ign_table: RomFuelTableKind,
    pub live_tracking: RomFuelTableKind,
    pub live_tracking_afr: RomFuelTableKind,
    pub sensor_table: RomFuelTableKind,
}

impl TableKinds {
    /// Every panel on the low cam profile.
    pub fn new() -> (t: TableKinds)
        ensures
            t.rom_table == RomFuelTableKind::LowCam,
            t.rom_ign_table == RomFuelTableKind::LowCam,
            t.live_tracking == RomFuelTableKind::LowCam,
            t.live_tracking_afr == RomFuelTableKind::LowCam,
            t.sensor_table == RomFuelTableKind::LowCam,
    {
        TableKinds {
            rom_table: RomFuelTableKind::LowCam,
            rom_ign_table: RomFuelTableKind::LowCam,
            live_tracking: RomFuelTableKind::LowCam,
            live_tracking_afr: RomFuelTableKind::LowCam,
            sensor_table: RomFuelTableKind::LowCam,
        }
    }

    /// Moves every panel to the cam profile of the VTEC state.
    pub fn sync_table_kinds_to_vtec(&mut self, vtec_engaged: bool)
        ensures
            final(self).rom_table == kind_for_vtec(vtec_engaged),
            final(self).rom_ign_table == kind_for_vtec(vtec_engaged),
            final(self).live_tracking == kind_for_vtec(vtec_engaged),
            final(self).live_tracking_afr == kind_for_vtec(vtec_engaged),
            final(self).sensor_table == kind_for_vtec(vtec_engaged),
    {
        let k = live_kind_from_vtec(vtec_engaged);
        self.rom_table = k;
        self.rom_ign_table = k;
        self.live_tracking = k;
        self.live_tracking_afr = k;
        self.sensor_table = k;
    }
}


/// One more, held at the largest `u32`.
pub open spec fn sat_inc(x: u32) -> u32 {
    if x == u32::MAX {
        x
    } else {
        (x + 1) as u32
    }
}

/// Index of the 1-based cell (`row1`, `col1`) of a 20 x 10 map in a
/// row-major list.
pub open spec fn cell_slot(row1: nat, col1: nat) -> int {
    (row1 - 1) * 10 + (col1 - 1)
}

/// Law: every 1-based cell of the 20 x 10 map has its own slot among the
/// 200 counters, so no two cells share a pending or total count.
pub proof fn cell_slot_injective(r1: nat, c1: nat, r2: nat, c2: nat)
    requires
        1 <= r1 <= 20,
        1 <= c1 <= 10,
        1 <= r2 <= 20,
        1 <= c2 <= 10,
    ensures
        0 <= cell_slot(r1, c1) < 200,
        cell_slot(r1, c1) == cell_slot(r2, c2) ==> r1 == r2 && c1 == c2,
{
    let a = r1 - 1;
    let b = r2 - 1;
    assert(0 <= a * 10 <= 190) by (nonlinear_arith)
        requires
            0 <= a <= 19,
    ;
    assert(a * 10 + (c1 - 1) == b * 10 + (c2 - 1) ==> a == b && c1 == c2) by (nonlinear_arith)
        requires
            0 <= a <= 19,
            0 <= b <= 19,
            1 <= c1 <= 10,
            1 <= c2 <= 10,
    ;
}

/// Sample counts of the live tracking maps, per cam profile and cell:
/// samples waiting to be averaged, and samples recorded in all.
pub struct TrackingCounters {
    pending_low: Vec<u32>,
    count_low: Vec<u32>,
    pending_high: Vec<u32>,
    count_high: Vec<u32>,
    samples: u64,
}

impl TrackingCounters {
    /// Samples waiting to be averaged, per cell of the cam profile's maps.
    pub closed spec fn pending(&self, kind: RomFuelTableKind) -> Seq<u32> {
        match kind {
            RomFuelTableKind::LowCam => self.pending_low@,
            RomFuelTableKind::HighCam => self.pending_high@,
        }
    }

    /// Samples recorded in all, per cell of the cam profile's maps.
    pub closed spec fn count(&self, kind: RomFuelTableKind) -> Seq<u32> {
        match kind {
            RomFuelTableKind::LowCam => self.count_low@,
            RomFuelTableKind::HighCam => self.count_high@,
        }
    }

    /// Number of samples taken.
    pub closed spec fn sample_count(&self) -> u64 {
        self.samples
    }

    /// Every table has one entry per cell, and no cell holds a full batch.
    pub closed spec fn wf(&self) -> bool {
        &&& self.pending_low@.len() == 200
        &&& self.count_low@.len() == 200
        &&& self.pending_high@.len() == 200
        &&& self.count_high@.len() == 200
        &&& forall|i: int| 0 <= i < 200 ==> #[trigger] self.pending_low@[i] < TRACKING_BATCH
        &&& forall|i: int| 0 <= i < 200 ==> #[trigger] self.pending_high@[i] < TRACKING_BATCH
    }

    /// What well-formedness guarantees a caller: each cam profile has one
    /// pending and one total count per cell of the 20 x 10 map, and no cell
    /// holds a full batch of pending samples.
    pub proof fn wf_facts(&self)
        requires
            self.wf(),
        ensures
            forall|k: RomFuelTableKind| #![trigger self.count(k)] self.count(k).len() == 200,
            forall|k: RomFuelTableKind| #![trigger self.pending(k)] self.pending(k).len() == 200,
            forall|k: RomFuelTableKind, i: int| 0 <= i < 200 ==> #[trigger] self.pending(k)[i] < TRACKING_BATCH,
    {
        assert forall|k: RomFuelTableKind, i: int| 0 <= i < 200 implies #[trigger] self.pending(k)[i]
            < TRACKING_BATCH by {
            match k {
                RomFuelTableKind::LowCam => assert(self.pending_low@[i] < TRACKING_BATCH),
                RomFuelTableKind::HighCam => assert(self.pending_high@[i] < TRACKING_BATCH),
            }
        }
    }

    /// No sample recorded anywhere.
    pub fn new() -> (t: TrackingCounters)
        ensures
            t.wf(),
            forall|k: RomFuelTableKind| #![trigger t.count(k)] t.count(k).len() == 200,
            forall|k: RomFuelTableKind| #![trigger t.pending(k)] t.pending(k).len() == 200,
            t.sample_count() == 0,
            forall|i: int| 0 <= i < 200 ==> #[trigger] t.pending(RomFuelTableKind::LowCam)[i] == 0
                && t.count(RomFuelTableKind::LowCam)[i] == 0 && t.pending(RomFuelTableKind::HighCam)[i] == 0
                && t.count(RomFuelTableKind::HighCam)[i] == 0,
    {
        TrackingCounters {
            pending_low: zeros(),
            count_low: zeros(),
            pending_high: zeros(),
            count_high: zeros(),
            samples: 0,
        }
    }

    /// The number of samples taken.
    pub fn samples(&self) -> (n: u64)
        ensures
            n == self.sample_count(),
    {
        self.samples
    }

    /// Counts one sample into the 1-based cell (`row1`, `col1`) of the cam
    /// profile's maps. When the cell's pending samples reach a batch, the
    /// batch is closed and its size returned, for the caller to average its
    /// sum over.
    pub fn record_cell(&mut self, kind: RomFuelTableKind, row1: usize, col1: usize) -> (r: Option<u32>)
        requires
            old(self).wf(),
            1 <= row1 <= 20,
            1 <= col1 <= 10,
        ensures
            final(self).wf(),
            forall|k: RomFuelTableKind| #![trigger final(self).count(k)] final(self).count(k).len() == 200,
            forall|k: RomFuelTableKind| #![trigger final(self).pending(k)] final(self).pending(k).len() == 200,
            final(self).sample_count() == old(self).sample_count(),
            ({
                let i = cell_slot(row1 as nat, col1 as nat);
                let p = sat_inc(old(self).pending(kind)[i]);
                &&& final(self).count(kind) == old(self).count(kind).update(i, sat_inc(old(self).count(kind)[i]))
                &&& r == (if p >= TRACKING_BATCH { Some(p) } else { None::<u32> })
                &&& final(self).pending(kind) == old(self).pending(kind).update(
                    i,
                    if p >= TRACKING_BATCH { 0u32 } else { p },
                )
            }),
            forall|k: RomFuelTableKind| k != kind ==> final(self).pending(k) == old(self).pending(k)
                && #[trigger] final(self).count(k) == old(self).count(k),
            forall|r: nat, c: nat|
                1 <= r <= 20 && 1 <= c <= 10 && (r != row1 || c != col1) ==> final(self).pending(kind)[#[trigger] cell_slot(r, c)]
                    == old(self).pending(kind)[cell_slot(r, c)] && final(self).count(kind)[cell_slot(r, c)]
                    == old(self).count(kind)[cell_slot(r, c)],
    {
        proof {
            assert forall|r: nat, c: nat| 1 <= r <= 20 && 1 <= c <= 10 && (r != row1 || c != col1) implies cell_slot(r, c)
                != cell_slot(row1 as nat, col1 as nat) by {
                cell_slot_injective(r, c, row1 as nat, col1 as nat);
            }
        }
        let i = (row1 - 1) * 10 + (col1 - 1);
        match kind {
            RomFuelTableKind::LowCam => {
                let p = self.pending_low[i].saturating_add(1);
                let c = self.count_low[i].saturating_add(1);
                self.count_low.set(i, c);
                if p >= TRACKING_BATCH {
                    self.pending_low.set(i, 0);
                    Some(p)
                } else {
                    self.pending_low.set(i, p);
                    None
                }
            },
            RomFuelTableKind::HighCam => {
                let p = self.pending_high[i].saturating_add(1);
                let c = self.count_high[i].saturating_add(1);
                self.count_high.set(i, c);
                if p >= TRACKING_BATCH {
                    self.pending_high.set(i, 0);
                    Some(p)
                } else {
                    self.pending_high.set(i, p);
                    None
                }
            },
        }
    }

    /// Counts one sample taken, held at the largest `u64`.
    pub fn record_sample(&mut self)
        requires
            old(self).wf(),
        ensures
            final(self).wf(),
            final(self).sample_count() == (if old(self).sample_count() == u64::MAX {
                u64::MAX
            } else {
                (old(self).sample_count() + 1) as u64
            }),
            forall|k: RomFuelTableKind| final(self).pending(k) == old(self).pending(k)
                && #[trigger] final(self).count(k) == old(self).count(k),
    {
        self.samples = self.samples.saturating_add(1);
    }
}

/// Law: a closed batch always holds exactly [`TRACKING_BATCH`] samples, so
/// every live tracking value is the mean of three samples.
pub proof fn batches_hold_three_samples(pending: u32)
    requires
        pending < TRACKING_BATCH,
    ensures
        sat_inc(pending) >= TRACKING_BATCH ==> sat_inc(pending) == TRACKING_BATCH,
{
}

fn zeros() -> (v: Vec<u32>)
    ensures
        v@.len() == 200,
        forall|i: int| 0 <= i < 200 ==> #[trigger] v@[i] == 0,
{
    let mut v: Vec<u32> = Vec::new();
    let mut i: usize = 0;
    while i < 200
        invariant
            i <= 200,
            v@.len() == i,
            forall|j: int| 0 <= j < i ==> #[trigger] v@[j] == 0,
        decreases 200 - i,
    {
        v.push(0);
        i = i + 1;
    }
    v
}

} // verus!
