//! The hex dump of a ROM image shown by the editor: 16 bytes per line,
//! offset, hex bytes, and the printable characters between bars.

use vstd::prelude::*;

verus! {

/// ASCII code of hex digit `d` (upper case).
pub open spec fn hex_digit(d: nat) -> u8 {
    if d < 10 {
        (48 + d) as u8
    } else {
        (55 + d) as u8
    }
}

/// `n` in upper-case hex with at least four digits.
pub open spec fn hex_min4(n: nat) -> Seq<u8>
    decreases n,
{
    if n < 0x10000 {
        seq![hex_digit(n / 4096), hex_digit((n / 256) % 16), hex_digit((n / 16) % 16), hex_digit(n % 16)]
    } else {
        hex_min4(n / 16).push(hex_digit(n % 16))
    }
}

/// The three characters of column `i` of a line showing `chunk`: two hex
/// digits and a space, or three spaces past the end of the chunk.
pub open spec fn hex_cell(chunk: Seq<u8>, i: int) -> Seq<u8> {
    if i < chunk.len() {
        seq![hex_digit(chunk[i] as nat / 16), hex_digit(chunk[i] as nat % 16), 32u8]
    } else {
        seq![32u8, 32u8, 32u8]
    }
}

/// The first `i` hex columns of a line showing `chunk`.
pub open spec fn hex_cells(chunk: Seq<u8>, i: nat) -> Seq<u8>
    decreases i,
{
    if i == 0 {
        Seq::empty()
    } else {
        hex_cells(chunk, (i - 1) as nat) + hex_cell(chunk, i - 1)
    }
}

/// How a byte is shown in the text column: graphic ASCII characters and the
/// space as themselves, anything else as a dot.
pub open spec fn shown(b: u8) -> u8 {
    if 0x20 <= b <= 0x7E {
        b
    } else {
        0x2Eu8
    }
}

/// The text column of a line showing `chunk`, up to byte `i`.
pub open spec fn text_cells(chunk: Seq<u8>, i: nat) -> Seq<u8>
    decreases i,
{
    if i == 0 {
        Seq::empty()
    } else {
        text_cells(chunk, (i - 1) as nat).push(shown(chunk[i - 1]))
    }
}

/// Bytes `16 * row ..` (at most 16) of `data`.
pub open spec fn chunk_of(data: Seq<u8>, row: nat) -> Seq<u8> {
    let end = if data.len() < 16 * row + 16 { data.len() as int } else { (16 * row + 16) as int };
    data.subrange(16 * row as int, end)
}

/// Line `row` of the dump: `OOOO: ` then 16 hex columns, then `|text|` and a
/// newline.
pub open spec fn dump_line(data: Seq<u8>, row: nat) -> Seq<u8> {
    let chunk = chunk_of(data, row);
    hex_min4(16 * row) + seq![58u8, 32u8] + hex_cells(chunk, 16) + seq![124u8] + text_cells(chunk, chunk.len())
        + seq![124u8, 10u8]
}

/// The first `rows` lines of the dump of `data`.
pub open spec fn dump_rows(data: Seq<u8>, rows: nat) -> Seq<u8>
    decreases rows,
{
    if rows == 0 {
        Seq::empty()
    } else {
        dump_rows(data, (rows - 1) as nat) + dump_line(data, (rows - 1) as nat)
    }
}

/// Number of lines of the dump of `len` bytes.
pub open spec fn line_count(len: nat) -> nat {
    (len + 15) / 16
}

/// The whole dump of `data`, as ASCII bytes.
pub open spec fn hex_dump_spec(data: Seq<u8>) -> Seq<u8> {
    dump_rows(data, line_count(data.len()))
}

fn digit(d: u8) -> (c: u8)
    requires
        d < 16,
    ensures
        c == hex_digit(d as nat),
{
    if d < 10 {
        48 + d
    } else {
        55 + d
    }
}

fn push_hex_min4(out: &mut Vec<u8>, n: usize)
    ensures
        final(out)@ == old(out)@ + hex_min4(n as nat),
    decreases n,
{
    if n < 0x10000 {
        out.push(digit((n / 4096) as u8));
        out.push(digit(((n / 256) % 16) as u8));
        out.push(digit(((n / 16) % 16) as u8));
        out.push(digit((n % 16) as u8));
        proof {
            assert(final(out)@ =~= old(out)@ + hex_min4(n as nat));
        }
    } else {
        push_hex_min4(out, n / 16);
        out.push(digit((n % 16) as u8));
        proof {
            assert(final(out)@ =~= old(out)@ + hex_min4(n as nat));
        }
    }
}

fn push_line(out: &mut Vec<u8>, data: &[u8], row: usize)
    requires
        16 * row < data@.len(),
    ensures
        final(out)@ == old(out)@ + dump_line(data@, row as nat),
{
    let n = data.len();
    let start = 16 * row;
    let end = if data.len() - start < 16 { data.len() } else { start + 16 };
    let ghost chunk = chunk_of(data@, row as nat);
    let ghost base = out@;
    push_hex_min4(out, start);
    out.push(58u8);
    out.push(32u8);
    let ghost after_offset = out@;
    assert(after_offset =~= base + hex_min4(16 * row as nat) + seq![58u8, 32u8]);
    let mut i: usize = 0;
    while i < 16
        invariant
            i <= 16,
            start == 16 * row,
            start < end <= data@.len(),
            end - start <= 16,
            chunk == data@.subrange(start as int, end as int),
            out@ == after_offset + hex_cells(chunk, i as nat),
        decreases 16 - i,
    {
        if i < end - start {
            let b = data[start + i];
            out.push(digit(b / 16));
            out.push(digit(b % 16));
            out.push(32u8);
        } else {
            out.push(32u8);
            out.push(32u8);
            out.push(32u8);
        }
        proof {
            assert(out@ =~= after_offset + hex_cells(chunk, (i + 1) as nat));
        }
        i = i + 1;
    }
    out.push(124u8);
    let ghost after_hex = out@;
    let mut j: usize = 0;
    while j < end - start
        invariant
            start < end <= data@.len(),
            end - start <= 16,
            chunk == data@.subrange(start as int, end as int),
            j <= end - start,
            out@ == after_hex + text_cells(chunk, j as nat),
        decreases end - start - j,
    {
        let b = data[start + j];
        let c = if 0x20 <= b && b <= 0x7E { b } else { 0x2E };
        out.push(c);
        j = j + 1;
    }
    out.push(124u8);
    out.push(10u8);
    proof {
        assert(final(out)@ =~= old(out)@ + dump_line(data@, row as nat));
    }
}

/// The dump of `data` as ASCII bytes.
pub fn hex_dump_bytes(data: &[u8]) -> (out: Vec<u8>)
    ensures
        out@ == hex_dump_spec(data@),
{
    let mut out: Vec<u8> = Vec::new();
    let mut row: usize = 0;
    let rows = data.len() / 16 + if data.len() % 16 == 0 { 0 } else { 1 };
    assert(rows == line_count(data@.len()));
    while row < rows
        invariant
            row <= rows,
            rows == line_count(data@.len()),
            out@ == dump_rows(data@, row as nat),
        decreases rows - row,
    {
        push_line(&mut out, data, row);
        row = row + 1;
    }
    out
}


/// Every byte is an ASCII code.
pub open spec fn all_ascii(s: Seq<u8>) -> bool {
    forall|i: int| 0 <= i < s.len() ==> #[trigger] s[i] < 128
}

/// Characters of ASCII bytes.
pub open spec fn ascii_chars(s: Seq<u8>) -> Seq<char> {
    Seq::new(s.len(), |i: int| s[i] as char)
}

proof fn lemma_concat_ascii(a: Seq<u8>, b: Seq<u8>)
    requires
        all_ascii(a),
        all_ascii(b),
    ensures
        all_ascii(a + b),
{
    assert forall|i: int| 0 <= i < (a + b).len() implies #[trigger] (a + b)[i] < 128 by {
        if i < a.len() {
            assert((a + b)[i] == a[i]);
        } else {
            assert((a + b)[i] == b[i - a.len()]);
        }
    }
}

proof fn lemma_hex_min4_ascii(n: nat)
    ensures
        all_ascii(hex_min4(n)),
    decreases n,
{
    if n >= 0x10000 {
        lemma_hex_min4_ascii(n / 16);
    }
}

proof fn lemma_hex_cells_ascii(chunk: Seq<u8>, i: nat)
    ensures
        all_ascii(hex_cells(chunk, i)),
    decreases i,
{
    if i > 0 {
        lemma_hex_cells_ascii(chunk, (i - 1) as nat);
        if i - 1 < chunk.len() {
            assert(chunk[i - 1] as nat / 16 < 16);
        }
        lemma_concat_ascii(hex_cells(chunk, (i - 1) as nat), hex_cell(chunk, i - 1));
    }
}

proof fn lemma_text_cells_ascii(chunk: Seq<u8>, i: nat)
    ensures
        all_ascii(text_cells(chunk, i)),
    decreases i,
{
    if i > 0 {
        lemma_text_cells_ascii(chunk, (i - 1) as nat);
    }
}

proof fn lemma_dump_rows_ascii(data: Seq<u8>, rows: nat)
    ensures
        all_ascii(dump_rows(data, rows)),
    decreases rows,
{
    if rows > 0 {
        let row = (rows - 1) as nat;
        let chunk = chunk_of(data, row);
        lemma_dump_rows_ascii(data, row);
        lemma_hex_min4_ascii(16 * row);
        lemma_hex_cells_ascii(chunk, 16);
        lemma_text_cells_ascii(chunk, chunk.len());
        let a = hex_min4(16 * row);
        let b = a + seq![58u8, 32u8];
        lemma_concat_ascii(a, seq![58u8, 32u8]);
        let c = b + hex_cells(chunk, 16);
        lemma_concat_ascii(b, hex_cells(chunk, 16));
        let d = c + seq![124u8];
        lemma_concat_ascii(c, seq![124u8]);
        let e = d + text_cells(chunk, chunk.len());
        lemma_concat_ascii(d, text_cells(chunk, chunk.len()));
        lemma_concat_ascii(e, seq![124u8, 10u8]);
        lemma_concat_ascii(dump_rows(data, row), dump_line(data, row));
    }
}

/// Builds a `String` from ASCII bytes through `String::from_utf8` (std).
/// ASCII bytes are valid UTF-8, each byte one character, so the error arm
/// is never taken.
#[verifier::external_body]
fn ascii_to_string(bytes: Vec<u8>) -> (s: String)
    requires
        all_ascii(bytes@),
    ensures
        s@ == ascii_chars(bytes@),
{
    match String::from_utf8(bytes) {
        Ok(s) => s,
        Err(_) => String::new(),
    }
}

/// The hex dump of `data`: for each 16 bytes a line with the offset (at
/// least four hex digits), the bytes in hex, and the printable characters
/// between bars.
pub fn format_hex_dump(data: &[u8]) -> (s: String)
    ensures
        s@ == ascii_chars(hex_dump_spec(data@)),
{
    let bytes = hex_dump_bytes(data);
    proof {
        lemma_dump_rows_ascii(data@, line_count(data@.len()));
    }
    ascii_to_string(bytes)
}

} // verus!
