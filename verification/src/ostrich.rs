//! Framing of the Ostrich serial protocol spoken by the ROM emulator.
//!
//! The protocol is driven by the caller: this module builds every command
//! and frame, checks every reply, and keeps the progress of a block read or
//! a block write, while the caller moves the bytes over the serial line.

use vstd::prelude::*;
use crate::checksum::{checksum8, checksum_spec, checksum_concat};

verus! {

/// ASCII `R`: byte-addressed read.
pub const CMD_R: u8 = 0x52;
/// ASCII `W`: byte-addressed write.
pub const CMD_W: u8 = 0x57;
/// ASCII `Z`: prefix of the 256-byte block commands.
pub const CMD_Z: u8 = 0x5A;
/// ASCII `V`: version probe.
pub const CMD_V: u8 = 0x56;
/// ASCII `O`: interface type reported by an Ostrich channel, and write ACK.
pub const REPLY_OK: u8 = 0x4F;
/// Largest chunk moved by one command.
pub const CHUNK_MAX: usize = 256;
/// Size of the 16-bit Ostrich address space.
pub const ADDRESS_SPACE: usize = 0x1_0000;
/// Ostrich address of the first byte of the ROM image.
pub const OSTRICH_ADDR_BASE: u16 = 0x8000;

/// The Ostrich address of byte `offset` of the ROM image; addresses wrap
/// within the 16-bit space.
pub fn rom_address(offset: u16) -> (a: u16)
    ensures
        a as int == (OSTRICH_ADDR_BASE as int + offset as int) % 0x1_0000,
{
    OSTRICH_ADDR_BASE.wrapping_add(offset)
}

/// Errors of an Ostrich exchange.
#[derive(Debug, PartialEq, Eq)]
pub enum OstrichError {
    /// The requested range runs past the 16-bit address space.
    RangeExceeded { start: u16, len: usize },
    /// A write was requested with no data.
    NoData,
    /// The probe reply does not come from an Ostrich channel.
    BadProbe { type_byte: u8 },
    /// A one-byte read reply whose checksum byte differs from the data byte.
    ReadChecksum { addr: u16, data: u8, sum: u8 },
    /// A chunk whose received checksum differs from the computed one.
    ChunkChecksum { addr: u16, got: u8, calc: u8 },
    /// A write frame answered by something other than the ACK byte.
    Nack { addr: u16, got: u8 },
}

/// High byte of a 16-bit address.
pub open spec fn hi(a: u16) -> u8 {
    (a / 256) as u8
}

/// Low byte of a 16-bit address.
pub open spec fn lo(a: u16) -> u8 {
    (a % 256) as u8
}

fn hi_byte(a: u16) -> (r: u8)
    ensures
        r == hi(a),
{
    (a / 256) as u8
}

fn lo_byte(a: u16) -> (r: u8)
    ensures
        r == lo(a),
{
    (a % 256) as u8
}

/// A chunk moved by a block command: a full 256-byte chunk at a 256-aligned
/// address.
pub open spec fn is_block_chunk(addr: u16, len: nat) -> bool {
    len == 256 && addr % 256 == 0
}

/// The size field of a byte-addressed command: 256 is sent as 0.
pub open spec fn size_field(len: nat) -> u8 {
    if len == 256 {
        0
    } else {
        len as u8
    }
}

/// Header (without checksum) of the read command for `len` bytes at `addr`:
/// `Z R 1 <block hi> <block lo>` for a block chunk, `R <size> <hi> <lo>`
/// otherwise.
pub open spec fn read_header(addr: u16, len: nat) -> Seq<u8> {
    if is_block_chunk(addr, len) {
        let block = (addr / 256) as u16;
        seq![CMD_Z, CMD_R, 1u8, hi(block), lo(block)]
    } else {
        seq![CMD_R, size_field(len), hi(addr), lo(addr)]
    }
}

/// The full read command: header followed by its checksum.
pub open spec fn read_command(addr: u16, len: nat) -> Seq<u8> {
    read_header(addr, len).push(checksum_spec(read_header(addr, len)))
}

/// Header of the write frame for `len` bytes at `addr`: `Z W 1 <block hi>
/// <block lo>` for a block chunk, `W <size> <hi> <lo>` otherwise.
pub open spec fn write_header(addr: u16, len: nat) -> Seq<u8> {
    if is_block_chunk(addr, len) {
        let block = (addr / 256) as u16;
        seq![CMD_Z, CMD_W, 1u8, hi(block), lo(block)]
    } else {
        seq![CMD_W, size_field(len), hi(addr), lo(addr)]
    }
}

/// A full write frame: header, payload, and the checksum of both.
pub open spec fn write_frame(addr: u16, payload: Seq<u8>) -> Seq<u8> {
    let body = write_header(addr, payload.len()) + payload;
    body.push(checksum_spec(body))
}

/// Length of the next chunk when `done` of `total` bytes have been moved.
pub open spec fn chunk_len(total: nat, done: nat) -> nat {
    if total - done >= 256 {
        256
    } else {
        (total - done) as nat
    }
}

/// Law: a read command names the chunk it asks for. A block read is `Z R`,
/// one block, and the block number whose 256-fold is the address; any other
/// read is `R`, the length (256 written as 0) and the address, high byte
/// first. The last byte is the checksum of the bytes before it.
pub proof fn read_command_names_chunk(addr: u16, len: nat)
    requires
        1 <= len <= 256,
    ensures
        ({
            let c = read_command(addr, len);
            &&& is_block_chunk(addr, len) ==> c.len() == 6 && c[0] == 0x5A && c[1] == 0x52 && c[2] == 1 && (c[3] as int
                * 256 + c[4] as int) * 256 == addr as int
            &&& !is_block_chunk(addr, len) ==> c.len() == 5 && c[0] == 0x52 && (if c[1] == 0 {
                256
            } else {
                c[1] as int
            }) == len && c[2] as int * 256 + c[3] as int == addr as int
            &&& c.last() == checksum_spec(c.drop_last())
        }),
{
    let c = read_command(addr, len);
    assert(c.drop_last() =~= read_header(addr, len));
}

/// Law: a write frame names where its payload goes and carries it whole. A
/// full aligned chunk is `Z W`, one block and the block number; any other is
/// `W`, the length (256 written as 0) and the address, high byte first. The
/// payload follows the header, and the last byte is the checksum of all the
/// bytes before it.
pub proof fn write_frame_names_chunk(addr: u16, payload: Seq<u8>)
    requires
        1 <= payload.len() <= 256,
    ensures
        ({
            let f = write_frame(addr, payload);
            let h = if is_block_chunk(addr, payload.len()) { 5int } else { 4int };
            &&& f.len() == h + payload.len() + 1
            &&& is_block_chunk(addr, payload.len()) ==> f[0] == 0x5A && f[1] == 0x57 && f[2] == 1 && (f[3] as int * 256
                + f[4] as int) * 256 == addr as int
            &&& !is_block_chunk(addr, payload.len()) ==> f[0] == 0x57 && (if f[1] == 0 {
                256
            } else {
                f[1] as int
            }) == payload.len() && f[2] as int * 256 + f[3] as int == addr as int
            &&& f.subrange(h, h + payload.len()) == payload
            &&& f.last() == checksum_spec(f.drop_last())
        }),
{
    let f = write_frame(addr, payload);
    let hd = write_header(addr, payload.len());
    assert(f.drop_last() =~= hd + payload);
    assert(f.subrange(hd.len() as int, (hd.len() + payload.len()) as int) =~= payload);
}

/// The version probe sent before any other command.
pub fn probe_command() -> (cmd: Vec<u8>)
    ensures
        cmd@ == seq![CMD_V, CMD_V],
{
    vec![CMD_V, CMD_V]
}

/// Checks the three-byte reply to the probe: its last byte must be `O`.
pub fn check_probe_reply(reply: &[u8]) -> (r: Result<(), OstrichError>)
    requires
        reply@.len() == 3,
    ensures
        r is Ok <==> reply@[2] == REPLY_OK,
        r matches Err(e) ==> e == (OstrichError::BadProbe { type_byte: reply@[2] }),
{
    if reply[2] == REPLY_OK {
        Ok(())
    } else {
        Err(OstrichError::BadProbe { type_byte: reply[2] })
    }
}

fn read_header_exec(addr: u16, len: usize) -> (h: Vec<u8>)
    requires
        1 <= len <= 256,
    ensures
        h@ == read_header(addr, len as nat),
{
    if len == 256 && addr % 256 == 0 {
        let block = addr / 256;
        vec![CMD_Z, CMD_R, 1u8, hi_byte(block), lo_byte(block)]
    } else {
        let size: u8 = if len == 256 { 0 } else { len as u8 };
        vec![CMD_R, size, hi_byte(addr), lo_byte(addr)]
    }
}

fn write_header_exec(addr: u16, len: usize) -> (h: Vec<u8>)
    requires
        1 <= len <= 256,
    ensures
        h@ == write_header(addr, len as nat),
{
    if len == 256 && addr % 256 == 0 {
        let block = addr / 256;
        vec![CMD_Z, CMD_W, 1u8, hi_byte(block), lo_byte(block)]
    } else {
        let size: u8 = if len == 256 { 0 } else { len as u8 };
        vec![CMD_W, size, hi_byte(addr), lo_byte(addr)]
    }
}

/// The read command for `len` bytes (1 to 256) at `addr`.
pub fn read_chunk_command(addr: u16, len: usize) -> (cmd: Vec<u8>)
    requires
        1 <= len <= 256,
    ensures
        cmd@ == read_command(addr, len as nat),
{
    let mut h = read_header_exec(addr, len);
    let sum = checksum8(h.as_slice());
    h.push(sum);
    h
}

/// The command that reads the single byte at `addr`: `R 1 <hi> <lo> <sum>`.
pub fn read_byte_command(addr: u16) -> (cmd: Vec<u8>)
    ensures
        cmd@ == read_command(addr, 1),
        cmd@ =~= seq![CMD_R, 1u8, hi(addr), lo(addr), checksum_spec(seq![CMD_R, 1u8, hi(addr), lo(addr)])],
{
    read_chunk_command(addr, 1)
}

/// Decodes the two-byte reply to a one-byte read: the data byte followed by
/// its checksum, which for one byte is the byte itself.
pub fn decode_read_byte_reply(addr: u16, resp: &[u8]) -> (r: Result<u8, OstrichError>)
    requires
        resp@.len() == 2,
    ensures
        r is Ok <==> resp@[1] == checksum_spec(seq![resp@[0]]),
        r matches Ok(b) ==> b == resp@[0],
        r matches Err(e) ==> e == (OstrichError::ReadChecksum { addr, data: resp@[0], sum: resp@[1] }),
{
    proof {
        reveal_with_fuel(crate::checksum::byte_sum, 2);
        assert(seq![resp@[0]].drop_last() =~= Seq::<u8>::empty());
    }
    if resp[1] != resp[0] {
        Err(OstrichError::ReadChecksum { addr, data: resp[0], sum: resp[1] })
    } else {
        Ok(resp[0])
    }
}

/// The write frame that stores `payload` (1 to 256 bytes) at `addr`.
pub fn write_chunk_frame(addr: u16, payload: &[u8]) -> (frame: Vec<u8>)
    requires
        1 <= payload@.len() <= 256,
    ensures
        frame@ == write_frame(addr, payload@),
{
    let mut frame = write_header_exec(addr, payload.len());
    let ghost h = frame@;
    let header_sum = checksum8(frame.as_slice());
    let payload_sum = checksum8(payload);
    let sum = header_sum.wrapping_add(payload_sum);
    let mut i: usize = 0;
    while i < payload.len()
        invariant
            i <= payload@.len(),
            frame@ == h + payload@.take(i as int),
        decreases payload@.len() - i,
    {
        frame.push(payload[i]);
        proof {
            assert(h + payload@.take(i + 1) =~= (h + payload@.take(i as int)).push(payload@[i as int]));
        }
        i = i + 1;
    }
    proof {
        assert(payload@.take(payload@.len() as int) =~= payload@);
        checksum_concat(h, payload@);
    }
    frame.push(sum);
    frame
}


/// Length of the next chunk, executable form of [`chunk_len`].
fn next_chunk_len(total: usize, done: usize) -> (n: usize)
    requires
        done < total,
    ensures
        n == chunk_len(total as nat, done as nat),
        1 <= n <= 256,
{
    let remaining = total - done;
    if remaining >= CHUNK_MAX {
        CHUNK_MAX
    } else {
        remaining
    }
}

/// One request of a block read: the address and length of the chunk and
/// the command that asks for it.
pub struct ChunkRequest {
    pub addr: u16,
    pub len: usize,
    pub command: Vec<u8>,
}

/// One frame of a block write: the address and length of its payload and
/// the bytes to send.
pub struct WriteChunk {
    pub addr: u16,
    pub len: usize,
    pub frame: Vec<u8>,
}

/// Progress of a block read of `size` bytes starting at `start`.
///
/// The caller sends the command of [`BlockReader::next_request`], reads the
/// chunk and its checksum byte, and hands both to
/// [`BlockReader::accept_chunk`], until the reader is done.
pub struct BlockReader {
    start: u16,
    size: usize,
    data: Vec<u8>,
}

impl BlockReader {
    /// First address of the range.
    pub closed spec fn start_addr(&self) -> u16 {
        self.start
    }

    /// Number of bytes requested.
    pub closed spec fn total(&self) -> nat {
        self.size as nat
    }

    /// The bytes received so far.
    pub closed spec fn received(&self) -> Seq<u8> {
        self.data@
    }

    /// Well-formedness: the range fits the address space and no more than
    /// the requested bytes have been received.
    pub closed spec fn wf(&self) -> bool {
        &&& self.start as nat + self.size as nat <= ADDRESS_SPACE as nat
        &&& self.data@.len() <= self.size as nat
    }

    /// The read is complete.
    pub open spec fn done(&self) -> bool {
        self.received().len() == self.total()
    }

    /// What well-formedness guarantees a caller: the range fits the 16-bit
    /// address space and no more than the requested bytes are held.
    pub proof fn wf_facts(&self)
        requires
            self.wf(),
        ensures
            self.start_addr() as nat + self.total() <= ADDRESS_SPACE as nat,
            self.received().len() <= self.total(),
    {
    }

    /// Address of the next chunk.
    pub open spec fn next_addr(&self) -> u16 {
        (self.start_addr() as nat + self.received().len()) as u16
    }

    /// Starts a read of `size` bytes at `start`; refused when the range runs
    /// past the 16-bit address space. A read of no bytes is done at once.
    pub fn new(start: u16, size: usize) -> (r: Result<BlockReader, OstrichError>)
        ensures
            r is Ok <==> start as nat + size as nat <= ADDRESS_SPACE as nat,
            r matches Ok(rd) ==> rd.wf() && rd.start_addr() == start && rd.total() == size as nat
                && rd.received() == Seq::<u8>::empty(),
            r matches Err(e) ==> e == (OstrichError::RangeExceeded { start, len: size }),
    {
        if size > ADDRESS_SPACE - start as usize {
            Err(OstrichError::RangeExceeded { start, len: size })
        } else {
            Ok(BlockReader { start, size, data: Vec::new() })
        }
    }

    /// Whether every requested byte has been received.
    pub fn is_done(&self) -> (b: bool)
        requires
            self.wf(),
        ensures
            b == self.done(),
    {
        self.data.len() == self.size
    }

    /// The request for the next chunk, or `None` once the read is done.
    /// A full 256-byte chunk at an aligned address is asked with `ZR`,
    /// any other with `R`.
    pub fn next_request(&self) -> (r: Option<ChunkRequest>)
        requires
            self.wf(),
        ensures
            r is None <==> self.done(),
            r matches Some(q) ==> {
                &&& q.addr == self.next_addr()
                &&& q.len as nat == chunk_len(self.total(), self.received().len())
                &&& q.command@ == read_command(q.addr, q.len as nat)
            },
    {
        if self.data.len() == self.size {
            None
        } else {
            let len = next_chunk_len(self.size, self.data.len());
            let addr = (self.start as usize + self.data.len()) as u16;
            let command = read_chunk_command(addr, len);
            Some(ChunkRequest { addr, len, command })
        }
    }

    /// Hands over the next chunk and the checksum byte that followed it.
    /// The chunk is kept when the checksum matches; otherwise the read is
    /// left where it was and the mismatch is reported.
    pub fn accept_chunk(&mut self, chunk: &[u8], sum: u8) -> (r: Result<(), OstrichError>)
        requires
            old(self).wf(),
            !old(self).done(),
            chunk@.len() == chunk_len(old(self).total(), old(self).received().len()),
        ensures
            final(self).wf(),
            final(self).start_addr() == old(self).start_addr(),
            final(self).total() == old(self).total(),
            r is Ok <==> sum == checksum_spec(chunk@),
            r is Ok ==> final(self).received() == old(self).received() + chunk@,
            r is Err ==> final(self).received() == old(self).received(),
            r matches Err(e) ==> e == (OstrichError::ChunkChecksum {
                addr: old(self).next_addr(),
                got: sum,
                calc: checksum_spec(chunk@),
            }),
    {
        let calc = checksum8(chunk);
        if sum != calc {
            let addr = (self.start as usize + self.data.len()) as u16;
            return Err(OstrichError::ChunkChecksum { addr, got: sum, calc });
        }
        let ghost before = self.data@;
        let ghost start0 = self.start;
        let ghost size0 = self.size;
        let mut i: usize = 0;
        while i < chunk.len()
            invariant
                i <= chunk@.len(),
                self.data@ == before + chunk@.take(i as int),
                self.start == start0,
                self.size == size0,
                before.len() + chunk@.len() <= self.size as nat,
                self.start as nat + self.size as nat <= ADDRESS_SPACE as nat,
            decreases chunk@.len() - i,
        {
            self.data.push(chunk[i]);
            proof {
                assert(before + chunk@.take(i + 1) =~= (before + chunk@.take(i as int)).push(chunk@[i as int]));
            }
            i = i + 1;
        }
        proof {
            assert(chunk@.take(chunk@.len() as int) =~= chunk@);
        }
        Ok(())
    }

    /// The bytes read, once the read is done.
    pub fn into_data(self) -> (d: Vec<u8>)
        requires
            self.wf(),
            self.done(),
        ensures
            d@ == self.received(),
            d@.len() == self.total(),
    {
        self.data
    }
}

/// Progress of a block write of `data` starting at `start`.
///
/// The caller sends the frame of [`BlockWriter::next_frame`], reads the
/// one-byte answer and hands it to [`BlockWriter::accept_ack`], until the
/// writer is done.
pub struct BlockWriter {
    start: u16,
    data: Vec<u8>,
    offset: usize,
}

impl BlockWriter {
    /// First address of the range.
    pub closed spec fn start_addr(&self) -> u16 {
        self.start
    }

    /// The bytes to write.
    pub closed spec fn payload(&self) -> Seq<u8> {
        self.data@
    }

    /// Number of bytes already acknowledged.
    pub closed spec fn sent(&self) -> nat {
        self.offset as nat
    }

    /// Well-formedness: the range fits the address space and the
    /// acknowledged bytes are a prefix of the data.
    pub closed spec fn wf(&self) -> bool {
        &&& self.start as nat + self.data@.len() <= ADDRESS_SPACE as nat
        &&& self.offset <= self.data@.len()
    }

    /// The write is complete.
    pub open spec fn done(&self) -> bool {
        self.sent() == self.payload().len()
    }

    /// What well-formedness guarantees a caller: the range fits the 16-bit
    /// address space and the acknowledged bytes are a prefix of the data.
    pub proof fn wf_facts(&self)
        requires
            self.wf(),
        ensures
            self.start_addr() as nat + self.payload().len() <= ADDRESS_SPACE as nat,
            self.sent() <= self.payload().len(),
    {
    }

    /// Address of the next frame.
    pub open spec fn next_addr(&self) -> u16 {
        (self.start_addr() as nat + self.sent()) as u16
    }

    /// Starts a write of `data` at `start`; refused when there is no data,
    /// or when the range runs past the 16-bit address space.
    pub fn new(start: u16, data: Vec<u8>) -> (r: Result<BlockWriter, OstrichError>)
        ensures
            r is Ok <==> data@.len() > 0 && start as nat + data@.len() <= ADDRESS_SPACE as nat,
            r matches Ok(w) ==> w.wf() && w.start_addr() == start && w.payload() == data@
                && w.sent() == 0,
            r matches Err(e) ==> e == (if data@.len() == 0 {
                OstrichError::NoData
            } else {
                OstrichError::RangeExceeded { start, len: data@.len() as usize }
            }),
    {
        if data.len() == 0 {
            Err(OstrichError::NoData)
        } else if data.len() > ADDRESS_SPACE - start as usize {
            let len = data.len();
            Err(OstrichError::RangeExceeded { start, len })
        } else {
            Ok(BlockWriter { start, data, offset: 0 })
        }
    }

    /// Whether every byte has been acknowledged.
    pub fn is_done(&self) -> (b: bool)
        requires
            self.wf(),
        ensures
            b == self.done(),
    {
        self.offset == self.data.len()
    }

    /// The frame for the next chunk, or `None` once the write is done. A
    /// full 256-byte chunk at an aligned address is sent with `ZW`, any
    /// other with `W`.
    pub fn next_frame(&self) -> (r: Option<WriteChunk>)
        requires
            self.wf(),
        ensures
            r is None <==> self.done(),
            r matches Some(c) ==> {
                &&& c.addr == self.next_addr()
                &&& c.len as nat == chunk_len(self.payload().len(), self.sent())
                &&& c.frame@ == write_frame(
                    c.addr,
                    self.payload().subrange(self.sent() as int, self.sent() + c.len),
                )
            },
    {
        if self.offset == self.data.len() {
            None
        } else {
            let len = next_chunk_len(self.data.len(), self.offset);
            let addr = (self.start as usize + self.offset) as u16;
            let end = self.offset + len;
            let mut chunk: Vec<u8> = Vec::new();
            let mut i = self.offset;
            while i < end
                invariant
                    self.offset <= i <= end,
                    end <= self.data@.len(),
                    chunk@ == self.data@.subrange(self.offset as int, i as int),
                decreases end - i,
            {
                chunk.push(self.data[i]);
                proof {
                    assert(self.data@.subrange(self.offset as int, i + 1) =~= self.data@.subrange(
                        self.offset as int,
                        i as int,
                    ).push(self.data@[i as int]));
                }
                i = i + 1;
            }
            let frame = write_chunk_frame(addr, chunk.as_slice());
            Some(WriteChunk { addr, len, frame })
        }
    }

    /// Hands over the one-byte answer to the last frame: `O` acknowledges it
    /// and moves to the next chunk; anything else is a NACK and leaves the
    /// write where it was.
    pub fn accept_ack(&mut self, ack: u8) -> (r: Result<(), OstrichError>)
        requires
            old(self).wf(),
            !old(self).done(),
        ensures
            final(self).wf(),
            final(self).start_addr() == old(self).start_addr(),
            final(self).payload() == old(self).payload(),
            r is Ok <==> ack == REPLY_OK,
            r is Ok ==> final(self).sent() == old(self).sent() + chunk_len(
                old(self).payload().len(),
                old(self).sent(),
            ),
            r is Err ==> final(self).sent() == old(self).sent(),
            r matches Err(e) ==> e == (OstrichError::Nack { addr: old(self).next_addr(), got: ack }),
    {
        let addr = (self.start as usize + self.offset) as u16;
        if ack != REPLY_OK {
            return Err(OstrichError::Nack { addr, got: ack });
        }
        let len = next_chunk_len(self.data.len(), self.offset);
        self.offset = self.offset + len;
        Ok(())
    }
}


/// The bytes a block read collects from a device whose memory is `mem`,
/// once `received` bytes of the `total` starting at `start` are in: each
/// further request of [`chunk_len`] bytes at the next address is answered
/// with the memory's own bytes. (A range past the end of `mem` collects
/// nothing more.)
pub open spec fn read_session(mem: Seq<u8>, start: nat, total: nat, received: Seq<u8>) -> Seq<u8>
    decreases total - received.len(),
{
    if received.len() >= total || start + total > mem.len() {
        received
    } else {
        let addr = start + received.len();
        let n = chunk_len(total, received.len());
        read_session(mem, start, total, received + mem.subrange(addr as int, (addr + n) as int))
    }
}

/// The memory of a device after the frames of a block write of `data` at
/// `start` have been applied, from the frame that carries byte `sent` on.
pub open spec fn write_session(mem: Seq<u8>, start: nat, data: Seq<u8>, sent: nat) -> Seq<u8>
    decreases data.len() - sent,
{
    if sent >= data.len() {
        mem
    } else {
        let n = chunk_len(data.len(), sent);
        let addr = start + sent;
        let payload = data.subrange(sent as int, (sent + n) as int);
        let mem2 = mem.subrange(0, addr as int) + payload + mem.subrange((addr + n) as int, mem.len() as int);
        write_session(mem2, start, data, sent + n)
    }
}

proof fn lemma_read_session(mem: Seq<u8>, start: nat, total: nat, received: Seq<u8>)
    requires
        start + total <= mem.len(),
        received.len() <= total,
        received == mem.subrange(start as int, (start + received.len()) as int),
    ensures
        read_session(mem, start, total, received) == mem.subrange(start as int, (start + total) as int),
    decreases total - received.len(),
{
    if received.len() < total {
        let addr = start + received.len();
        let n = chunk_len(total, received.len());
        let next = received + mem.subrange(addr as int, (addr + n) as int);
        assert(next =~= mem.subrange(start as int, (start + next.len()) as int));
        lemma_read_session(mem, start, total, next);
    }
}

/// Law: when a [`BlockReader`] holds a prefix of the range of `mem` it was
/// started on, and the device answers its next request with its own
/// memory, the bytes [`BlockReader::accept_chunk`] keeps are again a prefix
/// of that range, never longer than the range; so a reader that is done
/// holds exactly the range.
pub proof fn faithful_chunk_extends_prefix(mem: Seq<u8>, start: nat, total: nat, received: Seq<u8>, chunk: Seq<u8>)
    requires
        start + total <= mem.len(),
        received.len() < total,
        received == mem.subrange(start as int, (start + received.len()) as int),
        chunk == mem.subrange(
            (start + received.len()) as int,
            (start + received.len() + chunk_len(total, received.len())) as int,
        ),
    ensures
        (received + chunk).len() <= total,
        received + chunk == mem.subrange(start as int, (start + (received + chunk).len()) as int),
        (received + chunk).len() == total ==> received + chunk == mem.subrange(start as int, (start + total) as int),
{
    assert(received + chunk =~= mem.subrange(start as int, (start + (received + chunk).len()) as int));
}

/// Law: a read or write that starts at a 256-aligned address moves every
/// full chunk with the block commands (`ZR`, `ZW`): a chunk that is not the
/// last is a full 256 bytes, and the next position is again aligned.
pub proof fn aligned_transfers_use_block_commands(start: u16, total: nat, done: nat)
    requires
        start % 256 == 0,
        done % 256 == 0,
        start as nat + total <= ADDRESS_SPACE as nat,
        done + 256 <= total,
    ensures
        is_block_chunk((start as nat + done) as u16, chunk_len(total, done)),
        (done + chunk_len(total, done)) % 256 == 0,
{
}

/// Law: a block read answered by a device with memory `mem` collects
/// exactly the requested range of that memory.
pub proof fn read_session_gives_memory_range(mem: Seq<u8>, start: nat, total: nat)
    requires
        start + total <= mem.len(),
    ensures
        read_session(mem, start, total, Seq::<u8>::empty()) == mem.subrange(start as int, (start + total) as int),
{
    assert(Seq::<u8>::empty() =~= mem.subrange(start as int, start as int));
    lemma_read_session(mem, start, total, Seq::<u8>::empty());
}

proof fn lemma_write_session(mem: Seq<u8>, start: nat, data: Seq<u8>, sent: nat)
    requires
        start + data.len() <= mem.len(),
        sent <= data.len(),
        mem.subrange(start as int, (start + sent) as int) == data.subrange(0, sent as int),
    ensures
        write_session(mem, start, data, sent) == mem.subrange(0, start as int) + data + mem.subrange(
            (start + data.len()) as int,
            mem.len() as int,
        ),
    decreases data.len() - sent,
{
    if sent >= data.len() {
        assert(data.subrange(0, sent as int) =~= data);
        assert(mem =~= mem.subrange(0, start as int) + mem.subrange(start as int, (start + sent) as int)
            + mem.subrange((start + data.len()) as int, mem.len() as int));
    } else {
        let n = chunk_len(data.len(), sent);
        let addr = start + sent;
        let payload = data.subrange(sent as int, (sent + n) as int);
        let mem2 = mem.subrange(0, addr as int) + payload + mem.subrange((addr + n) as int, mem.len() as int);
        assert(mem2.len() == mem.len());
        assert(mem2.subrange(start as int, (start + sent + n) as int) =~= data.subrange(0, (sent + n) as int));
        lemma_write_session(mem2, start, data, sent + n);
        assert(mem2.subrange(0, start as int) =~= mem.subrange(0, start as int));
        assert(mem2.subrange((start + data.len()) as int, mem2.len() as int) =~= mem.subrange(
            (start + data.len()) as int,
            mem.len() as int,
        ));
    }
}

/// Law: applying the frames of a block write of `data` at `start` replaces
/// exactly that range of the memory with `data` and leaves the rest alone.
pub proof fn write_session_stores_data(mem: Seq<u8>, start: nat, data: Seq<u8>)
    requires
        start + data.len() <= mem.len(),
    ensures
        write_session(mem, start, data, 0) == mem.subrange(0, start as int) + data + mem.subrange(
            (start + data.len()) as int,
            mem.len() as int,
        ),
{
    assert(mem.subrange(start as int, start as int) =~= data.subrange(0, 0));
    lemma_write_session(mem, start, data, 0);
}

/// Law: reading back the range of a block write gives the written data.
pub proof fn read_after_write(mem: Seq<u8>, start: nat, data: Seq<u8>)
    requires
        start + data.len() <= mem.len(),
    ensures
        read_session(write_session(mem, start, data, 0), start, data.len(), Seq::<u8>::empty()) == data,
{
    write_session_stores_data(mem, start, data);
    let m2 = write_session(mem, start, data, 0);
    read_session_gives_memory_range(m2, start, data.len());
    assert(m2.subrange(start as int, (start + data.len()) as int) =~= data);
}

} // verus!
