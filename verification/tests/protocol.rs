use onerom_honda::checksum::checksum8;
use onerom_honda::ostrich::{
    check_probe_reply, decode_read_byte_reply, probe_command, read_byte_command, read_chunk_command, rom_address,
    write_chunk_frame, BlockReader, BlockWriter, OstrichError, OSTRICH_ADDR_BASE, REPLY_OK,
};
use onerom_honda::settings::BLINK_OFFSET;

fn device_memory() -> Vec<u8> {
    (0..0x1_0000usize).map(|i| ((i * 7 + i / 256) % 256) as u8).collect()
}

#[test]
fn checksum_wraps_modulo_256() {
    assert_eq!(checksum8(&[]), 0);
    assert_eq!(checksum8(&[0x52, 0x01, 0xE0, 0x20]), 0x53);
    assert_eq!(checksum8(&[0xFF, 0x01]), 0x00);
    assert_eq!(checksum8(&[0x80; 3]), 0x80);
}

#[test]
fn checksum_of_concatenation_is_wrapping_sum() {
    let a = [0x10u8, 0xF0, 0x33];
    let b = [0xAAu8, 0x99];
    let ab: Vec<u8> = a.iter().chain(b.iter()).copied().collect();
    assert_eq!(checksum8(&ab), checksum8(&a).wrapping_add(checksum8(&b)));
}

#[test]
fn probe_is_two_v_bytes() {
    assert_eq!(probe_command(), vec![b'V', b'V']);
}

#[test]
fn probe_reply_must_report_ostrich_channel() {
    assert_eq!(check_probe_reply(&[0x09, 0x61, b'O']), Ok(()));
    assert_eq!(check_probe_reply(&[0x09, 0x61, b'X']), Err(OstrichError::BadProbe { type_byte: b'X' }));
}

#[test]
fn read_byte_command_layout() {
    assert_eq!(read_byte_command(0xE020), vec![0x52, 0x01, 0xE0, 0x20, 0x53]);
    assert_eq!(read_byte_command(0x8000), vec![0x52, 0x01, 0x80, 0x00, 0xD3]);
}

#[test]
fn aligned_full_chunk_uses_block_read() {
    assert_eq!(read_chunk_command(0x8000, 256), vec![0x5A, 0x52, 0x01, 0x00, 0x80, 0x2D]);
}

#[test]
fn unaligned_full_chunk_uses_size_zero() {
    assert_eq!(read_chunk_command(0x8001, 256), vec![0x52, 0x00, 0x80, 0x01, 0xD3]);
}

#[test]
fn short_chunk_uses_byte_read() {
    assert_eq!(read_chunk_command(0x8010, 16), vec![0x52, 0x10, 0x80, 0x10, 0xF2]);
}

#[test]
fn read_byte_reply_checks_echo() {
    assert_eq!(decode_read_byte_reply(0x6020, &[0x42, 0x42]), Ok(0x42));
    assert_eq!(
        decode_read_byte_reply(0x6020, &[0x42, 0x41]),
        Err(OstrichError::ReadChecksum { addr: 0x6020, data: 0x42, sum: 0x41 })
    );
}

#[test]
fn small_write_frame_layout() {
    assert_eq!(write_chunk_frame(0x8020, &[1, 2, 3]), vec![0x57, 0x03, 0x80, 0x20, 1, 2, 3, 0x00]);
}

#[test]
fn block_write_frame_layout() {
    let payload = vec![0x01u8; 256];
    let frame = write_chunk_frame(0x8100, &payload);
    assert_eq!(frame.len(), 5 + 256 + 1);
    assert_eq!(&frame[..5], &[0x5A, 0x57, 0x01, 0x00, 0x81]);
    assert!(frame[5..261].iter().all(|&b| b == 1));
    assert_eq!(frame[261], 0x33);
}

#[test]
fn reader_refuses_range_past_address_space() {
    assert!(matches!(
        BlockReader::new(0xFF00, 0x101),
        Err(OstrichError::RangeExceeded { start: 0xFF00, len: 0x101 })
    ));
    assert!(BlockReader::new(0xFF00, 0x100).is_ok());
}

#[test]
fn empty_read_is_done_at_once() {
    let rd = BlockReader::new(0x1234, 0).unwrap();
    assert!(rd.is_done());
    assert!(rd.next_request().is_none());
    assert_eq!(rd.into_data(), Vec::<u8>::new());
}

#[test]
fn block_read_collects_memory_range() {
    let mem = device_memory();
    let start: u16 = 0x80F0;
    let size: usize = 0x130;
    let mut rd = BlockReader::new(start, size).unwrap();
    let mut requests = Vec::new();
    while let Some(req) = rd.next_request() {
        let a = req.addr as usize;
        let chunk = mem[a..a + req.len].to_vec();
        let sum = checksum8(&chunk);
        requests.push((req.addr, req.len, req.command.clone()));
        assert_eq!(rd.accept_chunk(&chunk, sum), Ok(()));
    }
    assert_eq!(requests.len(), 2);
    assert_eq!(requests[0].0, 0x80F0);
    assert_eq!(requests[0].1, 256);
    assert_eq!(requests[0].2, read_chunk_command(0x80F0, 256));
    assert_eq!(requests[0].2[0], b'R');
    assert_eq!(requests[1].0, 0x81F0);
    assert_eq!(requests[1].1, 0x30);
    let data = rd.into_data();
    assert_eq!(data, mem[0x80F0..0x80F0 + 0x130].to_vec());
}

#[test]
fn aligned_block_read_asks_with_zr() {
    let mut rd = BlockReader::new(0x8000, 512).unwrap();
    let req = rd.next_request().unwrap();
    assert_eq!(&req.command[..2], &[b'Z', b'R']);
    let chunk = vec![7u8; 256];
    rd.accept_chunk(&chunk, checksum8(&chunk)).unwrap();
    let req2 = rd.next_request().unwrap();
    assert_eq!(req2.addr, 0x8100);
    assert_eq!(req2.command, vec![0x5A, 0x52, 0x01, 0x00, 0x81, 0x2E]);
}

#[test]
fn bad_chunk_checksum_keeps_reader_in_place() {
    let mut rd = BlockReader::new(0x8000, 16).unwrap();
    let chunk = vec![1u8; 16];
    assert_eq!(
        rd.accept_chunk(&chunk, 0x11),
        Err(OstrichError::ChunkChecksum { addr: 0x8000, got: 0x11, calc: 0x10 })
    );
    assert!(!rd.is_done());
    let req = rd.next_request().unwrap();
    assert_eq!(req.addr, 0x8000);
    assert_eq!(req.len, 16);
    assert_eq!(rd.accept_chunk(&chunk, 0x10), Ok(()));
    assert!(rd.is_done());
}

#[test]
fn writer_refuses_empty_and_oversized_writes() {
    assert!(matches!(BlockWriter::new(0x8000, Vec::new()), Err(OstrichError::NoData)));
    assert!(matches!(
        BlockWriter::new(0xFFFF, vec![1, 2]),
        Err(OstrichError::RangeExceeded { start: 0xFFFF, len: 2 })
    ));
}

#[test]
fn block_write_then_read_back() {
    let mut mem = device_memory();
    let data: Vec<u8> = (0..300usize).map(|i| (255 - i % 256) as u8).collect();
    let mut wr = BlockWriter::new(0x8000, data.clone()).unwrap();
    let mut frames = 0;
    while let Some(f) = wr.next_frame() {
        frames += 1;
        let hdr = if f.len == 256 && f.addr % 256 == 0 { 5 } else { 4 };
        let payload = &f.frame[hdr..hdr + f.len];
        assert_eq!(f.frame[f.frame.len() - 1], checksum8(&f.frame[..f.frame.len() - 1]));
        let a = f.addr as usize;
        mem[a..a + f.len].copy_from_slice(payload);
        assert_eq!(wr.accept_ack(REPLY_OK), Ok(()));
    }
    assert_eq!(frames, 2);
    let mut rd = BlockReader::new(0x8000, 300).unwrap();
    while let Some(req) = rd.next_request() {
        let a = req.addr as usize;
        let chunk = mem[a..a + req.len].to_vec();
        rd.accept_chunk(&chunk, checksum8(&chunk)).unwrap();
    }
    assert_eq!(rd.into_data(), data);
}

#[test]
fn nack_keeps_writer_in_place() {
    let mut wr = BlockWriter::new(0x8010, vec![9, 8, 7]).unwrap();
    let f = wr.next_frame().unwrap();
    assert_eq!(f.frame, vec![0x57, 0x03, 0x80, 0x10, 9, 8, 7, 0x02]);
    assert_eq!(wr.accept_ack(b'N'), Err(OstrichError::Nack { addr: 0x8010, got: b'N' }));
    assert!(!wr.is_done());
    let again = wr.next_frame().unwrap();
    assert_eq!(again.frame, f.frame);
    assert_eq!(wr.accept_ack(b'O'), Ok(()));
    assert!(wr.is_done());
    assert!(wr.next_frame().is_none());
}

#[test]
fn blink_byte_is_verified_at_e020() {
    assert_eq!(OSTRICH_ADDR_BASE, 0x8000);
    assert_eq!(rom_address(BLINK_OFFSET), 0xE020);
    assert_eq!(rom_address(0x9000), 0x1000);
    assert_eq!(read_byte_command(rom_address(BLINK_OFFSET)), vec![0x52, 0x01, 0xE0, 0x20, 0x53]);
}
