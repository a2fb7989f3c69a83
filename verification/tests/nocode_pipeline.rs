use flute_core::alc::{AlcPkt, PayloadID};
use flute_core::blockdecoder::BlockDecoder;
use flute_core::blockwriter::BlockWriter;
use flute_core::lct::Cenc;
use flute_core::oti::Oti;
use flute_core::partition::BlockPartition;
use flute_core::udpendpoint::UDPEndpoint;
use flute_core::writer::{ObjectMetadata, ObjectWriter, ObjectWriterBufferBuilder};

fn test_data(len: usize) -> Vec<u8> {
    (0..len).map(|i| (i * 31 + i / 251) as u8).collect()
}

fn pkt(payload: &[u8]) -> AlcPkt {
    AlcPkt { data: payload.to_vec(), data_payload_offset: 0 }
}

fn pid(sbn: u32, esi: u32) -> PayloadID {
    PayloadID { sbn, esi, source_block_length: None }
}

fn meta() -> ObjectMetadata {
    ObjectMetadata {
        content_location: String::from("file:///object.bin"),
        content_length: None,
        content_type: None,
        cenc: Cenc::Null,
        md5: None,
        oti: None,
    }
}

fn buffer_writer(md5: bool) -> flute_core::writer::ObjectWriterBuffer {
    let builder = ObjectWriterBufferBuilder::new(md5);
    let endpoint = UDPEndpoint::new(None, String::from("224.0.0.1"), 3400);
    builder.new_object_writer(&endpoint, &1, &42, meta(), 0)
}

/// Symbols of one block, as the sender cuts them.
fn block_symbols(block: &[u8], symbol_len: usize) -> Vec<Vec<u8>> {
    block.chunks(symbol_len).map(|c| c.to_vec()).collect()
}

#[test]
fn one_mebibyte_delivers_exactly_once() {
    // 1 MiB object, 1024-byte symbols, 512 symbols per block: two source
    // blocks, all packets in order, the sink sees exactly 1 048 576 bytes.
    let data = test_data(1_048_576);
    let oti = Oti::new_no_code(1024, 512).unwrap();
    let p = BlockPartition::compute(data.len() as u64, 1024, 512);
    assert_eq!(p.nb_block, 2);

    let mut writer = buffer_writer(true);
    let mut bw = BlockWriter::new(data.len(), None, Cenc::Null, true);

    let mut offset = 0usize;
    for sbn in 0..p.nb_block as u32 {
        let nb_symbols = p.block_length(sbn) as usize;
        let block_size = nb_symbols * 1024;
        let block = &data[offset..offset + block_size.min(data.len() - offset)];
        offset += block.len();

        let mut dec = BlockDecoder::new();
        dec.init(&oti, nb_symbols as u32, block.len(), sbn).unwrap();
        for (esi, sym) in block_symbols(block, 1024).iter().enumerate() {
            dec.push(&pkt(sym), &pid(sbn, esi as u32));
        }
        assert!(dec.completed);
        assert!(bw.write(sbn, &dec, &mut writer, 7).unwrap());
    }

    assert!(bw.is_completed());
    assert_eq!(bw.left(), 0);
    assert_eq!(writer.data.len(), 1_048_576);
    assert_eq!(writer.data, data);

    // Sealed digest matches an independent computation.
    let mut ctx = md5::Context::new();
    ctx.consume(&data);
    let expected =
        base64::Engine::encode(&base64::engine::general_purpose::STANDARD, ctx.finalize().0);
    assert_eq!(bw.get_md5(), Some(expected.as_str()));
    assert!(bw.check_md5(&expected));
    assert!(!bw.check_md5("AAAAAAAAAAAAAAAAAAAAAA=="));

    writer.complete(9);
    assert!(writer.complete);
    assert!(!writer.error);
    assert_eq!(writer.end_time, Some(9));
}

#[test]
fn reordered_and_duplicated_packets_change_nothing() {
    // Push the same block's symbols in reverse and twice over: the decoded
    // block is identical to the in-order delivery.
    let block = test_data(8 * 100 + 37);  // last symbol short
    let oti = Oti::new_no_code(100, 16).unwrap();
    let symbols = block_symbols(&block, 100);
    let nb = symbols.len() as u32;

    let mut in_order = BlockDecoder::new();
    in_order.init(&oti, nb, block.len(), 0).unwrap();
    for (esi, sym) in symbols.iter().enumerate() {
        in_order.push(&pkt(sym), &pid(0, esi as u32));
    }
    assert!(in_order.completed);

    let mut shuffled = BlockDecoder::new();
    shuffled.init(&oti, nb, block.len(), 0).unwrap();
    for (esi, sym) in symbols.iter().enumerate().rev() {
        shuffled.push(&pkt(sym), &pid(0, esi as u32));
    }
    assert!(shuffled.completed);
    // Duplicates after completion are ignored.
    for (esi, sym) in symbols.iter().enumerate() {
        shuffled.push(&pkt(sym), &pid(0, esi as u32));
    }

    assert_eq!(in_order.source_block().unwrap(), &block[..]);
    assert_eq!(shuffled.source_block().unwrap(), &block[..]);
}

#[test]
fn duplicate_esi_keeps_first_symbol() {
    let oti = Oti::new_no_code(4, 16).unwrap();
    let mut dec = BlockDecoder::new();
    dec.init(&oti, 2, 8, 0).unwrap();
    dec.push(&pkt(&[1, 2, 3, 4]), &pid(0, 0));
    // A second symbol for ESI 0 is ignored.
    dec.push(&pkt(&[9, 9, 9, 9]), &pid(0, 0));
    dec.push(&pkt(&[5, 6, 7, 8]), &pid(0, 1));
    assert!(dec.completed);
    assert_eq!(dec.source_block().unwrap(), &[1, 2, 3, 4, 5, 6, 7, 8]);
}

#[test]
fn blocks_are_never_written_out_of_order() {
    // Offering block 1 before block 0 is refused and writes nothing.
    let data = test_data(64);
    let oti = Oti::new_no_code(8, 4).unwrap();

    let mut blocks = Vec::new();
    for sbn in 0..2u32 {
        let part = &data[(sbn as usize) * 32..(sbn as usize + 1) * 32];
        let mut dec = BlockDecoder::new();
        dec.init(&oti, 4, 32, sbn).unwrap();
        for (esi, sym) in block_symbols(part, 8).iter().enumerate() {
            dec.push(&pkt(sym), &pid(sbn, esi as u32));
        }
        assert!(dec.completed);
        blocks.push(dec);
    }

    let mut writer = buffer_writer(false);
    let mut bw = BlockWriter::new(64, None, Cenc::Null, false);

    assert!(!bw.write(1, &blocks[1], &mut writer, 0).unwrap());
    assert_eq!(writer.data.len(), 0);
    assert!(bw.write(0, &blocks[0], &mut writer, 0).unwrap());
    assert_eq!(writer.data.len(), 32);
    assert!(bw.write(1, &blocks[1], &mut writer, 0).unwrap());
    assert_eq!(writer.data, data);
    assert!(bw.is_completed());
    // A completed object accepts no further block.
    assert!(!bw.write(2, &blocks[1], &mut writer, 0).unwrap());
}

#[test]
fn last_symbol_truncation_matches_transfer_length() {
    // 3 symbols of 10 bytes announced, but the object is 25 bytes: the block
    // decoder returns 30 bytes (10+10+5 short last symbol also allowed), and
    // the block writer trims the write to the transfer length.
    let data = test_data(25);
    let oti = Oti::new_no_code(10, 8).unwrap();
    let symbols = block_symbols(&data, 10);
    assert_eq!(symbols.len(), 3);
    assert_eq!(symbols[2].len(), 5);

    let mut dec = BlockDecoder::new();
    dec.init(&oti, 3, 25, 0).unwrap();
    for (esi, sym) in symbols.iter().enumerate() {
        dec.push(&pkt(sym), &pid(0, esi as u32));
    }
    assert!(dec.completed);

    let mut writer = buffer_writer(false);
    let mut bw = BlockWriter::new(25, None, Cenc::Null, false);
    assert!(bw.write(0, &dec, &mut writer, 0).unwrap());
    assert!(bw.is_completed());
    assert_eq!(writer.data, data);
}

#[test]
fn error_and_interrupted_mark_the_buffer() {
    let mut writer = buffer_writer(false);
    writer.write(0, &[1, 2, 3], 5).unwrap();
    writer.error(6);
    assert!(writer.error);
    assert!(!writer.complete);
    assert_eq!(writer.end_time, Some(6));

    let mut writer2 = buffer_writer(false);
    writer2.interrupted(8);
    assert!(writer2.error);
    assert_eq!(writer2.end_time, Some(8));
    assert!(!writer2.enable_md5_check());
}
