use flute_core::alc::{AlcPkt, PayloadID};
use flute_core::blockdecoder::BlockDecoder;
use flute_core::blockwriter::BlockWriter;
use flute_core::lct::Cenc;
use flute_core::oti::Oti;
use flute_core::partition::BlockPartition;
use flute_core::rscodec::RsGalois8Codec;
use flute_core::udpendpoint::UDPEndpoint;
use flute_core::writer::{ObjectMetadata, ObjectWriterBufferBuilder};

fn test_data(len: usize) -> Vec<u8> {
    (0..len).map(|i| (i * 7 + i / 127) as u8).collect()
}

fn pkt(payload: &[u8]) -> AlcPkt {
    AlcPkt { data: payload.to_vec(), data_payload_offset: 0 }
}

fn pid(sbn: u32, esi: u32) -> PayloadID {
    PayloadID { sbn, esi, source_block_length: None }
}

/// Encode one block with the Reed-Solomon crate: `k` data shards (the block,
/// zero-padded to whole symbols) plus `r` parity shards.
fn rs_encode(block: &[u8], k: usize, r: usize, symbol_len: usize) -> Vec<Vec<u8>> {
    let mut shards: Vec<Vec<u8>> = Vec::new();
    for i in 0..k {
        let mut s = vec![0u8; symbol_len];
        let start = i * symbol_len;
        if start < block.len() {
            let end = (start + symbol_len).min(block.len());
            s[..end - start].copy_from_slice(&block[start..end]);
        }
        shards.push(s);
    }
    for _ in 0..r {
        shards.push(vec![0u8; symbol_len]);
    }
    let rs = reed_solomon_erasure::galois_8::ReedSolomon::new(k, r).unwrap();
    rs.encode(&mut shards).unwrap();
    shards
}

#[test]
fn any_k_of_k_plus_r_symbols_reconstruct_the_block() {
    let k = 8;
    let r = 4;
    let e = 64;
    let block = test_data(k * e);
    let shards = rs_encode(&block, k, r, e);

    // Drop the first r source symbols; feed the rest plus all parity.
    let mut codec = RsGalois8Codec::new(k, r, e).unwrap();
    for esi in r..k + r {
        codec.push_symbol(&shards[esi], esi as u32);
    }
    assert!(codec.can_decode());
    assert!(codec.decode());
    assert_eq!(codec.source_block().unwrap().as_slice(), &block[..]);
}

#[test]
fn fewer_than_k_symbols_do_not_decode() {
    let k = 8;
    let r = 4;
    let e = 64;
    let block = test_data(k * e);
    let shards = rs_encode(&block, k, r, e);

    let mut codec = RsGalois8Codec::new(k, r, e).unwrap();
    for esi in 0..k - 1 {
        codec.push_symbol(&shards[esi], esi as u32);
    }
    assert!(!codec.can_decode());
    assert!(!codec.decode());
    assert!(codec.source_block().is_none());
}

#[test]
fn rejected_codec_parameters_report_codec_errors() {
    assert_eq!(
        RsGalois8Codec::new(0, 1, 4).unwrap_err().kind,
        flute_core::errors::ErrorKind::Codec
    );
    assert_eq!(
        RsGalois8Codec::new(200, 56, 4).unwrap_err().kind,
        flute_core::errors::ErrorKind::Codec
    );
}

#[test]
fn wrong_length_symbols_are_ignored() {
    let mut codec = RsGalois8Codec::new(2, 1, 4).unwrap();
    codec.push_symbol(&[1, 2, 3], 0); // too short: ignored
    codec.push_symbol(&[1, 2, 3, 4, 5], 1); // too long: ignored
    assert!(!codec.can_decode());
}

#[test]
fn object_survives_dropping_fifty_symbols_per_block() {
    // Reed-Solomon GF(2^8), k = 200, r = 50; the receiver loses the first 50
    // symbols of every block and still rebuilds the object byte for byte.
    let data = test_data(400 * 1024);
    let e = 1024usize;
    let k = 200usize;
    let r = 50usize;
    let oti = Oti::new_reed_solomon_rs28(e as u16, k as u8, r as u8).unwrap();
    let p = BlockPartition::compute(data.len() as u64, e as u16, k as u32);

    let builder = ObjectWriterBufferBuilder::new(true);
    let endpoint = UDPEndpoint::new(None, String::from("224.0.0.1"), 3400);
    let meta = ObjectMetadata {
        content_location: String::from("big.bin"),
        content_length: Some(data.len() as u64),
        content_type: None,
        cenc: Cenc::Null,
        md5: None,
        oti: None,
    };
    let mut writer = builder.new_object_writer(&endpoint, &1, &7, meta, 0);
    let mut bw = BlockWriter::new(data.len(), None, Cenc::Null, true);

    let mut offset = 0usize;
    for sbn in 0..p.nb_block as u32 {
        let nb_symbols = p.block_length(sbn) as usize;
        let block_end = (offset + nb_symbols * e).min(data.len());
        let block = &data[offset..block_end];
        offset = block_end;

        let shards = rs_encode(block, nb_symbols, r, e);
        let mut dec = BlockDecoder::new();
        dec.init(&oti, nb_symbols as u32, block.len(), sbn).unwrap();
        // Drop the first 50 symbols of the block.
        for esi in 50..nb_symbols + r {
            dec.push(&pkt(&shards[esi]), &pid(sbn, esi as u32));
            if dec.completed {
                break;
            }
        }
        assert!(dec.completed, "block {} failed to decode", sbn);
        assert!(bw.write(sbn, &dec, &mut writer, 0).unwrap());
    }

    assert!(bw.is_completed());
    assert_eq!(writer.data.len(), data.len());
    assert_eq!(writer.data, data);

    let mut ctx = md5::Context::new();
    ctx.consume(&data);
    let expected =
        base64::Engine::encode(&base64::engine::general_purpose::STANDARD, ctx.finalize().0);
    assert!(bw.check_md5(&expected));
}
