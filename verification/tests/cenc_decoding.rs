use flute_core::alc::{AlcPkt, PayloadID};
use flute_core::blockdecoder::BlockDecoder;
use flute_core::blockwriter::BlockWriter;
use flute_core::lct::Cenc;
use flute_core::oti::Oti;
use flute_core::udpendpoint::UDPEndpoint;
use flute_core::writer::{ObjectMetadata, ObjectWriterBufferBuilder};
use std::io::Write;

fn test_data(len: usize) -> Vec<u8> {
    (0..len).map(|i| ((i / 64) * 3 + i % 7) as u8).collect()
}

fn compress(content: &[u8], cenc: Cenc) -> Vec<u8> {
    match cenc {
        Cenc::Zlib => {
            let mut enc = flate2::write::ZlibEncoder::new(Vec::new(), flate2::Compression::fast());
            enc.write_all(content).unwrap();
            enc.finish().unwrap()
        }
        Cenc::Deflate => {
            let mut enc =
                flate2::write::DeflateEncoder::new(Vec::new(), flate2::Compression::fast());
            enc.write_all(content).unwrap();
            enc.finish().unwrap()
        }
        Cenc::Gzip => {
            let mut enc = flate2::write::GzEncoder::new(Vec::new(), flate2::Compression::fast());
            enc.write_all(content).unwrap();
            enc.finish().unwrap()
        }
        Cenc::Null => content.to_vec(),
    }
}

/// Transfer a compressed object through the block pipeline and check the sink
/// receives the decoded content.
fn roundtrip(cenc: Cenc) {
    let content = test_data(200_000);
    let wire = compress(&content, cenc);

    let e = 1000usize;
    let msbl = 32u32;
    let oti = Oti::new_no_code(e as u16, msbl).unwrap();
    let p = flute_core::partition::BlockPartition::compute(wire.len() as u64, e as u16, msbl);

    let builder = ObjectWriterBufferBuilder::new(true);
    let endpoint = UDPEndpoint::new(None, String::from("224.0.0.1"), 3400);
    let meta = ObjectMetadata {
        content_location: String::from("compressed.bin"),
        content_length: None,
        content_type: None,
        cenc,
        md5: None,
        oti: None,
    };
    let mut writer = builder.new_object_writer(&endpoint, &1, &9, meta, 0);
    let mut bw = BlockWriter::new(wire.len(), None, cenc, true);

    let mut offset = 0usize;
    for sbn in 0..p.nb_block as u32 {
        let nb_symbols = p.block_length(sbn) as usize;
        let block_end = (offset + nb_symbols * e).min(wire.len());
        let block = &wire[offset..block_end];
        offset = block_end;

        let mut dec = BlockDecoder::new();
        dec.init(&oti, nb_symbols as u32, block.len(), sbn).unwrap();
        for (esi, sym) in block.chunks(e).enumerate() {
            dec.push(
                &AlcPkt { data: sym.to_vec(), data_payload_offset: 0 },
                &PayloadID { sbn, esi: esi as u32, source_block_length: None },
            );
        }
        assert!(dec.completed);
        assert!(bw.write(sbn, &dec, &mut writer, 0).unwrap());
    }

    assert!(bw.is_completed());
    assert_eq!(writer.data.len(), content.len());
    assert_eq!(writer.data, content);

    // The rolling MD5 covers the decoded bytes, not the wire bytes.
    let mut ctx = md5::Context::new();
    ctx.consume(&content);
    let expected =
        base64::Engine::encode(&base64::engine::general_purpose::STANDARD, ctx.finalize().0);
    assert!(bw.check_md5(&expected));
}

#[test]
fn zlib_object_is_decoded_for_the_sink() {
    roundtrip(Cenc::Zlib);
}

#[test]
fn deflate_object_is_decoded_for_the_sink() {
    roundtrip(Cenc::Deflate);
}

#[test]
fn gzip_object_is_decoded_for_the_sink() {
    roundtrip(Cenc::Gzip);
}

#[test]
fn announced_content_length_caps_the_delivery() {
    // The decoded object is 5000 bytes, but the FDT announced 1200: the sink
    // receives exactly the first 1200 decoded bytes.
    let content = test_data(5000);
    let wire = compress(&content, Cenc::Zlib);
    let oti = Oti::new_no_code(512, 64).unwrap();

    let mut dec = BlockDecoder::new();
    let nb_symbols = wire.len().div_ceil(512);
    dec.init(&oti, nb_symbols as u32, wire.len(), 0).unwrap();
    for (esi, sym) in wire.chunks(512).enumerate() {
        dec.push(
            &AlcPkt { data: sym.to_vec(), data_payload_offset: 0 },
            &PayloadID { sbn: 0, esi: esi as u32, source_block_length: None },
        );
    }
    assert!(dec.completed);

    let builder = ObjectWriterBufferBuilder::new(false);
    let endpoint = UDPEndpoint::new(None, String::from("224.0.0.1"), 3400);
    let meta = ObjectMetadata {
        content_location: String::from("short.bin"),
        content_length: Some(1200),
        content_type: None,
        cenc: Cenc::Zlib,
        md5: None,
        oti: None,
    };
    let mut writer = builder.new_object_writer(&endpoint, &1, &9, meta, 0);
    let mut bw = BlockWriter::new(wire.len(), Some(1200), Cenc::Zlib, false);
    assert!(bw.write(0, &dec, &mut writer, 0).unwrap());
    assert!(bw.is_completed());
    assert_eq!(writer.data, content[..1200].to_vec());
    // No digest was requested, so any announced digest passes vacuously.
    assert!(bw.check_md5("anything"));
    assert!(bw.get_md5().is_none());
}

#[test]
fn corrupt_stream_reports_a_codec_error() {
    let oti = Oti::new_no_code(16, 4).unwrap();
    let garbage: Vec<u8> = (0..32u8).map(|i| i.wrapping_mul(97).wrapping_add(13)).collect();

    let mut dec = BlockDecoder::new();
    dec.init(&oti, 2, 32, 0).unwrap();
    dec.push(&AlcPkt { data: garbage[..16].to_vec(), data_payload_offset: 0 }, &PayloadID {
        sbn: 0,
        esi: 0,
        source_block_length: None,
    });
    dec.push(&AlcPkt { data: garbage[16..].to_vec(), data_payload_offset: 0 }, &PayloadID {
        sbn: 0,
        esi: 1,
        source_block_length: None,
    });
    assert!(dec.completed);

    let builder = ObjectWriterBufferBuilder::new(false);
    let endpoint = UDPEndpoint::new(None, String::from("224.0.0.1"), 3400);
    let meta = ObjectMetadata {
        content_location: String::from("broken.bin"),
        content_length: None,
        content_type: None,
        cenc: Cenc::Zlib,
        md5: None,
        oti: None,
    };
    let mut writer = builder.new_object_writer(&endpoint, &1, &9, meta, 0);
    let mut bw = BlockWriter::new(32, None, Cenc::Zlib, false);
    let r = bw.write(0, &dec, &mut writer, 0);
    assert!(r.is_err());
    assert_eq!(r.unwrap_err().kind, flute_core::errors::ErrorKind::Codec);
    // The failure leaves the cursor and the remaining length untouched.
    assert_eq!(bw.left(), 32);
    assert!(!bw.is_completed());
}
