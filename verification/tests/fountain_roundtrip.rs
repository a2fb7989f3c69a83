use flute_core::alc::{AlcPkt, PayloadID};
use flute_core::blockdecoder::BlockDecoder;
use flute_core::errors::ErrorKind;
use flute_core::oti::{FECEncodingID, Oti, RaptorQSchemeSpecific};
use flute_core::raptor::RaptorDecoder;
use flute_core::rq::RaptorQDecoder;

fn test_data(len: usize) -> Vec<u8> {
    (0..len).map(|i| (i * 13 + i / 89) as u8).collect()
}

#[test]
fn raptorq_block_survives_source_losses() {
    let e = 64u16;
    let k = 16usize;
    let block = test_data(k * e as usize);
    let config = raptorq::ObjectTransmissionInformation::new(0, e, 1, 1, 8);
    let encoder = raptorq::SourceBlockEncoder::new(3, &config, &block);

    let scheme = RaptorQSchemeSpecific { sub_blocks_length: 1, symbol_alignment: 8 };
    let mut dec = RaptorQDecoder::new(3, k, e as usize, &scheme).unwrap();

    // Drop the first 4 source symbols; make up for them with repair symbols.
    for pkt in encoder.source_packets().into_iter().skip(4) {
        let (pid, data) = pkt.split();
        dec.push_symbol(&data, pid.encoding_symbol_id());
    }
    for pkt in encoder.repair_packets(0, 6) {
        if dec.can_decode() {
            break;
        }
        let (pid, data) = pkt.split();
        dec.push_symbol(&data, pid.encoding_symbol_id());
    }
    assert!(dec.can_decode());
    assert_eq!(dec.source_block().unwrap().as_slice(), &block[..]);
}

#[test]
fn raptorq_all_source_symbols_suffice() {
    let e = 128u16;
    let k = 10usize;
    let block = test_data(k * e as usize);
    let config = raptorq::ObjectTransmissionInformation::new(0, e, 1, 1, 8);
    let encoder = raptorq::SourceBlockEncoder::new(0, &config, &block);

    let scheme = RaptorQSchemeSpecific { sub_blocks_length: 1, symbol_alignment: 8 };
    let mut dec = RaptorQDecoder::new(0, k, e as usize, &scheme).unwrap();
    for pkt in encoder.source_packets() {
        let (pid, data) = pkt.split();
        dec.push_symbol(&data, pid.encoding_symbol_id());
    }
    assert!(dec.can_decode());
    assert_eq!(dec.source_block().unwrap().as_slice(), &block[..]);
}

#[test]
fn raptorq_oversized_esi_is_ignored() {
    // The RaptorQ ESI field is 24 bits: a larger ESI is dropped like a
    // wrong-length payload, and decoding still goes through afterwards.
    let e = 128u16;
    let k = 10usize;
    let block = test_data(k * e as usize);
    let config = raptorq::ObjectTransmissionInformation::new(0, e, 1, 1, 8);
    let encoder = raptorq::SourceBlockEncoder::new(0, &config, &block);

    let scheme = RaptorQSchemeSpecific { sub_blocks_length: 1, symbol_alignment: 8 };
    let mut dec = RaptorQDecoder::new(0, k, e as usize, &scheme).unwrap();
    dec.push_symbol(&vec![0u8; e as usize], 0x0100_0000);
    dec.push_symbol(&vec![0u8; e as usize], u32::MAX);
    assert!(!dec.can_decode());
    for pkt in encoder.source_packets() {
        let (pid, data) = pkt.split();
        dec.push_symbol(&data, pid.encoding_symbol_id());
    }
    assert!(dec.can_decode());
    assert_eq!(dec.source_block().unwrap().as_slice(), &block[..]);
}

#[test]
fn raptorq_rejects_bad_parameters() {
    let scheme = RaptorQSchemeSpecific { sub_blocks_length: 1, symbol_alignment: 8 };
    assert!(RaptorQDecoder::new(0, 0, 64, &scheme).is_err());
    assert!(RaptorQDecoder::new(0, 16, 63, &scheme).is_err()); // misaligned
    assert!(RaptorQDecoder::new(300, 16, 64, &scheme).is_err()); // SBN > 255
}

#[test]
fn raptor_block_round_trips_with_repair() {
    // 8 source symbols of 512 bytes; lose two, decode from repair symbols.
    let k = 8usize;
    let e = 512usize;
    let block = test_data(k * e);
    let mut encoder = raptor_code::SourceBlockEncoder::new(&block, k).unwrap();
    assert_eq!(encoder.nb_source_symbols() as usize, k);

    let mut dec = RaptorDecoder::new(k, block.len(), e).unwrap();
    for esi in 2..k as u32 {
        dec.push_symbol(&encoder.fountain(esi), esi);
    }
    let mut esi = k as u32;
    while !dec.can_decode() && esi < (k + 16) as u32 {
        dec.push_symbol(&encoder.fountain(esi), esi);
        esi += 1;
    }
    assert!(dec.can_decode());
    assert_eq!(dec.source_block().unwrap().as_slice(), &block[..]);
}

#[test]
fn raptor_rejects_bad_parameters() {
    assert!(RaptorDecoder::new(0, 100, 10).is_err());
    assert!(RaptorDecoder::new(4, 100, 0).is_err());
    assert!(RaptorDecoder::new(4, 100, 20).is_err()); // block larger than k * e
}

#[test]
fn block_decoder_drives_the_raptorq_path() {
    let e = 64u16;
    let k = 12usize;
    let block = test_data(k * e as usize);
    let config = raptorq::ObjectTransmissionInformation::new(0, e, 1, 1, 8);
    let encoder = raptorq::SourceBlockEncoder::new(0, &config, &block);

    let oti = Oti::new_raptorq(e, 64, 16, 1, 8).unwrap();
    let mut dec = BlockDecoder::new();
    dec.init(&oti, k as u32, block.len(), 0).unwrap();

    // Two source symbols lost; repair symbols take their place.
    for p in encoder.source_packets().into_iter().skip(2) {
        let (pid, data) = p.split();
        dec.push(
            &AlcPkt { data, data_payload_offset: 0 },
            &PayloadID { sbn: 0, esi: pid.encoding_symbol_id(), source_block_length: None },
        );
    }
    for p in encoder.repair_packets(0, 4) {
        if dec.completed {
            break;
        }
        let (pid, data) = p.split();
        dec.push(
            &AlcPkt { data, data_payload_offset: 0 },
            &PayloadID { sbn: 0, esi: pid.encoding_symbol_id(), source_block_length: None },
        );
    }
    assert!(dec.completed);
    assert_eq!(dec.source_block().unwrap(), &block[..]);
}

#[test]
fn fountain_oti_without_scheme_block_is_refused() {
    // A RaptorQ OTI stripped of its scheme-specific block cannot build a
    // decoder.
    let mut oti = Oti::new_raptorq(64, 64, 16, 1, 8).unwrap();
    oti.scheme_specific = None;
    let mut dec = BlockDecoder::new();
    let e = dec.init(&oti, 12, 768, 0).unwrap_err();
    assert_eq!(e.kind, ErrorKind::Codec);
    assert!(!dec.initialized);

    let mut raptor_oti = Oti::new_raptor(64, 64, 16, 8).unwrap();
    raptor_oti.scheme_specific = None;
    let mut dec = BlockDecoder::new();
    assert!(dec.init(&raptor_oti, 12, 768, 0).is_err());
    assert_eq!(raptor_oti.fec_encoding_id, FECEncodingID::Raptor);
}
