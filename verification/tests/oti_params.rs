use flute_core::errors::ErrorKind;
use flute_core::oti::{FECEncodingID, Oti, SchemeSpecific};

#[test]
fn no_code_accepts_basic_parameters() {
    let oti = Oti::new_no_code(1024, 512).unwrap();
    assert_eq!(oti.fec_encoding_id, FECEncodingID::NoCode);
    assert_eq!(oti.encoding_symbol_length, 1024);
    assert_eq!(oti.maximum_source_block_length, 512);
    assert_eq!(oti.max_number_of_parity_symbols, 0);
    assert!(oti.scheme_specific.is_none());
}

#[test]
fn constructors_reject_zero_symbol_length() {
    assert!(Oti::new_no_code(0, 512).is_err());
    assert!(Oti::new_reed_solomon_rs28(0, 200, 50).is_err());
    assert!(Oti::new_reed_solomon_rs28_under_specified(0, 200, 50).is_err());
    assert!(Oti::new_raptor(0, 1024, 256, 4).is_err());
    assert!(Oti::new_raptorq(0, 120, 100, 1, 8).is_err());
}

#[test]
fn reed_solomon_rejects_k_plus_r_over_255() {
    // 200 + 56 = 256 > 255 is refused; 200 + 55 = 255 passes.
    assert!(Oti::new_reed_solomon_rs28(1400, 200, 56).is_err());
    let ok = Oti::new_reed_solomon_rs28(1400, 200, 55).unwrap();
    assert_eq!(ok.maximum_source_block_length, 200);
    assert_eq!(ok.max_number_of_parity_symbols, 55);
    let err = Oti::new_reed_solomon_rs28(1400, 255, 255).unwrap_err();
    assert_eq!(err.kind, ErrorKind::Config);
}

#[test]
fn raptorq_rejects_misaligned_symbol_length() {
    // 38912 is a multiple of 8; 38913 is not.
    assert!(Oti::new_raptorq(38912, 120, 100, 1, 8).is_ok());
    assert!(Oti::new_raptorq(38913, 120, 100, 1, 8).is_err());
    assert!(Oti::new_raptorq(1024, 120, 100, 1, 0).is_err());
    assert!(Oti::new_raptorq(1024, 120, 100, 0, 8).is_err());
}

#[test]
fn raptorq_scheme_specific_is_kept() {
    let oti = Oti::new_raptorq(1472, 500, 30, 1, 8).unwrap();
    match oti.scheme_specific {
        Some(SchemeSpecific::RaptorQ(s)) => {
            assert_eq!(s.sub_blocks_length, 1);
            assert_eq!(s.symbol_alignment, 8);
        }
        _ => panic!("RaptorQ OTI must carry its scheme-specific block"),
    }
}

#[test]
fn raptor_rejects_oversized_block_and_misalignment() {
    assert!(Oti::new_raptor(1400, 8192, 256, 4).is_ok());
    assert!(Oti::new_raptor(1400, 8193, 256, 4).is_err());
    assert!(Oti::new_raptor(1401, 1024, 256, 4).is_err());
}

#[test]
fn max_transfer_length_caps_at_scheme_limit() {
    // NoCode: 1024 * 512 * 65535 bytes, far below the 48-bit cap.
    let oti = Oti::new_no_code(1024, 512).unwrap();
    assert_eq!(oti.max_transfer_length(), 1024u64 * 512 * 65535);

    // Reed-Solomon: 255 blocks of 200 symbols of 65535 bytes.
    let rs = Oti::new_reed_solomon_rs28(65535, 200, 55).unwrap();
    assert_eq!(rs.max_transfer_length(), 65535u64 * 200 * 255);

    // RaptorQ: 255 blocks of 56403 symbols of 65528 bytes, below the 40-bit cap.
    let rq = Oti::new_raptorq(65528, 56403, 100, 1, 8).unwrap();
    assert_eq!(rq.max_transfer_length(), 65528u64 * 56403 * 255);

    // The under-specified Reed-Solomon scheme can address 2^32 - 1 blocks and
    // is capped by the 48-bit transfer-length field.
    let rsu = Oti::new_reed_solomon_rs28_under_specified(65535, 200, 55).unwrap();
    assert_eq!(rsu.max_transfer_length(), 0xFFFF_FFFF_FFFF);
}
