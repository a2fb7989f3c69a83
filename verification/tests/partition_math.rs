use flute_core::math::{div_ceil, div_floor};
use flute_core::oti::FECEncodingID;
use flute_core::partition::{
    all_checks_pass, analyze_fec_configuration, validate_fec_params, BlockPartition, FecParams,
};

#[test]
fn div_helpers_match_their_definitions() {
    assert_eq!(div_ceil(0, 7), 0);
    assert_eq!(div_ceil(1, 7), 1);
    assert_eq!(div_ceil(7, 7), 1);
    assert_eq!(div_ceil(8, 7), 2);
    assert_eq!(div_ceil(u64::MAX, 1), u64::MAX);
    assert_eq!(div_floor(8, 7), 1);
    assert_eq!(div_floor(7, 7), 1);
    assert_eq!(div_floor(0, 7), 0);
}

#[test]
fn one_mebibyte_with_nocode_splits_into_two_blocks() {
    // 1 MiB, 1024-byte symbols, at most 512 symbols per block:
    // 1024 symbols in 2 blocks of 512.
    let p = BlockPartition::compute(1_048_576, 1024, 512);
    assert_eq!(p.symbol_count, 1024);
    assert_eq!(p.nb_block, 2);
    assert_eq!(p.a_large, 512);
    assert_eq!(p.a_small, 512);
    assert_eq!(p.nb_a_large, 0);
    assert_eq!(p.block_length(0), 512);
    assert_eq!(p.block_length(1), 512);
}

#[test]
fn uneven_object_balances_blocks_within_one_symbol() {
    // 10 symbols in 3 blocks: 4 + 3 + 3.
    let p = BlockPartition::compute(10_000, 1000, 4);
    assert_eq!(p.symbol_count, 10);
    assert_eq!(p.nb_block, 3);
    assert_eq!(p.a_large, 4);
    assert_eq!(p.a_small, 3);
    assert_eq!(p.nb_a_large, 1);
    let total: u64 = (0..p.nb_block).map(|sbn| p.block_length(sbn as u32)).sum();
    assert_eq!(total, p.symbol_count);
}

#[test]
fn empty_object_has_no_blocks() {
    let p = BlockPartition::compute(0, 1024, 512);
    assert_eq!(p.symbol_count, 0);
    assert_eq!(p.nb_block, 0);
}

#[test]
fn reed_solomon_checks_flag_each_violation() {
    let params = FecParams {
        scheme: FECEncodingID::ReedSolomonGF28,
        encoding_symbol_length: 1400,
        maximum_source_block_length: 200,
        max_number_of_parity_symbols: 50,
        sub_blocks_length: None,
        symbol_alignment: None,
    };
    let checks = validate_fec_params(&params, 10 * 1024 * 1024, 38, 200);
    // 5 scheme checks + 4 common checks.
    assert_eq!(checks.len(), 9);
    assert!(all_checks_pass(&checks));

    let too_many = FecParams { max_number_of_parity_symbols: 100, ..params };
    let checks = validate_fec_params(&too_many, 10 * 1024 * 1024, 38, 200);
    // k + r = 300 > 255 fails the first check.
    assert!(!checks[0].1);
    assert!(!all_checks_pass(&checks));
}

#[test]
fn raptorq_checks_include_alignment() {
    let params = FecParams {
        scheme: FECEncodingID::RaptorQ,
        encoding_symbol_length: 38912,
        maximum_source_block_length: 120,
        max_number_of_parity_symbols: 100,
        sub_blocks_length: Some(1),
        symbol_alignment: Some(8),
    };
    let checks = validate_fec_params(&params, 1 << 30, 100, 120);
    assert_eq!(checks.len(), 9);
    // Alignment holds, but 38912 exceeds the Ethernet MTU payload.
    assert!(checks[0].1);
    assert!(!checks[checks.len() - 1].1);

    let misaligned = FecParams { encoding_symbol_length: 38913, ..params };
    let checks = validate_fec_params(&misaligned, 1 << 30, 100, 120);
    assert!(!checks[0].1);
}

#[test]
fn analyze_reports_encoded_size() {
    let params = FecParams {
        scheme: FECEncodingID::ReedSolomonGF28,
        encoding_symbol_length: 1000,
        maximum_source_block_length: 200,
        max_number_of_parity_symbols: 50,
        sub_blocks_length: None,
        symbol_alignment: None,
    };
    // 1_000_000 bytes: 1000 symbols, 5 blocks, each with 50 extra repair
    // symbols: 1250 encoded symbols, 1_250_000 bytes on the wire.
    let a = analyze_fec_configuration(&params, 1_000_000);
    assert_eq!(a.partition.symbol_count, 1000);
    assert_eq!(a.partition.nb_block, 5);
    assert_eq!(a.max_encoded_symbols, 1250);
    assert_eq!(a.transfer_length_after, 1_250_000);
    assert!(a.all_valid);
}
