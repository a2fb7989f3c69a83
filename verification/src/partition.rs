//! Source-block partitioning and FEC parameter analysis.
//!
//! An object of `transfer_length` bytes is cut into `symbol_count` symbols of
//! `encoding_symbol_length` bytes (the last one possibly short), and the
//! symbols into `nb_block` blocks: `nb_a_large` blocks of `a_large` symbols
//! followed by blocks of `a_small` symbols, so that no two blocks differ by
//! more than one symbol.

use crate::math::{div_ceil, div_floor, spec_div_ceil};
use crate::oti::{FECEncodingID, MAX_TRANSFER_LENGTH_40BIT, MAX_TRANSFER_LENGTH_48BIT};
use vstd::arithmetic::div_mod::{
    lemma_div_is_ordered, lemma_div_is_strictly_smaller, lemma_div_multiples_vanish,
    lemma_div_non_zero, lemma_div_nonincreasing, lemma_fundamental_div_mod, lemma_mod_bound,
};
use vstd::arithmetic::mul::lemma_mul_upper_bound;
use vstd::prelude::*;

verus! {

/// Largest UDP payload: 65535 minus the UDP and IP headers.
pub const UDP_MAX_PAYLOAD: u16 = 65507;

/// Largest UDP payload that fits a standard Ethernet MTU.
pub const ETHERNET_MTU_PAYLOAD: u16 = 1472;

/// How one object splits into source blocks.
#[derive(Clone, Copy, Debug, PartialEq, Eq, Structural)]
pub struct BlockPartition {
    /// Symbols the object occupies, padding excluded: `ceil(len / symbol_len)`.
    pub symbol_count: u64,
    /// Number of source blocks: `ceil(symbol_count / max_block_len)`.
    pub nb_block: u64,
    /// Symbols in each of the first `nb_a_large` blocks.
    pub a_large: u64,
    /// Symbols in each remaining block.
    pub a_small: u64,
    /// How many blocks hold `a_large` symbols.
    pub nb_a_large: u64,
}

impl BlockPartition {
    /// The defining equations of the partition for a given object size.
    pub open spec fn is_partition_of(
        &self,
        transfer_length: int,
        encoding_symbol_length: int,
        maximum_source_block_length: int,
    ) -> bool {
        if transfer_length == 0 {
            self.symbol_count == 0 && self.nb_block == 0 && self.a_large == 0 && self.a_small == 0
                && self.nb_a_large == 0
        } else {
            &&& self.symbol_count == spec_div_ceil(transfer_length, encoding_symbol_length)
            &&& self.nb_block == spec_div_ceil(
                self.symbol_count as int,
                maximum_source_block_length,
            )
            &&& self.a_large == spec_div_ceil(self.symbol_count as int, self.nb_block as int)
            &&& self.a_small == self.symbol_count as int / self.nb_block as int
            &&& self.nb_a_large == self.symbol_count as int % self.nb_block as int
        }
    }

    /// Split an object into blocks.
    pub fn compute(
        transfer_length: u64,
        encoding_symbol_length: u16,
        maximum_source_block_length: u32,
    ) -> (r: BlockPartition)
        requires
            encoding_symbol_length >= 1,
            maximum_source_block_length >= 1,
        ensures
            r.is_partition_of(
                transfer_length as int,
                encoding_symbol_length as int,
                maximum_source_block_length as int,
            ),
    {
        if transfer_length == 0 {
            return BlockPartition {
                symbol_count: 0,
                nb_block: 0,
                a_large: 0,
                a_small: 0,
                nb_a_large: 0,
            };
        }
        let symbol_count = div_ceil(transfer_length, encoding_symbol_length as u64);
        proof {
            lemma_div_ceil_pos(transfer_length as int, encoding_symbol_length as int);
        }
        let nb_block = div_ceil(symbol_count, maximum_source_block_length as u64);
        proof {
            lemma_div_ceil_pos(symbol_count as int, maximum_source_block_length as int);
        }
        let a_large = div_ceil(symbol_count, nb_block);
        let a_small = div_floor(symbol_count, nb_block);
        proof {
            lemma_fundamental_div_mod(symbol_count as int, nb_block as int);
            lemma_mod_bound(symbol_count as int, nb_block as int);
        }
        let nb_a_large = symbol_count - a_small * nb_block;
        BlockPartition { symbol_count, nb_block, a_large, a_small, nb_a_large }
    }

    /// Symbols held by block `sbn`: the first `nb_a_large` blocks are large.
    pub open spec fn spec_block_length(&self, sbn: int) -> int {
        if sbn < self.nb_a_large as int {
            self.a_large as int
        } else {
            self.a_small as int
        }
    }

    /// Symbols held by block `sbn`.
    pub fn block_length(&self, sbn: u32) -> (r: u64)
        ensures
            r == self.spec_block_length(sbn as int),
    {
        if (sbn as u64) < self.nb_a_large {
            self.a_large
        } else {
            self.a_small
        }
    }
}

/// A positive dividend gives a positive ceiling quotient.
proof fn lemma_div_ceil_pos(x: int, d: int)
    requires
        x >= 1,
        d >= 1,
    ensures
        spec_div_ceil(x, d) >= 1,
{
    if x % d == 0 {
        lemma_fundamental_div_mod(x, d);
        if x / d <= 0 {
            assert(d * (x / d) <= 0) by (nonlinear_arith)
                requires
                    d >= 1,
                    x / d <= 0,
            ;
        }
    }
}

/// The partition law of the block layout: every symbol lands in exactly one
/// block, large and small blocks differ by at most one symbol, no block
/// exceeds the configured maximum, and the symbols cover the object with less
/// than one symbol of padding.
pub proof fn lemma_partition_balanced(
    p: BlockPartition,
    transfer_length: int,
    encoding_symbol_length: int,
    maximum_source_block_length: int,
)
    requires
        transfer_length >= 1,
        encoding_symbol_length >= 1,
        maximum_source_block_length >= 1,
        p.is_partition_of(transfer_length, encoding_symbol_length, maximum_source_block_length),
    ensures
        1 <= p.nb_block <= p.symbol_count,
        p.nb_a_large < p.nb_block || (p.nb_a_large == 0 && p.nb_block == 0),
        1 <= p.a_small <= p.a_large,
        p.a_large <= p.a_small + 1,
        p.nb_a_large == 0 ==> p.a_large == p.a_small,
        p.a_large <= maximum_source_block_length,
        p.nb_a_large as int * p.a_large as int + (p.nb_block - p.nb_a_large) as int
            * p.a_small as int == p.symbol_count as int,
        p.symbol_count as int * encoding_symbol_length >= transfer_length,
        (p.symbol_count as int - 1) * encoding_symbol_length < transfer_length,
{
    let tl = transfer_length;
    let esl = encoding_symbol_length;
    let msbl = maximum_source_block_length;
    let s = p.symbol_count as int;
    let n = p.nb_block as int;
    let al = p.a_large as int;
    let small = p.a_small as int;
    let rem = p.nb_a_large as int;

    // The symbol count covers the object with less than one symbol to spare.
    lemma_fundamental_div_mod(tl, esl);
    lemma_mod_bound(tl, esl);
    let q0 = tl / esl;
    let r0 = tl % esl;
    lemma_div_ceil_pos(tl, esl);
    if r0 == 0 {
        assert(s == q0);
        assert(s * esl == esl * q0) by (nonlinear_arith)
            requires
                s == q0,
        ;
        assert((s - 1) * esl == esl * q0 - esl) by (nonlinear_arith)
            requires
                s == q0,
        ;
    } else {
        assert(s == q0 + 1);
        assert(s * esl == esl * q0 + esl) by (nonlinear_arith)
            requires
                s == q0 + 1,
        ;
        assert((s - 1) * esl == esl * q0) by (nonlinear_arith)
            requires
                s == q0 + 1,
        ;
    }

    // Block count bounds: 1 <= n <= s.
    lemma_div_ceil_pos(s, msbl);
    lemma_fundamental_div_mod(s, msbl);
    lemma_mod_bound(s, msbl);
    let q1 = s / msbl;
    let r1 = s % msbl;
    if r1 == 0 {
        lemma_div_nonincreasing(s, msbl);
        assert(n <= s);
    } else {
        if msbl == 1 {
            lemma_div_multiples_vanish(s, 1);
            assert(false);
        }
        lemma_div_is_strictly_smaller(s, msbl);
        assert(n <= s);
    }

    // s <= n * msbl: the blocks can hold every symbol.
    if r1 == 0 {
        assert(n * msbl == msbl * q1) by (nonlinear_arith)
            requires
                n == q1,
        ;
    } else {
        assert(n * msbl == msbl * q1 + msbl) by (nonlinear_arith)
            requires
                n == q1 + 1,
        ;
    }
    assert(s <= n * msbl);

    // Large and small block sizes.
    lemma_fundamental_div_mod(s, n);
    lemma_mod_bound(s, n);
    assert(s == n * small + rem) by (nonlinear_arith)
        requires
            s == n * (s / n) + s % n,
            small == s / n,
            rem == s % n,
    ;
    lemma_div_non_zero(s, n);

    // The closed-form sum: every symbol lands in exactly one block.
    if rem == 0 {
        assert(rem * al + (n - rem) * small == n * small) by (nonlinear_arith)
            requires
                rem == 0,
        ;
    } else {
        assert(al == small + 1);
        assert(rem * al + (n - rem) * small == n * small + rem) by (nonlinear_arith)
            requires
                al == small + 1,
        ;
    }

    // No block exceeds the configured maximum.
    lemma_div_is_ordered(s, n * msbl, n);
    lemma_div_multiples_vanish(msbl, n);
    assert(small <= msbl);
    if s % n != 0 {
        assert(n * small < s);
        assert(small < msbl) by (nonlinear_arith)
            requires
                n * small < s,
                s <= n * msbl,
                n >= 1,
                small <= msbl,
        ;
    }
}

/// The FEC configuration under analysis: a scheme plus its raw parameters.
#[derive(Clone, Copy, Debug)]
pub struct FecParams {
    /// Which FEC scheme the parameters describe.
    pub scheme: FECEncodingID,
    /// Size of one encoding symbol, in bytes.
    pub encoding_symbol_length: u16,
    /// Most source symbols one block may hold.
    pub maximum_source_block_length: u32,
    /// Repair symbols per block.
    pub max_number_of_parity_symbols: u32,
    /// RaptorQ only: sub-blocks per block.
    pub sub_blocks_length: Option<u16>,
    /// RaptorQ/Raptor: symbol alignment in bytes.
    pub symbol_alignment: Option<u8>,
}

/// Validate an FEC configuration against the per-scheme limits; each entry
/// names one check and tells whether it passed.
pub fn validate_fec_params(
    params: &FecParams,
    transfer_length_after: u64,
    nb_block: u64,
    _max_block_length: u64,
) -> (r: Vec<(&'static str, bool)>)
    requires
        params.scheme is RaptorQ ==> (params.symbol_alignment matches Some(a) ==> a >= 1),
    ensures
        forall|i: int|
            #![auto]
            0 <= i < r@.len() - 4 ==> r@[i].1 == spec_scheme_check(
                *params,
                transfer_length_after as int,
                nb_block as int,
                i,
            ),
        r@.len() == spec_scheme_check_count(*params) + 4,
        r@[r@.len() - 4].1 == (params.encoding_symbol_length >= 1),
        r@[r@.len() - 3].1 == (params.maximum_source_block_length >= 1),
        r@[r@.len() - 2].1 == (params.encoding_symbol_length <= UDP_MAX_PAYLOAD),
        r@[r@.len() - 1].1 == (params.encoding_symbol_length <= ETHERNET_MTU_PAYLOAD),
{
    let mut results: Vec<(&'static str, bool)> = Vec::new();

    match params.scheme {
        FECEncodingID::RaptorQ => {
            if let Some(alignment) = params.symbol_alignment {
                let alignment_valid = (params.encoding_symbol_length % alignment as u16) == 0;
                results.push(("symbol alignment", alignment_valid));
            }
            let transfer_length_valid = transfer_length_after <= MAX_TRANSFER_LENGTH_40BIT;
            results.push(("transfer length (40-bit)", transfer_length_valid));
            results.push(("symbol length range (u16)", true));
            results.push((
                "source block length range (u16)",
                params.maximum_source_block_length <= 0xFFFF,
            ));
            results.push((
                "parity symbol range (u16)",
                params.max_number_of_parity_symbols <= 0xFFFF,
            ));
        },
        FECEncodingID::ReedSolomonGF28 => {
            let encoding_block_length = params.maximum_source_block_length as u64
                + params.max_number_of_parity_symbols as u64;
            results.push(("encoding block length (<= 255)", encoding_block_length <= 255));
            results.push((
                "source block length (<= 255)",
                params.maximum_source_block_length <= 255,
            ));
            results.push(("parity symbol range (u8)", params.max_number_of_parity_symbols <= 255));
            results.push(("block count (<= 255)", nb_block <= 255));
            results.push((
                "transfer length (48-bit)",
                transfer_length_after <= MAX_TRANSFER_LENGTH_48BIT,
            ));
        },
        FECEncodingID::ReedSolomonGF28UnderSpecified => {
            let encoding_block_length = params.maximum_source_block_length as u64
                + params.max_number_of_parity_symbols as u64;
            results.push(("encoding block length (<= 255)", encoding_block_length <= 255));
            results.push(("parity symbol range (u8)", params.max_number_of_parity_symbols <= 255));
            results.push(("block count (u32)", nb_block <= 0xFFFF_FFFF));
            results.push((
                "transfer length (48-bit)",
                transfer_length_after <= MAX_TRANSFER_LENGTH_48BIT,
            ));
        },
        FECEncodingID::Raptor => {
            results.push((
                "transfer length (48-bit)",
                transfer_length_after <= MAX_TRANSFER_LENGTH_48BIT,
            ));
            results.push(("symbol length range (u16)", true));
            results.push(("source block length range (u32)", true));
            results.push(("parity symbol range (u32)", true));
        },
        FECEncodingID::NoCode => {
            results.push((
                "transfer length (48-bit)",
                transfer_length_after <= MAX_TRANSFER_LENGTH_48BIT,
            ));
            results.push(("no parity symbols", params.max_number_of_parity_symbols == 0));
            results.push(("symbol length range (u16)", true));
            results.push(("source block length range (u32)", true));
        },
    }

    results.push(("symbol length non-zero", params.encoding_symbol_length >= 1));
    results.push(("source block length non-zero", params.maximum_source_block_length >= 1));
    results.push(("UDP payload limit (<= 65507)", params.encoding_symbol_length <= UDP_MAX_PAYLOAD));
    results.push((
        "Ethernet MTU compatible (<= 1472)",
        params.encoding_symbol_length <= ETHERNET_MTU_PAYLOAD,
    ));

    results
}

/// How many scheme-specific checks `validate_fec_params` reports.
pub open spec fn spec_scheme_check_count(params: FecParams) -> int {
    match params.scheme {
        FECEncodingID::RaptorQ => if params.symbol_alignment is Some {
            5
        } else {
            4
        },
        FECEncodingID::ReedSolomonGF28 => 5,
        FECEncodingID::ReedSolomonGF28UnderSpecified => 4,
        FECEncodingID::Raptor => 4,
        FECEncodingID::NoCode => 4,
    }
}

/// The value of the `i`-th scheme-specific check of `validate_fec_params`.
pub open spec fn spec_scheme_check(
    params: FecParams,
    transfer_length_after: int,
    nb_block: int,
    i: int,
) -> bool {
    match params.scheme {
        FECEncodingID::RaptorQ => {
            let base: Seq<bool> = seq![
                transfer_length_after <= MAX_TRANSFER_LENGTH_40BIT as int,
                true,
                params.maximum_source_block_length <= 0xFFFF,
                params.max_number_of_parity_symbols <= 0xFFFF,
            ];
            let checks: Seq<bool> = match params.symbol_alignment {
                Some(a) => seq![params.encoding_symbol_length as int % a as int == 0].add(base),
                None => base,
            };
            checks[i]
        },
        FECEncodingID::ReedSolomonGF28 => {
            let checks: Seq<bool> = seq![
                params.maximum_source_block_length as int
                    + params.max_number_of_parity_symbols as int <= 255,
                params.maximum_source_block_length <= 255,
                params.max_number_of_parity_symbols <= 255,
                nb_block <= 255,
                transfer_length_after <= MAX_TRANSFER_LENGTH_48BIT as int,
            ];
            checks[i]
        },
        FECEncodingID::ReedSolomonGF28UnderSpecified => {
            let checks: Seq<bool> = seq![
                params.maximum_source_block_length as int
                    + params.max_number_of_parity_symbols as int <= 255,
                params.max_number_of_parity_symbols <= 255,
                nb_block <= 0xFFFF_FFFF,
                transfer_length_after <= MAX_TRANSFER_LENGTH_48BIT as int,
            ];
            checks[i]
        },
        FECEncodingID::Raptor => {
            let checks: Seq<bool> = seq![
                transfer_length_after <= MAX_TRANSFER_LENGTH_48BIT as int,
                true,
                true,
                true,
            ];
            checks[i]
        },
        FECEncodingID::NoCode => {
            let checks: Seq<bool> = seq![
                transfer_length_after <= MAX_TRANSFER_LENGTH_48BIT as int,
                params.max_number_of_parity_symbols == 0,
                true,
                true,
            ];
            checks[i]
        },
    }
}

/// True when every reported check passed.
pub fn all_checks_pass(checks: &Vec<(&'static str, bool)>) -> (r: bool)
    ensures
        r <==> forall|i: int| 0 <= i < checks@.len() ==> #[trigger] checks@[i].1,
{
    let mut i: usize = 0;
    while i < checks.len()
        invariant
            0 <= i <= checks@.len(),
            forall|j: int| 0 <= j < i ==> #[trigger] checks@[j].1,
        decreases checks@.len() - i,
    {
        if !checks[i].1 {
            return false;
        }
        i += 1;
    }
    true
}

/// Outcome of analysing one FEC configuration against an object size.
pub struct FecAnalysis {
    /// How the object splits into blocks.
    pub partition: BlockPartition,
    /// Symbols on the wire once every block carries its repair symbols.
    pub max_encoded_symbols: u64,
    /// Bytes on the wire for those symbols.
    pub transfer_length_after: u64,
    /// The per-scheme validation report.
    pub checks: Vec<(&'static str, bool)>,
    /// Whether every check passed.
    pub all_valid: bool,
}

/// Size of the encoded object: `(S + nb_block * parity) * symbol_length`,
/// capped at `u64::MAX` (a value that large always fails the length checks).
pub open spec fn spec_encoded_symbols(p: BlockPartition, parity: int) -> int {
    p.symbol_count as int + p.nb_block as int * parity
}

/// Analyse one FEC configuration against an object of `transfer_length`
/// bytes: partition it, size the encoded stream, and run the validity checks.
pub fn analyze_fec_configuration(params: &FecParams, transfer_length: u64) -> (a: FecAnalysis)
    requires
        params.scheme is RaptorQ ==> (params.symbol_alignment matches Some(al) ==> al >= 1),
        params.encoding_symbol_length >= 1,
        params.maximum_source_block_length >= 1,
    ensures
        a.partition.is_partition_of(
            transfer_length as int,
            params.encoding_symbol_length as int,
            params.maximum_source_block_length as int,
        ),
        a.max_encoded_symbols as int == spec_min_u64(
            spec_encoded_symbols(a.partition, params.max_number_of_parity_symbols as int),
        ),
        a.transfer_length_after as int == spec_min_u64(
            a.max_encoded_symbols as int * params.encoding_symbol_length as int,
        ),
        a.all_valid <==> (forall|i: int| 0 <= i < a.checks@.len() ==> #[trigger] a.checks@[i].1),
{
    let partition = BlockPartition::compute(
        transfer_length,
        params.encoding_symbol_length,
        params.maximum_source_block_length,
    );
    proof {
        lemma_mul_upper_bound(
            partition.nb_block as int,
            u64::MAX as int,
            params.max_number_of_parity_symbols as int,
            u32::MAX as int,
        );
    }
    let encoded_symbols: u128 = partition.symbol_count as u128 + partition.nb_block as u128
        * params.max_number_of_parity_symbols as u128;
    let max_encoded_symbols: u64 = if encoded_symbols > u64::MAX as u128 {
        u64::MAX
    } else {
        encoded_symbols as u64
    };
    proof {
        lemma_mul_upper_bound(
            max_encoded_symbols as int,
            u64::MAX as int,
            params.encoding_symbol_length as int,
            u16::MAX as int,
        );
    }
    let encoded_bytes: u128 = max_encoded_symbols as u128 * params.encoding_symbol_length as u128;
    let transfer_length_after: u64 = if encoded_bytes > u64::MAX as u128 {
        u64::MAX
    } else {
        encoded_bytes as u64
    };
    let checks = validate_fec_params(
        params,
        transfer_length_after,
        partition.nb_block,
        if partition.a_large > partition.a_small {
            partition.a_large
        } else {
            partition.a_small
        },
    );
    let all_valid = all_checks_pass(&checks);
    let ghost checks_view = checks@;
    let result = FecAnalysis {
        partition,
        max_encoded_symbols,
        transfer_length_after,
        checks,
        all_valid,
    };
    proof {
        assert(result.checks@ == checks_view);
        assert forall|i: int| 0 <= i < checks_view.len() implies (#[trigger] checks_view[i].1
            == result.checks@[i].1) by {}
        assert forall|i: int| 0 <= i < result.checks@.len() implies (#[trigger] result.checks@[i].1
            == checks_view[i].1) by {}
    }
    result
}

/// Cap a mathematical value at `u64::MAX`.
pub open spec fn spec_min_u64(x: int) -> int {
    if x <= u64::MAX as int {
        x
    } else {
        u64::MAX as int
    }
}

} // verus!
