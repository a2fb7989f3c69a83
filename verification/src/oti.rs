//! Object Transmission Information: the FEC parameter block attached to every
//! transport object.
//!
//! Constructors validate the per-scheme parameter invariants and reject bad
//! combinations with a `Config` error; `max_transfer_length` gives the largest
//! object the parameters can describe.

use crate::errors::{ErrorKind, FluteError};
use vstd::arithmetic::mul::lemma_mul_upper_bound;
use vstd::prelude::*;

verus! {

/// Largest transfer length encodable in the 48-bit EXT_FTI field
/// (NoCode, Raptor, both Reed-Solomon GF(2^8) variants).
pub const MAX_TRANSFER_LENGTH_48BIT: u64 = 0xFFFF_FFFF_FFFF;

/// Largest transfer length allowed for RaptorQ (RFC 6330: 40 bits).
pub const MAX_TRANSFER_LENGTH_40BIT: u64 = 0xFF_FFFF_FFFF;

/// RFC 6330 K'_max: most source symbols a RaptorQ block may hold.
pub const RAPTORQ_MAX_SOURCE_SYMBOLS: u32 = 56403;

/// RFC 5053 bound on the source symbols of one Raptor block.
pub const RAPTOR_MAX_SOURCE_SYMBOLS: u32 = 8192;

/// FEC scheme selector carried in the LCT codepoint / FDT.
#[derive(Clone, Copy, Debug, PartialEq, Eq, Structural)]
pub enum FECEncodingID {
    /// Compact No-Code: source symbols only, no repair.
    NoCode,
    /// Reed-Solomon over GF(2^8), fully specified scheme.
    ReedSolomonGF28,
    /// Reed-Solomon over GF(2^8), under-specified scheme (large block counts).
    ReedSolomonGF28UnderSpecified,
    /// Raptor (RFC 5053).
    Raptor,
    /// RaptorQ (RFC 6330).
    RaptorQ,
}

/// Extra parameters only the RaptorQ scheme carries.
#[derive(Clone, Copy, Debug, PartialEq, Eq, Structural)]
pub struct RaptorQSchemeSpecific {
    /// Number of sub-blocks per source block.
    pub sub_blocks_length: u16,
    /// Symbol alignment in bytes; the symbol length must be a multiple of it.
    pub symbol_alignment: u8,
}

/// Extra parameters only the Raptor scheme carries.
#[derive(Clone, Copy, Debug, PartialEq, Eq, Structural)]
pub struct RaptorSchemeSpecific {
    /// Symbol alignment in bytes; the symbol length must be a multiple of it.
    pub symbol_alignment: u8,
}

/// Scheme-specific parameter blob of an OTI.
#[derive(Clone, Copy, Debug, PartialEq, Eq, Structural)]
pub enum SchemeSpecific {
    /// RaptorQ parameters.
    RaptorQ(RaptorQSchemeSpecific),
    /// Raptor parameters.
    Raptor(RaptorSchemeSpecific),
}

/// The FEC parameters of one transport object; immutable after publication.
#[derive(Clone, Copy, Debug, PartialEq, Eq)]
pub struct Oti {
    /// Which FEC scheme encodes the object.
    pub fec_encoding_id: FECEncodingID,
    /// Size of one encoding symbol, in bytes.
    pub encoding_symbol_length: u16,
    /// Most source symbols one block may hold.
    pub maximum_source_block_length: u32,
    /// Repair symbols generated per block.
    pub max_number_of_parity_symbols: u32,
    /// Scheme-specific parameters (RaptorQ and Raptor only).
    pub scheme_specific: Option<SchemeSpecific>,
}

impl Oti {
    /// The per-scheme parameter invariants every published OTI satisfies.
    pub open spec fn wf(&self) -> bool {
        &&& self.encoding_symbol_length >= 1
        &&& self.maximum_source_block_length >= 1
        &&& match self.fec_encoding_id {
            FECEncodingID::NoCode => {
                &&& self.max_number_of_parity_symbols == 0
                &&& self.scheme_specific is None
            },
            FECEncodingID::ReedSolomonGF28 => {
                &&& self.maximum_source_block_length + self.max_number_of_parity_symbols <= 255
                &&& self.max_number_of_parity_symbols >= 1
                &&& self.scheme_specific is None
            },
            FECEncodingID::ReedSolomonGF28UnderSpecified => {
                &&& self.maximum_source_block_length + self.max_number_of_parity_symbols <= 255
                &&& self.max_number_of_parity_symbols >= 1
                &&& self.scheme_specific is None
            },
            FECEncodingID::Raptor => {
                &&& self.maximum_source_block_length <= RAPTOR_MAX_SOURCE_SYMBOLS
                &&& self.scheme_specific matches Some(SchemeSpecific::Raptor(s))
                    && s.symbol_alignment >= 1
                    && self.encoding_symbol_length as int % s.symbol_alignment as int == 0
            },
            FECEncodingID::RaptorQ => {
                &&& self.maximum_source_block_length <= RAPTORQ_MAX_SOURCE_SYMBOLS
                &&& self.scheme_specific matches Some(SchemeSpecific::RaptorQ(s))
                    && s.symbol_alignment >= 1
                    && s.sub_blocks_length >= 1
                    && self.encoding_symbol_length as int % s.symbol_alignment as int == 0
            },
        }
    }

    /// Compact No-Code: no repair symbols.
    ///
    /// Rejects a zero symbol length or a zero block length.
    pub fn new_no_code(encoding_symbol_length: u16, maximum_source_block_length: u32) -> (r:
        Result<Oti, FluteError>)
        ensures
            r is Ok <==> encoding_symbol_length >= 1 && maximum_source_block_length >= 1,
            r matches Ok(o) ==> o == (Oti {
                fec_encoding_id: FECEncodingID::NoCode,
                encoding_symbol_length,
                maximum_source_block_length,
                max_number_of_parity_symbols: 0u32,
                scheme_specific: None::<SchemeSpecific>,
            }) && o.wf(),
            r matches Err(e) ==> e.kind == ErrorKind::Config,
    {
        if encoding_symbol_length == 0 {
            return Err(FluteError::new(ErrorKind::Config, "encoding symbol length must not be 0"));
        }
        if maximum_source_block_length == 0 {
            return Err(FluteError::new(ErrorKind::Config, "source block length must not be 0"));
        }
        Ok(
            Oti {
                fec_encoding_id: FECEncodingID::NoCode,
                encoding_symbol_length,
                maximum_source_block_length,
                max_number_of_parity_symbols: 0,
                scheme_specific: None,
            },
        )
    }

    /// Reed-Solomon GF(2^8), fully specified scheme.
    ///
    /// Rejects a zero symbol length, a zero block length, zero parity (the
    /// GF(2^8) codec cannot be built without a parity row), and
    /// `k + r > 255` (the field has only 255 usable code positions).
    pub fn new_reed_solomon_rs28(
        encoding_symbol_length: u16,
        max_source_block_length: u8,
        max_number_of_parity_symbols: u8,
    ) -> (r: Result<Oti, FluteError>)
        ensures
            r is Ok <==> encoding_symbol_length >= 1 && max_source_block_length >= 1
                && max_number_of_parity_symbols >= 1 && max_source_block_length as int
                + max_number_of_parity_symbols as int <= 255,
            r matches Ok(o) ==> o == (Oti {
                fec_encoding_id: FECEncodingID::ReedSolomonGF28,
                encoding_symbol_length,
                maximum_source_block_length: max_source_block_length as u32,
                max_number_of_parity_symbols: max_number_of_parity_symbols as u32,
                scheme_specific: None::<SchemeSpecific>,
            }) && o.wf(),
            r matches Err(e) ==> e.kind == ErrorKind::Config,
    {
        if encoding_symbol_length == 0 {
            return Err(FluteError::new(ErrorKind::Config, "encoding symbol length must not be 0"));
        }
        if max_source_block_length == 0 {
            return Err(FluteError::new(ErrorKind::Config, "source block length must not be 0"));
        }
        if max_number_of_parity_symbols == 0 {
            return Err(FluteError::new(ErrorKind::Config, "parity symbol count must not be 0"));
        }
        if max_source_block_length as u32 + max_number_of_parity_symbols as u32 > 255 {
            return Err(
                FluteError::new(ErrorKind::Config, "source plus parity symbols must not exceed 255"),
            );
        }
        Ok(
            Oti {
                fec_encoding_id: FECEncodingID::ReedSolomonGF28,
                encoding_symbol_length,
                maximum_source_block_length: max_source_block_length as u32,
                max_number_of_parity_symbols: max_number_of_parity_symbols as u32,
                scheme_specific: None,
            },
        )
    }

    /// Reed-Solomon GF(2^8), under-specified scheme: identical block-level
    /// constraints, but the object may span up to 2^32 - 1 blocks.
    pub fn new_reed_solomon_rs28_under_specified(
        encoding_symbol_length: u16,
        max_source_block_length: u8,
        max_number_of_parity_symbols: u8,
    ) -> (r: Result<Oti, FluteError>)
        ensures
            r is Ok <==> encoding_symbol_length >= 1 && max_source_block_length >= 1
                && max_number_of_parity_symbols >= 1 && max_source_block_length as int
                + max_number_of_parity_symbols as int <= 255,
            r matches Ok(o) ==> o == (Oti {
                fec_encoding_id: FECEncodingID::ReedSolomonGF28UnderSpecified,
                encoding_symbol_length,
                maximum_source_block_length: max_source_block_length as u32,
                max_number_of_parity_symbols: max_number_of_parity_symbols as u32,
                scheme_specific: None::<SchemeSpecific>,
            }) && o.wf(),
            r matches Err(e) ==> e.kind == ErrorKind::Config,
    {
        if encoding_symbol_length == 0 {
            return Err(FluteError::new(ErrorKind::Config, "encoding symbol length must not be 0"));
        }
        if max_source_block_length == 0 {
            return Err(FluteError::new(ErrorKind::Config, "source block length must not be 0"));
        }
        if max_number_of_parity_symbols == 0 {
            return Err(FluteError::new(ErrorKind::Config, "parity symbol count must not be 0"));
        }
        if max_source_block_length as u32 + max_number_of_parity_symbols as u32 > 255 {
            return Err(
                FluteError::new(ErrorKind::Config, "source plus parity symbols must not exceed 255"),
            );
        }
        Ok(
            Oti {
                fec_encoding_id: FECEncodingID::ReedSolomonGF28UnderSpecified,
                encoding_symbol_length,
                maximum_source_block_length: max_source_block_length as u32,
                max_number_of_parity_symbols: max_number_of_parity_symbols as u32,
                scheme_specific: None,
            },
        )
    }

    /// Raptor (RFC 5053).
    ///
    /// Rejects a zero symbol length or block length, a block length above the
    /// RFC 5053 bound, a zero alignment, and a symbol length that is not a
    /// multiple of the alignment.
    pub fn new_raptor(
        encoding_symbol_length: u16,
        maximum_source_block_length: u16,
        max_number_of_parity_symbols: u16,
        symbol_alignment: u8,
    ) -> (r: Result<Oti, FluteError>)
        ensures
            r is Ok <==> encoding_symbol_length >= 1 && maximum_source_block_length >= 1
                && maximum_source_block_length <= RAPTOR_MAX_SOURCE_SYMBOLS && symbol_alignment
                >= 1 && encoding_symbol_length as int % symbol_alignment as int == 0,
            r matches Ok(o) ==> o == (Oti {
                fec_encoding_id: FECEncodingID::Raptor,
                encoding_symbol_length,
                maximum_source_block_length: maximum_source_block_length as u32,
                max_number_of_parity_symbols: max_number_of_parity_symbols as u32,
                scheme_specific: Some(
                    SchemeSpecific::Raptor(RaptorSchemeSpecific { symbol_alignment }),
                ),
            }) && o.wf(),
            r matches Err(e) ==> e.kind == ErrorKind::Config,
    {
        if encoding_symbol_length == 0 {
            return Err(FluteError::new(ErrorKind::Config, "encoding symbol length must not be 0"));
        }
        if maximum_source_block_length == 0 {
            return Err(FluteError::new(ErrorKind::Config, "source block length must not be 0"));
        }
        if maximum_source_block_length as u32 > RAPTOR_MAX_SOURCE_SYMBOLS {
            return Err(FluteError::new(ErrorKind::Config, "source block length too large"));
        }
        if symbol_alignment == 0 {
            return Err(FluteError::new(ErrorKind::Config, "symbol alignment must not be 0"));
        }
        if encoding_symbol_length % (symbol_alignment as u16) != 0 {
            return Err(
                FluteError::new(
                    ErrorKind::Config,
                    "encoding symbol length must be a multiple of the alignment",
                ),
            );
        }
        Ok(
            Oti {
                fec_encoding_id: FECEncodingID::Raptor,
                encoding_symbol_length,
                maximum_source_block_length: maximum_source_block_length as u32,
                max_number_of_parity_symbols: max_number_of_parity_symbols as u32,
                scheme_specific: Some(
                    SchemeSpecific::Raptor(RaptorSchemeSpecific { symbol_alignment }),
                ),
            },
        )
    }

    /// RaptorQ (RFC 6330).
    ///
    /// Rejects a zero symbol length or block length, a block length above
    /// K'_max, a zero alignment, a symbol length that is not a multiple of
    /// the alignment, and a zero sub-block count.
    pub fn new_raptorq(
        encoding_symbol_length: u16,
        maximum_source_block_length: u16,
        max_number_of_parity_symbols: u16,
        sub_blocks_length: u16,
        symbol_alignment: u8,
    ) -> (r: Result<Oti, FluteError>)
        ensures
            r is Ok <==> encoding_symbol_length >= 1 && maximum_source_block_length >= 1
                && maximum_source_block_length <= RAPTORQ_MAX_SOURCE_SYMBOLS && symbol_alignment
                >= 1 && encoding_symbol_length as int % symbol_alignment as int == 0
                && sub_blocks_length >= 1,
            r matches Ok(o) ==> o == (Oti {
                fec_encoding_id: FECEncodingID::RaptorQ,
                encoding_symbol_length,
                maximum_source_block_length: maximum_source_block_length as u32,
                max_number_of_parity_symbols: max_number_of_parity_symbols as u32,
                scheme_specific: Some(
                    SchemeSpecific::RaptorQ(
                        RaptorQSchemeSpecific { sub_blocks_length, symbol_alignment },
                    ),
                ),
            }) && o.wf(),
            r matches Err(e) ==> e.kind == ErrorKind::Config,
    {
        if encoding_symbol_length == 0 {
            return Err(FluteError::new(ErrorKind::Config, "encoding symbol length must not be 0"));
        }
        if maximum_source_block_length == 0 {
            return Err(FluteError::new(ErrorKind::Config, "source block length must not be 0"));
        }
        if maximum_source_block_length as u32 > RAPTORQ_MAX_SOURCE_SYMBOLS {
            return Err(FluteError::new(ErrorKind::Config, "source block length exceeds K'_max"));
        }
        if symbol_alignment == 0 {
            return Err(FluteError::new(ErrorKind::Config, "symbol alignment must not be 0"));
        }
        if encoding_symbol_length % (symbol_alignment as u16) != 0 {
            return Err(
                FluteError::new(
                    ErrorKind::Config,
                    "encoding symbol length must be a multiple of the alignment",
                ),
            );
        }
        if sub_blocks_length == 0 {
            return Err(FluteError::new(ErrorKind::Config, "sub-blocks length must not be 0"));
        }
        Ok(
            Oti {
                fec_encoding_id: FECEncodingID::RaptorQ,
                encoding_symbol_length,
                maximum_source_block_length: maximum_source_block_length as u32,
                max_number_of_parity_symbols: max_number_of_parity_symbols as u32,
                scheme_specific: Some(
                    SchemeSpecific::RaptorQ(
                        RaptorQSchemeSpecific { sub_blocks_length, symbol_alignment },
                    ),
                ),
            },
        )
    }

    /// Most blocks one object may span under this scheme: the capacity of the
    /// SBN field as the schemes here use it.
    pub open spec fn spec_max_block_number(&self) -> int {
        match self.fec_encoding_id {
            FECEncodingID::NoCode => 0xFFFF,
            FECEncodingID::ReedSolomonGF28 => 0xFF,
            FECEncodingID::ReedSolomonGF28UnderSpecified => 0xFFFF_FFFF,
            FECEncodingID::Raptor => 0xFFFF,
            FECEncodingID::RaptorQ => 0xFF,
        }
    }

    /// Cap the scheme's transfer-length field imposes.
    pub open spec fn spec_transfer_length_cap(&self) -> int {
        match self.fec_encoding_id {
            FECEncodingID::RaptorQ => MAX_TRANSFER_LENGTH_40BIT as int,
            _ => MAX_TRANSFER_LENGTH_48BIT as int,
        }
    }

    /// The largest object these parameters can carry: the addressable blocks
    /// times the block payload, bounded by the transfer-length field.
    pub open spec fn spec_max_transfer_length(&self) -> int {
        let by_blocks = self.encoding_symbol_length as int
            * self.maximum_source_block_length as int * self.spec_max_block_number();
        if by_blocks <= self.spec_transfer_length_cap() {
            by_blocks
        } else {
            self.spec_transfer_length_cap()
        }
    }

    /// Largest transfer length this OTI supports.
    pub fn max_transfer_length(&self) -> (r: u64)
        ensures
            r == self.spec_max_transfer_length(),
    {
        let max_blocks: u64 = match self.fec_encoding_id {
            FECEncodingID::NoCode => 0xFFFF,
            FECEncodingID::ReedSolomonGF28 => 0xFF,
            FECEncodingID::ReedSolomonGF28UnderSpecified => 0xFFFF_FFFF,
            FECEncodingID::Raptor => 0xFFFF,
            FECEncodingID::RaptorQ => 0xFF,
        };
        let cap: u64 = match self.fec_encoding_id {
            FECEncodingID::RaptorQ => MAX_TRANSFER_LENGTH_40BIT,
            _ => MAX_TRANSFER_LENGTH_48BIT,
        };
        proof {
            lemma_mul_upper_bound(
                self.encoding_symbol_length as int,
                0xFFFF,
                self.maximum_source_block_length as int,
                0xFFFF_FFFF,
            );
            lemma_mul_upper_bound(
                self.encoding_symbol_length as int * self.maximum_source_block_length as int,
                0xFFFFint * 0xFFFF_FFFFint,
                max_blocks as int,
                0xFFFF_FFFF,
            );
        }
        let by_blocks: u128 = (self.encoding_symbol_length as u128)
            * (self.maximum_source_block_length as u128) * (max_blocks as u128);
        if by_blocks <= cap as u128 {
            by_blocks as u64
        } else {
            cap
        }
    }
}

} // verus!
