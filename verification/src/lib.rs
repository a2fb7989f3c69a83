//! Core codec and assembly logic of a FLUTE-style unidirectional file
//! delivery stack (RFC 6726 family).
//!
//! An object travels as a stream of encoding symbols: `oti` validates the FEC
//! parameters, `partition` cuts the object into balanced source blocks,
//! `blockdecoder` reassembles each block from the symbols that arrive (No-Code
//! in `nocode`, Reed-Solomon GF(2^8) in `rscodec`, the fountain schemes in
//! `rq` and `raptor`), and `blockwriter` flushes completed blocks to an
//! `ObjectWriter` sink in strict SBN order, decoding the content encoding
//! (`inflate`) and keeping a rolling MD5 over the delivered bytes (`digest`).
//!
//! Loss tolerance, reorder invariance and redelivery idempotence are stated
//! and proved over the symbol-table model in `fec` and the contracts of the
//! decoders and the block writer.

pub mod alc;
pub mod blockdecoder;
pub mod blockwriter;
pub mod digest;
pub mod errors;
pub mod fec;
pub mod inflate;
pub mod lct;
pub mod location;
pub mod math;
pub mod nocode;
pub mod oti;
pub mod partition;
pub mod pkt;
pub mod raptor;
pub mod rq;
pub mod rscodec;
pub mod udpendpoint;
pub mod writer;
