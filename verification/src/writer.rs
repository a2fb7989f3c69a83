//! The object sink: where reassembled object bytes go.
//!
//! `ObjectWriter` is the caller-supplied interface; its contracts let the
//! block writer prove what reaches the sink and in what order. The buffer
//! writer stores everything in memory and is the reference implementation.

use crate::errors::{ErrorKind, FluteError};
use crate::lct::Cenc;
use crate::oti::Oti;
use crate::udpendpoint::UDPEndpoint;
use vstd::prelude::*;

verus! {

/// What the FDT says about one object.
#[derive(Clone, Debug)]
pub struct ObjectMetadata {
    /// Where the object should land, as sent in Content-Location.
    pub content_location: String,
    /// Decoded size in bytes, when announced.
    pub content_length: Option<u64>,
    /// MIME type, when announced.
    pub content_type: Option<String>,
    /// Content encoding of the transferred bytes.
    pub cenc: Cenc,
    /// Base64 MD5 of the decoded object, when announced.
    pub md5: Option<String>,
    /// Per-object OTI override, when announced.
    pub oti: Option<Oti>,
}

/// One chunk delivered to a sink: the block it came from and its bytes.
pub type WriteRecord = (u32, Seq<u8>);

/// A sink for one object's bytes. `write` is called with ascending source
/// block numbers; `complete`, `error` and `interrupted` each fire at most
/// once, after which the sink is done.
pub trait ObjectWriter: Sized {
    /// Everything delivered so far, chunk by chunk.
    spec fn log(&self) -> Seq<WriteRecord>;

    /// Called once before the first write.
    fn open(&mut self, now: u64) -> (r: Result<(), FluteError>)
        ensures
            final(self).log() == old(self).log(),
    ;

    /// Deliver one chunk of block `sbn`. A failure is the sink's own
    /// (`Writer` kind) and delivers nothing.
    fn write(&mut self, sbn: u32, data: &[u8], now: u64) -> (r: Result<(), FluteError>)
        ensures
            r is Ok ==> final(self).log() == old(self).log().push((sbn, data@)),
            r matches Err(e) ==> final(self).log() == old(self).log() && e.kind
                == ErrorKind::Writer,
    ;

    /// The object arrived whole and passed its checks.
    fn complete(&mut self, now: u64)
        ensures
            final(self).log() == old(self).log(),
    ;

    /// The object failed (codec or integrity); the sink should discard.
    fn error(&mut self, now: u64)
        ensures
            final(self).log() == old(self).log(),
    ;

    /// Reception was abandoned (timeout or eviction).
    fn interrupted(&mut self, now: u64)
        ensures
            final(self).log() == old(self).log(),
    ;

    /// Whether the receiver should verify the FDT's MD5 for this object.
    fn enable_md5_check(&self) -> bool;
}

/// An object written to memory.
pub struct ObjectWriterBuffer {
    /// True once the object arrived whole and passed its checks.
    pub complete: bool,
    /// True once an error or interruption was signalled.
    pub error: bool,
    /// The delivered bytes.
    pub data: Vec<u8>,
    /// The object's metadata.
    pub meta: ObjectMetadata,
    /// When reception started.
    pub start_time: u64,
    /// When reception ended, one way or the other.
    pub end_time: Option<u64>,
    /// Whether MD5 verification was requested.
    pub md5_check: bool,
    /// The delivery log backing `ObjectWriter::log`.
    pub write_log: Ghost<Seq<WriteRecord>>,
}

/// The bytes of a delivery log, in order.
pub open spec fn log_bytes(log: Seq<WriteRecord>) -> Seq<u8>
    decreases log.len(),
{
    if log.len() == 0 {
        Seq::empty()
    } else {
        log_bytes(log.drop_last()) + log.last().1
    }
}

impl ObjectWriterBuffer {
    /// The buffer holds exactly the logged bytes.
    pub open spec fn wf(&self) -> bool {
        self.data@ == log_bytes(self.write_log@)
    }
}

/// One more record appends its bytes.
pub proof fn lemma_log_bytes_push(log: Seq<WriteRecord>, rec: WriteRecord)
    ensures
        log_bytes(log.push(rec)) == log_bytes(log) + rec.1,
{
    assert(log.push(rec).drop_last() =~= log);
}

impl ObjectWriter for ObjectWriterBuffer {
    open spec fn log(&self) -> Seq<WriteRecord> {
        self.write_log@
    }

    fn open(&mut self, _now: u64) -> (r: Result<(), FluteError>)
        ensures
            *final(self) == *old(self),
    {
        Ok(())
    }

    fn write(&mut self, sbn: u32, data: &[u8], _now: u64) -> (r: Result<(), FluteError>)
        ensures
            old(self).wf() ==> final(self).wf(),
            r is Ok,
            final(self).data@ == old(self).data@ + data@,
            final(self).complete == old(self).complete,
            final(self).error == old(self).error,
            final(self).meta == old(self).meta,
            final(self).md5_check == old(self).md5_check,
            final(self).start_time == old(self).start_time,
            final(self).end_time == old(self).end_time,
    {
        let ghost log_before = self.write_log@;
        let ghost data_before = self.data@;
        self.data.extend_from_slice(data);
        proof {
            self.write_log@ = log_before.push((sbn, data@));
            lemma_log_bytes_push(log_before, (sbn, data@));
            assert(log_bytes(self.write_log@) == log_bytes(log_before) + data@);
            assert(self.data@ == data_before + data@);
        }
        Ok(())
    }

    fn complete(&mut self, now: u64)
        ensures
            final(self).complete,
            final(self).error == old(self).error,
            final(self).data == old(self).data,
            final(self).meta == old(self).meta,
            final(self).md5_check == old(self).md5_check,
            final(self).start_time == old(self).start_time,
            final(self).write_log == old(self).write_log,
            final(self).end_time == Some(now),
    {
        self.complete = true;
        self.end_time = Some(now);
    }

    fn error(&mut self, now: u64)
        ensures
            final(self).error,
            final(self).complete == old(self).complete,
            final(self).data == old(self).data,
            final(self).meta == old(self).meta,
            final(self).md5_check == old(self).md5_check,
            final(self).start_time == old(self).start_time,
            final(self).write_log == old(self).write_log,
            final(self).end_time == Some(now),
    {
        self.error = true;
        self.end_time = Some(now);
    }

    fn interrupted(&mut self, now: u64)
        ensures
            final(self).error,
            final(self).complete == old(self).complete,
            final(self).data == old(self).data,
            final(self).meta == old(self).meta,
            final(self).md5_check == old(self).md5_check,
            final(self).start_time == old(self).start_time,
            final(self).write_log == old(self).write_log,
            final(self).end_time == Some(now),
    {
        self.error = true;
        self.end_time = Some(now);
    }

    fn enable_md5_check(&self) -> (r: bool)
        ensures
            r == self.md5_check,
    {
        self.md5_check
    }
}

/// Builds in-memory writers for received objects.
#[derive(Debug)]
pub struct ObjectWriterBufferBuilder {
    /// Whether the writers it builds ask for MD5 verification.
    pub enable_md5_check: bool,
}

impl ObjectWriterBufferBuilder {
    /// A builder whose writers verify MD5 when `enable_md5_check` is set.
    pub fn new(enable_md5_check: bool) -> (r: ObjectWriterBufferBuilder)
        ensures
            r.enable_md5_check == enable_md5_check,
    {
        ObjectWriterBufferBuilder { enable_md5_check }
    }

    /// A fresh in-memory writer for one object.
    pub fn new_object_writer(
        &self,
        _endpoint: &UDPEndpoint,
        _tsi: &u64,
        _toi: &u128,
        meta: ObjectMetadata,
        now: u64,
    ) -> (r: ObjectWriterBuffer)
        ensures
            r.wf(),
            !r.complete,
            !r.error,
            r.data@ == Seq::<u8>::empty(),
            r.meta == meta,
            r.start_time == now,
            r.end_time is None,
            r.md5_check == self.enable_md5_check,
            r.log() == Seq::<WriteRecord>::empty(),
    {
        ObjectWriterBuffer {
            complete: false,
            error: false,
            data: Vec::new(),
            meta,
            start_time: now,
            end_time: None,
            md5_check: self.enable_md5_check,
            write_log: Ghost(Seq::empty()),
        }
    }
}

impl Default for ObjectWriterBufferBuilder {
    /// The default builder verifies MD5.
    fn default() -> (r: Self)
        ensures
            r.enable_md5_check,
    {
        Self::new(true)
    }
}

} // verus!
