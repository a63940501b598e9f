use vstd::prelude::*;
use vstd::string::StringExecFns;

use crate::buffer::Buffer;
use crate::config::{RegionSetting, S3SinkConfig};
use crate::record::{record_bytes, Record, SEPARATOR};

verus! {

/// All batches, concatenated in order.
pub open spec fn flatten(batches: Seq<Seq<u8>>) -> Seq<u8>
    decreases batches.len(),
{
    if batches.len() == 0 {
        Seq::empty()
    } else {
        flatten(batches.drop_last()) + batches.last()
    }
}

pub proof fn lemma_flatten_push(batches: Seq<Seq<u8>>, b: Seq<u8>)
    ensures
        flatten(batches.push(b)) == flatten(batches) + b,
{
    assert(batches.push(b).drop_last() =~= batches);
}

/// The suffix of an object key: it tells plain from gzip-encoded batches.
pub open spec fn log_extension(gzip: bool) -> Seq<char> {
    if gzip {
        ".log.gz"@
    } else {
        ".log"@
    }
}

/// `key` is the prefix, some timestamp, then the suffix for the encoding.
pub open spec fn is_batch_key(key: Seq<char>, prefix: Seq<char>, gzip: bool) -> bool {
    exists|stamp: Seq<char>| key == prefix + stamp + log_extension(gzip)
}

/// The content encoding sent with each write: `gzip` for compressed batches, none otherwise.
pub open spec fn encoding_matches(encoding: Option<String>, gzip: bool) -> bool {
    match encoding {
        Some(e) => gzip && e@ == "gzip"@,
        None => !gzip,
    }
}

/// Outcome of offering a record to the sink.
pub enum Admission {
    /// The record was appended to the current batch.
    Accepted,
    /// The sink is full; the record is handed back untouched, to be offered again later.
    Rejected(Record),
}

/// Whether the sink can take more records right now.
#[derive(PartialEq, Eq, Structural, Clone, Copy, Debug)]
pub enum Progress {
    /// There is room in the current batch.
    Idle,
    /// The batch is at its threshold and a write is outstanding: wait before offering more.
    Busy,
}

/// Progress of shutting the sink down.
#[derive(PartialEq, Eq, Structural, Clone, Copy, Debug)]
pub enum Drain {
    /// A write is outstanding or data is still buffered.
    Draining,
    /// Nothing is buffered and no write is outstanding.
    Complete,
}

/// How the outstanding write ended.
#[derive(PartialEq, Eq, Structural, Clone, Copy, Debug)]
pub enum UploadResult {
    Succeeded,
    Failed,
}

/// A finished batch to be written as one object.
pub struct PendingUpload {
    pub bucket: String,
    pub key: String,
    pub body: Vec<u8>,
    pub content_encoding: Option<String>,
}

/// A write that failed: its batch is lost.
pub struct UploadFailure {
    pub key: String,
    pub size: usize,
}

/// The abstract state of a sink.
pub struct SinkView {
    /// The settings the sink was made with; no step changes them.
    pub settings: S3SinkConfig,
    /// Bytes of the batch under construction.
    pub buffered: Seq<u8>,
    /// Whether a write is outstanding.
    pub in_flight: bool,
    /// Whether the last submitted batch has not been handed out for writing yet.
    pub unclaimed: bool,
    /// Every batch submitted so far, in submission order.
    pub submitted: Seq<Seq<u8>>,
    /// How many writes have been seen to end.
    pub completed: nat,
    /// Every byte accepted so far, in admission order.
    pub admitted: Seq<u8>,
    /// Whether shutdown has begun.
    pub closing: bool,
    /// Whether a write has failed: the sink has stopped for good.
    pub failed: bool,
}

impl SinkView {
    /// Batch size at which a submission is due.
    pub open spec fn threshold(self) -> nat {
        self.settings.buffer_size as nat
    }

    pub open spec fn prefix(self) -> Seq<char> {
        self.settings.key_prefix@
    }

    pub open spec fn gzip(self) -> bool {
        self.settings.gzip
    }

    pub open spec fn bucket(self) -> Seq<char> {
        self.settings.bucket@
    }

    pub open spec fn region(self) -> RegionSetting {
        self.settings.region
    }

    pub open spec fn wf(self) -> bool {
        &&& flatten(self.submitted) + self.buffered == self.admitted
        &&& self.submitted.len() == self.completed + (if self.in_flight { 1nat } else { 0nat })
        &&& self.unclaimed ==> self.in_flight
        &&& self.failed ==> !self.in_flight
    }

    /// Writes submitted whose end has not been seen.
    pub open spec fn outstanding(self) -> int {
        self.submitted.len() - self.completed
    }

    pub open spec fn buffer_full(self) -> bool {
        self.buffered.len() >= self.threshold()
    }

    pub open spec fn full(self) -> bool {
        self.buffer_full() && self.in_flight
    }

    /// The buffered bytes become a new batch in flight.
    pub open spec fn submit(self) -> SinkView {
        SinkView {
            buffered: Seq::empty(),
            in_flight: true,
            unclaimed: true,
            submitted: self.submitted.push(self.buffered),
            ..self
        }
    }

    pub open spec fn poll(self) -> SinkView {
        if !self.in_flight && self.buffer_full() {
            self.submit()
        } else {
            self
        }
    }

    pub open spec fn poll_result(self) -> Progress {
        if self.poll().buffer_full() {
            Progress::Busy
        } else {
            Progress::Idle
        }
    }

    pub open spec fn append(self, bytes: Seq<u8>) -> SinkView {
        SinkView { buffered: self.buffered + bytes, admitted: self.admitted + bytes, ..self }
    }

    pub open spec fn offer(self, bytes: Seq<u8>) -> SinkView {
        if self.full() {
            self
        } else {
            self.append(bytes).poll()
        }
    }

    /// One step of shutdown; from here on, the end of a write no longer polls.
    pub open spec fn drain(self) -> SinkView {
        let m = SinkView { closing: true, ..self };
        if m.in_flight || m.buffered.len() == 0 {
            m
        } else {
            m.submit()
        }
    }

    pub open spec fn drain_result(self) -> Drain {
        if !self.in_flight && self.buffered.len() == 0 {
            Drain::Complete
        } else {
            Drain::Draining
        }
    }

    /// The outstanding write, if any, is seen to end.
    pub open spec fn complete(self) -> SinkView {
        if self.in_flight {
            SinkView { in_flight: false, unclaimed: false, completed: self.completed + 1, ..self }
        } else {
            self
        }
    }

    /// The outstanding write, if any, has ended. On success the slot is freed and,
    /// unless shutdown has begun, the sink is polled again at once; on failure the
    /// sink stops for good.
    pub open spec fn end_write(self, succeeded: bool) -> SinkView {
        if !self.in_flight {
            self
        } else if !succeeded {
            SinkView { failed: true, ..self.complete() }
        } else if self.closing {
            self.complete()
        } else {
            self.complete().poll()
        }
    }

    pub open spec fn claim(self) -> SinkView {
        SinkView { unclaimed: false, ..self }
    }
}

/// Builds the object key of a batch: prefix, timestamp, suffix. The key does not
/// depend on the batch's contents: two batches finalized within the same timestamp
/// resolution get the same key, and the later write replaces the earlier object.
pub fn batch_key(prefix: &str, stamp: &str, gzip: bool) -> (r: String)
    ensures
        r@ == prefix@ + stamp@ + log_extension(gzip),
{
    let mut key = prefix.to_owned();
    key.append(stamp);
    if gzip {
        key.append(".log.gz");
    } else {
        key.append(".log");
    }
    key
}

/// The gzip stream that compressing `data` gives.
pub uninterp spec fn gzip_of(data: Seq<u8>) -> Seq<u8>;

/// What is written for a batch: the batch itself, or its gzip stream.
pub open spec fn encoded_body(batch: Seq<u8>, gzip: bool) -> Seq<u8> {
    if gzip {
        gzip_of(batch)
    } else {
        batch
    }
}

/// Relies on flate2's `GzEncoder` writing into a `Vec` at the default level, with the
/// default header (no time stamp): the output depends on the input bytes alone.
#[verifier::external_body]
fn gzip_encode(data: &[u8]) -> (r: Vec<u8>)
    ensures
        r@ == gzip_of(data@),
{
    let mut encoder = flate2::write::GzEncoder::new(Vec::new(), flate2::Compression::default());
    match std::io::Write::write_all(&mut encoder, data) {
        Ok(()) => match encoder.finish() {
            Ok(out) => out,
            Err(_) => Vec::new(),
        },
        Err(_) => Vec::new(),
    }
}

/// Relies on chrono's `Local::now` and `DelayedFormat`'s `Display`: the local time,
/// down to fractions of a second. Nothing is promised of its value: in particular two
/// calls may give the same text.
#[verifier::external_body]
fn timestamp_now() -> (r: String) {
    chrono::Local::now().format("%Y-%m-%d-%H-%M-%S-%f").to_string()
}

struct InFlight {
    key: String,
    size: usize,
}

/// The batching sink: one batch under construction and at most one write outstanding.
pub struct S3Sink {
    buffer: Buffer,
    in_flight: Option<InFlight>,
    outbox: Option<PendingUpload>,
    config: S3SinkConfig,
    submitted: Ghost<Seq<Seq<u8>>>,
    completed: Ghost<nat>,
    admitted: Ghost<Seq<u8>>,
    closing: bool,
    failed: bool,
}

impl View for S3Sink {
    type V = SinkView;

    closed spec fn view(&self) -> SinkView {
        SinkView {
            settings: self.config,
            buffered: self.buffer@,
            in_flight: self.in_flight is Some,
            unclaimed: self.outbox is Some,
            submitted: self.submitted@,
            completed: self.completed@,
            admitted: self.admitted@,
            closing: self.closing,
            failed: self.failed,
        }
    }
}

pub fn new(config: S3SinkConfig) -> (r: S3Sink)
    ensures
        r.wf(),
        r@.settings == config,
        r@.buffered.len() == 0,
        !r@.in_flight,
        !r@.unclaimed,
        r@.submitted.len() == 0,
        r@.completed == 0,
        r@.admitted.len() == 0,
        !r@.closing,
        !r@.failed,
{
    let sink = S3Sink {
        buffer: Buffer::new(),
        in_flight: None,
        outbox: None,
        config,
        submitted: Ghost(Seq::empty()),
        completed: Ghost(0),
        admitted: Ghost(Seq::empty()),
        closing: false,
        failed: false,
    };
    assert(flatten(sink.submitted@) + sink.buffer@ =~= sink.admitted@);
    sink
}

impl S3Sink {
    pub closed spec fn inv(&self) -> bool {
        &&& match self.in_flight {
            Some(t) => {
                &&& t.size == self.submitted@.last().len()
                &&& is_batch_key(t.key@, self.config.key_prefix@, self.config.gzip)
            },
            None => true,
        }
        &&& match self.outbox {
            Some(p) => {
                &&& p.bucket == self.config.bucket
                &&& p.body@ == encoded_body(self.submitted@.last(), self.config.gzip)
                &&& is_batch_key(p.key@, self.config.key_prefix@, self.config.gzip)
                &&& encoding_matches(p.content_encoding, self.config.gzip)
            },
            None => true,
        }
    }

    pub open spec fn wf(&self) -> bool {
        self@.wf() && self.inv()
    }

    /// The settings the sink was made with.
    pub fn config(&self) -> (r: &S3SinkConfig)
        ensures
            *r == self@.settings,
    {
        &self.config
    }

    fn buffer_full(&self) -> (r: bool)
        ensures
            r == self@.buffer_full(),
    {
        self.buffer.size() >= self.config.buffer_size
    }

    fn full(&self) -> (r: bool)
        ensures
            r == self@.full(),
    {
        self.buffer_full() && self.in_flight.is_some()
    }

    /// Whether a write has failed, which stops the sink for good.
    pub fn has_failed(&self) -> (r: bool)
        ensures
            r == self@.failed,
    {
        self.failed
    }

    /// Whether a write is outstanding.
    pub fn has_in_flight(&self) -> (r: bool)
        ensures
            r == self@.in_flight,
    {
        self.in_flight.is_some()
    }

    /// Finalizes the buffered bytes into a batch and puts it in flight.
    fn send_request(&mut self)
        requires
            old(self).wf(),
            !old(self)@.in_flight,
            !old(self)@.failed,
        ensures
            final(self).wf(),
            final(self)@ == old(self)@.submit(),
    {
        let raw = self.buffer.get_and_reset();
        let ghost batch = raw@;
        let size = raw.len();
        let body = if self.config.gzip {
            gzip_encode(raw.as_slice())
        } else {
            raw
        };
        let stamp = timestamp_now();
        let key = batch_key(self.config.key_prefix.as_str(), stamp.as_str(), self.config.gzip);
        assert(key@ == self.config.key_prefix@ + stamp@ + log_extension(self.config.gzip));
        let content_encoding = if self.config.gzip {
            Some("gzip".to_owned())
        } else {
            None
        };
        self.in_flight = Some(InFlight { key: key.clone(), size });
        let bucket = self.config.bucket.clone();
        self.outbox = Some(PendingUpload { bucket, key, body, content_encoding });
        proof {
            lemma_flatten_push(self.submitted@, batch);
            assert(flatten(self.submitted@.push(batch)) + Seq::<u8>::empty() =~= self.admitted@);
        }
        self.submitted = Ghost(self.submitted@.push(batch));
    }

    /// Offers a record. A full sink (batch at its threshold and a write outstanding)
    /// hands the record back and changes nothing; otherwise the record and a newline
    /// are appended, and a batch that reached its threshold is submitted if no write
    /// is outstanding. The end of a write is reported through `complete_upload`, so a
    /// full sink stays full until then. A sink whose write failed takes no more records.
    pub fn start_send(&mut self, item: Record) -> (r: Admission)
        requires
            old(self).wf(),
            !old(self)@.failed,
        ensures
            final(self).wf(),
            final(self)@ == old(self)@.offer(record_bytes(item)),
            old(self)@.full() ==> r == Admission::Rejected(item),
            !old(self)@.full() ==> r == Admission::Accepted,
    {
        if self.full() {
            return Admission::Rejected(item);
        }
        let ghost bytes = record_bytes(item);
        self.buffer.push(item.line.as_str().as_bytes());
        self.buffer.push_byte(SEPARATOR);
        proof {
            assert(self.buffer@ =~= old(self)@.buffered + bytes);
            assert(flatten(self.submitted@) + self.buffer@ =~= old(self)@.admitted + bytes);
        }
        self.admitted = Ghost(self.admitted@ + bytes);
        if self.buffer_full() {
            self.poll_complete();
        }
        Admission::Accepted
    }

    /// Drives the sink forward: when no write is outstanding and the batch has reached
    /// its threshold, the batch is submitted. Reports `Busy` while the batch stays at
    /// its threshold, `Idle` otherwise. A sink whose write failed is not polled.
    pub fn poll_complete(&mut self) -> (r: Progress)
        requires
            old(self).wf(),
            !old(self)@.failed,
        ensures
            final(self).wf(),
            final(self)@ == old(self)@.poll(),
            r == old(self)@.poll_result(),
    {
        if self.in_flight.is_none() && self.buffer_full() {
            self.send_request();
        }
        if self.buffer_full() {
            Progress::Busy
        } else {
            Progress::Idle
        }
    }

    /// Drives shutdown: waits for the outstanding write, then submits whatever is
    /// buffered, however small, until nothing is left. A sink whose write failed has
    /// nothing left to drain: its lost batch is reported by `complete_upload`.
    pub fn close(&mut self) -> (r: Drain)
        requires
            old(self).wf(),
            !old(self)@.failed,
        ensures
            final(self).wf(),
            final(self)@ == old(self)@.drain(),
            r == old(self)@.drain_result(),
    {
        self.closing = true;
        if self.in_flight.is_some() {
            Drain::Draining
        } else if !self.buffer.is_empty() {
            self.send_request();
            Drain::Draining
        } else {
            Drain::Complete
        }
    }

    /// Hands out the batch submitted last, for the caller to write, once: gzip-encoded
    /// when the sink compresses.
    pub fn take_submission(&mut self) -> (r: Option<PendingUpload>)
        requires
            old(self).wf(),
        ensures
            final(self).wf(),
            final(self)@ == old(self)@.claim(),
            r is Some <==> old(self)@.unclaimed,
            r matches Some(p) ==> {
                &&& p.bucket == old(self)@.settings.bucket
                &&& p.body@ == encoded_body(old(self)@.submitted.last(), old(self)@.gzip())
                &&& is_batch_key(p.key@, old(self)@.prefix(), old(self)@.gzip())
                &&& encoding_matches(p.content_encoding, old(self)@.gzip())
            },
    {
        let mut out: Option<PendingUpload> = None;
        std::mem::swap(&mut out, &mut self.outbox);
        out
    }

    /// Records how the outstanding write ended, which frees the slot. After a success
    /// the sink is driven forward at once, as `poll_complete` does, unless shutdown
    /// has begun (then `close` drives it). A failed write stops the sink for good and
    /// is reported with the key and size of its lost batch. Without an outstanding
    /// write nothing changes.
    pub fn complete_upload(&mut self, result: UploadResult) -> (r: Result<(), UploadFailure>)
        requires
            old(self).wf(),
        ensures
            final(self).wf(),
            final(self)@ == old(self)@.end_write(result == UploadResult::Succeeded),
            r is Err <==> old(self)@.in_flight && result == UploadResult::Failed,
            r matches Err(f) ==> {
                &&& f.size == old(self)@.submitted.last().len()
                &&& is_batch_key(f.key@, old(self)@.prefix(), old(self)@.gzip())
            },
    {
        let mut slot: Option<InFlight> = None;
        std::mem::swap(&mut slot, &mut self.in_flight);
        match slot {
            None => Ok(()),
            Some(t) => {
                self.outbox = None;
                self.completed = Ghost(self.completed@ + 1);
                match result {
                    UploadResult::Succeeded => {
                        if !self.closing {
                            self.poll_complete();
                        }
                        Ok(())
                    },
                    UploadResult::Failed => {
                        self.failed = true;
                        Err(UploadFailure { key: t.key, size: t.size })
                    },
                }
            },
        }
    }
}

} // verus!
