//! Single-file transfer: progress figures, error kinds and the integrity
//! check that follows a completed write.
use vstd::prelude::*;
use crate::sha_validation::{digest_matches, hex_text_matches};

verus! {

/// Progress of one file's transfer.
pub struct DownloadProgress {
    pub bytes_to_download: usize,
    pub bytes_downloaded: usize,
    pub bytes_per_second: usize,
}

/// Why a transfer of one file failed.
pub enum DownloadError {
    /// The request could not be sent, or the response stream failed.
    Network(String),
    /// The destination could not be created, written, or read back.
    Filesystem(String),
    /// The written content does not match the expected digest.
    HashMismatch(String),
}

impl DownloadError {
    /// An equal copy of this error.
    pub fn duplicate(&self) -> (r: Self)
        ensures
            r == *self,
    {
        match self {
            DownloadError::Network(m) => DownloadError::Network(m.clone()),
            DownloadError::Filesystem(m) => DownloadError::Filesystem(m.clone()),
            DownloadError::HashMismatch(m) => DownloadError::HashMismatch(m.clone()),
        }
    }
}

/// One file to transfer: where from, where to, and what it must hash to.
pub struct FileDownloadArguments {
    pub url: String,
    pub path: String,
    pub sha1: Option<String>,
    /// Size announced by the catalog, when it is known before the transfer.
    pub size: Option<u64>,
}

/// Bytes per second for `bytes` moved in `elapsed_ms` milliseconds; zero when
/// no measurable time has passed.
pub open spec fn per_second(bytes: int, elapsed_ms: int) -> int {
    if elapsed_ms <= 0 {
        0
    } else {
        bytes * 1000 / elapsed_ms
    }
}

/// `n` held in `bound`, with larger values replaced by `bound`.
pub open spec fn capped(n: int, bound: int) -> int {
    if n > bound {
        bound
    } else {
        n
    }
}

/// Throughput of `bytes` over `elapsed_ms`, capped at `u64::MAX`.
pub fn rate_per_second(bytes: u64, elapsed_ms: u64) -> (r: u64)
    ensures
        r == capped(per_second(bytes as int, elapsed_ms as int), u64::MAX as int),
{
    if elapsed_ms == 0 {
        return 0;
    }
    let wide: u128 = bytes as u128;
    assert(wide * 1000 <= 0xffff_ffff_ffff_ffffu128 * 1000) by (nonlinear_arith)
        requires
            wide <= 0xffff_ffff_ffff_ffffu128,
    ;
    let q: u128 = wide * 1000 / (elapsed_ms as u128);
    if q > u64::MAX as u128 {
        u64::MAX
    } else {
        q as u64
    }
}

fn to_usize_capped(n: u64) -> (r: usize)
    ensures
        r == capped(n as int, usize::MAX as int),
{
    if n as u128 > usize::MAX as u128 {
        usize::MAX
    } else {
        n as usize
    }
}

/// Byte counts of one transfer in progress.
pub struct TransferMeter {
    pub bytes_total: usize,
    pub bytes_done: usize,
}

impl TransferMeter {
    /// A meter for a response that declared `content_length` bytes (zero when
    /// it declared none).
    pub fn new(content_length: Option<u64>) -> (r: Self)
        ensures
            r.bytes_done == 0,
            r.bytes_total == match content_length {
                Some(n) => capped(n as int, usize::MAX as int),
                None => 0,
            },
    {
        let total = match content_length {
            Some(n) => to_usize_capped(n),
            None => 0,
        };
        TransferMeter { bytes_total: total, bytes_done: 0 }
    }

    /// Counts a chunk of `len` bytes that was written to the destination.
    pub fn record_chunk(&mut self, len: usize)
        ensures
            final(self).bytes_total == old(self).bytes_total,
            final(self).bytes_done == capped(
                old(self).bytes_done + len,
                usize::MAX as int,
            ),
            final(self).bytes_done >= old(self).bytes_done,
    {
        self.bytes_done = self.bytes_done.saturating_add(len);
    }

    /// The progress figures after `elapsed_ms` milliseconds of transfer.
    pub fn progress(&self, elapsed_ms: u64) -> (r: DownloadProgress)
        ensures
            r.bytes_to_download == self.bytes_total,
            r.bytes_downloaded == self.bytes_done,
            r.bytes_per_second == capped(
                capped(per_second(self.bytes_done as int, elapsed_ms as int), u64::MAX as int),
                usize::MAX as int,
            ),
    {
        let rate = rate_per_second(self.bytes_done as u64, elapsed_ms);
        DownloadProgress {
            bytes_to_download: self.bytes_total,
            bytes_downloaded: self.bytes_done,
            bytes_per_second: to_usize_capped(rate),
        }
    }
}

/// Text of the error for a file at `path` whose content failed its check.
pub open spec fn mismatch_text(path: Seq<char>) -> Seq<char> {
    "Failed to validate file: "@ + path
}

/// Decides the outcome of a transfer whose bytes were all written to `path`
/// and which must hash to `expected_hash`: `read_back` is the digest of the
/// file as read back from disk, or why it could not be read.
pub fn check_written_file(path: &str, expected_hash: &str, read_back: Result<Vec<u8>, String>) -> (r:
    Result<(), DownloadError>)
    ensures
        match read_back {
            Ok(d) => if hex_text_matches(d@, expected_hash@) {
                r is Ok
            } else {
                r matches Err(DownloadError::HashMismatch(m)) && m@ == mismatch_text(path@)
            },
            Err(e) => r == Err::<(), DownloadError>(DownloadError::Filesystem(e)),
        },
{
    match read_back {
        Ok(d) => {
            if digest_matches(d.as_slice(), expected_hash) {
                Ok(())
            } else {
                let mut m = String::from_str("Failed to validate file: ");
                m.append(path);
                Err(DownloadError::HashMismatch(m))
            }
        },
        Err(e) => Err(DownloadError::Filesystem(e)),
    }
}

/// Where a single transfer stands.
#[derive(PartialEq, Eq, Structural, Clone, Copy, Debug)]
pub enum TransferPhase {
    /// Waiting for the destination file to be created.
    Creating,
    /// Waiting for the response to the request.
    Requesting,
    /// Receiving the body, chunk by chunk.
    Receiving,
    /// Waiting for the written file's digest.
    Hashing,
    /// Done; the outcome was handed out.
    Finished,
}

/// What happened since the previous step of a transfer.
pub enum TransferEvent {
    /// The destination file was created (or truncated).
    Created,
    CreateFailed(String),
    /// The response arrived, declaring this many bytes when it did.
    Responded(Option<u64>),
    RequestFailed(String),
    /// A chunk of this many bytes was written to the destination.
    ChunkWritten(usize),
    WriteFailed(String),
    StreamFailed(String),
    /// The body ended and every chunk was written.
    StreamEnded,
    /// The digest of the written file, or why it could not be read.
    Hashed(Result<Vec<u8>, String>),
}

/// What the caller does next.
pub enum TransferAction {
    SendRequest,
    ReadChunk,
    /// Offer these figures to the observer, if any, then read the next chunk.
    Report(DownloadProgress),
    HashFile,
    Finish(Result<u64, DownloadError>),
}

/// Whether a transfer in `phase` expects `e`.
pub open spec fn accepts(phase: TransferPhase, e: TransferEvent) -> bool {
    match e {
        TransferEvent::Created | TransferEvent::CreateFailed(_) => phase == TransferPhase::Creating,
        TransferEvent::Responded(_) | TransferEvent::RequestFailed(_) => phase
            == TransferPhase::Requesting,
        TransferEvent::ChunkWritten(_) | TransferEvent::WriteFailed(_) | TransferEvent::StreamFailed(
            _,
        ) | TransferEvent::StreamEnded => phase == TransferPhase::Receiving,
        TransferEvent::Hashed(_) => phase == TransferPhase::Hashing,
    }
}

/// One file's transfer: streamed to its destination, then, when a digest
/// is expected, checked after the last byte is written.
pub struct SingleTransfer {
    pub phase: TransferPhase,
    pub meter: TransferMeter,
    pub path: String,
    pub expected_sha1: Option<String>,
}

impl SingleTransfer {
    /// A transfer waits for a digest only when it expects one.
    pub open spec fn wf(&self) -> bool {
        self.phase == TransferPhase::Hashing ==> self.expected_sha1 is Some
    }

    /// A transfer of `args` that has yet to create its destination.
    pub fn new(args: &FileDownloadArguments) -> (r: Self)
        ensures
            r.wf(),
            r.phase == TransferPhase::Creating,
            r.meter.bytes_done == 0,
            r.meter.bytes_total == 0,
            r.path@ == args.path@,
            r.expected_sha1 == args.sha1,
    {
        SingleTransfer {
            phase: TransferPhase::Creating,
            meter: TransferMeter { bytes_total: 0, bytes_done: 0 },
            path: args.path.clone(),
            expected_sha1: match &args.sha1 {
                Some(h) => Some(h.clone()),
                None => None,
            },
        }
    }

    /// Whether this transfer expects `e` now.
    pub fn accepts(&self, e: &TransferEvent) -> (r: bool)
        ensures
            r == accepts(self.phase, *e),
    {
        match e {
            TransferEvent::Created | TransferEvent::CreateFailed(_) => self.phase
                == TransferPhase::Creating,
            TransferEvent::Responded(_) | TransferEvent::RequestFailed(_) => self.phase
                == TransferPhase::Requesting,
            TransferEvent::ChunkWritten(_) | TransferEvent::WriteFailed(_)
            | TransferEvent::StreamFailed(_) | TransferEvent::StreamEnded => self.phase
                == TransferPhase::Receiving,
            TransferEvent::Hashed(_) => self.phase == TransferPhase::Hashing,
        }
    }

    /// Takes in `e`, observed `elapsed_ms` after the body started, and says
    /// what to do next. A failure ends the transfer with the error of its
    /// kind; the body's end finishes it, or first asks for the file's digest
    /// when one is expected; a chunk yields progress figures to offer.
    pub fn step(&mut self, e: TransferEvent, elapsed_ms: u64) -> (r: TransferAction)
        requires
            old(self).wf(),
            accepts(old(self).phase, e),
        ensures
            final(self).wf(),
            final(self).path == old(self).path,
            final(self).expected_sha1 == old(self).expected_sha1,
            match e {
                TransferEvent::Created => {
                    &&& final(self).phase == TransferPhase::Requesting
                    &&& r is SendRequest
                    &&& final(self).meter == old(self).meter
                },
                TransferEvent::CreateFailed(m) => final(self).phase == TransferPhase::Finished
                    && r == TransferAction::Finish(Err(DownloadError::Filesystem(m))),
                TransferEvent::Responded(len) => final(self).phase == TransferPhase::Receiving
                    && r is ReadChunk && final(self).meter.bytes_done == 0
                    && final(self).meter.bytes_total == match len {
                    Some(n) => capped(n as int, usize::MAX as int),
                    None => 0,
                },
                TransferEvent::RequestFailed(m) => final(self).phase == TransferPhase::Finished
                    && r == TransferAction::Finish(Err(DownloadError::Network(m))),
                TransferEvent::ChunkWritten(n) => {
                    &&& final(self).phase == TransferPhase::Receiving
                    &&& final(self).meter.bytes_total == old(self).meter.bytes_total
                    &&& final(self).meter.bytes_done == capped(
                        old(self).meter.bytes_done + n,
                        usize::MAX as int,
                    )
                    &&& r matches TransferAction::Report(p)
                    &&& p.bytes_to_download == final(self).meter.bytes_total
                    &&& p.bytes_downloaded == final(self).meter.bytes_done
                    &&& p.bytes_per_second == capped(
                        capped(
                            per_second(final(self).meter.bytes_done as int, elapsed_ms as int),
                            u64::MAX as int,
                        ),
                        usize::MAX as int,
                    )
                },
                TransferEvent::WriteFailed(m) => final(self).phase == TransferPhase::Finished
                    && r == TransferAction::Finish(Err(DownloadError::Filesystem(m))),
                TransferEvent::StreamFailed(m) => final(self).phase == TransferPhase::Finished
                    && r == TransferAction::Finish(Err(DownloadError::Network(m))),
                TransferEvent::StreamEnded => final(self).meter == old(self).meter && if old(
                    self,
                ).expected_sha1 is Some {
                    final(self).phase == TransferPhase::Hashing && r is HashFile
                } else {
                    final(self).phase == TransferPhase::Finished && r == TransferAction::Finish(
                        Ok(old(self).meter.bytes_done as u64),
                    )
                },
                TransferEvent::Hashed(read_back) => {
                    &&& final(self).phase == TransferPhase::Finished
                    &&& final(self).meter == old(self).meter
                    &&& r matches TransferAction::Finish(outcome)
                    &&& match read_back {
                        Ok(d) => if hex_text_matches(d@, old(self).expected_sha1->Some_0@) {
                            outcome == Ok::<u64, DownloadError>(old(self).meter.bytes_done as u64)
                        } else {
                            outcome matches Err(DownloadError::HashMismatch(m)) && m@
                                == mismatch_text(old(self).path@)
                        },
                        Err(m) => outcome == Err::<u64, DownloadError>(DownloadError::Filesystem(m)),
                    }
                },
            },
    {
        match e {
            TransferEvent::Created => {
                self.phase = TransferPhase::Requesting;
                TransferAction::SendRequest
            },
            TransferEvent::CreateFailed(m) => {
                self.phase = TransferPhase::Finished;
                TransferAction::Finish(Err(DownloadError::Filesystem(m)))
            },
            TransferEvent::Responded(len) => {
                self.meter = TransferMeter::new(len);
                self.phase = TransferPhase::Receiving;
                TransferAction::ReadChunk
            },
            TransferEvent::RequestFailed(m) => {
                self.phase = TransferPhase::Finished;
                TransferAction::Finish(Err(DownloadError::Network(m)))
            },
            TransferEvent::ChunkWritten(n) => {
                self.meter.record_chunk(n);
                TransferAction::Report(self.meter.progress(elapsed_ms))
            },
            TransferEvent::WriteFailed(m) => {
                self.phase = TransferPhase::Finished;
                TransferAction::Finish(Err(DownloadError::Filesystem(m)))
            },
            TransferEvent::StreamFailed(m) => {
                self.phase = TransferPhase::Finished;
                TransferAction::Finish(Err(DownloadError::Network(m)))
            },
            TransferEvent::StreamEnded => {
                if self.expected_sha1.is_some() {
                    self.phase = TransferPhase::Hashing;
                    TransferAction::HashFile
                } else {
                    self.phase = TransferPhase::Finished;
                    TransferAction::Finish(Ok(self.meter.bytes_done as u64))
                }
            },
            TransferEvent::Hashed(read_back) => {
                self.phase = TransferPhase::Finished;
                let expected = match &self.expected_sha1 {
                    Some(h) => h.as_str(),
                    None => "",
                };
                match check_written_file(self.path.as_str(), expected, read_back) {
                    Ok(()) => TransferAction::Finish(Ok(self.meter.bytes_done as u64)),
                    Err(err) => TransferAction::Finish(Err(err)),
                }
            },
        }
    }
}

} // verus!
