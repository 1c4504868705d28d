//! The decisions of a single file transfer: which way it goes, which
//! endpoint is remote, whether a file fits under the ceiling, and how the
//! streamed copy advances.

use crate::config::{FileSizeLimit, MAX_ALLOWED_MB};
use crate::error::{outcome, AppError, ErrorView};
use crate::profile::{
    Authentication, DestinationType, ProtocolType, SourceType, TransferProfile,
};
use vstd::prelude::*;

verus! {

/// The size of the buffer that a streamed copy moves bytes through.
pub const DEFAULT_BUFFER_SIZE: usize = 8 * 1024 * 1024;

/// Which way a transfer goes.
#[derive(Clone, Copy, Debug, PartialEq, Eq, Structural)]
pub enum Direction {
    /// The source is local and the destination remote.
    Upload,
    /// The source is remote and the destination local.
    Download,
}

pub open spec fn source_speaks(k: SourceType, p: ProtocolType) -> bool {
    match p {
        ProtocolType::Sftp => k == SourceType::Sftp,
        ProtocolType::Scp => k == SourceType::Scp,
    }
}

pub open spec fn destination_speaks(k: DestinationType, p: ProtocolType) -> bool {
    match p {
        ProtocolType::Sftp => k == DestinationType::Sftp,
        ProtocolType::Scp => k == DestinationType::Scp,
    }
}

/// The direction of a profile under its protocol: a local source with a
/// destination of that protocol uploads; a source of that protocol with a
/// local destination downloads; any other pairing is refused.
pub open spec fn direction_of(p: TransferProfile) -> Result<Direction, ErrorView> {
    let proto = p.transfer_protocol.protocol;
    if p.source.kind == SourceType::Local {
        if destination_speaks(p.destination.kind, proto) {
            Ok(Direction::Upload)
        } else {
            Err(ErrorView::Validation("Unsupported transfer destination type"@))
        }
    } else if source_speaks(p.source.kind, proto) {
        if p.destination.kind == DestinationType::Local {
            Ok(Direction::Download)
        } else {
            Err(ErrorView::Validation("Unsupported transfer destination type"@))
        }
    } else {
        Err(ErrorView::Validation("Unsupported transfer source type"@))
    }
}

fn source_matches(k: SourceType, p: ProtocolType) -> (r: bool)
    ensures
        r == source_speaks(k, p),
{
    match p {
        ProtocolType::Sftp => k == SourceType::Sftp,
        ProtocolType::Scp => k == SourceType::Scp,
    }
}

fn destination_matches(k: DestinationType, p: ProtocolType) -> (r: bool)
    ensures
        r == destination_speaks(k, p),
{
    match p {
        ProtocolType::Sftp => k == DestinationType::Sftp,
        ProtocolType::Scp => k == DestinationType::Scp,
    }
}

/// Picks the direction of a profile, or refuses its endpoint pairing.
pub fn select_direction(profile: &TransferProfile) -> (r: Result<Direction, AppError>)
    ensures
        outcome(r) == direction_of(*profile),
{
    let proto = profile.transfer_protocol.protocol;
    if profile.source.kind == SourceType::Local {
        if destination_matches(profile.destination.kind, proto) {
            Ok(Direction::Upload)
        } else {
            Err(AppError::Validation(String::from_str("Unsupported transfer destination type")))
        }
    } else if source_matches(profile.source.kind, proto) {
        if profile.destination.kind == DestinationType::Local {
            Ok(Direction::Download)
        } else {
            Err(AppError::Validation(String::from_str("Unsupported transfer destination type")))
        }
    } else {
        Err(AppError::Validation(String::from_str("Unsupported transfer source type")))
    }
}

/// The endpoint that a transfer connects to: the destination of an upload,
/// the source of a download. It gives host, port and authentication.
pub fn remote_endpoint<'a>(profile: &'a TransferProfile, direction: Direction) -> (r: (
    &'a Option<String>,
    Option<u16>,
    &'a Option<Authentication>,
))
    ensures
        direction == Direction::Upload ==> *r.0 == profile.destination.host && r.1
            == profile.destination.port && *r.2 == profile.destination.authentication,
        direction == Direction::Download ==> *r.0 == profile.source.host && r.1 == profile.source.port
            && *r.2 == profile.source.authentication,
{
    match direction {
        Direction::Upload => (&profile.destination.host, profile.destination.port, &profile.destination.authentication),
        Direction::Download => (&profile.source.host, profile.source.port, &profile.source.authentication),
    }
}

/// The local and the remote path of a transfer, in that order.
pub fn transfer_paths<'a>(profile: &'a TransferProfile, direction: Direction) -> (r: (&'a String, &'a String))
    ensures
        direction == Direction::Upload ==> *r.0 == profile.source.path && *r.1 == profile.destination.path,
        direction == Direction::Download ==> *r.0 == profile.destination.path && *r.1 == profile.source.path,
{
    match direction {
        Direction::Upload => (&profile.source.path, &profile.destination.path),
        Direction::Download => (&profile.destination.path, &profile.source.path),
    }
}

// ---- the ceiling ----

/// The verdict on a file of `size` bytes under a ceiling.
pub open spec fn size_verdict(path: Seq<char>, size: u64, limit: FileSizeLimit) -> Result<(), ErrorView> {
    if size as nat <= limit.spec_bytes() {
        Ok(())
    } else {
        Err(ErrorView::SizeExceeded { path, size, max_mb: limit.spec_mb() })
    }
}

/// Checks, before any byte moves, that a file of `size` bytes fits under
/// the ceiling of `limit` megabytes, a megabyte being 1024 * 1024 bytes.
pub fn check_file_size(path: &str, size: u64, limit: &FileSizeLimit) -> (r: Result<(), AppError>)
    requires
        limit.wf(),
    ensures
        outcome(r) == size_verdict(path@, size, *limit),
{
    let mb = crate::config::get_max_file_size_mb(limit);
    let max_bytes: u64 = mb * 1024 * 1024;
    if size > max_bytes {
        Err(AppError::SizeExceeded { path: String::from_str(path), size, max_mb: mb })
    } else {
        Ok(())
    }
}

/// A file exactly at the ceiling passes; one byte more is refused with
/// `SizeExceeded`.
pub proof fn lemma_size_ceiling(path: Seq<char>, limit: FileSizeLimit)
    requires
        limit.wf(),
    ensures
        size_verdict(path, (limit.spec_bytes()) as u64, limit) is Ok,
        size_verdict(path, (limit.spec_bytes() + 1) as u64, limit) == Err::<(), ErrorView>(
            ErrorView::SizeExceeded { path, size: (limit.spec_bytes() + 1) as u64, max_mb: limit.spec_mb() },
        ),
{
    assert(limit.spec_bytes() <= 2048 * 1024 * 1024) by (nonlinear_arith)
        requires
            limit.spec_mb() <= 2048,
            limit.spec_bytes() == limit.spec_mb() as nat * 1024 * 1024,
    ;
}

// ---- the streamed copy ----

/// How a streamed copy stands: how many bytes have moved, under which
/// ceiling.
pub struct CopyProgress {
    copied: u64,
    max_bytes: u64,
}

/// What a streamed copy does after a read.
#[derive(Clone, Copy, Debug, PartialEq, Eq, Structural)]
pub enum CopyStep {
    /// Write the bytes just read and read again.
    Write(usize),
    /// The source is exhausted: close the remote side cleanly.
    Finish,
}

impl CopyProgress {
    pub closed spec fn spec_copied(&self) -> nat {
        self.copied as nat
    }

    pub closed spec fn spec_max_bytes(&self) -> nat {
        self.max_bytes as nat
    }

    pub open spec fn wf(&self) -> bool {
        self.spec_copied() <= self.spec_max_bytes() <= MAX_ALLOWED_MB as nat * 1024 * 1024
    }

    /// A copy that has moved nothing yet, under the ceiling of `limit`.
    pub fn start(limit: &FileSizeLimit) -> (r: CopyProgress)
        requires
            limit.wf(),
        ensures
            r.wf(),
            r.spec_copied() == 0,
            r.spec_max_bytes() == limit.spec_bytes(),
    {
        let mb = crate::config::get_max_file_size_mb(limit);
        CopyProgress { copied: 0, max_bytes: mb * 1024 * 1024 }
    }

    /// The number of bytes moved so far.
    pub fn copied(&self) -> (r: u64)
        ensures
            r as nat == self.spec_copied(),
    {
        self.copied
    }

    /// Takes note of a read of `n` bytes: none means the source is
    /// exhausted; otherwise the bytes are to be written, unless they would
    /// take the copy over the ceiling.
    pub fn record_read(&mut self, path: &str, n: usize) -> (r: Result<CopyStep, AppError>)
        requires
            old(self).wf(),
            n <= DEFAULT_BUFFER_SIZE,
        ensures
            final(self).wf(),
            final(self).spec_max_bytes() == old(self).spec_max_bytes(),
            n == 0 ==> r == Ok::<CopyStep, AppError>(CopyStep::Finish) && final(self).spec_copied() == old(self).spec_copied(),
            n > 0 && old(self).spec_copied() + n <= old(self).spec_max_bytes() ==> r == Ok::<CopyStep, AppError>(
                CopyStep::Write(n),
            ) && final(self).spec_copied() == old(self).spec_copied() + n,
            n > 0 && old(self).spec_copied() + n > old(self).spec_max_bytes() ==> final(self).spec_copied()
                == old(self).spec_copied() && outcome(r) == Err::<CopyStep, ErrorView>(
                ErrorView::SizeExceeded {
                    path: path@,
                    size: (old(self).spec_copied() + n) as u64,
                    max_mb: (old(self).spec_max_bytes() / (1024 * 1024)) as u64,
                },
            ),
    {
        if n == 0 {
            return Ok(CopyStep::Finish);
        }
        let total: u64 = self.copied + n as u64;
        if total > self.max_bytes {
            return Err(AppError::SizeExceeded {
                path: String::from_str(path),
                size: total,
                max_mb: self.max_bytes / (1024 * 1024),
            });
        }
        self.copied = total;
        Ok(CopyStep::Write(n))
    }
}

} // verus!
