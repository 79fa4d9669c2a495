//! The transfer of one file: what is asked of the registry, how its answer
//! is written to the cache, and how far the transfer has come.

use crate::decimal::{decimal_text, push_decimal};
use crate::error::{failure, DownloadError, DownloadErrorView};
use crate::http::{is_success, status_detail, status_detail_spec, status_is_success};
use vstd::prelude::*;

verus! {

/// The status of an answer that holds a part of the file.
pub const PARTIAL_CONTENT: u16 = 206;

/// The number of bytes that are read from the registry at a time.
pub const CHUNK_SIZE: usize = 8192;

/// The range that is asked for to go on behind the first `resume_from`
/// bytes: `bytes=<resume_from>-`; the whole file is asked for without one.
pub open spec fn range_header_spec(resume_from: u64) -> Option<Seq<char>> {
    if resume_from > 0 {
        Some("bytes="@ + decimal_text(resume_from as nat) + seq!['-'])
    } else {
        None
    }
}

/// The value of the `Range` header of the request for a file of which
/// `resume_from` bytes are there already, if the request has one.
pub fn range_header(resume_from: u64) -> (r: Option<String>)
    ensures
        match r {
            Some(h) => range_header_spec(resume_from) == Some(h@),
            None => range_header_spec(resume_from) is None,
        },
{
    if resume_from > 0 {
        let mut h = String::from_str("bytes=");
        push_decimal(&mut h, resume_from);
        h.push('-');
        Some(h)
    } else {
        None
    }
}

/// How the destination of a transfer is opened.
#[derive(Clone, Copy, Debug, PartialEq, Eq, Structural)]
pub enum WriteMode {
    /// The file is there and the bytes go behind its end.
    Append,
    /// The file is made, or emptied, and written from its start.
    Truncate,
}

/// A transfer under way.
#[derive(Clone, Copy, Debug, PartialEq, Eq, Structural)]
pub struct Transfer {
    /// How the destination is opened.
    pub mode: WriteMode,
    /// The number of bytes of the file that are in the cache.
    pub position: u64,
    /// The size of the whole file as far as the answer tells it.
    pub total_size: u64,
}

/// The sum of two sizes, and the largest size where the sum is larger.
pub open spec fn capped_sum(a: u64, b: nat) -> u64 {
    if a + b > u64::MAX {
        u64::MAX
    } else {
        (a + b) as u64
    }
}

/// The transfer that an answer with `status` starts. A partial answer goes
/// on behind the `resume_from` bytes that are there, any other success starts
/// the file anew; the whole size is the length that the answer announces, 0
/// where it announces none, and the bytes before it.
pub open spec fn transfer_spec(status: u16, content_length: Option<u64>, resume_from: u64)
    -> Transfer {
    let position = if status == PARTIAL_CONTENT {
        resume_from
    } else {
        0
    };
    let announced = match content_length {
        Some(n) => n,
        None => 0,
    };
    Transfer {
        mode: if status == PARTIAL_CONTENT {
            WriteMode::Append
        } else {
            WriteMode::Truncate
        },
        position,
        total_size: capped_sum(announced, position as nat),
    }
}

/// Decides from the head of the registry's answer how the file is written.
/// An answer outside 200 to 299 fails the transfer and names the address and
/// the status; any other starts `transfer_spec`.
pub fn download_file(url: &str, status: u16, content_length: Option<u64>, resume_from: u64) -> (r:
    Result<Transfer, DownloadError>)
    ensures
        is_success(status) ==> r == Ok::<Transfer, DownloadError>(
            transfer_spec(status, content_length, resume_from),
        ),
        !is_success(status) ==> failure(r) == Some(
            DownloadErrorView::ManifestFetch(status_detail_spec(url@, status)),
        ),
{
    if !status_is_success(status) {
        return Err(DownloadError::ManifestFetch(status_detail(url, status)));
    }
    let partial = status == PARTIAL_CONTENT;
    let position: u64 = if partial {
        resume_from
    } else {
        0
    };
    let announced: u64 = match content_length {
        Some(n) => n,
        None => 0,
    };
    let total_size: u64 = if announced > u64::MAX - position {
        u64::MAX
    } else {
        announced + position
    };
    Ok(
        Transfer {
            mode: if partial {
                WriteMode::Append
            } else {
                WriteMode::Truncate
            },
            position,
            total_size,
        },
    )
}

impl Transfer {
    /// Takes note of what a read from the registry gave. A read of no bytes
    /// ends the transfer; after any other, the bytes are written and the
    /// position moves on by their number.
    pub fn advance(&mut self, bytes_read: usize) -> (more: bool)
        ensures
            more == (bytes_read > 0),
            final(self).position == capped_sum(old(self).position, bytes_read as nat),
            final(self).mode == old(self).mode,
            final(self).total_size == old(self).total_size,
    {
        let n: u64 = bytes_read as u64;
        if n > u64::MAX - self.position {
            self.position = u64::MAX;
        } else {
            self.position = self.position + n;
        }
        bytes_read > 0
    }
}

} // verus!
