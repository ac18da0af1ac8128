//! What the answer to a request for a file amounts to.

use vstd::prelude::*;
use crate::release::{is_success, status_is_success};

verus! {

/// Why a file could not be downloaded.
#[derive(Clone, Copy, Debug, PartialEq, Eq, Structural)]
pub enum DownloadError {
    /// The request got no answer, or the body could not be read.
    Unreachable,
    /// The answer carries a status outside the success range.
    BadStatus,
}

/// The answer to a request for a file.
#[derive(Debug)]
pub enum DownloadReply {
    /// The request got no answer.
    Unreachable,
    /// The request was answered with `status`; `body` holds the bytes of
    /// the answer, or `None` where they could not be read to the end.
    Answered { status: u16, body: Option<Vec<u8>> },
}

/// What a download brought: the bytes of the body of an answer with a
/// success status; `Unreachable` where there is no answer or its body could
/// not be read; `BadStatus` where the status is no success, whatever the
/// body.
pub open spec fn download_result(reply: DownloadReply) -> Result<Seq<u8>, DownloadError> {
    match reply {
        DownloadReply::Unreachable => Err(DownloadError::Unreachable),
        DownloadReply::Answered { status, body } => if !is_success(status) {
            Err(DownloadError::BadStatus)
        } else {
            match body {
                Some(bytes) => Ok(bytes@),
                None => Err(DownloadError::Unreachable),
            }
        },
    }
}

/// The bytes that a download brought: the body of an answer with a success
/// status. It fails with `Unreachable` where there is no answer or its body
/// could not be read, and with `BadStatus` where the status is no success,
/// whatever the body.
pub fn downloaded(reply: DownloadReply) -> (content: Result<Vec<u8>, DownloadError>)
    ensures
        match content {
            Ok(bytes) => download_result(reply) == Ok::<Seq<u8>, DownloadError>(bytes@),
            Err(e) => download_result(reply) == Err::<Seq<u8>, DownloadError>(e),
        },
{
    match reply {
        DownloadReply::Unreachable => Err(DownloadError::Unreachable),
        DownloadReply::Answered { status, body } => {
            if !status_is_success(status) {
                Err(DownloadError::BadStatus)
            } else {
                match body {
                    Some(bytes) => Ok(bytes),
                    None => Err(DownloadError::Unreachable),
                }
            }
        },
    }
}

/// The status with which an answer says that nothing stands at the address
/// asked for.
pub const STATUS_NOT_FOUND: u16 = 404;

/// Whether an answer says that nothing stands at the address asked for.
pub open spec fn is_not_found(reply: DownloadReply) -> bool {
    reply matches DownloadReply::Answered { status, .. } && status == STATUS_NOT_FOUND
}

/// Whether an answer says that nothing stands at the address asked for.
pub fn answers_not_found(reply: &DownloadReply) -> (missing: bool)
    ensures
        missing == is_not_found(*reply),
{
    match reply {
        DownloadReply::Answered { status, .. } => *status == STATUS_NOT_FOUND,
        DownloadReply::Unreachable => false,
    }
}

} // verus!
