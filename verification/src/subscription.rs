//! Downloading subscription files.

use vstd::prelude::*;
use crate::types::Subscription;
use crate::download::{download_result, downloaded, DownloadError, DownloadReply};

verus! {

/// A file to be written, with the directories above it created as needed.
#[derive(Debug)]
pub struct SavedFile {
    /// Where to write it.
    pub path: String,
    /// Its bytes.
    pub content: Vec<u8>,
}

/// Downloads the subscriptions of a configuration.
#[derive(Clone, Copy, Debug)]
pub struct SubscriptionManager;

impl SubscriptionManager {
    /// A manager of subscription downloads.
    pub fn new() -> (manager: Self) {
        SubscriptionManager
    }

    /// What the answer to the request for the subscription `sub` is to be
    /// saved as: the whole body of an answer with a success status, at the
    /// save path of the subscription.
    ///
    /// It fails with `Unreachable` where there is no answer or its body
    /// could not be read, and with `BadStatus` where the status is no
    /// success.
    pub fn download_subscription(&self, sub: &Subscription, reply: DownloadReply) -> (saved: Result<
        SavedFile,
        DownloadError,
    >)
        ensures
            match saved {
                Ok(file) => download_result(reply) == Ok::<Seq<u8>, DownloadError>(
                    file.content@,
                ) && file.path@ == sub.save_path@,
                Err(e) => download_result(reply) == Err::<Seq<u8>, DownloadError>(e),
            },
    {
        match downloaded(reply) {
            Ok(content) => Ok(SavedFile { path: sub.save_path.clone(), content }),
            Err(e) => Err(e),
        }
    }
}

} // verus!
