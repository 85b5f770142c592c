//! The kinds of failure that the pipeline and the caches report.

use crate::response::StatusCode;
use crate::response::INTERNAL_SERVER_ERROR;
use crate::response::UNSUPPORTED_MEDIA_TYPE;
use vstd::prelude::*;
use vstd::string::StringExecFns;

verus! {

/// Why an operation of this library, or the outside work done on its
/// behalf, did not succeed.
#[derive(Clone, Copy, Debug, PartialEq, Eq, Structural)]
pub enum Error {
    /// A file or network operation failed.
    IoFailure,
    /// A query or transaction of the durable store failed.
    StoreFailure,
    /// The uploaded content is unrecognizable or is not a video.
    SniffFailure,
    /// The frame extractor exited unsuccessfully or produced no output.
    TranscodeFailure,
    /// The extracted frame could not be decoded or re-encoded.
    DecodeFailure,
    /// The frame extractor could not be started.
    ExternalProcessSpawnFailure,
    /// A stored password hash could not be read.
    HashFailure,
}

impl Error {
    /// The status that a client sees for this failure: unsupported media
    /// type where the client sent something that is no video, and an
    /// internal error for everything that went wrong on the server's side.
    pub open spec fn spec_status(self) -> StatusCode {
        match self {
            Error::SniffFailure => StatusCode(UNSUPPORTED_MEDIA_TYPE),
            _ => StatusCode(INTERNAL_SERVER_ERROR),
        }
    }

    /// The status that a client sees for this failure.
    pub fn status(&self) -> (status: StatusCode)
        ensures
            status == self.spec_status(),
    {
        match self {
            Error::SniffFailure => StatusCode(UNSUPPORTED_MEDIA_TYPE),
            _ => StatusCode(INTERNAL_SERVER_ERROR),
        }
    }

    /// The line that describes this failure in the log.
    pub open spec fn spec_message(self) -> Seq<char> {
        match self {
            Error::IoFailure => "io: file or network operation failed"@,
            Error::StoreFailure => "store: query or transaction failed"@,
            Error::SniffFailure => "invalid file type uploaded"@,
            Error::TranscodeFailure => "ffmpeg: no frame extracted"@,
            Error::DecodeFailure => "image: frame could not be decoded or encoded"@,
            Error::ExternalProcessSpawnFailure => "ffmpeg: could not be started"@,
            Error::HashFailure => "bcrypt: stored hash could not be read"@,
        }
    }

    /// The line that describes this failure in the log.
    pub fn message(&self) -> (text: String)
        ensures
            text@ == self.spec_message(),
    {
        match self {
            Error::IoFailure => String::from_str("io: file or network operation failed"),
            Error::StoreFailure => String::from_str("store: query or transaction failed"),
            Error::SniffFailure => String::from_str("invalid file type uploaded"),
            Error::TranscodeFailure => String::from_str("ffmpeg: no frame extracted"),
            Error::DecodeFailure => String::from_str(
                "image: frame could not be decoded or encoded",
            ),
            Error::ExternalProcessSpawnFailure => String::from_str("ffmpeg: could not be started"),
            Error::HashFailure => String::from_str("bcrypt: stored hash could not be read"),
        }
    }
}

} // verus!
