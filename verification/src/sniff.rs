//! Content sniffing: what an upload really is, judged by its first bytes
//! alone and never by the name the client gave it.

use crate::error::Error;
use vstd::prelude::*;

verus! {

/// How many leading bytes of a file take part in sniffing, before the one
/// extra byte that is read beyond them.
pub const SNIFF_WINDOW: u64 = 8192;

/// The broad category of a recognized signature.
#[derive(Clone, Copy, Debug, PartialEq, Eq, Structural)]
pub enum MediaKind {
    App,
    Archive,
    Audio,
    Book,
    Doc,
    Font,
    Image,
    Text,
    Video,
    Custom,
}

/// A recognized signature: its category and the file extension that goes
/// with it.
#[derive(Debug, PartialEq, Eq)]
pub struct Detected {
    pub kind: MediaKind,
    pub extension: String,
}

/// The mathematical content of a [`Detected`].
pub struct DetectedView {
    pub kind: MediaKind,
    pub extension: Seq<char>,
}

impl View for Detected {
    type V = DetectedView;

    open spec fn view(&self) -> DetectedView {
        DetectedView { kind: self.kind, extension: self.extension@ }
    }
}

/// What the signature table of the `infer` crate makes of a buffer: the
/// category and extension of the first entry of the table whose matcher
/// accepts the buffer, or `None` where no entry does.
pub uninterp spec fn infer_get(bytes: Seq<u8>) -> Option<DetectedView>;

/// Calls `infer::get`, which walks a fixed table of signature matchers over
/// the buffer and answers with the first entry that matches, and copies that
/// entry's `matcher_type()` and `extension()`. The answer depends on the
/// bytes alone.
#[verifier::external_body]
fn detect(prefix: &[u8]) -> (found: Option<Detected>)
    ensures
        found.is_some() == infer_get(prefix@).is_some(),
        found.is_some() ==> found.unwrap()@ == infer_get(prefix@).unwrap(),
{
    let found = infer::get(prefix)?;
    let kind = match found.matcher_type() {
        infer::MatcherType::App => MediaKind::App,
        infer::MatcherType::Archive => MediaKind::Archive,
        infer::MatcherType::Audio => MediaKind::Audio,
        infer::MatcherType::Book => MediaKind::Book,
        infer::MatcherType::Doc => MediaKind::Doc,
        infer::MatcherType::Font => MediaKind::Font,
        infer::MatcherType::Image => MediaKind::Image,
        infer::MatcherType::Text => MediaKind::Text,
        infer::MatcherType::Video => MediaKind::Video,
        infer::MatcherType::Custom => MediaKind::Custom,
    };
    Some(Detected { kind, extension: found.extension().to_string() })
}

/// The number of bytes to read from a file of `len` bytes for sniffing: the
/// sniffing window, or the whole file where it is shorter, and one byte
/// more. Nothing is read from a file whose length is not known.
pub open spec fn spec_sniff_limit(len: Option<u64>) -> nat {
    match len {
        Some(n) => if n < SNIFF_WINDOW {
            (n + 1) as nat
        } else {
            (SNIFF_WINDOW + 1) as nat
        },
        None => 0,
    }
}

/// How many bytes to read from the start of an upload before judging it.
pub fn sniff_limit(len: Option<u64>) -> (limit: usize)
    ensures
        limit == spec_sniff_limit(len),
        limit <= SNIFF_WINDOW + 1,
{
    match len {
        Some(n) => {
            if n < SNIFF_WINDOW {
                n as usize + 1
            } else {
                SNIFF_WINDOW as usize + 1
            }
        },
        None => 0,
    }
}

/// The verdict on a sniffing result: the extension of a recognized video,
/// and a sniff failure for anything else.
pub open spec fn spec_verdict(found: Option<DetectedView>) -> Result<Seq<char>, Error> {
    match found {
        Some(d) => if d.kind == MediaKind::Video {
            Ok(d.extension)
        } else {
            Err(Error::SniffFailure)
        },
        None => Err(Error::SniffFailure),
    }
}

/// Whether two verdicts agree, extensions compared as text.
pub open spec fn verdict_is(verdict: Result<String, Error>, expected: Result<Seq<char>, Error>) -> bool {
    match (verdict, expected) {
        (Ok(a), Ok(b)) => a@ == b,
        (Err(a), Err(b)) => a == b,
        _ => false,
    }
}

/// Judges what the signature table found. Only a video passes, and it
/// passes under the extension of its signature.
pub fn verdict(found: Option<Detected>) -> (r: Result<String, Error>)
    ensures
        verdict_is(
            r,
            spec_verdict(
                match found {
                    Some(d) => Some(d@),
                    None => None,
                },
            ),
        ),
{
    match found {
        Some(d) => {
            match d.kind {
                MediaKind::Video => Ok(d.extension),
                _ => Err(Error::SniffFailure),
            }
        },
        None => Err(Error::SniffFailure),
    }
}

/// Sniffs the leading bytes of an upload.
pub fn sniff(prefix: &[u8]) -> (r: Result<String, Error>)
    ensures
        verdict_is(r, spec_verdict(infer_get(prefix@))),
{
    verdict(detect(prefix))
}

} // verus!
