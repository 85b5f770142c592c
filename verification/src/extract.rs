//! The frame extractor seen from the pipeline: the command line it is
//! started with, and the judgement of what it wrote.

use crate::error::Error;
use vstd::prelude::*;
use vstd::string::StringExecFns;

verus! {

/// The program that extracts frames.
pub const EXTRACTOR_PROGRAM: &'static str = "ffmpeg";

/// The frame that stands for a video: late enough to lie past leading blank
/// frames, early enough to be cheap to reach.
pub const FRAME_INDEX: usize = 16;

/// The decimal digit for `n` in `0..10`.
pub open spec fn decimal_digit(n: nat) -> char {
    seq!['0', '1', '2', '3', '4', '5', '6', '7', '8', '9'][n as int]
}

/// The decimal numeral of `n`, without leading zeros.
pub open spec fn decimal(n: nat) -> Seq<char>
    decreases n,
{
    if n < 10 {
        seq![decimal_digit(n)]
    } else {
        decimal(n / 10).push(decimal_digit(n % 10))
    }
}

fn digit_text(d: usize) -> (text: &'static str)
    requires
        d < 10,
    ensures
        text@ == seq![decimal_digit(d as nat)],
{
    proof {
        reveal_strlit("0");
        reveal_strlit("1");
        reveal_strlit("2");
        reveal_strlit("3");
        reveal_strlit("4");
        reveal_strlit("5");
        reveal_strlit("6");
        reveal_strlit("7");
        reveal_strlit("8");
        reveal_strlit("9");
    }
    let text = if d == 0 {
        "0"
    } else if d == 1 {
        "1"
    } else if d == 2 {
        "2"
    } else if d == 3 {
        "3"
    } else if d == 4 {
        "4"
    } else if d == 5 {
        "5"
    } else if d == 6 {
        "6"
    } else if d == 7 {
        "7"
    } else if d == 8 {
        "8"
    } else {
        "9"
    };
    assert(text@ =~= seq![decimal_digit(d as nat)]);
    text
}

/// Writes `n` in decimal.
pub fn decimal_text(n: usize) -> (text: String)
    ensures
        text@ == decimal(n as nat),
    decreases n,
{
    if n < 10 {
        String::from_str(digit_text(n))
    } else {
        let mut text = decimal_text(n / 10);
        text.append(digit_text(n % 10));
        assert(text@ =~= decimal((n / 10) as nat).push(decimal_digit((n % 10) as nat)));
        text
    }
}

/// The filter expression that selects frame `index` of a video.
pub open spec fn frame_selector(index: nat) -> Seq<char> {
    "select=eq(n\\,"@ + decimal(index) + ")"@
}

/// The arguments that make the extractor read the video at `path`, pick
/// frame `index`, encode it as one WebP image and write that image to its
/// standard output.
pub open spec fn extractor_arguments(path: Seq<char>, index: nat) -> Seq<Seq<char>> {
    seq![
        "-loglevel"@,
        "panic"@,
        "-i"@,
        path,
        "-vf"@,
        frame_selector(index),
        "-vframes"@,
        "1"@,
        "-c:v"@,
        "webp"@,
        "-movflags"@,
        "empty_moov"@,
        "-f"@,
        "image2pipe"@,
        "pipe:1"@,
    ]
}

/// Builds the extractor's argument list for one frame of one video.
pub fn arguments(path: &str, index: usize) -> (args: Vec<String>)
    ensures
        args.deep_view() == extractor_arguments(path@, index as nat),
{
    let mut selector = String::from_str("select=eq(n\\,");
    selector.append(decimal_text(index).as_str());
    selector.append(")");
    let mut args: Vec<String> = Vec::new();
    args.push(String::from_str("-loglevel"));
    args.push(String::from_str("panic"));
    args.push(String::from_str("-i"));
    args.push(String::from_str(path));
    args.push(String::from_str("-vf"));
    args.push(selector);
    args.push(String::from_str("-vframes"));
    args.push(String::from_str("1"));
    args.push(String::from_str("-c:v"));
    args.push(String::from_str("webp"));
    args.push(String::from_str("-movflags"));
    args.push(String::from_str("empty_moov"));
    args.push(String::from_str("-f"));
    args.push(String::from_str("image2pipe"));
    args.push(String::from_str("pipe:1"));
    assert(args.deep_view() =~= extractor_arguments(path@, index as nat));
    args
}

/// What a finished extractor process left behind.
#[derive(Debug, PartialEq, Eq)]
pub struct ExtractorOutput {
    /// Whether the process reported success on exit.
    pub success: bool,
    /// Everything it wrote to its standard output.
    pub stdout: Vec<u8>,
    /// Everything it wrote to its standard error.
    pub stderr: Vec<u8>,
}

/// How a run of the extractor ended.
#[derive(Debug, PartialEq, Eq)]
pub enum ExtractorRun {
    /// The process could not be started.
    NotStarted,
    /// The process was started, but waiting for it failed.
    Lost,
    /// The process did not end in the time it was given, and was killed.
    TimedOut,
    /// The process ended by itself.
    Finished(ExtractorOutput),
}

/// The text that `String::from_utf8_lossy` makes of a byte sequence.
pub uninterp spec fn utf8_lossy(bytes: Seq<u8>) -> Seq<char>;

/// Calls `String::from_utf8_lossy` and copies the result into a `String`.
/// The standard library documents that valid UTF-8 is decoded as it is and
/// that each invalid sequence is replaced by U+FFFD: the text depends on
/// the bytes alone.
#[verifier::external_body]
fn lossy_text(bytes: &[u8]) -> (text: String)
    ensures
        text@ == utf8_lossy(bytes@),
{
    String::from_utf8_lossy(bytes).into_owned()
}

impl ExtractorOutput {
    /// Whether the output holds a frame: the process succeeded and wrote
    /// something.
    pub open spec fn has_frame(&self) -> bool {
        self.success && self.stdout@.len() > 0
    }

    /// The extractor's own account of what went wrong, for the log.
    pub fn diagnostic(&self) -> (text: String)
        ensures
            text@ == utf8_lossy(self.stderr@),
    {
        lossy_text(self.stderr.as_slice())
    }

    /// The extracted frame, or a transcode failure where the process failed
    /// or wrote nothing.
    pub fn into_frame(self) -> (r: Result<Vec<u8>, Error>)
        ensures
            self.has_frame() ==> r is Ok && r->Ok_0@ == self.stdout@,
            !self.has_frame() ==> r == Err::<Vec<u8>, Error>(Error::TranscodeFailure),
    {
        if self.success && self.stdout.len() > 0 {
            Ok(self.stdout)
        } else {
            Err(Error::TranscodeFailure)
        }
    }
}

impl ExtractorRun {
    /// What a run comes to: the frame that a finished process left behind,
    /// and else the failure that names what went wrong. A process that had
    /// to be killed has failed to transcode, like one that ended by itself
    /// without a frame.
    pub open spec fn frame(self) -> Result<Seq<u8>, Error> {
        match self {
            ExtractorRun::NotStarted => Err(Error::ExternalProcessSpawnFailure),
            ExtractorRun::Lost => Err(Error::IoFailure),
            ExtractorRun::TimedOut => Err(Error::TranscodeFailure),
            ExtractorRun::Finished(output) => if output.has_frame() {
                Ok(output.stdout@)
            } else {
                Err(Error::TranscodeFailure)
            },
        }
    }

    /// The extracted frame, or why there is none.
    pub fn into_frame(self) -> (r: Result<Vec<u8>, Error>)
        ensures
            match (r, self.frame()) {
                (Ok(frame), Ok(expected)) => frame@ == expected,
                (Err(error), Err(expected)) => error == expected,
                _ => false,
            },
    {
        match self {
            ExtractorRun::NotStarted => Err(Error::ExternalProcessSpawnFailure),
            ExtractorRun::Lost => Err(Error::IoFailure),
            ExtractorRun::TimedOut => Err(Error::TranscodeFailure),
            ExtractorRun::Finished(output) => output.into_frame(),
        }
    }
}

} // verus!
