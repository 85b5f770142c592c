use hawk::error::Error;
use hawk::extract::{
    arguments, decimal_text, ExtractorOutput, ExtractorRun, EXTRACTOR_PROGRAM, FRAME_INDEX,
};

#[test]
fn decimal_text_of_small_and_large_numbers() {
    assert_eq!(decimal_text(0), "0");
    assert_eq!(decimal_text(7), "7");
    assert_eq!(decimal_text(10), "10");
    assert_eq!(decimal_text(16), "16");
    assert_eq!(decimal_text(1203), "1203");
    assert_eq!(decimal_text(usize::MAX), usize::MAX.to_string());
}

#[test]
fn extractor_is_ffmpeg_and_frame_is_sixteen() {
    assert_eq!(EXTRACTOR_PROGRAM, "ffmpeg");
    assert_eq!(FRAME_INDEX, 16);
}

#[test]
fn arguments_select_one_webp_frame_to_stdout() {
    let args = arguments("assets/video/a.mp4", 16);
    let expected = vec![
        "-loglevel",
        "panic",
        "-i",
        "assets/video/a.mp4",
        "-vf",
        "select=eq(n\\,16)",
        "-vframes",
        "1",
        "-c:v",
        "webp",
        "-movflags",
        "empty_moov",
        "-f",
        "image2pipe",
        "pipe:1",
    ];
    assert_eq!(args, expected);
}

#[test]
fn arguments_carry_the_index() {
    assert_eq!(arguments("v", 0)[5], "select=eq(n\\,0)");
    assert_eq!(arguments("v", 250)[5], "select=eq(n\\,250)");
    assert_eq!(arguments("v", 250)[3], "v");
}

#[test]
fn frame_of_a_successful_run() {
    let output = ExtractorOutput { success: true, stdout: vec![1, 2, 3], stderr: vec![] };
    assert_eq!(output.into_frame(), Ok(vec![1, 2, 3]));
}

#[test]
fn no_frame_without_output() {
    let output = ExtractorOutput { success: true, stdout: vec![], stderr: vec![] };
    assert_eq!(output.into_frame(), Err(Error::TranscodeFailure));
}

#[test]
fn no_frame_from_a_failed_run() {
    let output = ExtractorOutput { success: false, stdout: vec![1, 2, 3], stderr: b"boom".to_vec() };
    assert_eq!(output.into_frame(), Err(Error::TranscodeFailure));
    let output = ExtractorOutput { success: false, stdout: vec![], stderr: vec![] };
    assert_eq!(output.into_frame(), Err(Error::TranscodeFailure));
}

#[test]
fn diagnostic_is_the_error_stream_as_text() {
    let output = ExtractorOutput {
        success: false,
        stdout: vec![],
        stderr: b"No such file".to_vec(),
    };
    assert_eq!(output.diagnostic(), "No such file");
}

#[test]
fn diagnostic_replaces_invalid_bytes() {
    let output = ExtractorOutput { success: false, stdout: vec![], stderr: vec![b'a', 0xff, b'b'] };
    assert_eq!(output.diagnostic(), "a\u{fffd}b");
}

#[test]
fn frame_of_a_run() {
    let output = ExtractorOutput { success: true, stdout: vec![7], stderr: vec![] };
    assert_eq!(ExtractorRun::Finished(output).into_frame(), Ok(vec![7]));
    let output = ExtractorOutput { success: false, stdout: vec![7], stderr: vec![] };
    assert_eq!(ExtractorRun::Finished(output).into_frame(), Err(Error::TranscodeFailure));
    assert_eq!(ExtractorRun::TimedOut.into_frame(), Err(Error::TranscodeFailure));
    assert_eq!(ExtractorRun::NotStarted.into_frame(), Err(Error::ExternalProcessSpawnFailure));
    assert_eq!(ExtractorRun::Lost.into_frame(), Err(Error::IoFailure));
}
