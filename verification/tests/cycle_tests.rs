use clipboard_processor::cycle::{Action, Completion, CycleReport, Event, Stage, State};
use clipboard_processor::error::CycleError;
use clipboard_processor::machine::{
    advance, begin, encoding_event, paste_action, transcribe, transition,
};
use clipboard_processor::notify::{failure_sound_due, transcribing};
use clipboard_processor::paste::{PasteKey, PasteStep};
use clipboard_processor::payload::{ClipboardPayload, CycleConfiguration};
use clipboard_processor::policy::Policy;

fn words(list: &[&str]) -> Vec<String> {
    list.iter().map(|s| s.to_string()).collect()
}

fn configuration(credential: Option<&str>) -> CycleConfiguration {
    CycleConfiguration {
        trigger_key: 65,
        ocr_language: "eng".to_string(),
        ocr_command: "tesseract".to_string(),
        ocr_data_directory: None,
        ocr_extra_arguments: Vec::new(),
        transcription_credential: credential.map(|s| s.to_string()),
        policy: Policy::standard(),
    }
}

fn files(list: &[&str]) -> ClipboardPayload {
    ClipboardPayload::FileReferences(words(list))
}

fn white_bitmap(width: u32, height: u32) -> Vec<u8> {
    let picture = image::RgbImage::from_pixel(width, height, image::Rgb([255, 255, 255]));
    let mut out = std::io::Cursor::new(Vec::new());
    image::DynamicImage::ImageRgb8(picture)
        .write_to(&mut out, image::ImageFormat::Bmp)
        .unwrap();
    out.into_inner()
}

fn exited(success: bool, stdout: &[u8], stderr: &str) -> Event {
    Event::ToolExited { success, stdout: stdout.to_vec(), stderr: stderr.to_string() }
}

fn working(captured: ClipboardPayload, artifacts: &[&str], path: &str, stage: Stage) -> State {
    State::Working { captured, artifacts: words(artifacts), path: path.to_string(), stage }
}

fn failing(artifacts: &[&str], error: CycleError) -> State {
    State::Restoring { artifacts: words(artifacts), outcome: Err(error) }
}

fn finish(outcome: Result<Completion, CycleError>, restore_failed: bool) -> (State, Action) {
    (State::Idle, Action::Finish(CycleReport { outcome, restore_failed }))
}

/// Runs the two closing steps of a cycle and gives its last state and action.
fn close(cfg: &CycleConfiguration, state: State, answer: Event, artifacts: &[&str]) -> (State, Action) {
    let (state, action) = transition(cfg, state, answer);
    assert_eq!(action, Action::Discard(words(artifacts)));
    transition(cfg, state, Event::Done)
}

#[test]
fn idle_waits_until_the_trigger_key_goes_down() {
    let cfg = configuration(None);
    assert_eq!(
        transition(&cfg, State::Idle, Event::Key { pressed: true, code: 66 }),
        (State::Idle, Action::Wait)
    );
    assert_eq!(
        transition(&cfg, State::Idle, Event::Key { pressed: false, code: 65 }),
        (State::Idle, Action::Wait)
    );
    assert_eq!(transition(&cfg, State::Idle, Event::Done), (State::Idle, Action::Wait));
    assert_eq!(
        transition(&cfg, State::Idle, Event::Key { pressed: true, code: 65 }),
        (State::ProbingFiles, Action::ProbeFileReferences)
    );
}

#[test]
fn capture_asks_for_files_first_and_then_for_an_image() {
    let cfg = configuration(None);
    assert_eq!(
        transition(&cfg, State::ProbingFiles, Event::FormatAbsent),
        (State::ProbingImage, Action::ProbeImage)
    );
}

#[test]
fn capture_fails_without_a_supported_format() {
    let cfg = configuration(None);
    assert_eq!(
        transition(&cfg, State::ProbingImage, Event::FormatAbsent),
        finish(Err(CycleError::NoSupportedFormat), false)
    );
}

#[test]
fn capture_fails_where_the_clipboard_is_busy() {
    let cfg = configuration(None);
    assert_eq!(
        transition(&cfg, State::ProbingFiles, Event::ClipboardBusy),
        finish(Err(CycleError::ClipboardUnavailable), false)
    );
    assert_eq!(
        transition(&cfg, State::ProbingImage, Event::ClipboardBusy),
        finish(Err(CycleError::ClipboardUnavailable), false)
    );
    assert_eq!(
        transition(&cfg, State::ProbingFiles, Event::Failed),
        finish(Err(CycleError::ClipboardUnavailable), false)
    );
}

#[test]
fn white_image_with_empty_text_is_restored_and_not_pasted() {
    let cfg = configuration(None);
    let bitmap = white_bitmap(100, 50);
    let captured = ClipboardPayload::Image(bitmap.clone());
    let (state, action) = advance(&cfg, State::ProbingImage, Event::Image(bitmap.clone()));
    assert_eq!(
        action,
        Action::AcquireTemp { prefix: "clipboard_ocr_".to_string(), suffix: ".png".to_string() }
    );
    assert_eq!(state, working(captured.clone(), &[], "", Stage::ImageFile));
    let (state, action) = advance(&cfg, state, Event::TempAcquired("T:\\ocr.png".to_string()));
    assert_eq!(state, working(captured.clone(), &["T:\\ocr.png"], "T:\\ocr.png", Stage::ImageWrite));
    match action {
        Action::WriteFile { path, bytes } => {
            assert_eq!(path, "T:\\ocr.png");
            assert_ne!(bytes, bitmap);
            let back = image::load_from_memory(&bytes).unwrap().to_rgb8();
            assert_eq!(image::guess_format(&bytes).unwrap(), image::ImageFormat::Png);
            assert_eq!(back.dimensions(), (100, 50));
            assert!(back.pixels().all(|p| p.0 == [255, 255, 255]));
        }
        other => panic!("{:?}", other),
    }
    let (state, action) = advance(&cfg, state, Event::Done);
    assert_eq!(
        action,
        Action::RunTool {
            program: "tesseract".to_string(),
            arguments: words(&["T:\\ocr.png", "stdout", "-l", "eng"]),
        }
    );
    let (state, action) = advance(&cfg, state, exited(true, b"", ""));
    assert_eq!(action, Action::Restore(captured));
    assert_eq!(
        state,
        State::Restoring { artifacts: words(&["T:\\ocr.png"]), outcome: Ok(Completion::Empty) }
    );
    assert_eq!(close(&cfg, state, Event::Done, &["T:\\ocr.png"]), finish(Ok(Completion::Empty), false));
}

#[test]
fn film_without_conversion_tool_reports_it_and_is_restored() {
    let cfg = configuration(Some("SECRET-REDACTED"));
    let captured = files(&["C:\\a.mp4"]);
    let (state, action) = advance(&cfg, State::ProbingFiles, Event::FileReferences(words(&["C:\\a.mp4"])));
    assert_eq!(
        action,
        Action::AcquireTemp { prefix: "extracted_audio_".to_string(), suffix: ".mp3".to_string() }
    );
    assert_eq!(state, working(captured.clone(), &[], "C:\\a.mp4", Stage::ExtractionFile));
    let (state, action) = advance(&cfg, state, Event::TempAcquired("T:\\x.mp3".to_string()));
    assert_eq!(
        action,
        Action::RunTool {
            program: "ffmpeg".to_string(),
            arguments: words(&["-i", "C:\\a.mp4", "-vn", "-q:a", "0", "-y", "T:\\x.mp3"]),
        }
    );
    assert_eq!(state, working(captured.clone(), &["T:\\x.mp3"], "T:\\x.mp3", Stage::Extraction));
    let (state, action) = advance(&cfg, state, Event::ToolNotFound);
    assert_eq!(action, Action::Restore(captured));
    assert_eq!(state, failing(&["T:\\x.mp3"], CycleError::ConversionToolMissing));
    assert_eq!(
        close(&cfg, state, Event::Done, &["T:\\x.mp3"]),
        finish(Err(CycleError::ConversionToolMissing), false)
    );
}

#[test]
fn two_files_are_rejected_at_once() {
    let cfg = configuration(Some("SECRET-REDACTED"));
    let captured = files(&["C:\\a.wav", "C:\\b.wav"]);
    let (state, action) =
        advance(&cfg, State::ProbingFiles, Event::FileReferences(words(&["C:\\a.wav", "C:\\b.wav"])));
    assert_eq!(action, Action::Restore(captured));
    assert_eq!(state, failing(&[], CycleError::UnsupportedFileCount { count: 2 }));
    assert_eq!(
        close(&cfg, state, Event::Done, &[]),
        finish(Err(CycleError::UnsupportedFileCount { count: 2 }), false)
    );
}

#[test]
fn no_file_is_rejected_at_once() {
    let cfg = configuration(Some("SECRET-REDACTED"));
    let (state, action) = begin(&cfg, files(&[]));
    assert_eq!(action, Action::Restore(files(&[])));
    assert_eq!(state, failing(&[], CycleError::UnsupportedFileCount { count: 0 }));
}

#[test]
fn file_count_is_looked_at_before_kind_and_credential() {
    let cfg = configuration(None);
    let (state, _) = begin(&cfg, files(&["a.txt", "b.txt", "c.txt"]));
    assert_eq!(state, failing(&[], CycleError::UnsupportedFileCount { count: 3 }));
}

#[test]
fn other_file_is_unsupported() {
    let cfg = configuration(None);
    let (state, action) = begin(&cfg, files(&["C:\\notes.TXT"]));
    assert_eq!(action, Action::Restore(files(&["C:\\notes.TXT"])));
    assert_eq!(
        state,
        failing(&[], CycleError::UnsupportedFileType { extension: "TXT".to_string() })
    );
    let (state, _) = begin(&configuration(Some("k")), files(&["C:\\noextension"]));
    assert_eq!(state, failing(&[], CycleError::UnsupportedFileType { extension: String::new() }));
}

#[test]
fn transcription_needs_a_credential() {
    let cfg = configuration(None);
    for path in ["C:\\a.mp3", "C:\\a.wav", "C:\\a.mp4"] {
        let (state, action) = begin(&cfg, files(&[path]));
        assert_eq!(action, Action::Restore(files(&[path])));
        assert_eq!(state, failing(&[], CycleError::CredentialMissing));
    }
}

#[test]
fn image_needs_no_credential() {
    let cfg = configuration(None);
    let (state, action) = begin(&cfg, ClipboardPayload::Image(vec![1, 2, 3]));
    assert_eq!(
        action,
        Action::AcquireTemp { prefix: "clipboard_ocr_".to_string(), suffix: ".png".to_string() }
    );
    assert_eq!(state, working(ClipboardPayload::Image(vec![1, 2, 3]), &[], "", Stage::ImageFile));
}

#[test]
fn mp3_file_is_measured_as_it_is() {
    let cfg = configuration(Some("k"));
    let (state, action) = begin(&cfg, files(&["C:\\a.MP3"]));
    assert_eq!(action, Action::MeasureFile { path: "C:\\a.MP3".to_string() });
    assert_eq!(state, working(files(&["C:\\a.MP3"]), &[], "C:\\a.MP3", Stage::Measurement));
}

#[test]
fn other_sound_file_is_converted_to_mp3() {
    let cfg = configuration(Some("k"));
    let captured = files(&["C:\\a.wav"]);
    let (state, action) = begin(&cfg, files(&["C:\\a.wav"]));
    assert_eq!(
        action,
        Action::AcquireTemp { prefix: "transcribe_temp_".to_string(), suffix: ".mp3".to_string() }
    );
    assert_eq!(state, working(captured.clone(), &[], "C:\\a.wav", Stage::ConversionFile));
    let (state, action) = transition(&cfg, state, Event::TempAcquired("T:\\c.mp3".to_string()));
    assert_eq!(
        action,
        Action::RunTool {
            program: "ffmpeg".to_string(),
            arguments: words(&[
                "-i", "C:\\a.wav", "-vn", "-ar", "44100", "-ac", "2", "-b:a", "192k", "-f", "mp3",
                "-y", "T:\\c.mp3"
            ]),
        }
    );
    assert_eq!(state, working(captured.clone(), &["T:\\c.mp3"], "T:\\c.mp3", Stage::Conversion));
    let (state, action) = transition(&cfg, state, exited(true, b"", "warnings"));
    assert_eq!(action, Action::MeasureFile { path: "T:\\c.mp3".to_string() });
    assert_eq!(state, working(captured, &["T:\\c.mp3"], "T:\\c.mp3", Stage::Measurement));
}

#[test]
fn transcribe_begins_with_the_size_or_the_conversion() {
    let (state, action) = transcribe(files(&["x"]), words(&["t1"]), "T:\\t1.mp3".to_string());
    assert_eq!(action, Action::MeasureFile { path: "T:\\t1.mp3".to_string() });
    assert_eq!(state, working(files(&["x"]), &["t1"], "T:\\t1.mp3", Stage::Measurement));
    let (state, action) = transcribe(files(&["x"]), words(&["t1"]), "T:\\t1.ogg".to_string());
    assert_eq!(
        action,
        Action::AcquireTemp { prefix: "transcribe_temp_".to_string(), suffix: ".mp3".to_string() }
    );
    assert_eq!(state, working(files(&["x"]), &["t1"], "T:\\t1.ogg", Stage::ConversionFile));
}

#[test]
fn extracted_sound_track_goes_on_to_the_measurement() {
    let cfg = configuration(Some("k"));
    let captured = files(&["C:\\a.mkv"]);
    let state = working(captured.clone(), &["T:\\x.mp3"], "T:\\x.mp3", Stage::Extraction);
    let (state, action) = transition(&cfg, state, exited(true, b"", ""));
    assert_eq!(action, Action::MeasureFile { path: "T:\\x.mp3".to_string() });
    assert_eq!(state, working(captured, &["T:\\x.mp3"], "T:\\x.mp3", Stage::Measurement));
}

#[test]
fn extracted_sound_track_that_is_no_mp3_is_converted() {
    let cfg = configuration(Some("k"));
    let captured = files(&["C:\\a.mkv"]);
    let state = working(captured.clone(), &["T:\\x.tmp"], "T:\\x.tmp", Stage::Extraction);
    let (state, action) = transition(&cfg, state, exited(true, b"", ""));
    assert_eq!(
        action,
        Action::AcquireTemp { prefix: "transcribe_temp_".to_string(), suffix: ".mp3".to_string() }
    );
    let (state, _) = transition(&cfg, state, Event::TempAcquired("T:\\y.mp3".to_string()));
    assert_eq!(
        state,
        working(captured, &["T:\\x.tmp", "T:\\y.mp3"], "T:\\y.mp3", Stage::Conversion)
    );
}

#[test]
fn failed_conversion_carries_what_the_tool_wrote() {
    let cfg = configuration(Some("k"));
    for stage in [Stage::Extraction, Stage::Conversion] {
        let state = working(files(&["C:\\a.mkv"]), &["t"], "t", stage);
        let (state, action) = transition(&cfg, state, exited(false, b"out", "no such codec"));
        assert_eq!(action, Action::Restore(files(&["C:\\a.mkv"])));
        assert_eq!(
            state,
            failing(&["t"], CycleError::ConversionFailed { stderr: "no such codec".to_string() })
        );
        let state = working(files(&["C:\\a.mkv"]), &["t"], "t", stage);
        let (state, _) = transition(&cfg, state, Event::ToolNotFound);
        assert_eq!(state, failing(&["t"], CycleError::ConversionToolMissing));
        let state = working(files(&["C:\\a.mkv"]), &["t"], "t", stage);
        let (state, _) = transition(&cfg, state, Event::Failed);
        assert_eq!(state, failing(&["t"], CycleError::ConversionFailed { stderr: String::new() }));
    }
}

#[test]
fn temporary_file_that_cannot_be_made_ends_the_work() {
    let cfg = configuration(Some("k"));
    for stage in [Stage::ExtractionFile, Stage::ConversionFile, Stage::ImageFile] {
        let state = working(files(&["C:\\a.mkv"]), &[], "C:\\a.mkv", stage);
        let (state, action) = transition(&cfg, state, Event::Failed);
        assert_eq!(action, Action::Restore(files(&["C:\\a.mkv"])));
        assert_eq!(state, failing(&[], CycleError::TempResourceCreateFailed));
    }
}

#[test]
fn file_one_byte_over_25_mib_is_not_sent() {
    let cfg = configuration(Some("k"));
    let state = working(files(&["a.mp3"]), &[], "a.mp3", Stage::Measurement);
    let (state, action) = transition(&cfg, state, Event::FileSize(25 * 1024 * 1024 + 1));
    assert_eq!(action, Action::Restore(files(&["a.mp3"])));
    assert_eq!(state, failing(&[], CycleError::PayloadTooLarge { size: 26_214_401 }));
}

#[test]
fn empty_file_is_not_sent() {
    let cfg = configuration(Some("k"));
    let state = working(files(&["a.mp3"]), &[], "a.mp3", Stage::Measurement);
    let (state, action) = transition(&cfg, state, Event::FileSize(0));
    assert_eq!(action, Action::Restore(files(&["a.mp3"])));
    assert_eq!(state, failing(&[], CycleError::EmptyPayload));
}

#[test]
fn file_of_25_mib_is_sent() {
    let cfg = configuration(Some("SECRET-REDACTED"));
    let state = working(files(&["a.mp3"]), &[], "a.mp3", Stage::Measurement);
    let (state, action) = transition(&cfg, state, Event::FileSize(25 * 1024 * 1024));
    assert_eq!(
        action,
        Action::Transcribe {
            path: "a.mp3".to_string(),
            model: "whisper-1".to_string(),
            credential: "SECRET-REDACTED".to_string(),
        }
    );
    assert_eq!(state, working(files(&["a.mp3"]), &[], "a.mp3", Stage::Transcription));
}

#[test]
fn measurement_without_credential_or_size_fails() {
    let state = working(files(&["a.mp3"]), &[], "a.mp3", Stage::Measurement);
    let (state, _) = transition(&configuration(None), state, Event::FileSize(10));
    assert_eq!(state, failing(&[], CycleError::CredentialMissing));
    let state = working(files(&["a.mp3"]), &[], "a.mp3", Stage::Measurement);
    let (state, _) = transition(&configuration(Some("k")), state, Event::Failed);
    assert_eq!(state, failing(&[], CycleError::TranscriptionRequestFailed));
}

#[test]
fn failed_transcription_is_reported() {
    let cfg = configuration(Some("k"));
    let state = working(files(&["a.mp3"]), &[], "a.mp3", Stage::Transcription);
    let (state, action) = transition(&cfg, state, Event::Failed);
    assert_eq!(action, Action::Restore(files(&["a.mp3"])));
    assert_eq!(state, failing(&[], CycleError::TranscriptionRequestFailed));
}

#[test]
fn transcript_is_trimmed_pasted_and_the_payload_restored() {
    let cfg = configuration(Some("k"));
    let captured = files(&["a.mp3"]);
    let state = working(captured.clone(), &[], "a.mp3", Stage::Transcription);
    let (mut state, mut action) =
        transition(&cfg, state, Event::Transcript("  Hello, world.\n".to_string()));
    assert_eq!(action, Action::WriteText("Hello, world.".to_string()));
    assert_eq!(state, working(captured.clone(), &[], "a.mp3", Stage::TextWrite));
    let expected = [
        Action::Pause(150),
        Action::PressKey(PasteKey::Control),
        Action::Pause(30),
        Action::PressKey(PasteKey::V),
        Action::Pause(30),
        Action::ReleaseKey(PasteKey::V),
        Action::Pause(30),
        Action::ReleaseKey(PasteKey::Control),
        Action::Pause(150),
    ];
    for (i, step) in expected.into_iter().enumerate() {
        (state, action) = transition(&cfg, state, Event::Done);
        assert_eq!(action, step);
        assert_eq!(state, working(captured.clone(), &[], "a.mp3", Stage::Paste(i)));
    }
    (state, action) = transition(&cfg, state, Event::Done);
    assert_eq!(action, Action::Restore(captured));
    assert_eq!(state, State::Restoring { artifacts: Vec::new(), outcome: Ok(Completion::Pasted) });
    assert_eq!(close(&cfg, state, Event::Done, &[]), finish(Ok(Completion::Pasted), false));
}

#[test]
fn blank_transcript_is_not_pasted() {
    let cfg = configuration(Some("k"));
    for text in ["", " ", "\r\n\t", "\u{3000} "] {
        let state = working(files(&["a.mp3"]), &["t"], "a.mp3", Stage::Transcription);
        let (state, action) = transition(&cfg, state, Event::Transcript(text.to_string()));
        assert_eq!(action, Action::Restore(files(&["a.mp3"])));
        assert_eq!(
            state,
            State::Restoring { artifacts: words(&["t"]), outcome: Ok(Completion::Empty) }
        );
    }
}

#[test]
fn recognized_text_is_read_as_utf8() {
    let cfg = configuration(None);
    let captured = ClipboardPayload::Image(vec![9]);
    let state = working(captured.clone(), &["p"], "p", Stage::Recognition);
    let (state, action) = transition(&cfg, state, exited(true, " h\u{e9}llo \n".as_bytes(), "note"));
    assert_eq!(action, Action::WriteText("h\u{e9}llo".to_string()));
    assert_eq!(state, working(captured, &["p"], "p", Stage::TextWrite));
}

#[test]
fn recognized_bytes_that_are_no_utf8_are_an_error() {
    let cfg = configuration(None);
    let captured = ClipboardPayload::Image(vec![9]);
    let state = working(captured.clone(), &["p"], "p", Stage::Recognition);
    let (state, action) = transition(&cfg, state, exited(true, &[b'a', 0xFF, b'b'], "note"));
    assert_eq!(action, Action::Restore(captured));
    assert_eq!(state, failing(&["p"], CycleError::OcrToolFailed { stderr: "note".to_string() }));
}

#[test]
fn failed_recognition_carries_what_the_tool_wrote() {
    let cfg = configuration(None);
    let captured = ClipboardPayload::Image(vec![9]);
    let state = working(captured.clone(), &["p"], "p", Stage::Recognition);
    let (state, _) = transition(&cfg, state, exited(false, b"text", "bad language"));
    assert_eq!(
        state,
        failing(&["p"], CycleError::OcrToolFailed { stderr: "bad language".to_string() })
    );
    let state = working(captured.clone(), &["p"], "p", Stage::Recognition);
    let (state, _) = transition(&cfg, state, Event::ToolNotFound);
    assert_eq!(state, failing(&["p"], CycleError::OcrToolMissing));
    let state = working(captured, &["p"], "p", Stage::Recognition);
    let (state, _) = transition(&cfg, state, Event::Failed);
    assert_eq!(state, failing(&["p"], CycleError::OcrToolFailed { stderr: String::new() }));
}

#[test]
fn image_that_cannot_be_read_ends_the_work() {
    let cfg = configuration(None);
    let captured = ClipboardPayload::Image(b"no image at all".to_vec());
    let state = working(captured.clone(), &[], "", Stage::ImageFile);
    let (state, action) = advance(&cfg, state, Event::TempAcquired("p.png".to_string()));
    assert_eq!(action, Action::Restore(captured));
    assert_eq!(state, failing(&["p.png"], CycleError::ImageDecodeFailed));
    assert_eq!(
        close(&cfg, state, Event::Done, &["p.png"]),
        finish(Err(CycleError::ImageDecodeFailed), false)
    );
}

#[test]
fn transition_leaves_the_encoding_to_its_caller() {
    let cfg = configuration(None);
    let captured = ClipboardPayload::Image(vec![1]);
    let state = working(captured.clone(), &[], "", Stage::ImageFile);
    let (state, action) = transition(&cfg, state, Event::TempAcquired("p.png".to_string()));
    assert_eq!(action, Action::EncodePng);
    assert_eq!(state, working(captured.clone(), &["p.png"], "p.png", Stage::ImageEncoding));
    let (state, action) = transition(&cfg, state, Event::PngEncoded(vec![7, 8]));
    assert_eq!(action, Action::WriteFile { path: "p.png".to_string(), bytes: vec![7, 8] });
    assert_eq!(state, working(captured.clone(), &["p.png"], "p.png", Stage::ImageWrite));
    let state = working(captured.clone(), &["p.png"], "p.png", Stage::ImageEncoding);
    let (state, _) = transition(&cfg, state, Event::ImageUnencodable);
    assert_eq!(state, failing(&["p.png"], CycleError::ImageEncodeFailed));
    let state = working(captured, &["p.png"], "p.png", Stage::ImageEncoding);
    let (state, _) = transition(&cfg, state, Event::ImageUndecodable);
    assert_eq!(state, failing(&["p.png"], CycleError::ImageDecodeFailed));
}

#[test]
fn png_file_that_cannot_be_written_ends_the_work() {
    let cfg = configuration(None);
    let captured = ClipboardPayload::Image(vec![1]);
    let state = working(captured.clone(), &["p.png"], "p.png", Stage::ImageWrite);
    let (state, action) = transition(&cfg, state, Event::Failed);
    assert_eq!(action, Action::Restore(captured));
    assert_eq!(state, failing(&["p.png"], CycleError::ImageEncodeFailed));
}

#[test]
fn text_that_cannot_be_written_is_reported_and_the_payload_restored() {
    let cfg = configuration(None);
    let captured = ClipboardPayload::Image(vec![1]);
    let state = working(captured.clone(), &["p"], "p", Stage::TextWrite);
    let (state, action) = transition(&cfg, state, Event::Failed);
    assert_eq!(action, Action::Restore(captured));
    assert_eq!(state, failing(&["p"], CycleError::ClipboardWriteFailed));
    assert_eq!(
        close(&cfg, state, Event::Done, &["p"]),
        finish(Err(CycleError::ClipboardWriteFailed), false)
    );
}

#[test]
fn key_that_cannot_be_injected_is_reported_and_the_payload_restored() {
    let cfg = configuration(None);
    let captured = ClipboardPayload::Image(vec![1]);
    for index in [0usize, 1, 3, 5, 7, 8] {
        let state = working(captured.clone(), &["p"], "p", Stage::Paste(index));
        let (state, action) = transition(&cfg, state, Event::Failed);
        assert_eq!(action, Action::Restore(captured.clone()));
        assert_eq!(state, failing(&["p"], CycleError::PasteSimulationFailed));
    }
}

#[test]
fn paste_beyond_its_last_step_is_over() {
    let cfg = configuration(None);
    let captured = ClipboardPayload::Image(vec![1]);
    for index in [8usize, 9, 100, usize::MAX] {
        let state = working(captured.clone(), &[], "", Stage::Paste(index));
        let (state, action) = transition(&cfg, state, Event::Done);
        assert_eq!(action, Action::Restore(captured.clone()));
        assert_eq!(
            state,
            State::Restoring { artifacts: Vec::new(), outcome: Ok(Completion::Pasted) }
        );
    }
}

#[test]
fn failed_restore_is_reported_beside_the_first_failure() {
    let cfg = configuration(None);
    let state = failing(&["t"], CycleError::ConversionToolMissing);
    assert_eq!(
        close(&cfg, state, Event::Failed, &["t"]),
        finish(Err(CycleError::ConversionToolMissing), true)
    );
}

#[test]
fn failed_restore_after_success_is_the_failure_of_the_cycle() {
    let cfg = configuration(None);
    for done in [Completion::Pasted, Completion::Empty] {
        let state = State::Restoring { artifacts: Vec::new(), outcome: Ok(done) };
        assert_eq!(
            close(&cfg, state, Event::Failed, &[]),
            finish(Err(CycleError::ClipboardRestoreFailed), true)
        );
    }
}

#[test]
fn discarding_ends_the_cycle_whatever_the_answer() {
    let cfg = configuration(None);
    for answer in [Event::Done, Event::Failed, Event::ToolNotFound] {
        let report = CycleReport { outcome: Ok(Completion::Pasted), restore_failed: false };
        assert_eq!(
            transition(&cfg, State::Discarding { report }, answer),
            finish(Ok(Completion::Pasted), false)
        );
    }
}

#[test]
fn every_artifact_is_handed_to_discard() {
    let cfg = configuration(Some("k"));
    let (state, _) = begin(&cfg, files(&["C:\\a.avi"]));
    let (state, _) = advance(&cfg, state, Event::TempAcquired("T:\\1.dat".to_string()));
    let (state, _) = advance(&cfg, state, exited(true, b"", ""));
    let (state, _) = advance(&cfg, state, Event::TempAcquired("T:\\2.mp3".to_string()));
    let (state, _) = advance(&cfg, state, exited(false, b"", "broken"));
    let (state, action) = advance(&cfg, state, Event::Done);
    assert_eq!(action, Action::Discard(words(&["T:\\1.dat", "T:\\2.mp3"])));
    assert_eq!(
        advance(&cfg, state, Event::Done),
        finish(Err(CycleError::ConversionFailed { stderr: "broken".to_string() }), false)
    );
}

#[test]
fn advance_is_transition_where_no_image_is_encoded() {
    let cfg = configuration(Some("k"));
    assert_eq!(
        advance(&cfg, State::Idle, Event::Key { pressed: true, code: 65 }),
        transition(&cfg, State::Idle, Event::Key { pressed: true, code: 65 })
    );
    assert_eq!(
        advance(&cfg, State::ProbingFiles, Event::FileReferences(words(&["a.flac"]))),
        transition(&cfg, State::ProbingFiles, Event::FileReferences(words(&["a.flac"])))
    );
}

#[test]
fn paste_action_carries_out_the_step() {
    assert_eq!(paste_action(PasteStep::Pause(30)), Action::Pause(30));
    assert_eq!(paste_action(PasteStep::Press(PasteKey::V)), Action::PressKey(PasteKey::V));
    assert_eq!(
        paste_action(PasteStep::Release(PasteKey::Control)),
        Action::ReleaseKey(PasteKey::Control)
    );
}

#[test]
fn encoding_event_tells_of_the_encoding() {
    assert_eq!(encoding_event(Ok(vec![1, 2])), Event::PngEncoded(vec![1, 2]));
    assert_eq!(encoding_event(Err(CycleError::ImageEncodeFailed)), Event::ImageUnencodable);
    assert_eq!(encoding_event(Err(CycleError::ImageDecodeFailed)), Event::ImageUndecodable);
    assert_eq!(encoding_event(Err(CycleError::EmptyPayload)), Event::ImageUndecodable);
}

#[test]
fn encoded_image_begins_with_the_png_signature() {
    let cfg = configuration(None);
    let captured = ClipboardPayload::Image(white_bitmap(3, 2));
    let state = working(captured, &[], "", Stage::ImageFile);
    let (_, action) = advance(&cfg, state, Event::TempAcquired("p.png".to_string()));
    match action {
        Action::WriteFile { bytes, .. } => {
            assert_eq!(&bytes[..8], &[137, 80, 78, 71, 13, 10, 26, 10]);
        }
        other => panic!("{:?}", other),
    }
}

#[test]
fn state_without_an_image_is_answered_as_undecodable() {
    let cfg = configuration(None);
    let state = working(files(&["a.mp3"]), &[], "", Stage::ImageFile);
    let (state, action) = advance(&cfg, state, Event::TempAcquired("p.png".to_string()));
    assert_eq!(action, Action::Restore(files(&["a.mp3"])));
    assert_eq!(state, failing(&["p.png"], CycleError::ImageDecodeFailed));
}

#[test]
fn longest_cycle_takes_18_answers() {
    let cfg = configuration(Some("k"));
    let (mut state, mut action) = begin(&cfg, files(&["C:\\a.avi"]));
    let mut answers = vec![
        Event::TempAcquired("T:\\1.dat".to_string()),
        exited(true, b"", ""),
        Event::TempAcquired("T:\\2.mp3".to_string()),
        exited(true, b"", ""),
        Event::FileSize(1),
        Event::Transcript("text".to_string()),
    ];
    for _ in 0..12 {
        answers.push(Event::Done);
    }
    assert_eq!(answers.len(), 18);
    let mut taken = 0;
    for answer in answers {
        assert_ne!(state, State::Idle);
        (state, action) = advance(&cfg, state, answer);
        taken += 1;
    }
    assert_eq!(taken, 18);
    assert_eq!((state, action), finish(Ok(Completion::Pasted), false));
}

#[test]
fn transcription_spans_conversion_measurement_and_request() {
    for stage in [Stage::ConversionFile, Stage::Conversion, Stage::Measurement, Stage::Transcription] {
        assert!(transcribing(&working(files(&["a"]), &[], "a", stage)));
    }
    for stage in [
        Stage::ExtractionFile,
        Stage::Extraction,
        Stage::ImageFile,
        Stage::ImageEncoding,
        Stage::ImageWrite,
        Stage::Recognition,
        Stage::TextWrite,
        Stage::Paste(0),
    ] {
        assert!(!transcribing(&working(files(&["a"]), &[], "a", stage)));
    }
    assert!(!transcribing(&State::Idle));
    assert!(!transcribing(&State::ProbingFiles));
    assert!(!transcribing(&failing(&[], CycleError::EmptyPayload)));
}

#[test]
fn failure_of_a_transcription_is_heard() {
    let failed = failing(&[], CycleError::PayloadTooLarge { size: 1 });
    let empty = State::Restoring { artifacts: Vec::new(), outcome: Ok(Completion::Empty) };
    let going = working(files(&["a"]), &[], "a", Stage::Transcription);
    assert!(failure_sound_due(true, &failed));
    assert!(!failure_sound_due(false, &failed));
    assert!(!failure_sound_due(true, &empty));
    assert!(!failure_sound_due(true, &going));
    assert!(!failure_sound_due(true, &State::Idle));
}

#[test]
fn failed_size_guard_is_heard_and_failed_extraction_is_not() {
    let cfg = configuration(Some("k"));
    let state = working(files(&["a.mp3"]), &[], "a.mp3", Stage::Measurement);
    let was = transcribing(&state);
    let (state, _) = transition(&cfg, state, Event::FileSize(0));
    assert!(failure_sound_due(was, &state));
    let state = working(files(&["a.mp4"]), &["t"], "t", Stage::Extraction);
    let was = transcribing(&state);
    let (state, _) = transition(&cfg, state, Event::ToolNotFound);
    assert!(!failure_sound_due(was, &state));
}
