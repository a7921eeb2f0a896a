//! The rules of the cycle: which state and which action follow an event.

use vstd::prelude::*;
use vstd::utf8::{decode_utf8, valid_utf8};
use crate::cycle::{
    outcome_view, Action, ActionView, Completion, CycleReport, Event, EventView, ReportView, Stage,
    State, StateView,
};
use crate::error::{CycleError, CycleErrorView};
use crate::media::{
    classify_path, extension, extension_of, is_canonical_audio, kind_of_path,
    needs_no_conversion, MediaKind,
};
use crate::paste::{paste_step, paste_steps, PasteStep, PASTE_STEPS};
use crate::payload::{
    push_text, texts, ClipboardPayload, ConfigurationView, CycleConfiguration, PayloadView,
};
use crate::png::{is_png, png_from_bitmap, png_view};
use crate::text::{trim, trimmed};
use crate::tools::{
    check_audio_size, extraction_arguments, normalization_arguments, recognition_arguments,
    spec_audio_size, spec_extraction_arguments, spec_normalization_arguments,
    spec_recognition_arguments, text_from_utf8,
};

verus! {

/// The work has failed: the payload is written back, and the failure is kept
/// for the report.
pub open spec fn spec_fail(
    captured: PayloadView,
    artifacts: Seq<Seq<char>>,
    error: CycleErrorView,
) -> (StateView, ActionView) {
    (StateView::Restoring { artifacts, outcome: Err(error) }, ActionView::Restore(captured))
}

/// The transcription of the sound file at `path` begins: an MP3 file is
/// measured as it is, any other is converted to MP3 first, into a temporary
/// file.
pub open spec fn spec_transcribe(
    captured: PayloadView,
    artifacts: Seq<Seq<char>>,
    path: Seq<char>,
) -> (StateView, ActionView) {
    if is_canonical_audio(path) {
        (
            StateView::Working { captured, artifacts, path, stage: Stage::Measurement },
            ActionView::MeasureFile { path },
        )
    } else {
        (
            StateView::Working { captured, artifacts, path, stage: Stage::ConversionFile },
            ActionView::AcquireTemp { prefix: "transcribe_temp_"@, suffix: ".mp3"@ },
        )
    }
}

/// The first step on a captured payload. An image goes to recognition. File
/// references go to transcription where there is one file, of sound or film,
/// and a credential; the number of files is looked at first, then the kind of
/// the file, then the credential.
pub open spec fn spec_begin(cfg: ConfigurationView, payload: PayloadView) -> (
    StateView,
    ActionView,
) {
    let none = Seq::<Seq<char>>::empty();
    match payload {
        PayloadView::Image(_) => (
            StateView::Working {
                captured: payload,
                artifacts: none,
                path: Seq::empty(),
                stage: Stage::ImageFile,
            },
            ActionView::AcquireTemp { prefix: "clipboard_ocr_"@, suffix: ".png"@ },
        ),
        PayloadView::FileReferences(paths) => {
            if paths.len() != 1 {
                spec_fail(
                    payload,
                    none,
                    CycleErrorView::UnsupportedFileCount { count: paths.len() as usize },
                )
            } else if kind_of_path(cfg.policy, paths[0]) == MediaKind::Unsupported {
                spec_fail(
                    payload,
                    none,
                    CycleErrorView::UnsupportedFileType { extension: extension(paths[0]) },
                )
            } else if cfg.transcription_credential is None {
                spec_fail(payload, none, CycleErrorView::CredentialMissing)
            } else if kind_of_path(cfg.policy, paths[0]) == MediaKind::Audio {
                spec_transcribe(payload, none, paths[0])
            } else {
                (
                    StateView::Working {
                        captured: payload,
                        artifacts: none,
                        path: paths[0],
                        stage: Stage::ExtractionFile,
                    },
                    ActionView::AcquireTemp { prefix: "extracted_audio_"@, suffix: ".mp3"@ },
                )
            }
        },
    }
}

/// The text of a backend has come: where it is blank the payload is written
/// back at once, else the trimmed text goes onto the clipboard.
pub open spec fn spec_deliver(
    captured: PayloadView,
    artifacts: Seq<Seq<char>>,
    path: Seq<char>,
    text: Seq<char>,
) -> (StateView, ActionView) {
    if trimmed(text).len() == 0 {
        (
            StateView::Restoring { artifacts, outcome: Ok(Completion::Empty) },
            ActionView::Restore(captured),
        )
    } else {
        (
            StateView::Working { captured, artifacts, path, stage: Stage::TextWrite },
            ActionView::WriteText(trimmed(text)),
        )
    }
}

/// The action that carries out a step of the paste.
pub open spec fn spec_paste_action(step: PasteStep) -> ActionView {
    match step {
        PasteStep::Pause(millis) => ActionView::Pause(millis),
        PasteStep::Press(key) => ActionView::PressKey(key),
        PasteStep::Release(key) => ActionView::ReleaseKey(key),
    }
}

/// The paste goes on with the step at `index`, or is over where there is none:
/// then the payload is written back.
pub open spec fn spec_paste_from(
    captured: PayloadView,
    artifacts: Seq<Seq<char>>,
    path: Seq<char>,
    index: usize,
) -> (StateView, ActionView) {
    if index < PASTE_STEPS {
        (
            StateView::Working { captured, artifacts, path, stage: Stage::Paste(index) },
            spec_paste_action(paste_steps()[index as int]),
        )
    } else {
        (
            StateView::Restoring { artifacts, outcome: Ok(Completion::Pasted) },
            ActionView::Restore(captured),
        )
    }
}

/// What the conversion tool's failure is called.
pub open spec fn spec_conversion_failure(event: EventView) -> CycleErrorView {
    match event {
        EventView::ToolNotFound => CycleErrorView::ConversionToolMissing,
        EventView::ToolExited { stderr, .. } => CycleErrorView::ConversionFailed { stderr },
        _ => CycleErrorView::ConversionFailed { stderr: Seq::empty() },
    }
}

/// What the recognition tool's failure is called.
pub open spec fn spec_recognition_failure(event: EventView) -> CycleErrorView {
    match event {
        EventView::ToolNotFound => CycleErrorView::OcrToolMissing,
        EventView::ToolExited { stderr, .. } => CycleErrorView::OcrToolFailed { stderr },
        _ => CycleErrorView::OcrToolFailed { stderr: Seq::empty() },
    }
}

/// Whether the event says that the tool ran and succeeded.
pub open spec fn tool_succeeded(event: EventView) -> bool {
    event matches EventView::ToolExited { success, .. } && success
}

/// The step of a cycle that works on its payload. An event other than the one
/// that the stage waits for counts as the failure of the stage.
pub open spec fn spec_work(
    cfg: ConfigurationView,
    captured: PayloadView,
    artifacts: Seq<Seq<char>>,
    path: Seq<char>,
    stage: Stage,
    event: EventView,
) -> (StateView, ActionView) {
    match stage {
        Stage::ExtractionFile => match event {
            EventView::TempAcquired(made) => (
                StateView::Working {
                    captured,
                    artifacts: artifacts.push(made),
                    path: made,
                    stage: Stage::Extraction,
                },
                ActionView::RunTool {
                    program: "ffmpeg"@,
                    arguments: spec_extraction_arguments(path, made),
                },
            ),
            _ => spec_fail(captured, artifacts, CycleErrorView::TempResourceCreateFailed),
        },
        Stage::Extraction => if tool_succeeded(event) {
            spec_transcribe(captured, artifacts, path)
        } else {
            spec_fail(captured, artifacts, spec_conversion_failure(event))
        },
        Stage::ConversionFile => match event {
            EventView::TempAcquired(made) => (
                StateView::Working {
                    captured,
                    artifacts: artifacts.push(made),
                    path: made,
                    stage: Stage::Conversion,
                },
                ActionView::RunTool {
                    program: "ffmpeg"@,
                    arguments: spec_normalization_arguments(path, made),
                },
            ),
            _ => spec_fail(captured, artifacts, CycleErrorView::TempResourceCreateFailed),
        },
        Stage::Conversion => if tool_succeeded(event) {
            (
                StateView::Working { captured, artifacts, path, stage: Stage::Measurement },
                ActionView::MeasureFile { path },
            )
        } else {
            spec_fail(captured, artifacts, spec_conversion_failure(event))
        },
        Stage::Measurement => match event {
            EventView::FileSize(size) => match spec_audio_size(cfg.policy.size_ceiling, size) {
                Err(error) => spec_fail(captured, artifacts, error),
                Ok(_) => match cfg.transcription_credential {
                    Some(credential) => (
                        StateView::Working { captured, artifacts, path, stage: Stage::Transcription },
                        ActionView::Transcribe { path, model: "whisper-1"@, credential },
                    ),
                    None => spec_fail(captured, artifacts, CycleErrorView::CredentialMissing),
                },
            },
            _ => spec_fail(captured, artifacts, CycleErrorView::TranscriptionRequestFailed),
        },
        Stage::Transcription => match event {
            EventView::Transcript(text) => spec_deliver(captured, artifacts, path, text),
            _ => spec_fail(captured, artifacts, CycleErrorView::TranscriptionRequestFailed),
        },
        Stage::ImageFile => match event {
            EventView::TempAcquired(made) => (
                StateView::Working {
                    captured,
                    artifacts: artifacts.push(made),
                    path: made,
                    stage: Stage::ImageEncoding,
                },
                ActionView::EncodePng,
            ),
            _ => spec_fail(captured, artifacts, CycleErrorView::TempResourceCreateFailed),
        },
        Stage::ImageEncoding => match event {
            EventView::PngEncoded(bytes) => (
                StateView::Working { captured, artifacts, path, stage: Stage::ImageWrite },
                ActionView::WriteFile { path, bytes },
            ),
            EventView::ImageUnencodable => spec_fail(
                captured,
                artifacts,
                CycleErrorView::ImageEncodeFailed,
            ),
            _ => spec_fail(captured, artifacts, CycleErrorView::ImageDecodeFailed),
        },
        Stage::ImageWrite => match event {
            EventView::Done => (
                StateView::Working { captured, artifacts, path, stage: Stage::Recognition },
                ActionView::RunTool {
                    program: cfg.ocr_command,
                    arguments: spec_recognition_arguments(cfg, path),
                },
            ),
            _ => spec_fail(captured, artifacts, CycleErrorView::ImageEncodeFailed),
        },
        Stage::Recognition => match event {
            EventView::ToolExited { success: true, stdout, stderr } => if valid_utf8(stdout) {
                spec_deliver(captured, artifacts, path, decode_utf8(stdout))
            } else {
                spec_fail(captured, artifacts, CycleErrorView::OcrToolFailed { stderr })
            },
            _ => spec_fail(captured, artifacts, spec_recognition_failure(event)),
        },
        Stage::TextWrite => match event {
            EventView::Done => spec_paste_from(captured, artifacts, path, 0),
            _ => spec_fail(captured, artifacts, CycleErrorView::ClipboardWriteFailed),
        },
        Stage::Paste(index) => match event {
            EventView::Done => if index < PASTE_STEPS {
                spec_paste_from(captured, artifacts, path, (index + 1) as usize)
            } else {
                spec_paste_from(captured, artifacts, path, index)
            },
            _ => spec_fail(captured, artifacts, CycleErrorView::PasteSimulationFailed),
        },
    }
}

/// The report of a cycle whose capture failed: nothing was captured, so
/// nothing is written back.
pub open spec fn spec_abort(error: CycleErrorView) -> (StateView, ActionView) {
    (
        StateView::Idle,
        ActionView::Finish(ReportView { outcome: Err(error), restore_failed: false }),
    )
}

/// The report once the payload has been written back, or could not be. A
/// failure of the work stays what the cycle reports; where the work had
/// succeeded, the failed restore is reported in its place.
pub open spec fn spec_restored(
    outcome: Result<Completion, CycleErrorView>,
    event: EventView,
) -> ReportView {
    if event is Done {
        ReportView { outcome, restore_failed: false }
    } else {
        ReportView {
            outcome: match outcome {
                Ok(_) => Err(CycleErrorView::ClipboardRestoreFailed),
                Err(error) => Err(error),
            },
            restore_failed: true,
        }
    }
}

/// The machine: the state and the action that follow `state` on `event`.
pub open spec fn spec_step(cfg: ConfigurationView, state: StateView, event: EventView) -> (
    StateView,
    ActionView,
) {
    match state {
        StateView::Idle => match event {
            EventView::Key { pressed: true, code } => if code == cfg.trigger_key {
                (StateView::ProbingFiles, ActionView::ProbeFileReferences)
            } else {
                (StateView::Idle, ActionView::Wait)
            },
            _ => (StateView::Idle, ActionView::Wait),
        },
        StateView::ProbingFiles => match event {
            EventView::FileReferences(paths) => spec_begin(cfg, PayloadView::FileReferences(paths)),
            EventView::FormatAbsent => (StateView::ProbingImage, ActionView::ProbeImage),
            _ => spec_abort(CycleErrorView::ClipboardUnavailable),
        },
        StateView::ProbingImage => match event {
            EventView::Image(bytes) => spec_begin(cfg, PayloadView::Image(bytes)),
            EventView::FormatAbsent => spec_abort(CycleErrorView::NoSupportedFormat),
            _ => spec_abort(CycleErrorView::ClipboardUnavailable),
        },
        StateView::Working { captured, artifacts, path, stage } => spec_work(
            cfg,
            captured,
            artifacts,
            path,
            stage,
            event,
        ),
        StateView::Restoring { artifacts, outcome } => (
            StateView::Discarding { report: spec_restored(outcome, event) },
            ActionView::Discard(artifacts),
        ),
        StateView::Discarding { report } => (StateView::Idle, ActionView::Finish(report)),
    }
}

/// The state and the action of a cycle, as plain values.
pub open spec fn views(r: (State, Action)) -> (StateView, ActionView) {
    (r.0@, r.1@)
}

fn fail(captured: ClipboardPayload, artifacts: Vec<String>, error: CycleError) -> (r: (
    State,
    Action,
))
    ensures
        views(r) == spec_fail(captured@, texts(artifacts@), error@),
{
    (State::Restoring { artifacts, outcome: Err(error) }, Action::Restore(captured))
}

/// Begins the transcription of the sound file at `path`.
pub fn transcribe(captured: ClipboardPayload, artifacts: Vec<String>, path: String) -> (r: (
    State,
    Action,
))
    ensures
        views(r) == spec_transcribe(captured@, texts(artifacts@), path@),
{
    if needs_no_conversion(path.as_str()) {
        let target = path.clone();
        (
            State::Working { captured, artifacts, path, stage: Stage::Measurement },
            Action::MeasureFile { path: target },
        )
    } else {
        (
            State::Working { captured, artifacts, path, stage: Stage::ConversionFile },
            Action::AcquireTemp {
                prefix: "transcribe_temp_".to_owned(),
                suffix: ".mp3".to_owned(),
            },
        )
    }
}

/// The path of the one file of a payload, where it holds just one.
fn single_path(payload: &ClipboardPayload) -> (r: Option<String>)
    ensures
        match payload@ {
            PayloadView::FileReferences(paths) => if paths.len() == 1 {
                r is Some && r->0@ == paths[0]
            } else {
                r is None
            },
            PayloadView::Image(_) => r is None,
        },
{
    match payload {
        ClipboardPayload::FileReferences(paths) => {
            if paths.len() == 1 {
                Some(paths[0].clone())
            } else {
                None
            }
        },
        ClipboardPayload::Image(_) => None,
    }
}

/// How many files a payload refers to; an image refers to none.
fn file_count(payload: &ClipboardPayload) -> (r: usize)
    ensures
        match payload@ {
            PayloadView::FileReferences(paths) => r == paths.len(),
            PayloadView::Image(_) => r == 0,
        },
{
    match payload {
        ClipboardPayload::FileReferences(paths) => paths.len(),
        ClipboardPayload::Image(_) => 0,
    }
}

fn is_image(payload: &ClipboardPayload) -> (r: bool)
    ensures
        r == (payload@ is Image),
{
    match payload {
        ClipboardPayload::FileReferences(_) => false,
        ClipboardPayload::Image(_) => true,
    }
}

/// The first step on a captured payload.
pub fn begin(cfg: &CycleConfiguration, payload: ClipboardPayload) -> (r: (State, Action))
    ensures
        views(r) == spec_begin(cfg@, payload@),
{
    let artifacts: Vec<String> = Vec::new();
    assert(texts(artifacts@) =~= Seq::<Seq<char>>::empty());
    if is_image(&payload) {
        let path = String::new();
        return (
            State::Working { captured: payload, artifacts, path, stage: Stage::ImageFile },
            Action::AcquireTemp { prefix: "clipboard_ocr_".to_owned(), suffix: ".png".to_owned() },
        );
    }
    match single_path(&payload) {
        None => {
            let count = file_count(&payload);
            fail(payload, artifacts, CycleError::UnsupportedFileCount { count })
        },
        Some(path) => {
            match classify_path(&cfg.policy, path.as_str()) {
                MediaKind::Unsupported => {
                    let extension = extension_of(path.as_str()).to_owned();
                    fail(payload, artifacts, CycleError::UnsupportedFileType { extension })
                },
                MediaKind::Audio => {
                    if cfg.transcription_credential.is_none() {
                        fail(payload, artifacts, CycleError::CredentialMissing)
                    } else {
                        transcribe(payload, artifacts, path)
                    }
                },
                MediaKind::Video => {
                    if cfg.transcription_credential.is_none() {
                        fail(payload, artifacts, CycleError::CredentialMissing)
                    } else {
                        (
                            State::Working {
                                captured: payload,
                                artifacts,
                                path,
                                stage: Stage::ExtractionFile,
                            },
                            Action::AcquireTemp {
                                prefix: "extracted_audio_".to_owned(),
                                suffix: ".mp3".to_owned(),
                            },
                        )
                    }
                },
            }
        },
    }
}

fn deliver(captured: ClipboardPayload, artifacts: Vec<String>, path: String, text: &str) -> (r: (
    State,
    Action,
))
    ensures
        views(r) == spec_deliver(captured@, texts(artifacts@), path@, text@),
{
    let clean = trim(text);
    if clean.is_empty() {
        (
            State::Restoring { artifacts, outcome: Ok(Completion::Empty) },
            Action::Restore(captured),
        )
    } else {
        (
            State::Working { captured, artifacts, path, stage: Stage::TextWrite },
            Action::WriteText(clean.to_owned()),
        )
    }
}

/// The action that carries out a step of the paste.
pub fn paste_action(step: PasteStep) -> (action: Action)
    ensures
        action@ == spec_paste_action(step),
{
    match step {
        PasteStep::Pause(millis) => Action::Pause(millis),
        PasteStep::Press(key) => Action::PressKey(key),
        PasteStep::Release(key) => Action::ReleaseKey(key),
    }
}

fn paste_from(captured: ClipboardPayload, artifacts: Vec<String>, path: String, index: usize) -> (r: (
    State,
    Action,
))
    ensures
        views(r) == spec_paste_from(captured@, texts(artifacts@), path@, index),
{
    match paste_step(index) {
        Some(step) => (
            State::Working { captured, artifacts, path, stage: Stage::Paste(index) },
            paste_action(step),
        ),
        None => (
            State::Restoring { artifacts, outcome: Ok(Completion::Pasted) },
            Action::Restore(captured),
        ),
    }
}

fn conversion_failure(event: Event) -> (error: CycleError)
    ensures
        error@ == spec_conversion_failure(event@),
{
    match event {
        Event::ToolNotFound => CycleError::ConversionToolMissing,
        Event::ToolExited { success: _, stdout: _, stderr } => CycleError::ConversionFailed {
            stderr,
        },
        _ => CycleError::ConversionFailed { stderr: String::new() },
    }
}

fn recognition_failure(event: Event) -> (error: CycleError)
    ensures
        error@ == spec_recognition_failure(event@),
{
    match event {
        Event::ToolNotFound => CycleError::OcrToolMissing,
        Event::ToolExited { success: _, stdout: _, stderr } => CycleError::OcrToolFailed { stderr },
        _ => CycleError::OcrToolFailed { stderr: String::new() },
    }
}

fn succeeded(event: &Event) -> (r: bool)
    ensures
        r == tool_succeeded(event@),
{
    match event {
        Event::ToolExited { success, stdout: _, stderr: _ } => *success,
        _ => false,
    }
}

fn work(
    cfg: &CycleConfiguration,
    captured: ClipboardPayload,
    artifacts: Vec<String>,
    path: String,
    stage: Stage,
    event: Event,
) -> (r: (State, Action))
    ensures
        views(r) == spec_work(cfg@, captured@, texts(artifacts@), path@, stage, event@),
{
    let mut artifacts = artifacts;
    match stage {
        Stage::ExtractionFile => match event {
            Event::TempAcquired(made) => {
                let arguments = extraction_arguments(path.as_str(), made.as_str());
                push_text(&mut artifacts, made.clone());
                (
                    State::Working { captured, artifacts, path: made, stage: Stage::Extraction },
                    Action::RunTool { program: "ffmpeg".to_owned(), arguments },
                )
            },
            _ => fail(captured, artifacts, CycleError::TempResourceCreateFailed),
        },
        Stage::Extraction => {
            if succeeded(&event) {
                transcribe(captured, artifacts, path)
            } else {
                fail(captured, artifacts, conversion_failure(event))
            }
        },
        Stage::ConversionFile => match event {
            Event::TempAcquired(made) => {
                let arguments = normalization_arguments(path.as_str(), made.as_str());
                push_text(&mut artifacts, made.clone());
                (
                    State::Working { captured, artifacts, path: made, stage: Stage::Conversion },
                    Action::RunTool { program: "ffmpeg".to_owned(), arguments },
                )
            },
            _ => fail(captured, artifacts, CycleError::TempResourceCreateFailed),
        },
        Stage::Conversion => {
            if succeeded(&event) {
                let target = path.clone();
                (
                    State::Working { captured, artifacts, path, stage: Stage::Measurement },
                    Action::MeasureFile { path: target },
                )
            } else {
                fail(captured, artifacts, conversion_failure(event))
            }
        },
        Stage::Measurement => match event {
            Event::FileSize(size) => match check_audio_size(cfg.policy.size_ceiling, size) {
                Err(error) => fail(captured, artifacts, error),
                Ok(_) => match &cfg.transcription_credential {
                    Some(credential) => {
                        let target = path.clone();
                        (
                            State::Working { captured, artifacts, path, stage: Stage::Transcription },
                            Action::Transcribe {
                                path: target,
                                model: "whisper-1".to_owned(),
                                credential: credential.clone(),
                            },
                        )
                    },
                    None => fail(captured, artifacts, CycleError::CredentialMissing),
                },
            },
            _ => fail(captured, artifacts, CycleError::TranscriptionRequestFailed),
        },
        Stage::Transcription => match event {
            Event::Transcript(text) => deliver(captured, artifacts, path, text.as_str()),
            _ => fail(captured, artifacts, CycleError::TranscriptionRequestFailed),
        },
        Stage::ImageFile => match event {
            Event::TempAcquired(made) => {
                push_text(&mut artifacts, made.clone());
                (
                    State::Working { captured, artifacts, path: made, stage: Stage::ImageEncoding },
                    Action::EncodePng,
                )
            },
            _ => fail(captured, artifacts, CycleError::TempResourceCreateFailed),
        },
        Stage::ImageEncoding => match event {
            Event::PngEncoded(bytes) => {
                let target = path.clone();
                (
                    State::Working { captured, artifacts, path, stage: Stage::ImageWrite },
                    Action::WriteFile { path: target, bytes },
                )
            },
            Event::ImageUnencodable => fail(captured, artifacts, CycleError::ImageEncodeFailed),
            _ => fail(captured, artifacts, CycleError::ImageDecodeFailed),
        },
        Stage::ImageWrite => match event {
            Event::Done => {
                let arguments = recognition_arguments(cfg, path.as_str());
                (
                    State::Working { captured, artifacts, path, stage: Stage::Recognition },
                    Action::RunTool { program: cfg.ocr_command.clone(), arguments },
                )
            },
            _ => fail(captured, artifacts, CycleError::ImageEncodeFailed),
        },
        Stage::Recognition => match event {
            Event::ToolExited { success: true, stdout, stderr } => match text_from_utf8(stdout) {
                Some(text) => deliver(captured, artifacts, path, text.as_str()),
                None => fail(captured, artifacts, CycleError::OcrToolFailed { stderr }),
            },
            other => fail(captured, artifacts, recognition_failure(other)),
        },
        Stage::TextWrite => match event {
            Event::Done => paste_from(captured, artifacts, path, 0),
            _ => fail(captured, artifacts, CycleError::ClipboardWriteFailed),
        },
        Stage::Paste(index) => match event {
            Event::Done => {
                if index < PASTE_STEPS {
                    paste_from(captured, artifacts, path, index + 1)
                } else {
                    paste_from(captured, artifacts, path, index)
                }
            },
            _ => fail(captured, artifacts, CycleError::PasteSimulationFailed),
        },
    }
}

fn abort(error: CycleError) -> (r: (State, Action))
    ensures
        views(r) == spec_abort(error@),
{
    (State::Idle, Action::Finish(CycleReport { outcome: Err(error), restore_failed: false }))
}

fn restored(outcome: Result<Completion, CycleError>, event: &Event) -> (report: CycleReport)
    ensures
        report@ == spec_restored(outcome_view(outcome), event@),
{
    match event {
        Event::Done => CycleReport { outcome, restore_failed: false },
        _ => CycleReport {
            outcome: match outcome {
                Ok(_) => Err(CycleError::ClipboardRestoreFailed),
                Err(error) => Err(error),
            },
            restore_failed: true,
        },
    }
}

/// One step of the machine: the state and the action that follow `state` on
/// `event`.
pub fn transition(cfg: &CycleConfiguration, state: State, event: Event) -> (r: (State, Action))
    ensures
        views(r) == spec_step(cfg@, state@, event@),
{
    match state {
        State::Idle => match event {
            Event::Key { pressed: true, code } => {
                if code == cfg.trigger_key {
                    (State::ProbingFiles, Action::ProbeFileReferences)
                } else {
                    (State::Idle, Action::Wait)
                }
            },
            _ => (State::Idle, Action::Wait),
        },
        State::ProbingFiles => match event {
            Event::FileReferences(paths) => begin(cfg, ClipboardPayload::FileReferences(paths)),
            Event::FormatAbsent => (State::ProbingImage, Action::ProbeImage),
            _ => abort(CycleError::ClipboardUnavailable),
        },
        State::ProbingImage => match event {
            Event::Image(bytes) => begin(cfg, ClipboardPayload::Image(bytes)),
            Event::FormatAbsent => abort(CycleError::NoSupportedFormat),
            _ => abort(CycleError::ClipboardUnavailable),
        },
        State::Working { captured, artifacts, path, stage } => work(
            cfg,
            captured,
            artifacts,
            path,
            stage,
            event,
        ),
        State::Restoring { artifacts, outcome } => {
            let report = restored(outcome, &event);
            (State::Discarding { report }, Action::Discard(artifacts))
        },
        State::Discarding { report } => (State::Idle, Action::Finish(report)),
    }
}

/// Whether the event answers the encoding of the image: with the bytes of a
/// PNG file, or with the step that failed.
pub open spec fn is_encoding_answer(event: EventView) -> bool {
    match event {
        EventView::PngEncoded(bytes) => is_png(bytes),
        EventView::ImageUndecodable => true,
        EventView::ImageUnencodable => true,
        _ => false,
    }
}

/// The event that tells of an encoding: the bytes where there are some, the
/// failed encoding where that is the error, and the failed decoding on any
/// other error.
pub open spec fn spec_encoding_event(result: Result<Seq<u8>, CycleErrorView>) -> EventView {
    match result {
        Ok(bytes) => EventView::PngEncoded(bytes),
        Err(CycleErrorView::ImageEncodeFailed) => EventView::ImageUnencodable,
        Err(_) => EventView::ImageUndecodable,
    }
}

/// The event that tells of an encoding.
pub fn encoding_event(result: Result<Vec<u8>, CycleError>) -> (event: Event)
    ensures
        event@ == spec_encoding_event(png_view(result)),
{
    match result {
        Ok(bytes) => Event::PngEncoded(bytes),
        Err(CycleError::ImageEncodeFailed) => Event::ImageUnencodable,
        Err(_) => Event::ImageUndecodable,
    }
}

/// Encodes the image that the state holds, and says how that went. A state
/// that holds no image is answered as an image that cannot be read.
fn encoding_answer(state: &State) -> (event: Event)
    ensures
        is_encoding_answer(event@),
        !(state@ matches StateView::Working { captured: PayloadView::Image(_), .. }) ==> event@
            == EventView::ImageUndecodable,
{
    match state {
        State::Working { captured: ClipboardPayload::Image(bitmap), .. } => encoding_event(
            png_from_bitmap(bitmap),
        ),
        _ => Event::ImageUndecodable,
    }
}

/// The machine never asks twice in a row for the image to be encoded.
pub proof fn lemma_encoding_is_answered(cfg: ConfigurationView, state: StateView, event: EventView)
    requires
        spec_step(cfg, state, event).1 is EncodePng,
    ensures
        forall|answer: EventView|
            !(#[trigger] spec_step(cfg, spec_step(cfg, state, event).0, answer).1 is EncodePng),
{
}

/// One step of the machine as its driver sees it: as `transition`, but where
/// the machine asks for the image to be encoded, that is done here and the
/// machine steps once more on the answer, which holds the bytes of a PNG file
/// or names the step that failed. The driver is never asked to encode.
pub fn advance(cfg: &CycleConfiguration, state: State, event: Event) -> (r: (State, Action))
    ensures
        !(r.1@ is EncodePng),
        !(spec_step(cfg@, state@, event@).1 is EncodePng) ==> views(r) == spec_step(
            cfg@,
            state@,
            event@,
        ),
        spec_step(cfg@, state@, event@).1 is EncodePng ==> exists|answer: EventView|
            #[trigger] is_encoding_answer(answer) && views(r) == spec_step(
                cfg@,
                spec_step(cfg@, state@, event@).0,
                answer,
            ),
{
    let first = transition(cfg, state, event);
    match first.1 {
        Action::EncodePng => {
            let answer = encoding_answer(&first.0);
            proof {
                lemma_encoding_is_answered(cfg@, state@, event@);
                assert(is_encoding_answer(answer@));
            }
            transition(cfg, first.0, answer)
        },
        _ => first,
    }
}

} // verus!
