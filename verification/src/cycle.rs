//! The cycle as a machine: from a state and what happened to the next state
//! and what to do.

use vstd::prelude::*;
use crate::error::{CycleError, CycleErrorView};
use crate::paste::PasteKey;
use crate::payload::{texts, ClipboardPayload, PayloadView};

verus! {

/// How a cycle ended where nothing failed.
#[derive(Clone, Copy, Debug, PartialEq, Eq, Structural)]
pub enum Completion {
    /// Text was produced and pasted.
    Pasted,
    /// The text produced was blank: nothing was pasted.
    Empty,
}

/// What a cycle is waiting for while it works on the payload.
#[derive(Clone, Copy, Debug, PartialEq, Eq, Structural)]
pub enum Stage {
    /// A temporary file for the sound track of a film.
    ExtractionFile,
    /// The conversion tool, taking the sound track out.
    Extraction,
    /// A temporary file for the MP3 form of a sound file.
    ConversionFile,
    /// The conversion tool, making the MP3 file.
    Conversion,
    /// The size of the sound file.
    Measurement,
    /// The transcript.
    Transcription,
    /// A temporary file for the image.
    ImageFile,
    /// The image as PNG.
    ImageEncoding,
    /// The PNG file being written.
    ImageWrite,
    /// The recognition tool.
    Recognition,
    /// The text being put on the clipboard.
    TextWrite,
    /// The step of the paste at this index.
    Paste(usize),
}

/// How a cycle ended.
#[derive(Debug, PartialEq, Eq)]
pub struct CycleReport {
    /// What the cycle achieved, or its first failure.
    pub outcome: Result<Completion, CycleError>,
    /// Whether the captured payload could not be written back.
    pub restore_failed: bool,
}

/// A report as plain values.
pub struct ReportView {
    pub outcome: Result<Completion, CycleErrorView>,
    pub restore_failed: bool,
}

/// An outcome as plain values.
pub open spec fn outcome_view(o: Result<Completion, CycleError>) -> Result<
    Completion,
    CycleErrorView,
> {
    match o {
        Ok(c) => Ok(c),
        Err(e) => Err(e@),
    }
}

impl View for CycleReport {
    type V = ReportView;

    open spec fn view(&self) -> ReportView {
        ReportView { outcome: outcome_view(self.outcome), restore_failed: self.restore_failed }
    }
}

/// Where a cycle stands.
#[derive(Debug, PartialEq, Eq)]
pub enum State {
    /// No cycle runs.
    Idle,
    /// The clipboard is asked for file references.
    ProbingFiles,
    /// The clipboard is asked for an image.
    ProbingImage,
    /// The payload is worked on.
    Working { captured: ClipboardPayload, artifacts: Vec<String>, path: String, stage: Stage },
    /// The payload is being written back.
    Restoring { artifacts: Vec<String>, outcome: Result<Completion, CycleError> },
    /// The temporary files are being deleted.
    Discarding { report: CycleReport },
}

/// A state as plain values.
pub enum StateView {
    Idle,
    ProbingFiles,
    ProbingImage,
    Working { captured: PayloadView, artifacts: Seq<Seq<char>>, path: Seq<char>, stage: Stage },
    Restoring { artifacts: Seq<Seq<char>>, outcome: Result<Completion, CycleErrorView> },
    Discarding { report: ReportView },
}

impl View for State {
    type V = StateView;

    open spec fn view(&self) -> StateView {
        match self {
            State::Idle => StateView::Idle,
            State::ProbingFiles => StateView::ProbingFiles,
            State::ProbingImage => StateView::ProbingImage,
            State::Working { captured, artifacts, path, stage } => StateView::Working {
                captured: captured@,
                artifacts: texts(artifacts@),
                path: path@,
                stage: *stage,
            },
            State::Restoring { artifacts, outcome } => StateView::Restoring {
                artifacts: texts(artifacts@),
                outcome: outcome_view(*outcome),
            },
            State::Discarding { report } => StateView::Discarding { report: report@ },
        }
    }
}

/// What happened: a key, or the answer to the action that was asked for.
#[derive(Debug, PartialEq, Eq)]
pub enum Event {
    /// A key went down or up.
    Key { pressed: bool, code: u64 },
    /// The clipboard holds these file references.
    FileReferences(Vec<String>),
    /// The clipboard holds this bitmap.
    Image(Vec<u8>),
    /// The clipboard does not hold what was asked for.
    FormatAbsent,
    /// The clipboard could not be opened.
    ClipboardBusy,
    /// A temporary file was made at this path.
    TempAcquired(String),
    /// The tool ran and ended.
    ToolExited { success: bool, stdout: Vec<u8>, stderr: String },
    /// The tool was not found.
    ToolNotFound,
    /// The image as the bytes of a PNG file.
    PngEncoded(Vec<u8>),
    /// The image could not be read.
    ImageUndecodable,
    /// The image could not be written as PNG.
    ImageUnencodable,
    /// The file has this many bytes.
    FileSize(u64),
    /// The transcription service answered with this text.
    Transcript(String),
    /// The action was done.
    Done,
    /// The action failed.
    Failed,
}

/// An event as plain values.
pub enum EventView {
    Key { pressed: bool, code: u64 },
    FileReferences(Seq<Seq<char>>),
    Image(Seq<u8>),
    FormatAbsent,
    ClipboardBusy,
    TempAcquired(Seq<char>),
    ToolExited { success: bool, stdout: Seq<u8>, stderr: Seq<char> },
    ToolNotFound,
    PngEncoded(Seq<u8>),
    ImageUndecodable,
    ImageUnencodable,
    FileSize(u64),
    Transcript(Seq<char>),
    Done,
    Failed,
}

impl View for Event {
    type V = EventView;

    open spec fn view(&self) -> EventView {
        match self {
            Event::Key { pressed, code } => EventView::Key { pressed: *pressed, code: *code },
            Event::FileReferences(paths) => EventView::FileReferences(texts(paths@)),
            Event::Image(bytes) => EventView::Image(bytes@),
            Event::FormatAbsent => EventView::FormatAbsent,
            Event::ClipboardBusy => EventView::ClipboardBusy,
            Event::TempAcquired(path) => EventView::TempAcquired(path@),
            Event::ToolExited { success, stdout, stderr } => EventView::ToolExited {
                success: *success,
                stdout: stdout@,
                stderr: stderr@,
            },
            Event::ToolNotFound => EventView::ToolNotFound,
            Event::PngEncoded(bytes) => EventView::PngEncoded(bytes@),
            Event::ImageUndecodable => EventView::ImageUndecodable,
            Event::ImageUnencodable => EventView::ImageUnencodable,
            Event::FileSize(size) => EventView::FileSize(*size),
            Event::Transcript(text) => EventView::Transcript(text@),
            Event::Done => EventView::Done,
            Event::Failed => EventView::Failed,
        }
    }
}

/// What is to be done next. Each action but `Wait` and `Finish` is answered
/// with one event.
#[derive(Debug, PartialEq, Eq)]
pub enum Action {
    /// Wait for the next key.
    Wait,
    /// Open the clipboard and read the file references from it.
    ProbeFileReferences,
    /// Read the bitmap from the clipboard.
    ProbeImage,
    /// Make a temporary file whose name has this prefix and this suffix.
    AcquireTemp { prefix: String, suffix: String },
    /// Run the program with the arguments and wait for its end.
    RunTool { program: String, arguments: Vec<String> },
    /// Turn the captured bitmap into the bytes of a PNG file.
    EncodePng,
    /// Write the bytes to the file.
    WriteFile { path: String, bytes: Vec<u8> },
    /// Find the size of the file.
    MeasureFile { path: String },
    /// Ask the transcription service for the text of the sound file.
    Transcribe { path: String, model: String, credential: String },
    /// Put the text on the clipboard.
    WriteText(String),
    /// Wait for so many milliseconds.
    Pause(u64),
    /// Inject the key going down.
    PressKey(PasteKey),
    /// Inject the key going up.
    ReleaseKey(PasteKey),
    /// Write the captured payload back to the clipboard.
    Restore(ClipboardPayload),
    /// Delete the temporary files at these paths, those that exist.
    Discard(Vec<String>),
    /// Make the end of the cycle known, then wait for the next key.
    Finish(CycleReport),
}

/// An action as plain values.
pub enum ActionView {
    Wait,
    ProbeFileReferences,
    ProbeImage,
    AcquireTemp { prefix: Seq<char>, suffix: Seq<char> },
    RunTool { program: Seq<char>, arguments: Seq<Seq<char>> },
    EncodePng,
    WriteFile { path: Seq<char>, bytes: Seq<u8> },
    MeasureFile { path: Seq<char> },
    Transcribe { path: Seq<char>, model: Seq<char>, credential: Seq<char> },
    WriteText(Seq<char>),
    Pause(u64),
    PressKey(PasteKey),
    ReleaseKey(PasteKey),
    Restore(PayloadView),
    Discard(Seq<Seq<char>>),
    Finish(ReportView),
}

impl View for Action {
    type V = ActionView;

    open spec fn view(&self) -> ActionView {
        match self {
            Action::Wait => ActionView::Wait,
            Action::ProbeFileReferences => ActionView::ProbeFileReferences,
            Action::ProbeImage => ActionView::ProbeImage,
            Action::AcquireTemp { prefix, suffix } => ActionView::AcquireTemp {
                prefix: prefix@,
                suffix: suffix@,
            },
            Action::RunTool { program, arguments } => ActionView::RunTool {
                program: program@,
                arguments: texts(arguments@),
            },
            Action::EncodePng => ActionView::EncodePng,
            Action::WriteFile { path, bytes } => ActionView::WriteFile {
                path: path@,
                bytes: bytes@,
            },
            Action::MeasureFile { path } => ActionView::MeasureFile { path: path@ },
            Action::Transcribe { path, model, credential } => ActionView::Transcribe {
                path: path@,
                model: model@,
                credential: credential@,
            },
            Action::WriteText(text) => ActionView::WriteText(text@),
            Action::Pause(millis) => ActionView::Pause(*millis),
            Action::PressKey(key) => ActionView::PressKey(*key),
            Action::ReleaseKey(key) => ActionView::ReleaseKey(*key),
            Action::Restore(payload) => ActionView::Restore(payload@),
            Action::Discard(paths) => ActionView::Discard(texts(paths@)),
            Action::Finish(report) => ActionView::Finish(report@),
        }
    }
}

} // verus!
