//! What can go wrong in a cycle.

use vstd::prelude::*;

verus! {

/// The failures of a cycle.
#[derive(Clone, Debug, PartialEq, Eq)]
pub enum CycleError {
    /// The clipboard could not be opened.
    ClipboardUnavailable,
    /// The clipboard holds neither file references nor an image.
    NoSupportedFormat,
    /// The text could not be put on the clipboard.
    ClipboardWriteFailed,
    /// The captured payload could not be written back.
    ClipboardRestoreFailed,
    /// No temporary file could be made.
    TempResourceCreateFailed,
    /// The image on the clipboard could not be read.
    ImageDecodeFailed,
    /// The image could not be stored as PNG.
    ImageEncodeFailed,
    /// The conversion tool was not found.
    ConversionToolMissing,
    /// The conversion tool did not succeed.
    ConversionFailed { stderr: String },
    /// The recognition tool was not found.
    OcrToolMissing,
    /// The recognition tool did not succeed, or did not write text.
    OcrToolFailed { stderr: String },
    /// The sound file is larger than the transcription service takes.
    PayloadTooLarge { size: u64 },
    /// The sound file is empty.
    EmptyPayload,
    /// No credential for the transcription service is configured.
    CredentialMissing,
    /// The transcription service did not answer with a transcript.
    TranscriptionRequestFailed,
    /// The one file on the clipboard is neither sound nor film.
    UnsupportedFileType { extension: String },
    /// The clipboard holds no file, or more than one.
    UnsupportedFileCount { count: usize },
    /// A key of the paste could not be injected.
    PasteSimulationFailed,
}

/// A failure, with its texts as sequences of characters.
pub enum CycleErrorView {
    ClipboardUnavailable,
    NoSupportedFormat,
    ClipboardWriteFailed,
    ClipboardRestoreFailed,
    TempResourceCreateFailed,
    ImageDecodeFailed,
    ImageEncodeFailed,
    ConversionToolMissing,
    ConversionFailed { stderr: Seq<char> },
    OcrToolMissing,
    OcrToolFailed { stderr: Seq<char> },
    PayloadTooLarge { size: u64 },
    EmptyPayload,
    CredentialMissing,
    TranscriptionRequestFailed,
    UnsupportedFileType { extension: Seq<char> },
    UnsupportedFileCount { count: usize },
    PasteSimulationFailed,
}

impl View for CycleError {
    type V = CycleErrorView;

    open spec fn view(&self) -> CycleErrorView {
        match self {
            CycleError::ClipboardUnavailable => CycleErrorView::ClipboardUnavailable,
            CycleError::NoSupportedFormat => CycleErrorView::NoSupportedFormat,
            CycleError::ClipboardWriteFailed => CycleErrorView::ClipboardWriteFailed,
            CycleError::ClipboardRestoreFailed => CycleErrorView::ClipboardRestoreFailed,
            CycleError::TempResourceCreateFailed => CycleErrorView::TempResourceCreateFailed,
            CycleError::ImageDecodeFailed => CycleErrorView::ImageDecodeFailed,
            CycleError::ImageEncodeFailed => CycleErrorView::ImageEncodeFailed,
            CycleError::ConversionToolMissing => CycleErrorView::ConversionToolMissing,
            CycleError::ConversionFailed { stderr } => CycleErrorView::ConversionFailed {
                stderr: stderr@,
            },
            CycleError::OcrToolMissing => CycleErrorView::OcrToolMissing,
            CycleError::OcrToolFailed { stderr } => CycleErrorView::OcrToolFailed {
                stderr: stderr@,
            },
            CycleError::PayloadTooLarge { size } => CycleErrorView::PayloadTooLarge {
                size: *size,
            },
            CycleError::EmptyPayload => CycleErrorView::EmptyPayload,
            CycleError::CredentialMissing => CycleErrorView::CredentialMissing,
            CycleError::TranscriptionRequestFailed => CycleErrorView::TranscriptionRequestFailed,
            CycleError::UnsupportedFileType { extension } => CycleErrorView::UnsupportedFileType {
                extension: extension@,
            },
            CycleError::UnsupportedFileCount { count } => CycleErrorView::UnsupportedFileCount {
                count: *count,
            },
            CycleError::PasteSimulationFailed => CycleErrorView::PasteSimulationFailed,
        }
    }
}

} // verus!
