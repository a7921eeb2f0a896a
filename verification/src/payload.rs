//! What a cycle captures from the clipboard, and what configures it.

use vstd::prelude::*;
use crate::policy::{Policy, PolicyView};

verus! {

/// The texts of a list of strings.
pub open spec fn texts(v: Seq<String>) -> Seq<Seq<char>> {
    Seq::new(v.len(), |i: int| v[i]@)
}

/// The text of a string that may be absent.
pub open spec fn optional_text(s: Option<String>) -> Option<Seq<char>> {
    match s {
        Some(t) => Some(t@),
        None => None,
    }
}

/// What the clipboard held when the cycle began.
#[derive(Clone, Debug, PartialEq, Eq)]
pub enum ClipboardPayload {
    /// The bytes of a bitmap.
    Image(Vec<u8>),
    /// The absolute paths of files, in the clipboard's order.
    FileReferences(Vec<String>),
}

/// A payload as plain sequences.
pub enum PayloadView {
    Image(Seq<u8>),
    FileReferences(Seq<Seq<char>>),
}

impl View for ClipboardPayload {
    type V = PayloadView;

    open spec fn view(&self) -> PayloadView {
        match self {
            ClipboardPayload::Image(bytes) => PayloadView::Image(bytes@),
            ClipboardPayload::FileReferences(paths) => PayloadView::FileReferences(texts(paths@)),
        }
    }
}

/// What a cycle is run with. It is read during a cycle and never changed by it.
#[derive(Clone, Debug, PartialEq, Eq)]
pub struct CycleConfiguration {
    /// The code of the key that starts a cycle.
    pub trigger_key: u64,
    /// The language code, or codes, handed to the recognition tool.
    pub ocr_language: String,
    /// The command that runs the recognition tool.
    pub ocr_command: String,
    /// Where the recognition tool finds its data, if that is not its default.
    pub ocr_data_directory: Option<String>,
    /// Further arguments for the recognition tool, in order.
    pub ocr_extra_arguments: Vec<String>,
    /// The credential for the transcription service.
    pub transcription_credential: Option<String>,
    /// The extensions and the size that the cycle accepts.
    pub policy: Policy,
}

/// A configuration as plain values.
pub struct ConfigurationView {
    pub trigger_key: u64,
    pub ocr_language: Seq<char>,
    pub ocr_command: Seq<char>,
    pub ocr_data_directory: Option<Seq<char>>,
    pub ocr_extra_arguments: Seq<Seq<char>>,
    pub transcription_credential: Option<Seq<char>>,
    pub policy: PolicyView,
}

impl View for CycleConfiguration {
    type V = ConfigurationView;

    open spec fn view(&self) -> ConfigurationView {
        ConfigurationView {
            trigger_key: self.trigger_key,
            ocr_language: self.ocr_language@,
            ocr_command: self.ocr_command@,
            ocr_data_directory: optional_text(self.ocr_data_directory),
            ocr_extra_arguments: texts(self.ocr_extra_arguments@),
            transcription_credential: optional_text(self.transcription_credential),
            policy: self.policy@,
        }
    }
}

/// Adds `s` to the end of `v`.
pub fn push_text(v: &mut Vec<String>, s: String)
    ensures
        texts(final(v)@) == texts(old(v)@).push(s@),
        final(v)@ == old(v)@.push(s),
{
    v.push(s);
    assert(texts(v@) =~= texts(old(v)@).push(s@));
}

} // verus!
