//! The sounds that tell of a cycle's beginning and end.

use vstd::prelude::*;
use crate::cycle::{CycleReport, ReportView, Stage, State, StateView};

verus! {

/// A sound.
#[derive(Clone, Copy, Debug, PartialEq, Eq, Structural)]
pub enum Sound {
    /// A cycle begins.
    Start,
    /// A cycle has ended well.
    Success,
    /// A cycle has failed.
    Error,
}

/// The pitch of a sound, in hertz, and how long it lasts, in milliseconds.
pub open spec fn spec_tone(sound: Sound) -> (u32, u32) {
    match sound {
        Sound::Start => (880, 150),
        Sound::Success => (1047, 300),
        Sound::Error => (262, 500),
    }
}

/// The sound at the end of a cycle: a failure is always heard, a success only
/// where sounds are wanted.
pub open spec fn spec_closing_sound(report: ReportView, wanted: bool) -> Option<Sound> {
    if report.outcome is Err {
        Some(Sound::Error)
    } else if wanted {
        Some(Sound::Success)
    } else {
        None
    }
}

/// The pitch of a sound, in hertz, and how long it lasts, in milliseconds.
pub fn tone(sound: Sound) -> (r: (u32, u32))
    ensures
        r == spec_tone(sound),
{
    match sound {
        Sound::Start => (880, 150),
        Sound::Success => (1047, 300),
        Sound::Error => (262, 500),
    }
}

/// The sound at the beginning of a cycle: one only where sounds are wanted.
pub fn opening_sound(wanted: bool) -> (r: Option<Sound>)
    ensures
        r == if wanted { Some(Sound::Start) } else { None },
{
    if wanted {
        Some(Sound::Start)
    } else {
        None
    }
}

/// The sound at the end of a cycle.
pub fn closing_sound(report: &CycleReport, wanted: bool) -> (r: Option<Sound>)
    ensures
        r == spec_closing_sound(report@, wanted),
{
    if report.outcome.is_err() {
        Some(Sound::Error)
    } else if wanted {
        Some(Sound::Success)
    } else {
        None
    }
}

/// Whether the cycle is at the transcription of a sound file: at its
/// conversion to MP3, at its measurement or at the request. The taking of a
/// sound track out of a film comes before and is no part of it.
pub open spec fn in_transcription(state: StateView) -> bool {
    state matches StateView::Working { stage, .. } && (stage is ConversionFile
        || stage is Conversion || stage is Measurement || stage is Transcription)
}

/// Whether the cycle writes the payload back because of a failure.
pub open spec fn has_failed(state: StateView) -> bool {
    state matches StateView::Restoring { outcome, .. } && outcome is Err
}

/// Whether the cycle is at the transcription of a sound file. While it is, a
/// ticking tells that the work goes on.
pub fn transcribing(state: &State) -> (r: bool)
    ensures
        r == in_transcription(state@),
{
    match state {
        State::Working { stage: Stage::ConversionFile, .. } => true,
        State::Working { stage: Stage::Conversion, .. } => true,
        State::Working { stage: Stage::Measurement, .. } => true,
        State::Working { stage: Stage::Transcription, .. } => true,
        _ => false,
    }
}

/// Whether the failure of a transcription is to be heard: the cycle was at
/// the transcription before its last step, and now writes the payload back
/// because of a failure.
pub fn failure_sound_due(was_transcribing: bool, after: &State) -> (r: bool)
    ensures
        r == (was_transcribing && has_failed(after@)),
{
    was_transcribing && match after {
        State::Restoring { outcome: Err(_), .. } => true,
        _ => false,
    }
}

} // verus!
