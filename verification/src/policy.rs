//! The policy of a cycle: which extensions stand for sound and for film, and
//! how large a sound file may be.

use vstd::prelude::*;
use crate::payload::{push_text, texts};

verus! {

/// The largest sound file, in bytes, that the transcription service takes: 25 MiB.
pub const SIZE_CEILING: u64 = 26214400;

/// How often the clipboard is tried before it counts as busy.
pub const CLIPBOARD_ATTEMPTS: usize = 10;

/// The policy of a cycle. The extensions are listed in small letters: the
/// extension of a file is folded before it is looked up, the entries are not.
#[derive(Clone, Debug, PartialEq, Eq)]
pub struct Policy {
    /// The extensions of sound files.
    pub audio_extensions: Vec<String>,
    /// The extensions of films.
    pub video_extensions: Vec<String>,
    /// The largest sound file, in bytes, that is sent to the transcription service.
    pub size_ceiling: u64,
}

/// A policy as plain values.
pub struct PolicyView {
    pub audio_extensions: Seq<Seq<char>>,
    pub video_extensions: Seq<Seq<char>>,
    pub size_ceiling: u64,
}

impl View for Policy {
    type V = PolicyView;

    open spec fn view(&self) -> PolicyView {
        PolicyView {
            audio_extensions: texts(self.audio_extensions@),
            video_extensions: texts(self.video_extensions@),
            size_ceiling: self.size_ceiling,
        }
    }
}

/// The extensions of sound files of the standard policy.
pub open spec fn audio_extensions() -> Seq<Seq<char>> {
    seq![
        "wav"@, "mp3"@, "m4a"@, "ogg"@, "flac"@, "aac"@, "wma"@, "opus"@, "aiff"@, "aif"@,
    ]
}

/// The extensions of films of the standard policy.
pub open spec fn video_extensions() -> Seq<Seq<char>> {
    seq![
        "mp4"@, "mkv"@, "mov"@, "avi"@, "wmv"@, "flv"@, "webm"@, "mpeg"@, "mpg"@, "m4v"@, "3gp"@,
    ]
}

/// The standard policy.
pub open spec fn standard_policy() -> PolicyView {
    PolicyView {
        audio_extensions: audio_extensions(),
        video_extensions: video_extensions(),
        size_ceiling: SIZE_CEILING,
    }
}

impl Policy {
    /// The standard policy: ten extensions of sound files, eleven of films,
    /// and a ceiling of 25 MiB.
    pub fn standard() -> (policy: Policy)
        ensures
            policy@ == standard_policy(),
    {
        let mut audio: Vec<String> = Vec::new();
        push_text(&mut audio, "wav".to_owned());
        push_text(&mut audio, "mp3".to_owned());
        push_text(&mut audio, "m4a".to_owned());
        push_text(&mut audio, "ogg".to_owned());
        push_text(&mut audio, "flac".to_owned());
        push_text(&mut audio, "aac".to_owned());
        push_text(&mut audio, "wma".to_owned());
        push_text(&mut audio, "opus".to_owned());
        push_text(&mut audio, "aiff".to_owned());
        push_text(&mut audio, "aif".to_owned());
        assert(texts(audio@) =~= audio_extensions());
        let mut video: Vec<String> = Vec::new();
        push_text(&mut video, "mp4".to_owned());
        push_text(&mut video, "mkv".to_owned());
        push_text(&mut video, "mov".to_owned());
        push_text(&mut video, "avi".to_owned());
        push_text(&mut video, "wmv".to_owned());
        push_text(&mut video, "flv".to_owned());
        push_text(&mut video, "webm".to_owned());
        push_text(&mut video, "mpeg".to_owned());
        push_text(&mut video, "mpg".to_owned());
        push_text(&mut video, "m4v".to_owned());
        push_text(&mut video, "3gp".to_owned());
        assert(texts(video@) =~= video_extensions());
        Policy { audio_extensions: audio, video_extensions: video, size_ceiling: SIZE_CEILING }
    }
}

} // verus!
