//! What the outside tools are called with, and what is asked of their files.

use vstd::prelude::*;
use vstd::utf8::{decode_utf8, valid_utf8};
use crate::error::{CycleError, CycleErrorView};
use crate::payload::{push_text, texts, ConfigurationView, CycleConfiguration};

verus! {

/// The arguments with which the conversion tool takes the sound track out of
/// the film at `input` and writes it to `output`, over what is there.
pub open spec fn spec_extraction_arguments(input: Seq<char>, output: Seq<char>) -> Seq<Seq<char>> {
    seq!["-i"@, input, "-vn"@, "-q:a"@, "0"@, "-y"@, output]
}

/// The arguments with which the conversion tool turns the sound file at
/// `input` into an MP3 file at `output`, over what is there.
pub open spec fn spec_normalization_arguments(input: Seq<char>, output: Seq<char>) -> Seq<
    Seq<char>,
> {
    seq![
        "-i"@, input, "-vn"@, "-ar"@, "44100"@, "-ac"@, "2"@, "-b:a"@, "192k"@, "-f"@, "mp3"@,
        "-y"@, output,
    ]
}

/// The arguments of the recognition tool for the image at `image`: the image,
/// the word `stdout`, the language, the data directory where one is
/// configured, then the further arguments in their order.
pub open spec fn spec_recognition_arguments(cfg: ConfigurationView, image: Seq<char>) -> Seq<
    Seq<char>,
> {
    let head = seq![image, "stdout"@, "-l"@, cfg.ocr_language];
    let data = match cfg.ocr_data_directory {
        Some(dir) => seq!["--tessdata-dir"@, dir],
        None => Seq::empty(),
    };
    head + data + cfg.ocr_extra_arguments
}

/// The arguments that take the sound track out of a film.
pub fn extraction_arguments(input: &str, output: &str) -> (args: Vec<String>)
    ensures
        texts(args@) == spec_extraction_arguments(input@, output@),
{
    let mut args: Vec<String> = Vec::new();
    push_text(&mut args, "-i".to_owned());
    push_text(&mut args, input.to_owned());
    push_text(&mut args, "-vn".to_owned());
    push_text(&mut args, "-q:a".to_owned());
    push_text(&mut args, "0".to_owned());
    push_text(&mut args, "-y".to_owned());
    push_text(&mut args, output.to_owned());
    assert(texts(args@) =~= spec_extraction_arguments(input@, output@));
    args
}

/// The arguments that turn a sound file into MP3.
pub fn normalization_arguments(input: &str, output: &str) -> (args: Vec<String>)
    ensures
        texts(args@) == spec_normalization_arguments(input@, output@),
{
    let mut args: Vec<String> = Vec::new();
    push_text(&mut args, "-i".to_owned());
    push_text(&mut args, input.to_owned());
    push_text(&mut args, "-vn".to_owned());
    push_text(&mut args, "-ar".to_owned());
    push_text(&mut args, "44100".to_owned());
    push_text(&mut args, "-ac".to_owned());
    push_text(&mut args, "2".to_owned());
    push_text(&mut args, "-b:a".to_owned());
    push_text(&mut args, "192k".to_owned());
    push_text(&mut args, "-f".to_owned());
    push_text(&mut args, "mp3".to_owned());
    push_text(&mut args, "-y".to_owned());
    push_text(&mut args, output.to_owned());
    assert(texts(args@) =~= spec_normalization_arguments(input@, output@));
    args
}

/// The arguments of the recognition tool.
pub fn recognition_arguments(cfg: &CycleConfiguration, image: &str) -> (args: Vec<String>)
    ensures
        texts(args@) == spec_recognition_arguments(cfg@, image@),
{
    let mut args: Vec<String> = Vec::new();
    push_text(&mut args, image.to_owned());
    push_text(&mut args, "stdout".to_owned());
    push_text(&mut args, "-l".to_owned());
    push_text(&mut args, cfg.ocr_language.clone());
    match &cfg.ocr_data_directory {
        Some(dir) => {
            push_text(&mut args, "--tessdata-dir".to_owned());
            push_text(&mut args, dir.clone());
        },
        None => {},
    }
    let ghost fixed = texts(args@);
    assert(fixed =~= seq![image@, "stdout"@, "-l"@, cfg@.ocr_language] + match cfg@.ocr_data_directory {
        Some(dir) => seq!["--tessdata-dir"@, dir],
        None => Seq::empty(),
    });
    let n: usize = cfg.ocr_extra_arguments.len();
    let mut i: usize = 0;
    while i < n
        invariant
            i <= n,
            n == cfg.ocr_extra_arguments@.len(),
            texts(args@) == fixed + cfg@.ocr_extra_arguments.take(i as int),
        decreases n - i,
    {
        push_text(&mut args, cfg.ocr_extra_arguments[i].clone());
        assert(cfg@.ocr_extra_arguments.take(i + 1) =~= cfg@.ocr_extra_arguments.take(
            i as int,
        ).push(cfg.ocr_extra_arguments@[i as int]@));
        assert(texts(args@) =~= fixed + cfg@.ocr_extra_arguments.take(i + 1));
        i = i + 1;
    }
    assert(cfg@.ocr_extra_arguments.take(n as int) =~= cfg@.ocr_extra_arguments);
    args
}

/// Whether a sound file of `size` bytes may be sent to the transcription
/// service: it may unless it is empty or larger than the ceiling.
pub open spec fn spec_audio_size(ceiling: u64, size: u64) -> Result<(), CycleErrorView> {
    if size > ceiling {
        Err(CycleErrorView::PayloadTooLarge { size })
    } else if size == 0 {
        Err(CycleErrorView::EmptyPayload)
    } else {
        Ok(())
    }
}

/// Checks the size of a sound file before it is sent.
pub fn check_audio_size(ceiling: u64, size: u64) -> (r: Result<(), CycleError>)
    ensures
        match r {
            Ok(_) => spec_audio_size(ceiling, size) is Ok,
            Err(e) => spec_audio_size(ceiling, size) == Err::<(), CycleErrorView>(e@),
        },
{
    if size > ceiling {
        Err(CycleError::PayloadTooLarge { size })
    } else if size == 0 {
        Err(CycleError::EmptyPayload)
    } else {
        Ok(())
    }
}

/// `String::from_utf8` of the standard library: the bytes as text where they
/// are valid UTF-8, and nothing where they are not.
#[verifier::external_body]
pub(crate) fn text_from_utf8(bytes: Vec<u8>) -> (r: Option<String>)
    ensures
        r is Some <==> valid_utf8(bytes@),
        r is Some ==> r->0@ == decode_utf8(bytes@),
{
    String::from_utf8(bytes).ok()
}

} // verus!
