//! What holds of every cycle, stated over a model of the clipboard and of the
//! temporary files.

use vstd::prelude::*;
use vstd::utf8::decode_utf8;
use crate::cycle::{ActionView, Completion, EventView, ReportView, Stage, StateView};
use crate::error::CycleErrorView;
use crate::machine::{spec_begin, spec_deliver, spec_fail, spec_transcribe, spec_step, spec_work};
use crate::media::{folded, is_canonical_audio, kind_of_extension, kind_of_path, MediaKind};
use crate::paste::PASTE_STEPS;
use crate::payload::{ConfigurationView, PayloadView};
use crate::text::{is_blank, is_white_space, lemma_blank_iff_trimmed_empty, lemma_trimmed_is_solid};
use crate::policy::{audio_extensions, standard_policy, video_extensions};
use crate::tools::spec_extraction_arguments;

verus! {

/// What the clipboard holds.
pub enum ClipboardView {
    /// A payload that a cycle can capture.
    Payload(PayloadView),
    /// Plain text.
    Text(Seq<char>),
    /// Something unknown, as after a write that failed.
    Unknown,
}

/// The world that a cycle acts on.
pub struct World {
    /// What the clipboard holds.
    pub clipboard: ClipboardView,
    /// The temporary files that the cycle has made and that are still there.
    pub artifacts: Set<Seq<char>>,
    /// How often the cycle has tried to write a payload back.
    pub restores: nat,
    /// How often the cycle has had its temporary files deleted.
    pub discards: nat,
}

/// A cycle under way: its state, the action that it has asked for, and the
/// world.
pub struct Run {
    pub state: StateView,
    pub pending: ActionView,
    pub world: World,
}

/// The world after `pending` was carried out and answered with `event`. A
/// write to the clipboard that is answered with `Done` leaves there what was
/// written, a temporary file that was made is there, and the files that were
/// to be deleted are gone.
pub open spec fn effect(world: World, pending: ActionView, event: EventView) -> World {
    match pending {
        ActionView::WriteText(text) => World {
            clipboard: if event is Done {
                ClipboardView::Text(text)
            } else {
                ClipboardView::Unknown
            },
            ..world
        },
        ActionView::Restore(payload) => World {
            clipboard: if event is Done {
                ClipboardView::Payload(payload)
            } else {
                ClipboardView::Unknown
            },
            restores: world.restores + 1,
            ..world
        },
        ActionView::AcquireTemp { .. } => match event {
            EventView::TempAcquired(path) => World {
                artifacts: world.artifacts.insert(path),
                ..world
            },
            _ => world,
        },
        ActionView::Discard(paths) => World {
            artifacts: world.artifacts.difference(paths.to_set()),
            discards: world.discards + 1,
            ..world
        },
        _ => world,
    }
}

/// A cycle right after it has captured `payload`: the clipboard holds the
/// payload, and no temporary file has been made.
pub open spec fn after_capture(cfg: ConfigurationView, payload: PayloadView) -> Run {
    Run {
        state: spec_begin(cfg, payload).0,
        pending: spec_begin(cfg, payload).1,
        world: World {
            clipboard: ClipboardView::Payload(payload),
            artifacts: Set::empty(),
            restores: 0,
            discards: 0,
        },
    }
}

/// The cycle after the pending action was answered with `event`.
pub open spec fn run_step(cfg: ConfigurationView, run: Run, event: EventView) -> Run {
    Run {
        state: spec_step(cfg, run.state, event).0,
        pending: spec_step(cfg, run.state, event).1,
        world: effect(run.world, run.pending, event),
    }
}

/// The cycle after its actions were answered with `events`, one after the
/// other, as far as it goes: a cycle that has ended takes no more events.
pub open spec fn run_all(cfg: ConfigurationView, run: Run, events: Seq<EventView>) -> Run
    decreases events.len(),
{
    if events.len() == 0 || run.state is Idle {
        run
    } else {
        run_all(cfg, run_step(cfg, run, events[0]), events.drop_first())
    }
}

/// Whether the stage waits for a temporary file.
pub open spec fn awaits_file(stage: Stage) -> bool {
    stage is ExtractionFile || stage is ConversionFile || stage is ImageFile
}

/// What holds at every moment of a cycle that captured `payload`: until the
/// payload has been written back the cycle still holds it, every temporary file
/// that is there is known to the cycle, and once the cycle has ended the
/// clipboard holds the payload again, unless the report says that the restore
/// failed, no temporary file is left, and the cycle has written the payload
/// back once and has had its files deleted once.
pub open spec fn cycle_invariant(payload: PayloadView, run: Run) -> bool {
    match run.state {
        StateView::Working { captured, artifacts, path, stage } => {
            &&& captured == payload
            &&& run.world.artifacts.subset_of(artifacts.to_set())
            &&& run.world.restores == 0
            &&& run.world.discards == 0
            &&& run.pending is AcquireTemp ==> awaits_file(stage)
            &&& !(run.pending is Restore)
            &&& !(run.pending is Discard)
        },
        StateView::Restoring { artifacts, outcome } => {
            &&& run.pending == ActionView::Restore(payload)
            &&& run.world.artifacts.subset_of(artifacts.to_set())
            &&& run.world.restores == 0
            &&& run.world.discards == 0
        },
        StateView::Discarding { report } => {
            &&& run.pending matches ActionView::Discard(paths)
            &&& run.world.artifacts.subset_of(paths.to_set())
            &&& run.world.restores == 1
            &&& run.world.discards == 0
            &&& report.restore_failed || run.world.clipboard == ClipboardView::Payload(payload)
        },
        StateView::Idle => {
            &&& run.pending matches ActionView::Finish(report)
            &&& report.restore_failed || run.world.clipboard == ClipboardView::Payload(payload)
            &&& run.world.artifacts == Set::<Seq<char>>::empty()
            &&& run.world.restores == 1
            &&& run.world.discards == 1
        },
        _ => false,
    }
}

/// The invariant holds right after the capture.
pub proof fn lemma_invariant_begins(cfg: ConfigurationView, payload: PayloadView)
    ensures
        cycle_invariant(payload, after_capture(cfg, payload)),
{
}

/// Every step of a cycle keeps the invariant.
pub proof fn lemma_invariant_kept(
    cfg: ConfigurationView,
    payload: PayloadView,
    run: Run,
    event: EventView,
)
    requires
        cycle_invariant(payload, run),
        !(run.state is Idle),
    ensures
        cycle_invariant(payload, run_step(cfg, run, event)),
{
    let next = run_step(cfg, run, event);
    match run.state {
        StateView::Working { captured, artifacts, path, stage } => {
            match event {
                EventView::TempAcquired(made) => {
                    artifacts.lemma_push_to_set_commute(made);
                },
                _ => {},
            }
        },
        StateView::Restoring { artifacts, outcome } => {},
        StateView::Discarding { report } => {
            assert(next.world.artifacts =~= Set::<Seq<char>>::empty());
        },
        _ => {},
    }
}

/// The invariant holds however far the cycle has been run.
pub proof fn lemma_invariant_holds(
    cfg: ConfigurationView,
    payload: PayloadView,
    run: Run,
    events: Seq<EventView>,
)
    requires
        cycle_invariant(payload, run),
    ensures
        cycle_invariant(payload, run_all(cfg, run, events)),
    decreases events.len(),
{
    if events.len() != 0 && !(run.state is Idle) {
        lemma_invariant_kept(cfg, payload, run, events[0]);
        lemma_invariant_holds(cfg, payload, run_step(cfg, run, events[0]), events.drop_first());
    }
}

/// No more than this many answers does a cycle take, from `state` on, before
/// it has ended.
pub open spec fn steps_left(state: StateView) -> nat {
    match state {
        StateView::Idle => 0,
        StateView::Discarding { .. } => 1,
        StateView::Restoring { .. } => 2,
        StateView::Working { stage, .. } => match stage {
            Stage::Paste(index) => if index < PASTE_STEPS {
                (2 + PASTE_STEPS - index) as nat
            } else {
                3
            },
            Stage::TextWrite => 12,
            Stage::Transcription => 13,
            Stage::Recognition => 13,
            Stage::Measurement => 14,
            Stage::ImageWrite => 14,
            Stage::Conversion => 15,
            Stage::ImageEncoding => 15,
            Stage::ConversionFile => 16,
            Stage::ImageFile => 16,
            Stage::Extraction => 17,
            Stage::ExtractionFile => 18,
        },
        StateView::ProbingImage => 19,
        StateView::ProbingFiles => 20,
    }
}

/// Every answer brings a cycle nearer to its end.
pub proof fn lemma_step_nears_end(cfg: ConfigurationView, state: StateView, event: EventView)
    requires
        !(state is Idle),
    ensures
        steps_left(spec_step(cfg, state, event).0) < steps_left(state),
{
}

/// A cycle ends: once it has had as many answers as `steps_left` says, it is
/// over, whatever the answers were.
pub proof fn lemma_run_ends(cfg: ConfigurationView, run: Run, events: Seq<EventView>)
    requires
        events.len() >= steps_left(run.state),
    ensures
        run_all(cfg, run, events).state is Idle,
    decreases events.len(),
{
    if events.len() != 0 && !(run.state is Idle) {
        lemma_step_nears_end(cfg, run.state, events[0]);
        lemma_run_ends(cfg, run_step(cfg, run, events[0]), events.drop_first());
    }
}

/// Every cycle ends. After the capture a cycle takes 18 answers at most, which
/// is what a film takes whose sound track is converted once more and whose
/// text is pasted: whatever the answers are, after 18 of them it is over.
pub proof fn lemma_cycle_ends(cfg: ConfigurationView, payload: PayloadView, events: Seq<EventView>)
    requires
        events.len() >= 18,
    ensures
        run_all(cfg, after_capture(cfg, payload), events).state is Idle,
{
    assert(steps_left(after_capture(cfg, payload).state) <= 18);
    lemma_run_ends(cfg, after_capture(cfg, payload), events);
}

/// The restore invariant. Whatever answers a cycle gets after it has captured
/// a payload, and wherever its work fails: once it has ended, the clipboard
/// holds the captured payload, unless the report says that the restore failed.
pub proof fn lemma_cycle_restores_clipboard(
    cfg: ConfigurationView,
    payload: PayloadView,
    events: Seq<EventView>,
)
    ensures
        ({
            let end = run_all(cfg, after_capture(cfg, payload), events);
            end.state is Idle ==> {
                &&& end.pending matches ActionView::Finish(report)
                &&& report.restore_failed || end.world.clipboard == ClipboardView::Payload(payload)
            }
        }),
{
    lemma_invariant_begins(cfg, payload);
    lemma_invariant_holds(cfg, payload, after_capture(cfg, payload), events);
}

/// The cleanup of temporary files. Whatever answers a cycle gets: once it has
/// ended, none of the temporary files that it made is left.
pub proof fn lemma_cycle_leaves_no_artifact(
    cfg: ConfigurationView,
    payload: PayloadView,
    events: Seq<EventView>,
)
    ensures
        ({
            let end = run_all(cfg, after_capture(cfg, payload), events);
            end.state is Idle ==> end.world.artifacts == Set::<Seq<char>>::empty()
        }),
{
    lemma_invariant_begins(cfg, payload);
    lemma_invariant_holds(cfg, payload, after_capture(cfg, payload), events);
}

/// Whatever answers a cycle gets: once it has ended, it has tried once, and
/// no more than once, to write the payload back, and it has had its temporary
/// files deleted once, and no more than once.
pub proof fn lemma_cycle_releases_once(
    cfg: ConfigurationView,
    payload: PayloadView,
    events: Seq<EventView>,
)
    ensures
        ({
            let end = run_all(cfg, after_capture(cfg, payload), events);
            end.state is Idle ==> end.world.restores == 1 && end.world.discards == 1
        }),
{
    lemma_invariant_begins(cfg, payload);
    lemma_invariant_holds(cfg, payload, after_capture(cfg, payload), events);
}

/// No blank text is ever put on the clipboard: the text that the machine asks
/// to be written holds a character, and none of white space at either end.
pub proof fn lemma_written_text_is_solid(
    cfg: ConfigurationView,
    state: StateView,
    event: EventView,
)
    ensures
        spec_step(cfg, state, event).1 matches ActionView::WriteText(text) ==> {
            &&& text.len() > 0
            &&& !is_white_space(text[0])
            &&& !is_white_space(text.last())
        },
{
    match spec_step(cfg, state, event).1 {
        ActionView::WriteText(text) => {
            match state {
                StateView::Working { captured, artifacts, path, stage } => {
                    match event {
                        EventView::Transcript(source) => {
                            lemma_trimmed_is_solid(source);
                        },
                        EventView::ToolExited { stdout, .. } => {
                            lemma_trimmed_is_solid(decode_utf8(stdout));
                        },
                        _ => {},
                    }
                },
                _ => {},
            }
        },
        _ => {},
    }
}

/// One file only. File references that name no file, or more than one, end
/// the cycle with `UnsupportedFileCount`: the payload is written back at once,
/// and nothing else is asked for before the cycle ends.
pub proof fn lemma_single_file_only(
    cfg: ConfigurationView,
    paths: Seq<Seq<char>>,
    first: EventView,
    second: EventView,
)
    requires
        paths.len() != 1,
    ensures
        ({
            let payload = PayloadView::FileReferences(paths);
            let start = spec_step(cfg, StateView::ProbingFiles, EventView::FileReferences(paths));
            let next = spec_step(cfg, start.0, first);
            let last = spec_step(cfg, next.0, second);
            &&& start.1 == ActionView::Restore(payload)
            &&& next.1 == ActionView::Discard(Seq::<Seq<char>>::empty())
            &&& last.0 is Idle
            &&& last.1 matches ActionView::Finish(report)
            &&& report.outcome == Err::<Completion, CycleErrorView>(
                CycleErrorView::UnsupportedFileCount { count: paths.len() as usize },
            )
        }),
{
}

/// Routing by extension. With a credential at hand, one file reference is
/// routed by the extension of its file. A sound file goes to transcription as
/// the file that it is: no sound track is taken out of it, and where it is an
/// MP3 file the next thing asked for is its size. A film has its sound track
/// taken out first, by the conversion tool, into a temporary file. A file of
/// any other extension ends the work with `UnsupportedFileType`, with
/// or without a credential.
pub proof fn lemma_extension_routing(cfg: ConfigurationView, path: Seq<char>, made: Seq<char>)
    ensures
        ({
            let payload = PayloadView::FileReferences(seq![path]);
            let none = Seq::<Seq<char>>::empty();
            let first = spec_begin(cfg, payload);
            &&& kind_of_path(cfg.policy, path) == MediaKind::Unsupported ==> first == spec_fail(
                payload,
                none,
                CycleErrorView::UnsupportedFileType { extension: crate::media::extension(path) },
            )
            &&& kind_of_path(cfg.policy, path) == MediaKind::Audio && cfg.transcription_credential is Some
                ==> {
                &&& first == spec_transcribe(payload, none, path)
                &&& first.0 matches StateView::Working { path: audio, .. } && audio == path
                &&& is_canonical_audio(path) ==> first.1 == (ActionView::MeasureFile { path })
            }
            &&& kind_of_path(cfg.policy, path) == MediaKind::Video && cfg.transcription_credential is Some
                ==> {
                &&& first.1 == (ActionView::AcquireTemp {
                    prefix: "extracted_audio_"@,
                    suffix: ".mp3"@,
                })
                &&& spec_step(cfg, first.0, EventView::TempAcquired(made)).1
                    == (ActionView::RunTool {
                    program: "ffmpeg"@,
                    arguments: spec_extraction_arguments(path, made),
                })
            }
        }),
{
    let paths = seq![path];
    assert(paths.len() == 1 && paths[0] == path);
}

/// No extension of the standard policy stands both for sound and for film.
pub proof fn lemma_standard_lists_are_disjoint()
    ensures
        forall|i: int, j: int|
            0 <= i < audio_extensions().len() && 0 <= j < video_extensions().len()
                ==> audio_extensions()[i] != video_extensions()[j],
{
    reveal_strlit("wav");
    reveal_strlit("mp3");
    reveal_strlit("m4a");
    reveal_strlit("ogg");
    reveal_strlit("flac");
    reveal_strlit("aac");
    reveal_strlit("wma");
    reveal_strlit("opus");
    reveal_strlit("aiff");
    reveal_strlit("aif");
    reveal_strlit("mp4");
    reveal_strlit("mkv");
    reveal_strlit("mov");
    reveal_strlit("avi");
    reveal_strlit("wmv");
    reveal_strlit("flv");
    reveal_strlit("webm");
    reveal_strlit("mpeg");
    reveal_strlit("mpg");
    reveal_strlit("m4v");
    reveal_strlit("3gp");
    let a = audio_extensions();
    let v = video_extensions();
    assert forall|i: int, j: int| 0 <= i < a.len() && 0 <= j < v.len() implies a[i] != v[j] by {
        assert(a[i].len() == v[j].len() ==> a[i][2] != v[j][2] || a[i][1] != v[j][1] || a[i][0]
            != v[j][0]);
    }
}

/// The standard policy routes an extension by its two lists, without regard
/// to case: one of `wav`, `mp3`, `m4a`, `ogg`, `flac`, `aac`, `wma`, `opus`,
/// `aiff`, `aif` is sound; one of `mp4`, `mkv`, `mov`, `avi`, `wmv`, `flv`,
/// `webm`, `mpeg`, `mpg`, `m4v`, `3gp` is film; any other is unsupported.
pub proof fn lemma_standard_routing(ext: Seq<char>)
    ensures
        kind_of_extension(standard_policy(), ext) == MediaKind::Audio
            <==> audio_extensions().contains(folded(ext)),
        kind_of_extension(standard_policy(), ext) == MediaKind::Video
            <==> video_extensions().contains(folded(ext)),
        kind_of_extension(standard_policy(), ext) == MediaKind::Unsupported <==> !(
        audio_extensions().contains(folded(ext)) || video_extensions().contains(folded(ext))),
{
    lemma_standard_lists_are_disjoint();
}

/// The size ceiling. A sound file is sent to the transcription service only if
/// it is not empty and no larger than the ceiling of the policy, which is
/// 25 MiB in the standard policy: an empty one ends the work with
/// `EmptyPayload`, a larger one with `PayloadTooLarge`.
pub proof fn lemma_size_ceiling(
    cfg: ConfigurationView,
    captured: PayloadView,
    artifacts: Seq<Seq<char>>,
    path: Seq<char>,
    size: u64,
)
    ensures
        standard_policy().size_ceiling == 25 * 1024 * 1024,
        ({
            let next = spec_work(
                cfg,
                captured,
                artifacts,
                path,
                Stage::Measurement,
                EventView::FileSize(size),
            );
            &&& size == 0 ==> next == spec_fail(captured, artifacts, CycleErrorView::EmptyPayload)
            &&& size > cfg.policy.size_ceiling ==> next == spec_fail(
                captured,
                artifacts,
                CycleErrorView::PayloadTooLarge { size },
            )
            &&& next.1 is Transcribe ==> 0 < size <= cfg.policy.size_ceiling
        }),
{
}

/// A blank text is not pasted. Where the text of a backend is nothing but
/// white space, the payload is written back at once, and nothing else is asked
/// for before the cycle ends: no text is put on the clipboard and no key is
/// injected. The cycle reports `Empty`, or that the restore failed.
pub proof fn lemma_blank_text_is_not_pasted(
    cfg: ConfigurationView,
    captured: PayloadView,
    artifacts: Seq<Seq<char>>,
    path: Seq<char>,
    text: Seq<char>,
    first: EventView,
    second: EventView,
)
    requires
        is_blank(text),
    ensures
        ({
            let start = spec_deliver(captured, artifacts, path, text);
            let next = spec_step(cfg, start.0, first);
            let last = spec_step(cfg, next.0, second);
            &&& start.1 == ActionView::Restore(captured)
            &&& next.1 == ActionView::Discard(artifacts)
            &&& last.0 is Idle
            &&& last.1 matches ActionView::Finish(report)
            &&& if first is Done {
                report.outcome == Ok::<Completion, CycleErrorView>(Completion::Empty)
            } else {
                report.restore_failed && report.outcome == Err::<Completion, CycleErrorView>(
                    CycleErrorView::ClipboardRestoreFailed,
                )
            }
        }),
{
    lemma_blank_iff_trimmed_empty(text);
}

/// A failed capture ends the cycle at once: nothing was captured, so nothing
/// is written back.
pub proof fn lemma_failed_capture_restores_nothing(cfg: ConfigurationView, event: EventView)
    ensures
        !(event is FileReferences) && !(event is FormatAbsent) ==> spec_step(
            cfg,
            StateView::ProbingFiles,
            event,
        ) == (
            StateView::Idle,
            ActionView::Finish(
                ReportView {
                    outcome: Err(CycleErrorView::ClipboardUnavailable),
                    restore_failed: false,
                },
            ),
        ),
        spec_step(cfg, StateView::ProbingImage, EventView::FormatAbsent) == (
            StateView::Idle,
            ActionView::Finish(
                ReportView { outcome: Err(CycleErrorView::NoSupportedFormat), restore_failed: false },
            ),
        ),
{
}

} // verus!
