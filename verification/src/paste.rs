//! The keys and pauses of one paste.

use vstd::prelude::*;

verus! {

/// How long, in milliseconds, the clipboard is left to settle before the
/// paste and after it.
pub const SETTLE_MILLIS: u64 = 150;

/// How long, in milliseconds, lies between two keys of the paste.
pub const KEY_GAP_MILLIS: u64 = 30;

/// How many steps a paste has.
pub const PASTE_STEPS: usize = 9;

/// The two keys of a paste.
#[derive(Clone, Copy, Debug, PartialEq, Eq, Structural)]
pub enum PasteKey {
    Control,
    V,
}

/// One step of a paste.
#[derive(Clone, Copy, Debug, PartialEq, Eq, Structural)]
pub enum PasteStep {
    /// Wait for so many milliseconds.
    Pause(u64),
    /// Inject the key going down.
    Press(PasteKey),
    /// Inject the key going up.
    Release(PasteKey),
}

/// The steps of a paste, in order: the settle delay, the four keys with a gap
/// between each two, and the settle delay again.
pub open spec fn paste_steps() -> Seq<PasteStep> {
    seq![
        PasteStep::Pause(SETTLE_MILLIS),
        PasteStep::Press(PasteKey::Control),
        PasteStep::Pause(KEY_GAP_MILLIS),
        PasteStep::Press(PasteKey::V),
        PasteStep::Pause(KEY_GAP_MILLIS),
        PasteStep::Release(PasteKey::V),
        PasteStep::Pause(KEY_GAP_MILLIS),
        PasteStep::Release(PasteKey::Control),
        PasteStep::Pause(SETTLE_MILLIS),
    ]
}

/// Whether the step injects a key.
pub open spec fn is_injection(step: PasteStep) -> bool {
    step is Press || step is Release
}

/// The step of a paste at `index`, where it has one.
pub fn paste_step(index: usize) -> (step: Option<PasteStep>)
    ensures
        index < PASTE_STEPS ==> step == Some(paste_steps()[index as int]),
        index >= PASTE_STEPS ==> step is None,
{
    if index == 0 || index == 8 {
        Some(PasteStep::Pause(SETTLE_MILLIS))
    } else if index == 1 {
        Some(PasteStep::Press(PasteKey::Control))
    } else if index == 3 {
        Some(PasteStep::Press(PasteKey::V))
    } else if index == 5 {
        Some(PasteStep::Release(PasteKey::V))
    } else if index == 7 {
        Some(PasteStep::Release(PasteKey::Control))
    } else if index < 8 {
        Some(PasteStep::Pause(KEY_GAP_MILLIS))
    } else {
        None
    }
}

/// A paste injects four keys: Control down, V down, V up, Control up.
pub proof fn lemma_paste_injects_four_keys()
    ensures
        paste_steps().len() == PASTE_STEPS,
        paste_steps().filter(|s: PasteStep| is_injection(s)) == seq![
            PasteStep::Press(PasteKey::Control),
            PasteStep::Press(PasteKey::V),
            PasteStep::Release(PasteKey::V),
            PasteStep::Release(PasteKey::Control),
        ],
{
    let f = |s: PasteStep| is_injection(s);
    let s = paste_steps();
    reveal_with_fuel(Seq::filter, 10);
    assert(s.drop_last().drop_last().drop_last().drop_last().drop_last().drop_last().drop_last().drop_last().drop_last() =~= Seq::<PasteStep>::empty());
    assert(s.filter(f) =~= seq![
        PasteStep::Press(PasteKey::Control),
        PasteStep::Press(PasteKey::V),
        PasteStep::Release(PasteKey::V),
        PasteStep::Release(PasteKey::Control),
    ]);
}

} // verus!
