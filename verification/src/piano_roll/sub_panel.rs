use vstd::prelude::*;
use crate::index::{spec_step_up, Index};
use crate::input::InputEvent;
use crate::speech::{ev1, spec_text, spec_text1, spec_tip1, text, text1, tip1, Phrase, PhraseModel, Value, ValueModel};

verus! {

/// The status of an edit mode.
pub open spec fn spec_edit_mode_status(mode: Index) -> PhraseModel {
    spec_text1("PIANO_ROLL_PANEL_STATUS_TTS_EDIT_MODE"@, ValueModel::EditMode(mode.index))
}

/// The status of an edit mode.
pub fn get_edit_mode_status_tts(mode: &Index) -> (p: Phrase)
    ensures
        p@ == spec_edit_mode_status(*mode),
{
    text1("PIANO_ROLL_PANEL_STATUS_TTS_EDIT_MODE", Value::EditMode(mode.get()))
}

/// The tooltip of cycling to the next edit mode, which it names.
pub open spec fn spec_cycle_edit_mode_input(mode: Index) -> PhraseModel {
    spec_tip1(
        "PIANO_ROLL_PANEL_INPUT_TTS_EDIT_MODE"@,
        seq![InputEvent::PianoRollCycleMode],
        ValueModel::EditMode(spec_step_up(mode).index),
    )
}

/// The tooltip of cycling to the next edit mode, which it names.
pub fn get_cycle_edit_mode_input_tts(mode: &Index) -> (p: Phrase)
    ensures
        p@ == spec_cycle_edit_mode_input(*mode),
{
    let mut next = *mode;
    next.increment(true);
    tip1("PIANO_ROLL_PANEL_INPUT_TTS_EDIT_MODE", ev1(InputEvent::PianoRollCycleMode), Value::EditMode(next.get()))
}

/// What is said when nothing is selected.
pub open spec fn spec_no_selection() -> PhraseModel {
    spec_text("PIANO_ROLL_PANEL_STATUS_TTS_NO_SELECTION"@)
}

/// What is said when nothing is selected.
pub fn no_selection() -> (p: Phrase)
    ensures
        p@ == spec_no_selection(),
{
    text("PIANO_ROLL_PANEL_STATUS_TTS_NO_SELECTION")
}

} // verus!
