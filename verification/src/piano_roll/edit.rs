use vstd::prelude::*;
use crate::piano_roll::sub_panel::{
    get_cycle_edit_mode_input_tts, get_edit_mode_status_tts, no_selection, spec_cycle_edit_mode_input,
    spec_edit_mode_status, spec_no_selection,
};
use crate::speech::{
    add_phrase, add_utterance, ev4, join, say, silence, speech_view, spec_tip, tip, PhraseModel, Utterance,
};
use crate::input::{lemma_only_event, Input, InputEvent};
use crate::index::spec_step_up;
use crate::model::{
    edit_mode_at, note_wf, spec_edit_mode, EditMode, MusicModel, Note, State, StateModel, TrackModel, MAX_NOTE,
    MAX_VOLUME, MIN_NOTE,
};
use crate::piano_roll::edit_mode_deltas::EditModeDeltas;
use crate::snapshot::{Snapshot, SnapshotModel};

verus! {

/// Is `x` in `v`?
pub fn contains_index(v: &Vec<usize>, x: usize) -> (r: bool)
    ensures
        r == v@.contains(x),
{
    let n = v.len();
    for i in 0..n
        invariant
            n == v.len(),
            forall|j: int| 0 <= j < i ==> v@[j] != x,
    {
        if v[i] == x {
            return true;
        }
    }
    false
}

/// An edit of one note.
#[derive(Clone, Copy, Debug, PartialEq, Eq, Structural)]
pub enum NoteEdit {
    /// Move the note earlier by this many PPQ.
    ShiftLeft(u64),
    /// Move the note later by this many PPQ.
    ShiftRight(u64),
    /// Make the note shorter by this many PPQ.
    Shorten(u64),
    /// Make the note longer by this many PPQ.
    Lengthen(u64),
    /// Raise the pitch by this many half-steps.
    PitchUp(u8),
    /// Lower the pitch by this many half-steps.
    PitchDown(u8),
    /// Raise the velocity.
    VolumeUp(u8),
    /// Lower the velocity.
    VolumeDown(u8),
}

/// The note after an edit.
pub open spec fn spec_apply(e: NoteEdit, n: Note) -> Note {
    match e {
        NoteEdit::ShiftLeft(dt) => Note { start: (n.start - dt) as u64, end: (n.end - dt) as u64, ..n },
        NoteEdit::ShiftRight(dt) => Note { start: (n.start + dt) as u64, end: (n.end + dt) as u64, ..n },
        NoteEdit::Shorten(dt) => Note { end: (n.end - dt) as u64, ..n },
        NoteEdit::Lengthen(dt) => Note { end: (n.end + dt) as u64, ..n },
        NoteEdit::PitchUp(dn) => Note { note: (n.note + dn) as u8, ..n },
        NoteEdit::PitchDown(dn) => Note { note: (n.note - dn) as u8, ..n },
        NoteEdit::VolumeUp(dv) => Note { velocity: (n.velocity + dv) as u8, ..n },
        NoteEdit::VolumeDown(dv) => Note { velocity: (n.velocity - dv) as u8, ..n },
    }
}

/// Whether the edit keeps the note valid: the guard that the piano roll checks on every
/// selected note before it edits any of them. Shortening is allowed down to a length of zero:
/// the guard compares the length with the step, not with the step plus one.
pub open spec fn spec_allowed(e: NoteEdit, n: Note) -> bool {
    match e {
        NoteEdit::ShiftLeft(dt) => n.start >= dt,
        NoteEdit::ShiftRight(_) => true,
        NoteEdit::Shorten(dt) => n.end - n.start >= dt,
        NoteEdit::Lengthen(_) => true,
        NoteEdit::PitchUp(dn) => n.note + dn <= MAX_NOTE,
        NoteEdit::PitchDown(dn) => n.note - dn >= MIN_NOTE,
        NoteEdit::VolumeUp(dv) => n.velocity + dv <= MAX_VOLUME,
        NoteEdit::VolumeDown(dv) => n.velocity - dv >= 0,
    }
}

/// Whether the edit can be computed on this note without leaving the range of its fields.
pub open spec fn spec_in_range(e: NoteEdit, n: Note) -> bool {
    match e {
        NoteEdit::ShiftLeft(dt) => n.start <= n.end,
        NoteEdit::ShiftRight(dt) => n.start <= n.end && n.end + dt <= u64::MAX,
        NoteEdit::Shorten(dt) => n.start <= n.end,
        NoteEdit::Lengthen(dt) => n.end + dt <= u64::MAX,
        NoteEdit::PitchUp(dn) => n.note + dn <= u8::MAX,
        NoteEdit::PitchDown(dn) => n.note >= dn,
        NoteEdit::VolumeUp(dv) => n.velocity + dv <= u8::MAX,
        NoteEdit::VolumeDown(dv) => n.velocity <= 127 && dv <= 127,
    }
}

/// Is position `i` of the notes selected?
pub open spec fn spec_selected(sel: Seq<usize>, i: int) -> bool {
    sel.contains(i as usize)
}

/// Every selected note allows the edit.
pub open spec fn spec_all_allowed(e: NoteEdit, notes: Seq<Note>, sel: Seq<usize>) -> bool {
    forall|i: int| 0 <= i < notes.len() && spec_selected(sel, i) ==> spec_allowed(e, #[trigger] notes[i])
}

/// Every selected note can be edited without overflow.
pub open spec fn spec_all_in_range(e: NoteEdit, notes: Seq<Note>, sel: Seq<usize>) -> bool {
    forall|i: int| 0 <= i < notes.len() && spec_selected(sel, i) ==> spec_in_range(e, #[trigger] notes[i])
}

/// The notes with the edit applied to the selected ones.
pub open spec fn spec_edit_selected(e: NoteEdit, notes: Seq<Note>, sel: Seq<usize>) -> Seq<Note> {
    Seq::new(notes.len(), |i: int| if spec_selected(sel, i) { spec_apply(e, notes[i]) } else { notes[i] })
}

/// Apply an edit to one note.
pub fn apply(e: NoteEdit, n: Note) -> (r: Note)
    requires
        spec_in_range(e, n),
        spec_allowed(e, n),
    ensures
        r == spec_apply(e, n),
{
    match e {
        NoteEdit::ShiftLeft(dt) => Note { start: n.start - dt, end: n.end - dt, ..n },
        NoteEdit::ShiftRight(dt) => Note { start: n.start + dt, end: n.end + dt, ..n },
        NoteEdit::Shorten(dt) => Note { end: n.end - dt, ..n },
        NoteEdit::Lengthen(dt) => Note { end: n.end + dt, ..n },
        NoteEdit::PitchUp(dn) => Note { note: n.note + dn, ..n },
        NoteEdit::PitchDown(dn) => Note { note: n.note - dn, ..n },
        NoteEdit::VolumeUp(dv) => Note { velocity: n.velocity + dv, ..n },
        NoteEdit::VolumeDown(dv) => Note { velocity: n.velocity - dv, ..n },
    }
}

/// Check the guard of an edit on one note.
pub fn allowed(e: NoteEdit, n: Note) -> (r: bool)
    requires
        spec_in_range(e, n),
    ensures
        r == spec_allowed(e, n),
{
    match e {
        NoteEdit::ShiftLeft(dt) => n.start >= dt,
        NoteEdit::ShiftRight(_) => true,
        NoteEdit::Shorten(dt) => n.end - n.start >= dt,
        NoteEdit::Lengthen(_) => true,
        NoteEdit::PitchUp(dn) => n.note + dn <= MAX_NOTE,
        NoteEdit::PitchDown(dn) => n.note - dn >= MIN_NOTE,
        NoteEdit::VolumeUp(dv) => n.velocity + dv <= MAX_VOLUME,
        NoteEdit::VolumeDown(dv) => (n.velocity as i8 - dv as i8) >= 0,
    }
}

/// Does every selected note allow the edit?
pub fn all_allowed(e: NoteEdit, notes: &Vec<Note>, sel: &Vec<usize>) -> (r: bool)
    requires
        spec_all_in_range(e, notes@, sel@),
    ensures
        r == spec_all_allowed(e, notes@, sel@),
{
    let n = notes.len();
    for i in 0..n
        invariant
            n == notes.len(),
            spec_all_in_range(e, notes@, sel@),
            forall|j: int| 0 <= j < i && spec_selected(sel@, j) ==> spec_allowed(e, #[trigger] notes@[j]),
    {
        if contains_index(sel, i) {
            assert(spec_selected(sel@, i as int));
            if !allowed(e, notes[i]) {
                return false;
            }
        }
    }
    true
}

/// The notes with the edit applied to the selected ones.
pub fn edit_selected(e: NoteEdit, notes: &Vec<Note>, sel: &Vec<usize>) -> (r: Vec<Note>)
    requires
        spec_all_in_range(e, notes@, sel@),
        spec_all_allowed(e, notes@, sel@),
    ensures
        r@ == spec_edit_selected(e, notes@, sel@),
{
    let mut r: Vec<Note> = Vec::new();
    let n = notes.len();
    for i in 0..n
        invariant
            n == notes.len(),
            spec_all_in_range(e, notes@, sel@),
            spec_all_allowed(e, notes@, sel@),
            r.len() == i,
            forall|j: int| 0 <= j < i ==> #[trigger] r@[j] == spec_edit_selected(e, notes@, sel@)[j],
    {
        if contains_index(sel, i) {
            assert(spec_selected(sel@, i as int));
            r.push(apply(e, notes[i]));
        } else {
            r.push(notes[i]);
        }
    }
    proof {
        assert(r@ =~= spec_edit_selected(e, notes@, sel@));
    }
    r
}

/// What the edit sub-panel does with a frame of input: the first of these events that happened.
#[derive(Clone, Copy, Debug, PartialEq, Eq, Structural)]
pub enum EditAction {
    CycleMode,
    StartLeft,
    StartRight,
    DurationLeft,
    DurationRight,
    PitchUp,
    PitchDown,
    VolumeUp,
    VolumeDown,
    Nothing,
}

pub open spec fn spec_edit_action(events: Seq<InputEvent>) -> EditAction {
    if events.contains(InputEvent::PianoRollCycleMode) {
        EditAction::CycleMode
    } else if events.contains(InputEvent::EditStartLeft) {
        EditAction::StartLeft
    } else if events.contains(InputEvent::EditStartRight) {
        EditAction::StartRight
    } else if events.contains(InputEvent::EditDurationLeft) {
        EditAction::DurationLeft
    } else if events.contains(InputEvent::EditDurationRight) {
        EditAction::DurationRight
    } else if events.contains(InputEvent::EditPitchUp) {
        EditAction::PitchUp
    } else if events.contains(InputEvent::EditPitchDown) {
        EditAction::PitchDown
    } else if events.contains(InputEvent::EditVolumeUp) {
        EditAction::VolumeUp
    } else if events.contains(InputEvent::EditVolumeDown) {
        EditAction::VolumeDown
    } else {
        EditAction::Nothing
    }
}

pub fn edit_action(input: &Input) -> (r: EditAction)
    ensures
        r == spec_edit_action(input.events@),
{
    if input.happened(InputEvent::PianoRollCycleMode) {
        EditAction::CycleMode
    } else if input.happened(InputEvent::EditStartLeft) {
        EditAction::StartLeft
    } else if input.happened(InputEvent::EditStartRight) {
        EditAction::StartRight
    } else if input.happened(InputEvent::EditDurationLeft) {
        EditAction::DurationLeft
    } else if input.happened(InputEvent::EditDurationRight) {
        EditAction::DurationRight
    } else if input.happened(InputEvent::EditPitchUp) {
        EditAction::PitchUp
    } else if input.happened(InputEvent::EditPitchDown) {
        EditAction::PitchDown
    } else if input.happened(InputEvent::EditVolumeUp) {
        EditAction::VolumeUp
    } else if input.happened(InputEvent::EditVolumeDown) {
        EditAction::VolumeDown
    } else {
        EditAction::Nothing
    }
}

/// The note edit that an action makes in the current edit mode, given the input beat.
pub open spec fn spec_note_edit(d: EditModeDeltas, a: EditAction, mode: EditMode, beat: u64) -> NoteEdit {
    let dt = d.spec_dt(mode, beat) as u64;
    match a {
        EditAction::StartLeft => NoteEdit::ShiftLeft(dt),
        EditAction::StartRight => NoteEdit::ShiftRight(dt),
        EditAction::DurationLeft => NoteEdit::Shorten(dt),
        EditAction::DurationRight => NoteEdit::Lengthen(dt),
        EditAction::PitchUp => NoteEdit::PitchUp(d.spec_dn(mode)),
        EditAction::PitchDown => NoteEdit::PitchDown(d.spec_dn(mode)),
        EditAction::VolumeUp => NoteEdit::VolumeUp(d.spec_dv(mode)),
        _ => NoteEdit::VolumeDown(d.spec_dv(mode)),
    }
}

/// Does the action move notes in time?
pub open spec fn spec_is_time_action(a: EditAction) -> bool {
    a == EditAction::StartLeft || a == EditAction::StartRight || a == EditAction::DurationLeft
        || a == EditAction::DurationRight
}

/// The notes of the selected track of a state.
pub open spec fn spec_selected_notes(st: StateModel) -> Seq<Note> {
    st.music.tracks[st.music.selected.unwrap() as int].notes
}

/// The state with the notes of the selected track replaced.
pub open spec fn spec_with_selected_notes(st: StateModel, notes: Seq<Note>) -> StateModel {
    let t = st.music.selected.unwrap() as int;
    StateModel {
        music: MusicModel {
            tracks: st.music.tracks.update(t, TrackModel { notes, ..st.music.tracks[t] }),
            ..st.music
        },
        ..st
    }
}

/// What the edit sub-panel does: the new state, and whether a snapshot of the change is made.
pub open spec fn spec_edit_update(d: EditModeDeltas, st: StateModel, events: Seq<InputEvent>) -> (StateModel, bool) {
    let a = spec_edit_action(events);
    if st.music.selected is None {
        (st, false)
    } else if a == EditAction::CycleMode {
        (StateModel { edit_mode: spec_step_up(st.edit_mode), ..st }, true)
    } else if st.selection.notes.len() == 0 || a == EditAction::Nothing {
        (st, false)
    } else {
        let e = spec_note_edit(d, a, spec_edit_mode(st.edit_mode.index), st.input.beat);
        let notes = spec_selected_notes(st);
        if spec_all_allowed(e, notes, st.selection.notes) {
            (spec_with_selected_notes(st, spec_edit_selected(e, notes, st.selection.notes)), true)
        } else {
            (st, false)
        }
    }
}

/// What the edit sub-panel needs so that no arithmetic leaves its range.
pub open spec fn spec_edit_fits(d: EditModeDeltas, st: StateModel, events: Seq<InputEvent>) -> bool {
    let a = spec_edit_action(events);
    let mode = spec_edit_mode(st.edit_mode.index);
    let edits = st.music.selected is Some && a != EditAction::CycleMode && a != EditAction::Nothing
        && st.selection.notes.len() > 0;
    &&& edits && spec_is_time_action(a) ==> d.spec_dt(mode, st.input.beat) <= u64::MAX
    &&& edits && (a == EditAction::StartRight || a == EditAction::DurationRight || a == EditAction::PitchUp
        || a == EditAction::PitchDown || a == EditAction::VolumeUp || a == EditAction::VolumeDown)
        ==> spec_all_in_range(spec_note_edit(d, a, mode, st.input.beat), spec_selected_notes(st), st.selection.notes)
}

/// What an edit does to the notes of the selected track, for a frame whose only event is one of
/// the edits, with at least one note selected. The edit is made only if every selected note
/// allows it, and then makes a snapshot; otherwise nothing changes. Each selected note changes
/// as the edit says and keeps its other fields; the unselected notes, the other tracks and the
/// rest of the state stay as they were.
/// - Pitch up or down: the note rises or falls by the pitch step of the edit mode, allowed while
///   it stays between the lowest and highest note.
/// - Volume up or down: the velocity rises or falls by the volume step, allowed while it stays
///   between zero and the highest volume.
/// - Start left or right: the note moves earlier or later by the time step (start and end),
///   allowed moving left while it does not start before zero.
/// - Duration left or right: the end moves earlier or later by the time step, allowed shortening
///   while the note keeps a length of at least zero.
pub proof fn lemma_edit_notes(d: EditModeDeltas, st: StateModel, x: InputEvent)
    requires
        st.wf(),
        st.music.selected is Some,
        st.selection.notes.len() > 0,
        spec_edit_fits(d, st, seq![x]),
        x == InputEvent::EditPitchUp || x == InputEvent::EditPitchDown || x == InputEvent::EditVolumeUp
            || x == InputEvent::EditVolumeDown || x == InputEvent::EditStartLeft || x == InputEvent::EditStartRight
            || x == InputEvent::EditDurationLeft || x == InputEvent::EditDurationRight,
    ensures
        ({
            let (st1, snap) = spec_edit_update(d, st, seq![x]);
            let t = st.music.selected.unwrap() as int;
            let ns = st.music.tracks[t].notes;
            let ns1 = st1.music.tracks[t].notes;
            let sel = st.selection.notes;
            let mode = spec_edit_mode(st.edit_mode.index);
            let dn = d.spec_dn(mode);
            let dv = d.spec_dv(mode);
            let dt = d.spec_dt(mode, st.input.beat);
            &&& !snap ==> st1 == st
            &&& snap ==> st1 == StateModel {
                music: MusicModel {
                    tracks: st.music.tracks.update(t, TrackModel { notes: ns1, ..st.music.tracks[t] }),
                    ..st.music
                },
                ..st
            }
            &&& ns1.len() == ns.len()
            &&& forall|i: int| 0 <= i < ns.len() && !sel.contains(i as usize) ==> #[trigger] ns1[i] == ns[i]
            &&& x == InputEvent::EditPitchUp ==> (snap <==> forall|i: int|
                0 <= i < ns.len() && sel.contains(i as usize) ==> #[trigger] ns[i].note + dn <= MAX_NOTE)
                && forall|i: int| 0 <= i < ns.len() && sel.contains(i as usize) && snap ==> #[trigger] ns1[i]
                    == Note { note: (ns[i].note + dn) as u8, ..ns[i] }
            &&& x == InputEvent::EditPitchDown ==> (snap <==> forall|i: int|
                0 <= i < ns.len() && sel.contains(i as usize) ==> #[trigger] ns[i].note - dn >= MIN_NOTE)
                && forall|i: int| 0 <= i < ns.len() && sel.contains(i as usize) && snap ==> #[trigger] ns1[i]
                    == Note { note: (ns[i].note - dn) as u8, ..ns[i] }
            &&& x == InputEvent::EditVolumeUp ==> (snap <==> forall|i: int|
                0 <= i < ns.len() && sel.contains(i as usize) ==> #[trigger] ns[i].velocity + dv <= MAX_VOLUME)
                && forall|i: int| 0 <= i < ns.len() && sel.contains(i as usize) && snap ==> #[trigger] ns1[i]
                    == Note { velocity: (ns[i].velocity + dv) as u8, ..ns[i] }
            &&& x == InputEvent::EditVolumeDown ==> (snap <==> forall|i: int|
                0 <= i < ns.len() && sel.contains(i as usize) ==> #[trigger] ns[i].velocity >= dv)
                && forall|i: int| 0 <= i < ns.len() && sel.contains(i as usize) && snap ==> #[trigger] ns1[i]
                    == Note { velocity: (ns[i].velocity - dv) as u8, ..ns[i] }
            &&& x == InputEvent::EditStartLeft ==> (snap <==> forall|i: int|
                0 <= i < ns.len() && sel.contains(i as usize) ==> #[trigger] ns[i].start >= dt)
                && forall|i: int| 0 <= i < ns.len() && sel.contains(i as usize) && snap ==> #[trigger] ns1[i]
                    == Note { start: (ns[i].start - dt) as u64, end: (ns[i].end - dt) as u64, ..ns[i] }
            &&& x == InputEvent::EditStartRight ==> snap && forall|i: int|
                0 <= i < ns.len() && sel.contains(i as usize) ==> #[trigger] ns1[i]
                    == Note { start: (ns[i].start + dt) as u64, end: (ns[i].end + dt) as u64, ..ns[i] }
            &&& x == InputEvent::EditDurationLeft ==> (snap <==> forall|i: int|
                0 <= i < ns.len() && sel.contains(i as usize) ==> #[trigger] ns[i].end - ns[i].start >= dt)
                && forall|i: int| 0 <= i < ns.len() && sel.contains(i as usize) && snap ==> #[trigger] ns1[i]
                    == Note { end: (ns[i].end - dt) as u64, ..ns[i] }
            &&& x == InputEvent::EditDurationRight ==> snap && forall|i: int|
                0 <= i < ns.len() && sel.contains(i as usize) ==> #[trigger] ns1[i]
                    == Note { end: (ns[i].end + dt) as u64, ..ns[i] }
        }),
{
    lemma_only_event(x);
    let t = st.music.selected.unwrap() as int;
    let (st1, snap) = spec_edit_update(d, st, seq![x]);
    assert(st.music.tracks[t] == st.music.tracks[t]);
    if snap {
        let ns1 = spec_edit_selected(
            spec_note_edit(d, spec_edit_action(seq![x]), spec_edit_mode(st.edit_mode.index), st.input.beat),
            spec_selected_notes(st),
            st.selection.notes,
        );
        assert(st1.music.tracks[t].notes == ns1);
    }
}

/// An edit that every selected note allows keeps every note valid.
pub proof fn lemma_allowed_edit_keeps_notes_valid(e: NoteEdit, notes: Seq<Note>, sel: Seq<usize>)
    requires
        forall|i: int| 0 <= i < notes.len() ==> #[trigger] note_wf(notes[i]),
        spec_all_in_range(e, notes, sel),
        spec_all_allowed(e, notes, sel),
    ensures
        forall|i: int|
            0 <= i < notes.len() ==> #[trigger] note_wf(spec_edit_selected(e, notes, sel)[i]),
{
    assert forall|i: int| 0 <= i < notes.len() implies #[trigger] note_wf(
        spec_edit_selected(e, notes, sel)[i],
    ) by {
        assert(note_wf(notes[i]));
        if spec_selected(sel, i) {
            assert(spec_allowed(e, notes[i]));
            assert(spec_in_range(e, notes[i]));
        }
    }
}

/// The edit that undoes an edit.
pub open spec fn spec_inverse(e: NoteEdit) -> NoteEdit {
    match e {
        NoteEdit::ShiftLeft(d) => NoteEdit::ShiftRight(d),
        NoteEdit::ShiftRight(d) => NoteEdit::ShiftLeft(d),
        NoteEdit::Shorten(d) => NoteEdit::Lengthen(d),
        NoteEdit::Lengthen(d) => NoteEdit::Shorten(d),
        NoteEdit::PitchUp(d) => NoteEdit::PitchDown(d),
        NoteEdit::PitchDown(d) => NoteEdit::PitchUp(d),
        NoteEdit::VolumeUp(d) => NoteEdit::VolumeDown(d),
        NoteEdit::VolumeDown(d) => NoteEdit::VolumeUp(d),
    }
}

/// An edit of the selected notes, followed by the opposite edit (right after left, down after
/// up, and so on), is allowed and gives back the notes, when the notes were valid, the first
/// edit was allowed, and a pitch step is at most 128 and a volume step at most the highest volume.
pub proof fn lemma_edit_round_trip(e: NoteEdit, notes: Seq<Note>, sel: Seq<usize>)
    requires
        forall|i: int| 0 <= i < notes.len() ==> #[trigger] note_wf(notes[i]),
        spec_all_in_range(e, notes, sel),
        spec_all_allowed(e, notes, sel),
        match e {
            NoteEdit::PitchUp(d) => d <= 128 && forall|i: int|
                0 <= i < notes.len() && spec_selected(sel, i) ==> #[trigger] notes[i].note >= MIN_NOTE,
            NoteEdit::PitchDown(d) => true,
            NoteEdit::VolumeUp(d) => d <= MAX_VOLUME,
            NoteEdit::VolumeDown(d) => d <= MAX_VOLUME,
            _ => true,
        },
    ensures
        spec_all_in_range(spec_inverse(e), spec_edit_selected(e, notes, sel), sel),
        spec_all_allowed(spec_inverse(e), spec_edit_selected(e, notes, sel), sel),
        spec_edit_selected(spec_inverse(e), spec_edit_selected(e, notes, sel), sel) == notes,
{
    let once = spec_edit_selected(e, notes, sel);
    assert forall|i: int| 0 <= i < once.len() && spec_selected(sel, i) implies spec_in_range(
        spec_inverse(e),
        #[trigger] once[i],
    ) && spec_allowed(spec_inverse(e), once[i]) by {
        assert(note_wf(notes[i]));
        assert(spec_allowed(e, notes[i]));
        assert(spec_in_range(e, notes[i]));
    }
    let twice = spec_edit_selected(spec_inverse(e), once, sel);
    assert forall|i: int| 0 <= i < notes.len() implies #[trigger] twice[i] == notes[i] by {
        assert(note_wf(notes[i]));
        if spec_selected(sel, i) {
            assert(spec_allowed(e, notes[i]));
            assert(spec_in_range(e, notes[i]));
        }
    }
    assert(twice =~= notes);
}

/// The state with the notes of the selected track replaced by valid notes is valid.
pub proof fn lemma_with_notes_wf(st: StateModel, notes: Seq<Note>)
    requires
        st.wf(),
        st.music.selected is Some,
        forall|i: int| 0 <= i < notes.len() ==> #[trigger] note_wf(notes[i]),
    ensures
        spec_with_selected_notes(st, notes).wf(),
{
    let st1 = spec_with_selected_notes(st, notes);
    let sel = st.music.selected.unwrap() as int;
    assert forall|t: int, i: int|
        0 <= t < st1.music.tracks.len() && 0 <= i < st1.music.tracks[t].notes.len() implies #[trigger] note_wf(
        st1.music.tracks[t].notes[i],
    ) by {
        if t != sel {
            assert(st1.music.tracks[t] == st.music.tracks[t]);
            assert(note_wf(st.music.tracks[t].notes[i]));
        }
    }
}

/// The edit sub-panel keeps the state valid: an edit is made only if every selected note allows
/// it, and an allowed edit keeps notes valid.
pub proof fn lemma_edit_keeps_wf(d: EditModeDeltas, st: StateModel, events: Seq<InputEvent>)
    requires
        st.wf(),
        spec_edit_fits(d, st, events),
    ensures
        spec_edit_update(d, st, events).0.wf(),
{
    let a = spec_edit_action(events);
    if st.music.selected is Some && a != EditAction::CycleMode && st.selection.notes.len() > 0 && a
        != EditAction::Nothing {
        let mode = spec_edit_mode(st.edit_mode.index);
        let e = spec_note_edit(d, a, mode, st.input.beat);
        let notes = spec_selected_notes(st);
        let t = st.music.selected.unwrap() as int;
        assert forall|i: int| 0 <= i < notes.len() implies #[trigger] note_wf(notes[i]) by {
            assert(note_wf(st.music.tracks[t].notes[i]));
        }
        assert forall|i: int|
            0 <= i < notes.len() && spec_selected(st.selection.notes, i) implies spec_in_range(
            e,
            #[trigger] notes[i],
        ) by {
            assert(note_wf(notes[i]));
        }
        if spec_all_allowed(e, notes, st.selection.notes) {
            lemma_allowed_edit_keeps_notes_valid(e, notes, st.selection.notes);
            lemma_with_notes_wf(st, spec_edit_selected(e, notes, st.selection.notes));
        }
    }
}

/// Edit the selected notes.
#[derive(Clone, Copy, Debug)]
pub struct Edit {
    /// The edit mode deltas.
    pub deltas: EditModeDeltas,
}

impl Edit {
    pub fn new(deltas: EditModeDeltas) -> (r: Edit)
        ensures
            r.deltas == deltas,
    {
        Edit { deltas }
    }

    /// Apply a frame of input: cycle the edit mode, or move, resize, transpose, or change the
    /// volume of the selected notes of the selected track. An edit is made only if every selected
    /// note allows it.
    pub fn update(&self, state: &mut State, input: &Input) -> (r: Option<Snapshot>)
        requires
            old(state)@.wf(),
            spec_edit_fits(self.deltas, old(state)@, input.events@),
        ensures
            final(state)@ == spec_edit_update(self.deltas, old(state)@, input.events@).0,
            r is Some == spec_edit_update(self.deltas, old(state)@, input.events@).1,
            r matches Some(s) ==> s@ == (SnapshotModel {
                from_state: Some(old(state)@),
                to_state: Some(final(state)@),
                from_commands: None,
                to_commands: None,
                io_commands: None,
            }),
    {
        let ghost st0 = state@;
        let t = match state.music.selected {
            None => return None,
            Some(t) => t,
        };
        let a = edit_action(input);
        if a == EditAction::CycleMode {
            let s0 = state.duplicate();
            state.edit_mode.increment(true);
            proof {
                assert(state@ =~= spec_edit_update(self.deltas, st0, input.events@).0);
            }
            return Some(Snapshot::from_states(s0, state));
        }
        if state.selection.notes.len() == 0 || a == EditAction::Nothing {
            return None;
        }
        let mode = edit_mode_at(state.edit_mode.get());
        let e = match a {
            EditAction::StartLeft => NoteEdit::ShiftLeft(self.deltas.get_dt(mode, state.input.beat)),
            EditAction::StartRight => NoteEdit::ShiftRight(self.deltas.get_dt(mode, state.input.beat)),
            EditAction::DurationLeft => NoteEdit::Shorten(self.deltas.get_dt(mode, state.input.beat)),
            EditAction::DurationRight => NoteEdit::Lengthen(self.deltas.get_dt(mode, state.input.beat)),
            EditAction::PitchUp => NoteEdit::PitchUp(self.deltas.get_dn(mode)),
            EditAction::PitchDown => NoteEdit::PitchDown(self.deltas.get_dn(mode)),
            EditAction::VolumeUp => NoteEdit::VolumeUp(self.deltas.get_dv(mode)),
            _ => NoteEdit::VolumeDown(self.deltas.get_dv(mode)),
        };
        proof {
            assert(e == spec_note_edit(self.deltas, a, mode, st0.input.beat));
            let notes = spec_selected_notes(st0);
            assert(st0.music.tracks[t as int] == state.music.midi_tracks@[t as int]@);
            assert forall|i: int|
                0 <= i < notes.len() && spec_selected(st0.selection.notes, i) implies spec_in_range(
                e,
                #[trigger] notes[i],
            ) by {
                assert(crate::model::note_wf(st0.music.tracks[t as int].notes[i]));
            }
        }
        if !all_allowed(e, &state.music.midi_tracks[t].notes, &state.selection.notes) {
            return None;
        }
        let s0 = state.duplicate();
        let new_notes = edit_selected(e, &state.music.midi_tracks[t].notes, &state.selection.notes);
        state.music.set_track_notes(t, new_notes);
        proof {
            assert(state@ =~= spec_edit_update(self.deltas, st0, input.events@).0);
        }
        Some(Snapshot::from_states(s0, state))
    }
}

/// The status of the edit sub-panel: its edit mode.
pub open spec fn spec_edit_status(st: StateModel) -> Seq<Seq<PhraseModel>> {
    seq![seq![spec_edit_mode_status(st.edit_mode)]]
}

/// The input of the edit sub-panel, said at once: how to edit the selected notes (or that
/// nothing is selected), and how to cycle the edit mode.
pub open spec fn spec_edit_input(st: StateModel) -> Seq<Seq<PhraseModel>> {
    let first = if st.selection.notes.len() > 0 {
        spec_tip(
            "PIANO_ROLL_PANEL_INPUT_TTS_EDIT"@,
            seq![
                InputEvent::EditPitchUp,
                InputEvent::EditPitchDown,
                InputEvent::EditStartLeft,
                InputEvent::EditStartRight,
                InputEvent::EditDurationLeft,
                InputEvent::EditDurationRight,
                InputEvent::EditVolumeUp,
                InputEvent::EditVolumeDown,
            ],
        )
    } else {
        spec_no_selection()
    };
    seq![seq![first, spec_cycle_edit_mode_input(st.edit_mode)]]
}

impl Edit {
    /// The status of the edit sub-panel.
    pub fn get_status_tts(&self, state: &State) -> (r: Vec<Utterance>)
        ensures
            speech_view(r@) == spec_edit_status(state@),
    {
        let mut r = silence();
        add_phrase(&mut r, get_edit_mode_status_tts(&state.edit_mode));
        proof {
            assert(speech_view(r@) =~= spec_edit_status(state@));
        }
        r
    }

    /// The input of the edit sub-panel.
    pub fn get_input_tts(&self, state: &State) -> (r: Vec<Utterance>)
        ensures
            speech_view(r@) == spec_edit_input(state@),
    {
        let first = if state.selection.notes.len() > 0 {
            let mut e = ev4(InputEvent::EditPitchUp, InputEvent::EditPitchDown, InputEvent::EditStartLeft, InputEvent::EditStartRight);
            e.push(InputEvent::EditDurationLeft);
            e.push(InputEvent::EditDurationRight);
            e.push(InputEvent::EditVolumeUp);
            e.push(InputEvent::EditVolumeDown);
            proof {
                assert(e@ =~= seq![
                    InputEvent::EditPitchUp,
                    InputEvent::EditPitchDown,
                    InputEvent::EditStartLeft,
                    InputEvent::EditStartRight,
                    InputEvent::EditDurationLeft,
                    InputEvent::EditDurationRight,
                    InputEvent::EditVolumeUp,
                    InputEvent::EditVolumeDown,
                ]);
            }
            tip("PIANO_ROLL_PANEL_INPUT_TTS_EDIT", e)
        } else {
            no_selection()
        };
        let ghost f = first@;
        let mut u = say(first);
        join(&mut u, get_cycle_edit_mode_input_tts(&state.edit_mode));
        proof {
            assert(u@ =~= seq![f, spec_cycle_edit_mode_input(state.edit_mode)]);
            assert(spec_edit_input(state@)[0] =~= seq![f, spec_cycle_edit_mode_input(state.edit_mode)]);
        }
        let mut r = silence();
        add_utterance(&mut r, u);
        proof {
            assert(speech_view(r@) =~= spec_edit_input(state@));
        }
        r
    }
}

} // verus!
