use vstd::prelude::*;
use crate::index::{spec_step, spec_step_down, spec_step_up, Index};
use crate::input::{lemma_only_event, Input, InputEvent, NoteOn};
use crate::model::{
    note_wf, tracks_view, Effect, InputState, MusicModel, Note, PianoRollMode, SelectionModel, State, StateModel, TimeState,
    TrackModel, ViewState,
};
use crate::piano_roll::copy::{
    copied_events, keep_unselected_effects, keep_unselected_notes, paste, spec_copied, spec_keep_unselected,
    spec_min_start, spec_paste_effects, spec_paste_fits, spec_paste_notes, CopiedEvent,
    lemma_keep_unselected_positions, spec_unselected_positions, lemma_pick_positions, spec_below_pred,
};
use crate::piano_roll::edit::{spec_edit_fits, spec_edit_update, Edit};
use crate::piano_roll::edit_mode_deltas::EditModeDeltas;
use crate::piano_roll::select::{spec_select_fits, spec_select_update, Select};
use crate::piano_roll::time::{spec_time_fits, spec_time_update, Time};
use crate::piano_roll::view::{spec_view_fits, spec_view_update, view_wf, PianoRollView};
use crate::snapshot::{opt_snapshot_view, spec_snap_states, Snapshot, SnapshotModel};
use crate::synth::{Program, SynthState};
use crate::tracks::{select_track, spec_select_track};
use crate::piano_roll::edit::spec_edit_input;
use crate::piano_roll::edit::spec_edit_status;
use crate::piano_roll::select::{spec_select_input, spec_select_status};
use crate::piano_roll::time::{spec_time_input, spec_time_status};
use crate::piano_roll::view::{spec_view_input, spec_view_status};
use crate::speech::{
    add_all, add_phrase, ev1, ev2, ev3, ev4, silence, speech_view, spec_each, spec_text, spec_text1, spec_tip, text, text1,
    text_with, tip, values_view, PhraseModel, Utterance, Value, ValueModel,
};

verus! {

broadcast use vstd::std_specs::hash::group_hash_axioms;

/// What the piano roll does with a frame of input: the first of these that applies.
#[derive(Clone, Copy, Debug, PartialEq, Eq, Structural)]
pub enum PianoRollAction {
    /// Select the previous or next track (only in the multi-track view).
    SelectTrack,
    /// There is no selected track.
    Nothing,
    /// Add the new notes at the cursor (only when armed).
    AddNotes,
    /// Status or input speech.
    Speak,
    Copy,
    Cut,
    Delete,
    Paste,
    Arm,
    ToggleTracks,
    BeatLeft,
    BeatRight,
    ToggleVolume,
    VolumeDown,
    VolumeUp,
    SetMode(PianoRollMode),
    /// Hand the input to the sub-panel of the current mode.
    SubPanel,
}

/// The action for a frame of input: its events, and whether it holds new notes.
pub open spec fn spec_piano_roll_action(st: StateModel, e: Seq<InputEvent>, new_notes: bool) -> PianoRollAction {
    if !st.view.single_track && spec_select_track(
        st,
        e,
        InputEvent::PianoRollPreviousTrack,
        InputEvent::PianoRollNextTrack,
    ).1 {
        PianoRollAction::SelectTrack
    } else if st.music.selected is None {
        PianoRollAction::Nothing
    } else if st.input.armed && new_notes {
        PianoRollAction::AddNotes
    } else if e.contains(InputEvent::StatusTTS) || e.contains(InputEvent::InputTTS) {
        PianoRollAction::Speak
    } else if e.contains(InputEvent::CopyNotes) {
        PianoRollAction::Copy
    } else if e.contains(InputEvent::CutNotes) {
        PianoRollAction::Cut
    } else if e.contains(InputEvent::DeleteNotes) {
        PianoRollAction::Delete
    } else if e.contains(InputEvent::PasteNotes) {
        PianoRollAction::Paste
    } else if e.contains(InputEvent::Arm) {
        PianoRollAction::Arm
    } else if e.contains(InputEvent::PianoRollToggleTracks) {
        PianoRollAction::ToggleTracks
    } else if e.contains(InputEvent::InputBeatLeft) {
        PianoRollAction::BeatLeft
    } else if e.contains(InputEvent::InputBeatRight) {
        PianoRollAction::BeatRight
    } else if e.contains(InputEvent::ToggleInputVolume) {
        PianoRollAction::ToggleVolume
    } else if e.contains(InputEvent::DecreaseInputVolume) {
        PianoRollAction::VolumeDown
    } else if e.contains(InputEvent::IncreaseInputVolume) {
        PianoRollAction::VolumeUp
    } else if e.contains(InputEvent::PianoRollSetEdit) {
        PianoRollAction::SetMode(PianoRollMode::Edit)
    } else if e.contains(InputEvent::PianoRollSetSelect) {
        PianoRollAction::SetMode(PianoRollMode::Select)
    } else if e.contains(InputEvent::PianoRollSetTime) {
        PianoRollAction::SetMode(PianoRollMode::Time)
    } else if e.contains(InputEvent::PianoRollSetView) {
        PianoRollAction::SetMode(PianoRollMode::View)
    } else {
        PianoRollAction::SubPanel
    }
}

/// A copied event is valid if it is a valid note or any effect.
pub open spec fn copied_wf(e: CopiedEvent) -> bool {
    match e {
        CopiedEvent::Note(n) => note_wf(n),
        CopiedEvent::Effect(_) => true,
    }
}

/// The mathematical value of the piano roll.
#[verifier::ext_equal]
pub struct PianoRollModel {
    pub edit: Edit,
    pub select: Select,
    pub time: Time,
    pub view: PianoRollView,
    pub beats: Seq<u64>,
    pub beat: Index,
    pub copy_buffer: Seq<CopiedEvent>,
}

impl PianoRollModel {
    /// The invariant of the piano roll: the input beat is one of the beats, and the copy buffer
    /// holds valid notes.
    pub open spec fn wf(self) -> bool {
        &&& self.beats.len() > 0
        &&& self.beat.length == self.beats.len()
        &&& self.beat.index < self.beat.length
        &&& forall|i: int| 0 <= i < self.copy_buffer.len() ==> #[trigger] copied_wf(self.copy_buffer[i])
    }
}

/// A note played at the cursor, one input beat long.
pub open spec fn spec_new_note(n: NoteOn, cursor: u64, beat: u64) -> Note {
    Note { note: n.note, velocity: n.velocity, start: cursor, end: (cursor + beat) as u64 }
}

/// The notes played at the cursor.
pub open spec fn spec_new_notes(ns: Seq<NoteOn>, cursor: u64, beat: u64) -> Seq<Note> {
    ns.map_values(|n: NoteOn| spec_new_note(n, cursor, beat))
}

/// The state with the selected track replaced.
pub open spec fn spec_with_track(st: StateModel, track: TrackModel) -> StateModel {
    StateModel {
        music: MusicModel {
            tracks: st.music.tracks.update(st.music.selected.unwrap() as int, track),
            ..st.music
        },
        ..st
    }
}

/// The selected track of a state.
pub open spec fn spec_track(st: StateModel) -> TrackModel {
    st.music.tracks[st.music.selected.unwrap() as int]
}

/// The state after adding the played notes at the cursor and moving the cursor one beat on.
pub open spec fn spec_notes_added(st: StateModel, ns: Seq<NoteOn>) -> StateModel {
    let c = st.time.cursor;
    let b = st.input.beat;
    let track = spec_track(st);
    StateModel {
        time: TimeState { cursor: (c + b) as u64, ..st.time },
        ..spec_with_track(st, TrackModel { notes: track.notes + spec_new_notes(ns, c, b), ..track })
    }
}

/// The state after deleting the selected notes and effects of the selected track. If anything
/// was selected, nothing is selected afterwards.
pub open spec fn spec_deleted(st: StateModel) -> StateModel {
    let track = spec_track(st);
    let sel = st.selection;
    let notes = if sel.notes.len() > 0 {
        spec_keep_unselected(track.notes, sel.notes)
    } else {
        track.notes
    };
    let effects = if sel.effects.len() > 0 {
        spec_keep_unselected(track.effects, sel.effects)
    } else {
        track.effects
    };
    let deleted = sel.notes.len() > 0 || sel.effects.len() > 0;
    StateModel {
        selection: if deleted {
            SelectionModel { notes: Seq::empty(), effects: Seq::empty(), ..sel }
        } else {
            sel
        },
        ..spec_with_track(st, TrackModel { notes, effects, ..track })
    }
}

/// The state after pasting the copy buffer at the cursor into the selected track.
pub open spec fn spec_pasted(st: StateModel, b: Seq<CopiedEvent>) -> StateModel {
    let c = st.time.cursor;
    let track = spec_track(st);
    spec_with_track(
        st,
        TrackModel {
            notes: track.notes + spec_paste_notes(b, spec_min_start(b), c),
            effects: track.effects + spec_paste_effects(b, c),
            ..track
        },
    )
}

/// The state with its input settings replaced.
pub open spec fn spec_with_input(st: StateModel, i: InputState) -> StateModel {
    StateModel { input: i, ..st }
}

/// A sub-panel's result as a state and an optional snapshot.
pub open spec fn spec_sub_result(st: StateModel, r: (StateModel, bool)) -> (StateModel, Option<SnapshotModel>) {
    (r.0, if r.1 { Some(spec_snap_states(st, r.0)) } else { None })
}

/// What the sub-panel of the current mode does.
pub open spec fn spec_sub_panel_update(p: PianoRollModel, st: StateModel, e: Seq<InputEvent>) -> (StateModel, Option<SnapshotModel>) {
    match st.piano_roll_mode {
        PianoRollMode::Edit => spec_sub_result(st, spec_edit_update(p.edit.deltas, st, e)),
        PianoRollMode::Select => spec_sub_result(st, spec_select_update(st, e)),
        PianoRollMode::Time => spec_sub_result(st, spec_time_update(p.time.deltas, st, e)),
        PianoRollMode::View => spec_sub_result(st, spec_view_update(p.view.deltas, p.view.dt_0, st, e)),
    }
}

/// The status of the sub-panel of the current mode.
pub open spec fn spec_sub_panel_status(st: StateModel) -> Seq<Seq<PhraseModel>> {
    match st.piano_roll_mode {
        PianoRollMode::Edit => spec_edit_status(st),
        PianoRollMode::Select => spec_select_status(st),
        PianoRollMode::Time => spec_time_status(st),
        PianoRollMode::View => spec_view_status(st),
    }
}

/// The input of the sub-panel of the current mode.
pub open spec fn spec_sub_panel_input(st: StateModel) -> Seq<Seq<PhraseModel>> {
    match st.piano_roll_mode {
        PianoRollMode::Edit => spec_edit_input(st),
        PianoRollMode::Select => spec_select_input(st),
        PianoRollMode::Time => spec_time_input(),
        PianoRollMode::View => spec_view_input(st),
    }
}

/// What is said when the selected track has no program.
pub open spec fn spec_no_track() -> Seq<Seq<PhraseModel>> {
    seq![seq![spec_text("PIANO_ROLL_PANEL_TTS_NO_TRACK"@)]]
}

/// The status of the piano roll: its mode, whether input is armed (with the input beat and
/// volume), which tracks are shown, and the status of the sub-panel; each on its own.
pub open spec fn spec_piano_roll_status(st: StateModel) -> Seq<Seq<PhraseModel>> {
    let i = st.input;
    let armed = if i.armed {
        let v = if i.use_volume {
            ValueModel::Int(i.volume.index as u64)
        } else {
            ValueModel::KeyWithInt("PIANO_ROLL_PANEL_STATUS_TTS_VOLUME"@, i.volume.index as u64)
        };
        PhraseModel::Text { key: "PIANO_ROLL_PANEL_STATUS_TTS_ARMED"@, values: seq![ValueModel::Ppq(i.beat), v] }
    } else {
        spec_text("PIANO_ROLL_PANEL_STATUS_TTS_NOT_ARMED"@)
    };
    let tracks = spec_text1(
        if st.view.single_track {
            "PIANO_ROLL_PANEL_STATUS_TTS_SINGLE_TRACK"@
        } else {
            "PIANO_ROLL_PANEL_STATUS_TTS_MULTI_TRACK"@
        },
        ValueModel::Int(st.music.selected.unwrap() as u64),
    );
    spec_each(
        seq![
            spec_text1("PIANO_ROLL_PANEL_STATUS_TTS_PIANO_ROLL_MODE"@, ValueModel::Mode(st.piano_roll_mode)),
            armed,
            tracks,
        ],
    ) + spec_sub_panel_status(st)
}

/// The events that play notes.
pub open spec fn spec_note_events() -> Seq<InputEvent> {
    seq![
        InputEvent::C,
        InputEvent::CSharp,
        InputEvent::D,
        InputEvent::DSharp,
        InputEvent::E,
        InputEvent::F,
        InputEvent::FSharp,
        InputEvent::G,
        InputEvent::GSharp,
        InputEvent::A,
        InputEvent::ASharp,
        InputEvent::B,
        InputEvent::OctaveUp,
        InputEvent::OctaveDown,
    ]
}

/// The input of the piano roll, each tooltip on its own: playing, arming (with the input beat
/// and volume), the notes, the tracks shown, the modes, copying, cutting, pasting (if anything
/// was copied), deleting, and the input of the sub-panel.
pub open spec fn spec_piano_roll_input(p: PianoRollModel, st: StateModel) -> Seq<Seq<PhraseModel>> {
    let i = st.input;
    let armed = if i.armed {
        seq![
            spec_tip(
                "PIANO_ROLL_PANEL_INPUT_TTS_ARMED"@,
                seq![InputEvent::Arm, InputEvent::InputBeatLeft, InputEvent::InputBeatRight],
            ),
            if i.use_volume {
                spec_tip(
                    "PIANO_ROLL_PANEL_INPUT_TTS_DO_NOT_USE_VOLUME"@,
                    seq![InputEvent::DecreaseInputVolume, InputEvent::IncreaseInputVolume, InputEvent::ToggleInputVolume],
                )
            } else {
                spec_tip("PIANO_ROLL_PANEL_INPUT_TTS_USE_VOLUME"@, seq![InputEvent::ToggleInputVolume])
            },
        ]
    } else {
        seq![spec_tip("PIANO_ROLL_PANEL_INPUT_TTS_NOT_ARMED"@, seq![InputEvent::Arm])]
    };
    let single = st.view.single_track;
    let toggle = spec_tip(
        if single {
            "PIANO_ROLL_PANEL_INPUT_TTS_MULTI_TRACK"@
        } else {
            "PIANO_ROLL_PANEL_INPUT_TTS_SINGLE_TRACK"@
        },
        seq![InputEvent::PianoRollToggleTracks],
    );
    let scroll = if single {
        seq![]
    } else {
        seq![
            spec_tip(
                "PIANO_ROLL_PANEL_INPUT_TTS_TRACK_SCROLL"@,
                seq![InputEvent::PianoRollPreviousTrack, InputEvent::PianoRollNextTrack],
            ),
        ]
    };
    let modes = spec_tip(
        "PIANO_ROLL_PANEL_INPUT_TTS_MODES"@,
        seq![
            InputEvent::PianoRollSetTime,
            InputEvent::PianoRollSetView,
            InputEvent::PianoRollSetSelect,
            InputEvent::PianoRollSetEdit,
        ],
    );
    let paste = if p.copy_buffer.len() > 0 {
        seq![spec_tip("PIANO_ROLL_PANEL_INPUT_TTS_PASTE"@, seq![InputEvent::PasteNotes])]
    } else {
        seq![]
    };
    spec_each(
        seq![spec_tip("PIANO_ROLL_PANEL_INPUT_TTS_PLAY"@, seq![InputEvent::PlayStop])] + armed + seq![
            spec_tip("PIANO_ROLL_PANEL_INPUT_TTS_NOTES"@, spec_note_events()),
            toggle,
        ] + scroll + seq![modes, spec_tip("PIANO_ROLL_PANEL_INPUT_TTS_COPY_CUT"@, seq![InputEvent::CopyNotes, InputEvent::CutNotes])]
            + paste + seq![spec_tip("PIANO_ROLL_PANEL_INPUT_TTS_DELETE"@, seq![InputEvent::DeleteNotes])],
    ) + spec_sub_panel_input(st)
}

/// What the piano roll says: when the input is to be spoken, its status or its input; if the
/// selected track has no program, that there is no track.
pub open spec fn spec_piano_roll_speech(
    p: PianoRollModel,
    st: StateModel,
    synth: Map<u8, Program>,
    e: Seq<InputEvent>,
    ns: Seq<NoteOn>,
) -> Seq<Seq<PhraseModel>> {
    if spec_piano_roll_action(st, e, ns.len() > 0) != PianoRollAction::Speak {
        seq![]
    } else if !synth.contains_key(spec_track(st).channel) {
        spec_no_track()
    } else if e.contains(InputEvent::StatusTTS) {
        spec_piano_roll_status(st)
    } else {
        spec_piano_roll_input(p, st)
    }
}

/// What the piano roll does: its new value, the new state, and the snapshot made, if any.
pub open spec fn spec_piano_roll_update(
    p: PianoRollModel,
    st: StateModel,
    synth: Map<u8, Program>,
    e: Seq<InputEvent>,
    ns: Seq<NoteOn>,
) -> (PianoRollModel, StateModel, Option<SnapshotModel>) {
    let i = st.input;
    match spec_piano_roll_action(st, e, ns.len() > 0) {
        PianoRollAction::SelectTrack => {
            let st1 = spec_select_track(st, e, InputEvent::PianoRollPreviousTrack, InputEvent::PianoRollNextTrack).0;
            (p, st1, Some(spec_snap_states(st, st1)))
        },
        PianoRollAction::AddNotes => if synth.contains_key(spec_track(st).channel) {
            let st1 = spec_notes_added(st, ns);
            (p, st1, Some(spec_snap_states(st, st1)))
        } else {
            (p, st, None)
        },
        PianoRollAction::Copy => (
            PianoRollModel { copy_buffer: spec_copied(spec_track(st), st.selection), ..p },
            st,
            None,
        ),
        PianoRollAction::Cut => {
            let st1 = spec_deleted(st);
            (
                PianoRollModel { copy_buffer: spec_copied(spec_track(st), st.selection), ..p },
                st1,
                Some(spec_snap_states(st, st1)),
            )
        },
        PianoRollAction::Delete => {
            let st1 = spec_deleted(st);
            (p, st1, Some(spec_snap_states(st, st1)))
        },
        PianoRollAction::Paste => if p.copy_buffer.len() == 0 {
            (p, st, None)
        } else {
            let st1 = spec_pasted(st, p.copy_buffer);
            (p, st1, Some(spec_snap_states(st, st1)))
        },
        PianoRollAction::Arm => {
            let st1 = spec_with_input(st, InputState { armed: !i.armed, ..i });
            (p, st1, Some(spec_snap_states(st, st1)))
        },
        PianoRollAction::ToggleTracks => {
            let st1 = StateModel { view: ViewState { single_track: !st.view.single_track, ..st.view }, ..st };
            (p, st1, Some(spec_snap_states(st, st1)))
        },
        PianoRollAction::BeatLeft | PianoRollAction::BeatRight => {
            let up = spec_piano_roll_action(st, e, ns.len() > 0) == PianoRollAction::BeatRight;
            let b = spec_step(p.beat.index, p.beat.length, up);
            let st1 = spec_with_input(st, InputState { beat: p.beats[b as int], ..i });
            (PianoRollModel { beat: Index { index: b, ..p.beat }, ..p }, st1, Some(spec_snap_states(st, st1)))
        },
        PianoRollAction::ToggleVolume => {
            let st1 = spec_with_input(st, InputState { use_volume: !i.use_volume, ..i });
            (p, st1, Some(spec_snap_states(st, st1)))
        },
        PianoRollAction::VolumeDown => {
            let st1 = spec_with_input(st, InputState { volume: spec_step_down(i.volume), ..i });
            (p, st1, Some(spec_snap_states(st, st1)))
        },
        PianoRollAction::VolumeUp => {
            let st1 = spec_with_input(st, InputState { volume: spec_step_up(i.volume), ..i });
            (p, st1, Some(spec_snap_states(st, st1)))
        },
        PianoRollAction::SetMode(m) => {
            let st1 = StateModel { piano_roll_mode: m, ..st };
            (p, st1, Some(spec_snap_states(st, st1)))
        },
        PianoRollAction::SubPanel => {
            let r = spec_sub_panel_update(p, st, e);
            (p, r.0, r.1)
        },
        _ => (p, st, None),
    }
}

/// Deleting or cutting, for a frame whose only event is the deletion or the cut, with a track
/// selected: the selected track keeps, in order, exactly its notes and its effects at the
/// positions that are not selected, and nothing else of it changes; if anything was selected the
/// selection is cleared; the other tracks and the rest of the state stay; a snapshot of the change
/// is made. A deletion leaves the copy buffer alone.
pub proof fn lemma_delete_keeps_unselected(
    p: PianoRollModel,
    st: StateModel,
    synth: Map<u8, Program>,
    x: InputEvent,
)
    requires
        st.music.selected is Some,
        x == InputEvent::DeleteNotes || x == InputEvent::CutNotes,
    ensures
        ({
            let (p1, st1, snap) = spec_piano_roll_update(p, st, synth, seq![x], Seq::empty());
            let t = st.music.selected.unwrap() as int;
            let track = st.music.tracks[t];
            let sel = st.selection;
            let notes1 = spec_unselected_positions(track.notes.len(), sel.notes).map_values(|i: int| track.notes[i]);
            let effects1 = spec_unselected_positions(track.effects.len(), sel.effects).map_values(
                |i: int| track.effects[i],
            );
            let selection1 = if sel.notes.len() > 0 || sel.effects.len() > 0 {
                SelectionModel { notes: Seq::empty(), effects: Seq::empty(), ..sel }
            } else {
                sel
            };
            &&& st1 == StateModel {
                music: MusicModel {
                    tracks: st.music.tracks.update(t, TrackModel { notes: notes1, effects: effects1, ..track }),
                    ..st.music
                },
                selection: selection1,
                ..st
            }
            &&& snap == Some(
                SnapshotModel {
                    from_state: Some(st),
                    to_state: Some(st1),
                    from_commands: None,
                    to_commands: None,
                    io_commands: None,
                },
            )
            &&& x == InputEvent::DeleteNotes ==> p1 == p
        }),
{
    lemma_only_event(x);
    let t = st.music.selected.unwrap() as int;
    let track = st.music.tracks[t];
    assert(!spec_select_track(st, seq![x], InputEvent::PianoRollPreviousTrack, InputEvent::PianoRollNextTrack).1);
    lemma_keep_unselected_positions(track.notes, st.selection.notes);
    lemma_keep_unselected_positions(track.effects, st.selection.effects);
    if st.selection.notes.len() == 0 {
        assert(spec_keep_unselected(track.notes, st.selection.notes) =~= track.notes) by {
            lemma_keep_none(track.notes, st.selection.notes);
        }
    }
    if st.selection.effects.len() == 0 {
        assert(spec_keep_unselected(track.effects, st.selection.effects) =~= track.effects) by {
            lemma_keep_none(track.effects, st.selection.effects);
        }
    }
}

/// Copying, for a frame whose only event is the copy, with a track selected: the copy buffer
/// becomes the selected notes of the track, in the order of the selection, then its selected
/// effects (positions past the end of the track are skipped); nothing else changes and nothing is
/// recorded. Cutting fills the copy buffer in the same way.
pub proof fn lemma_copy_fills_buffer(p: PianoRollModel, st: StateModel, synth: Map<u8, Program>, x: InputEvent)
    requires
        st.music.selected is Some,
        x == InputEvent::CopyNotes || x == InputEvent::CutNotes,
    ensures
        ({
            let (p1, st1, snap) = spec_piano_roll_update(p, st, synth, seq![x], Seq::empty());
            let track = st.music.tracks[st.music.selected.unwrap() as int];
            let sel = st.selection;
            let buffer = sel.notes.filter(spec_below_pred(track.notes.len())).map_values(
                |i: usize| CopiedEvent::Note(track.notes[i as int]),
            ) + sel.effects.filter(spec_below_pred(track.effects.len())).map_values(
                |i: usize| CopiedEvent::Effect(track.effects[i as int]),
            );
            &&& p1 == PianoRollModel { copy_buffer: buffer, ..p }
            &&& x == InputEvent::CopyNotes ==> st1 == st && snap is None
        }),
{
    lemma_only_event(x);
    let track = st.music.tracks[st.music.selected.unwrap() as int];
    let sel = st.selection;
    assert(!spec_select_track(st, seq![x], InputEvent::PianoRollPreviousTrack, InputEvent::PianoRollNextTrack).1);
    lemma_pick_positions(track.notes, sel.notes);
    lemma_pick_positions(track.effects, sel.effects);
    let fnotes = sel.notes.filter(spec_below_pred(track.notes.len()));
    let feffects = sel.effects.filter(spec_below_pred(track.effects.len()));
    assert(fnotes.map_values(|i: usize| track.notes[i as int]).map_values(|n: Note| CopiedEvent::Note(n))
        =~= fnotes.map_values(|i: usize| CopiedEvent::Note(track.notes[i as int])));
    assert(feffects.map_values(|i: usize| track.effects[i as int]).map_values(|e: Effect| CopiedEvent::Effect(e))
        =~= feffects.map_values(|i: usize| CopiedEvent::Effect(track.effects[i as int])));
}

/// Pasting, for a frame whose only event is the paste, with a track selected: with an empty
/// copy buffer nothing changes; otherwise the selected track keeps all its notes and effects, in
/// order, followed by the pasted ones, nothing else of the state changes, and a snapshot is made.
pub proof fn lemma_paste_appends(p: PianoRollModel, st: StateModel, synth: Map<u8, Program>)
    requires
        st.music.selected is Some,
        st.music.selected.unwrap() < st.music.tracks.len(),
    ensures
        ({
            let (p1, st1, snap) = spec_piano_roll_update(p, st, synth, seq![InputEvent::PasteNotes], Seq::empty());
            let t = st.music.selected.unwrap() as int;
            let track = st.music.tracks[t];
            let track1 = st1.music.tracks[t];
            &&& p1 == p
            &&& p.copy_buffer.len() == 0 ==> st1 == st && snap is None
            &&& p.copy_buffer.len() > 0 ==> {
                &&& st1 == StateModel {
                    music: MusicModel { tracks: st.music.tracks.update(t, track1), ..st.music },
                    ..st
                }
                &&& track1.notes.len() >= track.notes.len() && track1.notes.take(track.notes.len() as int) == track.notes
                &&& track1.effects.len() >= track.effects.len() && track1.effects.take(track.effects.len() as int)
                    == track.effects
                &&& track1.channel == track.channel && track1.gain == track.gain && track1.mute == track.mute
                    && track1.solo == track.solo
                &&& snap == Some(
                    SnapshotModel {
                        from_state: Some(st),
                        to_state: Some(st1),
                        from_commands: None,
                        to_commands: None,
                        io_commands: None,
                    },
                )
            }
        }),
{
    lemma_only_event(InputEvent::PasteNotes);
    let t = st.music.selected.unwrap() as int;
    let track = st.music.tracks[t];
    assert(!spec_select_track(
        st,
        seq![InputEvent::PasteNotes],
        InputEvent::PianoRollPreviousTrack,
        InputEvent::PianoRollNextTrack,
    ).1);
    let c = st.time.cursor;
    let b = p.copy_buffer;
    assert((track.notes + spec_paste_notes(b, spec_min_start(b), c)).take(track.notes.len() as int) =~= track.notes);
    assert((track.effects + spec_paste_effects(b, c)).take(track.effects.len() as int) =~= track.effects);
}

/// The piano roll's own settings, for a frame whose only event sets one of them, with a track
/// selected and no played notes: only that setting changes, and a snapshot is made.
/// - Arm toggles whether played notes are added; the tracks toggle switches between one track
///   and all tracks in view; the input volume toggle switches whether played notes keep their
///   velocity.
/// - The input volume rises or falls by one step, cycling through its range.
/// - Each mode event sets the piano roll's mode to that mode.
pub proof fn lemma_piano_roll_settings(p: PianoRollModel, st: StateModel, synth: Map<u8, Program>, x: InputEvent)
    requires
        st.music.selected is Some,
        st.input.volume.index < st.input.volume.length,
        x == InputEvent::Arm || x == InputEvent::PianoRollToggleTracks || x == InputEvent::ToggleInputVolume
            || x == InputEvent::IncreaseInputVolume || x == InputEvent::DecreaseInputVolume
            || x == InputEvent::PianoRollSetEdit || x == InputEvent::PianoRollSetSelect
            || x == InputEvent::PianoRollSetTime || x == InputEvent::PianoRollSetView,
    ensures
        ({
            let (p1, st1, snap) = spec_piano_roll_update(p, st, synth, seq![x], Seq::empty());
            let i = st.input;
            let vol = i.volume;
            let snapshot = Some(
                SnapshotModel {
                    from_state: Some(st),
                    to_state: Some(st1),
                    from_commands: None,
                    to_commands: None,
                    io_commands: None,
                },
            );
            &&& x == InputEvent::Arm ==> p1 == p && snap == snapshot && st1 == StateModel {
                input: InputState { armed: !i.armed, ..i },
                ..st
            }
            &&& x == InputEvent::PianoRollToggleTracks ==> p1 == p && snap == snapshot && st1 == StateModel {
                view: ViewState { single_track: !st.view.single_track, ..st.view },
                ..st
            }
            &&& x == InputEvent::ToggleInputVolume ==> p1 == p && snap == snapshot && st1 == StateModel {
                input: InputState { use_volume: !i.use_volume, ..i },
                ..st
            }
            &&& x == InputEvent::IncreaseInputVolume ==> p1 == p && snap == snapshot && st1 == StateModel {
                input: InputState {
                    volume: Index { index: ((vol.index + 1) % (vol.length as int)) as usize, ..vol },
                    ..i
                },
                ..st
            }
            &&& x == InputEvent::DecreaseInputVolume ==> p1 == p && snap == snapshot && st1 == StateModel {
                input: InputState {
                    volume: Index {
                        index: ((vol.index + vol.length - 1) % (vol.length as int)) as usize,
                        ..vol
                    },
                    ..i
                },
                ..st
            }
            &&& x == InputEvent::PianoRollSetEdit ==> p1 == p && snap == snapshot && st1 == StateModel {
                piano_roll_mode: PianoRollMode::Edit,
                ..st
            }
            &&& x == InputEvent::PianoRollSetSelect ==> p1 == p && snap == snapshot && st1 == StateModel {
                piano_roll_mode: PianoRollMode::Select,
                ..st
            }
            &&& x == InputEvent::PianoRollSetTime ==> p1 == p && snap == snapshot && st1 == StateModel {
                piano_roll_mode: PianoRollMode::Time,
                ..st
            }
            &&& x == InputEvent::PianoRollSetView ==> p1 == p && snap == snapshot && st1 == StateModel {
                piano_roll_mode: PianoRollMode::View,
                ..st
            }
        }),
{
    lemma_only_event(x);
    assert(!spec_select_track(st, seq![x], InputEvent::PianoRollPreviousTrack, InputEvent::PianoRollNextTrack).1);
    crate::index::lemma_step_cycles(st.input.volume.index, st.input.volume.length);
}

/// The piano roll hands a frame whose only event is not one of its own to the sub-panel of its
/// current mode (edit, select, time or view): the new state is the sub-panel's, the snapshot is
/// made exactly when the sub-panel makes one, and the piano roll itself does not change.
pub proof fn lemma_sub_panel_routing(p: PianoRollModel, st: StateModel, synth: Map<u8, Program>, x: InputEvent)
    requires
        st.music.selected is Some,
        !(x == InputEvent::StatusTTS || x == InputEvent::InputTTS || x == InputEvent::CopyNotes
            || x == InputEvent::CutNotes || x == InputEvent::DeleteNotes || x == InputEvent::PasteNotes
            || x == InputEvent::Arm || x == InputEvent::PianoRollToggleTracks || x == InputEvent::InputBeatLeft
            || x == InputEvent::InputBeatRight || x == InputEvent::ToggleInputVolume
            || x == InputEvent::DecreaseInputVolume || x == InputEvent::IncreaseInputVolume
            || x == InputEvent::PianoRollSetEdit || x == InputEvent::PianoRollSetSelect
            || x == InputEvent::PianoRollSetTime || x == InputEvent::PianoRollSetView
            || x == InputEvent::PianoRollPreviousTrack || x == InputEvent::PianoRollNextTrack),
    ensures
        ({
            let e = seq![x];
            let (p1, st1, snap) = spec_piano_roll_update(p, st, synth, e, Seq::empty());
            let (st2, made) = match st.piano_roll_mode {
                PianoRollMode::Edit => spec_edit_update(p.edit.deltas, st, e),
                PianoRollMode::Select => spec_select_update(st, e),
                PianoRollMode::Time => spec_time_update(p.time.deltas, st, e),
                PianoRollMode::View => spec_view_update(p.view.deltas, p.view.dt_0, st, e),
            };
            &&& p1 == p
            &&& st1 == st2
            &&& snap == (if made {
                Some(
                    SnapshotModel {
                        from_state: Some(st),
                        to_state: Some(st2),
                        from_commands: None,
                        to_commands: None,
                        io_commands: None,
                    },
                )
            } else {
                None
            })
        }),
{
    lemma_only_event(x);
    assert(!spec_select_track(st, seq![x], InputEvent::PianoRollPreviousTrack, InputEvent::PianoRollNextTrack).1);
}

/// Cycling the mode of a sub-panel, for a frame whose only event is the cycle, with a track
/// selected: in edit, time and view mode the edit mode of that sub-panel moves to the next one,
/// cycling, and nothing else changes; a snapshot is made.
pub proof fn lemma_cycle_sub_panel_mode(p: PianoRollModel, st: StateModel, synth: Map<u8, Program>)
    requires
        st.music.selected is Some,
        st.edit_mode.index < st.edit_mode.length,
        st.time.mode.index < st.time.mode.length,
        st.view.mode.index < st.view.mode.length,
    ensures
        ({
            let (p1, st1, snap) = spec_piano_roll_update(p, st, synth, seq![InputEvent::PianoRollCycleMode], Seq::empty());
            let next = |i: Index| Index { index: ((i.index + 1) % (i.length as int)) as usize, ..i };
            &&& p1 == p
            &&& snap is Some
            &&& st.piano_roll_mode == PianoRollMode::Edit ==> st1 == StateModel { edit_mode: next(st.edit_mode), ..st }
            &&& st.piano_roll_mode == PianoRollMode::Time ==> st1 == StateModel {
                time: TimeState { mode: next(st.time.mode), ..st.time },
                ..st
            }
            &&& st.piano_roll_mode == PianoRollMode::View ==> st1 == StateModel {
                view: ViewState { mode: next(st.view.mode), ..st.view },
                ..st
            }
        }),
{
    lemma_only_event(InputEvent::PianoRollCycleMode);
    assert(!spec_select_track(
        st,
        seq![InputEvent::PianoRollCycleMode],
        InputEvent::PianoRollPreviousTrack,
        InputEvent::PianoRollNextTrack,
    ).1);
    crate::index::lemma_step_cycles(st.edit_mode.index, st.edit_mode.length);
    crate::index::lemma_step_cycles(st.time.mode.index, st.time.mode.length);
    crate::index::lemma_step_cycles(st.view.mode.index, st.view.mode.length);
}

/// Keeping the unselected items of nothing selected keeps every item.
proof fn lemma_keep_none<T>(s: Seq<T>, sel: Seq<usize>)
    requires
        sel.len() == 0,
    ensures
        spec_keep_unselected(s, sel) =~= s,
    decreases s.len(),
{
    if s.len() > 0 {
        lemma_keep_none(s.drop_last(), sel);
        assert(!sel.contains((s.len() - 1) as usize));
    }
}

/// What the piano roll needs so that no arithmetic leaves its range and no sub-panel panics.
pub open spec fn spec_piano_roll_fits(p: PianoRollModel, st: StateModel, e: Seq<InputEvent>, ns: Seq<NoteOn>) -> bool {
    let a = spec_piano_roll_action(st, e, ns.len() > 0);
    &&& a == PianoRollAction::AddNotes ==> st.time.cursor + st.input.beat <= u64::MAX
    &&& a == PianoRollAction::Paste ==> spec_paste_fits(p.copy_buffer, st.time.cursor)
    &&& a == PianoRollAction::SubPanel ==> match st.piano_roll_mode {
        PianoRollMode::Edit => spec_edit_fits(p.edit.deltas, st, e),
        PianoRollMode::Select => spec_select_fits(st, e),
        PianoRollMode::Time => spec_time_fits(p.time.deltas, st, e),
        PianoRollMode::View => view_wf(st.view) && spec_view_fits(p.view.deltas, p.view.dt_0, st, e),
    }
}

/// A played note is a MIDI note.
pub open spec fn note_on_wf(n: NoteOn) -> bool {
    n.note <= crate::model::MAX_NOTE && n.velocity <= crate::model::MAX_VOLUME
}

/// The state with the selected track replaced by a track of valid notes is valid.
pub proof fn lemma_with_track_wf(st: StateModel, track: TrackModel)
    requires
        st.wf(),
        st.music.selected is Some,
        forall|i: int| 0 <= i < track.notes.len() ==> #[trigger] note_wf(track.notes[i]),
    ensures
        spec_with_track(st, track).wf(),
{
    let st1 = spec_with_track(st, track);
    let sel = st.music.selected.unwrap() as int;
    assert forall|t: int, i: int|
        0 <= t < st1.music.tracks.len() && 0 <= i < st1.music.tracks[t].notes.len() implies #[trigger] note_wf(
        st1.music.tracks[t].notes[i],
    ) by {
        if t != sel {
            assert(st1.music.tracks[t] == st.music.tracks[t]);
            assert(note_wf(st.music.tracks[t].notes[i]));
        }
    }
}

/// The notes of the selected track of a valid state are valid.
pub proof fn lemma_track_notes_wf(st: StateModel)
    requires
        st.wf(),
        st.music.selected is Some,
    ensures
        forall|i: int| 0 <= i < spec_track(st).notes.len() ==> #[trigger] note_wf(spec_track(st).notes[i]),
{
    let t = st.music.selected.unwrap() as int;
    assert forall|i: int| 0 <= i < spec_track(st).notes.len() implies #[trigger] note_wf(spec_track(st).notes[i]) by {
        assert(note_wf(st.music.tracks[t].notes[i]));
    }
}

/// The piano roll keeps the state valid, when the played notes are MIDI notes: it only ever
/// adds valid notes, keeps a subset of them, or edits them as they allow.
pub proof fn lemma_piano_roll_keeps_wf(
    p: PianoRollModel,
    st: StateModel,
    synth: Map<u8, Program>,
    e: Seq<InputEvent>,
    ns: Seq<NoteOn>,
)
    requires
        p.wf(),
        st.wf(),
        spec_piano_roll_fits(p, st, e, ns),
        forall|i: int| 0 <= i < ns.len() ==> #[trigger] note_on_wf(ns[i]),
    ensures
        spec_piano_roll_update(p, st, synth, e, ns).1.wf(),
        spec_piano_roll_update(p, st, synth, e, ns).0.wf(),
{
    let a = spec_piano_roll_action(st, e, ns.len() > 0);
    if st.music.selected is Some {
        lemma_track_notes_wf(st);
    }
    match a {
        PianoRollAction::AddNotes => {
            let track = spec_track(st);
            let added = spec_new_notes(ns, st.time.cursor, st.input.beat);
            let notes = track.notes + added;
            assert forall|i: int| 0 <= i < notes.len() implies #[trigger] note_wf(notes[i]) by {
                if i >= track.notes.len() {
                    assert(note_on_wf(ns[i - track.notes.len()]));
                }
            }
            lemma_with_track_wf(st, TrackModel { notes, ..track });
        },
        PianoRollAction::Cut | PianoRollAction::Delete => {
            let track = spec_track(st);
            crate::piano_roll::copy::lemma_keep_unselected_valid(track.notes, st.selection.notes);
            let notes = if st.selection.notes.len() > 0 {
                spec_keep_unselected(track.notes, st.selection.notes)
            } else {
                track.notes
            };
            let effects = if st.selection.effects.len() > 0 {
                spec_keep_unselected(track.effects, st.selection.effects)
            } else {
                track.effects
            };
            lemma_with_track_wf(st, TrackModel { notes, effects, ..track });
            if a == PianoRollAction::Cut {
                crate::piano_roll::copy::lemma_pick_valid(track.notes, st.selection.notes);
                let b = spec_copied(track, st.selection);
                let np = crate::piano_roll::copy::spec_pick(track.notes, st.selection.notes);
                assert forall|i: int| 0 <= i < b.len() implies #[trigger] copied_wf(b[i]) by {
                    if i < np.len() {
                        assert(note_wf(np[i]));
                    }
                }
            }
        },
        PianoRollAction::Copy => {
            let track = spec_track(st);
            crate::piano_roll::copy::lemma_pick_valid(track.notes, st.selection.notes);
            let b = spec_copied(track, st.selection);
            let np = crate::piano_roll::copy::spec_pick(track.notes, st.selection.notes);
            assert forall|i: int| 0 <= i < b.len() implies #[trigger] copied_wf(b[i]) by {
                if i < np.len() {
                    assert(note_wf(np[i]));
                }
            }
        },
        PianoRollAction::Paste => {
            if p.copy_buffer.len() > 0 {
                let b = p.copy_buffer;
                let min = spec_min_start(b);
                let c = st.time.cursor;
                assert forall|i: int| 0 <= i < b.len() implies match #[trigger] b[i] {
                    CopiedEvent::Note(n) => note_wf(n) && min <= n.start && n.end - min + c <= u64::MAX,
                    CopiedEvent::Effect(_) => true,
                } by {
                    assert(copied_wf(b[i]));
                    crate::piano_roll::copy::lemma_min_start_le(b, i);
                }
                crate::piano_roll::copy::lemma_paste_notes_valid(b, min, c);
                let track = spec_track(st);
                let notes = track.notes + spec_paste_notes(b, min, c);
                assert forall|i: int| 0 <= i < notes.len() implies #[trigger] note_wf(notes[i]) by {
                    if i >= track.notes.len() {
                        assert(note_wf(spec_paste_notes(b, min, c)[i - track.notes.len()]));
                    }
                }
                lemma_with_track_wf(
                    st,
                    TrackModel { notes, effects: track.effects + spec_paste_effects(b, c), ..track },
                );
            }
        },
        PianoRollAction::SubPanel => {
            match st.piano_roll_mode {
                PianoRollMode::Edit => crate::piano_roll::edit::lemma_edit_keeps_wf(p.edit.deltas, st, e),
                PianoRollMode::Select => crate::piano_roll::select::lemma_select_keeps_wf(st, e),
                PianoRollMode::Time => crate::piano_roll::time::lemma_time_keeps_wf(p.time.deltas, st, e),
                PianoRollMode::View => crate::piano_roll::view::lemma_view_keeps_wf(p.view.deltas, p.view.dt_0, st, e),
            }
        },
        _ => {},
    }
}

/// The notes played at the cursor.
fn new_notes(ns: &Vec<NoteOn>, cursor: u64, beat: u64) -> (r: Vec<Note>)
    requires
        cursor + beat <= u64::MAX,
    ensures
        r@ == spec_new_notes(ns@, cursor, beat),
{
    let mut r: Vec<Note> = Vec::new();
    let n = ns.len();
    for i in 0..n
        invariant
            n == ns.len(),
            cursor + beat <= u64::MAX,
            r.len() == i,
            forall|j: int| 0 <= j < i ==> #[trigger] r@[j] == spec_new_note(ns@[j], cursor, beat),
    {
        let x = ns[i];
        r.push(Note { note: x.note, velocity: x.velocity, start: cursor, end: cursor + beat });
    }
    proof {
        assert(r@ =~= spec_new_notes(ns@, cursor, beat));
    }
    r
}

/// `a` followed by `b`.
fn concat_notes(a: &Vec<Note>, b: &Vec<Note>) -> (r: Vec<Note>)
    ensures
        r@ == a@ + b@,
{
    let mut r: Vec<Note> = Vec::new();
    let n = a.len();
    for i in 0..n
        invariant
            n == a.len(),
            r@ == a@.take(i as int),
    {
        r.push(a[i]);
        proof {
            assert(r@ =~= a@.take(i + 1));
        }
    }
    let m = b.len();
    for j in 0..m
        invariant
            n == a.len(),
            m == b.len(),
            r@ == a@ + b@.take(j as int),
    {
        r.push(b[j]);
        proof {
            assert(r@ =~= a@ + b@.take(j + 1));
        }
    }
    proof {
        assert(a@.take(n as int) =~= a@);
        assert(b@.take(m as int) =~= b@);
        assert(r@ =~= a@ + b@);
    }
    r
}

/// The piano roll: divided into modes, each of which is a sub-panel.
#[derive(Debug)]
pub struct PianoRollPanel {
    /// The edit mode.
    pub edit: Edit,
    /// The select mode.
    pub select: Select,
    /// The time mode.
    pub time: Time,
    /// The view mode.
    pub view: PianoRollView,
    /// The beats that can be the input beat, in PPQ.
    pub beats: Vec<u64>,
    /// The position of the current input beat.
    pub beat: Index,
    /// The copied notes and effects.
    pub copy_buffer: Vec<CopiedEvent>,
}

impl View for PianoRollPanel {
    type V = PianoRollModel;

    open spec fn view(&self) -> PianoRollModel {
        PianoRollModel {
            edit: self.edit,
            select: self.select,
            time: self.time,
            view: self.view,
            beats: self.beats@,
            beat: self.beat,
            copy_buffer: self.copy_buffer@,
        }
    }
}

impl PianoRollPanel {
    /// A piano roll whose modes share the edit deltas, with the given beats and input beat. If
    /// the input beat is not one of the beats, it is appended to them.
    ///
    /// - `beat` The current input beat in PPQ.
    /// - `beats` The beats from the config file, in PPQ.
    /// - `deltas` The edit mode deltas from the config file.
    /// - `dt_0` The default width of the viewport in PPQ.
    pub fn new(beat: u64, beats: Vec<u64>, deltas: EditModeDeltas, dt_0: u64) -> (r: PianoRollPanel)
        ensures
            r.edit == (Edit { deltas }),
            r.time == (Time { deltas }),
            r.view == (PianoRollView { deltas, dt_0 }),
            r.beats@ == (if beats@.contains(beat) { beats@ } else { beats@.push(beat) }),
            r.beat.length == r.beats@.len(),
            r.beat.index < r.beat.length,
            r.beats@[r.beat.index as int] == beat,
            forall|j: int| 0 <= j < r.beat.index ==> r.beats@[j] != beat,
            r.copy_buffer@.len() == 0,
            r@.wf(),
    {
        let mut beats = beats;
        let n = beats.len();
        let mut position: Option<usize> = None;
        for i in 0..n
            invariant
                n == beats.len(),
                position is None ==> forall|j: int| 0 <= j < i ==> beats@[j] != beat,
                position matches Some(k) ==> k < n && beats@[k as int] == beat && forall|j: int|
                    0 <= j < k ==> beats@[j] != beat,
        {
            if position.is_none() && beats[i] == beat {
                position = Some(i);
            }
        }
        let ghost b0 = beats@;
        let index = match position {
            Some(k) => k,
            None => {
                beats.push(beat);
                n
            },
        };
        proof {
            if position is None {
                assert(!b0.contains(beat));
            } else {
                assert(b0.contains(beat));
            }
        }
        let beat_index = Index::new(index, beats.len());
        PianoRollPanel {
            edit: Edit::new(deltas),
            select: Select::new(),
            time: Time::new(deltas),
            view: PianoRollView::new(deltas, dt_0),
            beats,
            beat: beat_index,
            copy_buffer: Vec::new(),
        }
    }

    /// Step the input beat to the previous or next beat.
    fn set_input_beat(&mut self, up: bool, state: &mut State) -> (r: Snapshot)
        requires
            old(self)@.wf(),
        ensures
            final(self)@ == (PianoRollModel {
                beat: Index { index: spec_step(old(self).beat.index, old(self).beat.length, up), ..old(self).beat },
                ..old(self)@
            }),
            final(state)@ == spec_with_input(
                old(state)@,
                InputState { beat: old(self).beats@[spec_step(old(self).beat.index, old(self).beat.length, up) as int], ..old(state).input },
            ),
            r@ == spec_snap_states(old(state)@, final(state)@),
    {
        let s0 = state.duplicate();
        self.beat.increment(up);
        state.input.beat = self.beats[self.beat.get()];
        let ghost st1 = state@;
        proof {
            assert(st1 =~= spec_with_input(
                s0@,
                InputState { beat: old(self).beats@[spec_step(old(self).beat.index, old(self).beat.length, up) as int], ..s0@.input },
            ));
        }
        Snapshot::from_states(s0, state)
    }

    /// Set the piano roll mode.
    fn set_mode(mode: PianoRollMode, state: &mut State) -> (r: Snapshot)
        ensures
            final(state)@ == (StateModel { piano_roll_mode: mode, ..old(state)@ }),
            r@ == spec_snap_states(old(state)@, final(state)@),
    {
        let s0 = state.duplicate();
        state.piano_roll_mode = mode;
        proof {
            assert(state@ =~= StateModel { piano_roll_mode: mode, ..s0@ });
        }
        Snapshot::from_states(s0, state)
    }

    /// Copy the selection of the selected track to the copy buffer.
    fn copy(&mut self, state: &State)
        requires
            old(self)@.wf(),
            state@.wf(),
        ensures
            state.music.selected is None ==> final(self)@ == old(self)@,
            state.music.selected is Some ==> final(self)@ == (PianoRollModel {
                copy_buffer: spec_copied(spec_track(state@), state@.selection),
                ..old(self)@
            }),
            final(self)@.wf(),
    {
        if let Some(t) = state.music.selected {
            proof {
                assert(spec_track(state@) == state.music.midi_tracks@[t as int]@);
            }
            let track = &state.music.midi_tracks[t];
            self.copy_buffer = copied_events(
                &track.notes,
                &track.effects,
                &state.selection.notes,
                &state.selection.effects,
            );
            proof {
                let notes = spec_track(state@).notes;
                let sel = state@.selection;
                crate::piano_roll::copy::lemma_pick_valid(notes, sel.notes);
                let b = self.copy_buffer@;
                let np = crate::piano_roll::copy::spec_pick(notes, sel.notes);
                assert forall|i: int| 0 <= i < b.len() implies #[trigger] copied_wf(b[i]) by {
                    if i < np.len() {
                        assert(note_wf(np[i]));
                    }
                }
                assert(self@ =~= PianoRollModel { copy_buffer: spec_copied(spec_track(state@), state@.selection), ..old(self)@ });
            }
        }
    }

    /// Delete the selected notes and effects from the selected track.
    fn delete(state: &mut State) -> (r: Option<Snapshot>)
        requires
            old(state)@.wf(),
        ensures
            old(state).music.selected is None ==> final(state)@ == old(state)@ && r is None,
            old(state).music.selected is Some ==> final(state)@ == spec_deleted(old(state)@),
            old(state).music.selected is Some ==> (r matches Some(s) && s@ == spec_snap_states(old(state)@, final(state)@)),
    {
        let t = match state.music.selected {
            None => return None,
            Some(t) => t,
        };
        let ghost st0 = state@;
        let s0 = state.duplicate();
        proof {
            assert(st0.music.tracks[t as int] == state.music.midi_tracks@[t as int]@);
        }
        let mut deleted = false;
        if state.selection.notes.len() > 0 {
            let notes = keep_unselected_notes(&state.music.midi_tracks[t].notes, &state.selection.notes);
            state.music.set_track_notes(t, notes);
            deleted = true;
        }
        proof {
            assert(state@.music.tracks.len() == st0.music.tracks.len());
            assert(tracks_view(state.music.midi_tracks@).len() == state.music.midi_tracks@.len());
            assert(state@.music.tracks[t as int] == state.music.midi_tracks@[t as int]@);
        }
        if state.selection.effects.len() > 0 {
            let effects = keep_unselected_effects(&state.music.midi_tracks[t].effects, &state.selection.effects);
            state.music.set_track_effects(t, effects);
            deleted = true;
        }
        if deleted {
            state.selection.deselect();
        }
        proof {
            assert(state@.music.tracks =~= spec_deleted(st0).music.tracks);
            assert(state@ =~= spec_deleted(st0));
        }
        Some(Snapshot::from_states(s0, state))
    }
}


/// Does the input select the previous or next track?
fn select_track_fires(state: &State, input: &Input, prev: InputEvent, next: InputEvent) -> (r: bool)
    requires
        state@.wf(),
    ensures
        r == spec_select_track(state@, input.events@, prev, next).1,
{
    match state.music.selected {
        None => false,
        Some(s) => {
            if input.happened(prev) && s > 0 {
                true
            } else {
                input.happened(next) && s < state.music.midi_tracks.len() - 1
            }
        },
    }
}

/// The action for a frame of input.
fn piano_roll_action(state: &State, input: &Input) -> (r: PianoRollAction)
    requires
        state@.wf(),
    ensures
        r == spec_piano_roll_action(state@, input.events@, input.new_notes@.len() > 0),
{
    if !state.view.single_track && select_track_fires(
        state,
        input,
        InputEvent::PianoRollPreviousTrack,
        InputEvent::PianoRollNextTrack,
    ) {
        PianoRollAction::SelectTrack
    } else if state.music.selected.is_none() {
        PianoRollAction::Nothing
    } else if state.input.armed && input.new_notes.len() > 0 {
        PianoRollAction::AddNotes
    } else if input.happened(InputEvent::StatusTTS) || input.happened(InputEvent::InputTTS) {
        PianoRollAction::Speak
    } else if input.happened(InputEvent::CopyNotes) {
        PianoRollAction::Copy
    } else if input.happened(InputEvent::CutNotes) {
        PianoRollAction::Cut
    } else if input.happened(InputEvent::DeleteNotes) {
        PianoRollAction::Delete
    } else if input.happened(InputEvent::PasteNotes) {
        PianoRollAction::Paste
    } else if input.happened(InputEvent::Arm) {
        PianoRollAction::Arm
    } else if input.happened(InputEvent::PianoRollToggleTracks) {
        PianoRollAction::ToggleTracks
    } else if input.happened(InputEvent::InputBeatLeft) {
        PianoRollAction::BeatLeft
    } else if input.happened(InputEvent::InputBeatRight) {
        PianoRollAction::BeatRight
    } else if input.happened(InputEvent::ToggleInputVolume) {
        PianoRollAction::ToggleVolume
    } else if input.happened(InputEvent::DecreaseInputVolume) {
        PianoRollAction::VolumeDown
    } else if input.happened(InputEvent::IncreaseInputVolume) {
        PianoRollAction::VolumeUp
    } else if input.happened(InputEvent::PianoRollSetEdit) {
        PianoRollAction::SetMode(PianoRollMode::Edit)
    } else if input.happened(InputEvent::PianoRollSetSelect) {
        PianoRollAction::SetMode(PianoRollMode::Select)
    } else if input.happened(InputEvent::PianoRollSetTime) {
        PianoRollAction::SetMode(PianoRollMode::Time)
    } else if input.happened(InputEvent::PianoRollSetView) {
        PianoRollAction::SetMode(PianoRollMode::View)
    } else {
        PianoRollAction::SubPanel
    }
}

/// Replace the input settings.
fn set_input(state: &mut State, i: InputState) -> (r: Snapshot)
    ensures
        final(state)@ == spec_with_input(old(state)@, i),
        r@ == spec_snap_states(old(state)@, final(state)@),
{
    let s0 = state.duplicate();
    state.input = i;
    proof {
        assert(state@ =~= spec_with_input(s0@, i));
    }
    Snapshot::from_states(s0, state)
}

/// Show one track or all of them.
fn toggle_tracks(state: &mut State) -> (r: Snapshot)
    ensures
        final(state)@ == (StateModel {
            view: ViewState { single_track: !old(state).view.single_track, ..old(state).view },
            ..old(state)@
        }),
        r@ == spec_snap_states(old(state)@, final(state)@),
{
    let s0 = state.duplicate();
    state.view.single_track = !state.view.single_track;
    proof {
        assert(state@ =~= StateModel {
            view: ViewState { single_track: !s0@.view.single_track, ..s0@.view },
            ..s0@
        });
    }
    Snapshot::from_states(s0, state)
}

/// Add the played notes at the cursor of the selected track, if its channel has a program, and
/// move the cursor one beat on.
fn add_notes(state: &mut State, synth: &SynthState, input: &Input) -> (r: Option<Snapshot>)
    requires
        old(state)@.wf(),
        old(state).music.selected is Some,
        old(state).time.cursor + old(state).input.beat <= u64::MAX,
    ensures
        synth.programs@.contains_key(spec_track(old(state)@).channel) ==> final(state)@ == spec_notes_added(
            old(state)@,
            input.new_notes@,
        ) && opt_snapshot_view(r) == Some(spec_snap_states(old(state)@, final(state)@)),
        !synth.programs@.contains_key(spec_track(old(state)@).channel) ==> final(state)@ == old(state)@
            && r is None,
{
    let ghost st0 = state@;
    let t = state.music.selected.unwrap();
    proof {
        assert(spec_track(st0) == state.music.midi_tracks@[t as int]@);
    }
    let channel = state.music.midi_tracks[t].channel;
    if !synth.programs.contains_key(&channel) {
        return None;
    }
    let s0 = state.duplicate();
    let added = new_notes(&input.new_notes, state.time.cursor, state.input.beat);
    let notes = concat_notes(&state.music.midi_tracks[t].notes, &added);
    state.music.set_track_notes(t, notes);
    state.time.cursor = state.time.cursor + state.input.beat;
    proof {
        assert(state@ =~= spec_notes_added(st0, input.new_notes@));
    }
    Some(Snapshot::from_states(s0, state))
}

impl PianoRollPanel {
    /// Paste the copy buffer at the cursor into the selected track, if the buffer holds anything.
    fn paste(&self, state: &mut State) -> (r: Option<Snapshot>)
        requires
            old(state)@.wf(),
            old(state).music.selected is Some,
            spec_paste_fits(self.copy_buffer@, old(state).time.cursor),
        ensures
            self.copy_buffer@.len() == 0 ==> final(state)@ == old(state)@ && r is None,
            self.copy_buffer@.len() > 0 ==> final(state)@ == spec_pasted(old(state)@, self.copy_buffer@)
                && opt_snapshot_view(r) == Some(spec_snap_states(old(state)@, final(state)@)),
    {
        if self.copy_buffer.len() == 0 {
            return None;
        }
        let ghost st0 = state@;
        let t = state.music.selected.unwrap();
        proof {
            assert(spec_track(st0) == state.music.midi_tracks@[t as int]@);
        }
        let s0 = state.duplicate();
        let mut notes = state.music.midi_tracks[t].notes.clone();
        let mut effects = state.music.midi_tracks[t].effects.clone();
        proof {
            assert(notes@ =~= spec_track(st0).notes);
            assert(effects@ =~= spec_track(st0).effects);
        }
        paste(&self.copy_buffer, state.time.cursor, &mut notes, &mut effects);
        state.music.set_track_notes(t, notes);
        state.music.set_track_effects(t, effects);
        proof {
            assert(state@.music.tracks =~= spec_pasted(st0, self.copy_buffer@).music.tracks);
            assert(state@ =~= spec_pasted(st0, self.copy_buffer@));
        }
        Some(Snapshot::from_states(s0, state))
    }

    /// Hand the input to the sub-panel of the current mode.
    fn sub_panel_update(&self, state: &mut State, input: &Input) -> (r: Option<Snapshot>)
        requires
            self@.wf(),
            old(state)@.wf(),
            spec_piano_roll_fits(self@, old(state)@, input.events@, input.new_notes@),
            spec_piano_roll_action(old(state)@, input.events@, input.new_notes@.len() > 0)
                == PianoRollAction::SubPanel,
        ensures
            (final(state)@, opt_snapshot_view(r)) == spec_sub_panel_update(self@, old(state)@, input.events@),
    {
        match state.piano_roll_mode {
            PianoRollMode::Edit => self.edit.update(state, input),
            PianoRollMode::Select => self.select.update(state, input),
            PianoRollMode::Time => self.time.update(state, input),
            PianoRollMode::View => self.view.update(state, input),
        }
    }

    /// What is said when the selected track has no program.
    pub fn tts_no_track() -> (r: Vec<Utterance>)
        ensures
            speech_view(r@) == spec_no_track(),
    {
        let mut r = silence();
        add_phrase(&mut r, text("PIANO_ROLL_PANEL_TTS_NO_TRACK"));
        proof {
            assert(speech_view(r@) =~= spec_no_track());
        }
        r
    }

    /// The status of the sub-panel of the current mode.
    fn sub_panel_status(&self, state: &State) -> (r: Vec<Utterance>)
        requires
            state@.wf(),
        ensures
            speech_view(r@) == spec_sub_panel_status(state@),
    {
        match state.piano_roll_mode {
            PianoRollMode::Edit => self.edit.get_status_tts(state),
            PianoRollMode::Select => self.select.get_status_tts(state),
            PianoRollMode::Time => self.time.get_status_tts(state),
            PianoRollMode::View => self.view.get_status_tts(state),
        }
    }

    /// The input of the sub-panel of the current mode.
    fn sub_panel_input(&self, state: &State) -> (r: Vec<Utterance>)
        requires
            state@.wf(),
        ensures
            speech_view(r@) == spec_sub_panel_input(state@),
    {
        match state.piano_roll_mode {
            PianoRollMode::Edit => self.edit.get_input_tts(state),
            PianoRollMode::Select => self.select.get_input_tts(state),
            PianoRollMode::Time => self.time.get_input_tts(),
            PianoRollMode::View => self.view.get_input_tts(state),
        }
    }

    /// The status of the piano roll.
    fn status_tts(&self, state: &State) -> (r: Vec<Utterance>)
        requires
            state@.wf(),
            state.music.selected is Some,
        ensures
            speech_view(r@) == spec_piano_roll_status(state@),
    {
        let mut r = silence();
        add_phrase(&mut r, text1("PIANO_ROLL_PANEL_STATUS_TTS_PIANO_ROLL_MODE", Value::Mode(state.piano_roll_mode)));
        let i = &state.input;
        if i.armed {
            let v = if i.use_volume {
                Value::Int(i.volume.get() as u64)
            } else {
                Value::KeyWithInt(String::from_str("PIANO_ROLL_PANEL_STATUS_TTS_VOLUME"), i.volume.get() as u64)
            };
            let ghost vv = v@;
            let mut values: Vec<Value> = Vec::new();
            values.push(Value::Ppq(i.beat));
            values.push(v);
            proof {
                assert(values_view(values@) =~= seq![ValueModel::Ppq(i.beat), vv]);
            }
            add_phrase(&mut r, text_with("PIANO_ROLL_PANEL_STATUS_TTS_ARMED", values));
        } else {
            add_phrase(&mut r, text("PIANO_ROLL_PANEL_STATUS_TTS_NOT_ARMED"));
        }
        let selected = match state.music.selected {
            Some(s) => s,
            None => 0,
        };
        if state.view.single_track {
            add_phrase(&mut r, text1("PIANO_ROLL_PANEL_STATUS_TTS_SINGLE_TRACK", Value::Int(selected as u64)));
        } else {
            add_phrase(&mut r, text1("PIANO_ROLL_PANEL_STATUS_TTS_MULTI_TRACK", Value::Int(selected as u64)));
        }
        let ghost r0 = speech_view(r@);
        add_all(&mut r, self.sub_panel_status(state));
        proof {
            assert(speech_view(r@) =~= spec_piano_roll_status(state@));
        }
        r
    }

    /// The input of the piano roll.
    fn input_tts(&self, state: &State) -> (r: Vec<Utterance>)
        requires
            state@.wf(),
        ensures
            speech_view(r@) == spec_piano_roll_input(self@, state@),
    {
        let mut r = silence();
        add_phrase(&mut r, tip("PIANO_ROLL_PANEL_INPUT_TTS_PLAY", ev1(InputEvent::PlayStop)));
        let i = &state.input;
        if i.armed {
            add_phrase(
                &mut r,
                tip("PIANO_ROLL_PANEL_INPUT_TTS_ARMED", ev3(InputEvent::Arm, InputEvent::InputBeatLeft, InputEvent::InputBeatRight)),
            );
            if i.use_volume {
                add_phrase(
                    &mut r,
                    tip(
                        "PIANO_ROLL_PANEL_INPUT_TTS_DO_NOT_USE_VOLUME",
                        ev3(InputEvent::DecreaseInputVolume, InputEvent::IncreaseInputVolume, InputEvent::ToggleInputVolume),
                    ),
                );
            } else {
                add_phrase(&mut r, tip("PIANO_ROLL_PANEL_INPUT_TTS_USE_VOLUME", ev1(InputEvent::ToggleInputVolume)));
            }
        } else {
            add_phrase(&mut r, tip("PIANO_ROLL_PANEL_INPUT_TTS_NOT_ARMED", ev1(InputEvent::Arm)));
        }
        let mut notes = ev4(InputEvent::C, InputEvent::CSharp, InputEvent::D, InputEvent::DSharp);
        notes.push(InputEvent::E);
        notes.push(InputEvent::F);
        notes.push(InputEvent::FSharp);
        notes.push(InputEvent::G);
        notes.push(InputEvent::GSharp);
        notes.push(InputEvent::A);
        notes.push(InputEvent::ASharp);
        notes.push(InputEvent::B);
        notes.push(InputEvent::OctaveUp);
        notes.push(InputEvent::OctaveDown);
        proof {
            assert(notes@ =~= spec_note_events());
        }
        add_phrase(&mut r, tip("PIANO_ROLL_PANEL_INPUT_TTS_NOTES", notes));
        let single = state.view.single_track;
        if single {
            add_phrase(&mut r, tip("PIANO_ROLL_PANEL_INPUT_TTS_MULTI_TRACK", ev1(InputEvent::PianoRollToggleTracks)));
        } else {
            add_phrase(&mut r, tip("PIANO_ROLL_PANEL_INPUT_TTS_SINGLE_TRACK", ev1(InputEvent::PianoRollToggleTracks)));
            add_phrase(
                &mut r,
                tip(
                    "PIANO_ROLL_PANEL_INPUT_TTS_TRACK_SCROLL",
                    ev2(InputEvent::PianoRollPreviousTrack, InputEvent::PianoRollNextTrack),
                ),
            );
        }
        add_phrase(
            &mut r,
            tip(
                "PIANO_ROLL_PANEL_INPUT_TTS_MODES",
                ev4(InputEvent::PianoRollSetTime, InputEvent::PianoRollSetView, InputEvent::PianoRollSetSelect, InputEvent::PianoRollSetEdit),
            ),
        );
        add_phrase(&mut r, tip("PIANO_ROLL_PANEL_INPUT_TTS_COPY_CUT", ev2(InputEvent::CopyNotes, InputEvent::CutNotes)));
        if self.copy_buffer.len() > 0 {
            add_phrase(&mut r, tip("PIANO_ROLL_PANEL_INPUT_TTS_PASTE", ev1(InputEvent::PasteNotes)));
        }
        add_phrase(&mut r, tip("PIANO_ROLL_PANEL_INPUT_TTS_DELETE", ev1(InputEvent::DeleteNotes)));
        add_all(&mut r, self.sub_panel_input(state));
        proof {
            assert(speech_view(r@) =~= spec_piano_roll_input(self@, state@));
        }
        r
    }

    /// What the piano roll says in a frame of input.
    pub fn speech(&self, state: &State, synth: &SynthState, input: &Input) -> (r: Vec<Utterance>)
        requires
            state@.wf(),
        ensures
            speech_view(r@) == spec_piano_roll_speech(
                self@,
                state@,
                synth.programs@,
                input.events@,
                input.new_notes@,
            ),
    {
        if piano_roll_action(state, input) != PianoRollAction::Speak {
            return silence();
        }
        let channel = state.music.midi_tracks[state.music.selected.unwrap()].channel;
        if !synth.programs.contains_key(&channel) {
            return PianoRollPanel::tts_no_track();
        }
        if input.happened(InputEvent::StatusTTS) {
            self.status_tts(state)
        } else {
            self.input_tts(state)
        }
    }

    /// Apply a frame of input: select a track, add the played notes at the cursor, copy, cut,
    /// delete or paste notes and effects, arm, toggle the track view, set the input beat or
    /// volume, set the mode, or hand the input to the sub-panel of the current mode. What the
    /// piano roll says comes from `speech`.
    pub fn update(&mut self, state: &mut State, synth: &SynthState, input: &Input) -> (r: Option<Snapshot>)
        requires
            old(self)@.wf(),
            old(state)@.wf(),
            spec_piano_roll_fits(old(self)@, old(state)@, input.events@, input.new_notes@),
        ensures
            (final(self)@, final(state)@, opt_snapshot_view(r)) == spec_piano_roll_update(
                old(self)@,
                old(state)@,
                synth.programs@,
                input.events@,
                input.new_notes@,
            ),
            final(self)@.wf(),
    {
        let a = piano_roll_action(state, input);
        match a {
            PianoRollAction::SelectTrack => select_track(
                state,
                input,
                InputEvent::PianoRollPreviousTrack,
                InputEvent::PianoRollNextTrack,
            ),
            PianoRollAction::Nothing | PianoRollAction::Speak => None,
            PianoRollAction::AddNotes => add_notes(state, synth, input),
            PianoRollAction::Copy => {
                self.copy(state);
                None
            },
            PianoRollAction::Cut => {
                self.copy(state);
                PianoRollPanel::delete(state)
            },
            PianoRollAction::Delete => PianoRollPanel::delete(state),
            PianoRollAction::Paste => self.paste(state),
            PianoRollAction::Arm => {
                let i = InputState { armed: !state.input.armed, ..state.input };
                Some(set_input(state, i))
            },
            PianoRollAction::ToggleTracks => Some(toggle_tracks(state)),
            PianoRollAction::BeatLeft => Some(self.set_input_beat(false, state)),
            PianoRollAction::BeatRight => Some(self.set_input_beat(true, state)),
            PianoRollAction::ToggleVolume => {
                let i = InputState { use_volume: !state.input.use_volume, ..state.input };
                Some(set_input(state, i))
            },
            PianoRollAction::VolumeDown | PianoRollAction::VolumeUp => {
                let mut volume = state.input.volume;
                volume.increment(a == PianoRollAction::VolumeUp);
                let i = InputState { volume, ..state.input };
                Some(set_input(state, i))
            },
            PianoRollAction::SetMode(m) => Some(PianoRollPanel::set_mode(m, state)),
            PianoRollAction::SubPanel => self.sub_panel_update(state, input),
        }
    }
}

} // verus!
