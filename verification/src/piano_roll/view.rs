use vstd::prelude::*;
use crate::piano_roll::sub_panel::{
    get_cycle_edit_mode_input_tts, get_edit_mode_status_tts, spec_cycle_edit_mode_input, spec_edit_mode_status,
};
use crate::speech::{
    add_phrase, ev1, ev2, ev4, silence, speech_view, spec_each, spec_tip, text_with, tip, values_view, PhraseModel,
    Utterance, Value, ValueModel,
};
use crate::index::spec_step_up;
use crate::input::{lemma_only_event, Input, InputEvent};
use crate::model::{
    edit_mode_at, spec_edit_mode, spec_track_end, NoteRange, State, StateModel, TimeRange, ViewState,
    MAX_NOTE, MIN_NOTE,
};
use crate::piano_roll::edit_mode_deltas::EditModeDeltas;
use crate::piano_roll::time::track_end;
use crate::snapshot::{Snapshot, SnapshotModel};

verus! {

/// What the view sub-panel does with a frame of input: the first of these events that happened.
/// Moving the view up or down needs the single-track view.
#[derive(Clone, Copy, Debug, PartialEq, Eq, Structural)]
pub enum ViewAction {
    CycleMode,
    Start,
    End,
    Left,
    Right,
    Up,
    Down,
    ZoomIn,
    ZoomOut,
    ZoomDefault,
    Nothing,
}

pub open spec fn spec_view_action(e: Seq<InputEvent>, single_track: bool) -> ViewAction {
    if e.contains(InputEvent::PianoRollCycleMode) {
        ViewAction::CycleMode
    } else if e.contains(InputEvent::ViewStart) {
        ViewAction::Start
    } else if e.contains(InputEvent::ViewEnd) {
        ViewAction::End
    } else if e.contains(InputEvent::ViewLeft) {
        ViewAction::Left
    } else if e.contains(InputEvent::ViewRight) {
        ViewAction::Right
    } else if single_track && e.contains(InputEvent::ViewUp) {
        ViewAction::Up
    } else if single_track && e.contains(InputEvent::ViewDown) {
        ViewAction::Down
    } else if e.contains(InputEvent::ViewZoomIn) {
        ViewAction::ZoomIn
    } else if e.contains(InputEvent::ViewZoomOut) {
        ViewAction::ZoomOut
    } else if e.contains(InputEvent::ViewZoomDefault) {
        ViewAction::ZoomDefault
    } else {
        ViewAction::Nothing
    }
}

pub fn view_action(input: &Input, single_track: bool) -> (r: ViewAction)
    ensures
        r == spec_view_action(input.events@, single_track),
{
    if input.happened(InputEvent::PianoRollCycleMode) {
        ViewAction::CycleMode
    } else if input.happened(InputEvent::ViewStart) {
        ViewAction::Start
    } else if input.happened(InputEvent::ViewEnd) {
        ViewAction::End
    } else if input.happened(InputEvent::ViewLeft) {
        ViewAction::Left
    } else if input.happened(InputEvent::ViewRight) {
        ViewAction::Right
    } else if single_track && input.happened(InputEvent::ViewUp) {
        ViewAction::Up
    } else if single_track && input.happened(InputEvent::ViewDown) {
        ViewAction::Down
    } else if input.happened(InputEvent::ViewZoomIn) {
        ViewAction::ZoomIn
    } else if input.happened(InputEvent::ViewZoomOut) {
        ViewAction::ZoomOut
    } else if input.happened(InputEvent::ViewZoomDefault) {
        ViewAction::ZoomDefault
    } else {
        ViewAction::Nothing
    }
}

/// The viewport is ordered and inside the note range.
pub open spec fn view_wf(v: ViewState) -> bool {
    &&& v.dt.start <= v.dt.end
    &&& MIN_NOTE <= v.dn.bottom <= v.dn.top <= MAX_NOTE
}

/// The time range moved left (snapping to zero, keeping its width) or right.
pub open spec fn spec_pan_time(r: TimeRange, dt: u64, add: bool) -> TimeRange {
    if add {
        TimeRange { start: (r.start + dt) as u64, end: (r.end + dt) as u64 }
    } else if r.start >= dt {
        TimeRange { start: (r.start - dt) as u64, end: (r.end - dt) as u64 }
    } else {
        TimeRange { start: 0, end: (r.end - r.start) as u64 }
    }
}

/// The note range moved up or down, snapping to the top or the bottom note and keeping its height.
pub open spec fn spec_pan_notes(r: NoteRange, dn: u8, up: bool) -> NoteRange {
    if up {
        if r.top + dn <= MAX_NOTE {
            NoteRange { top: (r.top + dn) as u8, bottom: (r.bottom + dn) as u8 }
        } else {
            NoteRange { top: MAX_NOTE, bottom: (MAX_NOTE - (r.top - r.bottom)) as u8 }
        }
    } else {
        if r.bottom - dn >= MIN_NOTE {
            NoteRange { top: (r.top - dn) as u8, bottom: (r.bottom - dn) as u8 }
        } else {
            NoteRange { top: (MIN_NOTE + (r.top - r.bottom)) as u8, bottom: MIN_NOTE }
        }
    }
}

/// The state with the viewport's time range replaced.
pub open spec fn spec_with_dt(st: StateModel, r: TimeRange) -> StateModel {
    StateModel { view: ViewState { dt: r, ..st.view }, ..st }
}

/// The state with the viewport's note range replaced.
pub open spec fn spec_with_dn(st: StateModel, r: NoteRange) -> StateModel {
    StateModel { view: ViewState { dn: r, ..st.view }, ..st }
}

/// What the view sub-panel does: the new state, and whether a snapshot is made.
/// Zooming in and out is not handled here and changes nothing.
pub open spec fn spec_view_update(d: EditModeDeltas, dt_0: u64, st: StateModel, e: Seq<InputEvent>) -> (StateModel, bool) {
    let v = st.view;
    let width = (v.dt.end - v.dt.start) as u64;
    let mode = spec_edit_mode(v.mode.index);
    if st.music.selected is None {
        (st, false)
    } else {
        match spec_view_action(e, v.single_track) {
            ViewAction::CycleMode => (
                StateModel { view: ViewState { mode: spec_step_up(v.mode), ..v }, ..st },
                true,
            ),
            ViewAction::Start => (spec_with_dt(st, TimeRange { start: 0, end: width }), true),
            ViewAction::End => match spec_track_end(st.music.tracks[st.music.selected.unwrap() as int].notes) {
                Some(max) => (spec_with_dt(st, TimeRange { start: max, end: (max + width) as u64 }), true),
                None => (spec_with_dt(st, TimeRange { start: width, end: (width * 2) as u64 }), true),
            },
            ViewAction::Left => (
                spec_with_dt(st, spec_pan_time(v.dt, d.spec_dt(mode, st.input.beat) as u64, false)),
                true,
            ),
            ViewAction::Right => (
                spec_with_dt(st, spec_pan_time(v.dt, d.spec_dt(mode, st.input.beat) as u64, true)),
                true,
            ),
            ViewAction::Up => (spec_with_dn(st, spec_pan_notes(v.dn, d.spec_dn(mode), true)), true),
            ViewAction::Down => (spec_with_dn(st, spec_pan_notes(v.dn, d.spec_dn(mode), false)), true),
            ViewAction::ZoomDefault => (
                spec_with_dt(st, TimeRange { start: v.dt.start, end: (v.dt.start + dt_0) as u64 }),
                true,
            ),
            _ => (st, false),
        }
    }
}

/// What the view sub-panel needs so that no arithmetic leaves its range.
pub open spec fn spec_view_fits(d: EditModeDeltas, dt_0: u64, st: StateModel, e: Seq<InputEvent>) -> bool {
    let v = st.view;
    let width = v.dt.end - v.dt.start;
    let mode = spec_edit_mode(v.mode.index);
    let a = spec_view_action(e, v.single_track);
    let dt = d.spec_dt(mode, st.input.beat);
    st.music.selected is Some ==> {
        &&& a == ViewAction::End ==> match spec_track_end(st.music.tracks[st.music.selected.unwrap() as int].notes) {
            Some(max) => max + width <= u64::MAX,
            None => width * 2 <= u64::MAX,
        }
        &&& (a == ViewAction::Left || a == ViewAction::Right) ==> dt <= u64::MAX
        &&& a == ViewAction::Right ==> v.dt.end + dt <= u64::MAX
        &&& a == ViewAction::ZoomDefault ==> v.dt.start + dt_0 <= u64::MAX
        &&& a == ViewAction::Up ==> v.dn.top + d.spec_dn(mode) <= u8::MAX
        &&& a == ViewAction::Down ==> v.dn.bottom >= d.spec_dn(mode)
    }
}

/// The view sub-panel keeps the state valid.
pub proof fn lemma_view_keeps_wf(d: EditModeDeltas, dt_0: u64, st: StateModel, e: Seq<InputEvent>)
    requires
        st.wf(),
    ensures
        spec_view_update(d, dt_0, st, e).0.wf(),
{
    let st1 = spec_view_update(d, dt_0, st, e).0;
    assert(st1.music == st.music);
}

/// The piano roll view sub-panel.
#[derive(Clone, Copy, Debug)]
pub struct PianoRollView {
    /// Deltas per edit mode.
    pub deltas: EditModeDeltas,
    /// The default width of the viewport in PPQ.
    pub dt_0: u64,
}

impl PianoRollView {
    pub fn new(deltas: EditModeDeltas, dt_0: u64) -> (r: PianoRollView)
        ensures
            r.deltas == deltas,
            r.dt_0 == dt_0,
    {
        PianoRollView { deltas, dt_0 }
    }

    /// Apply a frame of input: cycle the view edit mode, or move or resize the viewport.
    pub fn update(&self, state: &mut State, input: &Input) -> (r: Option<Snapshot>)
        requires
            old(state)@.wf(),
            view_wf(old(state).view),
            spec_view_fits(self.deltas, self.dt_0, old(state)@, input.events@),
        ensures
            final(state)@ == spec_view_update(self.deltas, self.dt_0, old(state)@, input.events@).0,
            r is Some == spec_view_update(self.deltas, self.dt_0, old(state)@, input.events@).1,
            r matches Some(s) ==> s@ == (SnapshotModel {
                from_state: Some(old(state)@),
                to_state: Some(final(state)@),
                from_commands: None,
                to_commands: None,
                io_commands: None,
            }),
    {
        let t = match state.music.selected {
            None => return None,
            Some(t) => t,
        };
        let a = view_action(input, state.view.single_track);
        if a == ViewAction::Nothing || a == ViewAction::ZoomIn || a == ViewAction::ZoomOut {
            return None;
        }
        let ghost st0 = state@;
        let s0 = state.duplicate();
        let width = state.view.dt.end - state.view.dt.start;
        let height = state.view.dn.top - state.view.dn.bottom;
        let mode = edit_mode_at(state.view.mode.get());
        match a {
            ViewAction::CycleMode => {
                state.view.mode.increment(true);
            },
            ViewAction::Start => {
                state.view.dt = TimeRange { start: 0, end: width };
            },
            ViewAction::End => {
                proof {
                    assert(st0.music.tracks[t as int] == state.music.midi_tracks@[t as int]@);
                }
                match track_end(&state.music.midi_tracks[t].notes) {
                    Some(max) => {
                        state.view.dt = TimeRange { start: max, end: max + width };
                    },
                    None => {
                        state.view.dt = TimeRange { start: width, end: width * 2 };
                    },
                }
            },
            ViewAction::Left => {
                let dt = self.deltas.get_dt(mode, state.input.beat);
                if state.view.dt.start >= dt {
                    state.view.dt = TimeRange {
                        start: state.view.dt.start - dt,
                        end: state.view.dt.end - dt,
                    };
                } else {
                    state.view.dt = TimeRange { start: 0, end: width };
                }
            },
            ViewAction::Right => {
                let dt = self.deltas.get_dt(mode, state.input.beat);
                state.view.dt = TimeRange {
                    start: state.view.dt.start + dt,
                    end: state.view.dt.end + dt,
                };
            },
            ViewAction::Up => {
                let dn = self.deltas.get_dn(mode);
                if state.view.dn.top + dn <= MAX_NOTE {
                    state.view.dn = NoteRange {
                        top: state.view.dn.top + dn,
                        bottom: state.view.dn.bottom + dn,
                    };
                } else {
                    state.view.dn = NoteRange { top: MAX_NOTE, bottom: MAX_NOTE - height };
                }
            },
            ViewAction::Down => {
                let dn = self.deltas.get_dn(mode);
                if state.view.dn.bottom - dn >= MIN_NOTE {
                    state.view.dn = NoteRange {
                        top: state.view.dn.top - dn,
                        bottom: state.view.dn.bottom - dn,
                    };
                } else {
                    state.view.dn = NoteRange { top: MIN_NOTE + height, bottom: MIN_NOTE };
                }
            },
            _ => {
                state.view.dt = TimeRange {
                    start: state.view.dt.start,
                    end: state.view.dt.start + self.dt_0,
                };
            },
        }
        proof {
            assert(state@ =~= spec_view_update(self.deltas, self.dt_0, st0, input.events@).0);
        }
        Some(Snapshot::from_states(s0, state))
    }
}

/// What moving the viewport does, for a frame whose only event is a move, with a track
/// selected and a valid viewport. Only the viewport's time or note range changes, and a snapshot
/// is made.
/// - To the start: the viewport starts at zero and keeps its width. To the end: it starts at the
///   end of the selected track's last note (or at its own width, with no notes) and keeps its
///   width.
/// - Left or right: the viewport moves earlier (snapping to zero) or later by the time step and
///   keeps its width.
/// - Up or down (single-track view): the note range moves up or down by the pitch step, snapping
///   to the highest or lowest note, and keeps its height.
/// - Default zoom: the viewport keeps its start and gets the default width.
pub proof fn lemma_view_moves(d: EditModeDeltas, dt_0: u64, st: StateModel, x: InputEvent)
    requires
        st.music.selected is Some,
        view_wf(st.view),
        spec_view_fits(d, dt_0, st, seq![x]),
    ensures
        ({
            let (st1, snap) = spec_view_update(d, dt_0, st, seq![x]);
            let v = st.view;
            let v1 = st1.view;
            let mode = spec_edit_mode(v.mode.index);
            let dt = d.spec_dt(mode, st.input.beat);
            let dn = d.spec_dn(mode);
            let pans_time = x == InputEvent::ViewStart || x == InputEvent::ViewEnd || x == InputEvent::ViewLeft
                || x == InputEvent::ViewRight;
            let pans_notes = v.single_track && (x == InputEvent::ViewUp || x == InputEvent::ViewDown);
            &&& pans_time || pans_notes || x == InputEvent::ViewZoomDefault ==> snap && st1 == StateModel {
                view: ViewState { dt: v1.dt, dn: v1.dn, ..v },
                ..st
            }
            &&& pans_time ==> v1.dn == v.dn && v1.dt.end - v1.dt.start == v.dt.end - v.dt.start
            &&& x == InputEvent::ViewStart ==> v1.dt.start == 0
            &&& x == InputEvent::ViewEnd ==> v1.dt.start == match spec_track_end(
                st.music.tracks[st.music.selected.unwrap() as int].notes,
            ) {
                Some(t) => t as int,
                None => v.dt.end - v.dt.start,
            }
            &&& x == InputEvent::ViewLeft ==> v1.dt.start == (if v.dt.start >= dt { v.dt.start - dt } else { 0 })
            &&& x == InputEvent::ViewRight ==> v1.dt.start == v.dt.start + dt
            &&& pans_notes ==> v1.dt == v.dt && v1.dn.top - v1.dn.bottom == v.dn.top - v.dn.bottom
                && MIN_NOTE <= v1.dn.bottom && v1.dn.top <= MAX_NOTE
            &&& pans_notes && x == InputEvent::ViewUp ==> v1.dn.top == (if v.dn.top + dn <= MAX_NOTE {
                v.dn.top + dn
            } else {
                MAX_NOTE as int
            })
            &&& pans_notes && x == InputEvent::ViewDown ==> v1.dn.bottom == (if v.dn.bottom - dn >= MIN_NOTE {
                v.dn.bottom - dn
            } else {
                MIN_NOTE as int
            })
            &&& x == InputEvent::ViewZoomDefault ==> v1.dn == v.dn && v1.dt.start == v.dt.start && v1.dt.end
                == v.dt.start + dt_0
        }),
{
    lemma_only_event(x);
}

/// Moving the viewport left or right keeps its width; moving it up or down keeps its height and
/// keeps it inside the note range.
pub proof fn lemma_pan_keeps_size(v: ViewState, dt: u64, dn: u8, dir: bool)
    requires
        view_wf(v),
        v.dt.end + dt <= u64::MAX,
        dn <= v.dn.bottom,
    ensures
        spec_pan_time(v.dt, dt, dir).end - spec_pan_time(v.dt, dt, dir).start == v.dt.end - v.dt.start,
        spec_pan_notes(v.dn, dn, dir).top - spec_pan_notes(v.dn, dn, dir).bottom == v.dn.top - v.dn.bottom,
        MIN_NOTE <= spec_pan_notes(v.dn, dn, dir).bottom <= spec_pan_notes(v.dn, dn, dir).top <= MAX_NOTE,
{
}

/// The status of the view sub-panel: the time and note range of the viewport, and its edit
/// mode.
pub open spec fn spec_view_status(st: StateModel) -> Seq<Seq<PhraseModel>> {
    spec_each(
        seq![
            PhraseModel::Text {
                key: "PIANO_ROLL_PANEL_STATUS_TTS_VIEW"@,
                values: seq![
                    ValueModel::Ppq(st.view.dt.start),
                    ValueModel::Ppq(st.view.dt.end),
                    ValueModel::NoteName(st.view.dn.top),
                    ValueModel::NoteName(st.view.dn.bottom),
                ],
            },
            spec_edit_mode_status(st.view.mode),
        ],
    )
}

/// The input of the view sub-panel, each tooltip on its own: moving the viewport (up and down
/// too for a single track), its start and end, zooming, and cycling the edit mode.
pub open spec fn spec_view_input(st: StateModel) -> Seq<Seq<PhraseModel>> {
    let first = if st.view.single_track {
        seq![
            spec_tip(
                "PIANO_ROLL_PANEL_INPUT_TTS_VIEW_SINGLE_TRACK_0"@,
                seq![InputEvent::ViewUp, InputEvent::ViewDown, InputEvent::ViewLeft, InputEvent::ViewRight],
            ),
        ]
    } else {
        seq![
            spec_tip("PIANO_ROLL_PANEL_INPUT_TTS_VIEW_MULTI_TRACK_0"@, seq![InputEvent::ViewLeft, InputEvent::ViewRight]),
            spec_tip("PIANO_ROLL_PANEL_INPUT_TTS_VIEW_MULTI_TRACK_1"@, seq![InputEvent::ViewStart, InputEvent::ViewEnd]),
        ]
    };
    spec_each(
        first + seq![
            spec_tip("PIANO_ROLL_PANEL_INPUT_TTS_VIEW_SINGLE_TRACK_1"@, seq![InputEvent::ViewStart, InputEvent::ViewEnd]),
            spec_tip("PIANO_ROLL_PANEL_INPUT_TTS_VIEW_SINGLE_TRACK_2"@, seq![InputEvent::ViewZoomIn, InputEvent::ViewZoomOut]),
            spec_tip("PIANO_ROLL_PANEL_INPUT_TTS_VIEW_SINGLE_TRACK_3"@, seq![InputEvent::ViewZoomDefault]),
            spec_cycle_edit_mode_input(st.view.mode),
        ],
    )
}

impl PianoRollView {
    /// The status of the view sub-panel.
    pub fn get_status_tts(&self, state: &State) -> (r: Vec<Utterance>)
        ensures
            speech_view(r@) == spec_view_status(state@),
    {
        let mut r = silence();
        let mut values: Vec<Value> = Vec::new();
        values.push(Value::Ppq(state.view.dt.start));
        values.push(Value::Ppq(state.view.dt.end));
        values.push(Value::NoteName(state.view.dn.top));
        values.push(Value::NoteName(state.view.dn.bottom));
        proof {
            assert(values_view(values@) =~= seq![
                ValueModel::Ppq(state.view.dt.start),
                ValueModel::Ppq(state.view.dt.end),
                ValueModel::NoteName(state.view.dn.top),
                ValueModel::NoteName(state.view.dn.bottom),
            ]);
        }
        add_phrase(&mut r, text_with("PIANO_ROLL_PANEL_STATUS_TTS_VIEW", values));
        add_phrase(&mut r, get_edit_mode_status_tts(&state.view.mode));
        proof {
            assert(speech_view(r@) =~= spec_view_status(state@));
        }
        r
    }

    /// The input of the view sub-panel.
    pub fn get_input_tts(&self, state: &State) -> (r: Vec<Utterance>)
        ensures
            speech_view(r@) == spec_view_input(state@),
    {
        let mut r = silence();
        if state.view.single_track {
            add_phrase(
                &mut r,
                tip(
                    "PIANO_ROLL_PANEL_INPUT_TTS_VIEW_SINGLE_TRACK_0",
                    ev4(InputEvent::ViewUp, InputEvent::ViewDown, InputEvent::ViewLeft, InputEvent::ViewRight),
                ),
            );
        } else {
            add_phrase(&mut r, tip("PIANO_ROLL_PANEL_INPUT_TTS_VIEW_MULTI_TRACK_0", ev2(InputEvent::ViewLeft, InputEvent::ViewRight)));
            add_phrase(&mut r, tip("PIANO_ROLL_PANEL_INPUT_TTS_VIEW_MULTI_TRACK_1", ev2(InputEvent::ViewStart, InputEvent::ViewEnd)));
        }
        add_phrase(&mut r, tip("PIANO_ROLL_PANEL_INPUT_TTS_VIEW_SINGLE_TRACK_1", ev2(InputEvent::ViewStart, InputEvent::ViewEnd)));
        add_phrase(&mut r, tip("PIANO_ROLL_PANEL_INPUT_TTS_VIEW_SINGLE_TRACK_2", ev2(InputEvent::ViewZoomIn, InputEvent::ViewZoomOut)));
        add_phrase(&mut r, tip("PIANO_ROLL_PANEL_INPUT_TTS_VIEW_SINGLE_TRACK_3", ev1(InputEvent::ViewZoomDefault)));
        add_phrase(&mut r, get_cycle_edit_mode_input_tts(&state.view.mode));
        proof {
            assert(speech_view(r@) =~= spec_view_input(state@));
        }
        r
    }
}

} // verus!
