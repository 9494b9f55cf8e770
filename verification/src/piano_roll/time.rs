use vstd::prelude::*;
use crate::piano_roll::sub_panel::{get_edit_mode_status_tts, spec_edit_mode_status};
use crate::speech::{
    add_phrase, ev1, ev2, silence, speech_view, spec_each, spec_tip, text_with, tip, values_view, PhraseModel,
    Utterance, Value, ValueModel,
};
use crate::index::spec_step_up;
use crate::input::{lemma_only_event, Input, InputEvent};
use crate::model::{edit_mode_at, spec_edit_mode, spec_track_end, Note, State, StateModel, TimeState};
use crate::piano_roll::edit_mode_deltas::EditModeDeltas;
use crate::snapshot::{Snapshot, SnapshotModel};

verus! {

/// The latest end time of the notes, if there are any.
pub fn track_end(notes: &Vec<Note>) -> (r: Option<u64>)
    ensures
        r == spec_track_end(notes@),
{
    let mut r: Option<u64> = None;
    let n = notes.len();
    for i in 0..n
        invariant
            n == notes.len(),
            r == spec_track_end(notes@.take(i as int)),
    {
        proof {
            assert(notes@.take(i + 1).drop_last() =~= notes@.take(i as int));
        }
        let e = notes[i].end;
        r = match r {
            None => Some(e),
            Some(x) => Some(if x >= e { x } else { e }),
        };
    }
    proof {
        assert(notes@.take(n as int) =~= notes@);
    }
    r
}

/// The multiple of the beat nearest to a time, a time halfway between two multiples going to
/// the later one. A beat of zero rounds everything to zero.
pub open spec fn spec_nearest_beat(t: u64, beat: u64) -> int {
    if beat == 0 {
        0
    } else {
        ((t + beat / 2) / beat as int) * beat
    }
}

/// Round a time off to the nearest beat: a multiple of the beat at most half a beat away.
pub fn get_nearest_beat(t: u64, beat: u64) -> (r: u64)
    requires
        t + beat / 2 <= u64::MAX,
    ensures
        r == spec_nearest_beat(t, beat),
        beat > 0 ==> r % beat == 0,
        beat > 0 ==> t - beat / 2 <= r <= t + beat / 2,
        beat > 0 ==> (r < t ==> 2 * (t - r) < beat),
{
    if beat == 0 {
        0
    } else {
        let h = beat / 2;
        let q = (t + h) / beat;
        proof {
            let rem = ((t + h) % beat as int);
            assert(q * beat + rem == t + h && 0 <= rem < beat) by (nonlinear_arith)
                requires
                    q == (t + h) / beat as int,
                    rem == (t + h) % beat as int,
                    beat > 0,
            ;
            assert((q * beat) % beat as int == 0) by (nonlinear_arith)
                requires
                    beat > 0,
                    q >= 0,
            ;
        }
        q * beat
    }
}

/// The multiple of a beat nearest to a time is a multiple of the beat, at most half a beat
/// away, and strictly less than half a beat before the time.
pub proof fn lemma_nearest_beat(t: u64, beat: u64)
    requires
        beat > 0,
    ensures
        spec_nearest_beat(t, beat) % (beat as int) == 0,
        t - beat / 2 <= spec_nearest_beat(t, beat) <= t + beat / 2,
        spec_nearest_beat(t, beat) < t ==> 2 * (t - spec_nearest_beat(t, beat)) < beat,
        spec_nearest_beat(t, beat) >= 0,
{
    let h = beat / 2;
    let q = (t + h) / beat as int;
    let rem = (t + h) % beat as int;
    assert(q * beat + rem == t + h && 0 <= rem < beat && q >= 0) by (nonlinear_arith)
        requires
            q == (t + h) / beat as int,
            rem == (t + h) % beat as int,
            beat > 0,
            t + h >= 0,
    ;
    assert((q * beat) % beat as int == 0 && q * beat >= 0) by (nonlinear_arith)
        requires
            beat > 0,
            q >= 0,
    ;
}

/// What the time sub-panel does with a frame of input: the first of these events that happened.
#[derive(Clone, Copy, Debug, PartialEq, Eq, Structural)]
pub enum TimeAction {
    CycleMode,
    CursorStart,
    CursorEnd,
    CursorLeft,
    CursorRight,
    CursorPlayback,
    CursorBeat,
    PlaybackStart,
    PlaybackEnd,
    PlaybackLeft,
    PlaybackRight,
    PlaybackCursor,
    PlaybackBeat,
    Nothing,
}

pub open spec fn spec_time_action(e: Seq<InputEvent>) -> TimeAction {
    if e.contains(InputEvent::PianoRollCycleMode) {
        TimeAction::CycleMode
    } else if e.contains(InputEvent::TimeCursorStart) {
        TimeAction::CursorStart
    } else if e.contains(InputEvent::TimeCursorEnd) {
        TimeAction::CursorEnd
    } else if e.contains(InputEvent::TimeCursorLeft) {
        TimeAction::CursorLeft
    } else if e.contains(InputEvent::TimeCursorRight) {
        TimeAction::CursorRight
    } else if e.contains(InputEvent::TimeCursorPlayback) {
        TimeAction::CursorPlayback
    } else if e.contains(InputEvent::TimeCursorBeat) {
        TimeAction::CursorBeat
    } else if e.contains(InputEvent::TimePlaybackStart) {
        TimeAction::PlaybackStart
    } else if e.contains(InputEvent::TimePlaybackEnd) {
        TimeAction::PlaybackEnd
    } else if e.contains(InputEvent::TimePlaybackLeft) {
        TimeAction::PlaybackLeft
    } else if e.contains(InputEvent::TimePlaybackRight) {
        TimeAction::PlaybackRight
    } else if e.contains(InputEvent::TimePlaybackCursor) {
        TimeAction::PlaybackCursor
    } else if e.contains(InputEvent::TimePlaybackBeat) {
        TimeAction::PlaybackBeat
    } else {
        TimeAction::Nothing
    }
}

pub fn time_action(input: &Input) -> (r: TimeAction)
    ensures
        r == spec_time_action(input.events@),
{
    if input.happened(InputEvent::PianoRollCycleMode) {
        TimeAction::CycleMode
    } else if input.happened(InputEvent::TimeCursorStart) {
        TimeAction::CursorStart
    } else if input.happened(InputEvent::TimeCursorEnd) {
        TimeAction::CursorEnd
    } else if input.happened(InputEvent::TimeCursorLeft) {
        TimeAction::CursorLeft
    } else if input.happened(InputEvent::TimeCursorRight) {
        TimeAction::CursorRight
    } else if input.happened(InputEvent::TimeCursorPlayback) {
        TimeAction::CursorPlayback
    } else if input.happened(InputEvent::TimeCursorBeat) {
        TimeAction::CursorBeat
    } else if input.happened(InputEvent::TimePlaybackStart) {
        TimeAction::PlaybackStart
    } else if input.happened(InputEvent::TimePlaybackEnd) {
        TimeAction::PlaybackEnd
    } else if input.happened(InputEvent::TimePlaybackLeft) {
        TimeAction::PlaybackLeft
    } else if input.happened(InputEvent::TimePlaybackRight) {
        TimeAction::PlaybackRight
    } else if input.happened(InputEvent::TimePlaybackCursor) {
        TimeAction::PlaybackCursor
    } else if input.happened(InputEvent::TimePlaybackBeat) {
        TimeAction::PlaybackBeat
    } else {
        TimeAction::Nothing
    }
}

/// The end time that "go to end" moves to: the end of the selected track's last note, or the end
/// of the viewport if the track has no notes.
pub open spec fn spec_end(st: StateModel) -> u64 {
    match spec_track_end(st.music.tracks[st.music.selected.unwrap() as int].notes) {
        Some(t) => t,
        None => st.view.dt.end,
    }
}

/// A time moved left (never below zero) or right by the delta of the time edit mode.
pub open spec fn spec_moved(t: u64, d: EditModeDeltas, st: StateModel, add: bool) -> u64 {
    let dt = d.spec_dt(spec_edit_mode(st.time.mode.index), st.input.beat);
    if add {
        (t + dt) as u64
    } else if t >= dt {
        (t - dt) as u64
    } else {
        0
    }
}

/// The time state with the cursor replaced.
pub open spec fn spec_with_cursor(st: StateModel, c: u64) -> StateModel {
    StateModel { time: TimeState { cursor: c, ..st.time }, ..st }
}

/// The time state with the playback time replaced.
pub open spec fn spec_with_playback(st: StateModel, p: u64) -> StateModel {
    StateModel { time: TimeState { playback: p, ..st.time }, ..st }
}

/// What the time sub-panel does: the new state, and whether a snapshot is made.
pub open spec fn spec_time_update(d: EditModeDeltas, st: StateModel, e: Seq<InputEvent>) -> (StateModel, bool) {
    let c = st.time.cursor;
    let p = st.time.playback;
    let beat = st.input.beat;
    if st.music.selected is None {
        (st, false)
    } else {
        match spec_time_action(e) {
            TimeAction::CycleMode => (
                StateModel { time: TimeState { mode: spec_step_up(st.time.mode), ..st.time }, ..st },
                true,
            ),
            TimeAction::CursorStart => (spec_with_cursor(st, 0), true),
            TimeAction::CursorEnd => (spec_with_cursor(st, spec_end(st)), true),
            TimeAction::CursorLeft => (spec_with_cursor(st, spec_moved(c, d, st, false)), true),
            TimeAction::CursorRight => (spec_with_cursor(st, spec_moved(c, d, st, true)), true),
            TimeAction::CursorPlayback => (spec_with_cursor(st, p), true),
            TimeAction::CursorBeat => (spec_with_cursor(st, spec_nearest_beat(c, beat) as u64), true),
            TimeAction::PlaybackStart => (spec_with_playback(st, 0), true),
            TimeAction::PlaybackEnd => (spec_with_playback(st, spec_end(st)), true),
            TimeAction::PlaybackLeft => (spec_with_playback(st, spec_moved(p, d, st, false)), true),
            TimeAction::PlaybackRight => (spec_with_playback(st, spec_moved(p, d, st, true)), true),
            TimeAction::PlaybackCursor => (spec_with_playback(st, c), true),
            TimeAction::PlaybackBeat => (spec_with_playback(st, spec_nearest_beat(p, beat) as u64), true),
            TimeAction::Nothing => (st, false),
        }
    }
}

/// What the time sub-panel needs so that no arithmetic leaves its range.
pub open spec fn spec_time_fits(d: EditModeDeltas, st: StateModel, e: Seq<InputEvent>) -> bool {
    let a = spec_time_action(e);
    let dt = d.spec_dt(spec_edit_mode(st.time.mode.index), st.input.beat);
    st.music.selected is Some ==> {
        &&& (a == TimeAction::CursorLeft || a == TimeAction::PlaybackLeft) ==> dt <= u64::MAX
        &&& a == TimeAction::CursorRight ==> st.time.cursor + dt <= u64::MAX
        &&& a == TimeAction::PlaybackRight ==> st.time.playback + dt <= u64::MAX
        &&& a == TimeAction::CursorBeat ==> st.time.cursor + st.input.beat / 2 <= u64::MAX
        &&& a == TimeAction::PlaybackBeat ==> st.time.playback + st.input.beat / 2 <= u64::MAX
    }
}

/// The time sub-panel moves the cursor or the playback time and nothing else, and makes a
/// snapshot of it. A frame whose only event is a move:
/// - moves the cursor to the playback time, to zero, left by the time step (stopping at zero),
///   right by it, or to the nearest beat, and leaves the playback time where it is;
/// - moves the playback time to the cursor, to zero, left, right or to the nearest beat, and
///   leaves the cursor where it is.
pub proof fn lemma_time_moves(d: EditModeDeltas, st: StateModel, x: InputEvent)
    requires
        st.music.selected is Some,
        spec_time_fits(d, st, seq![x]),
    ensures
        ({
            let (st1, snap) = spec_time_update(d, st, seq![x]);
            let c = st.time.cursor;
            let p = st.time.playback;
            let c1 = st1.time.cursor;
            let p1 = st1.time.playback;
            let dt = d.spec_dt(spec_edit_mode(st.time.mode.index), st.input.beat);
            let beat = st.input.beat;
            let cursor_moves = x == InputEvent::TimeCursorStart || x == InputEvent::TimeCursorEnd
                || x == InputEvent::TimeCursorLeft || x == InputEvent::TimeCursorRight
                || x == InputEvent::TimeCursorPlayback || x == InputEvent::TimeCursorBeat;
            let playback_moves = x == InputEvent::TimePlaybackStart || x == InputEvent::TimePlaybackEnd
                || x == InputEvent::TimePlaybackLeft || x == InputEvent::TimePlaybackRight
                || x == InputEvent::TimePlaybackCursor || x == InputEvent::TimePlaybackBeat;
            &&& cursor_moves ==> snap && st1 == StateModel { time: TimeState { cursor: c1, ..st.time }, ..st }
            &&& playback_moves ==> snap && st1 == StateModel { time: TimeState { playback: p1, ..st.time }, ..st }
            &&& x == InputEvent::TimeCursorPlayback ==> c1 == p && p1 == p
            &&& x == InputEvent::TimePlaybackCursor ==> p1 == c && c1 == c
            &&& x == InputEvent::TimeCursorStart ==> c1 == 0
            &&& x == InputEvent::TimePlaybackStart ==> p1 == 0
            &&& x == InputEvent::TimeCursorLeft ==> c1 == (if c >= dt { c - dt } else { 0 })
            &&& x == InputEvent::TimeCursorRight ==> c1 == c + dt
            &&& x == InputEvent::TimePlaybackLeft ==> p1 == (if p >= dt { p - dt } else { 0 })
            &&& x == InputEvent::TimePlaybackRight ==> p1 == p + dt
            &&& x == InputEvent::TimeCursorBeat && beat > 0 ==> c1 % beat == 0 && c - beat / 2 <= c1 <= c + beat / 2
                && (c1 < c ==> 2 * (c - c1) < beat)
            &&& x == InputEvent::TimePlaybackBeat && beat > 0 ==> p1 % beat == 0 && p - beat / 2 <= p1 <= p + beat / 2
                && (p1 < p ==> 2 * (p - p1) < beat)
        }),
{
    lemma_only_event(x);
    if st.input.beat > 0 {
        lemma_nearest_beat(st.time.cursor, st.input.beat);
        lemma_nearest_beat(st.time.playback, st.input.beat);
    }
}

/// The time sub-panel keeps the state valid.
pub proof fn lemma_time_keeps_wf(d: EditModeDeltas, st: StateModel, e: Seq<InputEvent>)
    requires
        st.wf(),
    ensures
        spec_time_update(d, st, e).0.wf(),
{
    let st1 = spec_time_update(d, st, e).0;
    assert(st1.music == st.music);
}

/// The piano roll time sub-panel.
#[derive(Clone, Copy, Debug)]
pub struct Time {
    /// Time values and deltas.
    pub deltas: EditModeDeltas,
}

impl Time {
    pub fn new(deltas: EditModeDeltas) -> (r: Time)
        ensures
            r.deltas == deltas,
    {
        Time { deltas }
    }

    /// The time that "go to end" moves to.
    fn get_end(state: &State) -> (r: u64)
        requires
            state@.wf(),
            state.music.selected is Some,
        ensures
            r == spec_end(state@),
    {
        let t = state.music.selected.unwrap();
        proof {
            assert(state@.music.tracks[t as int] == state.music.midi_tracks@[t as int]@);
        }
        match track_end(&state.music.midi_tracks[t].notes) {
            Some(t1) => t1,
            None => state.view.dt.end,
        }
    }

    /// A time moved left (never below zero) or right by the delta of the time edit mode.
    fn moved(&self, t: u64, state: &State, add: bool) -> (r: u64)
        requires
            state@.wf(),
            self.deltas.spec_dt(spec_edit_mode(state.time.mode.index), state.input.beat) <= u64::MAX,
            add ==> t + self.deltas.spec_dt(spec_edit_mode(state.time.mode.index), state.input.beat)
                <= u64::MAX,
        ensures
            r == spec_moved(t, self.deltas, state@, add),
    {
        let mode = edit_mode_at(state.time.mode.get());
        let dt = self.deltas.get_dt(mode, state.input.beat);
        if add {
            t + dt
        } else {
            t.saturating_sub(dt)
        }
    }

    /// Apply a frame of input: cycle the time edit mode, or move the cursor or the playback time.
    pub fn update(&self, state: &mut State, input: &Input) -> (r: Option<Snapshot>)
        requires
            old(state)@.wf(),
            spec_time_fits(self.deltas, old(state)@, input.events@),
        ensures
            final(state)@ == spec_time_update(self.deltas, old(state)@, input.events@).0,
            r is Some == spec_time_update(self.deltas, old(state)@, input.events@).1,
            r matches Some(s) ==> s@ == (SnapshotModel {
                from_state: Some(old(state)@),
                to_state: Some(final(state)@),
                from_commands: None,
                to_commands: None,
                io_commands: None,
            }),
    {
        if state.music.selected.is_none() {
            return None;
        }
        let a = time_action(input);
        if a == TimeAction::Nothing {
            return None;
        }
        let ghost st0 = state@;
        let s0 = state.duplicate();
        match a {
            TimeAction::CycleMode => {
                state.time.mode.increment(true);
            },
            TimeAction::CursorStart => {
                state.time.cursor = 0;
            },
            TimeAction::CursorEnd => {
                state.time.cursor = Time::get_end(state);
            },
            TimeAction::CursorLeft => {
                state.time.cursor = self.moved(state.time.cursor, state, false);
            },
            TimeAction::CursorRight => {
                state.time.cursor = self.moved(state.time.cursor, state, true);
            },
            TimeAction::CursorPlayback => {
                state.time.cursor = state.time.playback;
            },
            TimeAction::CursorBeat => {
                state.time.cursor = get_nearest_beat(state.time.cursor, state.input.beat);
            },
            TimeAction::PlaybackStart => {
                state.time.playback = 0;
            },
            TimeAction::PlaybackEnd => {
                state.time.playback = Time::get_end(state);
            },
            TimeAction::PlaybackLeft => {
                state.time.playback = self.moved(state.time.playback, state, false);
            },
            TimeAction::PlaybackRight => {
                state.time.playback = self.moved(state.time.playback, state, true);
            },
            TimeAction::PlaybackCursor => {
                state.time.playback = state.time.cursor;
            },
            _ => {
                state.time.playback = get_nearest_beat(state.time.playback, state.input.beat);
            },
        }
        proof {
            assert(state@ =~= spec_time_update(self.deltas, st0, input.events@).0);
        }
        Some(Snapshot::from_states(s0, state))
    }
}

/// The status of the time sub-panel: its edit mode, and the cursor and playback times.
pub open spec fn spec_time_status(st: StateModel) -> Seq<Seq<PhraseModel>> {
    spec_each(
        seq![
            spec_edit_mode_status(st.time.mode),
            PhraseModel::Text {
                key: "PIANO_ROLL_PANEL_STATUS_TTS_TIME"@,
                values: seq![ValueModel::Ppq(st.time.cursor), ValueModel::Ppq(st.time.playback)],
            },
        ],
    )
}

/// The input of the time sub-panel, each tooltip on its own.
pub open spec fn spec_time_input() -> Seq<Seq<PhraseModel>> {
    spec_each(
        seq![
            spec_tip("PIANO_ROLL_PANEL_INPUT_TTS_TIME_0"@, seq![InputEvent::TimeCursorLeft, InputEvent::TimeCursorRight]),
            spec_tip("PIANO_ROLL_PANEL_INPUT_TTS_TIME_1"@, seq![InputEvent::TimeCursorStart, InputEvent::TimeCursorEnd]),
            spec_tip("PIANO_ROLL_PANEL_INPUT_TTS_TIME_2"@, seq![InputEvent::TimeCursorBeat]),
            spec_tip("PIANO_ROLL_PANEL_INPUT_TTS_TIME_3"@, seq![InputEvent::TimeCursorPlayback]),
            spec_tip("PIANO_ROLL_PANEL_INPUT_TTS_TIME_4"@, seq![InputEvent::TimePlaybackLeft, InputEvent::TimePlaybackRight]),
            spec_tip("PIANO_ROLL_PANEL_INPUT_TTS_TIME_5"@, seq![InputEvent::TimePlaybackStart, InputEvent::TimePlaybackEnd]),
            spec_tip("PIANO_ROLL_PANEL_INPUT_TTS_TIME_6"@, seq![InputEvent::TimePlaybackBeat]),
            spec_tip("PIANO_ROLL_PANEL_INPUT_TTS_TIME_7"@, seq![InputEvent::TimePlaybackCursor]),
        ],
    )
}

impl Time {
    /// The status of the time sub-panel.
    pub fn get_status_tts(&self, state: &State) -> (r: Vec<Utterance>)
        ensures
            speech_view(r@) == spec_time_status(state@),
    {
        let mut r = silence();
        add_phrase(&mut r, get_edit_mode_status_tts(&state.time.mode));
        let mut values: Vec<Value> = Vec::new();
        values.push(Value::Ppq(state.time.cursor));
        values.push(Value::Ppq(state.time.playback));
        proof {
            assert(values_view(values@) =~= seq![ValueModel::Ppq(state.time.cursor), ValueModel::Ppq(state.time.playback)]);
        }
        add_phrase(&mut r, text_with("PIANO_ROLL_PANEL_STATUS_TTS_TIME", values));
        proof {
            assert(speech_view(r@) =~= spec_time_status(state@));
        }
        r
    }

    /// The input of the time sub-panel.
    pub fn get_input_tts(&self) -> (r: Vec<Utterance>)
        ensures
            speech_view(r@) == spec_time_input(),
    {
        let mut r = silence();
        add_phrase(&mut r, tip("PIANO_ROLL_PANEL_INPUT_TTS_TIME_0", ev2(InputEvent::TimeCursorLeft, InputEvent::TimeCursorRight)));
        add_phrase(&mut r, tip("PIANO_ROLL_PANEL_INPUT_TTS_TIME_1", ev2(InputEvent::TimeCursorStart, InputEvent::TimeCursorEnd)));
        add_phrase(&mut r, tip("PIANO_ROLL_PANEL_INPUT_TTS_TIME_2", ev1(InputEvent::TimeCursorBeat)));
        add_phrase(&mut r, tip("PIANO_ROLL_PANEL_INPUT_TTS_TIME_3", ev1(InputEvent::TimeCursorPlayback)));
        add_phrase(&mut r, tip("PIANO_ROLL_PANEL_INPUT_TTS_TIME_4", ev2(InputEvent::TimePlaybackLeft, InputEvent::TimePlaybackRight)));
        add_phrase(&mut r, tip("PIANO_ROLL_PANEL_INPUT_TTS_TIME_5", ev2(InputEvent::TimePlaybackStart, InputEvent::TimePlaybackEnd)));
        add_phrase(&mut r, tip("PIANO_ROLL_PANEL_INPUT_TTS_TIME_6", ev1(InputEvent::TimePlaybackBeat)));
        add_phrase(&mut r, tip("PIANO_ROLL_PANEL_INPUT_TTS_TIME_7", ev1(InputEvent::TimePlaybackCursor)));
        proof {
            assert(speech_view(r@) =~= spec_time_input());
        }
        r
    }
}

} // verus!
