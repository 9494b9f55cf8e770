use cacophony_io::index::Index;
use cacophony_io::input::{Input, InputEvent, NoteOn};
use cacophony_io::model::{
    Effect, EffectType, InputState, MidiTrack, Music, Note, NoteRange, PanelType, PianoRollMode, Selection,
    State, TimeRange, TimeState, ViewState, PPQ_U,
};
use cacophony_io::piano_roll::copy::CopiedEvent;
use cacophony_io::piano_roll::edit::Edit;
use cacophony_io::piano_roll::edit_mode_deltas::EditModeDeltas;
use cacophony_io::piano_roll::panel::PianoRollPanel;
use cacophony_io::piano_roll::time::{get_nearest_beat, Time};
use cacophony_io::piano_roll::view::PianoRollView;
use cacophony_io::synth::{Program, SynthState};
use std::collections::HashMap;

fn deltas() -> EditModeDeltas {
    EditModeDeltas::new(2, PPQ_U / 32, 1, 11, 1, 1, 2, 1)
}

fn state_with_notes(notes: Vec<Note>) -> State {
    let mut track = MidiTrack::new(0);
    track.notes = notes;
    State {
        panels: vec![PanelType::Music, PanelType::Tracks, PanelType::PianoRoll],
        focus: Index::new(2, 3),
        unsaved_changes: false,
        music: Music { midi_tracks: vec![track], selected: Some(0) },
        time: TimeState { cursor: 0, playback: 0, bpm: 120, mode: Index::new(0, 3) },
        input: InputState { beat: PPQ_U, armed: false, alphanumeric_input: false, use_volume: true, volume: Index::new(127, 128) },
        view: ViewState {
            dt: TimeRange { start: 0, end: PPQ_U * 8 },
            dn: NoteRange { top: 72, bottom: 48 },
            single_track: true,
            mode: Index::new(0, 3),
        },
        selection: Selection { notes: vec![], effects: vec![], single: false },
        edit_mode: Index::new(0, 3),
        piano_roll_mode: PianoRollMode::Edit,
        effect_types: Index::new(0, 6),
        music_panel_field: Index::new(0, 3),
    }
}

fn note(note: u8, start: u64, end: u64) -> Note {
    Note { note, velocity: 100, start, end }
}

fn input(events: &[InputEvent]) -> Input {
    Input { events: events.to_vec(), new_notes: vec![], typed: vec![], backspace: false }
}

fn synth_with_program() -> SynthState {
    let mut programs = HashMap::new();
    programs.insert(
        0u8,
        Program {
            path: "a.sf2".to_string(),
            num_banks: 1,
            bank_index: 0,
            bank: 0,
            num_presets: 10,
            preset_index: 0,
            preset_name: "Piano".to_string(),
            chorus: 0,
            pan: 0,
            reverb: 0,
        },
    );
    SynthState { programs, gain: 127 }
}

fn panel() -> PianoRollPanel {
    PianoRollPanel::new(PPQ_U, vec![PPQ_U / 2, PPQ_U, PPQ_U * 2], deltas(), PPQ_U * 8)
}

#[test]
fn edit_mode_deltas() {
    let e = deltas();
    assert_eq!(e.quick_time_factor, 2, "{}", e.quick_time_factor);
    assert_eq!(e.precise_time, PPQ_U / 32, "{}", e.precise_time);
    assert_eq!(e.normal_note, 1, "{}", e.normal_note);
    assert_eq!(e.quick_note, 11, "{}", e.quick_note);
    assert_eq!(e.precise_note, 1, "{}", e.precise_note);
    assert_eq!(e.normal_volume, 1, "{}", e.normal_volume);
    assert_eq!(e.quick_volume, 2, "{}", e.quick_volume);
    assert_eq!(e.precise_volume, 1, "{}", e.precise_volume);
}

#[test]
fn new_panel_finds_the_input_beat() {
    let p = panel();
    assert_eq!(p.beats, vec![PPQ_U / 2, PPQ_U, PPQ_U * 2]);
    assert_eq!(p.beat.get(), 1);
    assert!(p.copy_buffer.is_empty());
}

#[test]
fn new_panel_appends_a_missing_beat() {
    let p = PianoRollPanel::new(7, vec![PPQ_U], deltas(), PPQ_U);
    assert_eq!(p.beats, vec![PPQ_U, 7]);
    assert_eq!(p.beat.get(), 1);
    assert_eq!(p.beat.length, 2);
}

#[test]
fn edit_shifts_selected_notes_right_by_a_beat() {
    let mut state = state_with_notes(vec![note(60, 0, PPQ_U), note(62, PPQ_U, PPQ_U * 2)]);
    state.selection.notes = vec![1];
    let edit = Edit::new(deltas());
    let s = edit.update(&mut state, &input(&[InputEvent::EditStartRight]));
    assert!(s.is_some());
    assert_eq!(state.music.midi_tracks[0].notes[0], note(60, 0, PPQ_U));
    assert_eq!(state.music.midi_tracks[0].notes[1], note(62, PPQ_U * 2, PPQ_U * 3));
}

#[test]
fn edit_is_refused_when_a_note_would_start_before_zero() {
    let mut state = state_with_notes(vec![note(60, 0, PPQ_U), note(62, PPQ_U, PPQ_U * 2)]);
    state.selection.notes = vec![0, 1];
    let edit = Edit::new(deltas());
    let s = edit.update(&mut state, &input(&[InputEvent::EditStartLeft]));
    assert!(s.is_none());
    assert_eq!(state.music.midi_tracks[0].notes[0], note(60, 0, PPQ_U));
}

#[test]
fn edit_then_opposite_edit_gives_back_the_notes() {
    let mut state = state_with_notes(vec![note(60, PPQ_U, PPQ_U * 2)]);
    state.selection.notes = vec![0];
    let edit = Edit::new(deltas());
    assert!(edit.update(&mut state, &input(&[InputEvent::EditPitchUp])).is_some());
    assert_eq!(state.music.midi_tracks[0].notes[0].note, 61);
    assert!(edit.update(&mut state, &input(&[InputEvent::EditPitchDown])).is_some());
    assert_eq!(state.music.midi_tracks[0].notes[0], note(60, PPQ_U, PPQ_U * 2));
}

#[test]
fn edit_pitch_up_stops_at_the_top_note() {
    let mut state = state_with_notes(vec![note(127, 0, PPQ_U)]);
    state.selection.notes = vec![0];
    let edit = Edit::new(deltas());
    assert!(edit.update(&mut state, &input(&[InputEvent::EditPitchUp])).is_none());
    assert_eq!(state.music.midi_tracks[0].notes[0].note, 127);
}

#[test]
fn a_large_volume_step_is_refused_when_it_would_pass_the_top() {
    let mut state = state_with_notes(vec![note(60, 0, PPQ_U)]);
    state.selection.notes = vec![0];
    let edit = Edit::new(EditModeDeltas::new(2, PPQ_U / 32, 1, 11, 1, 120, 1, 1));
    assert!(edit.update(&mut state, &input(&[InputEvent::EditVolumeUp])).is_none());
    assert_eq!(state.music.midi_tracks[0].notes[0], note(60, 0, PPQ_U));
}

#[test]
fn edit_cycles_the_edit_mode() {
    let mut state = state_with_notes(vec![]);
    let edit = Edit::new(deltas());
    assert!(edit.update(&mut state, &input(&[InputEvent::PianoRollCycleMode])).is_some());
    assert_eq!(state.edit_mode.get(), 1);
}

#[test]
fn time_moves_the_cursor_and_never_below_zero() {
    let mut state = state_with_notes(vec![note(60, 0, PPQ_U * 3)]);
    let time = Time::new(deltas());
    assert!(time.update(&mut state, &input(&[InputEvent::TimeCursorRight])).is_some());
    assert_eq!(state.time.cursor, PPQ_U);
    assert!(time.update(&mut state, &input(&[InputEvent::TimeCursorLeft])).is_some());
    assert!(time.update(&mut state, &input(&[InputEvent::TimeCursorLeft])).is_some());
    assert_eq!(state.time.cursor, 0);
    assert!(time.update(&mut state, &input(&[InputEvent::TimeCursorEnd])).is_some());
    assert_eq!(state.time.cursor, PPQ_U * 3);
}

#[test]
fn nearest_beat_rounds_off() {
    assert_eq!(get_nearest_beat(0, PPQ_U), 0);
    assert_eq!(get_nearest_beat(1, PPQ_U), 0);
    assert_eq!(get_nearest_beat(1, 192), 0);
    assert_eq!(get_nearest_beat(PPQ_U / 2 - 1, PPQ_U), 0);
    assert_eq!(get_nearest_beat(PPQ_U / 2, PPQ_U), PPQ_U);
    assert_eq!(get_nearest_beat(PPQ_U, PPQ_U), PPQ_U);
    assert_eq!(get_nearest_beat(PPQ_U + 1, PPQ_U), PPQ_U);
    assert_eq!(get_nearest_beat(2, 3), 3);
    assert_eq!(get_nearest_beat(4, 3), 3);
}

#[test]
fn view_pans_right_and_keeps_its_width() {
    let mut state = state_with_notes(vec![]);
    let view = PianoRollView::new(deltas(), PPQ_U * 8);
    assert!(view.update(&mut state, &input(&[InputEvent::ViewRight])).is_some());
    assert_eq!(state.view.dt, TimeRange { start: PPQ_U, end: PPQ_U * 9 });
    assert!(view.update(&mut state, &input(&[InputEvent::ViewUp])).is_some());
    assert_eq!(state.view.dn, NoteRange { top: 73, bottom: 49 });
}

#[test]
fn view_up_snaps_to_the_top_note() {
    let mut state = state_with_notes(vec![]);
    state.view.dn = NoteRange { top: 127, bottom: 100 };
    let view = PianoRollView::new(deltas(), PPQ_U * 8);
    assert!(view.update(&mut state, &input(&[InputEvent::ViewUp])).is_some());
    assert_eq!(state.view.dn, NoteRange { top: 127, bottom: 100 });
}

#[test]
fn select_all_then_none() {
    let mut state = state_with_notes(vec![note(60, 0, 1), note(61, 0, 1)]);
    state.piano_roll_mode = PianoRollMode::Select;
    let mut p = panel();
    let synth = synth_with_program();
    assert!(p.update(&mut state, &synth, &input(&[InputEvent::SelectAll])).is_some());
    assert_eq!(state.selection.notes, vec![0, 1]);
    assert!(p.update(&mut state, &synth, &input(&[InputEvent::SelectNone])).is_some());
    assert!(state.selection.notes.is_empty());
}

fn select_state() -> State {
    let mut state = state_with_notes(vec![
        note(60, 0, PPQ_U),
        note(62, PPQ_U, PPQ_U + 10),
        note(64, PPQ_U * 3, PPQ_U * 4),
    ]);
    state.piano_roll_mode = PianoRollMode::Select;
    state.time.cursor = PPQ_U * 2;
    state
}

#[test]
fn moving_the_selection_end_left_drops_the_last_note() {
    let mut state = select_state();
    state.selection.notes = vec![0, 1, 2];
    let mut p = panel();
    let synth = synth_with_program();
    assert!(p.update(&mut state, &synth, &input(&[InputEvent::SelectEndLeft])).is_some());
    assert_eq!(state.selection.notes, vec![0, 1]);
    assert!(p.update(&mut state, &synth, &input(&[InputEvent::SelectEndLeft])).is_some());
    assert!(p.update(&mut state, &synth, &input(&[InputEvent::SelectEndLeft])).is_some());
    assert!(state.selection.notes.is_empty());
}

#[test]
fn moving_the_selection_with_nothing_selected_picks_a_note_near_the_cursor() {
    let mut state = select_state();
    let mut p = panel();
    let synth = synth_with_program();
    assert!(p.update(&mut state, &synth, &input(&[InputEvent::SelectStartLeft])).is_some());
    assert_eq!(state.selection.notes, vec![1]);
    state.selection.notes = vec![];
    assert!(p.update(&mut state, &synth, &input(&[InputEvent::SelectEndRight])).is_some());
    assert_eq!(state.selection.notes, vec![2]);
}

#[test]
fn moving_the_selection_end_right_adds_the_latest_later_note() {
    let mut state = select_state();
    state.selection.notes = vec![0];
    let mut p = panel();
    let synth = synth_with_program();
    assert!(p.update(&mut state, &synth, &input(&[InputEvent::SelectEndRight])).is_some());
    assert_eq!(state.selection.notes, vec![0, 2]);
    assert!(p.update(&mut state, &synth, &input(&[InputEvent::SelectEndRight])).is_none());
    assert_eq!(state.selection.notes, vec![0, 2]);
}

#[test]
fn moving_a_single_selection() {
    let mut state = select_state();
    state.selection.single = true;
    state.selection.notes = vec![1];
    let mut p = panel();
    let synth = synth_with_program();
    assert!(p.update(&mut state, &synth, &input(&[InputEvent::SelectStartLeft])).is_some());
    assert_eq!(state.selection.notes, vec![0]);
    assert!(p.update(&mut state, &synth, &input(&[InputEvent::SelectStartLeft])).is_none());
    assert_eq!(state.selection.notes, vec![0]);
    assert!(p.update(&mut state, &synth, &input(&[InputEvent::SelectEndLeft])).is_none());
    assert!(p.update(&mut state, &synth, &input(&[InputEvent::SelectStartRight])).is_some());
    assert_eq!(state.selection.notes, vec![2]);
}

#[test]
fn cycling_to_single_selection_keeps_the_first_note() {
    let mut state = state_with_notes(vec![note(60, 0, 1), note(61, 0, 1)]);
    state.piano_roll_mode = PianoRollMode::Select;
    state.selection.notes = vec![1, 0];
    let mut p = panel();
    let synth = synth_with_program();
    assert!(p.update(&mut state, &synth, &input(&[InputEvent::PianoRollCycleMode])).is_some());
    assert!(state.selection.single);
    assert_eq!(state.selection.notes, vec![1]);
}

#[test]
fn armed_piano_roll_adds_played_notes_and_moves_the_cursor() {
    let mut state = state_with_notes(vec![]);
    state.input.armed = true;
    let mut p = panel();
    let synth = synth_with_program();
    let mut i = input(&[]);
    i.new_notes = vec![NoteOn { note: 60, velocity: 90 }, NoteOn { note: 64, velocity: 80 }];
    assert!(p.update(&mut state, &synth, &i).is_some());
    assert_eq!(
        state.music.midi_tracks[0].notes,
        vec![Note { note: 60, velocity: 90, start: 0, end: PPQ_U }, Note { note: 64, velocity: 80, start: 0, end: PPQ_U }]
    );
    assert_eq!(state.time.cursor, PPQ_U);
}

#[test]
fn played_notes_need_a_program() {
    let mut state = state_with_notes(vec![]);
    state.input.armed = true;
    let mut p = panel();
    let synth = SynthState { programs: HashMap::new(), gain: 127 };
    let mut i = input(&[]);
    i.new_notes = vec![NoteOn { note: 60, velocity: 90 }];
    assert!(p.update(&mut state, &synth, &i).is_none());
    assert!(state.music.midi_tracks[0].notes.is_empty());
    assert_eq!(state.time.cursor, 0);
}

#[test]
fn copy_then_paste_at_the_earliest_time_duplicates_the_notes() {
    let mut state = state_with_notes(vec![note(60, PPQ_U, PPQ_U * 2), note(62, PPQ_U * 2, PPQ_U * 4)]);
    state.selection.notes = vec![0, 1];
    let mut p = panel();
    let synth = synth_with_program();
    assert!(p.update(&mut state, &synth, &input(&[InputEvent::CopyNotes])).is_none());
    assert_eq!(
        p.copy_buffer,
        vec![CopiedEvent::Note(note(60, PPQ_U, PPQ_U * 2)), CopiedEvent::Note(note(62, PPQ_U * 2, PPQ_U * 4))]
    );
    state.time.cursor = PPQ_U;
    assert!(p.update(&mut state, &synth, &input(&[InputEvent::PasteNotes])).is_some());
    assert_eq!(
        state.music.midi_tracks[0].notes,
        vec![
            note(60, PPQ_U, PPQ_U * 2),
            note(62, PPQ_U * 2, PPQ_U * 4),
            note(60, PPQ_U, PPQ_U * 2),
            note(62, PPQ_U * 2, PPQ_U * 4)
        ]
    );
}

#[test]
fn paste_moves_notes_to_the_cursor_and_effects_by_the_cursor() {
    let mut state = state_with_notes(vec![note(60, PPQ_U, PPQ_U * 2)]);
    state.music.midi_tracks[0].effects = vec![Effect { time: PPQ_U, effect: EffectType::Chorus(5) }];
    state.selection.notes = vec![0];
    state.selection.effects = vec![0];
    let mut p = panel();
    let synth = synth_with_program();
    p.update(&mut state, &synth, &input(&[InputEvent::CopyNotes]));
    state.time.cursor = PPQ_U * 4;
    assert!(p.update(&mut state, &synth, &input(&[InputEvent::PasteNotes])).is_some());
    assert_eq!(state.music.midi_tracks[0].notes[1], note(60, PPQ_U * 4, PPQ_U * 5));
    assert_eq!(state.music.midi_tracks[0].effects[1], Effect { time: PPQ_U * 5, effect: EffectType::Chorus(5) });
}

#[test]
fn paste_with_an_empty_buffer_does_nothing() {
    let mut state = state_with_notes(vec![note(60, 0, 1)]);
    let mut p = panel();
    let synth = synth_with_program();
    assert!(p.update(&mut state, &synth, &input(&[InputEvent::PasteNotes])).is_none());
    assert_eq!(state.music.midi_tracks[0].notes.len(), 1);
}

#[test]
fn cut_copies_then_deletes_and_deselects() {
    let mut state = state_with_notes(vec![note(60, 0, 1), note(61, 1, 2), note(62, 2, 3)]);
    state.selection.notes = vec![1];
    let mut p = panel();
    let synth = synth_with_program();
    assert!(p.update(&mut state, &synth, &input(&[InputEvent::CutNotes])).is_some());
    assert_eq!(p.copy_buffer, vec![CopiedEvent::Note(note(61, 1, 2))]);
    assert_eq!(state.music.midi_tracks[0].notes, vec![note(60, 0, 1), note(62, 2, 3)]);
    assert!(state.selection.notes.is_empty());
}

#[test]
fn delete_with_nothing_selected_still_makes_a_snapshot() {
    let mut state = state_with_notes(vec![note(60, 0, 1)]);
    let mut p = panel();
    let synth = synth_with_program();
    assert!(p.update(&mut state, &synth, &input(&[InputEvent::DeleteNotes])).is_some());
    assert_eq!(state.music.midi_tracks[0].notes.len(), 1);
}

#[test]
fn input_beat_cycles_through_the_beats() {
    let mut state = state_with_notes(vec![]);
    let mut p = panel();
    let synth = synth_with_program();
    assert!(p.update(&mut state, &synth, &input(&[InputEvent::InputBeatRight])).is_some());
    assert_eq!(state.input.beat, PPQ_U * 2);
    assert!(p.update(&mut state, &synth, &input(&[InputEvent::InputBeatRight])).is_some());
    assert_eq!(state.input.beat, PPQ_U / 2);
    assert!(p.update(&mut state, &synth, &input(&[InputEvent::InputBeatLeft])).is_some());
    assert_eq!(state.input.beat, PPQ_U * 2);
}

#[test]
fn arm_volume_and_mode_toggles() {
    let mut state = state_with_notes(vec![]);
    let mut p = panel();
    let synth = synth_with_program();
    p.update(&mut state, &synth, &input(&[InputEvent::Arm]));
    assert!(state.input.armed);
    p.update(&mut state, &synth, &input(&[InputEvent::ToggleInputVolume]));
    assert!(!state.input.use_volume);
    p.update(&mut state, &synth, &input(&[InputEvent::IncreaseInputVolume]));
    assert_eq!(state.input.volume.get(), 0);
    p.update(&mut state, &synth, &input(&[InputEvent::PianoRollSetView]));
    assert_eq!(state.piano_roll_mode, PianoRollMode::View);
    p.update(&mut state, &synth, &input(&[InputEvent::PianoRollToggleTracks]));
    assert!(!state.view.single_track);
}

#[test]
fn multi_track_view_selects_the_next_track() {
    let mut state = state_with_notes(vec![]);
    state.music.midi_tracks.push(MidiTrack::new(1));
    state.view.single_track = false;
    state.selection.notes = vec![0];
    let mut p = panel();
    let synth = synth_with_program();
    assert!(p.update(&mut state, &synth, &input(&[InputEvent::PianoRollNextTrack])).is_some());
    assert_eq!(state.music.selected, Some(1));
    assert!(state.selection.notes.is_empty());
    assert!(p.update(&mut state, &synth, &input(&[InputEvent::PianoRollNextTrack])).is_none());
}

#[test]
fn nothing_happens_without_a_selected_track() {
    let mut state = state_with_notes(vec![]);
    state.music.selected = None;
    let mut p = panel();
    let synth = synth_with_program();
    assert!(p.update(&mut state, &synth, &input(&[InputEvent::Arm])).is_none());
    assert!(!state.input.armed);
}
