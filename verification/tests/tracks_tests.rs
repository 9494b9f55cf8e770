use cacophony_io::index::Index;
use cacophony_io::input::{Input, InputEvent};
use cacophony_io::model::{
    InputState, MidiTrack, Music, NoteRange, PanelType, PianoRollMode, Selection, State, TimeRange, TimeState,
    ViewState, PPQ_U,
};
use cacophony_io::snapshot::{Command, IOCommand, OpenFileType};
use cacophony_io::synth::{Program, SynthState};
use cacophony_io::tracks::{free_channel, TracksPanel};
use std::collections::HashMap;

fn state(tracks: Vec<MidiTrack>, selected: Option<usize>) -> State {
    State {
        panels: vec![PanelType::Tracks],
        focus: Index::new(0, 1),
        unsaved_changes: false,
        music: Music { midi_tracks: tracks, selected },
        time: TimeState { cursor: 0, playback: 0, bpm: 120, mode: Index::new(0, 3) },
        input: InputState { beat: PPQ_U, armed: false, alphanumeric_input: false, use_volume: true, volume: Index::new(127, 128) },
        view: ViewState {
            dt: TimeRange { start: 0, end: PPQ_U * 8 },
            dn: NoteRange { top: 72, bottom: 48 },
            single_track: true,
            mode: Index::new(0, 3),
        },
        selection: Selection { notes: vec![3], effects: vec![], single: false },
        edit_mode: Index::new(0, 3),
        piano_roll_mode: PianoRollMode::Time,
        effect_types: Index::new(0, 6),
        music_panel_field: Index::new(0, 3),
    }
}

fn input(events: &[InputEvent]) -> Input {
    Input { events: events.to_vec(), new_notes: vec![], typed: vec![], backspace: false }
}

fn program() -> Program {
    Program {
        path: "a.sf2".to_string(),
        num_banks: 3,
        bank_index: 1,
        bank: 0,
        num_presets: 4,
        preset_index: 3,
        preset_name: "Piano".to_string(),
        chorus: 0,
        pan: 0,
        reverb: 0,
    }
}

fn synth() -> SynthState {
    let mut programs = HashMap::new();
    programs.insert(0u8, program());
    SynthState { programs, gain: 127 }
}

fn panel() -> TracksPanel {
    TracksPanel::new("default.sf2".to_string())
}

#[test]
fn free_channel_is_the_lowest_unused_channel() {
    assert_eq!(free_channel(&vec![]), Some(0));
    assert_eq!(free_channel(&vec![MidiTrack::new(0), MidiTrack::new(2)]), Some(1));
}

#[test]
fn add_track_takes_a_free_channel_and_loads_the_default_soundfont() {
    let mut s = state(vec![MidiTrack::new(0)], Some(0));
    let snapshot = panel().update(&mut s, &synth(), &input(&[InputEvent::AddTrack])).unwrap();
    assert_eq!(s.music.midi_tracks.len(), 2);
    assert_eq!(s.music.midi_tracks[1].channel, 1);
    assert_eq!(s.music.selected, Some(1));
    assert!(s.selection.notes.is_empty());
    match &snapshot.to_commands.as_ref().unwrap()[0] {
        Command::LoadSoundFont { channel, path } => {
            assert_eq!(*channel, 1);
            assert_eq!(path, "default.sf2");
        },
        _ => panic!("expected a command that loads a SoundFont"),
    }
    match &snapshot.from_commands.as_ref().unwrap()[0] {
        Command::UnsetProgram { channel } => assert_eq!(*channel, 1),
        _ => panic!("expected a command that unsets a program"),
    }
}

#[test]
fn remove_track_selects_the_previous_track() {
    let mut s = state(vec![MidiTrack::new(0), MidiTrack::new(1), MidiTrack::new(2)], Some(2));
    let snapshot = panel().update(&mut s, &synth(), &input(&[InputEvent::RemoveTrack])).unwrap();
    assert_eq!(s.music.midi_tracks.len(), 2);
    assert_eq!(s.music.selected, Some(1));
    assert!(snapshot.from_state.is_some());
    assert!(snapshot.to_commands.is_none());
}

#[test]
fn remove_the_only_track_selects_nothing() {
    let mut s = state(vec![MidiTrack::new(0)], Some(0));
    let snapshot = panel().update(&mut s, &synth(), &input(&[InputEvent::RemoveTrack])).unwrap();
    assert!(s.music.midi_tracks.is_empty());
    assert_eq!(s.music.selected, None);
    match &snapshot.to_commands.as_ref().unwrap()[0] {
        Command::UnsetProgram { channel } => assert_eq!(*channel, 0),
        _ => panic!("expected a command that unsets a program"),
    }
}

#[test]
fn mute_then_solo_are_exclusive() {
    let mut s = state(vec![MidiTrack::new(0)], Some(0));
    panel().update(&mut s, &synth(), &input(&[InputEvent::Solo]));
    assert!(s.music.midi_tracks[0].solo);
    panel().update(&mut s, &synth(), &input(&[InputEvent::Mute]));
    assert!(s.music.midi_tracks[0].mute);
    assert!(!s.music.midi_tracks[0].solo);
    panel().update(&mut s, &synth(), &input(&[InputEvent::Solo]));
    assert!(s.music.midi_tracks[0].solo);
    assert!(!s.music.midi_tracks[0].mute);
}

#[test]
fn gain_cycles_at_the_maximum() {
    let mut s = state(vec![MidiTrack::new(0)], Some(0));
    assert_eq!(s.music.midi_tracks[0].gain, 127);
    panel().update(&mut s, &synth(), &input(&[InputEvent::IncreaseTrackGain]));
    assert_eq!(s.music.midi_tracks[0].gain, 0);
    panel().update(&mut s, &synth(), &input(&[InputEvent::DecreaseTrackGain]));
    assert_eq!(s.music.midi_tracks[0].gain, 127);
}

#[test]
fn next_preset_wraps_and_next_bank_resets_the_preset() {
    let mut s = state(vec![MidiTrack::new(0)], Some(0));
    let snapshot = panel().update(&mut s, &synth(), &input(&[InputEvent::NextPreset])).unwrap();
    match &snapshot.to_commands.as_ref().unwrap()[0] {
        Command::SetProgram { channel, bank_index, preset_index, .. } => {
            assert_eq!((*channel, *bank_index, *preset_index), (0, 1, 0));
        },
        _ => panic!("expected a command that sets a program"),
    }
    let snapshot = panel().update(&mut s, &synth(), &input(&[InputEvent::NextBank])).unwrap();
    match &snapshot.to_commands.as_ref().unwrap()[0] {
        Command::SetProgram { bank_index, preset_index, .. } => assert_eq!((*bank_index, *preset_index), (2, 0)),
        _ => panic!("expected a command that sets a program"),
    }
}

#[test]
fn program_actions_need_a_program() {
    let mut s = state(vec![MidiTrack::new(5)], Some(0));
    assert!(panel().update(&mut s, &synth(), &input(&[InputEvent::Mute])).is_none());
    assert!(!s.music.midi_tracks[0].mute);
}

#[test]
fn enabling_the_soundfont_panel_is_a_command_for_the_io_struct() {
    let mut s = state(vec![MidiTrack::new(0)], Some(0));
    let snapshot = panel().update(&mut s, &synth(), &input(&[InputEvent::EnableSoundFontPanel])).unwrap();
    assert_eq!(snapshot.io_commands, Some(vec![IOCommand::EnableOpenFile(OpenFileType::SoundFont)]));
    assert!(snapshot.from_state.is_none());
}
