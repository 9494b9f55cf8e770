use cacophony_io::exporter::{ExportSetting, Exporter, Metadata, SettingsList};
use cacophony_io::index::Index;
use cacophony_io::input::{Input, InputEvent};
use cacophony_io::io::{IOEffect, IO};
use cacophony_io::model::{
    InputState, MidiTrack, Music, NoteRange, PanelType, PianoRollMode, Selection, State, TimeRange, TimeState,
    ViewState, PPQ_U,
};
use cacophony_io::open_file::{Extension, FileBrowser, Folder, Listing};
use cacophony_io::piano_roll::edit_mode_deltas::EditModeDeltas;
use cacophony_io::snapshot::Command;
use cacophony_io::synth::{Program, SynthState};
use std::collections::HashMap;

fn state() -> State {
    State {
        panels: vec![PanelType::Music, PanelType::Tracks, PanelType::PianoRoll],
        focus: Index::new(1, 3),
        unsaved_changes: false,
        music: Music { midi_tracks: vec![MidiTrack::new(0)], selected: Some(0) },
        time: TimeState { cursor: 0, playback: 0, bpm: 120, mode: Index::new(0, 3) },
        input: InputState { beat: PPQ_U, armed: false, alphanumeric_input: false, use_volume: true, volume: Index::new(127, 128) },
        view: ViewState {
            dt: TimeRange { start: 0, end: PPQ_U * 8 },
            dn: NoteRange { top: 72, bottom: 48 },
            single_track: true,
            mode: Index::new(0, 3),
        },
        selection: Selection { notes: vec![], effects: vec![], single: false },
        edit_mode: Index::new(0, 3),
        piano_roll_mode: PianoRollMode::Time,
        effect_types: Index::new(0, 6),
        music_panel_field: Index::new(0, 3),
    }
}

fn input(events: &[InputEvent]) -> Input {
    Input { events: events.to_vec(), new_notes: vec![], typed: vec![], backspace: false }
}

fn exporter() -> Exporter {
    Exporter {
        framerate: 44100,
        copyright: false,
        multi_file: false,
        metadata: Metadata {
            title: "My Music".to_string(),
            artist: None,
            album: None,
            genre: None,
            comment: None,
            track_number: None,
        },
        export_type: Index::new(0, 5),
        mp3_bit_rate: Index::new(0, 4),
        mp3_quality: Index::new(0, 10),
        ogg_quality: Index::new(0, 10),
        multi_file_suffix: Index::new(0, 3),
        mid_settings: SettingsList::new(vec![ExportSetting::Title, ExportSetting::Artist, ExportSetting::Copyright]),
        mp3_settings: SettingsList::new(vec![ExportSetting::Framerate, ExportSetting::Mp3Quality, ExportSetting::Title]),
        ogg_settings: SettingsList::new(vec![ExportSetting::Framerate, ExportSetting::OggQuality, ExportSetting::Title]),
        flac_settings: SettingsList::new(vec![ExportSetting::Framerate, ExportSetting::Title]),
        wav_settings: SettingsList::new(vec![ExportSetting::Framerate, ExportSetting::Title]),
    }
}

fn synth() -> SynthState {
    let mut programs = HashMap::new();
    programs.insert(
        0u8,
        Program {
            path: "a.sf2".to_string(),
            num_banks: 1,
            bank_index: 0,
            bank: 0,
            num_presets: 1,
            preset_index: 0,
            preset_name: "Piano".to_string(),
            chorus: 0,
            pan: 0,
            reverb: 0,
        },
    );
    SynthState { programs, gain: 127 }
}

fn browser() -> FileBrowser {
    FileBrowser {
        filename: None,
        selected: None,
        selected_is_file: false,
        selected_path: String::new(),
        saves_filename: None,
        exports_filename: None,
        directory: "music".to_string(),
        parent: Some("home".to_string()),
        num_paths: 2,
        selected_name: "x".to_string(),
    }
}

fn io() -> IO {
    IO::new(
        PPQ_U,
        vec![PPQ_U / 2, PPQ_U, PPQ_U * 2],
        EditModeDeltas::new(2, PPQ_U / 32, 1, 11, 1, 1, 2, 1),
        PPQ_U * 8,
        "default.sf2".to_string(),
    )
}

fn update(io: &mut IO, s: &mut State, ex: &mut Exporter, events: &[InputEvent], has_save_path: bool) -> (bool, Vec<IOEffect>) {
    io.update(s, &synth(), ex, &browser(), &input(events), false, has_save_path)
}

#[test]
fn quit_without_unsaved_changes_quits() {
    let (mut io, mut s, mut ex) = (io(), state(), exporter());
    let (quit, effects) = update(&mut io, &mut s, &mut ex, &[InputEvent::Quit], false);
    assert!(quit);
    assert!(effects.is_empty());
}

#[test]
fn quit_with_unsaved_changes_asks_first() {
    let (mut io, mut s, mut ex) = (io(), state(), exporter());
    s.unsaved_changes = true;
    let (quit, _) = update(&mut io, &mut s, &mut ex, &[InputEvent::Quit], false);
    assert!(!quit);
    assert_eq!(s.panels, vec![PanelType::Quit]);
    let (quit, _) = update(&mut io, &mut s, &mut ex, &[InputEvent::QuitPanelNo], false);
    assert!(!quit);
    assert_eq!(s.panels.len(), 3);
    assert_eq!(s.focus.get(), 1);
    update(&mut io, &mut s, &mut ex, &[InputEvent::Quit], false);
    let (quit, _) = update(&mut io, &mut s, &mut ex, &[InputEvent::QuitPanelYes], false);
    assert!(quit);
}

#[test]
fn nothing_changes_while_exporting() {
    let (mut io, mut s, mut ex) = (io(), state(), exporter());
    let (quit, effects) = io.update(&mut s, &synth(), &mut ex, &browser(), &input(&[InputEvent::NextPanel]), true, false);
    assert!(!quit);
    assert!(effects.is_empty());
    assert_eq!(s.focus.get(), 1);
    assert!(io.history.undo.is_empty());
}

#[test]
fn next_panel_moves_the_focus_and_can_be_undone() {
    let (mut io, mut s, mut ex) = (io(), state(), exporter());
    update(&mut io, &mut s, &mut ex, &[InputEvent::NextPanel], false);
    assert_eq!(s.focus.get(), 2);
    assert!(s.unsaved_changes);
    assert_eq!(io.history.undo.len(), 1);
    update(&mut io, &mut s, &mut ex, &[InputEvent::PreviousPanel], false);
    update(&mut io, &mut s, &mut ex, &[InputEvent::PreviousPanel], false);
    assert_eq!(s.focus.get(), 0);
    update(&mut io, &mut s, &mut ex, &[InputEvent::Undo], false);
    assert_eq!(s.focus.get(), 1);
    update(&mut io, &mut s, &mut ex, &[InputEvent::Redo], false);
    assert_eq!(s.focus.get(), 0);
}

#[test]
fn cycling_panels_keeps_the_undo_stack_bounded() {
    let (mut io, mut s, mut ex) = (io(), state(), exporter());
    for _ in 0..105 {
        update(&mut io, &mut s, &mut ex, &[InputEvent::NextPanel], false);
    }
    assert_eq!(io.history.undo.len(), cacophony_io::history::MAX_UNDOS);
    update(&mut io, &mut s, &mut ex, &[InputEvent::Undo], false);
    assert_eq!(io.history.undo.len(), cacophony_io::history::MAX_UNDOS - 1);
    assert_eq!(io.history.redo.len(), 1);
    update(&mut io, &mut s, &mut ex, &[InputEvent::PreviousPanel], false);
    assert_eq!(io.history.undo.len(), cacophony_io::history::MAX_UNDOS);
    assert!(io.history.redo.is_empty());
}

#[test]
fn adding_a_track_sends_commands_and_undo_reverts_them() {
    let (mut io, mut s, mut ex) = (io(), state(), exporter());
    let (_, effects) = update(&mut io, &mut s, &mut ex, &[InputEvent::AddTrack], false);
    assert_eq!(s.music.midi_tracks.len(), 2);
    assert!(s.unsaved_changes);
    match &effects[..] {
        [IOEffect::StopNotes, IOEffect::Commands(c)] => match &c[0] {
            Command::LoadSoundFont { channel, path } => {
                assert_eq!(*channel, 1);
                assert_eq!(path, "default.sf2");
            },
            _ => panic!("expected a command that loads a SoundFont"),
        },
        _ => panic!("expected the commands of the new track"),
    }
    s.unsaved_changes = false;
    let (_, effects) = update(&mut io, &mut s, &mut ex, &[InputEvent::Undo], false);
    assert_eq!(s.music.midi_tracks.len(), 1);
    assert!(s.unsaved_changes);
    assert_eq!(io.history.redo.len(), 1);
    match effects.last() {
        Some(IOEffect::Commands(c)) => assert!(matches!(c[0], Command::UnsetProgram { channel: 1 })),
        _ => panic!("expected the commands that revert the synthesizer"),
    }
}

#[test]
fn open_and_save_list_the_right_files() {
    let (mut io, mut s, mut ex) = (io(), state(), exporter());
    let (_, effects) = update(&mut io, &mut s, &mut ex, &[InputEvent::OpenFile], false);
    assert!(effects.iter().any(|e| matches!(e, IOEffect::List(l) if *l == Listing { folder: Folder::Saves, extension: Extension::Cac })));
    assert_eq!(s.panels, vec![PanelType::OpenFile]);

    let (mut io, mut s, mut ex) = (self::io(), state(), exporter());
    let (_, effects) = update(&mut io, &mut s, &mut ex, &[InputEvent::SaveFile], false);
    assert!(effects.iter().any(|e| matches!(e, IOEffect::List(l) if *l == Listing { folder: Folder::Midis, extension: Extension::Cac })));

    let (mut io, mut s, mut ex) = (self::io(), state(), exporter());
    s.unsaved_changes = true;
    let (_, effects) = update(&mut io, &mut s, &mut ex, &[InputEvent::SaveFile], true);
    assert!(effects.iter().any(|e| matches!(e, IOEffect::Save)));
    assert!(!s.unsaved_changes);
}

#[test]
fn new_file_clears_the_music() {
    let (mut io, mut s, mut ex) = (io(), state(), exporter());
    let (_, effects) = update(&mut io, &mut s, &mut ex, &[InputEvent::NewFile], false);
    assert!(s.music.midi_tracks.is_empty());
    assert_eq!(s.music.selected, None);
    assert!(effects.iter().any(|e| matches!(e, IOEffect::NewFile)));
}

#[test]
fn links_panel_is_shown_alone() {
    let (mut io, mut s, mut ex) = (io(), state(), exporter());
    update(&mut io, &mut s, &mut ex, &[InputEvent::EnableLinksPanel], false);
    assert_eq!(s.panels, vec![PanelType::Links]);
    let (_, effects) = update(&mut io, &mut s, &mut ex, &[], false);
    assert!(effects.iter().any(|e| matches!(e, IOEffect::OpenLinks)));
}

#[test]
fn play_stop_in_a_music_panel() {
    let (mut io, mut s, mut ex) = (io(), state(), exporter());
    let (_, effects) = update(&mut io, &mut s, &mut ex, &[InputEvent::PlayStop], false);
    assert!(matches!(effects.last(), Some(IOEffect::PlayStop)));
}

#[test]
fn the_undo_stack_keeps_the_latest_hundred_changes() {
    use_history();
}

fn use_history() {
    let mut h = cacophony_io::history::History::new();
    let mut s = state();
    for i in 0..101u64 {
        let from = s.duplicate();
        s.time.cursor = i + 1;
        h.push_undo(cacophony_io::snapshot::Snapshot::from_states(from, &s));
    }
    assert_eq!(h.undo.len(), cacophony_io::history::MAX_UNDOS);
    let c = h.undo(&mut s);
    assert!(c.is_none());
    assert_eq!(s.time.cursor, 100);
    assert!(s.unsaved_changes);
    assert_eq!(h.redo.len(), 1);
    h.redo(&mut s);
    assert_eq!(s.time.cursor, 101);
    for _ in 0..100 {
        h.undo(&mut s);
    }
    assert_eq!(s.time.cursor, 1);
    assert!(h.undo(&mut s).is_none());
    assert_eq!(s.time.cursor, 1);
}
