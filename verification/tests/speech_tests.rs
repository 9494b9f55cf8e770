use cacophony_io::export_settings::ExportSettingsPanel;
use cacophony_io::exporter::{ExportSetting, Exporter, Metadata, SettingsList};
use cacophony_io::index::Index;
use cacophony_io::input::{Input, InputEvent};
use cacophony_io::io::{IOEffect, IO};
use cacophony_io::links::LinksPanel;
use cacophony_io::model::{
    InputState, MidiTrack, Music, Note, NoteRange, PanelType, PianoRollMode, Selection, State, TimeRange, TimeState,
    ViewState, PPQ_U,
};
use cacophony_io::music_panel::MusicPanel;
use cacophony_io::open_file::{FileBrowser, OpenFilePanel};
use cacophony_io::piano_roll::edit_mode_deltas::EditModeDeltas;
use cacophony_io::piano_roll::panel::PianoRollPanel;
use cacophony_io::popup::QuitPanel;
use cacophony_io::speech::{Phrase, Utterance, Value};
use cacophony_io::synth::{Program, SynthState};
use cacophony_io::tracks::TracksPanel;
use std::collections::HashMap;

fn state() -> State {
    let mut track = MidiTrack::new(3);
    track.notes = vec![Note { note: 60, velocity: 100, start: 0, end: PPQ_U }, Note { note: 64, velocity: 100, start: PPQ_U, end: PPQ_U * 3 }];
    State {
        panels: vec![PanelType::Music, PanelType::Tracks, PanelType::PianoRoll],
        focus: Index::new(1, 3),
        unsaved_changes: false,
        music: Music { midi_tracks: vec![track], selected: Some(0) },
        time: TimeState { cursor: 0, playback: 0, bpm: 120, mode: Index::new(0, 3) },
        input: InputState { beat: PPQ_U, armed: false, alphanumeric_input: false, use_volume: true, volume: Index::new(127, 128) },
        view: ViewState {
            dt: TimeRange { start: 0, end: PPQ_U * 8 },
            dn: NoteRange { top: 72, bottom: 48 },
            single_track: true,
            mode: Index::new(0, 3),
        },
        selection: Selection { notes: vec![], effects: vec![], single: false },
        edit_mode: Index::new(0, 3),
        piano_roll_mode: PianoRollMode::Time,
        effect_types: Index::new(0, 6),
        music_panel_field: Index::new(0, 3),
    }
}

fn input(events: &[InputEvent]) -> Input {
    Input { events: events.to_vec(), new_notes: vec![], typed: vec![], backspace: false }
}

fn exporter() -> Exporter {
    Exporter {
        framerate: 44100,
        copyright: false,
        multi_file: false,
        metadata: Metadata {
            title: "My Music".to_string(),
            artist: None,
            album: None,
            genre: None,
            comment: None,
            track_number: Some(4),
        },
        export_type: Index::new(0, 5),
        mp3_bit_rate: Index::new(0, 4),
        mp3_quality: Index::new(0, 10),
        ogg_quality: Index::new(0, 10),
        multi_file_suffix: Index::new(0, 3),
        mid_settings: SettingsList::new(vec![ExportSetting::Title]),
        mp3_settings: SettingsList::new(vec![ExportSetting::Title]),
        ogg_settings: SettingsList::new(vec![ExportSetting::Title]),
        flac_settings: SettingsList::new(vec![ExportSetting::Title]),
        wav_settings: SettingsList::new(vec![ExportSetting::Artist, ExportSetting::TrackNumber]),
    }
}

fn synth() -> SynthState {
    let mut programs = HashMap::new();
    programs.insert(
        3u8,
        Program {
            path: "/sf/piano.sf2".to_string(),
            num_banks: 1,
            bank_index: 0,
            bank: 8,
            num_presets: 1,
            preset_index: 0,
            preset_name: "Grand".to_string(),
            chorus: 0,
            pan: 0,
            reverb: 0,
        },
    );
    SynthState { programs, gain: 100 }
}

fn browser() -> FileBrowser {
    FileBrowser {
        filename: None,
        selected: Some(0),
        selected_is_file: true,
        selected_path: "/saves/song.cac".to_string(),
        saves_filename: None,
        exports_filename: None,
        directory: "saves".to_string(),
        parent: None,
        num_paths: 1,
        selected_name: "song".to_string(),
    }
}

fn key(p: &Phrase) -> &str {
    match p {
        Phrase::Text { key, .. } => key,
        Phrase::Tooltip { key, .. } => key,
    }
}

fn keys(s: &[Utterance]) -> Vec<Vec<&str>> {
    s.iter().map(|u| u.phrases.iter().map(key).collect()).collect()
}

#[test]
fn music_status_names_the_title_tempo_and_gain() {
    let s = MusicPanel::new().speech(&state(), &exporter(), &synth(), &input(&[InputEvent::StatusTTS]));
    assert_eq!(keys(&s), vec![vec!["MUSIC_PANEL_STATUS_TTS"]]);
    match &s[0].phrases[0] {
        Phrase::Text { values, .. } => {
            assert!(matches!(&values[0], Value::Str(t) if t == "My Music"));
            assert!(matches!(values[1], Value::Int(120)));
            assert!(matches!(values[2], Value::Int(100)));
        },
        _ => panic!("expected a text"),
    }
    assert!(MusicPanel::new().speech(&state(), &exporter(), &synth(), &input(&[InputEvent::NextMusicPanelField, InputEvent::StatusTTS])).is_empty());
}

#[test]
fn music_input_of_the_name_field() {
    let s = MusicPanel::new().speech(&state(), &exporter(), &synth(), &input(&[InputEvent::InputTTS]));
    assert_eq!(keys(&s), vec![vec!["MUSIC_PANEL_INPUT_TTS_NAME_NO_ABC123"], vec!["MUSIC_PANEL_INPUT_TTS"]]);
    let mut typing = state();
    typing.input.alphanumeric_input = true;
    let s = MusicPanel::new().speech(&typing, &exporter(), &synth(), &input(&[InputEvent::InputTTS]));
    assert_eq!(keys(&s), vec![vec!["MUSIC_PANEL_INPUT_TTS_NAME_ABC123"]]);
}

#[test]
fn tracks_status_joins_the_track_and_its_soundfont() {
    let mut st = state();
    st.music.midi_tracks[0].mute = true;
    let s = TracksPanel::new("d.sf2".to_string()).speech(&st, &synth(), &input(&[InputEvent::StatusTTS]));
    assert_eq!(
        keys(&s),
        vec![vec!["TRACKS_PANEL_STATUS_TTS_PREFIX", "TRACKS_PANEL_STATUS_TTS_SOUNDFONT", "TRACKS_PANEL_STATUS_TTS_MUTED"]]
    );
    match &s[0].phrases[1] {
        Phrase::Text { values, .. } => {
            assert!(matches!(&values[0], Value::Str(n) if n == "Grand"));
            assert!(matches!(values[1], Value::Int(8)));
            assert!(matches!(&values[3], Value::FileName(p) if p == "/sf/piano.sf2"));
        },
        _ => panic!("expected a text"),
    }
    let s = TracksPanel::new("d.sf2".to_string()).speech(&st, &synth(), &input(&[InputEvent::InputTTS]));
    assert_eq!(s.len(), 9);
    assert_eq!(key(&s[7].phrases[0]), "TRACKS_PANEL_INPUT_TTS_UNMUTE");
}

#[test]
fn quit_and_links_input() {
    assert_eq!(keys(&QuitPanel::new().speech(&input(&[InputEvent::InputTTS]))), vec![vec!["QUIT_PANEL_INPUT_TTS"]]);
    assert!(QuitPanel::new().speech(&input(&[InputEvent::InputTTS, InputEvent::QuitPanelYes])).is_empty());
    assert_eq!(LinksPanel::new().speech(&input(&[InputEvent::InputTTS])).len(), 5);
}

#[test]
fn export_settings_status_of_an_absent_artist_and_a_track_number() {
    let p = ExportSettingsPanel::new();
    let mut ex = exporter();
    let s = p.speech(&ex, false, &input(&[InputEvent::StatusTTS]));
    match &s[0].phrases[0] {
        Phrase::Tooltip { key, events, values } => {
            assert_eq!(key, "EXPORT_SETTINGS_PANEL_STATUS_TTS_ARTIST_NO_ABC123");
            assert_eq!(events, &vec![InputEvent::ToggleAlphanumericInput]);
            assert!(matches!(&values[0], Value::Key(k) if k == "NONE"));
        },
        _ => panic!("expected a tooltip"),
    }
    ex.wav_settings.index.increment(true);
    let s = p.speech(&ex, false, &input(&[InputEvent::StatusTTS]));
    match &s[0].phrases[0] {
        Phrase::Text { key, values } => {
            assert_eq!(key, "EXPORT_SETTINGS_PANEL_STATUS_TTS_TRACK_NUMBER");
            assert!(matches!(values[0], Value::Int(4)));
        },
        _ => panic!("expected a text"),
    }
    let s = p.speech(&ex, false, &input(&[InputEvent::InputTTS]));
    assert_eq!(keys(&s), vec![vec!["EXPORT_SETTINGS_PANEL_INPUT_TTS_TRACK_NUMBER"], vec!["EXPORT_SETTINGS_PANEL_INPUT_TTS_SCROLL"]]);
}

#[test]
fn open_file_status_and_input() {
    let mut p = OpenFilePanel::new();
    let mut st = state();
    p.read_save(&mut st);
    let s = p.speech(&exporter(), &browser(), &input(&[InputEvent::StatusTTS]));
    assert_eq!(keys(&s), vec![vec!["OPEN_FILE_PANEL_STATUS_TTS_CWD", "OPEN_FILE_PANEL_STATUS_TTS_SELECTION"]]);
    let s = p.speech(&exporter(), &browser(), &input(&[InputEvent::InputTTS]));
    assert_eq!(keys(&s), vec![vec!["OPEN_FILE_PANEL_INPUT_TTS_READ_SAVE"], vec!["OPEN_FILE_PANEL_INPUT_TTS_CLOSE"]]);
}

#[test]
fn piano_roll_status_in_time_mode() {
    let deltas = EditModeDeltas::new(2, PPQ_U / 32, 1, 11, 1, 1, 2, 1);
    let p = PianoRollPanel::new(PPQ_U, vec![PPQ_U], deltas, PPQ_U * 8);
    let s = p.speech(&state(), &synth(), &input(&[InputEvent::StatusTTS]));
    assert_eq!(
        keys(&s),
        vec![
            vec!["PIANO_ROLL_PANEL_STATUS_TTS_PIANO_ROLL_MODE"],
            vec!["PIANO_ROLL_PANEL_STATUS_TTS_NOT_ARMED"],
            vec!["PIANO_ROLL_PANEL_STATUS_TTS_SINGLE_TRACK"],
            vec!["PIANO_ROLL_PANEL_STATUS_TTS_EDIT_MODE"],
            vec!["PIANO_ROLL_PANEL_STATUS_TTS_TIME"],
        ]
    );
    let no_program = SynthState { programs: HashMap::new(), gain: 100 };
    assert_eq!(keys(&p.speech(&state(), &no_program, &input(&[InputEvent::InputTTS]))), vec![vec!["PIANO_ROLL_PANEL_TTS_NO_TRACK"]]);
}

#[test]
fn piano_roll_select_status_of_many_notes() {
    let deltas = EditModeDeltas::new(2, PPQ_U / 32, 1, 11, 1, 1, 2, 1);
    let p = PianoRollPanel::new(PPQ_U, vec![PPQ_U], deltas, PPQ_U * 8);
    let mut st = state();
    st.piano_roll_mode = PianoRollMode::Select;
    st.selection.notes = vec![0, 1];
    let s = p.speech(&st, &synth(), &input(&[InputEvent::StatusTTS]));
    match &s[3].phrases[0] {
        Phrase::Text { key, values } => {
            assert_eq!(key, "PIANO_ROLL_PANEL_STATUS_TTS_SELECTED_MANY");
            assert!(matches!(values[0], Value::Ppq(0)));
            assert!(matches!(values[1], Value::Ppq(t) if t == PPQ_U * 3));
        },
        _ => panic!("expected a text"),
    }
}

#[test]
fn app_speech_stops_what_was_said_first() {
    let mut io = IO::new(
        PPQ_U,
        vec![PPQ_U],
        EditModeDeltas::new(2, PPQ_U / 32, 1, 11, 1, 1, 2, 1),
        PPQ_U * 8,
        "d.sf2".to_string(),
    );
    let mut st = state();
    let mut ex = exporter();
    let (_, effects) = io.update(&mut st, &synth(), &mut ex, &browser(), &input(&[InputEvent::AppTTS]), false, false);
    let i = effects.iter().position(|e| matches!(e, IOEffect::StopSpeech)).unwrap();
    match &effects[i + 1] {
        IOEffect::Speak(s) => assert_eq!(s.len(), 7),
        _ => panic!("expected the app's speech"),
    }
    let (_, effects) = io.update(&mut st, &synth(), &mut ex, &browser(), &input(&[InputEvent::StatusTTS]), false, false);
    let stop = effects.iter().position(|e| matches!(e, IOEffect::StopSpeech)).unwrap();
    let speak = effects.iter().position(|e| matches!(e, IOEffect::Speak(_))).unwrap();
    assert!(stop < speak);
}

#[test]
fn asking_for_speech_changes_nothing() {
    let mut io = IO::new(
        PPQ_U,
        vec![PPQ_U],
        EditModeDeltas::new(2, PPQ_U / 32, 1, 11, 1, 1, 2, 1),
        PPQ_U * 8,
        "d.sf2".to_string(),
    );
    let mut st = state();
    st.focus = Index::new(2, 3);
    let mut ex = exporter();
    let (quit, _) = io.update(&mut st, &synth(), &mut ex, &browser(), &input(&[InputEvent::InputTTS]), false, false);
    assert!(!quit);
    assert_eq!(st.focus.get(), 2);
    assert_eq!(st.music.midi_tracks[0].notes.len(), 2);
    assert!(!st.unsaved_changes);
    assert!(io.history.undo.is_empty());
    assert_eq!(ex.metadata.title, "My Music");
}
