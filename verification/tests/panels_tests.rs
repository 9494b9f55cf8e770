use cacophony_io::abc123::{edit_number, edit_text, on_disable_state, MetadataField, update_exporter};
use cacophony_io::effects::EffectsPanel;
use cacophony_io::export_settings::{ExportSettingsPanel, Mid};
use cacophony_io::exporter::{ExportSetting, Exporter, Metadata, SettingsList};
use cacophony_io::index::Index;
use cacophony_io::input::{Input, InputEvent};
use cacophony_io::links::LinksPanel;
use cacophony_io::model::{
    Effect, EffectType, InputState, MidiTrack, Music, NoteRange, PanelType, PianoRollMode, Selection, State,
    TimeRange, TimeState, ViewState, DEFAULT_BPM, PPQ_U,
};
use cacophony_io::music_panel::MusicPanel;
use cacophony_io::open_file::{Extension, FileBrowser, Folder, Listing, OpenFileAction, OpenFilePanel};
use cacophony_io::popup::{ExportPanel, Popup, QuitPanel};
use cacophony_io::snapshot::{Command, IOCommand};
use cacophony_io::synth::{Program, SynthState};
use cacophony_io::text::{get_no_selection_status_tts, Text};
use std::collections::HashMap;

fn state() -> State {
    State {
        panels: vec![PanelType::Music, PanelType::Tracks, PanelType::PianoRoll],
        focus: Index::new(1, 3),
        unsaved_changes: false,
        music: Music { midi_tracks: vec![MidiTrack::new(0)], selected: Some(0) },
        time: TimeState { cursor: 0, playback: 0, bpm: 120, mode: Index::new(0, 3) },
        input: InputState { beat: PPQ_U, armed: false, alphanumeric_input: false, use_volume: true, volume: Index::new(127, 128) },
        view: ViewState {
            dt: TimeRange { start: 0, end: PPQ_U * 8 },
            dn: NoteRange { top: 72, bottom: 48 },
            single_track: true,
            mode: Index::new(0, 3),
        },
        selection: Selection { notes: vec![], effects: vec![], single: false },
        edit_mode: Index::new(0, 3),
        piano_roll_mode: PianoRollMode::Time,
        effect_types: Index::new(0, 6),
        music_panel_field: Index::new(0, 3),
    }
}

fn input(events: &[InputEvent]) -> Input {
    Input { events: events.to_vec(), new_notes: vec![], typed: vec![], backspace: false }
}

fn typed(text: &str) -> Input {
    Input { events: vec![], new_notes: vec![], typed: text.chars().collect(), backspace: false }
}

fn backspace() -> Input {
    Input { events: vec![], new_notes: vec![], typed: vec![], backspace: true }
}

fn settings(values: Vec<ExportSetting>) -> SettingsList {
    SettingsList::new(values)
}

fn exporter() -> Exporter {
    Exporter {
        framerate: 44100,
        copyright: false,
        multi_file: false,
        metadata: Metadata {
            title: "My Music".to_string(),
            artist: None,
            album: None,
            genre: None,
            comment: None,
            track_number: None,
        },
        export_type: Index::new(0, 5),
        mp3_bit_rate: Index::new(0, 4),
        mp3_quality: Index::new(0, 10),
        ogg_quality: Index::new(0, 10),
        multi_file_suffix: Index::new(0, 3),
        mid_settings: settings(vec![ExportSetting::Title, ExportSetting::Artist, ExportSetting::Copyright]),
        mp3_settings: settings(vec![ExportSetting::Framerate, ExportSetting::Mp3BitRate, ExportSetting::Mp3Quality, ExportSetting::Title]),
        ogg_settings: settings(vec![ExportSetting::Framerate, ExportSetting::OggQuality, ExportSetting::Title]),
        flac_settings: settings(vec![ExportSetting::Framerate, ExportSetting::Title]),
        wav_settings: settings(vec![ExportSetting::Framerate, ExportSetting::TrackNumber, ExportSetting::Title, ExportSetting::Artist, ExportSetting::MultiFile, ExportSetting::MultiFileSuffix]),
    }
}

fn synth() -> SynthState {
    let mut programs = HashMap::new();
    programs.insert(
        0u8,
        Program {
            path: "a.sf2".to_string(),
            num_banks: 1,
            bank_index: 0,
            bank: 0,
            num_presets: 1,
            preset_index: 0,
            preset_name: "Piano".to_string(),
            chorus: 7,
            pan: -3,
            reverb: 9,
        },
    );
    SynthState { programs, gain: 127 }
}

#[test]
fn typing_then_deleting_a_character_gives_back_the_text() {
    let mut s = "abc".to_string();
    assert!(edit_text(&mut s, &typed("d")));
    assert_eq!(s, "abcd");
    assert!(edit_text(&mut s, &backspace()));
    assert_eq!(s, "abc");
    let mut e = String::new();
    assert!(!edit_text(&mut e, &backspace()));
    assert!(!edit_text(&mut e, &input(&[])));
}

#[test]
fn typing_digits_into_a_number() {
    let mut v: u64 = 12;
    assert!(edit_number(&mut v, &typed("3x4")));
    assert_eq!(v, 1234);
    assert!(edit_number(&mut v, &backspace()));
    assert_eq!(v, 123);
    let mut z: u64 = 0;
    assert!(!edit_number(&mut z, &backspace()));
}

#[test]
fn on_disable_replaces_invalid_values() {
    let mut bpm: u64 = 0;
    on_disable_state(&mut bpm, DEFAULT_BPM);
    assert_eq!(bpm, 120);
    let mut bpm: u64 = 90;
    on_disable_state(&mut bpm, DEFAULT_BPM);
    assert_eq!(bpm, 90);
    let mut title = String::new();
    on_disable_state(&mut title, "x".to_string());
    assert_eq!(title, "x");
}

#[test]
fn typing_into_an_absent_artist() {
    let mut ex = exporter();
    assert!(update_exporter(MetadataField::Artist, &typed("Bo"), &mut ex));
    assert_eq!(ex.metadata.artist, Some("Bo".to_string()));
    assert!(update_exporter(MetadataField::Artist, &backspace(), &mut ex));
    assert!(update_exporter(MetadataField::Artist, &backspace(), &mut ex));
    assert_eq!(ex.metadata.artist, None);
}

#[test]
fn music_panel_cycles_fields_and_steps_the_gain() {
    let mut s = state();
    let p = MusicPanel::new();
    assert!(p.update(&mut s, &synth(), &input(&[InputEvent::PreviousMusicPanelField])).is_some());
    assert_eq!(s.music_panel_field.get(), 2);
    let snapshot = p.update(&mut s, &synth(), &input(&[InputEvent::IncreaseMusicGain])).unwrap();
    match &snapshot.to_commands.as_ref().unwrap()[0] {
        Command::SetGain { gain } => assert_eq!(*gain, 0),
        _ => panic!("expected a command that sets the gain"),
    }
    match &snapshot.from_commands.as_ref().unwrap()[0] {
        Command::SetGain { gain } => assert_eq!(*gain, 127),
        _ => panic!("expected a command that sets the gain"),
    }
    assert!(!p.allow_alphanumeric_input(&s));
}

#[test]
fn music_panel_types_the_tempo_and_restores_a_zero_tempo() {
    let mut s = state();
    s.music_panel_field = Index::new(1, 3);
    let mut ex = exporter();
    let p = MusicPanel::new();
    let (snapshot, updated) = p.update_abc123(&mut s, &mut ex, &backspace());
    assert!(updated);
    assert!(snapshot.is_some());
    assert_eq!(s.time.bpm, 12);
    p.update_abc123(&mut s, &mut ex, &backspace());
    p.update_abc123(&mut s, &mut ex, &backspace());
    assert_eq!(s.time.bpm, 0);
    p.on_disable_abc123(&mut s, &mut ex);
    assert_eq!(s.time.bpm, DEFAULT_BPM);
}

#[test]
fn music_panel_restores_an_empty_title() {
    let mut s = state();
    let mut ex = exporter();
    ex.metadata.title = String::new();
    let p = MusicPanel::new();
    p.on_disable_abc123(&mut s, &mut ex);
    assert_eq!(ex.metadata.title, "My Music");
}

#[test]
fn export_settings_cycle_the_framerate() {
    let mut ex = exporter();
    ex.export_type = Index::new(2, 5);
    let p = ExportSettingsPanel::new();
    assert!(p.update(&mut ex, &input(&[InputEvent::NextExportSettingValue])).is_none());
    assert_eq!(ex.framerate, 48000);
    p.update(&mut ex, &input(&[InputEvent::NextExportSettingValue]));
    assert_eq!(ex.framerate, 22050);
    p.update(&mut ex, &input(&[InputEvent::PreviousExportSettingValue]));
    assert_eq!(ex.framerate, 48000);
}

#[test]
fn export_settings_step_the_track_number() {
    let mut ex = exporter();
    let p = ExportSettingsPanel::new();
    p.update(&mut ex, &input(&[InputEvent::NextExportSetting]));
    assert_eq!(ex.current_setting(), ExportSetting::TrackNumber);
    p.update(&mut ex, &input(&[InputEvent::NextExportSettingValue]));
    assert_eq!(ex.metadata.track_number, Some(0));
    p.update(&mut ex, &input(&[InputEvent::NextExportSettingValue]));
    assert_eq!(ex.metadata.track_number, Some(1));
    p.update(&mut ex, &input(&[InputEvent::PreviousExportSettingValue]));
    p.update(&mut ex, &input(&[InputEvent::PreviousExportSettingValue]));
    assert_eq!(ex.metadata.track_number, None);
}

#[test]
fn export_settings_close_the_panel() {
    let mut ex = exporter();
    let snapshot = ExportSettingsPanel::new().update(&mut ex, &input(&[InputEvent::CloseOpenFile])).unwrap();
    assert_eq!(snapshot.io_commands, Some(vec![IOCommand::CloseOpenFile]));
}

#[test]
fn export_settings_allow_typing_in_text_fields() {
    let mut ex = exporter();
    let p = ExportSettingsPanel::new();
    assert!(!p.allow_alphanumeric_input(&ex));
    p.update(&mut ex, &input(&[InputEvent::PreviousExportSetting]));
    assert_eq!(ex.current_setting(), ExportSetting::MultiFileSuffix);
    p.update(&mut ex, &input(&[InputEvent::PreviousExportSetting]));
    p.update(&mut ex, &input(&[InputEvent::PreviousExportSetting]));
    assert_eq!(ex.current_setting(), ExportSetting::Artist);
    assert!(p.allow_alphanumeric_input(&ex));
    assert!(p.update_abc123(&mut ex, &typed("Al")));
    assert_eq!(ex.metadata.artist, Some("Al".to_string()));
}

#[test]
fn mid_settings_toggle_the_copyright() {
    let mut ex = exporter();
    let mut mid = Mid::default();
    assert_eq!(mid.field, Index::new(0, 3));
    assert!(!mid.update(&mut ex, &input(&[InputEvent::PreviousExportSetting])));
    assert_eq!(mid.field.get(), 2);
    assert!(mid.update(&mut ex, &input(&[InputEvent::ToggleExportSettingBoolean])));
    assert!(ex.copyright);
    mid.update(&mut ex, &input(&[InputEvent::NextExportSetting]));
    assert!(mid.update(&mut ex, &typed("!")));
    assert_eq!(ex.metadata.title, "My Music!");
}

#[test]
fn effects_panel_adds_an_effect_with_the_program_default() {
    let mut s = state();
    s.effect_types = Index::new(1, 6);
    let p = EffectsPanel::new(4);
    assert!(p.update(&mut s, &synth(), &input(&[InputEvent::IncrementEffectValue])).is_some());
    assert_eq!(s.music.midi_tracks[0].effects, vec![Effect { time: 0, effect: EffectType::Pan(-3) }]);
    assert!(p.update(&mut s, &synth(), &input(&[InputEvent::IncrementEffectValue])).is_some());
    assert_eq!(s.music.midi_tracks[0].effects[0].effect, EffectType::Pan(-2));
}

#[test]
fn effects_panel_new_effect_takes_the_latest_of_its_kind() {
    let mut s = state();
    s.time.cursor = 10;
    s.music.midi_tracks[0].effects = vec![
        Effect { time: 5, effect: EffectType::Chorus(40) },
        Effect { time: 2, effect: EffectType::Chorus(90) },
    ];
    let p = EffectsPanel::new(4);
    assert!(p.update(&mut s, &synth(), &input(&[InputEvent::DecrementEffectValue])).is_some());
    assert_eq!(s.music.midi_tracks[0].effects[2], Effect { time: 10, effect: EffectType::Chorus(40) });
}

#[test]
fn pitch_bend_steps_by_the_sensitivity() {
    let mut s = state();
    s.effect_types = Index::new(3, 6);
    s.music.midi_tracks[0].effects = vec![Effect { time: 0, effect: EffectType::PitchBend(100) }];
    let p = EffectsPanel::new(4);
    assert!(p.update(&mut s, &synth(), &input(&[InputEvent::IncrementEffectValue])).is_none());
    assert_eq!(s.music.midi_tracks[0].effects[0].effect, EffectType::PitchBend(104));
    s.music.midi_tracks[0].effects = vec![Effect { time: 0, effect: EffectType::PitchBend(2) }];
    assert!(p.update(&mut s, &synth(), &input(&[InputEvent::DecrementEffectValue])).is_some());
    assert_eq!(s.music.midi_tracks[0].effects[0].effect, EffectType::PitchBend(0));
}

#[test]
fn aftertouch_key_steps_within_the_note_range() {
    let mut s = state();
    s.effect_types = Index::new(5, 6);
    s.music.midi_tracks[0].effects = vec![Effect { time: 0, effect: EffectType::PolyphonicKeyPressure { key: 127, value: 3 } }];
    let p = EffectsPanel::new(4);
    assert!(p.update(&mut s, &synth(), &input(&[InputEvent::IncrementAftertouchNote])).is_none());
    assert!(p.update(&mut s, &synth(), &input(&[InputEvent::DecrementAftertouchNote])).is_some());
    assert_eq!(
        s.music.midi_tracks[0].effects[0].effect,
        EffectType::PolyphonicKeyPressure { key: 126, value: 3 }
    );
}

#[test]
fn effect_kinds_cycle() {
    let mut s = state();
    let p = EffectsPanel::new(4);
    assert!(p.update(&mut s, &synth(), &input(&[InputEvent::PreviousEffect])).is_some());
    assert_eq!(s.effect_types.get(), 5);
}

#[test]
fn popup_enable_then_disable_restores_the_panels() {
    let mut s = state();
    let mut popup = Popup::new();
    popup.enable(&mut s, vec![PanelType::Quit]);
    assert_eq!(s.panels, vec![PanelType::Quit]);
    assert_eq!(s.focus, Index::new(0, 1));
    popup.disable(&mut s);
    assert_eq!(s.panels, vec![PanelType::Music, PanelType::Tracks, PanelType::PianoRoll]);
    assert_eq!(s.focus, Index::new(1, 3));
}

#[test]
fn quit_panel_quits_on_yes_and_closes_on_no() {
    let mut s = state();
    let mut q = QuitPanel::new();
    q.enable(&mut s);
    let snapshot = q.update(&mut s, &input(&[InputEvent::QuitPanelYes])).unwrap();
    assert_eq!(snapshot.io_commands, Some(vec![IOCommand::Quit]));
    assert!(q.update(&mut s, &input(&[InputEvent::QuitPanelNo])).is_none());
    assert_eq!(s.panels.len(), 3);
}

#[test]
fn export_panel_restores_the_panels_after_the_export() {
    let mut s = state();
    let mut p = ExportPanel::new();
    let before = s.panels.clone();
    p.enable(&mut s, &before, 2);
    assert_eq!(s.panels, vec![PanelType::ExportState]);
    p.update(&mut s, true);
    assert_eq!(s.panels, vec![PanelType::ExportState]);
    p.update(&mut s, false);
    assert_eq!(s.panels, before);
    assert_eq!(s.focus.get(), 2);
}

fn browser() -> FileBrowser {
    FileBrowser {
        filename: None,
        selected: Some(0),
        selected_is_file: true,
        selected_path: "x.sf2".to_string(),
        saves_filename: Some("song".to_string()),
        exports_filename: Some("out".to_string()),
        directory: "music".to_string(),
        parent: Some("home".to_string()),
        num_paths: 2,
        selected_name: "x".to_string(),
    }
}

#[test]
fn open_file_panel_loads_a_soundfont() {
    let mut s = state();
    let mut ex = exporter();
    let mut p = OpenFilePanel::new();
    let listing = p.soundfont(&mut s);
    assert_eq!(listing, Listing { folder: Folder::SoundFonts, extension: Extension::Sf2 });
    assert_eq!(s.panels, vec![PanelType::OpenFile]);
    let (snapshot, action) = p.update(&mut s, &mut ex, &browser(), &input(&[InputEvent::SelectFile]));
    let snapshot = snapshot.unwrap();
    match &snapshot.to_commands.as_ref().unwrap()[0] {
        Command::LoadSoundFont { channel, path } => {
            assert_eq!(*channel, 0);
            assert_eq!(path, "x.sf2");
        },
        _ => panic!("expected a command that loads a SoundFont"),
    }
    assert!(matches!(action, OpenFileAction::Nothing));
    assert_eq!(s.panels.len(), 3);
}

#[test]
fn open_file_panel_writes_a_save_file() {
    let mut s = state();
    s.unsaved_changes = true;
    let mut ex = exporter();
    let mut p = OpenFilePanel::new();
    assert_eq!(p.write_save(&mut s), Listing { folder: Folder::Midis, extension: Extension::Cac });
    let (snapshot, action) = p.update(&mut s, &mut ex, &browser(), &input(&[InputEvent::SelectFile]));
    assert!(snapshot.is_none());
    match action {
        OpenFileAction::WriteSave(name) => assert_eq!(name, "song.cac"),
        _ => panic!("expected to write a save file"),
    }
    assert!(!s.unsaved_changes);
}

#[test]
fn open_file_panel_exports_and_cycles_the_export_type() {
    let mut s = state();
    let mut ex = exporter();
    let mut p = OpenFilePanel::new();
    assert_eq!(p.export(&mut s, &ex), Listing { folder: Folder::Exports, extension: Extension::Wav });
    assert_eq!(s.panels, vec![PanelType::OpenFile, PanelType::ExportSettings]);
    let (_, action) = p.update(&mut s, &mut ex, &browser(), &input(&[InputEvent::CycleExportType]));
    match action {
        OpenFileAction::List(l) => assert_eq!(l, Listing { folder: Folder::Exports, extension: Extension::Mid }),
        _ => panic!("expected a listing"),
    }
    let (snapshot, action) = p.update(&mut s, &mut ex, &browser(), &input(&[InputEvent::SelectFile]));
    assert!(snapshot.is_none());
    match action {
        OpenFileAction::ExportMid(name) => assert_eq!(name, "out.mid"),
        _ => panic!("expected a MIDI export"),
    }
}

#[test]
fn open_file_panel_typing_sets_the_filename() {
    let mut s = state();
    let mut ex = exporter();
    let mut p = OpenFilePanel::new();
    p.write_save(&mut s);
    let (_, action) = p.update(&mut s, &mut ex, &browser(), &typed("ab"));
    match action {
        OpenFileAction::SetFilename(name) => assert_eq!(name, "ab"),
        _ => panic!("expected a new file name"),
    }
}

#[test]
fn links_panel_opens_the_link_of_the_event() {
    let p = LinksPanel::new();
    let links = p.links_to_open(&input(&[InputEvent::GitHubUrl]));
    assert_eq!(links.len(), 1);
    assert_eq!(links[0].1, "https://github.com/subalterngames/cacophony");
    assert!(p.links_to_open(&input(&[InputEvent::GitHubUrl, InputEvent::InputTTS])).is_empty());
    assert_eq!(p.links_to_open(&input(&[InputEvent::WebsiteUrl, InputEvent::DiscordUrl])).len(), 2);
}

#[test]
fn links_panel_closes_unless_a_link_opened() {
    let mut s = state();
    let mut p = LinksPanel::new();
    p.enable(&mut s);
    assert_eq!(s.panels, vec![PanelType::Links]);
    p.update(&mut s, &input(&[InputEvent::CloseLinksPanel]), true);
    assert_eq!(s.panels, vec![PanelType::Links]);
    p.update(&mut s, &input(&[InputEvent::CloseLinksPanel]), false);
    assert_eq!(s.panels.len(), 3);
}

#[test]
fn no_selection_text() {
    let text = Text {
        entries: vec![
            ("A".to_string(), "a".to_string()),
            ("PIANO_ROLL_PANEL_STATUS_TTS_NO_SELECTION".to_string(), "Nothing is selected.".to_string()),
        ],
    };
    assert_eq!(get_no_selection_status_tts(&text).text, "Nothing is selected.");
}
