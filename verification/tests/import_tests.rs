use cacophony_io::exporter::{ExportSetting, Exporter, Metadata, SettingsList};
use cacophony_io::import::{can_import, import, import_bytes, MidiEvent, TrackEvent};
use cacophony_io::index::Index;
use cacophony_io::model::{
    InputState, MidiTrack, Music, Note, NoteRange, PanelType, PianoRollMode, Selection, State, TimeRange, TimeState,
    ViewState, PPQ_U,
};
use cacophony_io::snapshot::Command;

fn state() -> State {
    State {
        panels: vec![PanelType::Tracks],
        focus: Index::new(0, 1),
        unsaved_changes: false,
        music: Music { midi_tracks: vec![MidiTrack::new(4)], selected: Some(0) },
        time: TimeState { cursor: 0, playback: 0, bpm: 120, mode: Index::new(0, 3) },
        input: InputState { beat: PPQ_U, armed: false, alphanumeric_input: false, use_volume: true, volume: Index::new(127, 128) },
        view: ViewState {
            dt: TimeRange { start: 0, end: PPQ_U * 8 },
            dn: NoteRange { top: 72, bottom: 48 },
            single_track: true,
            mode: Index::new(0, 3),
        },
        selection: Selection { notes: vec![], effects: vec![], single: false },
        edit_mode: Index::new(0, 3),
        piano_roll_mode: PianoRollMode::Time,
        effect_types: Index::new(0, 6),
        music_panel_field: Index::new(0, 3),
    }
}

fn exporter() -> Exporter {
    Exporter {
        framerate: 44100,
        copyright: false,
        multi_file: false,
        metadata: Metadata {
            title: "My Music".to_string(),
            artist: None,
            album: None,
            genre: None,
            comment: None,
            track_number: None,
        },
        export_type: Index::new(0, 5),
        mp3_bit_rate: Index::new(0, 4),
        mp3_quality: Index::new(0, 10),
        ogg_quality: Index::new(0, 10),
        multi_file_suffix: Index::new(0, 3),
        mid_settings: SettingsList::new(vec![ExportSetting::Title]),
        mp3_settings: SettingsList::new(vec![ExportSetting::Title]),
        ogg_settings: SettingsList::new(vec![ExportSetting::Title]),
        flac_settings: SettingsList::new(vec![ExportSetting::Title]),
        wav_settings: SettingsList::new(vec![ExportSetting::Title]),
    }
}

fn ev(delta: u32, kind: MidiEvent) -> TrackEvent {
    TrackEvent { delta, kind }
}

#[test]
fn import_reads_notes_metadata_and_programs() {
    let tracks = vec![
        vec![
            ev(0, MidiEvent::NoteOn { key: 60, vel: 100 }),
            ev(0, MidiEvent::Copyright(Some("Me".to_string()))),
            ev(10, MidiEvent::NoteOff { key: 60, vel: 50 }),
            ev(0, MidiEvent::Text(Some("hi".to_string()))),
            ev(2, MidiEvent::ProgramChange { program: 5 }),
            ev(1, MidiEvent::Other),
        ],
        vec![ev(3, MidiEvent::Other), ev(0, MidiEvent::Text(None))],
    ];
    let mut s = state();
    let mut ex = exporter();
    let commands = import(&tracks, &"default.sf2".to_string(), 0, &mut s, &mut ex);
    assert_eq!(s.music.midi_tracks.len(), 1);
    assert_eq!(s.music.midi_tracks[0].channel, 0);
    assert_eq!(s.music.midi_tracks[0].notes, vec![Note { note: 60, velocity: 100, start: 0, end: 10 }]);
    assert_eq!(s.music.selected, Some(0));
    assert!(ex.copyright);
    assert_eq!(ex.metadata.artist, Some("Me".to_string()));
    assert_eq!(ex.metadata.comment, Some("hi".to_string()));
    assert_eq!(commands.len(), 3);
    assert!(matches!(&commands[0], Command::LoadSoundFont { channel: 0, path } if path == "default.sf2"));
    assert!(matches!(&commands[1], Command::SetProgram { channel: 0, bank_index: 0, preset_index: 5, .. }));
    assert!(matches!(&commands[2], Command::LoadSoundFont { channel: 1, .. }));
}

#[test]
fn a_release_ends_the_earliest_press_of_its_key() {
    let tracks = vec![vec![
        ev(0, MidiEvent::NoteOn { key: 60, vel: 10 }),
        ev(5, MidiEvent::NoteOn { key: 60, vel: 90 }),
        ev(5, MidiEvent::NoteOff { key: 60, vel: 20 }),
        ev(10, MidiEvent::NoteOff { key: 60, vel: 0 }),
    ]];
    let mut s = state();
    let mut ex = exporter();
    import(&tracks, &"default.sf2".to_string(), 0, &mut s, &mut ex);
    assert_eq!(
        s.music.midi_tracks[0].notes,
        vec![Note { note: 60, velocity: 20, start: 0, end: 10 }, Note { note: 60, velocity: 90, start: 5, end: 20 }]
    );
}

#[test]
fn a_file_without_notes_empties_the_music() {
    let tracks = vec![vec![ev(3, MidiEvent::Other)]];
    let mut s = state();
    let mut ex = exporter();
    import(&tracks, &"default.sf2".to_string(), 0, &mut s, &mut ex);
    assert!(s.music.midi_tracks.is_empty());
    assert_eq!(s.music.selected, None);
    assert!(!ex.copyright);
}

#[test]
fn a_release_without_a_press_cannot_be_imported() {
    let sf = "default.sf2".to_string();
    let good = vec![vec![ev(0, MidiEvent::NoteOn { key: 60, vel: 10 }), ev(5, MidiEvent::NoteOff { key: 60, vel: 0 })]];
    assert!(can_import(&good, &sf, 0, &exporter()));
    let bad = vec![good[0].iter().map(|e| TrackEvent { delta: e.delta, kind: MidiEvent::Other }).collect(), vec![ev(1, MidiEvent::NoteOff { key: 61, vel: 0 })]];
    assert!(!can_import(&bad, &sf, 0, &exporter()));
}

/// A standard MIDI file of one track with these events.
fn smf(events: &[u8]) -> Vec<u8> {
    let mut b = b"MThd".to_vec();
    b.extend_from_slice(&[0, 0, 0, 6, 0, 0, 0, 1, 0, 96]);
    b.extend_from_slice(b"MTrk");
    let len = (events.len() + 4) as u32;
    b.extend_from_slice(&len.to_be_bytes());
    b.extend_from_slice(events);
    b.extend_from_slice(&[0, 0xFF, 0x2F, 0]);
    b
}

#[test]
fn importing_the_bytes_of_a_midi_file() {
    let bytes = smf(&[0, 0xFF, 0x02, 2, b'M', b'e', 0, 0x90, 60, 100, 10, 0x80, 60, 64, 0, 0xC0, 7]);
    let mut s = state();
    let mut ex = exporter();
    let commands = import_bytes(&bytes, &"default.sf2".to_string(), 0, &mut s, &mut ex).unwrap();
    assert_eq!(s.music.midi_tracks.len(), 1);
    assert_eq!(s.music.midi_tracks[0].notes, vec![Note { note: 60, velocity: 100, start: 0, end: 10 }]);
    assert_eq!(ex.metadata.artist, Some("Me".to_string()));
    assert!(ex.copyright);
    assert_eq!(commands.len(), 2);
    assert!(matches!(&commands[1], Command::SetProgram { channel: 0, preset_index: 7, .. }));
}

#[test]
fn bytes_that_cannot_be_imported_change_nothing() {
    let mut s = state();
    let mut ex = exporter();
    assert!(import_bytes(b"not a midi file", &"default.sf2".to_string(), 0, &mut s, &mut ex).is_none());
    let bytes = smf(&[0, 0x80, 61, 0]);
    assert!(import_bytes(&bytes, &"default.sf2".to_string(), 0, &mut s, &mut ex).is_none());
    assert_eq!(s.music.midi_tracks.len(), 1);
    assert_eq!(s.music.midi_tracks[0].channel, 4);
    let invalid_text = smf(&[0, 0xFF, 0x01, 1, 0xFF]);
    assert!(import_bytes(&invalid_text, &"default.sf2".to_string(), 0, &mut s, &mut ex).is_some());
    assert_eq!(ex.metadata.comment, None);
}
