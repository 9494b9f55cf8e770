use cacophony_io::save::{default_version, fix_no_flac, load_commands};
use cacophony_io::snapshot::Command;
use cacophony_io::synth::Program;

fn program(path: &str, bank_index: usize, preset_index: usize) -> Program {
    Program {
        path: path.to_string(),
        num_banks: 4,
        bank_index,
        bank: 0,
        num_presets: 8,
        preset_index,
        preset_name: String::new(),
        chorus: 0,
        pan: 0,
        reverb: 0,
    }
}

#[test]
fn old_save_files_get_flac() {
    let old = r#"{"a":1,"export_type":{"values":["Wav","Mid","MP3","Ogg"],"index":{"index":2,"length":4}},"b":2}"#;
    let fixed = fix_no_flac(old);
    assert_eq!(
        fixed,
        r#"{"a":1,"export_type":{"values":["Wav","Mid","MP3","Ogg","Flac"],"index":{"index":0,"length":5}},"b":2}"#
    );
}

#[test]
fn new_save_files_are_left_alone() {
    let new = r#"{"export_type":{"values":["Wav","Mid","MP3","Ogg","Flac"],"index":{"index":3,"length":5}}}"#;
    assert_eq!(fix_no_flac(new), new);
    assert_eq!(fix_no_flac(""), "");
}

#[test]
fn the_default_version_predates_flac() {
    assert_eq!(default_version(), "0.1.2");
}

#[test]
fn loading_sets_the_gain_then_the_soundfonts_then_the_programs() {
    let programs = vec![(0u8, program("a.sf2", 1, 2), true), (3u8, program("gone.sf2", 0, 0), false), (5u8, program("b.sf2", 2, 7), true)];
    let c = load_commands(99, &programs);
    assert_eq!(c.len(), 5);
    assert!(matches!(c[0], Command::SetGain { gain: 99 }));
    match (&c[1], &c[2]) {
        (Command::LoadSoundFont { channel: 0, path: a }, Command::LoadSoundFont { channel: 5, path: b }) => {
            assert_eq!(a, "a.sf2");
            assert_eq!(b, "b.sf2");
        },
        _ => panic!("expected the SoundFonts that exist, in order"),
    }
    match (&c[3], &c[4]) {
        (
            Command::SetProgram { channel: 0, path: a, bank_index: 1, preset_index: 2 },
            Command::SetProgram { channel: 5, path: b, bank_index: 2, preset_index: 7 },
        ) => {
            assert_eq!(a, "a.sf2");
            assert_eq!(b, "b.sf2");
        },
        _ => panic!("expected the programs whose SoundFonts exist, in order"),
    }
    assert_eq!(load_commands(0, &vec![]).len(), 1);
}
