use vstd::prelude::*;
use crate::abc123::{
    on_disable_exporter, on_disable_state, spec_edit_number, spec_exporter_typed, spec_title_defaulted, update_exporter,
    update_state, MetadataField,
};
use crate::exporter::{Exporter, ExporterModel, MetadataModel};
use crate::index::{spec_step, spec_step_down, spec_step_up, Index};
use crate::input::{lemma_only_event, Input, InputEvent};
use crate::model::{
    music_panel_field_at, spec_music_panel_field, MusicPanelField, State, StateModel, TimeState, DEFAULT_BPM,
    MAX_VOLUME,
};
use crate::snapshot::{
    one_command, opt_snapshot_view, spec_snap_commands, spec_snap_states, Command, CommandModel, Snapshot,
    SnapshotModel,
};
use crate::synth::SynthState;
use crate::speech::{
    add_phrase, ev1, ev2, silence, speech_view, spec_each, spec_tip, text_with, tip, PhraseModel, Utterance, Value,
    ValueModel,
};

verus! {

/// What the music panel does with a frame of input: the first of these that applies.
#[derive(Clone, Copy, Debug, PartialEq, Eq, Structural)]
pub enum MusicAction {
    NextField,
    PreviousField,
    Speak,
    GainDown,
    GainUp,
    Nothing,
}

/// The current field of the music panel.
pub open spec fn spec_field(st: StateModel) -> MusicPanelField {
    spec_music_panel_field(st.music_panel_field.index)
}

pub open spec fn spec_music_action(st: StateModel, e: Seq<InputEvent>) -> MusicAction {
    if e.contains(InputEvent::NextMusicPanelField) {
        MusicAction::NextField
    } else if e.contains(InputEvent::PreviousMusicPanelField) {
        MusicAction::PreviousField
    } else if e.contains(InputEvent::StatusTTS) || e.contains(InputEvent::InputTTS) {
        MusicAction::Speak
    } else if spec_field(st) == MusicPanelField::Gain && e.contains(InputEvent::DecreaseMusicGain) {
        MusicAction::GainDown
    } else if spec_field(st) == MusicPanelField::Gain && e.contains(InputEvent::IncreaseMusicGain) {
        MusicAction::GainUp
    } else {
        MusicAction::Nothing
    }
}

/// What the music panel says: its status (the title, the tempo and the gain), or the input
/// that the current field takes, each tooltip on its own.
pub open spec fn spec_music_speech(st: StateModel, title: Seq<char>, gain: u8, e: Seq<InputEvent>) -> Seq<
    Seq<PhraseModel>,
> {
    if spec_music_action(st, e) != MusicAction::Speak {
        seq![]
    } else if e.contains(InputEvent::StatusTTS) {
        seq![
            seq![
                PhraseModel::Text {
                    key: "MUSIC_PANEL_STATUS_TTS"@,
                    values: seq![ValueModel::Str(title), ValueModel::Int(st.time.bpm), ValueModel::Int(gain as u64)],
                },
            ],
        ]
    } else {
        let scroll = spec_tip(
            "MUSIC_PANEL_INPUT_TTS"@,
            seq![InputEvent::PreviousMusicPanelField, InputEvent::NextMusicPanelField],
        );
        let abc = st.input.alphanumeric_input;
        match spec_field(st) {
            MusicPanelField::BPM => if abc {
                spec_each(seq![spec_tip("MUSIC_PANEL_INPUT_TTS_BPM_ABC123"@, seq![InputEvent::ToggleAlphanumericInput])])
            } else {
                spec_each(
                    seq![
                        spec_tip("MUSIC_PANEL_INPUT_TTS_BPM_NO_ABC123"@, seq![InputEvent::ToggleAlphanumericInput]),
                        scroll,
                    ],
                )
            },
            MusicPanelField::Gain => spec_each(
                seq![
                    spec_tip(
                        "MUSIC_PANEL_INPUT_TTS_GAIN"@,
                        seq![InputEvent::DecreaseMusicGain, InputEvent::IncreaseMusicGain],
                    ),
                    scroll,
                ],
            ),
            MusicPanelField::Name => if abc {
                spec_each(seq![spec_tip("MUSIC_PANEL_INPUT_TTS_NAME_ABC123"@, seq![InputEvent::ToggleAlphanumericInput])])
            } else {
                spec_each(
                    seq![
                        spec_tip("MUSIC_PANEL_INPUT_TTS_NAME_NO_ABC123"@, seq![InputEvent::ToggleAlphanumericInput]),
                        scroll,
                    ],
                )
            },
        }
    }
}

/// The synthesizer gain stepped up or down, cycling through 0 to the maximum volume.
pub open spec fn spec_gain_stepped(gain: u8, up: bool) -> u8 {
    spec_step(gain as usize, (MAX_VOLUME + 1) as usize, up) as u8
}

/// The snapshot of a change of the synthesizer gain.
pub open spec fn spec_gain_snapshot(gain: u8, up: bool) -> SnapshotModel {
    spec_snap_commands(
        seq![CommandModel::SetGain { gain }],
        seq![CommandModel::SetGain { gain: spec_gain_stepped(gain, up) }],
    )
}

/// What the music panel does: the new state, and the snapshot made, if any.
pub open spec fn spec_music_update(st: StateModel, gain: u8, e: Seq<InputEvent>) -> (StateModel, Option<SnapshotModel>) {
    match spec_music_action(st, e) {
        MusicAction::NextField => {
            let st1 = StateModel { music_panel_field: spec_step_up(st.music_panel_field), ..st };
            (st1, Some(spec_snap_states(st, st1)))
        },
        MusicAction::PreviousField => {
            let st1 = StateModel { music_panel_field: spec_step_down(st.music_panel_field), ..st };
            (st1, Some(spec_snap_states(st, st1)))
        },
        MusicAction::GainDown => (st, Some(spec_gain_snapshot(gain, false))),
        MusicAction::GainUp => (st, Some(spec_gain_snapshot(gain, true))),
        _ => (st, None),
    }
}

/// What the music panel does with a frame whose only event is one of its own:
/// - next or previous field: the field moves to the next or the previous one, cycling, and nothing
///   else of the state changes;
/// - on the gain field, gain up or down: the state stays, and the snapshot holds the command that
///   sets the gain as it was (to undo) and the one that sets it one higher or one lower, cycling
///   through zero to the highest volume (to do).
pub proof fn lemma_music_changes(st: StateModel, gain: u8, x: InputEvent)
    requires
        st.music_panel_field.index < st.music_panel_field.length,
        x == InputEvent::NextMusicPanelField || x == InputEvent::PreviousMusicPanelField
            || x == InputEvent::IncreaseMusicGain || x == InputEvent::DecreaseMusicGain,
    ensures
        ({
            let (st1, snap) = spec_music_update(st, gain, seq![x]);
            let f = st.music_panel_field;
            let gain_up = if gain >= MAX_VOLUME { 0 } else { gain + 1 };
            let gain_down = if gain == 0 { MAX_VOLUME as int } else { gain - 1 };
            &&& x == InputEvent::NextMusicPanelField ==> st1 == StateModel {
                music_panel_field: Index { index: ((f.index + 1) % (f.length as int)) as usize, ..f },
                ..st
            } && snap is Some
            &&& x == InputEvent::PreviousMusicPanelField ==> st1 == StateModel {
                music_panel_field: Index { index: ((f.index + f.length - 1) % (f.length as int)) as usize, ..f },
                ..st
            } && snap is Some
            &&& x == InputEvent::IncreaseMusicGain && spec_field(st) == MusicPanelField::Gain ==> st1 == st && snap
                == Some(
                SnapshotModel {
                    from_state: None,
                    to_state: None,
                    from_commands: Some(seq![CommandModel::SetGain { gain }]),
                    to_commands: Some(seq![CommandModel::SetGain { gain: gain_up as u8 }]),
                    io_commands: None,
                },
            )
            &&& x == InputEvent::DecreaseMusicGain && spec_field(st) == MusicPanelField::Gain ==> st1 == st && snap
                == Some(
                SnapshotModel {
                    from_state: None,
                    to_state: None,
                    from_commands: Some(seq![CommandModel::SetGain { gain }]),
                    to_commands: Some(seq![CommandModel::SetGain { gain: gain_down as u8 }]),
                    io_commands: None,
                },
            )
            &&& (x == InputEvent::IncreaseMusicGain || x == InputEvent::DecreaseMusicGain) && spec_field(st)
                != MusicPanelField::Gain ==> st1 == st && snap is None
        }),
{
    lemma_only_event(x);
    crate::index::lemma_step_cycles(st.music_panel_field.index, st.music_panel_field.length);
}

/// What typing does in the music panel: to the tempo (with a snapshot of the change) or to the
/// title of the music. Returns the new state and export settings, the snapshot made, if any,
/// and whether anything changed.
pub open spec fn spec_music_abc123(
    st: StateModel,
    ex: ExporterModel,
    typed: Seq<char>,
    backspace: bool,
) -> (StateModel, ExporterModel, Option<SnapshotModel>, bool) {
    match spec_field(st) {
        MusicPanelField::BPM => {
            let (bpm, changed) = spec_edit_number(st.time.bpm, typed, backspace);
            if changed {
                let st1 = StateModel { time: TimeState { bpm: bpm as u64, ..st.time }, ..st };
                (st1, ex, Some(spec_snap_states(st, st1)), true)
            } else {
                (st, ex, None, false)
            }
        },
        MusicPanelField::Gain => (st, ex, None, false),
        MusicPanelField::Name => {
            let (ex1, c) = spec_exporter_typed(MetadataField::Title, ex, typed, backspace);
            (st, ex1, None, c)
        },
    }
}

/// Set the name, tempo, and gain of the music.
#[derive(Clone, Copy, Debug)]
pub struct MusicPanel {}

impl MusicPanel {
    pub fn new() -> (r: MusicPanel) {
        MusicPanel {  }
    }

    /// The snapshot of stepping the synthesizer gain up or down. Its commands to apply are to
    /// be sent to the synthesizer.
    fn set_gain(synth: &SynthState, up: bool) -> (r: Snapshot)
        ensures
            r@ == spec_gain_snapshot(synth.gain, up),
    {
        let gain0 = one_command(Command::SetGain { gain: synth.gain });
        let mut index = Index::new(synth.gain as usize, MAX_VOLUME as usize + 1);
        index.increment(up);
        let gain1 = one_command(Command::SetGain { gain: index.get() as u8 });
        Snapshot::from_commands(gain0, &gain1)
    }

    /// Apply a frame of input: cycle the fields, or step the gain. What the panel says comes from
    /// `speech`.
    pub fn update(&self, state: &mut State, synth: &SynthState, input: &Input) -> (r: Option<Snapshot>)
        requires
            old(state)@.wf(),
        ensures
            (final(state)@, opt_snapshot_view(r)) == spec_music_update(old(state)@, synth.gain, input.events@),
    {
        let ghost st0 = state@;
        if input.happened(InputEvent::NextMusicPanelField) || input.happened(InputEvent::PreviousMusicPanelField) {
            let up = input.happened(InputEvent::NextMusicPanelField);
            let s0 = state.duplicate();
            state.music_panel_field.increment(up);
            proof {
                assert(state@ =~= spec_music_update(st0, synth.gain, input.events@).0);
            }
            return Some(Snapshot::from_states(s0, state));
        }
        if input.happened(InputEvent::StatusTTS) || input.happened(InputEvent::InputTTS) {
            return None;
        }
        match music_panel_field_at(state.music_panel_field.get()) {
            MusicPanelField::Gain => {
                if input.happened(InputEvent::DecreaseMusicGain) {
                    Some(MusicPanel::set_gain(synth, false))
                } else if input.happened(InputEvent::IncreaseMusicGain) {
                    Some(MusicPanel::set_gain(synth, true))
                } else {
                    None
                }
            },
            _ => None,
        }
    }

    /// What the music panel says in a frame of input.
    pub fn speech(&self, state: &State, exporter: &Exporter, synth: &SynthState, input: &Input) -> (r: Vec<
        Utterance,
    >)
        ensures
            speech_view(r@) == spec_music_speech(state@, exporter.metadata.title@, synth.gain, input.events@),
    {
        let mut r = silence();
        if input.happened(InputEvent::NextMusicPanelField) || input.happened(InputEvent::PreviousMusicPanelField) {
            return r;
        }
        if input.happened(InputEvent::StatusTTS) {
            let mut values: Vec<Value> = Vec::new();
            values.push(Value::Str(exporter.metadata.title.clone()));
            values.push(Value::Int(state.time.bpm));
            values.push(Value::Int(synth.gain as u64));
            proof {
                assert(crate::speech::values_view(values@) =~= seq![
                    ValueModel::Str(exporter.metadata.title@),
                    ValueModel::Int(state.time.bpm),
                    ValueModel::Int(synth.gain as u64),
                ]);
            }
            add_phrase(&mut r, text_with("MUSIC_PANEL_STATUS_TTS", values));
            proof {
                assert(speech_view(r@) =~= spec_music_speech(state@, exporter.metadata.title@, synth.gain, input.events@));
            }
            return r;
        }
        if !input.happened(InputEvent::InputTTS) {
            return r;
        }
        let abc = state.input.alphanumeric_input;
        match music_panel_field_at(state.music_panel_field.get()) {
            MusicPanelField::BPM => {
                if abc {
                    add_phrase(&mut r, tip("MUSIC_PANEL_INPUT_TTS_BPM_ABC123", ev1(InputEvent::ToggleAlphanumericInput)));
                } else {
                    add_phrase(&mut r, tip("MUSIC_PANEL_INPUT_TTS_BPM_NO_ABC123", ev1(InputEvent::ToggleAlphanumericInput)));
                }
            },
            MusicPanelField::Gain => {
                add_phrase(
                    &mut r,
                    tip("MUSIC_PANEL_INPUT_TTS_GAIN", ev2(InputEvent::DecreaseMusicGain, InputEvent::IncreaseMusicGain)),
                );
            },
            MusicPanelField::Name => {
                if abc {
                    add_phrase(&mut r, tip("MUSIC_PANEL_INPUT_TTS_NAME_ABC123", ev1(InputEvent::ToggleAlphanumericInput)));
                } else {
                    add_phrase(&mut r, tip("MUSIC_PANEL_INPUT_TTS_NAME_NO_ABC123", ev1(InputEvent::ToggleAlphanumericInput)));
                }
            },
        }
        if !abc || music_panel_field_at(state.music_panel_field.get()) == MusicPanelField::Gain {
            add_phrase(
                &mut r,
                tip("MUSIC_PANEL_INPUT_TTS", ev2(InputEvent::PreviousMusicPanelField, InputEvent::NextMusicPanelField)),
            );
        }
        proof {
            assert(speech_view(r@) =~= spec_music_speech(state@, exporter.metadata.title@, synth.gain, input.events@));
        }
        r
    }

    /// Apply a frame of typing to the current field: the tempo, or the title of the music.
    /// Returns the snapshot of a change of the tempo, and whether anything changed.
    pub fn update_abc123(&self, state: &mut State, exporter: &mut Exporter, input: &Input) -> (r: (
        Option<Snapshot>,
        bool,
    ))
        requires
            spec_field(old(state)@) == MusicPanelField::BPM ==> spec_edit_number(
                old(state).time.bpm,
                input.typed@,
                input.backspace,
            ).0 <= u64::MAX,
        ensures
            (final(state)@, final(exporter)@, opt_snapshot_view(r.0), r.1) == spec_music_abc123(
                old(state)@,
                old(exporter)@,
                input.typed@,
                input.backspace,
            ),
    {
        match music_panel_field_at(state.music_panel_field.get()) {
            MusicPanelField::BPM => {
                let snapshot = update_state(state, input);
                let updated = snapshot.is_some();
                (snapshot, updated)
            },
            MusicPanelField::Gain => (None, false),
            MusicPanelField::Name => (None, update_exporter(MetadataField::Title, input, exporter)),
        }
    }

    /// When typing ends: a zero tempo is replaced by the default tempo, and an empty title by
    /// the default title.
    pub fn on_disable_abc123(&self, state: &mut State, exporter: &mut Exporter)
        ensures
            final(state)@ == (if spec_field(old(state)@) == MusicPanelField::BPM && old(state).time.bpm == 0 {
                StateModel { time: TimeState { bpm: DEFAULT_BPM, ..old(state)@.time }, ..old(state)@ }
            } else {
                old(state)@
            }),
            final(exporter)@ == (if spec_field(old(state)@) == MusicPanelField::Name {
                spec_title_defaulted(old(exporter)@)
            } else {
                old(exporter)@
            }),
    {
        let ghost st0 = state@;
        match music_panel_field_at(state.music_panel_field.get()) {
            MusicPanelField::BPM => {
                on_disable_state(&mut state.time.bpm, DEFAULT_BPM);
                proof {
                    if st0.time.bpm == 0 {
                        assert(state@ =~= StateModel { time: TimeState { bpm: DEFAULT_BPM, ..st0.time }, ..st0 });
                    } else {
                        assert(state@ =~= st0);
                    }
                }
            },
            MusicPanelField::Gain => {},
            MusicPanelField::Name => on_disable_exporter(MetadataField::Title, exporter),
        }
    }

    /// Typing is allowed into the tempo and the title.
    pub fn allow_alphanumeric_input(&self, state: &State) -> (r: bool)
        ensures
            r == (spec_field(state@) != MusicPanelField::Gain),
    {
        match music_panel_field_at(state.music_panel_field.get()) {
            MusicPanelField::Gain => false,
            _ => true,
        }
    }
}

/// The music panel keeps the state valid, and the gain of the synthesizer a MIDI volume.
pub proof fn lemma_music_keeps_wf(st: StateModel, gain: u8, e: Seq<InputEvent>, up: bool)
    requires
        st.wf(),
    ensures
        spec_music_update(st, gain, e).0.wf(),
        gain <= MAX_VOLUME ==> spec_gain_stepped(gain, up) <= MAX_VOLUME,
{
    let st1 = spec_music_update(st, gain, e).0;
    assert(st1.music == st.music);
}

} // verus!
