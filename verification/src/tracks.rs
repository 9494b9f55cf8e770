use vstd::prelude::*;
use crate::index::{spec_step, Index};
use crate::input::{lemma_only_event, Input, InputEvent};
use crate::model::{
    tracks_view, MidiTrack, MusicModel, SelectionModel, State, StateModel, TrackModel,
    DEFAULT_TRACK_GAIN, MAX_VOLUME,
};
use crate::snapshot::{
    commands_view, one_command, one_io_command, opt_snapshot_view, spec_snap_both, spec_snap_commands,
    spec_snap_io, spec_snap_states, Command, CommandModel, IOCommand, OpenFileType, Snapshot,
    SnapshotModel,
};
use crate::synth::{Program, SynthState};
use crate::speech::{
    add_phrase, add_utterance, ev1, ev2, join, say, silence, speech_view, spec_each, spec_text, spec_text1, spec_tip, text,
    text1, text_with, tip, values_view, PhraseModel, Utterance, Value, ValueModel,
};

verus! {

broadcast use vstd::std_specs::hash::group_hash_axioms;

/// The state with the selected track and the selection replaced.
pub open spec fn spec_with_selected(st: StateModel, selected: Option<usize>) -> StateModel {
    StateModel {
        music: MusicModel { selected, ..st.music },
        selection: SelectionModel { notes: Seq::empty(), effects: Seq::empty(), ..st.selection },
        ..st
    }
}

/// Select the previous or next track, given user input. Changing the track deselects the notes
/// and effects.
pub open spec fn spec_select_track(st: StateModel, e: Seq<InputEvent>, prev: InputEvent, next: InputEvent) -> (StateModel, bool) {
    match st.music.selected {
        None => (st, false),
        Some(s) => if e.contains(prev) && s > 0 {
            (spec_with_selected(st, Some((s - 1) as usize)), true)
        } else if e.contains(next) && s < st.music.tracks.len() - 1 {
            (spec_with_selected(st, Some((s + 1) as usize)), true)
        } else {
            (st, false)
        },
    }
}

/// Try to select a track, given user input: `prev` selects the previous track and `next` the
/// next one.
pub fn select_track(state: &mut State, input: &Input, prev: InputEvent, next: InputEvent) -> (r: Option<Snapshot>)
    requires
        old(state)@.wf(),
    ensures
        final(state)@ == spec_select_track(old(state)@, input.events@, prev, next).0,
        r is Some == spec_select_track(old(state)@, input.events@, prev, next).1,
        r matches Some(s) ==> s@ == spec_snap_states(old(state)@, final(state)@),
{
    let ghost st0 = state@;
    match state.music.selected {
        None => None,
        Some(selected) => {
            if input.happened(prev) && selected > 0 {
                let s0 = state.duplicate();
                state.music.selected = Some(selected - 1);
                state.selection.deselect();
                proof {
                    assert(state@ =~= spec_select_track(st0, input.events@, prev, next).0);
                }
                Some(Snapshot::from_states(s0, state))
            } else if input.happened(next) && selected < state.music.midi_tracks.len() - 1 {
                let s0 = state.duplicate();
                state.music.selected = Some(selected + 1);
                state.selection.deselect();
                proof {
                    assert(state@ =~= spec_select_track(st0, input.events@, prev, next).0);
                }
                Some(Snapshot::from_states(s0, state))
            } else {
                None
            }
        },
    }
}

/// Is a channel used by a track?
pub open spec fn spec_channel_used(tracks: Seq<TrackModel>, c: u8) -> bool {
    exists|i: int| 0 <= i < tracks.len() && #[trigger] tracks[i].channel == c
}

/// The lowest channel below 255 that no track uses, if there is one.
pub open spec fn spec_free_channel(tracks: Seq<TrackModel>, r: Option<u8>) -> bool {
    match r {
        Some(c) => c < 255 && !spec_channel_used(tracks, c) && forall|d: u8| d < c ==> spec_channel_used(tracks, d),
        None => forall|d: u8| d < 255 ==> spec_channel_used(tracks, d),
    }
}

fn channel_used(tracks: &Vec<MidiTrack>, c: u8) -> (r: bool)
    ensures
        r == spec_channel_used(tracks_view(tracks@), c),
{
    let n = tracks.len();
    for i in 0..n
        invariant
            n == tracks.len(),
            forall|j: int| 0 <= j < i ==> tracks@[j].channel != c,
    {
        if tracks[i].channel == c {
            proof {
                assert(tracks_view(tracks@)[i as int].channel == c);
            }
            return true;
        }
    }
    false
}

/// The lowest channel below 255 that no track uses.
pub fn free_channel(tracks: &Vec<MidiTrack>) -> (r: Option<u8>)
    ensures
        spec_free_channel(tracks_view(tracks@), r),
{
    let mut c: u8 = 0;
    while c < 255
        invariant
            forall|d: u8| d < c ==> spec_channel_used(tracks_view(tracks@), d),
        decreases 255 - c,
    {
        if !channel_used(tracks, c) {
            return Some(c);
        }
        c = c + 1;
    }
    None
}

/// The tracks without those on a channel.
pub open spec fn spec_without_channel(tracks: Seq<TrackModel>, c: u8) -> Seq<TrackModel> {
    tracks.filter(|t: TrackModel| t.channel != c)
}

/// Remove the tracks on a channel.
fn remove_channel(tracks: &mut Vec<MidiTrack>, c: u8)
    ensures
        tracks_view(final(tracks)@) == spec_without_channel(tracks_view(old(tracks)@), c),
{
    let ghost old_view = tracks_view(tracks@);
    let mut kept: Vec<MidiTrack> = Vec::new();
    let n = tracks.len();
    for i in 0..n
        invariant
            n == tracks.len(),
            old_view == tracks_view(tracks@),
            tracks_view(kept@) == spec_without_channel(old_view.take(i as int), c),
    {
        proof {
            reveal_with_fuel(Seq::<_>::filter, 1);
            assert(old_view.take(i + 1).drop_last() =~= old_view.take(i as int));
        }
        if tracks[i].channel != c {
            let ghost k0 = kept@;
            kept.push(tracks[i].duplicate());
            proof {
                assert(tracks_view(kept@) =~= tracks_view(k0).push(old_view[i as int]));
            }
        }
    }
    proof {
        assert(old_view.take(n as int) =~= old_view);
    }
    *tracks = kept;
}

/// The selected track after the selected track is removed: none if it was the only one, the
/// first if it was the first, else the one before it.
pub open spec fn spec_selected_after_removal(len: nat, selected: usize) -> Option<usize> {
    if len == 1 {
        None
    } else if selected == 0 {
        Some(0)
    } else {
        Some((selected - 1) as usize)
    }
}

/// A program command that sets a channel's program to the given bank and preset.
pub open spec fn spec_set_program(c: u8, p: Program, bank_index: usize, preset_index: usize) -> CommandModel {
    CommandModel::SetProgram { channel: c, path: p.path@, bank_index, preset_index }
}

/// What the tracks panel does with a frame of input: the first of these that applies.
#[derive(Clone, Copy, Debug, PartialEq, Eq, Structural)]
pub enum TracksAction {
    Speak,
    AddTrack,
    RemoveTrack,
    EnableSoundFont,
    SelectTrack,
    NextPreset,
    PreviousPreset,
    NextBank,
    PreviousBank,
    IncreaseGain,
    DecreaseGain,
    Mute,
    Solo,
    Nothing,
}

/// The action for a frame of input. Track actions need a selected track; program, gain, mute
/// and solo actions also need a program on the selected track's channel.
pub open spec fn spec_tracks_action(st: StateModel, synth: Map<u8, Program>, e: Seq<InputEvent>) -> TracksAction {
    if e.contains(InputEvent::StatusTTS) || e.contains(InputEvent::InputTTS) {
        TracksAction::Speak
    } else if e.contains(InputEvent::AddTrack) {
        TracksAction::AddTrack
    } else if st.music.selected is None {
        TracksAction::Nothing
    } else if e.contains(InputEvent::RemoveTrack) {
        TracksAction::RemoveTrack
    } else if e.contains(InputEvent::EnableSoundFontPanel) {
        TracksAction::EnableSoundFont
    } else if spec_select_track(st, e, InputEvent::PreviousTrack, InputEvent::NextTrack).1 {
        TracksAction::SelectTrack
    } else if !synth.contains_key(st.music.tracks[st.music.selected.unwrap() as int].channel) {
        TracksAction::Nothing
    } else if e.contains(InputEvent::NextPreset) {
        TracksAction::NextPreset
    } else if e.contains(InputEvent::PreviousPreset) {
        TracksAction::PreviousPreset
    } else if e.contains(InputEvent::NextBank) {
        TracksAction::NextBank
    } else if e.contains(InputEvent::PreviousBank) {
        TracksAction::PreviousBank
    } else if e.contains(InputEvent::IncreaseTrackGain) {
        TracksAction::IncreaseGain
    } else if e.contains(InputEvent::DecreaseTrackGain) {
        TracksAction::DecreaseGain
    } else if e.contains(InputEvent::Mute) {
        TracksAction::Mute
    } else if e.contains(InputEvent::Solo) {
        TracksAction::Solo
    } else {
        TracksAction::Nothing
    }
}

/// What the tracks panel says: the status of the selected track, or the input that the panel
/// takes, each tooltip on its own.
pub open spec fn spec_tracks_speech(st: StateModel, synth: Map<u8, Program>, e: Seq<InputEvent>) -> Seq<
    Seq<PhraseModel>,
> {
    if e.contains(InputEvent::StatusTTS) {
        match st.music.selected {
            Some(i) => {
                let track = st.music.tracks[i as int];
                let prefix = spec_text1("TRACKS_PANEL_STATUS_TTS_PREFIX"@, ValueModel::Int(track.channel as u64));
                if synth.contains_key(track.channel) {
                    let p = synth[track.channel];
                    let sf = PhraseModel::Text {
                        key: "TRACKS_PANEL_STATUS_TTS_SOUNDFONT"@,
                        values: seq![
                            ValueModel::Str(p.preset_name@),
                            ValueModel::Int(p.bank as u64),
                            ValueModel::Int(track.gain as u64),
                            ValueModel::FileName(p.path@),
                        ],
                    };
                    let muted = if track.mute { seq![spec_text("TRACKS_PANEL_STATUS_TTS_MUTED"@)] } else { seq![] };
                    let soloed = if track.solo { seq![spec_text("TRACKS_PANEL_STATUS_TTS_SOLOED"@)] } else { seq![] };
                    seq![seq![prefix, sf] + muted + soloed]
                } else {
                    seq![seq![prefix, spec_text("TRACKS_PANEL_STATUS_TTS_NO_SOUNDFONT"@)]]
                }
            },
            None => seq![seq![spec_text("TRACKS_PANEL_STATUS_TTS_NO_SELECTION"@)]],
        }
    } else if e.contains(InputEvent::InputTTS) {
        let add = seq![spec_tip("TRACKS_PANEL_INPUT_TTS_ADD"@, seq![InputEvent::AddTrack])];
        match st.music.selected {
            Some(i) => {
                let track = st.music.tracks[i as int];
                let prefix = seq![
                    spec_tip("TRACKS_PANEL_INPUT_TTS_TRACK_PREFIX_0"@, seq![InputEvent::RemoveTrack]),
                    spec_tip("TRACKS_PANEL_INPUT_TTS_TRACK_PREFIX_1"@, seq![InputEvent::PreviousTrack, InputEvent::NextTrack]),
                    spec_tip("TRACKS_PANEL_INPUT_TTS_TRACK_PREFIX_2"@, seq![InputEvent::EnableSoundFontPanel]),
                ];
                let program = if synth.contains_key(track.channel) {
                    seq![
                        spec_tip("TRACKS_PANEL_INPUT_TTS_TRACK_SUFFIX_0"@, seq![InputEvent::PreviousPreset, InputEvent::NextPreset]),
                        spec_tip("TRACKS_PANEL_INPUT_TTS_TRACK_SUFFIX_1"@, seq![InputEvent::PreviousBank, InputEvent::NextBank]),
                        spec_tip(
                            "TRACKS_PANEL_INPUT_TTS_TRACK_SUFFIX_2"@,
                            seq![InputEvent::DecreaseTrackGain, InputEvent::IncreaseTrackGain],
                        ),
                        spec_tip(
                            if track.mute { "TRACKS_PANEL_INPUT_TTS_UNMUTE"@ } else { "TRACKS_PANEL_INPUT_TTS_MUTE"@ },
                            seq![InputEvent::Mute],
                        ),
                        spec_tip(
                            if track.solo { "TRACKS_PANEL_INPUT_TTS_UNSOLO"@ } else { "TRACKS_PANEL_INPUT_TTS_SOLO"@ },
                            seq![InputEvent::Solo],
                        ),
                    ]
                } else {
                    seq![]
                };
                spec_each(add + prefix + program)
            },
            None => spec_each(add),
        }
    } else {
        seq![]
    }
}

/// The state with the selected track replaced.
pub open spec fn spec_with_selected_track(st: StateModel, t: TrackModel) -> StateModel {
    StateModel {
        music: MusicModel {
            tracks: st.music.tracks.update(st.music.selected.unwrap() as int, t),
            ..st.music
        },
        ..st
    }
}

/// The state after adding a track on channel `c`: it is selected, and nothing is.
pub open spec fn spec_added(st: StateModel, c: u8) -> StateModel {
    StateModel {
        music: MusicModel {
            tracks: st.music.tracks.push(
                TrackModel {
                    channel: c,
                    gain: DEFAULT_TRACK_GAIN,
                    mute: false,
                    solo: false,
                    notes: Seq::empty(),
                    effects: Seq::empty(),
                },
            ),
            selected: Some(st.music.tracks.len() as usize),
        },
        selection: SelectionModel { notes: Seq::empty(), effects: Seq::empty(), ..st.selection },
        ..st
    }
}

/// The state after removing the selected track (and any other track on its channel).
pub open spec fn spec_removed(st: StateModel) -> StateModel {
    let s = st.music.selected.unwrap();
    let c = st.music.tracks[s as int].channel;
    StateModel {
        music: MusicModel {
            tracks: spec_without_channel(st.music.tracks, c),
            selected: spec_selected_after_removal(st.music.tracks.len(), s),
        },
        selection: SelectionModel { notes: Seq::empty(), effects: Seq::empty(), ..st.selection },
        ..st
    }
}

/// The selected track with its gain stepped up or down, cycling through 0 to the maximum volume.
pub open spec fn spec_gain_stepped(t: TrackModel, up: bool) -> TrackModel {
    TrackModel { gain: spec_step(t.gain as usize, (MAX_VOLUME + 1) as usize, up) as u8, ..t }
}

/// What the tracks panel does: the new state, and the snapshot made, if any.
pub open spec fn spec_tracks_update(
    st: StateModel,
    synth: Map<u8, Program>,
    default_soundfont: Seq<char>,
    e: Seq<InputEvent>,
) -> (StateModel, Option<SnapshotModel>) {
    let s = st.music.selected.unwrap();
    let t = st.music.tracks[s as int];
    let c = t.channel;
    let p = synth[c];
    match spec_tracks_action(st, synth, e) {
        TracksAction::AddTrack => {
            let free = choose|r: Option<u8>| spec_free_channel(st.music.tracks, r);
            match free {
                Some(ch) => {
                    let st1 = spec_added(st, ch);
                    (
                        st1,
                        Some(
                            spec_snap_both(
                                st,
                                st1,
                                seq![CommandModel::UnsetProgram { channel: ch }],
                                seq![CommandModel::LoadSoundFont { channel: ch, path: default_soundfont }],
                            ),
                        ),
                    )
                },
                None => (st, None),
            }
        },
        TracksAction::RemoveTrack => {
            let st1 = spec_removed(st);
            if synth.contains_key(c) {
                (
                    st1,
                    Some(
                        spec_snap_both(
                            st,
                            st1,
                            seq![spec_set_program(c, p, p.bank_index, p.preset_index)],
                            seq![CommandModel::UnsetProgram { channel: c }],
                        ),
                    ),
                )
            } else {
                (st1, Some(spec_snap_states(st, st1)))
            }
        },
        TracksAction::EnableSoundFont => (
            st,
            Some(spec_snap_io(seq![IOCommand::EnableOpenFile(OpenFileType::SoundFont)])),
        ),
        TracksAction::SelectTrack => {
            let st1 = spec_select_track(st, e, InputEvent::PreviousTrack, InputEvent::NextTrack).0;
            (st1, Some(spec_snap_states(st, st1)))
        },
        TracksAction::NextPreset => (
            st,
            Some(
                spec_snap_commands(
                    seq![spec_set_program(c, p, p.bank_index, p.preset_index)],
                    seq![spec_set_program(c, p, p.bank_index, spec_step(p.preset_index, p.num_presets, true))],
                ),
            ),
        ),
        TracksAction::PreviousPreset => (
            st,
            Some(
                spec_snap_commands(
                    seq![spec_set_program(c, p, p.bank_index, p.preset_index)],
                    seq![spec_set_program(c, p, p.bank_index, spec_step(p.preset_index, p.num_presets, false))],
                ),
            ),
        ),
        TracksAction::NextBank | TracksAction::PreviousBank => {
            let b = spec_step(p.bank_index, p.num_banks, spec_tracks_action(st, synth, e) == TracksAction::NextBank);
            if b == p.bank_index {
                (st, None)
            } else {
                (
                    st,
                    Some(
                        spec_snap_commands(
                            seq![spec_set_program(c, p, p.bank_index, p.preset_index)],
                            seq![spec_set_program(c, p, b, 0)],
                        ),
                    ),
                )
            }
        },
        TracksAction::IncreaseGain | TracksAction::DecreaseGain => {
            let st1 = spec_with_selected_track(
                st,
                spec_gain_stepped(t, spec_tracks_action(st, synth, e) == TracksAction::IncreaseGain),
            );
            (st1, Some(spec_snap_states(st, st1)))
        },
        TracksAction::Mute => {
            let mute = !t.mute;
            let st1 = spec_with_selected_track(st, TrackModel { mute, solo: t.solo && !mute, ..t });
            (st1, Some(spec_snap_states(st, st1)))
        },
        TracksAction::Solo => {
            let solo = !t.solo;
            let st1 = spec_with_selected_track(st, TrackModel { solo, mute: t.mute && !solo, ..t });
            (st1, Some(spec_snap_states(st, st1)))
        },
        _ => (st, None),
    }
}

/// Stepping the preset or the bank of the selected track's program, for a frame whose only
/// event is the step: the state stays, and the snapshot holds the commands that set the program
/// as it was (to undo) and as it becomes (to do).
/// - Next or previous preset: the preset moves one up or one down in the bank, wrapping from the
///   last to the first and from the first to the last; the bank stays.
/// - Next or previous bank: the bank moves one up or one down, wrapping, and its first preset is
///   chosen; with only one bank nothing is recorded.
pub proof fn lemma_program_steps(st: StateModel, synth: Map<u8, Program>, sf: Seq<char>, x: InputEvent)
    requires
        st.music.selected is Some,
        st.music.selected.unwrap() < st.music.tracks.len(),
        synth.contains_key(st.music.tracks[st.music.selected.unwrap() as int].channel),
        x == InputEvent::NextPreset || x == InputEvent::PreviousPreset || x == InputEvent::NextBank
            || x == InputEvent::PreviousBank,
        ({
            let p = synth[st.music.tracks[st.music.selected.unwrap() as int].channel];
            p.preset_index < p.num_presets && p.bank_index < p.num_banks
        }),
    ensures
        ({
            let (st1, snap) = spec_tracks_update(st, synth, sf, seq![x]);
            let c = st.music.tracks[st.music.selected.unwrap() as int].channel;
            let p = synth[c];
            let now = CommandModel::SetProgram {
                channel: c,
                path: p.path@,
                bank_index: p.bank_index,
                preset_index: p.preset_index,
            };
            let preset = if x == InputEvent::NextPreset {
                if p.preset_index + 1 == p.num_presets { 0 } else { p.preset_index + 1 }
            } else if p.preset_index == 0 {
                p.num_presets - 1
            } else {
                p.preset_index - 1
            };
            let bank = if x == InputEvent::NextBank {
                if p.bank_index + 1 == p.num_banks { 0 } else { p.bank_index + 1 }
            } else if p.bank_index == 0 {
                p.num_banks - 1
            } else {
                p.bank_index - 1
            };
            &&& st1 == st
            &&& (x == InputEvent::NextPreset || x == InputEvent::PreviousPreset) ==> snap == Some(
                SnapshotModel {
                    from_state: None,
                    to_state: None,
                    from_commands: Some(seq![now]),
                    to_commands: Some(
                        seq![
                            CommandModel::SetProgram {
                                channel: c,
                                path: p.path@,
                                bank_index: p.bank_index,
                                preset_index: preset as usize,
                            },
                        ],
                    ),
                    io_commands: None,
                },
            )
            &&& (x == InputEvent::NextBank || x == InputEvent::PreviousBank) && p.num_banks == 1 ==> snap is None
            &&& (x == InputEvent::NextBank || x == InputEvent::PreviousBank) && p.num_banks > 1 ==> snap == Some(
                SnapshotModel {
                    from_state: None,
                    to_state: None,
                    from_commands: Some(seq![now]),
                    to_commands: Some(
                        seq![
                            CommandModel::SetProgram {
                                channel: c,
                                path: p.path@,
                                bank_index: bank as usize,
                                preset_index: 0,
                            },
                        ],
                    ),
                    io_commands: None,
                },
            )
        }),
{
    lemma_only_event(x);
    assert(!spec_select_track(st, seq![x], InputEvent::PreviousTrack, InputEvent::NextTrack).1);
}

/// The gain, mute and solo of the selected track, for a frame whose only event is one of them:
/// only that track changes, and a snapshot of the change is made.
/// - Gain up or down: the gain rises or falls by one, cycling through zero to the highest volume.
/// - Mute: mute toggles, and a muted track is no longer soloed.
/// - Solo: solo toggles, and a soloed track is no longer muted.
pub proof fn lemma_track_levels(st: StateModel, synth: Map<u8, Program>, sf: Seq<char>, x: InputEvent)
    requires
        st.music.selected is Some,
        st.music.selected.unwrap() < st.music.tracks.len(),
        synth.contains_key(st.music.tracks[st.music.selected.unwrap() as int].channel),
        x == InputEvent::IncreaseTrackGain || x == InputEvent::DecreaseTrackGain || x == InputEvent::Mute
            || x == InputEvent::Solo,
    ensures
        ({
            let (st1, snap) = spec_tracks_update(st, synth, sf, seq![x]);
            let s = st.music.selected.unwrap() as int;
            let t = st.music.tracks[s];
            let t1 = st1.music.tracks[s];
            &&& st1 == StateModel {
                music: MusicModel { tracks: st.music.tracks.update(s, t1), ..st.music },
                ..st
            }
            &&& snap == Some(
                SnapshotModel {
                    from_state: Some(st),
                    to_state: Some(st1),
                    from_commands: None,
                    to_commands: None,
                    io_commands: None,
                },
            )
            &&& t1.channel == t.channel && t1.notes == t.notes && t1.effects == t.effects
            &&& x == InputEvent::IncreaseTrackGain ==> t1.gain == (if t.gain >= MAX_VOLUME { 0 } else { t.gain + 1 })
                && t1.mute == t.mute && t1.solo == t.solo
            &&& x == InputEvent::DecreaseTrackGain ==> t1.gain == (if t.gain == 0 { MAX_VOLUME as int } else { t.gain - 1 })
                && t1.mute == t.mute && t1.solo == t.solo
            &&& x == InputEvent::Mute ==> t1.gain == t.gain && t1.mute == !t.mute && t1.solo == (t.solo && t.mute)
            &&& x == InputEvent::Solo ==> t1.gain == t.gain && t1.solo == !t.solo && t1.mute == (t.mute && t.solo)
        }),
{
    lemma_only_event(x);
    assert(!spec_select_track(st, seq![x], InputEvent::PreviousTrack, InputEvent::NextTrack).1);
}

/// Adding a track, for a frame whose only event is the addition (a channel is in use when some
/// track is on it): where some channel below 255 is free, a new track is added at the end on the lowest free channel, with the default gain, not
/// muted or soloed, with no notes or effects; it becomes the selected track, nothing is selected
/// in it, and the snapshot undoes by unsetting the channel's program and does by loading the
/// default SoundFont on it. With every channel below 255 in use, nothing happens.
pub proof fn lemma_add_track(st: StateModel, synth: Map<u8, Program>, sf: Seq<char>)
    ensures
        ({
            let (st1, snap) = spec_tracks_update(st, synth, sf, seq![InputEvent::AddTrack]);
            let tracks = st.music.tracks;
            &&& (forall|d: u8| d < 255 ==> #[trigger] spec_channel_used(tracks, d)) ==> st1 == st && snap is None
            &&& (exists|d: u8| d < 255 && !#[trigger] spec_channel_used(tracks, d)) ==> exists|c: u8| {
                &&& c < 255
                &&& !#[trigger] spec_channel_used(tracks, c)
                &&& forall|d: u8| d < c ==> #[trigger] spec_channel_used(tracks, d)
                &&& st1 == StateModel {
                    music: MusicModel {
                        tracks: tracks.push(
                            TrackModel {
                                channel: c,
                                gain: DEFAULT_TRACK_GAIN,
                                mute: false,
                                solo: false,
                                notes: Seq::empty(),
                                effects: Seq::empty(),
                            },
                        ),
                        selected: Some(tracks.len() as usize),
                    },
                    selection: SelectionModel { notes: Seq::empty(), effects: Seq::empty(), ..st.selection },
                    ..st
                }
                &&& snap == Some(
                    SnapshotModel {
                        from_state: Some(st),
                        to_state: Some(st1),
                        from_commands: Some(seq![CommandModel::UnsetProgram { channel: c }]),
                        to_commands: Some(seq![CommandModel::LoadSoundFont { channel: c, path: sf }]),
                        io_commands: None,
                    },
                )
            }
        }),
{
    lemma_only_event(InputEvent::AddTrack);
    let tracks = st.music.tracks;
    let free = choose|r: Option<u8>| spec_free_channel(tracks, r);
    lemma_free_channel_exists(tracks);
    if exists|d: u8| d < 255 && !#[trigger] spec_channel_used(tracks, d) {
        let d = choose|d: u8| d < 255 && !#[trigger] spec_channel_used(tracks, d);
        assert(free is Some);
        let c = free.unwrap();
        assert(!spec_channel_used(tracks, c));
    }
}

/// Removing the selected track, for a frame whose only event is the removal: every track on the
/// selected track's channel is gone, every other track stays, in order, nothing is selected in
/// the tracks, and a snapshot is made; when the channel has a program, undoing sets it again
/// and doing unsets it.
pub proof fn lemma_remove_track(st: StateModel, synth: Map<u8, Program>, sf: Seq<char>)
    requires
        st.music.selected is Some,
        st.music.selected.unwrap() < st.music.tracks.len(),
    ensures
        ({
            let (st1, snap) = spec_tracks_update(st, synth, sf, seq![InputEvent::RemoveTrack]);
            let tracks = st.music.tracks;
            let c = tracks[st.music.selected.unwrap() as int].channel;
            let tracks1 = st1.music.tracks;
            &&& forall|i: int| 0 <= i < tracks1.len() ==> #[trigger] tracks1[i].channel != c
            &&& forall|i: int| 0 <= i < tracks.len() && tracks[i].channel != c ==> tracks1.contains(#[trigger] tracks[i])
            &&& forall|i: int| 0 <= i < tracks1.len() ==> tracks.contains(#[trigger] tracks1[i])
            &&& tracks1.len() < tracks.len()
            &&& st1.selection == SelectionModel { notes: Seq::empty(), effects: Seq::empty(), ..st.selection }
            &&& st1 == StateModel { music: st1.music, selection: st1.selection, ..st }
            &&& snap is Some && snap.unwrap().from_state == Some(st) && snap.unwrap().to_state == Some(st1)
            &&& synth.contains_key(c) ==> snap.unwrap().to_commands == Some(
                seq![CommandModel::UnsetProgram { channel: c }],
            )
        }),
{
    lemma_only_event(InputEvent::RemoveTrack);
    broadcast use vstd::seq_lib::group_filter_ensures;
    let tracks = st.music.tracks;
    let s = st.music.selected.unwrap() as int;
    let c = tracks[s].channel;
    let pred = |t: TrackModel| t.channel != c;
    let tracks1 = tracks.filter(pred);
    assert(tracks1 == spec_without_channel(tracks, c));
    assert forall|i: int| 0 <= i < tracks1.len() implies tracks.contains(#[trigger] tracks1[i]) by {
        assert(tracks1.contains(tracks1[i]));
        tracks.lemma_filter_contains_rev(pred, tracks1[i]);
    }
    assert(!tracks1.contains(tracks[s])) by {
        if tracks1.contains(tracks[s]) {
            let k = choose|k: int| 0 <= k < tracks1.len() && tracks1[k] == tracks[s];
            assert(pred(tracks1[k]));
        }
    }
    tracks.lemma_filter_len(pred);
    if tracks1.len() == tracks.len() {
        assert(tracks1.len() >= tracks.len());
        lemma_filter_all(tracks, pred, s);
    }
}

/// A filter that keeps as many items as there are drops none: every item is kept.
proof fn lemma_filter_all(s: Seq<TrackModel>, pred: spec_fn(TrackModel) -> bool, k: int)
    requires
        0 <= k < s.len(),
        !pred(s[k]),
    ensures
        s.filter(pred).len() < s.len(),
    decreases s.len(),
{
    reveal(Seq::filter);
    s.drop_last().lemma_filter_len(pred);
    if k < s.len() - 1 {
        lemma_filter_all(s.drop_last(), pred, k);
    }
}

/// A list of tracks and their parameters.
#[derive(Debug)]
pub struct TracksPanel {
    /// The SoundFont that a new track gets.
    pub default_soundfont_path: String,
}

impl TracksPanel {
    pub fn new(default_soundfont_path: String) -> (r: TracksPanel)
        ensures
            r.default_soundfont_path@ == default_soundfont_path@,
    {
        TracksPanel { default_soundfont_path }
    }

    /// The commands that set a program's preset (before, after).
    fn set_preset(channel: u8, program: &Program, up: bool) -> (r: Snapshot)
        ensures
            r@ == spec_snap_commands(
                seq![spec_set_program(channel, *program, program.bank_index, program.preset_index)],
                seq![spec_set_program(channel, *program, program.bank_index, spec_step(program.preset_index, program.num_presets, up))],
            ),
    {
        let mut index = Index::new(program.preset_index, program.num_presets);
        index.increment(up);
        let c0 = one_command(Command::SetProgram {
            channel,
            path: program.path.clone(),
            bank_index: program.bank_index,
            preset_index: program.preset_index,
        });
        let c1 = one_command(Command::SetProgram {
            channel,
            path: program.path.clone(),
            bank_index: program.bank_index,
            preset_index: index.get(),
        });
        Snapshot::from_commands(c0, &c1)
    }

    /// The commands that set a program's bank and reset its preset, if the bank changes.
    fn set_bank(channel: u8, program: &Program, up: bool) -> (r: Option<Snapshot>)
        ensures
            ({
                let b = spec_step(program.bank_index, program.num_banks, up);
                if b == program.bank_index {
                    r is None
                } else {
                    r matches Some(s) && s@ == spec_snap_commands(
                        seq![spec_set_program(channel, *program, program.bank_index, program.preset_index)],
                        seq![spec_set_program(channel, *program, b, 0)],
                    )
                }
            }),
    {
        let mut index = Index::new(program.bank_index, program.num_banks);
        index.increment(up);
        let bank_index = index.get();
        if bank_index == program.bank_index {
            None
        } else {
            let c0 = one_command(Command::SetProgram {
                channel,
                path: program.path.clone(),
                bank_index: program.bank_index,
                preset_index: program.preset_index,
            });
            let c1 = one_command(Command::SetProgram {
                channel,
                path: program.path.clone(),
                bank_index,
                preset_index: 0,
            });
            Some(Snapshot::from_commands(c0, &c1))
        }
    }

    /// What the tracks panel says in a frame of input.
    pub fn speech(&self, state: &State, synth: &SynthState, input: &Input) -> (r: Vec<Utterance>)
        requires
            state@.wf(),
        ensures
            speech_view(r@) == spec_tracks_speech(state@, synth.programs@, input.events@),
    {
        let mut r = silence();
        let ghost spec = spec_tracks_speech(state@, synth.programs@, input.events@);
        if input.happened(InputEvent::StatusTTS) {
            match state.music.selected {
                Some(i) => {
                    let track = &state.music.midi_tracks[i];
                    let mut u = say(text1("TRACKS_PANEL_STATUS_TTS_PREFIX", Value::Int(track.channel as u64)));
                    match synth.programs.get(&track.channel) {
                        Some(p) => {
                            let mut values: Vec<Value> = Vec::new();
                            values.push(Value::Str(p.preset_name.clone()));
                            values.push(Value::Int(p.bank as u64));
                            values.push(Value::Int(track.gain as u64));
                            values.push(Value::FileName(p.path.clone()));
                            proof {
                                assert(values_view(values@) =~= seq![
                                    ValueModel::Str(p.preset_name@),
                                    ValueModel::Int(p.bank as u64),
                                    ValueModel::Int(track.gain as u64),
                                    ValueModel::FileName(p.path@),
                                ]);
                            }
                            join(&mut u, text_with("TRACKS_PANEL_STATUS_TTS_SOUNDFONT", values));
                            if track.mute {
                                join(&mut u, text("TRACKS_PANEL_STATUS_TTS_MUTED"));
                            }
                            if track.solo {
                                join(&mut u, text("TRACKS_PANEL_STATUS_TTS_SOLOED"));
                            }
                        },
                        None => join(&mut u, text("TRACKS_PANEL_STATUS_TTS_NO_SOUNDFONT")),
                    }
                    proof {
                        let t = state@.music.tracks[i as int];
                        let prefix = spec_text1("TRACKS_PANEL_STATUS_TTS_PREFIX"@, ValueModel::Int(t.channel as u64));
                        if synth.programs@.contains_key(t.channel) {
                            let p = synth.programs@[t.channel];
                            let sf = PhraseModel::Text {
                                key: "TRACKS_PANEL_STATUS_TTS_SOUNDFONT"@,
                                values: seq![
                                    ValueModel::Str(p.preset_name@),
                                    ValueModel::Int(p.bank as u64),
                                    ValueModel::Int(t.gain as u64),
                                    ValueModel::FileName(p.path@),
                                ],
                            };
                            let muted = if t.mute { seq![spec_text("TRACKS_PANEL_STATUS_TTS_MUTED"@)] } else { seq![] };
                            let soloed = if t.solo { seq![spec_text("TRACKS_PANEL_STATUS_TTS_SOLOED"@)] } else { seq![] };
                            assert(u@ =~= seq![prefix, sf] + muted + soloed);
                        } else {
                            assert(u@ =~= seq![prefix, spec_text("TRACKS_PANEL_STATUS_TTS_NO_SOUNDFONT"@)]);
                        }
                    }
                    add_utterance(&mut r, u);
                },
                None => add_phrase(&mut r, text("TRACKS_PANEL_STATUS_TTS_NO_SELECTION")),
            }
            proof {
                assert(speech_view(r@) =~= spec);
            }
            return r;
        }
        if !input.happened(InputEvent::InputTTS) {
            return r;
        }
        add_phrase(&mut r, tip("TRACKS_PANEL_INPUT_TTS_ADD", ev1(InputEvent::AddTrack)));
        match state.music.selected {
            Some(i) => {
                let track = &state.music.midi_tracks[i];
                add_phrase(&mut r, tip("TRACKS_PANEL_INPUT_TTS_TRACK_PREFIX_0", ev1(InputEvent::RemoveTrack)));
                add_phrase(
                    &mut r,
                    tip("TRACKS_PANEL_INPUT_TTS_TRACK_PREFIX_1", ev2(InputEvent::PreviousTrack, InputEvent::NextTrack)),
                );
                add_phrase(&mut r, tip("TRACKS_PANEL_INPUT_TTS_TRACK_PREFIX_2", ev1(InputEvent::EnableSoundFontPanel)));
                if synth.programs.contains_key(&track.channel) {
                    add_phrase(
                        &mut r,
                        tip("TRACKS_PANEL_INPUT_TTS_TRACK_SUFFIX_0", ev2(InputEvent::PreviousPreset, InputEvent::NextPreset)),
                    );
                    add_phrase(
                        &mut r,
                        tip("TRACKS_PANEL_INPUT_TTS_TRACK_SUFFIX_1", ev2(InputEvent::PreviousBank, InputEvent::NextBank)),
                    );
                    add_phrase(
                        &mut r,
                        tip(
                            "TRACKS_PANEL_INPUT_TTS_TRACK_SUFFIX_2",
                            ev2(InputEvent::DecreaseTrackGain, InputEvent::IncreaseTrackGain),
                        ),
                    );
                    if track.mute {
                        add_phrase(&mut r, tip("TRACKS_PANEL_INPUT_TTS_UNMUTE", ev1(InputEvent::Mute)));
                    } else {
                        add_phrase(&mut r, tip("TRACKS_PANEL_INPUT_TTS_MUTE", ev1(InputEvent::Mute)));
                    }
                    if track.solo {
                        add_phrase(&mut r, tip("TRACKS_PANEL_INPUT_TTS_UNSOLO", ev1(InputEvent::Solo)));
                    } else {
                        add_phrase(&mut r, tip("TRACKS_PANEL_INPUT_TTS_SOLO", ev1(InputEvent::Solo)));
                    }
                }
            },
            None => {},
        }
        proof {
            let add = seq![spec_tip("TRACKS_PANEL_INPUT_TTS_ADD"@, seq![InputEvent::AddTrack])];
            if state.music.selected is Some {
                let track = state@.music.tracks[state.music.selected.unwrap() as int];
                let prefix = seq![
                    spec_tip("TRACKS_PANEL_INPUT_TTS_TRACK_PREFIX_0"@, seq![InputEvent::RemoveTrack]),
                    spec_tip("TRACKS_PANEL_INPUT_TTS_TRACK_PREFIX_1"@, seq![InputEvent::PreviousTrack, InputEvent::NextTrack]),
                    spec_tip("TRACKS_PANEL_INPUT_TTS_TRACK_PREFIX_2"@, seq![InputEvent::EnableSoundFontPanel]),
                ];
                if synth.programs@.contains_key(track.channel) {
                    let program = seq![
                        spec_tip("TRACKS_PANEL_INPUT_TTS_TRACK_SUFFIX_0"@, seq![InputEvent::PreviousPreset, InputEvent::NextPreset]),
                        spec_tip("TRACKS_PANEL_INPUT_TTS_TRACK_SUFFIX_1"@, seq![InputEvent::PreviousBank, InputEvent::NextBank]),
                        spec_tip(
                            "TRACKS_PANEL_INPUT_TTS_TRACK_SUFFIX_2"@,
                            seq![InputEvent::DecreaseTrackGain, InputEvent::IncreaseTrackGain],
                        ),
                        spec_tip(
                            if track.mute { "TRACKS_PANEL_INPUT_TTS_UNMUTE"@ } else { "TRACKS_PANEL_INPUT_TTS_MUTE"@ },
                            seq![InputEvent::Mute],
                        ),
                        spec_tip(
                            if track.solo { "TRACKS_PANEL_INPUT_TTS_UNSOLO"@ } else { "TRACKS_PANEL_INPUT_TTS_SOLO"@ },
                            seq![InputEvent::Solo],
                        ),
                    ];
                    assert(spec_each(add + prefix + program) =~= spec_each(add + prefix + program));
                    assert(speech_view(r@) =~= spec_each(add + prefix + program));
                } else {
                    assert(speech_view(r@) =~= spec_each(add + prefix + seq![]));
                }
            } else {
                assert(speech_view(r@) =~= spec_each(add));
            }
            assert(speech_view(r@) =~= spec);
        }
        r
    }

    /// Apply a frame of input: add or remove a track, select a track, or set the program, gain,
    /// mute or solo of the selected track. What the panel says comes from `speech`.
    ///
    /// A returned snapshot's commands to apply (its "to" commands) are to be sent to the
    /// synthesizer.
    pub fn update(&self, state: &mut State, synth: &SynthState, input: &Input) -> (r: Option<Snapshot>)
        requires
            old(state)@.wf(),
        ensures
            (final(state)@, opt_snapshot_view(r)) == spec_tracks_update(
                old(state)@,
                synth.programs@,
                self.default_soundfont_path@,
                input.events@,
            ),
    {
        let ghost st0 = state@;
        if input.happened(InputEvent::StatusTTS) || input.happened(InputEvent::InputTTS) {
            return None;
        }
        if input.happened(InputEvent::AddTrack) {
            let s0 = state.duplicate();
            let free = free_channel(&state.music.midi_tracks);
            proof {
                assert(forall|r: Option<u8>| spec_free_channel(st0.music.tracks, r) ==> r == free) by {
                    assert forall|r: Option<u8>| spec_free_channel(st0.music.tracks, r) implies r == free by {
                        match (r, free) {
                            (Some(a), Some(b)) => {
                                if a < b {
                                    assert(spec_channel_used(st0.music.tracks, a));
                                } else if b < a {
                                    assert(spec_channel_used(st0.music.tracks, b));
                                }
                            },
                            (Some(a), None) => {
                                assert(spec_channel_used(st0.music.tracks, a));
                            },
                            (None, Some(b)) => {
                                assert(spec_channel_used(st0.music.tracks, b));
                            },
                            (None, None) => {},
                        }
                    }
                }
            }
            match free {
                Some(channel) => {
                    state.selection.deselect();
                    state.music.selected = Some(state.music.midi_tracks.len());
                    let ghost tracks0 = state.music.midi_tracks@;
                    state.music.midi_tracks.push(MidiTrack::new(channel));
                    proof {
                        assert(tracks_view(state.music.midi_tracks@) =~= tracks_view(tracks0).push(
                            state.music.midi_tracks@.last()@,
                        ));
                        assert(state@ =~= spec_added(st0, channel));
                    }
                    let c0 = one_command(Command::UnsetProgram { channel });
                    let c1 = one_command(
                        Command::LoadSoundFont { channel, path: self.default_soundfont_path.clone() },
                    );
                    return Some(Snapshot::from_states_and_commands(s0, state, c0, &c1));
                },
                None => return None,
            }
        }
        let selected = match state.music.selected {
            None => return None,
            Some(s) => s,
        };
        let channel = state.music.midi_tracks[selected].channel;
        proof {
            assert(st0.music.tracks[selected as int] == state.music.midi_tracks@[selected as int]@);
        }
        if input.happened(InputEvent::RemoveTrack) {
            let s0 = state.duplicate();
            let len = state.music.midi_tracks.len();
            state.music.selected = if len == 1 {
                None
            } else if selected == 0 {
                Some(0)
            } else {
                Some(selected - 1)
            };
            state.selection.deselect();
            remove_channel(&mut state.music.midi_tracks, channel);
            proof {
                assert(state@ =~= spec_removed(st0));
            }
            match synth.programs.get(&channel) {
                Some(program) => {
                    let c0 = one_command(Command::SetProgram {
                        channel,
                        path: program.path.clone(),
                        bank_index: program.bank_index,
                        preset_index: program.preset_index,
                    });
                    let c1 = one_command(Command::UnsetProgram { channel });
                    return Some(Snapshot::from_states_and_commands(s0, state, c0, &c1));
                },
                None => return Some(Snapshot::from_states(s0, state)),
            }
        }
        if input.happened(InputEvent::EnableSoundFontPanel) {
            return Some(
                Snapshot::from_io_commands(one_io_command(IOCommand::EnableOpenFile(OpenFileType::SoundFont))),
            );
        }
        let snapshot = select_track(state, input, InputEvent::PreviousTrack, InputEvent::NextTrack);
        if snapshot.is_some() {
            return snapshot;
        }
        let program = match synth.programs.get(&channel) {
            None => return None,
            Some(p) => p,
        };
        if input.happened(InputEvent::NextPreset) {
            Some(TracksPanel::set_preset(channel, program, true))
        } else if input.happened(InputEvent::PreviousPreset) {
            Some(TracksPanel::set_preset(channel, program, false))
        } else if input.happened(InputEvent::NextBank) {
            TracksPanel::set_bank(channel, program, true)
        } else if input.happened(InputEvent::PreviousBank) {
            TracksPanel::set_bank(channel, program, false)
        } else if input.happened(InputEvent::IncreaseTrackGain) || input.happened(InputEvent::DecreaseTrackGain) {
            let up = input.happened(InputEvent::IncreaseTrackGain);
            let s0 = state.duplicate();
            let mut index = Index::new(state.music.midi_tracks[selected].gain as usize, MAX_VOLUME as usize + 1);
            index.increment(up);
            let ghost tracks0 = state.music.midi_tracks@;
            state.music.midi_tracks[selected].gain = index.get() as u8;
            proof {
                assert(tracks_view(state.music.midi_tracks@) =~= tracks_view(tracks0).update(
                    selected as int,
                    spec_gain_stepped(tracks_view(tracks0)[selected as int], up),
                ));
                assert(state@ =~= spec_tracks_update(st0, synth.programs@, self.default_soundfont_path@, input.events@).0);
            }
            Some(Snapshot::from_states(s0, state))
        } else if input.happened(InputEvent::Mute) || input.happened(InputEvent::Solo) {
            let mute = input.happened(InputEvent::Mute);
            let s0 = state.duplicate();
            let ghost tracks0 = state.music.midi_tracks@;
            if mute {
                state.music.midi_tracks[selected].mute = !state.music.midi_tracks[selected].mute;
                if state.music.midi_tracks[selected].mute && state.music.midi_tracks[selected].solo {
                    state.music.midi_tracks[selected].solo = false;
                }
            } else {
                state.music.midi_tracks[selected].solo = !state.music.midi_tracks[selected].solo;
                if state.music.midi_tracks[selected].mute && state.music.midi_tracks[selected].solo {
                    state.music.midi_tracks[selected].mute = false;
                }
            }
            proof {
                assert(tracks_view(state.music.midi_tracks@) =~= tracks_view(tracks0).update(
                    selected as int,
                    state.music.midi_tracks@[selected as int]@,
                ));
                assert(state@ =~= spec_tracks_update(st0, synth.programs@, self.default_soundfont_path@, input.events@).0);
            }
            Some(Snapshot::from_states(s0, state))
        } else {
            None
        }
    }
}

/// No two tracks share a channel.
pub open spec fn channels_distinct(tracks: Seq<TrackModel>) -> bool {
    forall|i: int, j: int| 0 <= i < j < tracks.len() ==> tracks[i].channel != tracks[j].channel
}

/// Removing a channel that no track uses keeps every track.
proof fn lemma_without_unused_channel(tracks: Seq<TrackModel>, c: u8)
    requires
        forall|i: int| 0 <= i < tracks.len() ==> #[trigger] tracks[i].channel != c,
    ensures
        spec_without_channel(tracks, c) == tracks,
    decreases tracks.len(),
{
    reveal_with_fuel(Seq::<_>::filter, 1);
    if tracks.len() > 0 {
        lemma_without_unused_channel(tracks.drop_last(), c);
        assert(tracks.drop_last().push(tracks.last()) =~= tracks);
    } else {
        assert(spec_without_channel(tracks, c) =~= tracks);
    }
}

/// Removing the channel of one track, when no two tracks share a channel, removes that track
/// alone.
proof fn lemma_without_channel_len(tracks: Seq<TrackModel>, k: int)
    requires
        channels_distinct(tracks),
        0 <= k < tracks.len(),
    ensures
        spec_without_channel(tracks, tracks[k].channel).len() == tracks.len() - 1,
    decreases tracks.len(),
{
    reveal_with_fuel(Seq::<_>::filter, 1);
    let c = tracks[k].channel;
    let rest = tracks.drop_last();
    if k == tracks.len() - 1 {
        assert forall|i: int| 0 <= i < rest.len() implies #[trigger] rest[i].channel != c by {
            assert(rest[i] == tracks[i]);
        }
        lemma_without_unused_channel(rest, c);
    } else {
        assert(channels_distinct(rest)) by {
            assert forall|i: int, j: int| 0 <= i < j < rest.len() implies rest[i].channel != rest[j].channel by {
                assert(rest[i] == tracks[i]);
                assert(rest[j] == tracks[j]);
            }
        }
        assert(rest[k] == tracks[k]);
        lemma_without_channel_len(rest, k);
    }
}

/// The tracks panel keeps the state valid and the channels of the tracks distinct: a new track
/// gets a channel that no track uses, and removing the selected track's channel removes that
/// track alone.
pub proof fn lemma_tracks_keep_wf(st: StateModel, synth: Map<u8, Program>, path: Seq<char>, e: Seq<InputEvent>)
    requires
        st.wf(),
        channels_distinct(st.music.tracks),
    ensures
        spec_tracks_update(st, synth, path, e).0.wf(),
        channels_distinct(spec_tracks_update(st, synth, path, e).0.music.tracks),
{
    let st1 = spec_tracks_update(st, synth, path, e).0;
    match spec_tracks_action(st, synth, e) {
        TracksAction::AddTrack => {
            let free = choose|r: Option<u8>| spec_free_channel(st.music.tracks, r);
            if free is Some {
                let ch = free.unwrap();
                if spec_free_channel(st.music.tracks, free) {
                    assert forall|i: int, j: int|
                        0 <= i < j < st1.music.tracks.len() implies st1.music.tracks[i].channel
                        != st1.music.tracks[j].channel by {
                        if j == st.music.tracks.len() {
                            assert(st1.music.tracks[i] == st.music.tracks[i]);
                            if st.music.tracks[i].channel == ch {
                                assert(spec_channel_used(st.music.tracks, ch));
                            }
                        }
                    }
                } else {
                    assert(exists|r: Option<u8>| spec_free_channel(st.music.tracks, r)) by {
                        lemma_free_channel_exists(st.music.tracks);
                    }
                }
                assert forall|t: int, i: int|
                    0 <= t < st1.music.tracks.len() && 0 <= i < st1.music.tracks[t].notes.len() implies #[trigger] crate::model::note_wf(
                    st1.music.tracks[t].notes[i],
                ) by {
                    assert(t < st.music.tracks.len());
                    assert(st1.music.tracks[t] == st.music.tracks[t]);
                }
            }
        },
        TracksAction::RemoveTrack => {
            let s = st.music.selected.unwrap();
            let c = st.music.tracks[s as int].channel;
            let kept = spec_without_channel(st.music.tracks, c);
            lemma_without_channel_len(st.music.tracks, s as int);
            assert forall|t: int, i: int|
                0 <= t < kept.len() && 0 <= i < kept[t].notes.len() implies #[trigger] crate::model::note_wf(
                kept[t].notes[i],
            ) by {
                assert(kept.contains(kept[t]));
                st.music.tracks.lemma_filter_contains_rev(|x: TrackModel| x.channel != c, kept[t]);
                let k = choose|k: int| 0 <= k < st.music.tracks.len() && st.music.tracks[k] == kept[t];
                assert(crate::model::note_wf(st.music.tracks[k].notes[i]));
            }
            assert forall|i: int, j: int| 0 <= i < j < kept.len() implies kept[i].channel != kept[j].channel by {
                lemma_filter_keeps_order(st.music.tracks, c, i, j);
            }
        },
        TracksAction::SelectTrack => {
            assert(st1.music.tracks == st.music.tracks);
        },
        TracksAction::IncreaseGain | TracksAction::DecreaseGain | TracksAction::Mute | TracksAction::Solo => {
            let sel = st.music.selected.unwrap() as int;
            assert forall|t: int, i: int|
                0 <= t < st1.music.tracks.len() && 0 <= i < st1.music.tracks[t].notes.len() implies #[trigger] crate::model::note_wf(
                st1.music.tracks[t].notes[i],
            ) by {
                assert(st1.music.tracks[t].notes == st.music.tracks[t].notes);
            }
            assert forall|i: int, j: int|
                0 <= i < j < st1.music.tracks.len() implies st1.music.tracks[i].channel != st1.music.tracks[j].channel by {
                assert(st1.music.tracks[i].channel == st.music.tracks[i].channel);
                assert(st1.music.tracks[j].channel == st.music.tracks[j].channel);
            }
        },
        _ => {},
    }
}

/// Some answer to "which channel is free" exists.
proof fn lemma_free_channel_exists(tracks: Seq<TrackModel>)
    ensures
        exists|r: Option<u8>| spec_free_channel(tracks, r),
{
    if exists|d: u8| d < 255 && !spec_channel_used(tracks, d) {
        let d0 = choose|d: u8| d < 255 && !spec_channel_used(tracks, d);
        lemma_least_free(tracks, d0);
    } else {
        assert(spec_free_channel(tracks, None));
    }
}

/// Below a free channel there is a least free channel.
proof fn lemma_least_free(tracks: Seq<TrackModel>, d: u8)
    requires
        d < 255,
        !spec_channel_used(tracks, d),
    ensures
        exists|r: Option<u8>| spec_free_channel(tracks, r),
    decreases d,
{
    if exists|e: u8| e < d && !spec_channel_used(tracks, e) {
        let e = choose|e: u8| e < d && !spec_channel_used(tracks, e);
        lemma_least_free(tracks, e);
    } else {
        assert(spec_free_channel(tracks, Some(d)));
    }
}

/// Removing the tracks on a channel keeps the other tracks in order, so distinct channels stay
/// distinct.
proof fn lemma_filter_keeps_order(tracks: Seq<TrackModel>, c: u8, i: int, j: int)
    requires
        channels_distinct(tracks),
        0 <= i < j < spec_without_channel(tracks, c).len(),
    ensures
        spec_without_channel(tracks, c)[i].channel != spec_without_channel(tracks, c)[j].channel,
    decreases tracks.len(),
{
    reveal_with_fuel(Seq::<_>::filter, 1);
    let rest = tracks.drop_last();
    let kept = spec_without_channel(tracks, c);
    let kr = spec_without_channel(rest, c);
    assert(channels_distinct(rest)) by {
        assert forall|a: int, b: int| 0 <= a < b < rest.len() implies rest[a].channel != rest[b].channel by {
            assert(rest[a] == tracks[a]);
            assert(rest[b] == tracks[b]);
        }
    }
    rest.lemma_filter_len(|x: TrackModel| x.channel != c);
    if tracks.last().channel != c && j == kept.len() - 1 {
        assert(kept[j] == tracks.last());
        assert(kept[i] == kr[i]);
        assert(kr.contains(kr[i]));
        rest.lemma_filter_contains_rev(|x: TrackModel| x.channel != c, kr[i]);
        let k = choose|k: int| 0 <= k < rest.len() && rest[k] == kr[i];
        assert(rest[k] == tracks[k]);
        assert(tracks[k].channel != tracks[tracks.len() - 1].channel);
    } else {
        assert(kept[i] == kr[i]);
        assert(kept[j] == kr[j]);
        lemma_filter_keeps_order(rest, c, i, j);
    }
}

/// A track is never both muted and soloed after it is muted or soloed: muting unsolos it, and
/// soloing unmutes it.
pub proof fn lemma_mute_solo_exclusive(st: StateModel, synth: Map<u8, Program>, path: Seq<char>, e: Seq<InputEvent>)
    requires
        st.wf(),
        spec_tracks_action(st, synth, e) == TracksAction::Mute || spec_tracks_action(st, synth, e)
            == TracksAction::Solo,
    ensures
        ({
            let st1 = spec_tracks_update(st, synth, path, e).0;
            let t = st1.music.tracks[st1.music.selected.unwrap() as int];
            !(t.mute && t.solo)
        }),
{
}

} // verus!
