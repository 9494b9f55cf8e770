use vstd::prelude::*;
use crate::index::{spec_step_down, spec_step_up, Index};
use crate::input::{lemma_only_event, Input, InputEvent};
use crate::model::{
    effect_is, effect_type_at, spec_effect_is, spec_effect_type, spec_increment, Effect, EffectType, MusicModel,
    SelectionModel, State, StateModel, TrackModel, ValuelessEffectType, MAX_CHORUS_REVERB, MAX_NOTE, MAX_PAN,
    MAX_PITCH_BEND, MAX_PRESSURE, MIDDLE_C, MIN_NOTE, MIN_PAN,
};
use crate::piano_roll::panel::{spec_track, spec_with_track};
use crate::snapshot::{opt_snapshot_view, spec_snap_states, Snapshot, SnapshotModel};
use crate::synth::{Program, SynthState};

verus! {

broadcast use vstd::std_specs::hash::group_hash_axioms;

/// Is this effect at the cursor and of the current kind?
pub open spec fn spec_effect_matches(e: Effect, cursor: u64, ve: ValuelessEffectType) -> bool {
    e.time == cursor && spec_effect_is(ve, e.effect)
}

/// Is position `i` the first effect at the cursor of the current kind?
pub open spec fn spec_is_first(s: Seq<Effect>, cursor: u64, ve: ValuelessEffectType, i: int) -> bool {
    &&& 0 <= i < s.len()
    &&& spec_effect_matches(s[i], cursor, ve)
    &&& forall|j: int| 0 <= j < i ==> !spec_effect_matches(#[trigger] s[j], cursor, ve)
}

/// The position of the first effect at the cursor of the current kind, if there is one.
pub open spec fn spec_first_effect(s: Seq<Effect>, cursor: u64, ve: ValuelessEffectType) -> Option<int> {
    if exists|i: int| spec_is_first(s, cursor, ve, i) {
        Some(choose|i: int| spec_is_first(s, cursor, ve, i))
    } else {
        None
    }
}

/// The rank of an effect's kind in the order of the kinds.
pub open spec fn spec_rank(e: EffectType) -> int {
    match e {
        EffectType::Chorus(_) => 0,
        EffectType::Pan(_) => 1,
        EffectType::Reverb(_) => 2,
        EffectType::PitchBend(_) => 3,
        EffectType::ChannelPressure(_) => 4,
        EffectType::PolyphonicKeyPressure { .. } => 5,
    }
}

/// Does `a` come before `b` in the order of effect types: by kind, then by value (for key
/// pressure, by key and then by value)?
pub open spec fn spec_type_lt(a: EffectType, b: EffectType) -> bool {
    match (a, b) {
        (EffectType::Chorus(x), EffectType::Chorus(y)) => x < y,
        (EffectType::Pan(x), EffectType::Pan(y)) => x < y,
        (EffectType::Reverb(x), EffectType::Reverb(y)) => x < y,
        (EffectType::PitchBend(x), EffectType::PitchBend(y)) => x < y,
        (EffectType::ChannelPressure(x), EffectType::ChannelPressure(y)) => x < y,
        (
            EffectType::PolyphonicKeyPressure { key: k1, value: v1 },
            EffectType::PolyphonicKeyPressure { key: k2, value: v2 },
        ) => k1 < k2 || (k1 == k2 && v1 < v2),
        _ => spec_rank(a) < spec_rank(b),
    }
}

/// Does effect `a` come before effect `b`: by time, then by type?
pub open spec fn spec_effect_lt(a: Effect, b: Effect) -> bool {
    a.time < b.time || (a.time == b.time && spec_type_lt(a.effect, b.effect))
}

/// The latest effect of a kind: the last one in the order of effects, if there is one.
pub open spec fn spec_latest(s: Seq<Effect>, ve: ValuelessEffectType) -> Option<Effect>
    decreases s.len(),
{
    if s.len() == 0 {
        None
    } else {
        let r = spec_latest(s.drop_last(), ve);
        let e = s.last();
        if !spec_effect_is(ve, e.effect) {
            r
        } else {
            match r {
                None => Some(e),
                Some(b) => if spec_effect_lt(e, b) {
                    Some(b)
                } else {
                    Some(e)
                },
            }
        }
    }
}

/// The effect of a kind that a program starts with.
pub open spec fn spec_default_effect(ve: ValuelessEffectType, p: Program) -> EffectType {
    match ve {
        ValuelessEffectType::Chorus => EffectType::Chorus(p.chorus),
        ValuelessEffectType::Pan => EffectType::Pan(p.pan),
        ValuelessEffectType::Reverb => EffectType::Reverb(p.reverb),
        ValuelessEffectType::PitchBend => EffectType::PitchBend(0),
        ValuelessEffectType::ChannelPressure => EffectType::ChannelPressure(0),
        ValuelessEffectType::PolyphonicKeyPressure => EffectType::PolyphonicKeyPressure { key: MIDDLE_C, value: 0 },
    }
}

/// The current kind of effect.
pub open spec fn spec_kind(st: StateModel) -> ValuelessEffectType {
    spec_effect_type(st.effect_types.index)
}

/// The position of the selected effect: the first effect of the selected track at the cursor
/// of the current kind.
pub open spec fn spec_selected_effect(st: StateModel) -> Option<int> {
    if st.music.selected is None {
        None
    } else {
        spec_first_effect(spec_track(st).effects, st.time.cursor, spec_kind(st))
    }
}

/// The state with effect `i` of the selected track replaced.
pub open spec fn spec_with_effect(st: StateModel, i: int, e: Effect) -> StateModel {
    let track = spec_track(st);
    spec_with_track(st, TrackModel { effects: track.effects.update(i, e), ..track })
}

/// Add an effect of the current kind at the cursor: it takes the type of the latest effect of
/// its kind, or the program's default. Nothing is selected afterwards. Nothing happens when the
/// selected track already has an effect of that kind at the cursor.
pub open spec fn spec_effect_added(st: StateModel, synth: Map<u8, Program>) -> (StateModel, Option<SnapshotModel>) {
    if st.music.selected is None || spec_selected_effect(st) is Some {
        (st, None)
    } else {
        let track = spec_track(st);
        let ve = spec_kind(st);
        let t = match spec_latest(track.effects, ve) {
            Some(b) => b.effect,
            None => spec_default_effect(ve, synth[track.channel]),
        };
        let st1 = StateModel {
            selection: SelectionModel { notes: Seq::empty(), effects: Seq::empty(), ..st.selection },
            ..spec_with_track(
                st,
                TrackModel { effects: track.effects.push(Effect { time: st.time.cursor, effect: t }), ..track },
            )
        };
        (st1, Some(spec_snap_states(st, st1)))
    }
}

/// A pitch bend stepped `sens` times (stopping at the end of its range), and whether a
/// snapshot is made: only if the range ended after at least one step. So a bend that moves by
/// every step makes no snapshot, and that change cannot be undone; this follows the panel's
/// own stepping loop.
pub open spec fn spec_bend(v: u16, up: bool, sens: usize) -> (u16, bool) {
    let dist: int = if up { if v < MAX_PITCH_BEND { MAX_PITCH_BEND - v } else { 0 } } else { v as int };
    let k: int = if dist < sens { dist } else { sens as int };
    ((if up { v + k } else { v - k }) as u16, 0 < dist < sens)
}

/// What the effects panel does with a frame of input: the first of these that applies.
#[derive(Clone, Copy, Debug, PartialEq, Eq, Structural)]
pub enum EffectsAction {
    Speak,
    NextKind,
    PreviousKind,
    ValueUp,
    ValueDown,
    KeyUp,
    KeyDown,
    Nothing,
}

pub open spec fn spec_effects_action(e: Seq<InputEvent>) -> EffectsAction {
    if e.contains(InputEvent::InputTTS) || e.contains(InputEvent::StatusTTS) {
        EffectsAction::Speak
    } else if e.contains(InputEvent::NextEffect) {
        EffectsAction::NextKind
    } else if e.contains(InputEvent::PreviousEffect) {
        EffectsAction::PreviousKind
    } else if e.contains(InputEvent::IncrementEffectValue) {
        EffectsAction::ValueUp
    } else if e.contains(InputEvent::DecrementEffectValue) {
        EffectsAction::ValueDown
    } else if e.contains(InputEvent::IncrementAftertouchNote) {
        EffectsAction::KeyUp
    } else if e.contains(InputEvent::DecrementAftertouchNote) {
        EffectsAction::KeyDown
    } else {
        EffectsAction::Nothing
    }
}

/// Step the value of the selected effect (a pitch bend by the sensitivity), or add an effect if
/// there is none.
pub open spec fn spec_value_stepped(st: StateModel, synth: Map<u8, Program>, sens: usize, up: bool) -> (StateModel, Option<SnapshotModel>) {
    match spec_selected_effect(st) {
        None => spec_effect_added(st, synth),
        Some(i) => {
            let e = spec_track(st).effects[i];
            match e.effect {
                EffectType::PitchBend(v) => {
                    let (v1, snap) = spec_bend(v, up, sens);
                    let st1 = spec_with_effect(st, i, Effect { effect: EffectType::PitchBend(v1), ..e });
                    (st1, if snap { Some(spec_snap_states(st, st1)) } else { None })
                },
                _ => {
                    let (t, changed) = spec_increment(e.effect, up);
                    if changed {
                        let st1 = spec_with_effect(st, i, Effect { effect: t, ..e });
                        (st1, Some(spec_snap_states(st, st1)))
                    } else {
                        (st, None)
                    }
                },
            }
        },
    }
}

/// Step the key of the selected key pressure effect, or add an effect if there is none.
pub open spec fn spec_key_stepped(st: StateModel, synth: Map<u8, Program>, up: bool) -> (StateModel, Option<SnapshotModel>) {
    match spec_selected_effect(st) {
        None => spec_effect_added(st, synth),
        Some(i) => {
            let e = spec_track(st).effects[i];
            match e.effect {
                EffectType::PolyphonicKeyPressure { key, value } => if up && key < MAX_NOTE {
                    let st1 = spec_with_effect(
                        st,
                        i,
                        Effect { effect: EffectType::PolyphonicKeyPressure { key: (key + 1) as u8, value }, ..e },
                    );
                    (st1, Some(spec_snap_states(st, st1)))
                } else if !up && key > MIN_NOTE {
                    let st1 = spec_with_effect(
                        st,
                        i,
                        Effect { effect: EffectType::PolyphonicKeyPressure { key: (key - 1) as u8, value }, ..e },
                    );
                    (st1, Some(spec_snap_states(st, st1)))
                } else {
                    (st, None)
                },
                _ => (st, None),
            }
        },
    }
}

/// What the effects panel does: the new state, and the snapshot made, if any.
pub open spec fn spec_effects_update(
    st: StateModel,
    synth: Map<u8, Program>,
    sens: usize,
    e: Seq<InputEvent>,
) -> (StateModel, Option<SnapshotModel>) {
    match spec_effects_action(e) {
        EffectsAction::NextKind => {
            let st1 = StateModel { effect_types: spec_step_up(st.effect_types), ..st };
            (st1, Some(spec_snap_states(st, st1)))
        },
        EffectsAction::PreviousKind => {
            let st1 = StateModel { effect_types: spec_step_down(st.effect_types), ..st };
            (st1, Some(spec_snap_states(st, st1)))
        },
        EffectsAction::ValueUp => spec_value_stepped(st, synth, sens, true),
        EffectsAction::ValueDown => spec_value_stepped(st, synth, sens, false),
        EffectsAction::KeyUp => spec_key_stepped(st, synth, true),
        EffectsAction::KeyDown => spec_key_stepped(st, synth, false),
        _ => (st, None),
    }
}

/// What the effects panel needs: adding an effect reads the program of the selected track's
/// channel.
pub open spec fn spec_effects_fits(st: StateModel, synth: Map<u8, Program>, e: Seq<InputEvent>) -> bool {
    let a = spec_effects_action(e);
    (a == EffectsAction::ValueUp || a == EffectsAction::ValueDown || a == EffectsAction::KeyUp || a
        == EffectsAction::KeyDown) && st.music.selected is Some && spec_selected_effect(st) is None
        ==> synth.contains_key(spec_track(st).channel)
}

/// The value that an effect sets (for a key pressure, the pressure).
pub open spec fn spec_effect_value(e: EffectType) -> int {
    match e {
        EffectType::Chorus(v) => v as int,
        EffectType::Pan(v) => v as int,
        EffectType::Reverb(v) => v as int,
        EffectType::PitchBend(v) => v as int,
        EffectType::ChannelPressure(v) => v as int,
        EffectType::PolyphonicKeyPressure { key, value } => value as int,
    }
}

/// The range of an effect's value.
pub open spec fn spec_effect_range(e: EffectType) -> (int, int) {
    match e {
        EffectType::Chorus(_) | EffectType::Reverb(_) => (0, MAX_CHORUS_REVERB as int),
        EffectType::Pan(_) => (MIN_PAN as int, MAX_PAN as int),
        EffectType::PitchBend(_) => (0, MAX_PITCH_BEND as int),
        EffectType::ChannelPressure(_) | EffectType::PolyphonicKeyPressure { .. } => (0, MAX_PRESSURE as int),
    }
}

/// Two effects of the same kind (and, for key pressures, the same key).
pub open spec fn spec_same_kind(a: EffectType, b: EffectType) -> bool {
    match (a, b) {
        (EffectType::Chorus(_), EffectType::Chorus(_)) => true,
        (EffectType::Pan(_), EffectType::Pan(_)) => true,
        (EffectType::Reverb(_), EffectType::Reverb(_)) => true,
        (EffectType::PitchBend(_), EffectType::PitchBend(_)) => true,
        (EffectType::ChannelPressure(_), EffectType::ChannelPressure(_)) => true,
        (
            EffectType::PolyphonicKeyPressure { key: k, value: _ },
            EffectType::PolyphonicKeyPressure { key: l, value: _ },
        ) => k == l,
        _ => false,
    }
}

/// Stepping an effect's value keeps its kind and moves the value one up or one down, unless it
/// is at the end of its range, where nothing changes; a step back undoes a step.
pub proof fn lemma_increment_steps(e: EffectType, up: bool)
    ensures
        ({
            let (e1, changed) = spec_increment(e, up);
            let (lo, hi) = spec_effect_range(e);
            &&& spec_same_kind(e, e1)
            &&& changed == (if up { spec_effect_value(e) < hi } else { spec_effect_value(e) > lo })
            &&& changed ==> spec_effect_value(e1) == spec_effect_value(e) + (if up { 1int } else { -1int })
            &&& !changed ==> e1 == e
            &&& changed && lo <= spec_effect_value(e) <= hi ==> spec_increment(e1, !up) == (e, true)
        }),
{
}

/// What the effects panel does with the selected effect (the first effect of the current kind
/// at the cursor), for a frame whose only event steps its value: only that effect of the selected
/// track changes; it keeps its time and kind, and its value moves one up or one down (a pitch
/// bend by the sensitivity), stopping at the end of its range, where nothing is recorded.
pub proof fn lemma_effect_value_steps(st: StateModel, synth: Map<u8, Program>, sens: usize, x: InputEvent)
    requires
        st.music.selected is Some,
        st.music.selected.unwrap() < st.music.tracks.len(),
        spec_selected_effect(st) is Some,
        x == InputEvent::IncrementEffectValue || x == InputEvent::DecrementEffectValue,
    ensures
        ({
            let (st1, snap) = spec_effects_update(st, synth, sens, seq![x]);
            let t = st.music.selected.unwrap() as int;
            let i = spec_selected_effect(st).unwrap();
            let track = st.music.tracks[t];
            let e = track.effects[i];
            let e1 = st1.music.tracks[t].effects[i];
            let up = x == InputEvent::IncrementEffectValue;
            let v = spec_effect_value(e.effect);
            let v1 = spec_effect_value(e1.effect);
            let (lo, hi) = spec_effect_range(e.effect);
            &&& st1 == StateModel {
                music: MusicModel {
                    tracks: st.music.tracks.update(t, TrackModel { effects: track.effects.update(i, e1), ..track }),
                    ..st.music
                },
                ..st
            }
            &&& e1.time == e.time && spec_same_kind(e.effect, e1.effect)
            &&& (e.effect !is PitchBend) ==> if (if up { v < hi } else { v > lo }) {
                v1 == v + (if up { 1int } else { -1int }) && snap is Some
            } else {
                st1 == st && snap is None
            }
            &&& (e.effect is PitchBend) && v <= hi ==> v1 == (if up {
                if v + sens > hi { hi } else { v + sens }
            } else {
                if v - sens < lo { lo } else { v - sens }
            })
        }),
{
    lemma_only_event(x);
    let t = st.music.selected.unwrap() as int;
    let i = spec_selected_effect(st).unwrap();
    let track = st.music.tracks[t];
    let e = track.effects[i];
    lemma_increment_steps(e.effect, x == InputEvent::IncrementEffectValue);
    assert(0 <= i < track.effects.len()) by {
        assert(spec_is_first(track.effects, st.time.cursor, spec_kind(st), i));
    }
    assert(track.effects.update(i, e) =~= track.effects);
}

/// The key of a selected key pressure effect, and the kind of effect, for a frame whose only
/// event steps one of them:
/// - key up or down: the key rises or falls by one, staying between the lowest and highest note
///   (where nothing changes); its pressure and time stay, and only that effect changes;
/// - next or previous kind: the current kind moves to the next or previous one, cycling.
pub proof fn lemma_effect_key_and_kind(st: StateModel, synth: Map<u8, Program>, sens: usize, x: InputEvent)
    requires
        st.effect_types.index < st.effect_types.length,
        x == InputEvent::IncrementAftertouchNote || x == InputEvent::DecrementAftertouchNote
            || x == InputEvent::NextEffect || x == InputEvent::PreviousEffect,
    ensures
        ({
            let (st1, snap) = spec_effects_update(st, synth, sens, seq![x]);
            let k = st.effect_types;
            &&& x == InputEvent::NextEffect ==> snap is Some && st1 == StateModel {
                effect_types: Index { index: ((k.index + 1) % (k.length as int)) as usize, ..k },
                ..st
            }
            &&& x == InputEvent::PreviousEffect ==> snap is Some && st1 == StateModel {
                effect_types: Index { index: ((k.index + k.length - 1) % (k.length as int)) as usize, ..k },
                ..st
            }
            &&& (x == InputEvent::IncrementAftertouchNote || x == InputEvent::DecrementAftertouchNote)
                && st.music.selected is Some && st.music.selected.unwrap() < st.music.tracks.len()
                && spec_selected_effect(st) is Some ==> {
                let t = st.music.selected.unwrap() as int;
                let i = spec_selected_effect(st).unwrap();
                let track = st.music.tracks[t];
                let e = track.effects[i];
                let up = x == InputEvent::IncrementAftertouchNote;
                match e.effect {
                    EffectType::PolyphonicKeyPressure { key, value } => if (up && key < MAX_NOTE) || (!up && key
                        > MIN_NOTE) {
                        snap is Some && st1 == StateModel {
                            music: MusicModel {
                                tracks: st.music.tracks.update(
                                    t,
                                    TrackModel {
                                        effects: track.effects.update(
                                            i,
                                            Effect {
                                                effect: EffectType::PolyphonicKeyPressure {
                                                    key: (if up { key + 1 } else { key - 1 }) as u8,
                                                    value,
                                                },
                                                ..e
                                            },
                                        ),
                                        ..track
                                    },
                                ),
                                ..st.music
                            },
                            ..st
                        }
                    } else {
                        snap is None && st1 == st
                    },
                    _ => snap is None && st1 == st,
                }
            }
        }),
{
    lemma_only_event(x);
    crate::index::lemma_step_cycles(st.effect_types.index, st.effect_types.length);
}

/// The position of the first effect at the cursor of a kind.
fn find_effect(effects: &Vec<Effect>, cursor: u64, ve: ValuelessEffectType) -> (r: Option<usize>)
    ensures
        match r {
            Some(i) => spec_first_effect(effects@, cursor, ve) == Some(i as int),
            None => spec_first_effect(effects@, cursor, ve) is None,
        },
{
    let n = effects.len();
    for i in 0..n
        invariant
            n == effects.len(),
            forall|j: int| 0 <= j < i ==> !spec_effect_matches(#[trigger] effects@[j], cursor, ve),
    {
        if effects[i].time == cursor && effect_is(ve, effects[i].effect) {
            proof {
                assert(spec_is_first(effects@, cursor, ve, i as int));
                let k = choose|k: int| spec_is_first(effects@, cursor, ve, k);
                assert(spec_is_first(effects@, cursor, ve, k));
                if k < i {
                    assert(!spec_effect_matches(effects@[k], cursor, ve));
                } else if k > i {
                    assert(!spec_effect_matches(effects@[i as int], cursor, ve));
                }
            }
            return Some(i);
        }
    }
    proof {
        assert(!exists|i: int| spec_is_first(effects@, cursor, ve, i));
    }
    None
}

/// Does effect `a` come before effect `b`?
fn effect_lt(a: Effect, b: Effect) -> (r: bool)
    ensures
        r == spec_effect_lt(a, b),
{
    if a.time != b.time {
        return a.time < b.time;
    }
    match (a.effect, b.effect) {
        (EffectType::Chorus(x), EffectType::Chorus(y)) => x < y,
        (EffectType::Pan(x), EffectType::Pan(y)) => x < y,
        (EffectType::Reverb(x), EffectType::Reverb(y)) => x < y,
        (EffectType::PitchBend(x), EffectType::PitchBend(y)) => x < y,
        (EffectType::ChannelPressure(x), EffectType::ChannelPressure(y)) => x < y,
        (
            EffectType::PolyphonicKeyPressure { key: k1, value: v1 },
            EffectType::PolyphonicKeyPressure { key: k2, value: v2 },
        ) => k1 < k2 || (k1 == k2 && v1 < v2),
        _ => rank(a.effect) < rank(b.effect),
    }
}

/// The rank of an effect's kind.
fn rank(e: EffectType) -> (r: u8)
    ensures
        r as int == spec_rank(e),
{
    match e {
        EffectType::Chorus(_) => 0,
        EffectType::Pan(_) => 1,
        EffectType::Reverb(_) => 2,
        EffectType::PitchBend(_) => 3,
        EffectType::ChannelPressure(_) => 4,
        EffectType::PolyphonicKeyPressure { .. } => 5,
    }
}

/// The latest effect of a kind.
fn latest(effects: &Vec<Effect>, ve: ValuelessEffectType) -> (r: Option<Effect>)
    ensures
        r == spec_latest(effects@, ve),
{
    let mut best: Option<Effect> = None;
    let n = effects.len();
    for i in 0..n
        invariant
            n == effects.len(),
            best == spec_latest(effects@.take(i as int), ve),
    {
        proof {
            assert(effects@.take(i + 1).drop_last() =~= effects@.take(i as int));
        }
        let e = effects[i];
        if effect_is(ve, e.effect) {
            best = match best {
                None => Some(e),
                Some(b) => if effect_lt(e, b) {
                    Some(b)
                } else {
                    Some(e)
                },
            };
        }
    }
    proof {
        assert(effects@.take(n as int) =~= effects@);
    }
    best
}

/// Add, remove, or adjust effects.
#[derive(Clone, Copy, Debug)]
pub struct EffectsPanel {
    /// How many steps one pitch bend input takes.
    pub pitch_bend_sensitivity: usize,
}

impl EffectsPanel {
    /// The panel, with the pitch bend sensitivity from the config file.
    pub fn new(pitch_bend_sensitivity: usize) -> (r: EffectsPanel)
        ensures
            r.pitch_bend_sensitivity == pitch_bend_sensitivity,
    {
        EffectsPanel { pitch_bend_sensitivity }
    }

    /// Step the current kind of effect.
    fn cycle_effect_type(state: &mut State, up: bool) -> (r: Snapshot)
        ensures
            final(state)@ == (StateModel {
                effect_types: if up { spec_step_up(old(state).effect_types) } else { spec_step_down(old(state).effect_types) },
                ..old(state)@
            }),
            r@ == spec_snap_states(old(state)@, final(state)@),
    {
        let s0 = state.duplicate();
        state.effect_types.increment(up);
        proof {
            assert(state@ =~= StateModel {
                effect_types: if up { spec_step_up(s0@.effect_types) } else { spec_step_down(s0@.effect_types) },
                ..s0@
            });
        }
        Snapshot::from_states(s0, state)
    }

    /// The position of the selected effect.
    fn get_effect(state: &State) -> (r: Option<usize>)
        requires
            state@.wf(),
        ensures
            match r {
                Some(i) => spec_selected_effect(state@) == Some(i as int),
                None => spec_selected_effect(state@) is None,
            },
    {
        match state.music.selected {
            None => None,
            Some(t) => {
                proof {
                    assert(spec_track(state@) == state.music.midi_tracks@[t as int]@);
                }
                let ve = effect_type_at(state.effect_types.get());
                find_effect(&state.music.midi_tracks[t].effects, state.time.cursor, ve)
            },
        }
    }

    /// Replace effect `i` of the selected track.
    fn set_effect(state: &mut State, i: usize, e: Effect)
        requires
            old(state)@.wf(),
            old(state).music.selected is Some,
            i < spec_track(old(state)@).effects.len(),
        ensures
            final(state)@ == spec_with_effect(old(state)@, i as int, e),
    {
        let ghost st0 = state@;
        let t = state.music.selected.unwrap();
        proof {
            assert(spec_track(st0) == state.music.midi_tracks@[t as int]@);
        }
        let mut effects = state.music.midi_tracks[t].effects.clone();
        proof {
            assert(effects@ =~= spec_track(st0).effects);
        }
        effects.set(i, e);
        state.music.set_track_effects(t, effects);
        proof {
            assert(state@ =~= spec_with_effect(st0, i as int, e));
        }
    }

    /// Add an effect of the current kind at the cursor of the selected track, unless the track
    /// already has an effect of that kind there.
    fn add_effect(state: &mut State, synth: &SynthState) -> (r: Option<Snapshot>)
        requires
            old(state)@.wf(),
            old(state).music.selected is Some ==> synth.programs@.contains_key(spec_track(old(state)@).channel),
        ensures
            (final(state)@, opt_snapshot_view(r)) == spec_effect_added(old(state)@, synth.programs@),
    {
        let ghost st0 = state@;
        if EffectsPanel::get_effect(state).is_some() {
            return None;
        }
        let t = match state.music.selected {
            None => return None,
            Some(t) => t,
        };
        proof {
            assert(spec_track(st0) == state.music.midi_tracks@[t as int]@);
        }
        let s0 = state.duplicate();
        let ve = effect_type_at(state.effect_types.get());
        let channel = state.music.midi_tracks[t].channel;
        let effect = match latest(&state.music.midi_tracks[t].effects, ve) {
            Some(b) => b.effect,
            None => {
                let program = synth.programs.get(&channel).unwrap();
                match ve {
                    ValuelessEffectType::Chorus => EffectType::Chorus(program.chorus),
                    ValuelessEffectType::Pan => EffectType::Pan(program.pan),
                    ValuelessEffectType::Reverb => EffectType::Reverb(program.reverb),
                    ValuelessEffectType::PitchBend => EffectType::PitchBend(0),
                    ValuelessEffectType::ChannelPressure => EffectType::ChannelPressure(0),
                    ValuelessEffectType::PolyphonicKeyPressure => EffectType::PolyphonicKeyPressure {
                        key: MIDDLE_C,
                        value: 0,
                    },
                }
            },
        };
        let mut effects = state.music.midi_tracks[t].effects.clone();
        proof {
            assert(effects@ =~= spec_track(st0).effects);
        }
        effects.push(Effect { time: state.time.cursor, effect });
        state.music.set_track_effects(t, effects);
        state.selection.deselect();
        proof {
            assert(state@ =~= spec_effect_added(st0, synth.programs@).0);
        }
        Some(Snapshot::from_states(s0, state))
    }

    /// Step a pitch bend by the sensitivity, stopping at the end of its range. A snapshot is made
    /// only if the range ended after at least one step.
    fn bend(&self, v: u16, up: bool) -> (r: (u16, bool))
        ensures
            r == spec_bend(v, up, self.pitch_bend_sensitivity),
    {
        let mut effect = EffectType::PitchBend(v);
        let mut incremented = false;
        let mut i: usize = 0;
        let ghost dist: int = if up { if v < MAX_PITCH_BEND { MAX_PITCH_BEND - v } else { 0 } } else { v as int };
        while i < self.pitch_bend_sensitivity
            invariant_except_break
                dist == (if up { if v < MAX_PITCH_BEND { MAX_PITCH_BEND - v } else { 0 } } else { v as int }),
                i <= self.pitch_bend_sensitivity,
                i <= dist,
                effect == EffectType::PitchBend((if up { v + i } else { v - i }) as u16),
                !incremented,
            ensures
                effect == EffectType::PitchBend(
                    (if up { v + spec_min(dist, self.pitch_bend_sensitivity as int) } else { v - spec_min(
                        dist,
                        self.pitch_bend_sensitivity as int,
                    ) }) as u16,
                ),
                incremented == (0 < dist < self.pitch_bend_sensitivity),
            decreases self.pitch_bend_sensitivity - i,
        {
            if !effect.increment(up) {
                if i > 0 {
                    incremented = true;
                }
                break;
            }
            i = i + 1;
        }
        match effect {
            EffectType::PitchBend(v1) => (v1, incremented),
            _ => (v, incremented),
        }
    }

    /// Step the value of the selected effect, or add an effect if there is none.
    fn increment_effect_value(&self, state: &mut State, synth: &SynthState, up: bool) -> (r: Option<Snapshot>)
        requires
            old(state)@.wf(),
            old(state).music.selected is Some && spec_selected_effect(old(state)@) is None
                ==> synth.programs@.contains_key(spec_track(old(state)@).channel),
        ensures
            (final(state)@, opt_snapshot_view(r)) == spec_value_stepped(
                old(state)@,
                synth.programs@,
                self.pitch_bend_sensitivity,
                up,
            ),
    {
        let ghost st0 = state@;
        match EffectsPanel::get_effect(state) {
            None => EffectsPanel::add_effect(state, synth),
            Some(i) => {
                let t = state.music.selected.unwrap();
                proof {
                    assert(spec_track(st0) == state.music.midi_tracks@[t as int]@);
                }
                let e = state.music.midi_tracks[t].effects[i];
                match e.effect {
                    EffectType::PitchBend(v) => {
                        let s0 = state.duplicate();
                        let (v1, snap) = self.bend(v, up);
                        EffectsPanel::set_effect(state, i, Effect { effect: EffectType::PitchBend(v1), ..e });
                        if snap {
                            Some(Snapshot::from_states(s0, state))
                        } else {
                            None
                        }
                    },
                    _ => {
                        let mut t1 = e.effect;
                        if t1.increment(up) {
                            let s0 = state.duplicate();
                            EffectsPanel::set_effect(state, i, Effect { effect: t1, ..e });
                            Some(Snapshot::from_states(s0, state))
                        } else {
                            None
                        }
                    },
                }
            },
        }
    }

    /// Step the key of the selected key pressure effect, or add an effect if there is none.
    fn increment_aftertouch(state: &mut State, synth: &SynthState, up: bool) -> (r: Option<Snapshot>)
        requires
            old(state)@.wf(),
            old(state).music.selected is Some && spec_selected_effect(old(state)@) is None
                ==> synth.programs@.contains_key(spec_track(old(state)@).channel),
        ensures
            (final(state)@, opt_snapshot_view(r)) == spec_key_stepped(old(state)@, synth.programs@, up),
    {
        let ghost st0 = state@;
        match EffectsPanel::get_effect(state) {
            None => EffectsPanel::add_effect(state, synth),
            Some(i) => {
                let t = state.music.selected.unwrap();
                proof {
                    assert(spec_track(st0) == state.music.midi_tracks@[t as int]@);
                }
                let e = state.music.midi_tracks[t].effects[i];
                match e.effect {
                    EffectType::PolyphonicKeyPressure { key, value } => {
                        if up && key < MAX_NOTE {
                            let s0 = state.duplicate();
                            EffectsPanel::set_effect(
                                state,
                                i,
                                Effect { effect: EffectType::PolyphonicKeyPressure { key: key + 1, value }, ..e },
                            );
                            Some(Snapshot::from_states(s0, state))
                        } else if !up && key > MIN_NOTE {
                            let s0 = state.duplicate();
                            EffectsPanel::set_effect(
                                state,
                                i,
                                Effect { effect: EffectType::PolyphonicKeyPressure { key: key - 1, value }, ..e },
                            );
                            Some(Snapshot::from_states(s0, state))
                        } else {
                            None
                        }
                    },
                    _ => None,
                }
            },
        }
    }

    /// Apply a frame of input: cycle the kind of effect, step the value or the key of the
    /// selected effect, or add an effect. Speech is left to the caller.
    pub fn update(&self, state: &mut State, synth: &SynthState, input: &Input) -> (r: Option<Snapshot>)
        requires
            old(state)@.wf(),
            spec_effects_fits(old(state)@, synth.programs@, input.events@),
        ensures
            (final(state)@, opt_snapshot_view(r)) == spec_effects_update(
                old(state)@,
                synth.programs@,
                self.pitch_bend_sensitivity,
                input.events@,
            ),
    {
        if input.happened(InputEvent::InputTTS) || input.happened(InputEvent::StatusTTS) {
            None
        } else if input.happened(InputEvent::NextEffect) {
            Some(EffectsPanel::cycle_effect_type(state, true))
        } else if input.happened(InputEvent::PreviousEffect) {
            Some(EffectsPanel::cycle_effect_type(state, false))
        } else if input.happened(InputEvent::IncrementEffectValue) {
            self.increment_effect_value(state, synth, true)
        } else if input.happened(InputEvent::DecrementEffectValue) {
            self.increment_effect_value(state, synth, false)
        } else if input.happened(InputEvent::IncrementAftertouchNote) {
            EffectsPanel::increment_aftertouch(state, synth, true)
        } else if input.happened(InputEvent::DecrementAftertouchNote) {
            EffectsPanel::increment_aftertouch(state, synth, false)
        } else {
            None
        }
    }
}

/// The effects panel keeps the state valid: it changes the kind of effect and the effects of
/// the selected track, never its notes.
pub proof fn lemma_effects_keep_wf(st: StateModel, synth: Map<u8, Program>, sens: usize, e: Seq<InputEvent>)
    requires
        st.wf(),
    ensures
        spec_effects_update(st, synth, sens, e).0.wf(),
{
    let st1 = spec_effects_update(st, synth, sens, e).0;
    assert(st1.music.tracks.len() == st.music.tracks.len());
    assert(st1.music.selected == st.music.selected);
    assert forall|t: int, i: int|
        0 <= t < st1.music.tracks.len() && 0 <= i < st1.music.tracks[t].notes.len() implies #[trigger] crate::model::note_wf(
        st1.music.tracks[t].notes[i],
    ) by {
        assert(st1.music.tracks[t].notes == st.music.tracks[t].notes);
        assert(crate::model::note_wf(st.music.tracks[t].notes[i]));
    }
}

/// The smaller of two numbers.
pub open spec fn spec_min(a: int, b: int) -> int {
    if a < b {
        a
    } else {
        b
    }
}

} // verus!
