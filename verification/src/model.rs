use vstd::prelude::*;
use crate::index::Index;

verus! {

/// The highest MIDI note.
pub const MAX_NOTE: u8 = 127;
/// The lowest note the piano roll accepts.
pub const MIN_NOTE: u8 = 12;
/// The highest volume (velocity, gain).
pub const MAX_VOLUME: u8 = 127;
/// Middle C.
pub const MIDDLE_C: u8 = 60;
/// The default tempo.
pub const DEFAULT_BPM: u64 = 120;
/// Pulses per quarter note.
pub const PPQ_U: u64 = 192000;

/// The panels of the app.
#[derive(Clone, Copy, Debug, PartialEq, Eq, Structural)]
pub enum PanelType {
    ExportSettings,
    ExportState,
    MainMenu,
    Music,
    OpenFile,
    PianoRoll,
    Tracks,
    Quit,
    Links,
}

/// How far one edit step reaches.
#[derive(Clone, Copy, Debug, PartialEq, Eq, Structural)]
pub enum EditMode {
    Normal,
    Quick,
    Precise,
}

/// The sub-panel of the piano roll.
#[derive(Clone, Copy, Debug, PartialEq, Eq, Structural)]
pub enum PianoRollMode {
    Edit,
    Select,
    Time,
    View,
}

/// The kinds of effects, without their values.
#[derive(Clone, Copy, Debug, PartialEq, Eq, Structural)]
pub enum ValuelessEffectType {
    Chorus,
    Pan,
    Reverb,
    PitchBend,
    ChannelPressure,
    PolyphonicKeyPressure,
}

/// The fields of the music panel.
#[derive(Clone, Copy, Debug, PartialEq, Eq, Structural)]
pub enum MusicPanelField {
    Name,
    BPM,
    Gain,
}

/// An effect with its value.
#[derive(Clone, Copy, Debug, PartialEq, Eq, Structural)]
pub enum EffectType {
    Chorus(u16),
    Pan(i16),
    Reverb(u16),
    PitchBend(u16),
    ChannelPressure(u8),
    PolyphonicKeyPressure { key: u8, value: u8 },
}

/// The largest chorus or reverb value.
pub const MAX_CHORUS_REVERB: u16 = 127;
/// The smallest pan value.
pub const MIN_PAN: i16 = -64;
/// The largest pan value.
pub const MAX_PAN: i16 = 63;
/// The largest pitch bend value.
pub const MAX_PITCH_BEND: u16 = 16383;
/// The largest pressure value.
pub const MAX_PRESSURE: u8 = 127;

/// The effect with its value stepped up or down by one, and whether it changed: a value at the
/// end of its range stays there.
pub open spec fn spec_increment(e: EffectType, up: bool) -> (EffectType, bool) {
    match e {
        EffectType::Chorus(v) => if up && v < MAX_CHORUS_REVERB {
            (EffectType::Chorus((v + 1) as u16), true)
        } else if !up && v > 0 {
            (EffectType::Chorus((v - 1) as u16), true)
        } else {
            (e, false)
        },
        EffectType::Reverb(v) => if up && v < MAX_CHORUS_REVERB {
            (EffectType::Reverb((v + 1) as u16), true)
        } else if !up && v > 0 {
            (EffectType::Reverb((v - 1) as u16), true)
        } else {
            (e, false)
        },
        EffectType::Pan(v) => if up && v < MAX_PAN {
            (EffectType::Pan((v + 1) as i16), true)
        } else if !up && v > MIN_PAN {
            (EffectType::Pan((v - 1) as i16), true)
        } else {
            (e, false)
        },
        EffectType::PitchBend(v) => if up && v < MAX_PITCH_BEND {
            (EffectType::PitchBend((v + 1) as u16), true)
        } else if !up && v > 0 {
            (EffectType::PitchBend((v - 1) as u16), true)
        } else {
            (e, false)
        },
        EffectType::ChannelPressure(v) => if up && v < MAX_PRESSURE {
            (EffectType::ChannelPressure((v + 1) as u8), true)
        } else if !up && v > 0 {
            (EffectType::ChannelPressure((v - 1) as u8), true)
        } else {
            (e, false)
        },
        EffectType::PolyphonicKeyPressure { key, value } => if up && value < MAX_PRESSURE {
            (EffectType::PolyphonicKeyPressure { key, value: (value + 1) as u8 }, true)
        } else if !up && value > 0 {
            (EffectType::PolyphonicKeyPressure { key, value: (value - 1) as u8 }, true)
        } else {
            (e, false)
        },
    }
}

impl EffectType {
    /// Step the value up or down by one. Returns false, and changes nothing, if the value is at
    /// the end of its range.
    pub fn increment(&mut self, up: bool) -> (changed: bool)
        ensures
            (*final(self), changed) == spec_increment(*old(self), up),
    {
        match *self {
            EffectType::Chorus(v) => if up && v < MAX_CHORUS_REVERB {
                *self = EffectType::Chorus(v + 1);
                true
            } else if !up && v > 0 {
                *self = EffectType::Chorus(v - 1);
                true
            } else {
                false
            },
            EffectType::Reverb(v) => if up && v < MAX_CHORUS_REVERB {
                *self = EffectType::Reverb(v + 1);
                true
            } else if !up && v > 0 {
                *self = EffectType::Reverb(v - 1);
                true
            } else {
                false
            },
            EffectType::Pan(v) => if up && v < MAX_PAN {
                *self = EffectType::Pan(v + 1);
                true
            } else if !up && v > MIN_PAN {
                *self = EffectType::Pan(v - 1);
                true
            } else {
                false
            },
            EffectType::PitchBend(v) => if up && v < MAX_PITCH_BEND {
                *self = EffectType::PitchBend(v + 1);
                true
            } else if !up && v > 0 {
                *self = EffectType::PitchBend(v - 1);
                true
            } else {
                false
            },
            EffectType::ChannelPressure(v) => if up && v < MAX_PRESSURE {
                *self = EffectType::ChannelPressure(v + 1);
                true
            } else if !up && v > 0 {
                *self = EffectType::ChannelPressure(v - 1);
                true
            } else {
                false
            },
            EffectType::PolyphonicKeyPressure { key, value } => if up && value < MAX_PRESSURE {
                *self = EffectType::PolyphonicKeyPressure { key, value: value + 1 };
                true
            } else if !up && value > 0 {
                *self = EffectType::PolyphonicKeyPressure { key, value: value - 1 };
                true
            } else {
                false
            },
        }
    }
}

/// A note: a pitch, a velocity, and a start and end time in PPQ.
#[derive(Clone, Copy, Debug, PartialEq, Eq, Structural)]
pub struct Note {
    pub note: u8,
    pub velocity: u8,
    pub start: u64,
    pub end: u64,
}

/// An effect event at a time in PPQ.
#[derive(Clone, Copy, Debug, PartialEq, Eq, Structural)]
pub struct Effect {
    pub time: u64,
    pub effect: EffectType,
}

/// A MIDI track.
#[derive(Debug)]
pub struct MidiTrack {
    pub channel: u8,
    pub gain: u8,
    pub mute: bool,
    pub solo: bool,
    pub notes: Vec<Note>,
    pub effects: Vec<Effect>,
}

/// The mathematical value of a track.
#[verifier::ext_equal]
pub struct TrackModel {
    pub channel: u8,
    pub gain: u8,
    pub mute: bool,
    pub solo: bool,
    pub notes: Seq<Note>,
    pub effects: Seq<Effect>,
}

impl View for MidiTrack {
    type V = TrackModel;

    open spec fn view(&self) -> TrackModel {
        TrackModel {
            channel: self.channel,
            gain: self.gain,
            mute: self.mute,
            solo: self.solo,
            notes: self.notes@,
            effects: self.effects@,
        }
    }
}

/// The gain of a new track.
pub const DEFAULT_TRACK_GAIN: u8 = 127;

impl MidiTrack {
    /// A new, empty track on a channel.
    pub fn new(channel: u8) -> (r: MidiTrack)
        ensures
            r@ == (TrackModel {
                channel,
                gain: DEFAULT_TRACK_GAIN,
                mute: false,
                solo: false,
                notes: Seq::empty(),
                effects: Seq::empty(),
            }),
    {
        MidiTrack {
            channel,
            gain: DEFAULT_TRACK_GAIN,
            mute: false,
            solo: false,
            notes: Vec::new(),
            effects: Vec::new(),
        }
    }

    /// A copy of the track.
    pub fn duplicate(&self) -> (r: MidiTrack)
        ensures
            r@ == self@,
    {
        let notes = self.notes.clone();
        let effects = self.effects.clone();
        proof {
            assert(notes@ =~= self.notes@);
            assert(effects@ =~= self.effects@);
        }
        MidiTrack {
            channel: self.channel,
            gain: self.gain,
            mute: self.mute,
            solo: self.solo,
            notes,
            effects,
        }
    }
}

/// The end of a track: the latest end time of its notes, if it has any.
pub open spec fn spec_track_end(notes: Seq<Note>) -> Option<u64>
    decreases notes.len(),
{
    if notes.len() == 0 {
        None
    } else {
        let rest = spec_track_end(notes.drop_last());
        let e = notes.last().end;
        match rest {
            None => Some(e),
            Some(r) => Some(if r >= e { r } else { e }),
        }
    }
}

/// The tracks and the selected track.
#[derive(Debug)]
pub struct Music {
    pub midi_tracks: Vec<MidiTrack>,
    pub selected: Option<usize>,
}

/// The mathematical value of the music.
#[verifier::ext_equal]
pub struct MusicModel {
    pub tracks: Seq<TrackModel>,
    pub selected: Option<usize>,
}

/// The views of a list of tracks.
pub open spec fn tracks_view(tracks: Seq<MidiTrack>) -> Seq<TrackModel> {
    tracks.map_values(|t: MidiTrack| t@)
}

impl View for Music {
    type V = MusicModel;

    open spec fn view(&self) -> MusicModel {
        MusicModel { tracks: tracks_view(self.midi_tracks@), selected: self.selected }
    }
}

impl Music {
    /// Music with no tracks.
    pub fn new() -> (r: Music)
        ensures
            r@ == (MusicModel { tracks: Seq::empty(), selected: None }),
    {
        let r = Music { midi_tracks: Vec::new(), selected: None };
        proof {
            assert(r@.tracks =~= Seq::<TrackModel>::empty());
        }
        r
    }

    /// Replace the notes of a track.
    pub fn set_track_notes(&mut self, t: usize, notes: Vec<Note>)
        requires
            t < old(self).midi_tracks.len(),
        ensures
            final(self)@ == (MusicModel {
                tracks: old(self)@.tracks.update(t as int, TrackModel { notes: notes@, ..old(self)@.tracks[t as int] }),
                ..old(self)@
            }),
            final(self).midi_tracks.len() == old(self).midi_tracks.len(),
    {
        let ghost old_tracks = self.midi_tracks@;
        self.midi_tracks[t].notes = notes;
        proof {
            assert(self@.tracks =~= tracks_view(old_tracks).update(t as int, TrackModel { notes: notes@, ..tracks_view(old_tracks)[t as int] }));
        }
    }

    /// Replace the effects of a track.
    pub fn set_track_effects(&mut self, t: usize, effects: Vec<Effect>)
        requires
            t < old(self).midi_tracks.len(),
        ensures
            final(self)@ == (MusicModel {
                tracks: old(self)@.tracks.update(t as int, TrackModel { effects: effects@, ..old(self)@.tracks[t as int] }),
                ..old(self)@
            }),
            final(self).midi_tracks.len() == old(self).midi_tracks.len(),
    {
        let ghost old_tracks = self.midi_tracks@;
        self.midi_tracks[t].effects = effects;
        proof {
            assert(self@.tracks =~= tracks_view(old_tracks).update(t as int, TrackModel { effects: effects@, ..tracks_view(old_tracks)[t as int] }));
        }
    }

    pub fn duplicate(&self) -> (r: Music)
        ensures
            r@ == self@,
    {
        let mut tracks: Vec<MidiTrack> = Vec::new();
        let n = self.midi_tracks.len();
        for i in 0..n
            invariant
                n == self.midi_tracks.len(),
                tracks.len() == i,
                forall|j: int| 0 <= j < i ==> #[trigger] tracks@[j]@ == self.midi_tracks@[j]@,
        {
            tracks.push(self.midi_tracks[i].duplicate());
        }
        let r = Music { midi_tracks: tracks, selected: self.selected };
        proof {
            assert(r@.tracks =~= self@.tracks);
        }
        r
    }
}

/// The selected notes and effects of the selected track, by index.
#[derive(Debug)]
pub struct Selection {
    pub notes: Vec<usize>,
    pub effects: Vec<usize>,
    pub single: bool,
}

#[verifier::ext_equal]
pub struct SelectionModel {
    pub notes: Seq<usize>,
    pub effects: Seq<usize>,
    pub single: bool,
}

impl View for Selection {
    type V = SelectionModel;

    open spec fn view(&self) -> SelectionModel {
        SelectionModel { notes: self.notes@, effects: self.effects@, single: self.single }
    }
}

impl Selection {
    pub fn duplicate(&self) -> (r: Selection)
        ensures
            r@ == self@,
    {
        let notes = self.notes.clone();
        let effects = self.effects.clone();
        proof {
            assert(notes@ =~= self.notes@);
            assert(effects@ =~= self.effects@);
        }
        Selection { notes, effects, single: self.single }
    }

    /// Select nothing.
    pub fn deselect(&mut self)
        ensures
            final(self)@ == (SelectionModel {
                notes: Seq::empty(),
                effects: Seq::empty(),
                single: old(self).single,
            }),
    {
        self.notes.clear();
        self.effects.clear();
        proof {
            assert(self.notes@ =~= Seq::<usize>::empty());
            assert(self.effects@ =~= Seq::<usize>::empty());
        }
    }
}

/// The time cursor, the playback time, the tempo, and the time edit mode.
#[derive(Clone, Copy, Debug, PartialEq, Eq, Structural)]
pub struct TimeState {
    pub cursor: u64,
    pub playback: u64,
    pub bpm: u64,
    pub mode: Index,
}

/// Input settings.
#[derive(Clone, Copy, Debug, PartialEq, Eq, Structural)]
pub struct InputState {
    /// The input beat in PPQ.
    pub beat: u64,
    pub armed: bool,
    pub alphanumeric_input: bool,
    pub use_volume: bool,
    pub volume: Index,
}

/// A range of time in PPQ.
#[derive(Clone, Copy, Debug, PartialEq, Eq, Structural)]
pub struct TimeRange {
    pub start: u64,
    pub end: u64,
}

/// A range of notes, from the top note down to the bottom note.
#[derive(Clone, Copy, Debug, PartialEq, Eq, Structural)]
pub struct NoteRange {
    pub top: u8,
    pub bottom: u8,
}

/// The piano roll viewport: a time range, a note range, a track display, and an edit mode.
#[derive(Clone, Copy, Debug, PartialEq, Eq, Structural)]
pub struct ViewState {
    pub dt: TimeRange,
    pub dn: NoteRange,
    pub single_track: bool,
    pub mode: Index,
}

/// The state of the app.
#[derive(Debug)]
pub struct State {
    pub panels: Vec<PanelType>,
    pub focus: Index,
    pub unsaved_changes: bool,
    pub music: Music,
    pub time: TimeState,
    pub input: InputState,
    pub view: ViewState,
    pub selection: Selection,
    pub edit_mode: Index,
    pub piano_roll_mode: PianoRollMode,
    pub effect_types: Index,
    pub music_panel_field: Index,
}

/// The mathematical value of the state of the app.
#[verifier::ext_equal]
pub struct StateModel {
    pub panels: Seq<PanelType>,
    pub focus: Index,
    pub unsaved_changes: bool,
    pub music: MusicModel,
    pub time: TimeState,
    pub input: InputState,
    pub view: ViewState,
    pub selection: SelectionModel,
    pub edit_mode: Index,
    pub piano_roll_mode: PianoRollMode,
    pub effect_types: Index,
    pub music_panel_field: Index,
}

impl View for State {
    type V = StateModel;

    open spec fn view(&self) -> StateModel {
        StateModel {
            panels: self.panels@,
            focus: self.focus,
            unsaved_changes: self.unsaved_changes,
            music: self.music@,
            time: self.time,
            input: self.input,
            view: self.view,
            selection: self.selection@,
            edit_mode: self.edit_mode,
            piano_roll_mode: self.piano_roll_mode,
            effect_types: self.effect_types,
            music_panel_field: self.music_panel_field,
        }
    }
}

/// The edit mode at a position of the cycle of edit modes.
pub open spec fn spec_edit_mode(i: usize) -> EditMode {
    if i == 0 {
        EditMode::Normal
    } else if i == 1 {
        EditMode::Quick
    } else {
        EditMode::Precise
    }
}

/// The number of edit modes.
pub const NUM_EDIT_MODES: usize = 3;
/// The number of effect types.
pub const NUM_EFFECT_TYPES: usize = 6;
/// The number of music panel fields.
pub const NUM_MUSIC_PANEL_FIELDS: usize = 3;

/// The edit mode at a position of the cycle of edit modes.
pub fn edit_mode_at(i: usize) -> (r: EditMode)
    ensures
        r == spec_edit_mode(i),
{
    if i == 0 {
        EditMode::Normal
    } else if i == 1 {
        EditMode::Quick
    } else {
        EditMode::Precise
    }
}

/// The effect type at a position of the cycle of effect types.
pub open spec fn spec_effect_type(i: usize) -> ValuelessEffectType {
    if i == 0 {
        ValuelessEffectType::Chorus
    } else if i == 1 {
        ValuelessEffectType::Pan
    } else if i == 2 {
        ValuelessEffectType::Reverb
    } else if i == 3 {
        ValuelessEffectType::PitchBend
    } else if i == 4 {
        ValuelessEffectType::ChannelPressure
    } else {
        ValuelessEffectType::PolyphonicKeyPressure
    }
}

pub fn effect_type_at(i: usize) -> (r: ValuelessEffectType)
    ensures
        r == spec_effect_type(i),
{
    if i == 0 {
        ValuelessEffectType::Chorus
    } else if i == 1 {
        ValuelessEffectType::Pan
    } else if i == 2 {
        ValuelessEffectType::Reverb
    } else if i == 3 {
        ValuelessEffectType::PitchBend
    } else if i == 4 {
        ValuelessEffectType::ChannelPressure
    } else {
        ValuelessEffectType::PolyphonicKeyPressure
    }
}

/// The music panel field at a position of the cycle of fields.
pub open spec fn spec_music_panel_field(i: usize) -> MusicPanelField {
    if i == 0 {
        MusicPanelField::Name
    } else if i == 1 {
        MusicPanelField::BPM
    } else {
        MusicPanelField::Gain
    }
}

pub fn music_panel_field_at(i: usize) -> (r: MusicPanelField)
    ensures
        r == spec_music_panel_field(i),
{
    if i == 0 {
        MusicPanelField::Name
    } else if i == 1 {
        MusicPanelField::BPM
    } else {
        MusicPanelField::Gain
    }
}

/// Does an effect have this kind?
pub open spec fn spec_effect_is(ve: ValuelessEffectType, e: EffectType) -> bool {
    match e {
        EffectType::Chorus(_) => ve == ValuelessEffectType::Chorus,
        EffectType::Pan(_) => ve == ValuelessEffectType::Pan,
        EffectType::Reverb(_) => ve == ValuelessEffectType::Reverb,
        EffectType::PitchBend(_) => ve == ValuelessEffectType::PitchBend,
        EffectType::ChannelPressure(_) => ve == ValuelessEffectType::ChannelPressure,
        EffectType::PolyphonicKeyPressure { .. } => ve == ValuelessEffectType::PolyphonicKeyPressure,
    }
}

pub fn effect_is(ve: ValuelessEffectType, e: EffectType) -> (r: bool)
    ensures
        r == spec_effect_is(ve, e),
{
    match e {
        EffectType::Chorus(_) => ve == ValuelessEffectType::Chorus,
        EffectType::Pan(_) => ve == ValuelessEffectType::Pan,
        EffectType::Reverb(_) => ve == ValuelessEffectType::Reverb,
        EffectType::PitchBend(_) => ve == ValuelessEffectType::PitchBend,
        EffectType::ChannelPressure(_) => ve == ValuelessEffectType::ChannelPressure,
        EffectType::PolyphonicKeyPressure { .. } => ve == ValuelessEffectType::PolyphonicKeyPressure,
    }
}

/// A note is a MIDI note: its pitch and velocity are MIDI values, and it does not end before it starts.
pub open spec fn note_wf(n: Note) -> bool {
    &&& n.note <= MAX_NOTE
    &&& n.velocity <= MAX_VOLUME
    &&& n.start <= n.end
}

impl StateModel {
    /// The invariant that every state of the app keeps.
    pub open spec fn wf(self) -> bool {
        &&& self.focus.index < self.panels.len()
        &&& self.time.mode.wf() && self.time.mode.length == NUM_EDIT_MODES
        &&& self.view.mode.wf() && self.view.mode.length == NUM_EDIT_MODES
        &&& self.edit_mode.wf() && self.edit_mode.length == NUM_EDIT_MODES
        &&& self.effect_types.wf() && self.effect_types.length == NUM_EFFECT_TYPES
        &&& self.music_panel_field.wf() && self.music_panel_field.length == NUM_MUSIC_PANEL_FIELDS
        &&& self.input.volume.wf()
        &&& self.input.volume.length == MAX_VOLUME as usize + 1
        &&& match self.music.selected {
            Some(i) => i < self.music.tracks.len(),
            None => true,
        }
        &&& forall|t: int, i: int|
            0 <= t < self.music.tracks.len() && 0 <= i < self.music.tracks[t].notes.len()
                ==> #[trigger] note_wf(self.music.tracks[t].notes[i])
    }
}

impl State {
    /// A copy of the state.
    pub fn duplicate(&self) -> (r: State)
        ensures
            r@ == self@,
    {
        let panels = self.panels.clone();
        proof {
            assert(panels@ =~= self.panels@);
        }
        State {
            panels,
            focus: self.focus,
            unsaved_changes: self.unsaved_changes,
            music: self.music.duplicate(),
            time: self.time,
            input: self.input,
            view: self.view,
            selection: self.selection.duplicate(),
            edit_mode: self.edit_mode,
            piano_roll_mode: self.piano_roll_mode,
            effect_types: self.effect_types,
            music_panel_field: self.music_panel_field,
        }
    }
}

} // verus!
