use vstd::prelude::*;
use crate::exporter::{opt_string_view, Exporter, ExporterModel, MetadataModel};
use crate::model::{tracks_view, MidiTrack, Music, MusicModel, Note, State, StateModel, TrackModel, DEFAULT_TRACK_GAIN};
use crate::snapshot::{commands_view, Command, CommandModel};
use midly::MetaMessage::{Copyright, Text};
use midly::MidiMessage::{NoteOff, NoteOn, ProgramChange};
use midly::TrackEventKind::{Meta, Midi};
use vstd::utf8::{decode_utf8, valid_utf8};

verus! {

/// What the import reads of an event of a MIDI file.
#[derive(Debug)]
pub enum MidiEvent {
    /// A copyright notice: its text, if it is valid UTF-8.
    Copyright(Option<String>),
    /// A text: its text, if it is valid UTF-8.
    Text(Option<String>),
    NoteOn { key: u8, vel: u8 },
    NoteOff { key: u8, vel: u8 },
    ProgramChange { program: u8 },
    /// Any other event (the tempo and the time signature among them).
    Other,
}

/// An event of a track of a MIDI file, after a delay in ticks.
#[derive(Debug)]
pub struct TrackEvent {
    pub delta: u32,
    pub kind: MidiEvent,
}

/// A pressed key that waits for its release: the key, the velocity, and the time.
pub type HeldKey = (u8, u8, u64);

/// The mathematical value of what the import reads of an event.
pub enum MidiEventModel {
    Copyright(Option<Seq<char>>),
    Text(Option<Seq<char>>),
    NoteOn { key: u8, vel: u8 },
    NoteOff { key: u8, vel: u8 },
    ProgramChange { program: u8 },
    Other,
}

impl View for MidiEvent {
    type V = MidiEventModel;

    open spec fn view(&self) -> MidiEventModel {
        match self {
            MidiEvent::Copyright(x) => MidiEventModel::Copyright(opt_string_view(*x)),
            MidiEvent::Text(x) => MidiEventModel::Text(opt_string_view(*x)),
            MidiEvent::NoteOn { key, vel } => MidiEventModel::NoteOn { key: *key, vel: *vel },
            MidiEvent::NoteOff { key, vel } => MidiEventModel::NoteOff { key: *key, vel: *vel },
            MidiEvent::ProgramChange { program } => MidiEventModel::ProgramChange { program: *program },
            MidiEvent::Other => MidiEventModel::Other,
        }
    }
}

/// The mathematical value of an event of a track.
pub struct TrackEventModel {
    pub delta: u32,
    pub kind: MidiEventModel,
}

impl View for TrackEvent {
    type V = TrackEventModel;

    open spec fn view(&self) -> TrackEventModel {
        TrackEventModel { delta: self.delta, kind: self.kind@ }
    }
}

/// The views of the events of a track.
pub open spec fn track_view(s: Seq<TrackEvent>) -> Seq<TrackEventModel> {
    s.map_values(|e: TrackEvent| e@)
}

/// Where the import of a track stands.
pub struct TrackImport {
    /// The time in ticks.
    pub time: int,
    /// The notes so far.
    pub notes: Seq<Note>,
    /// The keys that wait for their release, in the order they were pressed.
    pub held: Seq<HeldKey>,
    /// The commands for the synthesizer so far.
    pub commands: Seq<CommandModel>,
    /// The export metadata so far.
    pub copyright: bool,
    pub artist: Option<Seq<char>>,
    pub comment: Option<Seq<char>>,
    /// False once a key is released that was not held.
    pub ok: bool,
}

/// Is position `i` the first held key with this key?
pub open spec fn spec_is_first_key(held: Seq<HeldKey>, key: u8, i: int) -> bool {
    &&& 0 <= i < held.len()
    &&& held[i].0 == key
    &&& forall|j: int| 0 <= j < i ==> #[trigger] held[j].0 != key
}

/// The position of the first held key with this key, if there is one.
pub open spec fn spec_first_key(held: Seq<HeldKey>, key: u8) -> Option<int> {
    if exists|i: int| spec_is_first_key(held, key, i) {
        Some(choose|i: int| spec_is_first_key(held, key, i))
    } else {
        None
    }
}

/// The larger of two bytes.
pub open spec fn spec_max_u8(a: u8, b: u8) -> u8 {
    if a >= b {
        a
    } else {
        b
    }
}

/// What one event does to the import of a track on channel `c`.
pub open spec fn spec_import_event(s: TrackImport, e: TrackEventModel, c: u8, soundfont: Seq<char>, bank: usize) -> TrackImport {
    let t = s.time + e.delta;
    let s = TrackImport { time: t, ..s };
    match e.kind {
        MidiEventModel::Copyright(Some(x)) => TrackImport { copyright: true, artist: Some(x), ..s },
        MidiEventModel::Text(Some(x)) => TrackImport { comment: Some(x), ..s },
        MidiEventModel::NoteOn { key, vel } => TrackImport { held: s.held.push((key, vel, t as u64)), ..s },
        MidiEventModel::NoteOff { key, vel } => match spec_first_key(s.held, key) {
            Some(i) => {
                let on = s.held[i];
                TrackImport {
                    notes: s.notes.push(Note { note: on.0, velocity: spec_max_u8(vel, on.1), start: on.2, end: t as u64 }),
                    held: s.held.remove(i),
                    ..s
                }
            },
            None => TrackImport { ok: false, ..s },
        },
        MidiEventModel::ProgramChange { program } => TrackImport {
            commands: s.commands.push(
                CommandModel::SetProgram { channel: c, path: soundfont, bank_index: bank, preset_index: program as usize },
            ),
            ..s
        },
        _ => s,
    }
}

/// What the events of a track do, in order, to the import of the track.
pub open spec fn spec_import_events(s: TrackImport, es: Seq<TrackEventModel>, c: u8, soundfont: Seq<char>, bank: usize) -> TrackImport
    decreases es.len(),
{
    if es.len() == 0 {
        s
    } else {
        spec_import_event(spec_import_events(s, es.drop_last(), c, soundfont, bank), es.last(), c, soundfont, bank)
    }
}

/// The time of the last event of a track, in ticks.
pub open spec fn spec_track_length(es: Seq<TrackEventModel>) -> int
    decreases es.len(),
{
    if es.len() == 0 {
        0
    } else {
        spec_track_length(es.drop_last()) + es.last().delta
    }
}

/// What importing the tracks of a MIDI file gives: for each track (on the channel of its
/// position), the default SoundFont is loaded, and its events are read in order. Returns the
/// tracks, the commands for the synthesizer, the export metadata, and whether every released
/// key was held.
pub open spec fn spec_import_tracks(
    ts: Seq<Seq<TrackEventModel>>,
    soundfont: Seq<char>,
    bank: usize,
    meta: (bool, Option<Seq<char>>, Option<Seq<char>>),
) -> (Seq<TrackModel>, Seq<CommandModel>, (bool, Option<Seq<char>>, Option<Seq<char>>), bool)
    decreases ts.len(),
{
    if ts.len() == 0 {
        (seq![], seq![], meta, true)
    } else {
        let (tracks, commands, m, ok) = spec_import_tracks(ts.drop_last(), soundfont, bank, meta);
        let c = (ts.len() - 1) as u8;
        let start = TrackImport {
            time: 0,
            notes: seq![],
            held: seq![],
            commands: seq![CommandModel::LoadSoundFont { channel: c, path: soundfont }],
            copyright: m.0,
            artist: m.1,
            comment: m.2,
            ok: true,
        };
        let r = spec_import_events(start, ts.last(), c, soundfont, bank);
        (
            tracks.push(
                TrackModel { channel: c, gain: DEFAULT_TRACK_GAIN, mute: false, solo: false, notes: r.notes, effects: seq![] },
            ),
            commands + r.commands,
            (r.copyright, r.artist, r.comment),
            ok && r.ok,
        )
    }
}

/// The imported music: the tracks that have notes, with the first one selected.
pub open spec fn spec_imported_music(tracks: Seq<TrackModel>) -> MusicModel {
    let kept = tracks.filter(|t: TrackModel| t.notes.len() > 0);
    MusicModel { tracks: kept, selected: if kept.len() > 0 { Some(0) } else { None } }
}

/// The export metadata that the import reads: the copyright flag, the artist, the comment.
pub open spec fn spec_meta(ex: ExporterModel) -> (bool, Option<Seq<char>>, Option<Seq<char>>) {
    (ex.copyright, ex.metadata.artist, ex.metadata.comment)
}

/// Once a released key was not held, the import of the track stays failed.
pub proof fn lemma_import_ok_prefix(s: TrackImport, es: Seq<TrackEventModel>, c: u8, soundfont: Seq<char>, bank: usize, i: int)
    requires
        0 <= i <= es.len(),
        spec_import_events(s, es, c, soundfont, bank).ok,
    ensures
        spec_import_events(s, es.take(i), c, soundfont, bank).ok,
    decreases es.len(),
{
    if i < es.len() {
        lemma_import_ok_prefix(s, es.drop_last(), c, soundfont, bank, i);
        assert(es.drop_last().take(i) =~= es.take(i));
    } else {
        assert(es.take(i) =~= es);
    }
}

/// The time of a prefix of a track is no later than the time of the track.
pub proof fn lemma_track_length_prefix(es: Seq<TrackEventModel>, i: int)
    requires
        0 <= i <= es.len(),
    ensures
        0 <= spec_track_length(es.take(i)) <= spec_track_length(es),
    decreases es.len(),
{
    if es.len() > 0 {
        if i < es.len() {
            lemma_track_length_prefix(es.drop_last(), i);
            assert(es.drop_last().take(i) =~= es.take(i));
        } else {
            assert(es.take(i) =~= es);
            lemma_track_length_prefix(es.drop_last(), i - 1);
        }
    } else {
        assert(es.take(i) =~= es);
    }
}

/// The time of the import of a track is the time of the events read.
pub proof fn lemma_import_time(s: TrackImport, es: Seq<TrackEventModel>, c: u8, soundfont: Seq<char>, bank: usize)
    ensures
        spec_import_events(s, es, c, soundfont, bank).time == s.time + spec_track_length(es),
    decreases es.len(),
{
    if es.len() > 0 {
        lemma_import_time(s, es.drop_last(), c, soundfont, bank);
    }
}

/// Once a released key was not held, the import of the tracks stays failed.
pub proof fn lemma_import_tracks_ok_prefix(
    ts: Seq<Seq<TrackEventModel>>,
    soundfont: Seq<char>,
    bank: usize,
    meta: (bool, Option<Seq<char>>, Option<Seq<char>>),
    i: int,
)
    requires
        0 <= i <= ts.len(),
        spec_import_tracks(ts, soundfont, bank, meta).3,
    ensures
        spec_import_tracks(ts.take(i), soundfont, bank, meta).3,
    decreases ts.len(),
{
    if i < ts.len() {
        lemma_import_tracks_ok_prefix(ts.drop_last(), soundfont, bank, meta, i);
        assert(ts.drop_last().take(i) =~= ts.take(i));
    } else {
        assert(ts.take(i) =~= ts);
    }
}

/// The position of the first held key with this key.
fn first_key(held: &Vec<HeldKey>, key: u8) -> (r: Option<usize>)
    ensures
        match r {
            Some(i) => spec_first_key(held@, key) == Some(i as int),
            None => spec_first_key(held@, key) is None,
        },
{
    let n = held.len();
    for i in 0..n
        invariant
            n == held@.len(),
            forall|j: int| 0 <= j < i ==> #[trigger] held@[j].0 != key,
    {
        if held[i].0 == key {
            proof {
                assert(spec_is_first_key(held@, key, i as int));
                let k = choose|k: int| spec_is_first_key(held@, key, k);
                assert(spec_is_first_key(held@, key, k));
                if k < i {
                    assert(held@[k].0 != key);
                } else if k > i {
                    assert(held@[i as int].0 != key);
                }
            }
            return Some(i);
        }
    }
    proof {
        assert(!exists|i: int| spec_is_first_key(held@, key, i));
    }
    None
}

/// The metadata that the import of a track starts from.
pub open spec fn spec_track_start(c: u8, soundfont: Seq<char>, m: (bool, Option<Seq<char>>, Option<Seq<char>>)) -> TrackImport {
    TrackImport {
        time: 0,
        notes: seq![],
        held: seq![],
        commands: seq![CommandModel::LoadSoundFont { channel: c, path: soundfont }],
        copyright: m.0,
        artist: m.1,
        comment: m.2,
        ok: true,
    }
}

/// The export settings with the metadata that the import reads replaced.
pub open spec fn spec_with_meta(ex: ExporterModel, m: (bool, Option<Seq<char>>, Option<Seq<char>>)) -> ExporterModel {
    ExporterModel { copyright: m.0, metadata: MetadataModel { artist: m.1, comment: m.2, ..ex.metadata }, ..ex }
}

/// Import a track on channel `c`: load the default SoundFont, then read the events in order.
fn import_track(
    events: &Vec<TrackEvent>,
    c: u8,
    soundfont: &String,
    bank: usize,
    exporter: &mut Exporter,
    commands: &mut Vec<Command>,
) -> (r: MidiTrack)
    requires
        spec_track_length(track_view(events@)) <= u64::MAX,
        spec_import_events(spec_track_start(c, soundfont@, spec_meta(old(exporter)@)), track_view(events@), c, soundfont@, bank).ok,
    ensures
        ({
            let s = spec_import_events(spec_track_start(c, soundfont@, spec_meta(old(exporter)@)), track_view(events@), c, soundfont@, bank);
            &&& r@ == (TrackModel {
                channel: c,
                gain: DEFAULT_TRACK_GAIN,
                mute: false,
                solo: false,
                notes: s.notes,
                effects: seq![],
            })
            &&& final(exporter)@ == spec_with_meta(old(exporter)@, (s.copyright, s.artist, s.comment))
            &&& commands_view(final(commands)@) == commands_view(old(commands)@) + s.commands
        }),
{
    let ghost start = spec_track_start(c, soundfont@, spec_meta(exporter@));
    let ghost ex0 = exporter@;
    let ghost c0 = commands_view(commands@);
    commands.push(Command::LoadSoundFont { channel: c, path: soundfont.clone() });
    proof {
        assert(commands_view(commands@) =~= c0 + start.commands);
    }
    let mut time: u64 = 0;
    let mut notes: Vec<Note> = Vec::new();
    let mut held: Vec<HeldKey> = Vec::new();
    let n = events.len();
    for i in 0..n
        invariant
            n == track_view(events@).len(),
            start == spec_track_start(c, soundfont@, spec_meta(ex0)),
            spec_track_length(track_view(events@)) <= u64::MAX,
            spec_import_events(start, track_view(events@), c, soundfont@, bank).ok,
            ({
                let s = spec_import_events(start, track_view(events@).take(i as int), c, soundfont@, bank);
                &&& s.time == time
                &&& s.notes == notes@
                &&& s.held == held@
                &&& commands_view(commands@) == c0 + s.commands
                &&& exporter@ == spec_with_meta(ex0, (s.copyright, s.artist, s.comment))
                &&& s.ok
            }),
    {
        proof {
            assert(track_view(events@).take(i + 1).drop_last() =~= track_view(events@).take(i as int));
            lemma_import_ok_prefix(start, track_view(events@), c, soundfont@, bank, i + 1);
            lemma_track_length_prefix(track_view(events@), i + 1);
            lemma_import_time(start, track_view(events@).take(i + 1), c, soundfont@, bank);
            lemma_import_time(start, track_view(events@).take(i as int), c, soundfont@, bank);
            assert(track_view(events@).take(i + 1).last() == track_view(events@)[i as int]);
            assert(spec_track_length(track_view(events@).take(i + 1)) == spec_track_length(track_view(events@).take(i as int))
                + track_view(events@)[i as int].delta);
        }
        let e = &events[i];
        time = time + e.delta as u64;
        let ghost ev = track_view(events@)[i as int];
        match &e.kind {
            MidiEvent::Copyright(x) => {
                if let Some(x) = x {
                    exporter.copyright = true;
                    exporter.metadata.artist = Some(x.clone());
                }
            },
            MidiEvent::Text(x) => {
                if let Some(x) = x {
                    exporter.metadata.comment = Some(x.clone());
                }
            },
            MidiEvent::NoteOn { key, vel } => {
                held.push((*key, *vel, time));
            },
            MidiEvent::NoteOff { key, vel } => {
                match first_key(&held, *key) {
                    Some(j) => {
                        let on = held.remove(j);
                        let velocity = if *vel >= on.1 {
                            *vel
                        } else {
                            on.1
                        };
                        notes.push(Note { note: on.0, velocity, start: on.2, end: time });
                    },
                    None => {},
                }
            },
            MidiEvent::ProgramChange { program } => {
                let ghost cv = commands_view(commands@);
                commands.push(Command::SetProgram {
                    channel: c,
                    path: soundfont.clone(),
                    bank_index: bank,
                    preset_index: *program as usize,
                });
                proof {
                    assert(commands_view(commands@) =~= cv.push(
                        CommandModel::SetProgram { channel: c, path: soundfont@, bank_index: bank, preset_index: *program as usize },
                    ));
                }
            },
            MidiEvent::Other => {},
        }
        proof {
            let s = spec_import_events(start, track_view(events@).take(i + 1), c, soundfont@, bank);
            assert(s.notes == notes@);
            assert(s.held == held@);
            assert(commands_view(commands@) =~= c0 + s.commands);
            assert(exporter@ =~= spec_with_meta(ex0, (s.copyright, s.artist, s.comment)));
        }
    }
    proof {
        assert(track_view(events@).take(n as int) =~= track_view(events@));
    }
    MidiTrack { channel: c, gain: DEFAULT_TRACK_GAIN, mute: false, solo: false, notes, effects: Vec::new() }
}

/// The views of the tracks of a MIDI file.
pub open spec fn events_view(ts: Seq<Vec<TrackEvent>>) -> Seq<Seq<TrackEventModel>> {
    ts.map_values(|v: Vec<TrackEvent>| track_view(v@))
}

/// The tracks that have notes.
fn keep_tracks_with_notes(tracks: Vec<MidiTrack>) -> (r: Vec<MidiTrack>)
    ensures
        tracks_view(r@) == tracks_view(tracks@).filter(|t: TrackModel| t.notes.len() > 0),
{
    let ghost all = tracks_view(tracks@);
    let mut kept: Vec<MidiTrack> = Vec::new();
    let n = tracks.len();
    for i in 0..n
        invariant
            n == tracks@.len(),
            all == tracks_view(tracks@),
            tracks_view(kept@) == all.take(i as int).filter(|t: TrackModel| t.notes.len() > 0),
    {
        proof {
            reveal_with_fuel(Seq::<_>::filter, 1);
            assert(all.take(i + 1).drop_last() =~= all.take(i as int));
        }
        if tracks[i].notes.len() > 0 {
            let ghost k0 = kept@;
            kept.push(tracks[i].duplicate());
            proof {
                assert(tracks_view(kept@) =~= tracks_view(k0).push(all[i as int]));
            }
        }
    }
    proof {
        assert(all.take(n as int) =~= all);
    }
    kept
}

/// Whether the releases of a track's events were all held, from the start of the import of
/// the track.
fn track_releases_held(
    events: &Vec<TrackEvent>,
    Ghost(start): Ghost<TrackImport>,
    c: u8,
    Ghost(soundfont): Ghost<Seq<char>>,
    bank: usize,
) -> (r: bool)
    requires
        spec_track_length(track_view(events@)) <= u64::MAX,
        start.time == 0,
        start.held == Seq::<HeldKey>::empty(),
        start.ok,
    ensures
        r == spec_import_events(start, track_view(events@), c, soundfont, bank).ok,
{
    let mut time: u64 = 0;
    let mut held: Vec<HeldKey> = Vec::new();
    let n = events.len();
    proof {
        assert(track_view(events@).take(0) =~= Seq::<TrackEventModel>::empty());
    }
    for i in 0..n
        invariant
            n == track_view(events@).len(),
            start.time == 0,
            spec_track_length(track_view(events@)) <= u64::MAX,
            ({
                let s = spec_import_events(start, track_view(events@).take(i as int), c, soundfont, bank);
                &&& s.time == time
                &&& s.held == held@
                &&& s.ok
            }),
    {
        proof {
            assert(track_view(events@).take(i + 1).drop_last() =~= track_view(events@).take(i as int));
            assert(track_view(events@).take(i + 1).last() == track_view(events@)[i as int]);
            lemma_track_length_prefix(track_view(events@), i + 1);
            lemma_import_time(start, track_view(events@).take(i + 1), c, soundfont, bank);
            lemma_import_time(start, track_view(events@).take(i as int), c, soundfont, bank);
            assert(spec_track_length(track_view(events@).take(i + 1)) == spec_track_length(track_view(events@).take(i as int))
                + track_view(events@)[i as int].delta);
        }
        let e = &events[i];
        time = time + e.delta as u64;
        match &e.kind {
            MidiEvent::NoteOn { key, vel } => {
                held.push((*key, *vel, time));
            },
            MidiEvent::NoteOff { key, vel } => {
                match first_key(&held, *key) {
                    Some(j) => {
                        held.remove(j);
                    },
                    None => {
                        proof {
                            if spec_import_events(start, track_view(events@), c, soundfont, bank).ok {
                                lemma_import_ok_prefix(start, track_view(events@), c, soundfont, bank, i + 1);
                            }
                        }
                        return false;
                    },
                }
            },
            _ => {},
        }
        proof {
            let s = spec_import_events(start, track_view(events@).take(i + 1), c, soundfont, bank);
            assert(s.held =~= held@);
        }
    }
    proof {
        assert(track_view(events@).take(n as int) =~= track_view(events@));
    }
    true
}

/// Whether the tracks of a MIDI file can be imported: the time of each track fits in 64 bits,
/// and every released key was held.
pub fn can_import(tracks: &Vec<Vec<TrackEvent>>, soundfont: &String, bank: usize, exporter: &Exporter) -> (r: bool)
    ensures
        r == ((forall|i: int| 0 <= i < tracks@.len() ==> spec_track_length(#[trigger] track_view(tracks@[i]@)) <= u64::MAX)
            && spec_import_tracks(events_view(tracks@), soundfont@, bank, spec_meta(exporter@)).3),
{
    let ghost ts = events_view(tracks@);
    let ghost m0 = spec_meta(exporter@);
    let n = tracks.len();
    for i in 0..n
        invariant
            n == tracks@.len(),
            forall|k: int| 0 <= k < i ==> spec_track_length(#[trigger] track_view(tracks@[k]@)) <= u64::MAX,
    {
        let events = &tracks[i];
        let m = events.len();
        let mut length: u64 = 0;
        proof {
            assert(track_view(events@).take(0) =~= Seq::<TrackEventModel>::empty());
        }
        for j in 0..m
            invariant
                m == track_view(events@).len(),
                i < n,
                n == tracks@.len(),
                track_view(events@) == track_view(tracks@[i as int]@),
                length == spec_track_length(track_view(events@).take(j as int)),
        {
            proof {
                assert(track_view(events@).take(j + 1).drop_last() =~= track_view(events@).take(j as int));
                assert(track_view(events@).take(j + 1).last() == track_view(events@)[j as int]);
            }
            match length.checked_add(events[j].delta as u64) {
                Some(l) => length = l,
                None => {
                    proof {
                        assert(spec_track_length(track_view(events@).take(j + 1)) == length + track_view(events@)[j as int].delta);
                        lemma_track_length_prefix(track_view(events@), j + 1);
                        assert(spec_track_length(track_view(tracks@[i as int]@)) > u64::MAX);
                    }
                    return false;
                },
            }
        }
        proof {
            assert(track_view(events@).take(m as int) =~= track_view(events@));
        }
    }
    proof {
        assert(ts.take(0) =~= Seq::<Seq<TrackEventModel>>::empty());
    }
    for i in 0..n
        invariant
            n == tracks@.len(),
            ts == events_view(tracks@),
            m0 == spec_meta(exporter@),
            forall|k: int| 0 <= k < tracks@.len() ==> spec_track_length(#[trigger] track_view(tracks@[k]@)) <= u64::MAX,
            spec_import_tracks(ts.take(i as int), soundfont@, bank, m0).3,
    {
        proof {
            assert(ts.take(i + 1).drop_last() =~= ts.take(i as int));
            assert(ts.take(i + 1).last() == track_view(tracks@[i as int]@));
        }
        let c = i as u8;
        let ghost pm = spec_import_tracks(ts.take(i as int), soundfont@, bank, m0).2;
        let ghost start = spec_track_start(c, soundfont@, pm);
        proof {
            assert(c == (ts.take(i + 1).len() - 1) as u8);
            assert(start.held =~= Seq::<HeldKey>::empty());
        }
        let held = track_releases_held(&tracks[i], Ghost(start), c, Ghost(soundfont@), bank);
        proof {
            let pre = ts.take(i + 1);
            let (tracks0, commands0, m1, ok0) = spec_import_tracks(pre.drop_last(), soundfont@, bank, m0);
            assert(m1 == pm);
            let r1 = spec_import_events(start, pre.last(), c, soundfont@, bank);
            assert(r1.ok == held);
            assert(spec_import_tracks(pre, soundfont@, bank, m0).3 == (ok0 && held));
        }
        if !held {
            proof {
                if spec_import_tracks(ts, soundfont@, bank, m0).3 {
                    lemma_import_tracks_ok_prefix(ts, soundfont@, bank, m0, i + 1);
                }
            }
            return false;
        }
    }
    proof {
        assert(ts.take(n as int) =~= ts);
    }
    true
}

/// Import the tracks of a MIDI file into the music: each track (on the channel of its
/// position) gets the default SoundFont and the notes of its events; the tracks without notes
/// are dropped, and the first track is selected. A copyright notice becomes the artist (and
/// sets the copyright flag), and a text becomes the comment. Returns the commands for the
/// synthesizer: for each track, load the default SoundFont, then each change of program.
///
/// - `soundfont` The default SoundFont.
/// - `bank` The bank that a program change keeps.
pub fn import(
    tracks: &Vec<Vec<TrackEvent>>,
    soundfont: &String,
    bank: usize,
    state: &mut State,
    exporter: &mut Exporter,
) -> (r: Vec<Command>)
    requires
        forall|i: int| 0 <= i < tracks@.len() ==> spec_track_length(#[trigger] track_view(tracks@[i]@)) <= u64::MAX,
        spec_import_tracks(events_view(tracks@), soundfont@, bank, spec_meta(old(exporter)@)).3,
    ensures
        ({
            let (ts, cmds, m, ok) = spec_import_tracks(events_view(tracks@), soundfont@, bank, spec_meta(old(exporter)@));
            &&& final(state)@ == (StateModel { music: spec_imported_music(ts), ..old(state)@ })
            &&& final(exporter)@ == spec_with_meta(old(exporter)@, m)
            &&& commands_view(r@) == cmds
        }),
{
    let ghost ts = events_view(tracks@);
    let ghost m0 = spec_meta(exporter@);
    let ghost ex0 = exporter@;
    let mut music_tracks: Vec<MidiTrack> = Vec::new();
    let mut commands: Vec<Command> = Vec::new();
    let n = tracks.len();
    proof {
        assert(ts.take(0) =~= Seq::<Seq<TrackEventModel>>::empty());
        assert(tracks_view(music_tracks@) =~= Seq::<TrackModel>::empty());
        assert(commands_view(commands@) =~= Seq::<CommandModel>::empty());
        assert(spec_with_meta(ex0, m0) =~= ex0);
    }
    for i in 0..n
        invariant
            n == tracks@.len(),
            ts == events_view(tracks@),
            m0 == spec_meta(ex0),
            forall|k: int| 0 <= k < tracks@.len() ==> spec_track_length(#[trigger] track_view(tracks@[k]@)) <= u64::MAX,
            spec_import_tracks(ts, soundfont@, bank, m0).3,
            ({
                let (pt, pc, pm, pok) = spec_import_tracks(ts.take(i as int), soundfont@, bank, m0);
                &&& tracks_view(music_tracks@) == pt
                &&& commands_view(commands@) == pc
                &&& exporter@ == spec_with_meta(ex0, pm)
                &&& pok
            }),
    {
        proof {
            assert(ts.take(i + 1).drop_last() =~= ts.take(i as int));
            assert(ts.take(i + 1).last() == track_view(tracks@[i as int]@));
            lemma_import_tracks_ok_prefix(ts, soundfont@, bank, m0, i + 1);
            assert(spec_meta(exporter@) == spec_import_tracks(ts.take(i as int), soundfont@, bank, m0).2);
        }
        let c = i as u8;
        proof {
            assert(c == (ts.take(i + 1).len() - 1) as u8);
        }
        let ghost mt0 = tracks_view(music_tracks@);
        let track = import_track(&tracks[i], c, soundfont, bank, exporter, &mut commands);
        music_tracks.push(track);
        proof {
            assert(tracks_view(music_tracks@) =~= mt0.push(track@));
            let (pt, pc, pm, pok) = spec_import_tracks(ts.take(i + 1), soundfont@, bank, m0);
            assert(tracks_view(music_tracks@) == pt);
            assert(exporter@ =~= spec_with_meta(ex0, pm));
        }
    }
    proof {
        assert(ts.take(n as int) =~= ts);
    }
    let kept = keep_tracks_with_notes(music_tracks);
    let selected = if kept.len() > 0 {
        Some(0)
    } else {
        None
    };
    state.music = Music { midi_tracks: kept, selected };
    proof {
        let (pt, pc, pm, pok) = spec_import_tracks(ts, soundfont@, bank, m0);
        assert(state@ =~= StateModel { music: spec_imported_music(pt), ..old(state)@ });
    }
    commands
}

/// An event of a MIDI file whose keys and velocities are MIDI values.
pub open spec fn event_wf(e: TrackEventModel) -> bool {
    match e.kind {
        MidiEventModel::NoteOn { key, vel } => key <= crate::model::MAX_NOTE && vel <= crate::model::MAX_VOLUME,
        MidiEventModel::NoteOff { key, vel } => key <= crate::model::MAX_NOTE && vel <= crate::model::MAX_VOLUME,
        _ => true,
    }
}

/// The import of a track so far holds valid notes, and held keys that are MIDI values pressed no
/// later than now.
pub open spec fn import_wf(s: TrackImport) -> bool {
    &&& 0 <= s.time <= u64::MAX
    &&& forall|i: int| 0 <= i < s.notes.len() ==> #[trigger] crate::model::note_wf(s.notes[i])
    &&& forall|i: int| 0 <= i < s.held.len() ==> {
        &&& (#[trigger] s.held[i]).0 <= crate::model::MAX_NOTE
        &&& s.held[i].1 <= crate::model::MAX_VOLUME
        &&& s.held[i].2 <= s.time
    }
}

/// Reading events whose keys and velocities are MIDI values keeps the import valid.
pub proof fn lemma_import_events_wf(s: TrackImport, es: Seq<TrackEventModel>, c: u8, soundfont: Seq<char>, bank: usize)
    requires
        import_wf(s),
        s.time + spec_track_length(es) <= u64::MAX,
        forall|i: int| 0 <= i < es.len() ==> #[trigger] event_wf(es[i]),
    ensures
        import_wf(spec_import_events(s, es, c, soundfont, bank)),
    decreases es.len(),
{
    if es.len() > 0 {
        let rest = es.drop_last();
        assert forall|i: int| 0 <= i < rest.len() implies #[trigger] event_wf(rest[i]) by {
            assert(rest[i] == es[i]);
        }
        lemma_import_events_wf(s, rest, c, soundfont, bank);
        let p = spec_import_events(s, rest, c, soundfont, bank);
        lemma_import_time(s, rest, c, soundfont, bank);
        let e = es.last();
        assert(event_wf(es[es.len() - 1]));
        let t = p.time + e.delta;
        let r = spec_import_event(p, e, c, soundfont, bank);
        match e.kind {
            MidiEventModel::NoteOff { key, vel } => {
                match spec_first_key(p.held, key) {
                    Some(i) => {
                        assert(spec_is_first_key(p.held, key, i)) by {
                            let w = choose|w: int| spec_is_first_key(p.held, key, w);
                            assert(exists|w: int| spec_is_first_key(p.held, key, w));
                        }
                        let on = p.held[i];
                        assert forall|k: int| 0 <= k < r.held.len() implies {
                            &&& (#[trigger] r.held[k]).0 <= crate::model::MAX_NOTE
                            &&& r.held[k].1 <= crate::model::MAX_VOLUME
                            &&& r.held[k].2 <= r.time
                        } by {
                            if k < i {
                                assert(r.held[k] == p.held[k]);
                            } else {
                                assert(r.held[k] == p.held[k + 1]);
                            }
                        }
                        assert(import_wf(r));
                    },
                    None => {},
                }
            },
            _ => {},
        }
    }
}

/// Importing tracks whose keys and velocities are MIDI values gives tracks of valid notes.
pub proof fn lemma_import_tracks_wf(
    ts: Seq<Seq<TrackEventModel>>,
    soundfont: Seq<char>,
    bank: usize,
    meta: (bool, Option<Seq<char>>, Option<Seq<char>>),
)
    requires
        forall|k: int| 0 <= k < ts.len() ==> spec_track_length(#[trigger] ts[k]) <= u64::MAX,
        forall|k: int, i: int| 0 <= k < ts.len() && 0 <= i < ts[k].len() ==> #[trigger] event_wf(ts[k][i]),
    ensures
        ({
            let tracks = spec_import_tracks(ts, soundfont, bank, meta).0;
            forall|t: int, i: int|
                0 <= t < tracks.len() && 0 <= i < tracks[t].notes.len() ==> #[trigger] crate::model::note_wf(
                    tracks[t].notes[i],
                )
        }),
    decreases ts.len(),
{
    if ts.len() > 0 {
        let rest = ts.drop_last();
        assert forall|k: int| 0 <= k < rest.len() implies spec_track_length(#[trigger] rest[k]) <= u64::MAX by {
            assert(rest[k] == ts[k]);
        }
        assert forall|k: int, i: int| 0 <= k < rest.len() && 0 <= i < rest[k].len() implies #[trigger] event_wf(
            rest[k][i],
        ) by {
            assert(rest[k] == ts[k]);
        }
        lemma_import_tracks_wf(rest, soundfont, bank, meta);
        let (tracks, commands, m, ok) = spec_import_tracks(rest, soundfont, bank, meta);
        let c = (ts.len() - 1) as u8;
        let start = spec_track_start(c, soundfont, m);
        let last = ts.last();
        assert(last == ts[ts.len() - 1]);
        assert forall|i: int| 0 <= i < last.len() implies #[trigger] event_wf(last[i]) by {
            assert(event_wf(ts[ts.len() - 1][i]));
        }
        lemma_import_events_wf(start, last, c, soundfont, bank);
        let r = spec_import_events(start, last, c, soundfont, bank);
        let all = spec_import_tracks(ts, soundfont, bank, meta).0;
        assert forall|t: int, i: int| 0 <= t < all.len() && 0 <= i < all[t].notes.len() implies #[trigger] crate::model::note_wf(
            all[t].notes[i],
        ) by {
            if t < tracks.len() {
                assert(all[t] == tracks[t]);
            } else {
                assert(all[t].notes == r.notes);
            }
        }
    }
}

/// Importing a MIDI file whose keys and velocities are MIDI values keeps the state valid: the
/// music holds tracks of valid notes, and the first of them, if any, is selected.
pub proof fn lemma_import_keeps_wf(
    st: StateModel,
    ts: Seq<Seq<TrackEventModel>>,
    soundfont: Seq<char>,
    bank: usize,
    meta: (bool, Option<Seq<char>>, Option<Seq<char>>),
)
    requires
        st.wf(),
        forall|k: int| 0 <= k < ts.len() ==> spec_track_length(#[trigger] ts[k]) <= u64::MAX,
        forall|k: int, i: int| 0 <= k < ts.len() && 0 <= i < ts[k].len() ==> #[trigger] event_wf(ts[k][i]),
    ensures
        (StateModel { music: spec_imported_music(spec_import_tracks(ts, soundfont, bank, meta).0), ..st }).wf(),
{
    lemma_import_tracks_wf(ts, soundfont, bank, meta);
    let tracks = spec_import_tracks(ts, soundfont, bank, meta).0;
    let kept = tracks.filter(|t: TrackModel| t.notes.len() > 0);
    assert forall|t: int, i: int| 0 <= t < kept.len() && 0 <= i < kept[t].notes.len() implies #[trigger] crate::model::note_wf(
        kept[t].notes[i],
    ) by {
        assert(kept.contains(kept[t]));
        tracks.lemma_filter_contains_rev(|x: TrackModel| x.notes.len() > 0, kept[t]);
        let k = choose|k: int| 0 <= k < tracks.len() && tracks[k] == kept[t];
        assert(crate::model::note_wf(tracks[k].notes[i]));
    }
}


/// An event of a track of a standard MIDI file as it is parsed: the texts of meta events are
/// still bytes.
#[derive(Debug)]
pub enum SmfEvent {
    Copyright(Vec<u8>),
    Text(Vec<u8>),
    /// A key pressed, with its velocity.
    NoteOn(u8, u8),
    /// A key released, with its velocity.
    NoteOff(u8, u8),
    ProgramChange(u8),
    /// Any other event.
    Other,
}

/// A parsed event of a track, after a delay in ticks.
#[derive(Debug)]
pub struct SmfTrackEvent(pub u32, pub SmfEvent);

/// The mathematical value of a parsed event.
pub enum SmfEventModel {
    Copyright(Seq<u8>),
    Text(Seq<u8>),
    NoteOn { key: u8, vel: u8 },
    NoteOff { key: u8, vel: u8 },
    ProgramChange { program: u8 },
    Other,
}

/// The mathematical value of a parsed event of a track.
pub struct SmfTrackEventModel {
    pub delta: u32,
    pub kind: SmfEventModel,
}

impl View for SmfTrackEvent {
    type V = SmfTrackEventModel;

    open spec fn view(&self) -> SmfTrackEventModel {
        SmfTrackEventModel {
            delta: self.0,
            kind: match &self.1 {
                SmfEvent::Copyright(b) => SmfEventModel::Copyright(b@),
                SmfEvent::Text(b) => SmfEventModel::Text(b@),
                SmfEvent::NoteOn(key, vel) => SmfEventModel::NoteOn { key: *key, vel: *vel },
                SmfEvent::NoteOff(key, vel) => SmfEventModel::NoteOff { key: *key, vel: *vel },
                SmfEvent::ProgramChange(program) => SmfEventModel::ProgramChange { program: *program },
                SmfEvent::Other => SmfEventModel::Other,
            },
        }
    }
}

/// The views of parsed tracks.
pub open spec fn smf_view(ts: Seq<Vec<SmfTrackEvent>>) -> Seq<Seq<SmfTrackEventModel>> {
    ts.map_values(|t: Vec<SmfTrackEvent>| t@.map_values(|e: SmfTrackEvent| e@))
}

/// The views of the parsed tracks, if the file was parsed.
pub open spec fn opt_smf_view(r: Option<Vec<Vec<SmfTrackEvent>>>) -> Option<Seq<Seq<SmfTrackEventModel>>> {
    match r {
        Some(ts) => Some(smf_view(ts@)),
        None => None,
    }
}

/// What `midly` parses of the bytes of a standard MIDI file: its tracks, if the bytes are one.
pub uninterp spec fn smf_tracks(bytes: Seq<u8>) -> Option<Seq<Seq<SmfTrackEventModel>>>;

/// `midly::Smf::parse`: the tracks of a standard MIDI file, each event with its delay and, for
/// the events that the import reads, its fields; `None` if the bytes are not a MIDI file. The
/// contract names the result; it does not state the file format.
#[verifier::external_body]
fn parse_smf(bytes: &[u8]) -> (r: Option<Vec<Vec<SmfTrackEvent>>>)
    ensures
        opt_smf_view(r) == smf_tracks(bytes@),
{
    Some(midly::Smf::parse(bytes).ok()?.tracks.iter().map(|t| t.iter().map(|e| SmfTrackEvent(e.delta.as_int(), match e.kind {
        Meta(Copyright(d)) => SmfEvent::Copyright(d.to_vec()),
        Meta(Text(d)) => SmfEvent::Text(d.to_vec()),
        Midi { message: NoteOn { key, vel }, .. } => SmfEvent::NoteOn(key.as_int(), vel.as_int()),
        Midi { message: NoteOff { key, vel }, .. } => SmfEvent::NoteOff(key.as_int(), vel.as_int()),
        Midi { message: ProgramChange { program }, .. } => SmfEvent::ProgramChange(program.as_int()),
        _ => SmfEvent::Other,
    })).collect()).collect())
}

/// The text that bytes encode in UTF-8, if they are valid UTF-8.
pub open spec fn spec_utf8(b: Seq<u8>) -> Option<Seq<char>> {
    if valid_utf8(b) {
        Some(decode_utf8(b))
    } else {
        None
    }
}

/// `std::str::from_utf8`: the text that the bytes encode, or `None` if they are not valid UTF-8.
#[verifier::external_body]
fn utf8_text(b: &[u8]) -> (r: Option<String>)
    ensures
        opt_string_view(r) == spec_utf8(b@),
{
    std::str::from_utf8(b).ok().map(|s| s.to_string())
}

/// What the import reads of a parsed event: the texts decoded from UTF-8.
pub open spec fn spec_read_event(e: SmfTrackEventModel) -> TrackEventModel {
    TrackEventModel {
        delta: e.delta,
        kind: match e.kind {
            SmfEventModel::Copyright(b) => MidiEventModel::Copyright(spec_utf8(b)),
            SmfEventModel::Text(b) => MidiEventModel::Text(spec_utf8(b)),
            SmfEventModel::NoteOn { key, vel } => MidiEventModel::NoteOn { key, vel },
            SmfEventModel::NoteOff { key, vel } => MidiEventModel::NoteOff { key, vel },
            SmfEventModel::ProgramChange { program } => MidiEventModel::ProgramChange { program },
            SmfEventModel::Other => MidiEventModel::Other,
        },
    }
}

/// What the import reads of parsed tracks.
pub open spec fn spec_read_tracks(ts: Seq<Seq<SmfTrackEventModel>>) -> Seq<Seq<TrackEventModel>> {
    ts.map_values(|t: Seq<SmfTrackEventModel>| t.map_values(|e: SmfTrackEventModel| spec_read_event(e)))
}

/// What the import reads of a parsed event.
fn read_event(e: &SmfTrackEvent) -> (r: TrackEvent)
    ensures
        r@ == spec_read_event(e@),
{
    let kind = match &e.1 {
        SmfEvent::Copyright(b) => MidiEvent::Copyright(utf8_text(b.as_slice())),
        SmfEvent::Text(b) => MidiEvent::Text(utf8_text(b.as_slice())),
        SmfEvent::NoteOn(key, vel) => MidiEvent::NoteOn { key: *key, vel: *vel },
        SmfEvent::NoteOff(key, vel) => MidiEvent::NoteOff { key: *key, vel: *vel },
        SmfEvent::ProgramChange(program) => MidiEvent::ProgramChange { program: *program },
        SmfEvent::Other => MidiEvent::Other,
    };
    TrackEvent { delta: e.0, kind }
}

/// What the import reads of parsed tracks.
fn read_tracks(raw: &Vec<Vec<SmfTrackEvent>>) -> (r: Vec<Vec<TrackEvent>>)
    ensures
        events_view(r@) == spec_read_tracks(smf_view(raw@)),
{
    let mut r: Vec<Vec<TrackEvent>> = Vec::new();
    let n = raw.len();
    for i in 0..n
        invariant
            n == raw@.len(),
            r@.len() == i,
            forall|k: int| 0 <= k < i ==> #[trigger] track_view(r@[k]@) == spec_read_tracks(smf_view(raw@))[k],
    {
        let t = &raw[i];
        let mut events: Vec<TrackEvent> = Vec::new();
        let m = t.len();
        for j in 0..m
            invariant
                m == t@.len(),
                events@.len() == j,
                forall|k: int| 0 <= k < j ==> #[trigger] events@[k]@ == spec_read_event(t@[k]@),
        {
            events.push(read_event(&t[j]));
        }
        proof {
            assert(track_view(events@) =~= spec_read_tracks(smf_view(raw@))[i as int]);
        }
        r.push(events);
    }
    proof {
        assert(events_view(r@) =~= spec_read_tracks(smf_view(raw@)));
    }
    r
}

/// Import a standard MIDI file from its bytes: parse it, read its events, and import them if
/// they can be imported. Returns `None`, changing nothing, when the bytes are not a MIDI file,
/// when a key is released that was not pressed, or when the time of a track does not fit in 64
/// bits; else the commands for the synthesizer. The tempo is not read here.
pub fn import_bytes(
    bytes: &[u8],
    soundfont: &String,
    bank: usize,
    state: &mut State,
    exporter: &mut Exporter,
) -> (r: Option<Vec<Command>>)
    ensures
        match smf_tracks(bytes@) {
            None => r is None && final(state)@ == old(state)@ && final(exporter)@ == old(exporter)@,
            Some(raw) => {
                let ts = spec_read_tracks(raw);
                let (tracks, cmds, m, ok) = spec_import_tracks(ts, soundfont@, bank, spec_meta(old(exporter)@));
                if (forall|i: int| 0 <= i < ts.len() ==> spec_track_length(#[trigger] ts[i]) <= u64::MAX) && ok {
                    &&& r is Some
                    &&& commands_view(r.unwrap()@) == cmds
                    &&& final(state)@ == (StateModel { music: spec_imported_music(tracks), ..old(state)@ })
                    &&& final(exporter)@ == spec_with_meta(old(exporter)@, m)
                } else {
                    &&& r is None
                    &&& final(state)@ == old(state)@
                    &&& final(exporter)@ == old(exporter)@
                }
            },
        },
{
    let raw = match parse_smf(bytes) {
        Some(raw) => raw,
        None => return None,
    };
    let tracks = read_tracks(&raw);
    proof {
        let ts = events_view(tracks@);
        assert forall|i: int| 0 <= i < tracks@.len() implies #[trigger] track_view(tracks@[i]@) == ts[i] by {}
    }
    if !can_import(&tracks, soundfont, bank, exporter) {
        return None;
    }
    Some(import(&tracks, soundfont, bank, state, exporter))
}

} // verus!
