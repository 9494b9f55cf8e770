use vstd::prelude::*;
use crate::input::{lemma_only_event, Input, InputEvent};
use crate::model::{Note, Selection, SelectionModel, State, StateModel};
use crate::piano_roll::copy::{copied_events, max_end, min_start, spec_copied, spec_max_end, spec_min_start, CopiedEvent};
use crate::piano_roll::sub_panel::{no_selection, spec_no_selection};
use crate::speech::{
    add_phrase, ev1, ev2, silence, speech_view, spec_each, spec_tip, text_with, tip, values_view, Phrase, PhraseModel,
    Utterance, Value, ValueModel,
};
use crate::snapshot::{Snapshot, SnapshotModel};

verus! {

/// What the select sub-panel does with a frame of input: the first of these events that happened.
#[derive(Clone, Copy, Debug, PartialEq, Eq, Structural)]
pub enum SelectAction {
    CycleMode,
    StartLeft,
    StartRight,
    SelectNone,
    SelectAll,
    EndLeft,
    EndRight,
    Nothing,
}

pub open spec fn spec_select_action(e: Seq<InputEvent>, single: bool) -> SelectAction {
    if e.contains(InputEvent::PianoRollCycleMode) {
        SelectAction::CycleMode
    } else if e.contains(InputEvent::SelectStartLeft) {
        SelectAction::StartLeft
    } else if e.contains(InputEvent::SelectStartRight) {
        SelectAction::StartRight
    } else if e.contains(InputEvent::SelectNone) {
        SelectAction::SelectNone
    } else if e.contains(InputEvent::SelectAll) {
        SelectAction::SelectAll
    } else if !single && e.contains(InputEvent::SelectEndLeft) {
        SelectAction::EndLeft
    } else if !single && e.contains(InputEvent::SelectEndRight) {
        SelectAction::EndRight
    } else {
        SelectAction::Nothing
    }
}

pub fn select_action(input: &Input, single: bool) -> (r: SelectAction)
    ensures
        r == spec_select_action(input.events@, single),
{
    if input.happened(InputEvent::PianoRollCycleMode) {
        SelectAction::CycleMode
    } else if input.happened(InputEvent::SelectStartLeft) {
        SelectAction::StartLeft
    } else if input.happened(InputEvent::SelectStartRight) {
        SelectAction::StartRight
    } else if input.happened(InputEvent::SelectNone) {
        SelectAction::SelectNone
    } else if input.happened(InputEvent::SelectAll) {
        SelectAction::SelectAll
    } else if !single && input.happened(InputEvent::SelectEndLeft) {
        SelectAction::EndLeft
    } else if !single && input.happened(InputEvent::SelectEndRight) {
        SelectAction::EndRight
    } else {
        SelectAction::Nothing
    }
}

/// The selection after switching between single and many: switching to single keeps only the
/// first selected note. The effects are truncated with the number of notes that remain, which
/// leaves them as they are.
pub open spec fn spec_cycle_selection(s: SelectionModel) -> SelectionModel {
    let single = !s.single;
    let notes = if single && s.notes.len() > 1 {
        s.notes.take(1)
    } else {
        s.notes
    };
    SelectionModel { notes, effects: s.effects, single }
}

/// All positions below `n`, in order.
pub open spec fn spec_all_indices(n: nat) -> Seq<usize> {
    Seq::new(n, |i: int| i as usize)
}

/// All positions below `n`, in order.
pub fn all_indices(n: usize) -> (r: Vec<usize>)
    ensures
        r@ == spec_all_indices(n as nat),
{
    let mut r: Vec<usize> = Vec::new();
    for i in 0..n
        invariant
            r.len() == i,
            forall|j: int| 0 <= j < i ==> #[trigger] r@[j] == j as usize,
    {
        r.push(i);
    }
    proof {
        assert(r@ =~= spec_all_indices(n as nat));
    }
    r
}

/// Which notes a search for a note to select looks at: those that end before a time, those that
/// end at or after a time, or those that start after a time.
#[derive(Clone, Copy, Debug, PartialEq, Eq, Structural)]
pub enum NoteBound {
    EndsBefore(u64),
    EndsFrom(u64),
    StartsAfter(u64),
}

pub open spec fn spec_in_bound(b: NoteBound, n: Note) -> bool {
    match b {
        NoteBound::EndsBefore(t) => n.end < t,
        NoteBound::EndsFrom(t) => n.end >= t,
        NoteBound::StartsAfter(t) => n.start > t,
    }
}

pub fn in_bound(b: NoteBound, n: Note) -> (r: bool)
    ensures
        r == spec_in_bound(b, n),
{
    match b {
        NoteBound::EndsBefore(t) => n.end < t,
        NoteBound::EndsFrom(t) => n.end >= t,
        NoteBound::StartsAfter(t) => n.start > t,
    }
}

/// Note `i` is within the bound and starts no earlier than any other such note; of several that
/// start together, it is the last.
pub open spec fn spec_is_latest(notes: Seq<Note>, b: NoteBound, i: int) -> bool {
    &&& 0 <= i < notes.len()
    &&& spec_in_bound(b, notes[i])
    &&& forall|j: int| 0 <= j < notes.len() && spec_in_bound(b, #[trigger] notes[j]) ==> notes[j].start <= notes[i].start
    &&& forall|j: int| i < j < notes.len() && spec_in_bound(b, #[trigger] notes[j]) ==> notes[j].start < notes[i].start
}

/// Note `i` is within the bound and starts no later than any other such note; of several that
/// start together, it is the first.
pub open spec fn spec_is_earliest(notes: Seq<Note>, b: NoteBound, i: int) -> bool {
    &&& 0 <= i < notes.len()
    &&& spec_in_bound(b, notes[i])
    &&& forall|j: int| 0 <= j < notes.len() && spec_in_bound(b, #[trigger] notes[j]) ==> notes[i].start <= notes[j].start
    &&& forall|j: int| 0 <= j < i && spec_in_bound(b, #[trigger] notes[j]) ==> notes[i].start < notes[j].start
}

/// The latest note within the bound, if there is one.
pub open spec fn spec_latest(notes: Seq<Note>, b: NoteBound) -> Option<usize> {
    if exists|i: int| spec_is_latest(notes, b, i) {
        Some((choose|i: int| spec_is_latest(notes, b, i)) as usize)
    } else {
        None
    }
}

/// The earliest note within the bound, if there is one.
pub open spec fn spec_earliest(notes: Seq<Note>, b: NoteBound) -> Option<usize> {
    if exists|i: int| spec_is_earliest(notes, b, i) {
        Some((choose|i: int| spec_is_earliest(notes, b, i)) as usize)
    } else {
        None
    }
}

/// At most one note is the latest within a bound.
pub proof fn lemma_latest_unique(notes: Seq<Note>, b: NoteBound, i: int, k: int)
    requires
        spec_is_latest(notes, b, i),
        spec_is_latest(notes, b, k),
    ensures
        i == k,
{
    if i < k {
        assert(spec_in_bound(b, notes[k]));
    } else if k < i {
        assert(spec_in_bound(b, notes[i]));
    }
}

/// At most one note is the earliest within a bound.
pub proof fn lemma_earliest_unique(notes: Seq<Note>, b: NoteBound, i: int, k: int)
    requires
        spec_is_earliest(notes, b, i),
        spec_is_earliest(notes, b, k),
    ensures
        i == k,
{
    if i < k {
        assert(spec_in_bound(b, notes[k]));
    } else if k < i {
        assert(spec_in_bound(b, notes[i]));
    }
}

/// The latest note within the bound (the last of those that start together), if there is one.
pub fn find_latest(notes: &Vec<Note>, b: NoteBound) -> (r: Option<usize>)
    ensures
        r == spec_latest(notes@, b),
{
    let mut r: Option<usize> = None;
    let n = notes.len();
    for i in 0..n
        invariant
            n == notes.len(),
            r is None ==> forall|j: int| 0 <= j < i ==> !spec_in_bound(b, #[trigger] notes@[j]),
            r matches Some(k) ==> {
                &&& k < i
                &&& spec_in_bound(b, notes@[k as int])
                &&& forall|j: int| 0 <= j < i && spec_in_bound(b, #[trigger] notes@[j]) ==> notes@[j].start <= notes@[k as int].start
                &&& forall|j: int| k < j < i && spec_in_bound(b, #[trigger] notes@[j]) ==> notes@[j].start < notes@[k as int].start
            },
    {
        let note = notes[i];
        if in_bound(b, note) {
            match r {
                None => {
                    r = Some(i);
                },
                Some(k) => {
                    if note.start >= notes[k].start {
                        r = Some(i);
                    }
                },
            }
        }
    }
    proof {
        match r {
            None => {
                assert(!exists|i: int| spec_is_latest(notes@, b, i));
            },
            Some(k) => {
                assert(spec_is_latest(notes@, b, k as int));
                let c = choose|i: int| spec_is_latest(notes@, b, i);
                lemma_latest_unique(notes@, b, c, k as int);
            },
        }
    }
    r
}

/// The earliest note within the bound (the first of those that start together), if there is
/// one.
pub fn find_earliest(notes: &Vec<Note>, b: NoteBound) -> (r: Option<usize>)
    ensures
        r == spec_earliest(notes@, b),
{
    let mut r: Option<usize> = None;
    let n = notes.len();
    for i in 0..n
        invariant
            n == notes.len(),
            r is None ==> forall|j: int| 0 <= j < i ==> !spec_in_bound(b, #[trigger] notes@[j]),
            r matches Some(k) ==> {
                &&& k < i
                &&& spec_in_bound(b, notes@[k as int])
                &&& forall|j: int| 0 <= j < i && spec_in_bound(b, #[trigger] notes@[j]) ==> notes@[k as int].start <= notes@[j].start
                &&& forall|j: int| 0 <= j < k && spec_in_bound(b, #[trigger] notes@[j]) ==> notes@[k as int].start < notes@[j].start
            },
    {
        let note = notes[i];
        if in_bound(b, note) {
            match r {
                None => {
                    r = Some(i);
                },
                Some(k) => {
                    if note.start < notes[k].start {
                        r = Some(i);
                    }
                },
            }
        }
    }
    proof {
        match r {
            None => {
                assert(!exists|i: int| spec_is_earliest(notes@, b, i));
            },
            Some(k) => {
                assert(spec_is_earliest(notes@, b, k as int));
                let c = choose|i: int| spec_is_earliest(notes@, b, i);
                lemma_earliest_unique(notes@, b, c, k as int);
            },
        }
    }
    r
}

/// The largest of the positions (0 where there are none).
pub open spec fn spec_max_of(s: Seq<usize>) -> usize
    decreases s.len(),
{
    if s.len() == 0 {
        0
    } else if s.len() == 1 {
        s[0]
    } else {
        let m = spec_max_of(s.drop_last());
        if s.last() > m {
            s.last()
        } else {
            m
        }
    }
}

/// The largest of the positions.
pub fn max_of(s: &Vec<usize>) -> (r: usize)
    requires
        s.len() > 0,
    ensures
        r == spec_max_of(s@),
{
    let n = s.len();
    let mut m = s[0];
    proof {
        assert(s@.take(1).len() == 1 && s@.take(1)[0] == s@[0]);
    }
    for i in 1..n
        invariant
            n == s.len(),
            m == spec_max_of(s@.take(i as int)),
    {
        proof {
            assert(s@.take(i + 1).drop_last() =~= s@.take(i as int));
            assert(s@.take(i + 1).last() == s@[i as int]);
        }
        if s[i] > m {
            m = s[i];
        }
    }
    proof {
        assert(s@.take(n as int) =~= s@);
    }
    m
}

/// One selected position, where a note was found.
pub open spec fn spec_one(o: Option<usize>) -> Option<Seq<usize>> {
    match o {
        Some(i) => Some(seq![i]),
        None => None,
    }
}

/// The selected positions with one more at the end, where a note was found.
pub open spec fn spec_pushed(s: Seq<usize>, o: Option<usize>) -> Option<Seq<usize>> {
    match o {
        Some(i) => Some(s.push(i)),
        None => None,
    }
}

/// The selected notes after moving the start or the end of the selection, or `None` where the
/// move changes nothing. Notes are compared by their start time.
/// - Nothing selected: moving the start selects the latest note that ends before the cursor;
///   moving the end selects the earliest note that ends at or after it.
/// - Single: moving the start left selects the note at the previous position; moving it right
///   selects the latest note that starts after the selected one.
/// - Many: moving the start left, or the end right, adds the latest note that starts after the
///   note at the largest selected position; moving the start right, or the end left, drops the
///   last selected note.
pub open spec fn spec_moved_notes(st: StateModel, a: SelectAction) -> Option<Seq<usize>> {
    let s = st.selection.notes;
    let n = s.len();
    let notes = st.music.tracks[st.music.selected.unwrap() as int].notes;
    let c = st.time.cursor;
    let before = spec_latest(notes, NoteBound::EndsBefore(c));
    let after = spec_earliest(notes, NoteBound::EndsFrom(c));
    let next_of_max = spec_latest(notes, NoteBound::StartsAfter(notes[spec_max_of(s) as int].start));
    match a {
        SelectAction::StartLeft => if n == 0 {
            spec_one(before)
        } else if st.selection.single {
            if s[0] > 0 {
                Some(seq![(s[0] - 1) as usize])
            } else {
                None
            }
        } else {
            spec_pushed(s, next_of_max)
        },
        SelectAction::StartRight => if n == 0 {
            spec_one(before)
        } else if st.selection.single {
            spec_one(spec_latest(notes, NoteBound::StartsAfter(notes[s[0] as int].start)))
        } else {
            Some(s.take(n - 1))
        },
        SelectAction::EndLeft => if n == 0 {
            spec_one(after)
        } else {
            Some(s.take(n - 1))
        },
        SelectAction::EndRight => if n == 0 {
            spec_one(after)
        } else {
            spec_pushed(s, next_of_max)
        },
        _ => None,
    }
}

/// The selected position that a move reads a note at is a note of the track.
pub open spec fn spec_move_fits(st: StateModel, a: SelectAction) -> bool {
    let s = st.selection.notes;
    let len = st.music.tracks[st.music.selected.unwrap() as int].notes.len();
    s.len() > 0 ==> {
        &&& (a == SelectAction::StartLeft && !st.selection.single || a == SelectAction::EndRight)
            ==> spec_max_of(s) < len
        &&& a == SelectAction::StartRight && st.selection.single ==> s[0] < len
    }
}

/// What the select sub-panel needs so that it does not panic: switching to single with no
/// selected note and more than one selected effect truncates the effects with a range that ends
/// before it starts, and a move reads the note at a selected position.
pub open spec fn spec_select_fits(st: StateModel, e: Seq<InputEvent>) -> bool {
    let a = spec_select_action(e, st.selection.single);
    &&& a == SelectAction::CycleMode && !st.selection.single ==> st.selection.notes.len() > 0
        || st.selection.effects.len() <= 1
    &&& st.music.selected is Some ==> spec_move_fits(st, a)
}

/// The status of the select sub-panel: the selected note or effect (in single mode), or the
/// time range of the selection; else that nothing is selected.
pub open spec fn spec_select_status(st: StateModel) -> Seq<Seq<PhraseModel>> {
    let p = match st.music.selected {
        None => spec_no_selection(),
        Some(i) => {
            let ev = spec_copied(st.music.tracks[i as int], st.selection);
            if ev.len() == 0 {
                spec_no_selection()
            } else if st.selection.single {
                match ev[0] {
                    CopiedEvent::Note(n) => PhraseModel::Text {
                        key: "PIANO_ROLL_PANEL_STATUS_TTS_SELECTED_SINGLE_NOTE"@,
                        values: seq![ValueModel::Int(n.note as u64), ValueModel::Ppq(n.start)],
                    },
                    CopiedEvent::Effect(e) => PhraseModel::Text {
                        key: "PIANO_ROLL_PANEL_STATUS_TTS_SELECTED_SINGLE_EFFECT"@,
                        values: seq![ValueModel::Ppq(e.time)],
                    },
                }
            } else {
                PhraseModel::Text {
                    key: "PIANO_ROLL_PANEL_STATUS_TTS_SELECTED_MANY"@,
                    values: seq![ValueModel::Ppq(spec_min_start(ev)), ValueModel::Ppq(spec_max_end(ev))],
                }
            }
        },
    };
    seq![seq![p]]
}

/// The input of the select sub-panel, each tooltip on its own: moving the selection (if
/// anything is selected), selecting all, selecting nothing (if anything is selected), and
/// switching between single and many.
pub open spec fn spec_select_input(st: StateModel) -> Seq<Seq<PhraseModel>> {
    let single = st.selection.single;
    let body = match st.music.selected {
        None => seq![spec_no_selection()],
        Some(i) => {
            let some = spec_copied(st.music.tracks[i as int], st.selection).len() > 0;
            let moving = if !some {
                seq![]
            } else if single {
                seq![
                    spec_tip(
                        "PIANO_ROLL_PANEL_INPUT_TTS_SELECT_SINGLE"@,
                        seq![InputEvent::SelectStartLeft, InputEvent::SelectStartRight],
                    ),
                ]
            } else {
                seq![
                    spec_tip(
                        "PIANO_ROLL_PANEL_INPUT_TTS_SELECT_MANY"@,
                        seq![
                            InputEvent::SelectStartLeft,
                            InputEvent::SelectStartRight,
                            InputEvent::SelectEndLeft,
                            InputEvent::SelectEndRight,
                            InputEvent::SelectNone,
                            InputEvent::SelectAll,
                            InputEvent::PianoRollCycleMode,
                        ],
                    ),
                ]
            };
            let deselect = if some {
                seq![spec_tip("PIANO_ROLL_PANEL_INPUT_TTS_DESELECT"@, seq![InputEvent::SelectNone])]
            } else {
                seq![]
            };
            moving + seq![spec_tip("PIANO_ROLL_PANEL_INPUT_TTS_SELECT_ALL"@, seq![InputEvent::SelectAll])] + deselect
        },
    };
    let cycle = spec_tip(
        if single {
            "PIANO_ROLL_PANEL_INPUT_TTS_SELECT_CYCLE_TO_MANY"@
        } else {
            "PIANO_ROLL_PANEL_INPUT_TTS_SELECT_CYCLE_TO_SINGLE"@
        },
        seq![InputEvent::PianoRollCycleMode],
    );
    spec_each(body.push(cycle))
}

/// What the select sub-panel does: the new state, and whether a snapshot is made.
pub open spec fn spec_select_update(st: StateModel, e: Seq<InputEvent>) -> (StateModel, bool) {
    let s = st.selection;
    if st.music.selected is None {
        (st, false)
    } else {
        match spec_select_action(e, s.single) {
            SelectAction::CycleMode => (StateModel { selection: spec_cycle_selection(s), ..st }, true),
            SelectAction::SelectNone => (
                StateModel {
                    selection: SelectionModel { notes: Seq::empty(), effects: Seq::empty(), ..s },
                    ..st
                },
                true,
            ),
            SelectAction::SelectAll => {
                let track = st.music.tracks[st.music.selected.unwrap() as int];
                (
                    StateModel {
                        selection: SelectionModel {
                            notes: spec_all_indices(track.notes.len()),
                            effects: spec_all_indices(track.effects.len()),
                            ..s
                        },
                        ..st
                    },
                    true,
                )
            },
            SelectAction::Nothing => (st, false),
            _ => match spec_moved_notes(st, spec_select_action(e, s.single)) {
                Some(notes) => (StateModel { selection: SelectionModel { notes, ..s }, ..st }, true),
                None => (st, false),
            },
        }
    }
}

/// The select sub-panel keeps the state valid.
pub proof fn lemma_select_keeps_wf(st: StateModel, e: Seq<InputEvent>)
    requires
        st.wf(),
    ensures
        spec_select_update(st, e).0.wf(),
{
    let st1 = spec_select_update(st, e).0;
    assert(st1.music == st.music);
}

/// A frame in which the select sub-panel makes no snapshot changes nothing; in any frame, the
/// state after differs from the state before in the selection alone.
pub proof fn lemma_select_changes_only_selection(st: StateModel, e: Seq<InputEvent>)
    ensures
        !spec_select_update(st, e).1 ==> spec_select_update(st, e).0 == st,
        spec_select_update(st, e).0 == (StateModel { selection: spec_select_update(st, e).0.selection, ..st }),
{
}

/// What the select sub-panel does with a frame whose only event is a selection change, with a
/// track selected: only the selection changes, and a snapshot is made when it does.
/// - Select none: no note and no effect stays selected.
/// - Select all: every note and every effect of the track is selected, in order.
/// - Switching mode: single and many swap; switching to single keeps only the first note.
/// - Moving the end left (many): the last selected note is dropped.
/// - Moving the start left (single): the note at the previous position is selected, unless the
///   first position is selected, which changes nothing.
pub proof fn lemma_select_changes(st: StateModel, x: InputEvent)
    requires
        st.music.selected is Some,
        st.music.selected.unwrap() < st.music.tracks.len(),
        st.music.tracks[st.music.selected.unwrap() as int].notes.len() <= usize::MAX,
        st.music.tracks[st.music.selected.unwrap() as int].effects.len() <= usize::MAX,
        x == InputEvent::SelectNone || x == InputEvent::SelectAll || x == InputEvent::PianoRollCycleMode
            || x == InputEvent::SelectEndLeft || x == InputEvent::SelectStartLeft,
    ensures
        ({
            let (st1, snap) = spec_select_update(st, seq![x]);
            let s = st.selection;
            let s1 = st1.selection;
            let track = st.music.tracks[st.music.selected.unwrap() as int];
            &&& st1 == StateModel { selection: s1, ..st }
            &&& x == InputEvent::SelectNone ==> snap && s1 == SelectionModel {
                notes: Seq::empty(),
                effects: Seq::empty(),
                single: s.single,
            }
            &&& x == InputEvent::SelectAll ==> snap && s1.single == s.single && s1.notes.len() == track.notes.len()
                && s1.effects.len() == track.effects.len() && (forall|k: int|
                0 <= k < s1.notes.len() ==> #[trigger] s1.notes[k] == k) && (forall|k: int|
                0 <= k < s1.effects.len() ==> #[trigger] s1.effects[k] == k)
            &&& x == InputEvent::PianoRollCycleMode ==> snap && s1.single == !s.single && s1.effects == s.effects
                && s1.notes == (if !s.single && s.notes.len() > 1 { seq![s.notes[0]] } else { s.notes })
            &&& x == InputEvent::SelectEndLeft && !s.single && s.notes.len() > 0 ==> snap && s1 == SelectionModel {
                notes: s.notes.take(s.notes.len() - 1),
                ..s
            }
            &&& x == InputEvent::SelectEndLeft && s.single ==> !snap && st1 == st
            &&& x == InputEvent::SelectStartLeft && s.single && s.notes.len() > 0 ==> if s.notes[0] > 0 {
                snap && s1 == SelectionModel { notes: seq![(s.notes[0] - 1) as usize], ..s }
            } else {
                !snap && st1 == st
            }
        }),
{
    lemma_only_event(x);
    let s = st.selection;
    if x == InputEvent::PianoRollCycleMode && !s.single && s.notes.len() > 1 {
        assert(s.notes.take(1) =~= seq![s.notes[0]]);
    }
}

/// Select notes and effects.
#[derive(Clone, Copy, Debug)]
pub struct Select {}

impl Select {
    pub fn new() -> (r: Select) {
        Select {  }
    }

    /// Apply a frame of input: switch between single and many, move the start or the end of the
    /// selection, select nothing, or select all notes and effects of the selected track.
    pub fn update(&self, state: &mut State, input: &Input) -> (r: Option<Snapshot>)
        requires
            old(state)@.wf(),
            spec_select_fits(old(state)@, input.events@),
        ensures
            final(state)@ == spec_select_update(old(state)@, input.events@).0,
            r is Some == spec_select_update(old(state)@, input.events@).1,
            r matches Some(s) ==> s@ == (SnapshotModel {
                from_state: Some(old(state)@),
                to_state: Some(final(state)@),
                from_commands: None,
                to_commands: None,
                io_commands: None,
            }),
    {
        let t = match state.music.selected {
            None => return None,
            Some(t) => t,
        };
        let ghost st0 = state@;
        let a = select_action(input, state.selection.single);
        match a {
            SelectAction::CycleMode => {
                let s0 = state.duplicate();
                state.selection.single = !state.selection.single;
                if state.selection.single {
                    if state.selection.notes.len() > 1 {
                        state.selection.notes.truncate(1);
                    }
                }
                proof {
                    assert(state@ =~= spec_select_update(st0, input.events@).0);
                }
                Some(Snapshot::from_states(s0, state))
            },
            SelectAction::SelectNone => {
                let s0 = state.duplicate();
                state.selection.deselect();
                proof {
                    assert(state@ =~= spec_select_update(st0, input.events@).0);
                }
                Some(Snapshot::from_states(s0, state))
            },
            SelectAction::SelectAll => {
                let s0 = state.duplicate();
                let n = state.music.midi_tracks[t].notes.len();
                let m = state.music.midi_tracks[t].effects.len();
                proof {
                    assert(st0.music.tracks[t as int] == state.music.midi_tracks@[t as int]@);
                }
                state.selection.notes = all_indices(n);
                state.selection.effects = all_indices(m);
                proof {
                    assert(state@ =~= spec_select_update(st0, input.events@).0);
                }
                Some(Snapshot::from_states(s0, state))
            },
            SelectAction::Nothing => None,
            _ => {
                match Select::moved_notes(state, t, a) {
                    Some(notes) => {
                        let s0 = state.duplicate();
                        state.selection.notes = notes;
                        proof {
                            assert(state@ =~= spec_select_update(st0, input.events@).0);
                        }
                        Some(Snapshot::from_states(s0, state))
                    },
                    None => None,
                }
            },
        }
    }

    /// The selected notes after moving the start or the end of the selection, or `None` where
    /// the move changes nothing.
    fn moved_notes(state: &State, t: usize, a: SelectAction) -> (r: Option<Vec<usize>>)
        requires
            state@.wf(),
            state@.music.selected == Some(t),
            spec_move_fits(state@, a),
        ensures
            match spec_moved_notes(state@, a) {
                Some(v) => r is Some && r.unwrap()@ == v,
                None => r is None,
            },
    {
        let ghost st = state@;
        let notes = &state.music.midi_tracks[t].notes;
        proof {
            assert(st.music.tracks[t as int] == state.music.midi_tracks@[t as int]@);
            assert(st.music.tracks[t as int].notes == notes@);
        }
        let s = &state.selection.notes;
        let n = s.len();
        let c = state.time.cursor;
        match a {
            SelectAction::StartLeft | SelectAction::StartRight => {
                if n == 0 {
                    match find_latest(notes, NoteBound::EndsBefore(c)) {
                        Some(i) => Some(vec![i]),
                        None => None,
                    }
                } else if state.selection.single {
                    if a == SelectAction::StartLeft {
                        if s[0] > 0 {
                            Some(vec![s[0] - 1])
                        } else {
                            None
                        }
                    } else {
                        match find_latest(notes, NoteBound::StartsAfter(notes[s[0]].start)) {
                            Some(i) => Some(vec![i]),
                            None => None,
                        }
                    }
                } else if a == SelectAction::StartLeft {
                    Select::push_next_of_max(notes, s)
                } else {
                    Some(Select::drop_last(s))
                }
            },
            SelectAction::EndLeft | SelectAction::EndRight => {
                if n == 0 {
                    match find_earliest(notes, NoteBound::EndsFrom(c)) {
                        Some(i) => Some(vec![i]),
                        None => None,
                    }
                } else if a == SelectAction::EndLeft {
                    Some(Select::drop_last(s))
                } else {
                    Select::push_next_of_max(notes, s)
                }
            },
            _ => None,
        }
    }

    /// The positions with the last one dropped.
    fn drop_last(s: &Vec<usize>) -> (r: Vec<usize>)
        requires
            s.len() > 0,
        ensures
            r@ == s@.take(s.len() - 1),
    {
        let mut r = s.clone();
        r.pop();
        proof {
            assert(r@ =~= s@.take(s.len() - 1));
        }
        r
    }

    /// The positions with the latest note that starts after the note at the largest position
    /// added, where there is one.
    fn push_next_of_max(notes: &Vec<Note>, s: &Vec<usize>) -> (r: Option<Vec<usize>>)
        requires
            s.len() > 0,
            spec_max_of(s@) < notes.len(),
        ensures
            match spec_pushed(s@, spec_latest(notes@, NoteBound::StartsAfter(notes@[spec_max_of(s@) as int].start))) {
                Some(v) => r is Some && r.unwrap()@ == v,
                None => r is None,
            },
    {
        let m = max_of(s);
        match find_latest(notes, NoteBound::StartsAfter(notes[m].start)) {
            Some(i) => {
                let mut v = s.clone();
                v.push(i);
                Some(v)
            },
            None => None,
        }
    }
}


impl Select {
    /// The selected events of the selected track.
    fn events(state: &State) -> (r: Option<Vec<CopiedEvent>>)
        requires
            state@.wf(),
        ensures
            match state@.music.selected {
                None => r is None,
                Some(i) => r is Some && r.unwrap()@ == spec_copied(state@.music.tracks[i as int], state@.selection),
            },
    {
        match state.music.selected {
            None => None,
            Some(i) => {
                let track = &state.music.midi_tracks[i];
                Some(copied_events(&track.notes, &track.effects, &state.selection.notes, &state.selection.effects))
            },
        }
    }

    /// The status of the select sub-panel.
    pub fn get_status_tts(&self, state: &State) -> (r: Vec<Utterance>)
        requires
            state@.wf(),
        ensures
            speech_view(r@) == spec_select_status(state@),
    {
        let p: Phrase = match Select::events(state) {
            None => no_selection(),
            Some(ev) => {
                if ev.len() == 0 {
                    no_selection()
                } else if state.selection.single {
                    match &ev[0] {
                        CopiedEvent::Note(n) => {
                            let mut values: Vec<Value> = Vec::new();
                            values.push(Value::Int(n.note as u64));
                            values.push(Value::Ppq(n.start));
                            proof {
                                assert(values_view(values@) =~= seq![ValueModel::Int(n.note as u64), ValueModel::Ppq(n.start)]);
                            }
                            text_with("PIANO_ROLL_PANEL_STATUS_TTS_SELECTED_SINGLE_NOTE", values)
                        },
                        CopiedEvent::Effect(e) => {
                            let mut values: Vec<Value> = Vec::new();
                            values.push(Value::Ppq(e.time));
                            proof {
                                assert(values_view(values@) =~= seq![ValueModel::Ppq(e.time)]);
                            }
                            text_with("PIANO_ROLL_PANEL_STATUS_TTS_SELECTED_SINGLE_EFFECT", values)
                        },
                    }
                } else {
                    let mut values: Vec<Value> = Vec::new();
                    values.push(Value::Ppq(min_start(&ev)));
                    values.push(Value::Ppq(max_end(&ev)));
                    proof {
                        assert(values_view(values@) =~= seq![
                            ValueModel::Ppq(spec_min_start(ev@)),
                            ValueModel::Ppq(spec_max_end(ev@)),
                        ]);
                    }
                    text_with("PIANO_ROLL_PANEL_STATUS_TTS_SELECTED_MANY", values)
                }
            },
        };
        let mut r = silence();
        add_phrase(&mut r, p);
        proof {
            assert(speech_view(r@) =~= spec_select_status(state@));
        }
        r
    }

    /// The input of the select sub-panel.
    pub fn get_input_tts(&self, state: &State) -> (r: Vec<Utterance>)
        requires
            state@.wf(),
        ensures
            speech_view(r@) == spec_select_input(state@),
    {
        let single = state.selection.single;
        let mut r = silence();
        match Select::events(state) {
            None => add_phrase(&mut r, no_selection()),
            Some(ev) => {
                let some = ev.len() > 0;
                if some {
                    if single {
                        add_phrase(
                            &mut r,
                            tip(
                                "PIANO_ROLL_PANEL_INPUT_TTS_SELECT_SINGLE",
                                ev2(InputEvent::SelectStartLeft, InputEvent::SelectStartRight),
                            ),
                        );
                    } else {
                        let mut e = ev2(InputEvent::SelectStartLeft, InputEvent::SelectStartRight);
                        e.push(InputEvent::SelectEndLeft);
                        e.push(InputEvent::SelectEndRight);
                        e.push(InputEvent::SelectNone);
                        e.push(InputEvent::SelectAll);
                        e.push(InputEvent::PianoRollCycleMode);
                        proof {
                            assert(e@ =~= seq![
                                InputEvent::SelectStartLeft,
                                InputEvent::SelectStartRight,
                                InputEvent::SelectEndLeft,
                                InputEvent::SelectEndRight,
                                InputEvent::SelectNone,
                                InputEvent::SelectAll,
                                InputEvent::PianoRollCycleMode,
                            ]);
                        }
                        add_phrase(&mut r, tip("PIANO_ROLL_PANEL_INPUT_TTS_SELECT_MANY", e));
                    }
                }
                add_phrase(&mut r, tip("PIANO_ROLL_PANEL_INPUT_TTS_SELECT_ALL", ev1(InputEvent::SelectAll)));
                if some {
                    add_phrase(&mut r, tip("PIANO_ROLL_PANEL_INPUT_TTS_DESELECT", ev1(InputEvent::SelectNone)));
                }
            },
        }
        if single {
            add_phrase(&mut r, tip("PIANO_ROLL_PANEL_INPUT_TTS_SELECT_CYCLE_TO_MANY", ev1(InputEvent::PianoRollCycleMode)));
        } else {
            add_phrase(&mut r, tip("PIANO_ROLL_PANEL_INPUT_TTS_SELECT_CYCLE_TO_SINGLE", ev1(InputEvent::PianoRollCycleMode)));
        }
        proof {
            assert(speech_view(r@) =~= spec_select_input(state@));
        }
        r
    }
}

} // verus!
