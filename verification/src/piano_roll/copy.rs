use vstd::prelude::*;
use crate::model::{note_wf, Effect, Note, SelectionModel, TrackModel};

verus! {

/// A copied note or effect.
#[derive(Clone, Copy, Debug, PartialEq, Eq, Structural)]
pub enum CopiedEvent {
    Effect(Effect),
    Note(Note),
}

/// The start time of a copied event.
pub open spec fn spec_start_time(e: CopiedEvent) -> u64 {
    match e {
        CopiedEvent::Effect(effect) => effect.time,
        CopiedEvent::Note(note) => note.start,
    }
}

impl CopiedEvent {
    pub fn get_start_time(&self) -> (r: u64)
        ensures
            r == spec_start_time(*self),
    {
        match self {
            CopiedEvent::Effect(effect) => effect.time,
            CopiedEvent::Note(note) => note.start,
        }
    }
}

/// The items of `s` at the positions listed in `sel`, in the order of `sel`; positions past the
/// end of `s` are skipped.
pub open spec fn spec_pick<T>(s: Seq<T>, sel: Seq<usize>) -> Seq<T>
    decreases sel.len(),
{
    if sel.len() == 0 {
        Seq::empty()
    } else {
        let r = spec_pick(s, sel.drop_last());
        if (sel.last() as int) < s.len() {
            r.push(s[sel.last() as int])
        } else {
            r
        }
    }
}

/// Whether a position falls inside a list of length `n`.
pub open spec fn spec_below_pred(n: nat) -> spec_fn(usize) -> bool {
    |i: usize| (i as int) < n
}

/// Picking gives, in the order of `sel`, the items at the listed positions that fall inside `s`.
pub proof fn lemma_pick_positions<T>(s: Seq<T>, sel: Seq<usize>)
    ensures
        spec_pick(s, sel) =~= sel.filter(spec_below_pred(s.len())).map_values(|i: usize| s[i as int]),
    decreases sel.len(),
{
    let p = spec_below_pred(s.len());
    if sel.len() == 0 {
        reveal(Seq::filter);
    } else {
        let sel0 = sel.drop_last();
        lemma_pick_positions(s, sel0);
        assert(sel =~= sel0.push(sel.last()));
        sel0.lemma_filter_push(sel.last(), p);
        let f0 = sel0.filter(p);
        if p(sel.last()) {
            assert(f0.push(sel.last()).map_values(|i: usize| s[i as int]) =~= f0.map_values(|i: usize| s[i as int]).push(
                s[sel.last() as int],
            ));
        }
    }
}

/// Picking valid notes gives valid notes.
pub proof fn lemma_pick_valid(s: Seq<Note>, sel: Seq<usize>)
    requires
        forall|i: int| 0 <= i < s.len() ==> #[trigger] note_wf(s[i]),
    ensures
        forall|i: int| 0 <= i < spec_pick(s, sel).len() ==> #[trigger] note_wf(spec_pick(s, sel)[i]),
    decreases sel.len(),
{
    if sel.len() > 0 {
        lemma_pick_valid(s, sel.drop_last());
        let r = spec_pick(s, sel.drop_last());
        assert forall|i: int| 0 <= i < spec_pick(s, sel).len() implies #[trigger] note_wf(spec_pick(s, sel)[i]) by {
            if i < r.len() {
                assert(spec_pick(s, sel)[i] == r[i]);
            }
        }
    }
}

/// The items of `s` whose positions are not listed in `sel`, in order.
pub open spec fn spec_keep_unselected<T>(s: Seq<T>, sel: Seq<usize>) -> Seq<T>
    decreases s.len(),
{
    if s.len() == 0 {
        Seq::empty()
    } else {
        let r = spec_keep_unselected(s.drop_last(), sel);
        if sel.contains((s.len() - 1) as usize) {
            r
        } else {
            r.push(s.last())
        }
    }
}

/// Whether a position is not listed in `sel`.
pub open spec fn spec_unselected_pred(sel: Seq<usize>) -> spec_fn(int) -> bool {
    |i: int| !sel.contains(i as usize)
}

/// The positions below `n` that `sel` does not list, in increasing order.
pub open spec fn spec_unselected_positions(n: nat, sel: Seq<usize>) -> Seq<int> {
    Seq::new(n, |i: int| i).filter(spec_unselected_pred(sel))
}

/// Keeping the unselected items gives, in order, the items at the unselected positions.
pub proof fn lemma_keep_unselected_positions<T>(s: Seq<T>, sel: Seq<usize>)
    ensures
        spec_keep_unselected(s, sel) =~= spec_unselected_positions(s.len(), sel).map_values(|i: int| s[i]),
    decreases s.len(),
{
    let p = spec_unselected_pred(sel);
    if s.len() == 0 {
        reveal(Seq::filter);
        assert(spec_unselected_positions(0, sel).len() == 0);
    } else {
        let n = s.len();
        let s0 = s.drop_last();
        lemma_keep_unselected_positions(s0, sel);
        let ids0 = Seq::new((n - 1) as nat, |i: int| i);
        assert(Seq::new(n, |i: int| i) =~= ids0.push(n - 1));
        ids0.lemma_filter_push(n - 1, p);
        let f0 = ids0.filter(p);
        assert(f0.map_values(|i: int| s[i]) =~= f0.map_values(|i: int| s0[i])) by {
            assert forall|k: int| 0 <= k < f0.len() implies 0 <= #[trigger] f0[k] < n - 1 by {
                assert(f0.contains(f0[k]));
                ids0.lemma_filter_contains_rev(p, f0[k]);
            }
        }
        if p(n - 1) {
            assert(f0.push(n - 1).map_values(|i: int| s[i]) =~= f0.map_values(|i: int| s[i]).push(s[n - 1]));
        }
    }
}

/// The copied events of a selection: the selected notes, then the selected effects.
pub open spec fn spec_copied(t: TrackModel, sel: SelectionModel) -> Seq<CopiedEvent> {
    spec_pick(t.notes, sel.notes).map_values(|n: Note| CopiedEvent::Note(n)) + spec_pick(
        t.effects,
        sel.effects,
    ).map_values(|e: Effect| CopiedEvent::Effect(e))
}

/// The selected notes.
pub fn pick_notes(s: &Vec<Note>, sel: &Vec<usize>) -> (r: Vec<Note>)
    ensures
        r@ == spec_pick(s@, sel@),
{
    let mut r: Vec<Note> = Vec::new();
    let n = sel.len();
    for i in 0..n
        invariant
            n == sel.len(),
            r@ == spec_pick(s@, sel@.take(i as int)),
    {
        proof {
            assert(sel@.take(i + 1).drop_last() =~= sel@.take(i as int));
        }
        let j = sel[i];
        if j < s.len() {
            r.push(s[j]);
        }
    }
    proof {
        assert(sel@.take(n as int) =~= sel@);
    }
    r
}

/// The selected effects.
pub fn pick_effects(s: &Vec<Effect>, sel: &Vec<usize>) -> (r: Vec<Effect>)
    ensures
        r@ == spec_pick(s@, sel@),
{
    let mut r: Vec<Effect> = Vec::new();
    let n = sel.len();
    for i in 0..n
        invariant
            n == sel.len(),
            r@ == spec_pick(s@, sel@.take(i as int)),
    {
        proof {
            assert(sel@.take(i + 1).drop_last() =~= sel@.take(i as int));
        }
        let j = sel[i];
        if j < s.len() {
            r.push(s[j]);
        }
    }
    proof {
        assert(sel@.take(n as int) =~= sel@);
    }
    r
}

/// The notes whose positions are not selected.
pub fn keep_unselected_notes(s: &Vec<Note>, sel: &Vec<usize>) -> (r: Vec<Note>)
    ensures
        r@ == spec_keep_unselected(s@, sel@),
{
    let mut r: Vec<Note> = Vec::new();
    let n = s.len();
    for i in 0..n
        invariant
            n == s.len(),
            r@ == spec_keep_unselected(s@.take(i as int), sel@),
    {
        proof {
            assert(s@.take(i + 1).drop_last() =~= s@.take(i as int));
        }
        if !crate::piano_roll::edit::contains_index(sel, i) {
            r.push(s[i]);
        }
    }
    proof {
        assert(s@.take(n as int) =~= s@);
    }
    r
}

/// The effects whose positions are not selected.
pub fn keep_unselected_effects(s: &Vec<Effect>, sel: &Vec<usize>) -> (r: Vec<Effect>)
    ensures
        r@ == spec_keep_unselected(s@, sel@),
{
    let mut r: Vec<Effect> = Vec::new();
    let n = s.len();
    for i in 0..n
        invariant
            n == s.len(),
            r@ == spec_keep_unselected(s@.take(i as int), sel@),
    {
        proof {
            assert(s@.take(i + 1).drop_last() =~= s@.take(i as int));
        }
        if !crate::piano_roll::edit::contains_index(sel, i) {
            r.push(s[i]);
        }
    }
    proof {
        assert(s@.take(n as int) =~= s@);
    }
    r
}

/// The copied events of a track's selection.
pub fn copied_events(notes: &Vec<Note>, effects: &Vec<Effect>, sel_notes: &Vec<usize>, sel_effects: &Vec<usize>) -> (r: Vec<CopiedEvent>)
    ensures
        r@ == spec_pick(notes@, sel_notes@).map_values(|n: Note| CopiedEvent::Note(n)) + spec_pick(
            effects@,
            sel_effects@,
        ).map_values(|e: Effect| CopiedEvent::Effect(e)),
{
    let ns = pick_notes(notes, sel_notes);
    let es = pick_effects(effects, sel_effects);
    let mut r: Vec<CopiedEvent> = Vec::new();
    let n = ns.len();
    for i in 0..n
        invariant
            n == ns.len(),
            r@ == ns@.take(i as int).map_values(|n: Note| CopiedEvent::Note(n)),
    {
        r.push(CopiedEvent::Note(ns[i]));
        proof {
            assert(r@ =~= ns@.take(i + 1).map_values(|n: Note| CopiedEvent::Note(n)));
        }
    }
    let m = es.len();
    for j in 0..m
        invariant
            n == ns.len(),
            m == es.len(),
            r@ == ns@.take(n as int).map_values(|n: Note| CopiedEvent::Note(n)) + es@.take(
                j as int,
            ).map_values(|e: Effect| CopiedEvent::Effect(e)),
    {
        r.push(CopiedEvent::Effect(es[j]));
        proof {
            assert(r@ =~= ns@.take(n as int).map_values(|n: Note| CopiedEvent::Note(n)) + es@.take(
                j + 1,
            ).map_values(|e: Effect| CopiedEvent::Effect(e)));
        }
    }
    proof {
        assert(ns@.take(n as int) =~= ns@);
        assert(es@.take(m as int) =~= es@);
    }
    r
}

/// The earliest start time of the copied events (zero if there are none).
pub open spec fn spec_min_start(b: Seq<CopiedEvent>) -> u64
    decreases b.len(),
{
    if b.len() == 0 {
        0
    } else if b.len() == 1 {
        spec_start_time(b[0])
    } else {
        let m = spec_min_start(b.drop_last());
        let t = spec_start_time(b.last());
        if t < m {
            t
        } else {
            m
        }
    }
}

/// The earliest start time is no later than any start time.
pub proof fn lemma_min_start_le(b: Seq<CopiedEvent>, i: int)
    requires
        0 <= i < b.len(),
    ensures
        spec_min_start(b) <= spec_start_time(b[i]),
    decreases b.len(),
{
    if b.len() > 1 && i < b.len() - 1 {
        lemma_min_start_le(b.drop_last(), i);
    }
}

/// The earliest start time of the copied events.
pub fn min_start(b: &Vec<CopiedEvent>) -> (r: u64)
    ensures
        r == spec_min_start(b@),
{
    let n = b.len();
    if n == 0 {
        return 0;
    }
    let mut m = b[0].get_start_time();
    for i in 1..n
        invariant
            n == b.len(),
            n >= 1,
            m == spec_min_start(b@.take(i as int)),
    {
        proof {
            assert(b@.take(i + 1).drop_last() =~= b@.take(i as int));
            assert(b@.take(1)[0] == b@[0]);
        }
        let t = b[i].get_start_time();
        if t < m {
            m = t;
        }
    }
    proof {
        assert(b@.take(n as int) =~= b@);
        assert(b@.take(1)[0] == b@[0]);
    }
    m
}

/// The end time of a copied event: a note's end, or an effect's time.
pub open spec fn spec_end_time(e: CopiedEvent) -> u64 {
    match e {
        CopiedEvent::Effect(effect) => effect.time,
        CopiedEvent::Note(note) => note.end,
    }
}

/// The latest end time of the copied events (zero if there are none).
pub open spec fn spec_max_end(b: Seq<CopiedEvent>) -> u64
    decreases b.len(),
{
    if b.len() == 0 {
        0
    } else {
        let m = spec_max_end(b.drop_last());
        let t = spec_end_time(b.last());
        if t > m {
            t
        } else {
            m
        }
    }
}

/// The latest end time of the copied events.
pub fn max_end(b: &Vec<CopiedEvent>) -> (r: u64)
    ensures
        r == spec_max_end(b@),
{
    let n = b.len();
    let mut m: u64 = 0;
    for i in 0..n
        invariant
            n == b.len(),
            m == spec_max_end(b@.take(i as int)),
    {
        proof {
            assert(b@.take(i + 1).drop_last() =~= b@.take(i as int));
        }
        let t = match &b[i] {
            CopiedEvent::Effect(effect) => effect.time,
            CopiedEvent::Note(note) => note.end,
        };
        if t > m {
            m = t;
        }
    }
    proof {
        assert(b@.take(n as int) =~= b@);
    }
    m
}

/// A pasted note: moved so that the earliest copied event starts at the cursor, keeping its
/// duration.
pub open spec fn spec_pasted_note(n: Note, min: u64, cursor: u64) -> Note {
    let start = (n.start - min + cursor) as u64;
    Note { start, end: (start + (n.end - n.start)) as u64, ..n }
}

/// A pasted effect: its time is moved by the cursor.
pub open spec fn spec_pasted_effect(e: Effect, cursor: u64) -> Effect {
    Effect { time: (e.time + cursor) as u64, ..e }
}

/// The notes that pasting the buffer adds, in order.
pub open spec fn spec_paste_notes(b: Seq<CopiedEvent>, min: u64, cursor: u64) -> Seq<Note>
    decreases b.len(),
{
    if b.len() == 0 {
        Seq::empty()
    } else {
        let r = spec_paste_notes(b.drop_last(), min, cursor);
        match b.last() {
            CopiedEvent::Note(n) => r.push(spec_pasted_note(n, min, cursor)),
            CopiedEvent::Effect(_) => r,
        }
    }
}

/// The effects that pasting the buffer adds, in order. Unlike a pasted note, a pasted effect
/// is not moved back by the earliest start time in the buffer: its time is only offset by the
/// cursor, as the piano roll has always done.
pub open spec fn spec_paste_effects(b: Seq<CopiedEvent>, cursor: u64) -> Seq<Effect>
    decreases b.len(),
{
    if b.len() == 0 {
        Seq::empty()
    } else {
        let r = spec_paste_effects(b.drop_last(), cursor);
        match b.last() {
            CopiedEvent::Effect(e) => r.push(spec_pasted_effect(e, cursor)),
            CopiedEvent::Note(_) => r,
        }
    }
}

/// Pasting stays in range: each copied note does not end before it starts, and nothing moves
/// past the largest time.
pub open spec fn spec_paste_fits(b: Seq<CopiedEvent>, cursor: u64) -> bool {
    forall|i: int| 0 <= i < b.len() ==> match #[trigger] b[i] {
        CopiedEvent::Note(n) => n.start <= n.end && n.end - spec_min_start(b) + cursor <= u64::MAX,
        CopiedEvent::Effect(e) => e.time + cursor <= u64::MAX,
    }
}

/// Append the pasted notes and effects to a track's notes and effects.
pub fn paste(b: &Vec<CopiedEvent>, cursor: u64, notes: &mut Vec<Note>, effects: &mut Vec<Effect>)
    requires
        spec_paste_fits(b@, cursor),
    ensures
        final(notes)@ == old(notes)@ + spec_paste_notes(b@, spec_min_start(b@), cursor),
        final(effects)@ == old(effects)@ + spec_paste_effects(b@, cursor),
{
    let min = min_start(b);
    let n = b.len();
    let ghost n0 = notes@;
    let ghost e0 = effects@;
    for i in 0..n
        invariant
            n == b.len(),
            min == spec_min_start(b@),
            spec_paste_fits(b@, cursor),
            notes@ == n0 + spec_paste_notes(b@.take(i as int), min, cursor),
            effects@ == e0 + spec_paste_effects(b@.take(i as int), cursor),
    {
        proof {
            assert(b@.take(i + 1).drop_last() =~= b@.take(i as int));
            assert(b@.take(i + 1).last() == b@[i as int]);
            lemma_min_start_le(b@, i as int);
        }
        match b[i] {
            CopiedEvent::Effect(e) => {
                let ghost before = effects@;
                effects.push(Effect { time: e.time + cursor, ..e });
                proof {
                    assert(effects@ =~= e0 + spec_paste_effects(b@.take(i + 1), cursor));
                    assert(notes@ =~= n0 + spec_paste_notes(b@.take(i + 1), min, cursor));
                }
            },
            CopiedEvent::Note(note) => {
                let start = (note.start - min) + cursor;
                let dt = note.end - note.start;
                notes.push(Note { start, end: start + dt, ..note });
                proof {
                    assert(notes@ =~= n0 + spec_paste_notes(b@.take(i + 1), min, cursor));
                    assert(effects@ =~= e0 + spec_paste_effects(b@.take(i + 1), cursor));
                }
            },
        }
    }
    proof {
        assert(b@.take(n as int) =~= b@);
    }
}

/// Keeping the unselected valid notes gives valid notes.
pub proof fn lemma_keep_unselected_valid(s: Seq<Note>, sel: Seq<usize>)
    requires
        forall|i: int| 0 <= i < s.len() ==> #[trigger] note_wf(s[i]),
    ensures
        forall|i: int|
            0 <= i < spec_keep_unselected(s, sel).len() ==> #[trigger] note_wf(spec_keep_unselected(s, sel)[i]),
    decreases s.len(),
{
    if s.len() > 0 {
        lemma_keep_unselected_valid(s.drop_last(), sel);
        let r = spec_keep_unselected(s.drop_last(), sel);
        assert forall|i: int| 0 <= i < spec_keep_unselected(s, sel).len() implies #[trigger] note_wf(
            spec_keep_unselected(s, sel)[i],
        ) by {
            if i < r.len() {
                assert(spec_keep_unselected(s, sel)[i] == r[i]);
            }
        }
    }
}

/// Pasting valid notes that stay in range gives valid notes.
pub proof fn lemma_paste_notes_valid(b: Seq<CopiedEvent>, min: u64, cursor: u64)
    requires
        forall|i: int| 0 <= i < b.len() ==> match #[trigger] b[i] {
            CopiedEvent::Note(n) => note_wf(n) && min <= n.start && n.end - min + cursor <= u64::MAX,
            CopiedEvent::Effect(_) => true,
        },
    ensures
        forall|i: int|
            0 <= i < spec_paste_notes(b, min, cursor).len() ==> #[trigger] note_wf(
                spec_paste_notes(b, min, cursor)[i],
            ),
    decreases b.len(),
{
    if b.len() > 0 {
        assert forall|i: int| 0 <= i < b.drop_last().len() implies match #[trigger] b.drop_last()[i] {
            CopiedEvent::Note(n) => note_wf(n) && min <= n.start && n.end - min + cursor <= u64::MAX,
            CopiedEvent::Effect(_) => true,
        } by {
            assert(b.drop_last()[i] == b[i]);
        }
        lemma_paste_notes_valid(b.drop_last(), min, cursor);
        let r = spec_paste_notes(b.drop_last(), min, cursor);
        assert(b.last() == b[b.len() - 1]);
        assert forall|i: int| 0 <= i < spec_paste_notes(b, min, cursor).len() implies #[trigger] note_wf(
            spec_paste_notes(b, min, cursor)[i],
        ) by {
            if i < r.len() {
                assert(spec_paste_notes(b, min, cursor)[i] == r[i]);
            }
        }
    }
}

/// Pasting copied notes at the time of the earliest copied event gives back the copied notes.
pub proof fn lemma_paste_at_earliest(b: Seq<CopiedEvent>)
    requires
        forall|i: int| 0 <= i < b.len() ==> match #[trigger] b[i] {
            CopiedEvent::Note(n) => n.start <= n.end,
            CopiedEvent::Effect(_) => true,
        },
    ensures
        spec_paste_notes(b, spec_min_start(b), spec_min_start(b)) == spec_copied_notes(b),
    decreases b.len(),
{
    let m = spec_min_start(b);
    assert forall|i: int| 0 <= i < b.len() implies match #[trigger] b[i] {
        CopiedEvent::Note(n) => n.start <= n.end && m <= n.start,
        CopiedEvent::Effect(_) => true,
    } by {
        lemma_min_start_le(b, i);
    }
    lemma_paste_at(b, m);
}

/// The copied notes of a buffer, in order.
pub open spec fn spec_copied_notes(b: Seq<CopiedEvent>) -> Seq<Note>
    decreases b.len(),
{
    if b.len() == 0 {
        Seq::empty()
    } else {
        let r = spec_copied_notes(b.drop_last());
        match b.last() {
            CopiedEvent::Note(n) => r.push(n),
            CopiedEvent::Effect(_) => r,
        }
    }
}

/// Pasting copied notes that start no earlier than `m` at `m`, with `m` taken as the earliest
/// time, gives back the copied notes.
proof fn lemma_paste_at(b: Seq<CopiedEvent>, m: u64)
    requires
        forall|i: int| 0 <= i < b.len() ==> match #[trigger] b[i] {
            CopiedEvent::Note(n) => n.start <= n.end && m <= n.start,
            CopiedEvent::Effect(_) => true,
        },
    ensures
        spec_paste_notes(b, m, m) == spec_copied_notes(b),
    decreases b.len(),
{
    if b.len() > 0 {
        assert forall|i: int| 0 <= i < b.drop_last().len() implies match #[trigger] b.drop_last()[i] {
            CopiedEvent::Note(n) => n.start <= n.end && m <= n.start,
            CopiedEvent::Effect(_) => true,
        } by {
            assert(b.drop_last()[i] == b[i]);
        }
        lemma_paste_at(b.drop_last(), m);
        assert(b.last() == b[b.len() - 1]);
    }
}

} // verus!
