use vstd::prelude::*;
use crate::exporter::{opt_string_view, Exporter, ExporterModel, MetadataModel};
use crate::input::Input;
use crate::model::{State, StateModel, TimeState};
use crate::snapshot::{opt_snapshot_view, spec_snap_states, Snapshot, SnapshotModel};
use crate::strings::{pop_char, push_char};

verus! {

/// What a frame of typing does to a text: the delete key removes the last character, else the
/// typed characters are appended. Returns the new text and whether anything changed.
pub open spec fn spec_edit_text(s: Seq<char>, typed: Seq<char>, backspace: bool) -> (Seq<char>, bool) {
    if backspace {
        if s.len() > 0 {
            (s.drop_last(), true)
        } else {
            (s, false)
        }
    } else if typed.len() > 0 {
        (s + typed, true)
    } else {
        (s, false)
    }
}

/// Is this character a decimal digit?
pub open spec fn spec_is_digit(c: char) -> bool {
    '0' <= c && c <= '9'
}

/// The number whose decimal digits are those of `v` followed by the digits among `typed`.
pub open spec fn spec_append_digits(v: int, typed: Seq<char>) -> int
    decreases typed.len(),
{
    if typed.len() == 0 {
        v
    } else {
        let r = spec_append_digits(v, typed.drop_last());
        let c = typed.last();
        if spec_is_digit(c) {
            r * 10 + (c as u32 - '0' as u32)
        } else {
            r
        }
    }
}

/// What a frame of typing does to a number: the delete key removes its last digit (a zero has
/// none), else the typed digits are appended. Returns the new number and whether the frame
/// changed the field.
pub open spec fn spec_edit_number(v: u64, typed: Seq<char>, backspace: bool) -> (int, bool) {
    if backspace {
        if v > 0 {
            ((v / 10) as int, true)
        } else {
            (v as int, false)
        }
    } else if typed.len() > 0 {
        (spec_append_digits(v as int, typed), true)
    } else {
        (v as int, false)
    }
}

/// Appending digits never makes a number smaller, so each prefix of the typed characters gives
/// a number no larger than all of them do.
pub proof fn lemma_append_digits_grows(v: int, typed: Seq<char>, i: int)
    requires
        v >= 0,
        0 <= i <= typed.len(),
    ensures
        0 <= v <= spec_append_digits(v, typed.take(i)) <= spec_append_digits(v, typed),
    decreases typed.len(),
{
    if typed.len() > 0 {
        if i == typed.len() {
            assert(typed.take(i) =~= typed);
            lemma_append_digits_grows(v, typed.drop_last(), i - 1);
        } else {
            lemma_append_digits_grows(v, typed.drop_last(), i);
            assert(typed.drop_last().take(i) =~= typed.take(i));
        }
        lemma_append_digits_grows(v, typed.drop_last(), typed.len() - 1);
        assert(typed.drop_last().take(typed.len() - 1) =~= typed.drop_last());
    } else {
        assert(typed.take(i) =~= typed);
    }
}

/// Text with the typed characters appended.
fn append_chars(s: &mut String, typed: &Vec<char>)
    ensures
        final(s)@ == old(s)@ + typed@,
{
    let n = typed.len();
    let ghost s0 = s@;
    for i in 0..n
        invariant
            n == typed.len(),
            s@ == s0 + typed@.take(i as int),
    {
        push_char(s, typed[i]);
        proof {
            assert(s@ =~= s0 + typed@.take(i + 1));
        }
    }
    proof {
        assert(typed@.take(n as int) =~= typed@);
    }
}

/// Apply a frame of typing to a text.
pub fn edit_text(s: &mut String, input: &Input) -> (changed: bool)
    ensures
        (final(s)@, changed) == spec_edit_text(old(s)@, input.typed@, input.backspace),
{
    if input.backspace {
        pop_char(s).is_some()
    } else if input.typed.len() > 0 {
        append_chars(s, &input.typed);
        true
    } else {
        false
    }
}

/// Apply a frame of typing to a number.
pub fn edit_number(v: &mut u64, input: &Input) -> (changed: bool)
    requires
        spec_edit_number(*old(v), input.typed@, input.backspace).0 <= u64::MAX,
    ensures
        (*final(v) as int, changed) == spec_edit_number(*old(v), input.typed@, input.backspace),
{
    if input.backspace {
        if *v > 0 {
            *v = *v / 10;
            true
        } else {
            false
        }
    } else if input.typed.len() > 0 {
        let n = input.typed.len();
        let ghost v0 = *v as int;
        let ghost typed = input.typed@;
        for i in 0..n
            invariant
                n == typed.len(),
                typed == input.typed@,
                spec_append_digits(v0, typed) <= u64::MAX,
                v0 >= 0,
                *v as int == spec_append_digits(v0, typed.take(i as int)),
        {
            proof {
                assert(typed.take(i + 1).drop_last() =~= typed.take(i as int));
                lemma_append_digits_grows(v0, typed, i + 1);
            }
            let c = input.typed[i];
            if '0' <= c && c <= '9' {
                *v = *v * 10 + (c as u32 - '0' as u32) as u64;
            }
        }
        proof {
            assert(typed.take(n as int) =~= typed);
        }
        true
    } else {
        false
    }
}

/// Typing a character and then deleting one gives back the text.
pub proof fn lemma_type_then_delete(s: Seq<char>, c: char)
    ensures
        spec_edit_text(spec_edit_text(s, seq![c], false).0, seq![], true) == (s, true),
{
    assert((s + seq![c]).drop_last() =~= s);
}

/// A value that can be modified by typing.
pub trait AlphanumericModifiable: Sized {
    /// Whether the value is valid, i.e. it need not be replaced by a default.
    spec fn spec_valid(&self) -> bool;

    /// Whether `new` is what a frame of typing makes of `old`, and `changed` whether it changed
    /// the field.
    spec fn spec_modifies(old: Self, new: Self, changed: bool, typed: Seq<char>, backspace: bool) -> bool;

    /// Whether a frame of typing can be applied to the value.
    spec fn spec_modify_ok(old: Self, typed: Seq<char>, backspace: bool) -> bool;

    /// Returns true if the value is valid, i.e. it need not be replaced by a default.
    fn is_valid(&self) -> (r: bool)
        ensures
            r == self.spec_valid(),
    ;

    /// Apply a frame of typing. Returns true if the field changed.
    fn modify(&mut self, input: &Input) -> (changed: bool)
        requires
            Self::spec_modify_ok(*old(self), input.typed@, input.backspace),
        ensures
            Self::spec_modifies(*old(self), *final(self), changed, input.typed@, input.backspace),
    ;
}

impl AlphanumericModifiable for String {
    open spec fn spec_valid(&self) -> bool {
        self@.len() > 0
    }

    open spec fn spec_modifies(old: String, new: String, changed: bool, typed: Seq<char>, backspace: bool) -> bool {
        (new@, changed) == spec_edit_text(old@, typed, backspace)
    }

    open spec fn spec_modify_ok(old: String, typed: Seq<char>, backspace: bool) -> bool {
        true
    }

    fn is_valid(&self) -> (r: bool) {
        !self.as_str().is_empty()
    }

    fn modify(&mut self, input: &Input) -> (changed: bool) {
        edit_text(self, input)
    }
}

impl AlphanumericModifiable for Option<String> {
    open spec fn spec_valid(&self) -> bool {
        self is Some
    }

    /// An absent text is edited as an empty one, and an empty result is absent.
    open spec fn spec_modifies(
        old: Option<String>,
        new: Option<String>,
        changed: bool,
        typed: Seq<char>,
        backspace: bool,
    ) -> bool {
        let s = match old {
            Some(s) => s@,
            None => Seq::empty(),
        };
        let (t, c) = spec_edit_text(s, typed, backspace);
        &&& changed == c
        &&& c ==> opt_string_view(new) == (if t.len() == 0 { None } else { Some(t) })
        &&& !c ==> new == old
    }

    open spec fn spec_modify_ok(old: Option<String>, typed: Seq<char>, backspace: bool) -> bool {
        true
    }

    fn is_valid(&self) -> (r: bool) {
        self.is_some()
    }

    fn modify(&mut self, input: &Input) -> (changed: bool) {
        let mut value = match self {
            Some(s) => s.clone(),
            None => String::new(),
        };
        if edit_text(&mut value, input) {
            *self = if value.as_str().is_empty() {
                None
            } else {
                Some(value)
            };
            true
        } else {
            false
        }
    }
}

impl AlphanumericModifiable for u64 {
    open spec fn spec_valid(&self) -> bool {
        *self > 0
    }

    open spec fn spec_modifies(old: u64, new: u64, changed: bool, typed: Seq<char>, backspace: bool) -> bool {
        (new as int, changed) == spec_edit_number(old, typed, backspace)
    }

    open spec fn spec_modify_ok(old: u64, typed: Seq<char>, backspace: bool) -> bool {
        spec_edit_number(old, typed, backspace).0 <= u64::MAX
    }

    fn is_valid(&self) -> (r: bool) {
        *self > 0
    }

    fn modify(&mut self, input: &Input) -> (changed: bool) {
        edit_number(self, input)
    }
}

/// When typing into a field of the state ends, an invalid value (an empty text, a zero) is
/// replaced by a default value.
pub fn on_disable_state<T: AlphanumericModifiable>(value: &mut T, default_value: T)
    ensures
        *final(value) == (if old(value).spec_valid() { *old(value) } else { default_value }),
{
    if !value.is_valid() {
        *value = default_value;
    }
}

/// When typing ends, the field holds a valid value if the default value is valid.
pub proof fn lemma_on_disable_valid<T: AlphanumericModifiable>(old_value: T, default_value: T)
    requires
        default_value.spec_valid(),
    ensures
        (if old_value.spec_valid() { old_value } else { default_value }).spec_valid(),
{
}

/// Apply a frame of typing to the tempo. If it changes, returns a snapshot of the change.
pub fn update_state(state: &mut State, input: &Input) -> (r: Option<Snapshot>)
    requires
        spec_edit_number(old(state).time.bpm, input.typed@, input.backspace).0 <= u64::MAX,
    ensures
        ({
            let (bpm, changed) = spec_edit_number(old(state).time.bpm, input.typed@, input.backspace);
            &&& changed ==> final(state)@ == (StateModel {
                time: TimeState { bpm: bpm as u64, ..old(state)@.time },
                ..old(state)@
            })
            &&& changed ==> opt_snapshot_view(r) == Some(spec_snap_states(old(state)@, final(state)@))
            &&& !changed ==> final(state)@ == old(state)@ && r is None
        }),
{
    let mut value = state.time.bpm;
    if value.modify(input) {
        let s0 = state.duplicate();
        state.time.bpm = value;
        proof {
            assert(state@ =~= StateModel { time: TimeState { bpm: value, ..s0@.time }, ..s0@ });
        }
        Some(Snapshot::from_states(s0, state))
    } else {
        None
    }
}

/// The text fields of the export metadata.
#[derive(Clone, Copy, Debug, PartialEq, Eq, Structural)]
pub enum MetadataField {
    Title,
    Artist,
    Album,
    Genre,
    Comment,
}

/// What a frame of typing does to an optional text: an absent text is edited as an empty one,
/// and an empty result is absent. Returns the new text and whether anything changed.
pub open spec fn spec_edit_opt_text(s: Option<Seq<char>>, typed: Seq<char>, backspace: bool) -> (Option<Seq<char>>, bool) {
    let base = match s {
        Some(x) => x,
        None => Seq::empty(),
    };
    let (t, c) = spec_edit_text(base, typed, backspace);
    if c {
        (if t.len() == 0 { None } else { Some(t) }, true)
    } else {
        (s, false)
    }
}

/// What a frame of typing does to a text field of the export metadata: the new export settings,
/// and whether anything changed.
pub open spec fn spec_exporter_typed(
    field: MetadataField,
    ex: ExporterModel,
    typed: Seq<char>,
    backspace: bool,
) -> (ExporterModel, bool) {
    let m = ex.metadata;
    match field {
        MetadataField::Title => {
            let (t, c) = spec_edit_text(m.title, typed, backspace);
            (ExporterModel { metadata: MetadataModel { title: t, ..m }, ..ex }, c)
        },
        MetadataField::Artist => {
            let (t, c) = spec_edit_opt_text(m.artist, typed, backspace);
            (ExporterModel { metadata: MetadataModel { artist: t, ..m }, ..ex }, c)
        },
        MetadataField::Album => {
            let (t, c) = spec_edit_opt_text(m.album, typed, backspace);
            (ExporterModel { metadata: MetadataModel { album: t, ..m }, ..ex }, c)
        },
        MetadataField::Genre => {
            let (t, c) = spec_edit_opt_text(m.genre, typed, backspace);
            (ExporterModel { metadata: MetadataModel { genre: t, ..m }, ..ex }, c)
        },
        MetadataField::Comment => {
            let (t, c) = spec_edit_opt_text(m.comment, typed, backspace);
            (ExporterModel { metadata: MetadataModel { comment: t, ..m }, ..ex }, c)
        },
    }
}

/// Apply a frame of typing to a text field of the export metadata. Returns true if it changed.
pub fn update_exporter(field: MetadataField, input: &Input, exporter: &mut Exporter) -> (changed: bool)
    ensures
        (final(exporter)@, changed) == spec_exporter_typed(field, old(exporter)@, input.typed@, input.backspace),
{
    let ghost e0 = exporter@;
    let changed = match field {
        MetadataField::Title => exporter.metadata.title.modify(input),
        MetadataField::Artist => exporter.metadata.artist.modify(input),
        MetadataField::Album => exporter.metadata.album.modify(input),
        MetadataField::Genre => exporter.metadata.genre.modify(input),
        MetadataField::Comment => exporter.metadata.comment.modify(input),
    };
    proof {
        assert(exporter@ =~= spec_exporter_typed(field, e0, input.typed@, input.backspace).0);
    }
    changed
}

/// The title that an empty title is replaced with.
pub open spec fn spec_default_title() -> Seq<char> {
    seq!['M', 'y', ' ', 'M', 'u', 's', 'i', 'c']
}

/// The export settings with an empty title replaced by the default title.
pub open spec fn spec_title_defaulted(ex: ExporterModel) -> ExporterModel {
    if ex.metadata.title.len() == 0 {
        ExporterModel { metadata: MetadataModel { title: spec_default_title(), ..ex.metadata }, ..ex }
    } else {
        ex
    }
}

/// When typing into a text field of the export metadata ends, an empty title is replaced by
/// the default title; the other fields may be absent.
pub fn on_disable_exporter(field: MetadataField, exporter: &mut Exporter)
    ensures
        final(exporter)@ == (if field == MetadataField::Title {
            spec_title_defaulted(old(exporter)@)
        } else {
            old(exporter)@
        }),
{
    if field == MetadataField::Title {
        let default_title = String::from_str("My Music");
        proof {
            reveal_strlit("My Music");
            assert(default_title@ =~= spec_default_title());
        }
        on_disable_state(&mut exporter.metadata.title, default_title);
    }
}

} // verus!
