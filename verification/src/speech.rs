use vstd::prelude::*;
use crate::input::InputEvent;
use crate::model::PianoRollMode;
use crate::open_file::Extension;

verus! {

/// A value put into a spoken text.
#[derive(Debug)]
pub enum Value {
    /// A text, as it is.
    Str(String),
    /// A number.
    Int(u64),
    /// The text of a key.
    Key(String),
    /// A time in PPQ, spoken in beats.
    Ppq(u64),
    /// The name of a MIDI note.
    NoteName(u8),
    /// The name of an edit mode, by its position (normal, quick, precise).
    EditMode(usize),
    /// The name of a piano roll mode.
    Mode(PianoRollMode),
    /// The name of a file type.
    Extension(Extension),
    /// The file or folder with this name.
    File(String),
    /// The name of the file at this path, without its extension.
    FileName(String),
    /// The MP3 bit rate at this position of the list of bit rates, in bits per second.
    Mp3BitRate(usize),
    /// The text of a key with a number in it.
    KeyWithInt(String, u64),
}

/// The mathematical value of a spoken value.
pub enum ValueModel {
    Str(Seq<char>),
    Int(u64),
    Key(Seq<char>),
    Ppq(u64),
    NoteName(u8),
    EditMode(usize),
    Mode(PianoRollMode),
    Extension(Extension),
    File(Seq<char>),
    FileName(Seq<char>),
    Mp3BitRate(usize),
    KeyWithInt(Seq<char>, u64),
}

impl View for Value {
    type V = ValueModel;

    open spec fn view(&self) -> ValueModel {
        match self {
            Value::Str(s) => ValueModel::Str(s@),
            Value::Int(n) => ValueModel::Int(*n),
            Value::Key(k) => ValueModel::Key(k@),
            Value::Ppq(t) => ValueModel::Ppq(*t),
            Value::NoteName(n) => ValueModel::NoteName(*n),
            Value::EditMode(m) => ValueModel::EditMode(*m),
            Value::Mode(m) => ValueModel::Mode(*m),
            Value::Extension(e) => ValueModel::Extension(*e),
            Value::File(f) => ValueModel::File(f@),
            Value::FileName(f) => ValueModel::FileName(f@),
            Value::Mp3BitRate(i) => ValueModel::Mp3BitRate(*i),
            Value::KeyWithInt(k, n) => ValueModel::KeyWithInt(k@, *n),
        }
    }
}

/// The views of a list of values.
pub open spec fn values_view(s: Seq<Value>) -> Seq<ValueModel> {
    s.map_values(|v: Value| v@)
}

/// A text to be spoken.
#[derive(Debug)]
pub enum Phrase {
    /// The text of a key, with values in it.
    Text { key: String, values: Vec<Value> },
    /// A tooltip: the text of a key, with the key bindings of the events and, after them, the values
    /// in it.
    Tooltip { key: String, events: Vec<InputEvent>, values: Vec<Value> },
}

/// The mathematical value of a phrase.
pub enum PhraseModel {
    Text { key: Seq<char>, values: Seq<ValueModel> },
    Tooltip { key: Seq<char>, events: Seq<InputEvent>, values: Seq<ValueModel> },
}

impl View for Phrase {
    type V = PhraseModel;

    open spec fn view(&self) -> PhraseModel {
        match self {
            Phrase::Text { key, values } => PhraseModel::Text { key: key@, values: values_view(values@) },
            Phrase::Tooltip { key, events, values } => PhraseModel::Tooltip {
                key: key@,
                events: events@,
                values: values_view(values@),
            },
        }
    }
}

/// Something said at once: phrases joined by spaces.
#[derive(Debug)]
pub struct Utterance {
    pub phrases: Vec<Phrase>,
}

impl View for Utterance {
    type V = Seq<PhraseModel>;

    open spec fn view(&self) -> Seq<PhraseModel> {
        self.phrases@.map_values(|p: Phrase| p@)
    }
}

/// The views of a list of utterances.
pub open spec fn speech_view(s: Seq<Utterance>) -> Seq<Seq<PhraseModel>> {
    s.map_values(|u: Utterance| u@)
}

/// The text of a key.
pub open spec fn spec_text(key: Seq<char>) -> PhraseModel {
    PhraseModel::Text { key, values: seq![] }
}

/// The text of a key with one value in it.
pub open spec fn spec_text1(key: Seq<char>, v: ValueModel) -> PhraseModel {
    PhraseModel::Text { key, values: seq![v] }
}

/// A tooltip without values.
pub open spec fn spec_tip(key: Seq<char>, events: Seq<InputEvent>) -> PhraseModel {
    PhraseModel::Tooltip { key, events, values: seq![] }
}

/// A tooltip with one value.
pub open spec fn spec_tip1(key: Seq<char>, events: Seq<InputEvent>, v: ValueModel) -> PhraseModel {
    PhraseModel::Tooltip { key, events, values: seq![v] }
}

/// Each phrase said on its own.
pub open spec fn spec_each(s: Seq<PhraseModel>) -> Seq<Seq<PhraseModel>> {
    s.map_values(|p: PhraseModel| seq![p])
}

/// The text of a key.
pub fn text(key: &str) -> (p: Phrase)
    ensures
        p@ == spec_text(key@),
{
    let values: Vec<Value> = Vec::new();
    proof {
        assert(values_view(values@) =~= seq![]);
    }
    Phrase::Text { key: String::from_str(key), values }
}

/// The text of a key with values in it.
pub fn text_with(key: &str, values: Vec<Value>) -> (p: Phrase)
    ensures
        p@ == (PhraseModel::Text { key: key@, values: values_view(values@) }),
{
    Phrase::Text { key: String::from_str(key), values }
}

/// The text of a key with one value in it.
pub fn text1(key: &str, v: Value) -> (p: Phrase)
    ensures
        p@ == spec_text1(key@, v@),
{
    let mut values: Vec<Value> = Vec::new();
    values.push(v);
    proof {
        assert(values_view(values@) =~= seq![v@]);
    }
    Phrase::Text { key: String::from_str(key), values }
}

/// A tooltip.
pub fn tip(key: &str, events: Vec<InputEvent>) -> (p: Phrase)
    ensures
        p@ == spec_tip(key@, events@),
{
    let values: Vec<Value> = Vec::new();
    proof {
        assert(values_view(values@) =~= seq![]);
    }
    Phrase::Tooltip { key: String::from_str(key), events, values }
}

/// A tooltip with one value.
pub fn tip1(key: &str, events: Vec<InputEvent>, v: Value) -> (p: Phrase)
    ensures
        p@ == spec_tip1(key@, events@, v@),
{
    let mut values: Vec<Value> = Vec::new();
    values.push(v);
    proof {
        assert(values_view(values@) =~= seq![v@]);
    }
    Phrase::Tooltip { key: String::from_str(key), events, values }
}

/// One event.
pub fn ev1(a: InputEvent) -> (r: Vec<InputEvent>)
    ensures
        r@ == seq![a],
{
    let mut r: Vec<InputEvent> = Vec::new();
    r.push(a);
    proof {
        assert(r@ =~= seq![a]);
    }
    r
}

/// Two events.
pub fn ev2(a: InputEvent, b: InputEvent) -> (r: Vec<InputEvent>)
    ensures
        r@ == seq![a, b],
{
    let mut r: Vec<InputEvent> = Vec::new();
    r.push(a);
    r.push(b);
    proof {
        assert(r@ =~= seq![a, b]);
    }
    r
}

/// Three events.
pub fn ev3(a: InputEvent, b: InputEvent, c: InputEvent) -> (r: Vec<InputEvent>)
    ensures
        r@ == seq![a, b, c],
{
    let mut r = ev2(a, b);
    r.push(c);
    proof {
        assert(r@ =~= seq![a, b, c]);
    }
    r
}

/// Four events.
pub fn ev4(a: InputEvent, b: InputEvent, c: InputEvent, d: InputEvent) -> (r: Vec<InputEvent>)
    ensures
        r@ == seq![a, b, c, d],
{
    let mut r = ev3(a, b, c);
    r.push(d);
    proof {
        assert(r@ =~= seq![a, b, c, d]);
    }
    r
}

/// An utterance of one phrase.
pub fn say(p: Phrase) -> (u: Utterance)
    ensures
        u@ == seq![p@],
{
    let mut phrases: Vec<Phrase> = Vec::new();
    phrases.push(p);
    let u = Utterance { phrases };
    proof {
        assert(u@ =~= seq![p@]);
    }
    u
}

/// Add a phrase to an utterance.
pub fn join(u: &mut Utterance, p: Phrase)
    ensures
        final(u)@ == old(u)@.push(p@),
{
    let ghost u0 = u@;
    u.phrases.push(p);
    proof {
        assert(u@ =~= u0.push(p@));
    }
}

/// Add an utterance to the speech.
pub fn add_utterance(speech: &mut Vec<Utterance>, u: Utterance)
    ensures
        speech_view(final(speech)@) == speech_view(old(speech)@).push(u@),
{
    let ghost s0 = speech_view(speech@);
    speech.push(u);
    proof {
        assert(speech_view(speech@) =~= s0.push(u@));
    }
}

/// Add a phrase, said on its own, to the speech.
pub fn add_phrase(speech: &mut Vec<Utterance>, p: Phrase)
    ensures
        speech_view(final(speech)@) == speech_view(old(speech)@).push(seq![p@]),
{
    add_utterance(speech, say(p));
}

/// Add utterances to the speech.
pub fn add_all(speech: &mut Vec<Utterance>, more: Vec<Utterance>)
    ensures
        speech_view(final(speech)@) == speech_view(old(speech)@) + speech_view(more@),
{
    let ghost s0 = speech@;
    let ghost m0 = more@;
    let mut more = more;
    speech.append(&mut more);
    proof {
        assert(speech_view(speech@) =~= speech_view(s0) + speech_view(m0));
    }
}

/// No speech.
pub fn silence() -> (r: Vec<Utterance>)
    ensures
        speech_view(r@) == Seq::<Seq<PhraseModel>>::empty(),
{
    let r: Vec<Utterance> = Vec::new();
    proof {
        assert(speech_view(r@) =~= Seq::<Seq<PhraseModel>>::empty());
    }
    r
}

} // verus!
