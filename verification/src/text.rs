use vstd::prelude::*;

verus! {

/// The text of the app in the user's language: a value for each key.
#[derive(Debug)]
pub struct Text {
    /// The keys and their values.
    pub entries: Vec<(String, String)>,
}

/// The value of the first entry with the key, if there is one.
pub open spec fn spec_lookup(entries: Seq<(String, String)>, key: Seq<char>) -> Option<Seq<char>>
    decreases entries.len(),
{
    if entries.len() == 0 {
        None
    } else if entries[0].0@ == key {
        Some(entries[0].1@)
    } else {
        spec_lookup(entries.subrange(1, entries.len() as int), key)
    }
}

impl Text {
    /// The value of a key.
    pub fn get(&self, key: &str) -> (r: String)
        requires
            spec_lookup(self.entries@, key@) is Some,
        ensures
            r@ == spec_lookup(self.entries@, key@).unwrap(),
    {
        let k = String::from_str(key);
        let n = self.entries.len();
        let mut i: usize = 0;
        proof {
            assert(self.entries@.subrange(0, n as int) =~= self.entries@);
        }
        while i < n
            invariant
                n == self.entries@.len(),
                i <= n,
                k@ == key@,
                spec_lookup(self.entries@.subrange(i as int, n as int), key@) == spec_lookup(self.entries@, key@),
            decreases n - i,
        {
            let ghost rest = self.entries@.subrange(i as int, n as int);
            proof {
                assert(rest[0] == self.entries@[i as int]);
                assert(rest.subrange(1, rest.len() as int) =~= self.entries@.subrange(i + 1, n as int));
            }
            if self.entries[i].0 == k {
                return self.entries[i].1.clone();
            }
            i = i + 1;
        }
        proof {
            assert(self.entries@.subrange(n as int, n as int).len() == 0);
            assert(false);
        }
        String::new()
    }
}

/// A text to be spoken.
#[derive(Debug)]
pub struct TtsString {
    pub text: String,
}

/// The key of the text spoken when no notes are selected.
pub open spec fn spec_no_selection_key() -> Seq<char> {
    "PIANO_ROLL_PANEL_STATUS_TTS_NO_SELECTION"@
}

/// The text spoken when no notes are selected.
pub fn get_no_selection_status_tts(text: &Text) -> (r: TtsString)
    requires
        spec_lookup(text.entries@, spec_no_selection_key()) is Some,
    ensures
        r.text@ == spec_lookup(text.entries@, spec_no_selection_key()).unwrap(),
{
    TtsString { text: text.get("PIANO_ROLL_PANEL_STATUS_TTS_NO_SELECTION") }
}

} // verus!
