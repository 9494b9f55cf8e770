use vstd::prelude::*;
use crate::index::Index;
use crate::input::{Input, InputEvent};
use crate::model::{PanelType, State, StateModel};
use crate::popup::{spec_with_panels, Popup};
use crate::speech::{add_phrase, ev1, silence, speech_view, spec_each, spec_text, spec_tip, text, tip, PhraseModel, Utterance};

verus! {

/// The links, by the input event that opens each: a `hashbrown::HashMap`.
#[verifier::external_body]
#[derive(Debug)]
pub struct LinkMap {
    map: hashbrown::HashMap<InputEvent, String>,
}

/// What a map of links holds.
pub uninterp spec fn link_contents(m: LinkMap) -> Map<InputEvent, Seq<char>>;

impl LinkMap {
    /// `hashbrown::HashMap::new`: an empty map.
    #[verifier::external_body]
    pub(crate) fn new() -> (map: LinkMap)
        ensures
            link_contents(map) =~= Map::empty(),
    {
        LinkMap { map: hashbrown::HashMap::new() }
    }

    /// `hashbrown::HashMap::insert`: maps the event to the link, replacing any link it had.
    #[verifier::external_body]
    pub(crate) fn insert(&mut self, k: InputEvent, v: String)
        ensures
            link_contents(*final(self)) == link_contents(*old(self)).insert(k, v@),
    {
        self.map.insert(k, v);
    }

    /// `hashbrown::HashMap::iter`, each entry copied out: every entry of the map once, in the
    /// order in which the map is walked (which the map does not fix).
    #[verifier::external_body]
    pub(crate) fn entries(&self) -> (r: Vec<(InputEvent, String)>)
        ensures
            forall|i: int|
                0 <= i < r@.len() ==> link_contents(*self).contains_key(#[trigger] r@[i].0)
                    && link_contents(*self)[r@[i].0] == r@[i].1@,
            forall|k: InputEvent|
                link_contents(*self).contains_key(k) ==> exists|i: int| 0 <= i < r@.len() && #[trigger] r@[i].0 == k,
            forall|i: int, j: int| 0 <= i < j < r@.len() ==> r@[i].0 != r@[j].0,
    {
        self.map.iter().map(|(k, v)| (*k, v.clone())).collect()
    }
}

/// Open a link in a browser.
#[derive(Debug)]
pub struct LinksPanel {
    /// The links, by the input event that opens each.
    pub links: LinkMap,
    /// Remembers the panels that were active before this one.
    pub popup: Popup,
}

/// The links of the panel.
pub open spec fn spec_default_links() -> Map<InputEvent, Seq<char>> {
    map![
        InputEvent::WebsiteUrl => "https://subalterngames.com/cacophony"@,
        InputEvent::DiscordUrl => "https://discord.gg/fUapDXgTYj"@,
        InputEvent::GitHubUrl => "https://github.com/subalterngames/cacophony"@,
    ]
}

/// What the links panel says: the input that it takes, each phrase on its own.
pub open spec fn spec_links_speech(e: Seq<InputEvent>) -> Seq<Seq<PhraseModel>> {
    if e.contains(InputEvent::InputTTS) {
        spec_each(
            seq![
                spec_text("LINKS_PANEL_INPUT_TTS_0"@),
                spec_tip("LINKS_PANEL_INPUT_TTS_1"@, seq![InputEvent::WebsiteUrl]),
                spec_tip("LINKS_PANEL_INPUT_TTS_2"@, seq![InputEvent::DiscordUrl]),
                spec_tip("LINKS_PANEL_INPUT_TTS_2"@, seq![InputEvent::GitHubUrl]),
                spec_tip("LINKS_PANEL_INPUT_TTS_3"@, seq![InputEvent::CloseLinksPanel]),
            ],
        )
    } else {
        seq![]
    }
}

impl LinksPanel {
    /// The panel with the links to the website, the Discord server, and the source code.
    pub fn new() -> (r: LinksPanel)
        ensures
            link_contents(r.links) == spec_default_links(),
            r.popup.panels@ == Seq::<PanelType>::empty(),
            r.popup.focus == 0,
    {
        let mut links = LinkMap::new();
        links.insert(InputEvent::WebsiteUrl, String::from_str("https://subalterngames.com/cacophony"));
        links.insert(InputEvent::DiscordUrl, String::from_str("https://discord.gg/fUapDXgTYj"));
        links.insert(InputEvent::GitHubUrl, String::from_str("https://github.com/subalterngames/cacophony"));
        proof {
            assert(link_contents(links) =~= spec_default_links());
        }
        LinksPanel { links, popup: Popup::new() }
    }

    /// Show the links panel, alone.
    pub fn enable(&mut self, state: &mut State)
        ensures
            final(self).links == old(self).links,
            final(self).popup.focus == old(state).focus.index,
            final(self).popup.panels@ == old(state).panels@,
            final(state)@ == spec_with_panels(
                old(state)@,
                seq![PanelType::Links],
                Index { index: 0, length: 1 },
            ),
    {
        let mut panels: Vec<PanelType> = Vec::new();
        panels.push(PanelType::Links);
        proof {
            assert(panels@ =~= seq![PanelType::Links]);
        }
        self.popup.enable(state, panels);
    }

    /// The links whose events happened, each once, in the order in which the map is walked: the
    /// app opens the first one that it can. None are opened while the input is spoken.
    pub fn links_to_open(&self, input: &Input) -> (r: Vec<(InputEvent, String)>)
        ensures
            input.events@.contains(InputEvent::InputTTS) ==> r@.len() == 0,
            forall|i: int|
                0 <= i < r@.len() ==> input.events@.contains(#[trigger] r@[i].0) && link_contents(
                    self.links,
                ).contains_key(r@[i].0) && link_contents(self.links)[r@[i].0] == r@[i].1@,
            !input.events@.contains(InputEvent::InputTTS) ==> forall|k: InputEvent|
                link_contents(self.links).contains_key(k) && input.events@.contains(k) ==> exists|i: int|
                    0 <= i < r@.len() && #[trigger] r@[i].0 == k,
            forall|i: int, j: int| 0 <= i < j < r@.len() ==> r@[i].0 != r@[j].0,
    {
        let mut r: Vec<(InputEvent, String)> = Vec::new();
        if input.happened(InputEvent::InputTTS) {
            return r;
        }
        let entries = self.links.entries();
        let n = entries.len();
        let ghost mut idx: Seq<int> = Seq::empty();
        for i in 0..n
            invariant
                n == entries@.len(),
                forall|a: int|
                    0 <= a < entries@.len() ==> link_contents(self.links).contains_key(#[trigger] entries@[a].0)
                        && link_contents(self.links)[entries@[a].0] == entries@[a].1@,
                forall|a: int, b: int| 0 <= a < b < entries@.len() ==> entries@[a].0 != entries@[b].0,
                idx.len() == r@.len(),
                forall|a: int| 0 <= a < r@.len() ==> 0 <= #[trigger] idx[a] < i && r@[a] == entries@[idx[a]],
                forall|a: int, b: int| 0 <= a < b < r@.len() ==> idx[a] < idx[b],
                forall|a: int| 0 <= a < r@.len() ==> input.events@.contains(#[trigger] r@[a].0),
                forall|b: int|
                    0 <= b < i && input.events@.contains(#[trigger] entries@[b].0) ==> exists|a: int|
                        0 <= a < r@.len() && idx[a] == b,
        {
            let (k, v) = &entries[i];
            if input.happened(*k) {
                let url = v.clone();
                let ghost idx0 = idx;
                let ghost len0 = r@.len();
                r.push((*k, url));
                proof {
                    idx = idx.push(i as int);
                    assert forall|b: int|
                        0 <= b < i + 1 && input.events@.contains(#[trigger] entries@[b].0) implies exists|a: int|
                        0 <= a < r@.len() && idx[a] == b by {
                        if b == i {
                            assert(idx[r@.len() - 1] == b);
                        } else {
                            let a = choose|a: int| 0 <= a < len0 && idx0[a] == b;
                            assert(idx[a] == b);
                        }
                    }
                }
            }
        }
        proof {
            assert forall|a: int| 0 <= a < r@.len() implies link_contents(self.links).contains_key(#[trigger] r@[a].0)
                && link_contents(self.links)[r@[a].0] == r@[a].1@ by {
                assert(r@[a] == entries@[idx[a]]);
            }
            assert forall|a: int, b: int| 0 <= a < b < r@.len() implies r@[a].0 != r@[b].0 by {
                assert(r@[a] == entries@[idx[a]]);
                assert(r@[b] == entries@[idx[b]]);
            }
        }
        proof {
            assert forall|k: InputEvent|
                link_contents(self.links).contains_key(k) && input.events@.contains(k) implies exists|i: int|
                0 <= i < r@.len() && #[trigger] r@[i].0 == k by {
                let b = choose|b: int| 0 <= b < entries@.len() && #[trigger] entries@[b].0 == k;
                assert(input.events@.contains(entries@[b].0));
                let a = choose|a: int| 0 <= a < r@.len() && idx[a] == b;
                assert(r@[a] == entries@[idx[a]]);
            }
        }
        r
    }

    /// What the links panel says in a frame of input.
    pub fn speech(&self, input: &Input) -> (r: Vec<Utterance>)
        ensures
            speech_view(r@) == spec_links_speech(input.events@),
    {
        let mut r = silence();
        if input.happened(InputEvent::InputTTS) {
            add_phrase(&mut r, text("LINKS_PANEL_INPUT_TTS_0"));
            add_phrase(&mut r, tip("LINKS_PANEL_INPUT_TTS_1", ev1(InputEvent::WebsiteUrl)));
            add_phrase(&mut r, tip("LINKS_PANEL_INPUT_TTS_2", ev1(InputEvent::DiscordUrl)));
            add_phrase(&mut r, tip("LINKS_PANEL_INPUT_TTS_2", ev1(InputEvent::GitHubUrl)));
            add_phrase(&mut r, tip("LINKS_PANEL_INPUT_TTS_3", ev1(InputEvent::CloseLinksPanel)));
            proof {
                assert(speech_view(r@) =~= spec_links_speech(input.events@));
            }
        }
        r
    }

    /// Apply a frame of input: unless the input is spoken or a link was opened, close the panel
    /// on request. `opened` says whether the app opened one of the links to open.
    pub fn update(&self, state: &mut State, input: &Input, opened: bool)
        ensures
            !input.events@.contains(InputEvent::InputTTS) && !opened && input.events@.contains(
                InputEvent::CloseLinksPanel,
            ) ==> final(state)@ == spec_with_panels(
                old(state)@,
                self.popup.panels@,
                Index { index: self.popup.focus, length: self.popup.panels@.len() as usize },
            ),
            !(!input.events@.contains(InputEvent::InputTTS) && !opened && input.events@.contains(
                InputEvent::CloseLinksPanel,
            )) ==> final(state)@ == old(state)@,
    {
        if !input.happened(InputEvent::InputTTS) && !opened && input.happened(InputEvent::CloseLinksPanel) {
            self.popup.disable(state);
        }
    }
}

} // verus!
