use vstd::prelude::*;
use crate::index::Index;
use crate::input::{Input, InputEvent};
use crate::model::{PanelType, State, StateModel};
use crate::snapshot::{one_io_command, opt_snapshot_view, spec_snap_io, IOCommand, Snapshot};
use crate::speech::{add_phrase, ev2, silence, speech_view, spec_tip, tip, PhraseModel, Utterance};

verus! {

/// A popup stores the panels that were active before it was enabled, and re-enables them when
/// it is disabled.
#[derive(Debug)]
pub struct Popup {
    /// The index of the panel that had focus prior to this popup being enabled.
    pub focus: usize,
    /// The active panels prior to this popup being enabled.
    pub panels: Vec<PanelType>,
}

/// The mathematical value of a popup.
#[verifier::ext_equal]
pub struct PopupModel {
    pub focus: usize,
    pub panels: Seq<PanelType>,
}

impl View for Popup {
    type V = PopupModel;

    open spec fn view(&self) -> PopupModel {
        PopupModel { focus: self.focus, panels: self.panels@ }
    }
}

/// The state after a popup is disabled: the panels and the focus it remembered are restored.
pub open spec fn spec_popup_closed(p: PopupModel, st: StateModel) -> StateModel {
    spec_with_panels(st, p.panels, Index { index: p.focus, length: p.panels.len() as usize })
}

/// The state with only its active panels and focus replaced.
pub open spec fn spec_with_panels(st: StateModel, panels: Seq<PanelType>, focus: Index) -> StateModel {
    StateModel { panels, focus, ..st }
}

impl Popup {
    pub fn new() -> (r: Popup)
        ensures
            r.focus == 0,
            r.panels@ == Seq::<PanelType>::empty(),
    {
        let r = Popup { focus: 0, panels: Vec::new() };
        proof {
            assert(r.panels@ =~= Seq::<PanelType>::empty());
        }
        r
    }

    /// Enable the popup: remember the active panels and the focus, then make `panels` the
    /// active panels with the focus on the first of them.
    pub fn enable(&mut self, state: &mut State, panels: Vec<PanelType>)
        ensures
            final(self).focus == old(state).focus.index,
            final(self).panels@ == old(state).panels@,
            final(state)@ == spec_with_panels(
                old(state)@,
                panels@,
                Index { index: 0, length: panels@.len() as usize },
            ),
    {
        self.focus = state.focus.get();
        self.panels = state.panels.clone();
        proof {
            assert(self.panels@ =~= old(state).panels@);
        }
        let n = panels.len();
        state.panels = panels;
        state.focus = Index::new(0, n);
    }

    /// Disable the popup: restore the panels and the focus it remembered.
    pub fn disable(&self, state: &mut State)
        ensures
            final(state)@ == spec_with_panels(
                old(state)@,
                self.panels@,
                Index { index: self.focus, length: self.panels@.len() as usize },
            ),
    {
        state.panels = self.panels.clone();
        proof {
            assert(state.panels@ =~= self.panels@);
        }
        state.focus = Index::new(self.focus, self.panels.len());
    }
}

/// Disabling a popup right after enabling it gives back the state from before, when its focus
/// indexes its panels.
pub proof fn lemma_enable_then_disable(st: StateModel, panels: Seq<PanelType>)
    requires
        st.focus.length == st.panels.len(),
    ensures
        spec_with_panels(
            spec_with_panels(st, panels, Index { index: 0, length: panels.len() as usize }),
            st.panels,
            Index { index: st.focus.index, length: st.panels.len() as usize },
        ) == st,
{
}

/// Are you sure you want to quit?
#[derive(Debug)]
pub struct QuitPanel {
    pub popup: Popup,
}

/// One vector with one panel.
fn one_panel(p: PanelType) -> (r: Vec<PanelType>)
    ensures
        r@ == seq![p],
{
    let mut v = Vec::new();
    v.push(p);
    proof {
        assert(v@ =~= seq![p]);
    }
    v
}

/// What the quit panel says: unless asked to quit, the input that it takes.
pub open spec fn spec_quit_speech(e: Seq<InputEvent>) -> Seq<Seq<PhraseModel>> {
    if !e.contains(InputEvent::QuitPanelYes) && e.contains(InputEvent::InputTTS) {
        seq![seq![spec_tip("QUIT_PANEL_INPUT_TTS"@, seq![InputEvent::QuitPanelNo, InputEvent::QuitPanelYes])]]
    } else {
        seq![]
    }
}

impl QuitPanel {
    pub fn new() -> (r: QuitPanel)
        ensures
            r.popup.panels@ == Seq::<PanelType>::empty(),
    {
        QuitPanel { popup: Popup::new() }
    }

    /// Show the quit panel, alone.
    pub fn enable(&mut self, state: &mut State)
        ensures
            final(self).popup.focus == old(state).focus.index,
            final(self).popup.panels@ == old(state).panels@,
            final(state)@ == spec_with_panels(
                old(state)@,
                seq![PanelType::Quit],
                Index { index: 0, length: 1 },
            ),
    {
        self.popup.enable(state, one_panel(PanelType::Quit));
    }

    /// What the quit panel says in a frame of input.
    pub fn speech(&self, input: &Input) -> (r: Vec<Utterance>)
        ensures
            speech_view(r@) == spec_quit_speech(input.events@),
    {
        let mut r = silence();
        if !input.happened(InputEvent::QuitPanelYes) && input.happened(InputEvent::InputTTS) {
            add_phrase(&mut r, tip("QUIT_PANEL_INPUT_TTS", ev2(InputEvent::QuitPanelNo, InputEvent::QuitPanelYes)));
            proof {
                assert(speech_view(r@) =~= spec_quit_speech(input.events@));
            }
        }
        r
    }

    /// Apply a frame of input: quit on "yes" (a snapshot that holds the command to quit), or
    /// close the panel on "no". What the panel says comes from `speech`.
    pub fn update(&self, state: &mut State, input: &Input) -> (r: Option<Snapshot>)
        ensures
            input.events@.contains(InputEvent::QuitPanelYes) ==> final(state)@ == old(state)@
                && opt_snapshot_view(r) == Some(spec_snap_io(seq![IOCommand::Quit])),
            !input.events@.contains(InputEvent::QuitPanelYes) ==> r is None,
            !input.events@.contains(InputEvent::QuitPanelYes) && !input.events@.contains(InputEvent::InputTTS)
                && input.events@.contains(InputEvent::QuitPanelNo) ==> final(state)@ == spec_with_panels(
                old(state)@,
                self.popup.panels@,
                Index { index: self.popup.focus, length: self.popup.panels@.len() as usize },
            ),
            !(!input.events@.contains(InputEvent::QuitPanelYes) && !input.events@.contains(InputEvent::InputTTS)
                && input.events@.contains(InputEvent::QuitPanelNo)) ==> final(state)@ == old(state)@,
    {
        if input.happened(InputEvent::QuitPanelYes) {
            Some(Snapshot::from_io_commands(one_io_command(IOCommand::Quit)))
        } else {
            if !input.happened(InputEvent::InputTTS) && input.happened(InputEvent::QuitPanelNo) {
                self.popup.disable(state);
            }
            None
        }
    }
}

/// The panel shown while audio is being exported.
#[derive(Debug)]
pub struct ExportPanel {
    /// The panels that were active before the export.
    pub panels: Vec<PanelType>,
    /// The focus before the export.
    pub focus: usize,
}

/// The mathematical value of the export panel.
#[verifier::ext_equal]
pub struct ExportPanelModel {
    pub panels: Seq<PanelType>,
    pub focus: usize,
}

impl View for ExportPanel {
    type V = ExportPanelModel;

    open spec fn view(&self) -> ExportPanelModel {
        ExportPanelModel { panels: self.panels@, focus: self.focus }
    }
}

impl ExportPanel {
    pub fn new() -> (r: ExportPanel)
        ensures
            r.panels@ == Seq::<PanelType>::empty(),
            r.focus == 0,
    {
        let r = ExportPanel { panels: Vec::new(), focus: 0 };
        proof {
            assert(r.panels@ =~= Seq::<PanelType>::empty());
        }
        r
    }

    /// Enable this panel, alone, and remember the panels and the focus to restore afterwards.
    pub fn enable(&mut self, state: &mut State, panels: &Vec<PanelType>, focus: usize)
        ensures
            final(self).panels@ == panels@,
            final(self).focus == focus,
            final(state)@ == spec_with_panels(
                old(state)@,
                seq![PanelType::ExportState],
                Index { index: 0, length: old(state).focus.length },
            ),
    {
        self.panels = panels.clone();
        proof {
            assert(self.panels@ =~= panels@);
        }
        self.focus = focus;
        state.panels = one_panel(PanelType::ExportState);
        state.focus.set(0);
    }

    /// Once the export is over, restore the panels and the focus from before it.
    /// `exporting` says whether the export is still running.
    pub fn update(&mut self, state: &mut State, exporting: bool)
        ensures
            final(self).panels@ == old(self).panels@,
            final(self).focus == old(self).focus,
            final(state)@ == if exporting {
                old(state)@
            } else {
                spec_with_panels(
                    old(state)@,
                    old(self).panels@,
                    Index { index: old(self).focus, length: old(state).focus.length },
                )
            },
    {
        if !exporting {
            state.panels = self.panels.clone();
            proof {
                assert(state.panels@ =~= self.panels@);
            }
            state.focus.set(self.focus);
        }
    }
}

} // verus!
