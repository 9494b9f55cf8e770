use vstd::prelude::*;
use crate::abc123::{spec_edit_number, spec_edit_text, spec_exporter_typed, spec_title_defaulted, MetadataField};
use crate::tracks::spec_select_track;
use crate::export_settings::{
    spec_export_settings_fits, spec_export_settings_speech, spec_export_settings_update, spec_metadata_field,
    ExportSettingsPanel,
};
use crate::exporter::{Exporter, ExporterModel};
use crate::history::{spec_push_bounded, History, HistoryModel};
use crate::index::Index;
use crate::input::{lemma_only_event, Input, InputEvent};
use crate::links::{link_contents, spec_links_speech, LinksPanel};
use crate::model::{InputState, MusicPanelField, PanelType, State, StateModel, TimeState, DEFAULT_BPM};
use crate::music_panel::{spec_field, spec_music_abc123, spec_music_speech, spec_music_update, MusicPanel};
use crate::open_file::{
    spec_open_file_panels, spec_open_file_speech, spec_open_file_update, spec_type_extension, Extension, FileBrowser,
    FileBrowserModel, Folder, Listing, OpenFileAction, OpenFileActionModel, OpenFileModel, OpenFilePanel,
};
use crate::piano_roll::panel::{
    spec_piano_roll_fits, spec_piano_roll_speech, spec_piano_roll_update, spec_track, PianoRollModel, PianoRollPanel,
};
use crate::popup::{
    spec_popup_closed, spec_quit_speech, spec_with_panels, ExportPanel, ExportPanelModel, PopupModel, QuitPanel,
};
use crate::snapshot::{
    commands_view, opt_snapshot_view, spec_snap_io, spec_snap_states, Command, CommandModel, IOCommand,
    OpenFileType, Snapshot, SnapshotModel,
};
use crate::synth::SynthState;
use crate::tracks::{spec_tracks_speech, spec_tracks_update, TracksPanel};
use crate::speech::{
    add_phrase, ev1, ev2, ev3, silence, speech_view, spec_each, spec_text, spec_tip, text, tip, PhraseModel, Utterance,
};

verus! {

broadcast use vstd::std_specs::hash::group_hash_axioms;

/// What the app does after a frame of input has been applied.
#[derive(Debug)]
pub enum IOEffect {
    /// Send these commands to the synthesizer.
    Commands(Vec<Command>),
    /// Play the notes that were pressed in this frame.
    PlayNotes,
    /// Stop the notes that were released in this frame.
    StopNotes,
    /// Forget the name of the save file: this is a new file.
    NewFile,
    /// Write the save file to the path it was last read from or written to.
    Save,
    /// List the files of a folder in the open-file panel.
    List(Listing),
    /// Open the config file in an editor.
    EditConfig,
    /// Start exporting audio.
    StartExport,
    /// Start or stop playing the music.
    PlayStop,
    /// Do what the open-file panel asked of the file browser.
    File(OpenFileAction),
    /// Try to open the links of the links panel whose events happened, then let the links panel
    /// finish the frame.
    OpenLinks,
    /// Stop speaking, and forget what was to be said.
    StopSpeech,
    /// Say these utterances, in order.
    Speak(Vec<Utterance>),
}

/// The mathematical value of an effect.
pub enum IOEffectModel {
    Commands(Seq<CommandModel>),
    PlayNotes,
    StopNotes,
    NewFile,
    Save,
    List(Listing),
    EditConfig,
    StartExport,
    PlayStop,
    File(OpenFileActionModel),
    OpenLinks,
    StopSpeech,
    Speak(Seq<Seq<PhraseModel>>),
}

impl View for IOEffect {
    type V = IOEffectModel;

    open spec fn view(&self) -> IOEffectModel {
        match self {
            IOEffect::Commands(c) => IOEffectModel::Commands(commands_view(c@)),
            IOEffect::PlayNotes => IOEffectModel::PlayNotes,
            IOEffect::StopNotes => IOEffectModel::StopNotes,
            IOEffect::NewFile => IOEffectModel::NewFile,
            IOEffect::Save => IOEffectModel::Save,
            IOEffect::List(l) => IOEffectModel::List(*l),
            IOEffect::EditConfig => IOEffectModel::EditConfig,
            IOEffect::StartExport => IOEffectModel::StartExport,
            IOEffect::PlayStop => IOEffectModel::PlayStop,
            IOEffect::File(a) => IOEffectModel::File(a@),
            IOEffect::OpenLinks => IOEffectModel::OpenLinks,
            IOEffect::StopSpeech => IOEffectModel::StopSpeech,
            IOEffect::Speak(u) => IOEffectModel::Speak(speech_view(u@)),
        }
    }
}

/// The views of a list of effects.
pub open spec fn effects_view(s: Seq<IOEffect>) -> Seq<IOEffectModel> {
    s.map_values(|x: IOEffect| x@)
}

/// Append an effect.
fn push_effect(effects: &mut Vec<IOEffect>, x: IOEffect)
    ensures
        effects_view(final(effects)@) == effects_view(old(effects)@).push(x@),
{
    let ghost e0 = effects@;
    effects.push(x);
    proof {
        assert(effects_view(effects@) =~= effects_view(e0).push(x@));
    }
}

/// The mathematical value of the `IO` struct.
#[verifier::ext_equal]
pub struct IOModel {
    pub history: HistoryModel,
    pub tracks_soundfont: Seq<char>,
    pub open_file: OpenFileModel,
    pub piano_roll: PianoRollModel,
    pub export_panel: ExportPanelModel,
    pub quit_popup: PopupModel,
    pub links: Map<InputEvent, Seq<char>>,
    pub links_popup: PopupModel,
    pub pre_export_panels: Seq<PanelType>,
    pub pre_export_focus: usize,
}

/// The panels, the undo and redo stacks, and what the app had before exporting.
#[derive(Debug)]
pub struct IO {
    /// The undo and redo stacks.
    pub history: History,
    pub music_panel: MusicPanel,
    pub tracks_panel: TracksPanel,
    pub open_file_panel: OpenFilePanel,
    pub piano_roll_panel: PianoRollPanel,
    pub export_panel: ExportPanel,
    pub export_settings_panel: ExportSettingsPanel,
    pub quit_panel: QuitPanel,
    pub links_panel: LinksPanel,
    /// The active panels prior to exporting audio.
    pub pre_export_panels: Vec<PanelType>,
    /// The index of the focused panel prior to exporting audio.
    pub pre_export_focus: usize,
}

impl View for IO {
    type V = IOModel;

    open spec fn view(&self) -> IOModel {
        IOModel {
            history: self.history@,
            tracks_soundfont: self.tracks_panel.default_soundfont_path@,
            open_file: self.open_file_panel@,
            piano_roll: self.piano_roll_panel@,
            export_panel: self.export_panel@,
            quit_popup: self.quit_panel.popup@,
            links: link_contents(self.links_panel.links),
            links_popup: self.links_panel.popup@,
            pre_export_panels: self.pre_export_panels@,
            pre_export_focus: self.pre_export_focus,
        }
    }
}

/// The focused panel.
pub open spec fn spec_focused(st: StateModel) -> PanelType {
    st.panels[st.focus.index as int]
}

/// Does the panel allow typing to be toggled?
pub open spec fn spec_allow_abc123(panel: PanelType, st: StateModel, ex: ExporterModel) -> bool {
    match panel {
        PanelType::ExportSettings => spec_metadata_field(ex.current_settings().current()) is Some,
        PanelType::Music => spec_field(st) != MusicPanelField::Gain,
        _ => false,
    }
}

/// Can music be played while the panel has focus?
pub open spec fn spec_allow_play(panel: PanelType) -> bool {
    panel == PanelType::Music || panel == PanelType::PianoRoll || panel == PanelType::Tracks
}

/// What a panel does when typing ends.
pub open spec fn spec_on_disable(panel: PanelType, st: StateModel, ex: ExporterModel) -> (StateModel, ExporterModel) {
    match panel {
        PanelType::ExportSettings => (
            st,
            if ex.current_settings().current() == crate::exporter::ExportSetting::Title {
                spec_title_defaulted(ex)
            } else {
                ex
            },
        ),
        PanelType::Music => (
            if spec_field(st) == MusicPanelField::BPM && st.time.bpm == 0 {
                StateModel { time: TimeState { bpm: DEFAULT_BPM, ..st.time }, ..st }
            } else {
                st
            },
            if spec_field(st) == MusicPanelField::Name {
                spec_title_defaulted(ex)
            } else {
                ex
            },
        ),
        _ => (st, ex),
    }
}

/// What typing does in a panel: the new state and export settings, the snapshot made, if any,
/// and whether anything changed.
pub open spec fn spec_update_abc123(
    panel: PanelType,
    st: StateModel,
    ex: ExporterModel,
    typed: Seq<char>,
    backspace: bool,
) -> (StateModel, ExporterModel, Option<SnapshotModel>, bool) {
    match panel {
        PanelType::ExportSettings => {
            let (ex1, c) = match spec_metadata_field(ex.current_settings().current()) {
                Some(f) => spec_exporter_typed(f, ex, typed, backspace),
                None => (ex, false),
            };
            (st, ex1, None, c)
        },
        PanelType::Music => spec_music_abc123(st, ex, typed, backspace),
        _ => (st, ex, None, false),
    }
}

/// The files that the open-file panel lists when it is shown for a kind of file.
pub open spec fn spec_listing(t: OpenFileType, ex: ExporterModel) -> Listing {
    match t {
        OpenFileType::ReadSave => Listing { folder: Folder::Saves, extension: Extension::Cac },
        OpenFileType::WriteSave => Listing { folder: Folder::Midis, extension: Extension::Cac },
        OpenFileType::SoundFont => Listing { folder: Folder::SoundFonts, extension: Extension::Sf2 },
        OpenFileType::ImportMidi => Listing { folder: Folder::Midis, extension: Extension::Mid },
        OpenFileType::Export => Listing {
            folder: Folder::Exports,
            extension: spec_type_extension(ex.current_type()),
        },
    }
}

/// Show the open-file panel for a kind of file: the new `IO`, the new state, and the files to
/// list.
pub open spec fn spec_opened(io: IOModel, st: StateModel, ex: ExporterModel, t: OpenFileType) -> (IOModel, StateModel, Seq<IOEffectModel>) {
    (
        IOModel {
            open_file: OpenFileModel {
                popup: PopupModel { focus: st.focus.index, panels: st.panels },
                open_file_type: t,
            },
            ..io
        },
        spec_with_panels(
            st,
            spec_open_file_panels(t),
            Index { index: 0, length: spec_open_file_panels(t).len() as usize },
        ),
        seq![IOEffectModel::List(spec_listing(t, ex))],
    )
}

/// What one command for the `IO` struct (other than quitting) does.
pub open spec fn spec_apply_one(io: IOModel, st: StateModel, ex: ExporterModel, c: IOCommand) -> (IOModel, StateModel, Seq<IOEffectModel>) {
    match c {
        IOCommand::EnableOpenFile(t) => if t == OpenFileType::Export {
            (io, st, seq![])
        } else {
            spec_opened(io, st, ex, t)
        },
        IOCommand::Export => (
            IOModel {
                export_panel: ExportPanelModel { panels: io.pre_export_panels, focus: io.pre_export_focus },
                ..io
            },
            spec_with_panels(st, seq![PanelType::ExportState], Index { index: 0, length: st.focus.length }),
            seq![IOEffectModel::StartExport],
        ),
        IOCommand::CloseOpenFile => (io, spec_popup_closed(io.open_file.popup, st), seq![]),
        IOCommand::Quit => (io, st, seq![]),
    }
}

/// What a list of commands for the `IO` struct does, in order, until one of them quits. Returns
/// the new `IO`, the new state, the effects, and whether to quit.
pub open spec fn spec_apply_io(io: IOModel, st: StateModel, ex: ExporterModel, cmds: Seq<IOCommand>) -> (
    IOModel,
    StateModel,
    Seq<IOEffectModel>,
    bool,
)
    decreases cmds.len(),
{
    if cmds.len() == 0 {
        (io, st, seq![], false)
    } else if cmds[0] == IOCommand::Quit {
        (io, st, seq![], true)
    } else {
        let (io1, st1, e1) = spec_apply_one(io, st, ex, cmds[0]);
        let (io2, st2, e2, q) = spec_apply_io(io1, st1, ex, cmds.subrange(1, cmds.len() as int));
        (io2, st2, e1 + e2, q)
    }
}

/// What applying a snapshot does: its commands for the synthesizer are sent, its commands for
/// the `IO` struct are run, and a change of state or of the synthesizer goes on the undo stack
/// (and marks the music as having unsaved changes). Returns the new `IO`, the new state, the
/// effects, whether there was a snapshot, and whether to quit.
pub open spec fn spec_apply_snapshot(io: IOModel, st: StateModel, ex: ExporterModel, snap: Option<SnapshotModel>) -> (
    IOModel,
    StateModel,
    Seq<IOEffectModel>,
    bool,
    bool,
) {
    match snap {
        None => (io, st, seq![], false, false),
        Some(s) => {
            let e0 = match s.to_commands {
                Some(c) => seq![IOEffectModel::Commands(c)],
                None => seq![],
            };
            let (io1, st1, e1, q) = match s.io_commands {
                Some(cmds) => spec_apply_io(io, st, ex, cmds),
                None => (io, st, seq![], false),
            };
            if q {
                (io1, st1, e0 + e1, false, true)
            } else if s.from_state is Some || s.from_commands is Some {
                (
                    IOModel {
                        history: HistoryModel { undo: spec_push_bounded(io1.history.undo, s), redo: seq![] },
                        ..io1
                    },
                    StateModel { unsaved_changes: true, ..st1 },
                    e0 + e1,
                    true,
                    false,
                )
            } else {
                (io1, st1, e0 + e1, true, false)
            }
        },
    }
}

impl IO {
    /// Does the panel allow typing to be toggled?
    fn allow_alphanumeric_input(&self, panel: PanelType, state: &State, exporter: &Exporter) -> (r: bool)
        requires
            exporter@.wf(),
        ensures
            r == spec_allow_abc123(panel, state@, exporter@),
    {
        match panel {
            PanelType::ExportSettings => self.export_settings_panel.allow_alphanumeric_input(exporter),
            PanelType::Music => self.music_panel.allow_alphanumeric_input(state),
            _ => false,
        }
    }

    /// Can music be played while the panel has focus?
    fn allow_play_music(panel: PanelType) -> (r: bool)
        ensures
            r == spec_allow_play(panel),
    {
        match panel {
            PanelType::Music | PanelType::PianoRoll | PanelType::Tracks => true,
            _ => false,
        }
    }

    /// What a panel does when typing ends.
    fn on_disable_abc123(&self, panel: PanelType, state: &mut State, exporter: &mut Exporter)
        requires
            old(exporter)@.wf(),
        ensures
            (final(state)@, final(exporter)@) == spec_on_disable(panel, old(state)@, old(exporter)@),
    {
        match panel {
            PanelType::ExportSettings => self.export_settings_panel.on_disable_abc123(exporter),
            PanelType::Music => self.music_panel.on_disable_abc123(state, exporter),
            _ => {},
        }
    }

    /// Apply a frame of typing to the focused panel.
    fn update_abc123(&self, panel: PanelType, state: &mut State, exporter: &mut Exporter, input: &Input) -> (r: (
        Option<Snapshot>,
        bool,
    ))
        requires
            old(exporter)@.wf(),
            panel == PanelType::Music && spec_field(old(state)@) == MusicPanelField::BPM ==> spec_edit_number(
                old(state).time.bpm,
                input.typed@,
                input.backspace,
            ).0 <= u64::MAX,
        ensures
            (final(state)@, final(exporter)@, opt_snapshot_view(r.0), r.1) == spec_update_abc123(
                panel,
                old(state)@,
                old(exporter)@,
                input.typed@,
                input.backspace,
            ),
    {
        match panel {
            PanelType::ExportSettings => (None, self.export_settings_panel.update_abc123(exporter, input)),
            PanelType::Music => self.music_panel.update_abc123(state, exporter, input),
            _ => (None, false),
        }
    }

    /// Show the open-file panel for a kind of file (other than exporting) and ask for its files
    /// to be listed.
    fn open_file(&mut self, t: OpenFileType, state: &mut State, exporter: &Exporter, effects: &mut Vec<IOEffect>)
        requires
            t != OpenFileType::Export,
        ensures
            (final(self)@, final(state)@) == ({
                let r = spec_opened(old(self)@, old(state)@, exporter@, t);
                (r.0, r.1)
            }),
            effects_view(final(effects)@) == effects_view(old(effects)@) + spec_opened(
                old(self)@,
                old(state)@,
                exporter@,
                t,
            ).2,
    {
        let ghost io0 = self@;
        let ghost st0 = state@;
        let ghost e0 = effects_view(effects@);
        let listing = match t {
            OpenFileType::ReadSave => self.open_file_panel.read_save(state),
            OpenFileType::WriteSave => self.open_file_panel.write_save(state),
            OpenFileType::SoundFont => self.open_file_panel.soundfont(state),
            _ => self.open_file_panel.import_midi(state),
        };
        push_effect(effects, IOEffect::List(listing));
        proof {
            assert(self@ =~= spec_opened(io0, st0, exporter@, t).0);
            assert(effects_view(effects@) =~= e0 + spec_opened(io0, st0, exporter@, t).2);
        }
    }

    /// Run one command for the `IO` struct (other than quitting).
    fn apply_one(&mut self, c: IOCommand, state: &mut State, exporter: &Exporter, effects: &mut Vec<IOEffect>)
        requires
            c != IOCommand::Quit,
        ensures
            (final(self)@, final(state)@) == ({
                let r = spec_apply_one(old(self)@, old(state)@, exporter@, c);
                (r.0, r.1)
            }),
            effects_view(final(effects)@) == effects_view(old(effects)@) + spec_apply_one(
                old(self)@,
                old(state)@,
                exporter@,
                c,
            ).2,
    {
        let ghost e0 = effects_view(effects@);
        let ghost io0 = self@;
        match c {
            IOCommand::EnableOpenFile(t) => {
                if t != OpenFileType::Export {
                    self.open_file(t, state, exporter, effects);
                } else {
                    proof {
                        assert(effects_view(effects@) =~= e0 + seq![]);
                    }
                }
            },
            IOCommand::Export => {
                self.export_panel.enable(state, &self.pre_export_panels, self.pre_export_focus);
                push_effect(effects, IOEffect::StartExport);
                proof {
                    assert(self@ =~= spec_apply_one(io0, old(state)@, exporter@, c).0);
                    assert(effects_view(effects@) =~= e0 + seq![IOEffectModel::StartExport]);
                }
            },
            IOCommand::CloseOpenFile => {
                self.open_file_panel.disable(state);
                proof {
                    assert(effects_view(effects@) =~= e0 + seq![]);
                }
            },
            IOCommand::Quit => {},
        }
    }

    /// Run the commands for the `IO` struct in order, until one of them quits. Returns true if
    /// one did.
    fn apply_io(&mut self, cmds: &Vec<IOCommand>, state: &mut State, exporter: &Exporter, effects: &mut Vec<IOEffect>) -> (quit: bool)
        ensures
            ({
                let r = spec_apply_io(old(self)@, old(state)@, exporter@, cmds@);
                &&& final(self)@ == r.0
                &&& final(state)@ == r.1
                &&& effects_view(final(effects)@) == effects_view(old(effects)@) + r.2
                &&& quit == r.3
            }),
    {
        let ghost io0 = self@;
        let ghost st0 = state@;
        let ghost e0 = effects_view(effects@);
        let n = cmds.len();
        proof {
            assert(cmds@.subrange(0, n as int) =~= cmds@);
            assert(effects_view(effects@) =~= e0);
        }
        let mut i: usize = 0;
        let mut quit = false;
        while i < n && !quit
            invariant
                n == cmds@.len(),
                i <= n,
                !quit ==> ({
                    let whole = spec_apply_io(io0, st0, exporter@, cmds@);
                    let rest = spec_apply_io(self@, state@, exporter@, cmds@.subrange(i as int, n as int));
                    &&& whole.0 == rest.0
                    &&& whole.1 == rest.1
                    &&& whole.3 == rest.3
                    &&& e0 + whole.2 == effects_view(effects@) + rest.2
                }),
                quit ==> ({
                    let whole = spec_apply_io(io0, st0, exporter@, cmds@);
                    &&& whole.0 == self@
                    &&& whole.1 == state@
                    &&& whole.3
                    &&& e0 + whole.2 == effects_view(effects@)
                }),
            decreases n - i + (if quit { 0int } else { 1int }),
        {
            let ghost rest = cmds@.subrange(i as int, n as int);
            proof {
                assert(rest[0] == cmds@[i as int]);
                assert(rest.subrange(1, rest.len() as int) =~= cmds@.subrange(i + 1, n as int));
            }
            let c = cmds[i];
            if c == IOCommand::Quit {
                proof {
                    let r = spec_apply_io(self@, state@, exporter@, rest);
                    assert(r == (self@, state@, Seq::<IOEffectModel>::empty(), true));
                    assert(effects_view(effects@) + Seq::<IOEffectModel>::empty() =~= effects_view(effects@));
                }
                quit = true;
            } else {
                let ghost io1 = self@;
                let ghost st1 = state@;
                let ghost ev1 = effects_view(effects@);
                self.apply_one(c, state, exporter, effects);
                proof {
                    let one = spec_apply_one(io1, st1, exporter@, c);
                    let tail = spec_apply_io(self@, state@, exporter@, cmds@.subrange(i + 1, n as int));
                    assert(ev1 + (one.2 + tail.2) =~= (ev1 + one.2) + tail.2);
                }
                i = i + 1;
            }
        }
        proof {
            if !quit {
                assert(cmds@.subrange(n as int, n as int) =~= Seq::<IOCommand>::empty());
                assert(effects_view(effects@) + seq![] =~= effects_view(effects@));
            }
        }
        quit
    }

    /// Apply a snapshot: send its commands for the synthesizer, run its commands for the `IO`
    /// struct, and put a change of state or of the synthesizer on the undo stack. Returns
    /// whether there was a snapshot and whether to quit.
    fn apply_snapshot(&mut self, snapshot: Option<Snapshot>, state: &mut State, exporter: &Exporter, effects: &mut Vec<IOEffect>) -> (r: (
        bool,
        bool,
    ))
        ensures
            ({
                let s = spec_apply_snapshot(old(self)@, old(state)@, exporter@, opt_snapshot_view(snapshot));
                &&& final(self)@ == s.0
                &&& final(state)@ == s.1
                &&& effects_view(final(effects)@) == effects_view(old(effects)@) + s.2
                &&& r == (s.3, s.4)
            }),
    {
        let ghost io0 = self@;
        let ghost st0 = state@;
        let ghost ev0 = effects_view(effects@);
        match snapshot {
            None => {
                proof {
                    assert(effects_view(effects@) =~= ev0 + seq![]);
                }
                (false, false)
            },
            Some(snapshot) => {
                let ghost s = snapshot@;
                match &snapshot.to_commands {
                    Some(c) => {
                        push_effect(effects, IOEffect::Commands(crate::snapshot::duplicate_commands(c)));
                    },
                    None => {},
                }
                let ghost ev1 = effects_view(effects@);
                proof {
                    let e0 = match s.to_commands {
                        Some(c) => seq![IOEffectModel::Commands(c)],
                        None => seq![],
                    };
                    assert(ev1 =~= ev0 + e0);
                }
                let quit = match &snapshot.io_commands {
                    Some(cmds) => self.apply_io(cmds, state, exporter, effects),
                    None => {
                        proof {
                            assert(effects_view(effects@) =~= ev1 + seq![]);
                        }
                        false
                    },
                };
                proof {
                    let e0 = match s.to_commands {
                        Some(c) => seq![IOEffectModel::Commands(c)],
                        None => seq![],
                    };
                    let r1 = match s.io_commands {
                        Some(cmds) => spec_apply_io(io0, st0, exporter@, cmds),
                        None => (io0, st0, seq![], false),
                    };
                    assert(effects_view(effects@) =~= ev0 + (e0 + r1.2));
                }
                if quit {
                    return (false, true);
                }
                if snapshot.from_state.is_some() || snapshot.from_commands.is_some() {
                    state.unsaved_changes = true;
                    self.history.push_undo(snapshot);
                    proof {
                        let r = spec_apply_snapshot(io0, st0, exporter@, Some(s));
                        assert(state@ =~= r.1);
                        assert(self@ =~= r.0);
                    }
                }
                (true, false)
            },
        }
    }
}


/// The effect of saying the speech, if there is anything to say.
pub open spec fn spec_speak(s: Seq<Seq<PhraseModel>>) -> Seq<IOEffectModel> {
    if s.len() > 0 {
        seq![IOEffectModel::Speak(s)]
    } else {
        seq![]
    }
}

/// What the focused panel says with a frame of input.
pub open spec fn spec_panel_speech(
    io: IOModel,
    panel: PanelType,
    st: StateModel,
    synth: SynthState,
    ex: ExporterModel,
    b: FileBrowserModel,
    input: Input,
) -> Seq<Seq<PhraseModel>> {
    let e = input.events@;
    match panel {
        PanelType::ExportSettings => spec_export_settings_speech(ex, st.input.alphanumeric_input, e),
        PanelType::Music => spec_music_speech(st, ex.metadata.title, synth.gain, e),
        PanelType::OpenFile => spec_open_file_speech(io.open_file, ex, b, e, input.typed@, input.backspace),
        PanelType::PianoRoll => spec_piano_roll_speech(io.piano_roll, st, synth.programs@, e, input.new_notes@),
        PanelType::Tracks => spec_tracks_speech(st, synth.programs@, e),
        PanelType::Quit => spec_quit_speech(e),
        PanelType::Links => spec_links_speech(e),
        _ => seq![],
    }
}

/// What the focused panel does with a frame of input: the new `IO`, state and export settings,
/// the snapshot made, if any, and the effects: first what the panel says, if anything.
pub open spec fn spec_panel_update(
    io: IOModel,
    panel: PanelType,
    st: StateModel,
    synth: SynthState,
    ex: ExporterModel,
    b: FileBrowserModel,
    input: Input,
) -> (IOModel, StateModel, ExporterModel, Option<SnapshotModel>, Seq<IOEffectModel>) {
    let r = spec_panel_change(io, panel, st, synth, ex, b, input);
    (r.0, r.1, r.2, r.3, spec_speak(spec_panel_speech(io, panel, st, synth, ex, b, input)) + r.4)
}

/// What the focused panel changes with a frame of input: the new `IO`, state and export
/// settings, the snapshot made, if any, and the effects other than speech.
pub open spec fn spec_panel_change(
    io: IOModel,
    panel: PanelType,
    st: StateModel,
    synth: SynthState,
    ex: ExporterModel,
    b: FileBrowserModel,
    input: Input,
) -> (IOModel, StateModel, ExporterModel, Option<SnapshotModel>, Seq<IOEffectModel>) {
    let e = input.events@;
    match panel {
        PanelType::ExportSettings => {
            let (ex1, s) = spec_export_settings_update(ex, e);
            (io, st, ex1, s, seq![])
        },
        PanelType::ExportState => (
            io,
            spec_with_panels(st, io.export_panel.panels, Index { index: io.export_panel.focus, length: st.focus.length }),
            ex,
            None,
            seq![],
        ),
        PanelType::Music => {
            let (st1, s) = spec_music_update(st, synth.gain, e);
            (io, st1, ex, s, seq![])
        },
        PanelType::OpenFile => {
            let (st1, ex1, s, a) = spec_open_file_update(io.open_file, st, ex, b, e, input.typed@, input.backspace);
            (io, st1, ex1, s, seq![IOEffectModel::File(a)])
        },
        PanelType::PianoRoll => {
            let (p1, st1, s) = spec_piano_roll_update(io.piano_roll, st, synth.programs@, e, input.new_notes@);
            (IOModel { piano_roll: p1, ..io }, st1, ex, s, seq![])
        },
        PanelType::Tracks => {
            let (st1, s) = spec_tracks_update(st, synth.programs@, io.tracks_soundfont, e);
            (io, st1, ex, s, seq![])
        },
        PanelType::Quit => if e.contains(InputEvent::QuitPanelYes) {
            (io, st, ex, Some(spec_snap_io(seq![IOCommand::Quit])), seq![])
        } else if !e.contains(InputEvent::InputTTS) && e.contains(InputEvent::QuitPanelNo) {
            (io, spec_popup_closed(io.quit_popup, st), ex, None, seq![])
        } else {
            (io, st, ex, None, seq![])
        },
        PanelType::Links => (io, st, ex, None, seq![IOEffectModel::OpenLinks]),
        PanelType::MainMenu => (io, st, ex, None, seq![]),
    }
}

/// What the focused panel needs: the main menu is never focused, and each panel's own needs.
pub open spec fn spec_panel_fits(io: IOModel, panel: PanelType, st: StateModel, ex: ExporterModel, input: Input) -> bool {
    let e = input.events@;
    match panel {
        PanelType::ExportSettings => ex.wf() && spec_export_settings_fits(ex, e),
        PanelType::PianoRoll => io.piano_roll.wf() && spec_piano_roll_fits(io.piano_roll, st, e, input.new_notes@),
        PanelType::OpenFile => io.open_file.open_file_type == OpenFileType::SoundFont ==> st.music.selected is Some,
        PanelType::MainMenu => false,
        _ => true,
    }
}

impl IO {
    /// Hand a frame of input to the focused panel.
    fn panel_update(
        &mut self,
        panel: PanelType,
        state: &mut State,
        synth: &SynthState,
        exporter: &mut Exporter,
        browser: &FileBrowser,
        input: &Input,
        effects: &mut Vec<IOEffect>,
    ) -> (r: Option<Snapshot>)
        requires
            old(state)@.wf(),
            spec_panel_fits(old(self)@, panel, old(state)@, old(exporter)@, *input),
        ensures
            ({
                let u = spec_panel_update(old(self)@, panel, old(state)@, *synth, old(exporter)@, browser@, *input);
                &&& final(self)@ == u.0
                &&& final(state)@ == u.1
                &&& final(exporter)@ == u.2
                &&& opt_snapshot_view(r) == u.3
                &&& effects_view(final(effects)@) == effects_view(old(effects)@) + u.4
            }),
    {
        let speech = self.panel_speech(panel, state, synth, exporter, browser, input);
        if speech.len() > 0 {
            push_effect(effects, IOEffect::Speak(speech));
        }
        let ghost ev0 = effects_view(effects@);
        let ghost io0 = self@;
        let r = match panel {
            PanelType::ExportSettings => self.export_settings_panel.update(exporter, input),
            PanelType::ExportState => {
                self.export_panel.update(state, false);
                None
            },
            PanelType::Music => self.music_panel.update(state, synth, input),
            PanelType::OpenFile => {
                let (s, a) = self.open_file_panel.update(state, exporter, browser, input);
                push_effect(effects, IOEffect::File(a));
                s
            },
            PanelType::PianoRoll => self.piano_roll_panel.update(state, synth, input),
            PanelType::Tracks => self.tracks_panel.update(state, synth, input),
            PanelType::Quit => self.quit_panel.update(state, input),
            PanelType::Links => {
                push_effect(effects, IOEffect::OpenLinks);
                None
            },
            PanelType::MainMenu => None,
        };
        proof {
            let u = spec_panel_change(io0, panel, old(state)@, *synth, old(exporter)@, browser@, *input);
            assert(self@ =~= u.0);
            assert(effects_view(effects@) =~= ev0 + u.4);
            assert(effects_view(effects@) =~= effects_view(old(effects)@) + spec_panel_update(
                io0,
                panel,
                old(state)@,
                *synth,
                old(exporter)@,
                browser@,
                *input,
            ).4);
        }
        r
    }

    /// What the focused panel says with a frame of input.
    fn panel_speech(
        &self,
        panel: PanelType,
        state: &State,
        synth: &SynthState,
        exporter: &Exporter,
        browser: &FileBrowser,
        input: &Input,
    ) -> (r: Vec<Utterance>)
        requires
            state@.wf(),
            panel == PanelType::ExportSettings ==> exporter@.wf(),
        ensures
            speech_view(r@) == spec_panel_speech(self@, panel, state@, *synth, exporter@, browser@, *input),
    {
        match panel {
            PanelType::ExportSettings => self.export_settings_panel.speech(
                exporter,
                state.input.alphanumeric_input,
                input,
            ),
            PanelType::Music => self.music_panel.speech(state, exporter, synth, input),
            PanelType::OpenFile => self.open_file_panel.speech(exporter, browser, input),
            PanelType::PianoRoll => self.piano_roll_panel.speech(state, synth, input),
            PanelType::Tracks => self.tracks_panel.speech(state, synth, input),
            PanelType::Quit => self.quit_panel.speech(input),
            PanelType::Links => self.links_panel.speech(input),
            _ => silence(),
        }
    }
}

/// A request to quit: with unsaved changes the quit panel is shown; else the app quits.
/// Returns the new `IO`, the new state, and whether to quit.
pub open spec fn spec_quit_requested(io: IOModel, st: StateModel, e: Seq<InputEvent>) -> (IOModel, StateModel, bool) {
    if e.contains(InputEvent::Quit) {
        if st.unsaved_changes {
            (
                IOModel { quit_popup: PopupModel { focus: st.focus.index, panels: st.panels }, ..io },
                spec_with_panels(st, seq![PanelType::Quit], Index { index: 0, length: 1 }),
                false,
            )
        } else {
            (io, st, true)
        }
    } else {
        (io, st, false)
    }
}

/// The state with typing switched on or off.
pub open spec fn spec_with_abc123(st: StateModel, on: bool) -> StateModel {
    StateModel { input: InputState { alphanumeric_input: on, ..st.input }, ..st }
}

/// Typing: switch it off (and let the focused panel finish its field), type into the focused
/// panel, or switch it on; else play and stop notes on the selected track. Returns the new
/// `IO`, state and export settings, the effects, and whether the frame is done.
pub open spec fn spec_abc123_stage(io: IOModel, st: StateModel, synth: SynthState, ex: ExporterModel, input: Input) -> (
    IOModel,
    StateModel,
    ExporterModel,
    Seq<IOEffectModel>,
    bool,
) {
    let panel = spec_focused(st);
    let e = input.events@;
    if st.input.alphanumeric_input {
        if spec_allow_abc123(panel, st, ex) {
            if e.contains(InputEvent::ToggleAlphanumericInput) {
                let (st2, ex2) = spec_on_disable(panel, spec_with_abc123(st, false), ex);
                let r = spec_apply_snapshot(io, st2, ex2, Some(spec_snap_states(st, st2)));
                (r.0, r.1, ex2, r.2, true)
            } else {
                let (st1, ex1, snap, updated) = spec_update_abc123(panel, st, ex, input.typed@, input.backspace);
                if updated {
                    let r = spec_apply_snapshot(io, st1, ex1, snap);
                    (r.0, r.1, ex1, r.2, true)
                } else {
                    (io, st1, ex1, seq![], false)
                }
            }
        } else {
            (io, st, ex, seq![], false)
        }
    } else if spec_allow_abc123(panel, st, ex) && e.contains(InputEvent::ToggleAlphanumericInput) {
        let st1 = spec_with_abc123(st, true);
        let r = spec_apply_snapshot(io, st1, ex, Some(spec_snap_states(st, st1)));
        (r.0, r.1, ex, r.2, true)
    } else if st.music.selected is Some {
        let play = input.new_notes@.len() > 0 && spec_allow_play(panel) && synth.programs@.contains_key(
            spec_track(st).channel,
        );
        (
            io,
            st,
            ex,
            if play {
                seq![IOEffectModel::PlayNotes, IOEffectModel::StopNotes]
            } else {
                seq![IOEffectModel::StopNotes]
            },
            false,
        )
    } else {
        (io, st, ex, seq![], false)
    }
}

/// The state with the focus stepped to the next or previous panel, marked as having unsaved
/// changes.
pub open spec fn spec_focus_stepped(st: StateModel, up: bool) -> StateModel {
    StateModel {
        focus: if up { crate::index::spec_step_up(st.focus) } else { crate::index::spec_step_down(st.focus) },
        unsaved_changes: true,
        ..st
    }
}

/// The optional commands to send, as effects.
pub open spec fn spec_send(c: Option<Seq<CommandModel>>) -> Seq<IOEffectModel> {
    match c {
        Some(c) => seq![IOEffectModel::Commands(c)],
        None => seq![],
    }
}

/// Files, undo and redo, and the focus: a new file, open, save, export, import, edit the
/// config, undo, redo, or focus the next or previous panel. Returns the new `IO`, the new
/// state, and the effects.
pub open spec fn spec_file_stage(
    io: IOModel,
    st: StateModel,
    ex: ExporterModel,
    e: Seq<InputEvent>,
    has_save_path: bool,
) -> (IOModel, StateModel, Seq<IOEffectModel>) {
    if e.contains(InputEvent::NewFile) {
        (
            io,
            StateModel { music: crate::model::MusicModel { tracks: seq![], selected: None }, ..st },
            seq![IOEffectModel::NewFile],
        )
    } else if e.contains(InputEvent::OpenFile) {
        spec_opened(io, st, ex, OpenFileType::ReadSave)
    } else if e.contains(InputEvent::SaveFile) {
        if has_save_path {
            (io, StateModel { unsaved_changes: false, ..st }, seq![IOEffectModel::Save])
        } else {
            spec_opened(io, st, ex, OpenFileType::WriteSave)
        }
    } else if e.contains(InputEvent::SaveFileAs) {
        spec_opened(io, st, ex, OpenFileType::WriteSave)
    } else if e.contains(InputEvent::ExportFile) {
        spec_opened(
            IOModel { pre_export_focus: st.focus.index, pre_export_panels: st.panels, ..io },
            st,
            ex,
            OpenFileType::Export,
        )
    } else if e.contains(InputEvent::ImportMidi) {
        spec_opened(io, st, ex, OpenFileType::ImportMidi)
    } else if e.contains(InputEvent::EditConfig) {
        (io, st, seq![IOEffectModel::EditConfig])
    } else if e.contains(InputEvent::Undo) {
        let (h, st1, c) = crate::history::spec_undo(io.history, st);
        (IOModel { history: h, ..io }, st1, spec_send(c))
    } else if e.contains(InputEvent::Redo) {
        let (h, st1, c) = crate::history::spec_redo(io.history, st);
        (IOModel { history: h, ..io }, st1, spec_send(c))
    } else if e.contains(InputEvent::NextPanel) || e.contains(InputEvent::PreviousPanel) {
        let st1 = spec_focus_stepped(st, e.contains(InputEvent::NextPanel));
        (
            IOModel {
                history: HistoryModel { undo: spec_push_bounded(io.history.undo, spec_snap_states(st, st1)), redo: seq![] },
                ..io
            },
            st1,
            seq![],
        )
    } else {
        (io, st, seq![])
    }
}

impl IO {
    /// Speech for the whole app.
    fn speech_stage(input: &Input, effects: &mut Vec<IOEffect>)
        ensures
            effects_view(final(effects)@) == effects_view(old(effects)@) + spec_speech_stage(input.events@),
    {
        let ghost ev0 = effects_view(effects@);
        if input.happened(InputEvent::AppTTS) {
            push_effect(effects, IOEffect::StopSpeech);
            let mut r = silence();
            add_phrase(&mut r, text("APP_TTS_0"));
            add_phrase(&mut r, tip("APP_TTS_1", ev3(InputEvent::StatusTTS, InputEvent::InputTTS, InputEvent::FileTTS)));
            add_phrase(&mut r, tip("APP_TTS_2", ev1(InputEvent::Quit)));
            add_phrase(&mut r, tip("APP_TTS_3", ev2(InputEvent::PreviousPanel, InputEvent::NextPanel)));
            add_phrase(&mut r, tip("APP_TTS_4", ev2(InputEvent::Undo, InputEvent::Redo)));
            add_phrase(&mut r, tip("APP_TTS_5", ev1(InputEvent::StopTTS)));
            add_phrase(&mut r, tip("APP_TTS_6", ev1(InputEvent::EnableLinksPanel)));
            proof {
                assert(speech_view(r@) =~= spec_app_speech());
            }
            push_effect(effects, IOEffect::Speak(r));
        }
        let ghost ev1_ = effects_view(effects@);
        if input.happened(InputEvent::FileTTS) {
            push_effect(effects, IOEffect::StopSpeech);
            let mut r = silence();
            add_phrase(&mut r, tip("FILE_TTS_0", ev1(InputEvent::NewFile)));
            add_phrase(&mut r, tip("FILE_TTS_1", ev1(InputEvent::OpenFile)));
            add_phrase(&mut r, tip("FILE_TTS_2", ev2(InputEvent::SaveFile, InputEvent::SaveFileAs)));
            add_phrase(&mut r, tip("FILE_TTS_3", ev1(InputEvent::ExportFile)));
            add_phrase(&mut r, tip("FILE_TTS_4", ev1(InputEvent::ImportMidi)));
            add_phrase(&mut r, tip("FILE_TTS_5", ev1(InputEvent::EditConfig)));
            proof {
                assert(speech_view(r@) =~= spec_file_speech());
            }
            push_effect(effects, IOEffect::Speak(r));
        }
        let ghost ev2_ = effects_view(effects@);
        if input.happened(InputEvent::StopTTS) || input.happened(InputEvent::StatusTTS) || input.happened(
            InputEvent::InputTTS,
        ) {
            push_effect(effects, IOEffect::StopSpeech);
        }
        proof {
            let e = input.events@;
            let app = if e.contains(InputEvent::AppTTS) {
                seq![IOEffectModel::StopSpeech, IOEffectModel::Speak(spec_app_speech())]
            } else {
                seq![]
            };
            let file = if e.contains(InputEvent::FileTTS) {
                seq![IOEffectModel::StopSpeech, IOEffectModel::Speak(spec_file_speech())]
            } else {
                seq![]
            };
            assert(ev1_ =~= ev0 + app);
            assert(ev2_ =~= ev0 + app + file);
            assert(effects_view(effects@) =~= ev0 + spec_speech_stage(e));
        }
    }

    /// A request to quit. Returns true if the app quits.
    fn quit_requested(&mut self, state: &mut State, input: &Input) -> (quit: bool)
        ensures
            (final(self)@, final(state)@, quit) == spec_quit_requested(old(self)@, old(state)@, input.events@),
    {
        if input.happened(InputEvent::Quit) {
            if state.unsaved_changes {
                self.quit_panel.enable(state);
                proof {
                    assert(self@ =~= spec_quit_requested(old(self)@, old(state)@, input.events@).0);
                }
                false
            } else {
                true
            }
        } else {
            false
        }
    }

    /// Switch typing on or off, type into the focused panel, or play and stop notes. Returns
    /// true if the frame is done.
    fn abc123_stage(
        &mut self,
        state: &mut State,
        synth: &SynthState,
        exporter: &mut Exporter,
        input: &Input,
        effects: &mut Vec<IOEffect>,
    ) -> (done: bool)
        requires
            old(state)@.wf(),
            old(exporter)@.wf(),
            spec_focused(old(state)@) == PanelType::Music && spec_field(old(state)@) == MusicPanelField::BPM
                ==> spec_edit_number(old(state).time.bpm, input.typed@, input.backspace).0 <= u64::MAX,
        ensures
            ({
                let r = spec_abc123_stage(old(self)@, old(state)@, *synth, old(exporter)@, *input);
                &&& final(self)@ == r.0
                &&& final(state)@ == r.1
                &&& final(exporter)@ == r.2
                &&& effects_view(final(effects)@) == effects_view(old(effects)@) + r.3
                &&& done == r.4
            }),
    {
        let ghost ev0 = effects_view(effects@);
        let panel = state.panels[state.focus.get()];
        if state.input.alphanumeric_input {
            if self.allow_alphanumeric_input(panel, state, exporter) {
                if input.happened(InputEvent::ToggleAlphanumericInput) {
                    let s0 = state.duplicate();
                    state.input.alphanumeric_input = false;
                    proof {
                        assert(state@ =~= spec_with_abc123(s0@, false));
                    }
                    self.on_disable_abc123(panel, state, exporter);
                    let snapshot = Snapshot::from_states(s0, state);
                    self.apply_snapshot(Some(snapshot), state, exporter, effects);
                    return true;
                } else {
                    let (snapshot, updated) = self.update_abc123(panel, state, exporter, input);
                    if updated {
                        self.apply_snapshot(snapshot, state, exporter, effects);
                        return true;
                    }
                    proof {
                        assert(effects_view(effects@) =~= ev0 + seq![]);
                    }
                    return false;
                }
            }
            proof {
                assert(effects_view(effects@) =~= ev0 + seq![]);
            }
            false
        } else {
            if self.allow_alphanumeric_input(panel, state, exporter) && input.happened(
                InputEvent::ToggleAlphanumericInput,
            ) {
                let s0 = state.duplicate();
                state.input.alphanumeric_input = true;
                proof {
                    assert(state@ =~= spec_with_abc123(s0@, true));
                }
                let snapshot = Snapshot::from_states(s0, state);
                self.apply_snapshot(Some(snapshot), state, exporter, effects);
                return true;
            }
            match state.music.selected {
                Some(t) => {
                    proof {
                        assert(spec_track(state@) == state.music.midi_tracks@[t as int]@);
                    }
                    let channel = state.music.midi_tracks[t].channel;
                    if input.new_notes.len() > 0 && IO::allow_play_music(panel) && synth.programs.contains_key(
                        &channel,
                    ) {
                        push_effect(effects, IOEffect::PlayNotes);
                    }
                    push_effect(effects, IOEffect::StopNotes);
                    proof {
                        let r = spec_abc123_stage(old(self)@, old(state)@, *synth, old(exporter)@, *input);
                        assert(effects_view(effects@) =~= ev0 + r.3);
                    }
                },
                None => {
                    proof {
                        assert(effects_view(effects@) =~= ev0 + seq![]);
                    }
                },
            }
            false
        }
    }

    /// Files, undo and redo, and the focus.
    fn file_stage(
        &mut self,
        state: &mut State,
        exporter: &Exporter,
        input: &Input,
        has_save_path: bool,
        effects: &mut Vec<IOEffect>,
    )
        ensures
            ({
                let r = spec_file_stage(old(self)@, old(state)@, exporter@, input.events@, has_save_path);
                &&& final(self)@ == r.0
                &&& final(state)@ == r.1
                &&& effects_view(final(effects)@) == effects_view(old(effects)@) + r.2
            }),
    {
        let ghost ev0 = effects_view(effects@);
        let ghost io0 = self@;
        let ghost st0 = state@;
        if input.happened(InputEvent::NewFile) {
            push_effect(effects, IOEffect::NewFile);
            state.music = crate::model::Music::new();
            proof {
                assert(state@ =~= spec_file_stage(io0, st0, exporter@, input.events@, has_save_path).1);
                assert(effects_view(effects@) =~= ev0 + seq![IOEffectModel::NewFile]);
            }
        } else if input.happened(InputEvent::OpenFile) {
            self.open_file(OpenFileType::ReadSave, state, exporter, effects);
        } else if input.happened(InputEvent::SaveFile) {
            if has_save_path {
                push_effect(effects, IOEffect::Save);
                state.unsaved_changes = false;
                proof {
                    assert(state@ =~= StateModel { unsaved_changes: false, ..st0 });
                    assert(effects_view(effects@) =~= ev0 + seq![IOEffectModel::Save]);
                }
            } else {
                self.open_file(OpenFileType::WriteSave, state, exporter, effects);
            }
        } else if input.happened(InputEvent::SaveFileAs) {
            self.open_file(OpenFileType::WriteSave, state, exporter, effects);
        } else if input.happened(InputEvent::ExportFile) {
            self.pre_export_focus = state.focus.get();
            self.pre_export_panels = state.panels.clone();
            proof {
                assert(self.pre_export_panels@ =~= st0.panels);
            }
            let listing = self.open_file_panel.export(state, exporter);
            push_effect(effects, IOEffect::List(listing));
            proof {
                let r = spec_file_stage(io0, st0, exporter@, input.events@, has_save_path);
                assert(self@ =~= r.0);
                assert(effects_view(effects@) =~= ev0 + r.2);
            }
        } else if input.happened(InputEvent::ImportMidi) {
            self.open_file(OpenFileType::ImportMidi, state, exporter, effects);
        } else if input.happened(InputEvent::EditConfig) {
            push_effect(effects, IOEffect::EditConfig);
            proof {
                assert(effects_view(effects@) =~= ev0 + seq![IOEffectModel::EditConfig]);
            }
        } else if input.happened(InputEvent::Undo) || input.happened(InputEvent::Redo) {
            let undo = input.happened(InputEvent::Undo);
            let commands = if undo {
                self.history.undo(state)
            } else {
                self.history.redo(state)
            };
            match commands {
                Some(c) => push_effect(effects, IOEffect::Commands(c)),
                None => {},
            }
            proof {
                let r = spec_file_stage(io0, st0, exporter@, input.events@, has_save_path);
                assert(self@ =~= r.0);
                assert(effects_view(effects@) =~= ev0 + r.2);
            }
        } else if input.happened(InputEvent::NextPanel) || input.happened(InputEvent::PreviousPanel) {
            let up = input.happened(InputEvent::NextPanel);
            let s0 = state.duplicate();
            state.focus.increment(up);
            state.unsaved_changes = true;
            proof {
                assert(state@ =~= spec_focus_stepped(st0, up));
            }
            let snapshot = Snapshot::from_states(s0, state);
            self.history.push_undo(snapshot);
            proof {
                let r = spec_file_stage(io0, st0, exporter@, input.events@, has_save_path);
                assert(self@ =~= r.0);
                assert(effects_view(effects@) =~= ev0 + seq![]);
            }
        } else {
            proof {
                assert(effects_view(effects@) =~= ev0 + seq![]);
            }
        }
    }
}

/// What the app says of itself: the app, and how to hear the status, the input and the file
/// commands, how to quit, how to change panels, how to undo and redo, how to stop speech, and
/// how to show the links; each on its own.
pub open spec fn spec_app_speech() -> Seq<Seq<PhraseModel>> {
    spec_each(
        seq![
            spec_text("APP_TTS_0"@),
            spec_tip("APP_TTS_1"@, seq![InputEvent::StatusTTS, InputEvent::InputTTS, InputEvent::FileTTS]),
            spec_tip("APP_TTS_2"@, seq![InputEvent::Quit]),
            spec_tip("APP_TTS_3"@, seq![InputEvent::PreviousPanel, InputEvent::NextPanel]),
            spec_tip("APP_TTS_4"@, seq![InputEvent::Undo, InputEvent::Redo]),
            spec_tip("APP_TTS_5"@, seq![InputEvent::StopTTS]),
            spec_tip("APP_TTS_6"@, seq![InputEvent::EnableLinksPanel]),
        ],
    )
}

/// What the app says of its file commands, each on its own.
pub open spec fn spec_file_speech() -> Seq<Seq<PhraseModel>> {
    spec_each(
        seq![
            spec_tip("FILE_TTS_0"@, seq![InputEvent::NewFile]),
            spec_tip("FILE_TTS_1"@, seq![InputEvent::OpenFile]),
            spec_tip("FILE_TTS_2"@, seq![InputEvent::SaveFile, InputEvent::SaveFileAs]),
            spec_tip("FILE_TTS_3"@, seq![InputEvent::ExportFile]),
            spec_tip("FILE_TTS_4"@, seq![InputEvent::ImportMidi]),
            spec_tip("FILE_TTS_5"@, seq![InputEvent::EditConfig]),
        ],
    )
}

/// Speech for the whole app: what is being said is stopped before the app or its file
/// commands are spoken, and when speech is stopped or a panel's status or input is to be
/// spoken.
pub open spec fn spec_speech_stage(e: Seq<InputEvent>) -> Seq<IOEffectModel> {
    let app = if e.contains(InputEvent::AppTTS) {
        seq![IOEffectModel::StopSpeech, IOEffectModel::Speak(spec_app_speech())]
    } else {
        seq![]
    };
    let file = if e.contains(InputEvent::FileTTS) {
        seq![IOEffectModel::StopSpeech, IOEffectModel::Speak(spec_file_speech())]
    } else {
        seq![]
    };
    let stop = if e.contains(InputEvent::StopTTS) || e.contains(InputEvent::StatusTTS) || e.contains(
        InputEvent::InputTTS,
    ) {
        seq![IOEffectModel::StopSpeech]
    } else {
        seq![]
    };
    app + file + stop
}

/// What the `IO` struct does with a frame of input: the new `IO`, state and export settings,
/// whether to quit, and the effects for the app. Nothing happens while audio is exported.
pub open spec fn spec_io_update(
    io: IOModel,
    st: StateModel,
    synth: SynthState,
    ex: ExporterModel,
    b: FileBrowserModel,
    input: Input,
    exporting: bool,
    has_save_path: bool,
) -> (IOModel, StateModel, ExporterModel, bool, Seq<IOEffectModel>) {
    let e = input.events@;
    let (io1, st1, quit) = spec_quit_requested(io, st, e);
    if quit {
        (io1, st1, ex, true, seq![])
    } else if exporting {
        (io1, st1, ex, false, seq![])
    } else {
        let (io2, st2, ex2, e2, done) = spec_abc123_stage(io1, st1, synth, ex, input);
        if done {
            (io2, st2, ex2, false, e2)
        } else {
            let (io3, st3, e3) = spec_file_stage(io2, st2, ex2, e, has_save_path);
            let es = spec_speech_stage(e);
            if e.contains(InputEvent::EnableLinksPanel) {
                (
                    IOModel { links_popup: PopupModel { focus: st3.focus.index, panels: st3.panels }, ..io3 },
                    spec_with_panels(st3, seq![PanelType::Links], Index { index: 0, length: 1 }),
                    ex2,
                    false,
                    e2 + e3 + es,
                )
            } else {
                let (io4, st4, ex4, snap, e4) = spec_panel_update(io3, spec_focused(st3), st3, synth, ex2, b, input);
                let (io5, st5, e5, applied, q) = spec_apply_snapshot(io4, st4, ex4, snap);
                let effects = e2 + e3 + es + e4 + e5;
                if q {
                    (io5, st5, ex4, true, effects)
                } else if applied {
                    (io5, st5, ex4, false, effects)
                } else if spec_allow_play(spec_focused(st5)) && e.contains(InputEvent::PlayStop) {
                    (io5, st5, ex4, false, effects.push(IOEffectModel::PlayStop))
                } else {
                    (io5, st5, ex4, false, effects)
                }
            }
        }
    }
}

/// What the app-wide events do to the state and the history, for a frame whose only event is
/// one of them:
/// - next or previous panel: the focus moves to the next or previous panel, cycling; the music is
///   marked unsaved; the change is pushed on the undo stack and the redo stack is emptied;
/// - new file: the music loses all its tracks, and the host is told that this is a new file;
/// - save, with a path to save to: the music is marked saved and the host is told to save;
/// - undo and redo: the history's undo or redo.
pub proof fn lemma_file_stage_events(io: IOModel, st: StateModel, ex: ExporterModel, x: InputEvent, has_save_path: bool)
    requires
        st.focus.index < st.focus.length,
    ensures
        ({
            let (io1, st1, effects) = spec_file_stage(io, st, ex, seq![x], has_save_path);
            let f = st.focus;
            &&& (x == InputEvent::NextPanel || x == InputEvent::PreviousPanel) ==> {
                &&& st1 == StateModel {
                    focus: Index {
                        index: (if x == InputEvent::NextPanel {
                            (f.index + 1) % (f.length as int)
                        } else {
                            (f.index + f.length - 1) % (f.length as int)
                        }) as usize,
                        ..f
                    },
                    unsaved_changes: true,
                    ..st
                }
                &&& io1 == IOModel {
                    history: HistoryModel {
                        undo: spec_push_bounded(
                            io.history.undo,
                            SnapshotModel {
                                from_state: Some(st),
                                to_state: Some(st1),
                                from_commands: None,
                                to_commands: None,
                                io_commands: None,
                            },
                        ),
                        redo: seq![],
                    },
                    ..io
                }
                &&& effects.len() == 0
            }
            &&& x == InputEvent::NewFile ==> io1 == io && st1 == StateModel {
                music: crate::model::MusicModel { tracks: seq![], selected: None },
                ..st
            } && effects == seq![IOEffectModel::NewFile]
            &&& x == InputEvent::SaveFile && has_save_path ==> io1 == io && st1 == StateModel {
                unsaved_changes: false,
                ..st
            } && effects == seq![IOEffectModel::Save]
            &&& x == InputEvent::Undo ==> io1 == IOModel { history: crate::history::spec_undo(io.history, st).0, ..io }
                && st1 == crate::history::spec_undo(io.history, st).1
            &&& x == InputEvent::Redo ==> io1 == IOModel { history: crate::history::spec_redo(io.history, st).0, ..io }
                && st1 == crate::history::spec_redo(io.history, st).1
        }),
{
    lemma_only_event(x);
    crate::index::lemma_step_cycles(st.focus.index, st.focus.length);
}

/// The quit panel, for a frame whose only event is its answer: yes asks the `IO` struct to quit
/// and changes nothing else; no brings back the panels and the focus from before the question,
/// with no change recorded.
pub proof fn lemma_quit_panel_answers(
    io: IOModel,
    st: StateModel,
    synth: SynthState,
    ex: ExporterModel,
    b: FileBrowserModel,
    input: Input,
)
    requires
        input.events@ == seq![InputEvent::QuitPanelYes] || input.events@ == seq![InputEvent::QuitPanelNo],
    ensures
        ({
            let (io1, st1, ex1, snap, effects) = spec_panel_change(io, PanelType::Quit, st, synth, ex, b, input);
            &&& io1 == io && ex1 == ex && effects.len() == 0
            &&& input.events@ == seq![InputEvent::QuitPanelYes] ==> st1 == st && snap == Some(
                SnapshotModel {
                    from_state: None,
                    to_state: None,
                    from_commands: None,
                    to_commands: None,
                    io_commands: Some(seq![IOCommand::Quit]),
                },
            )
            &&& input.events@ == seq![InputEvent::QuitPanelNo] ==> snap is None && st1 == StateModel {
                panels: io.quit_popup.panels,
                focus: Index { index: io.quit_popup.focus, length: io.quit_popup.panels.len() as usize },
                ..st
            }
        }),
{
    if input.events@ == seq![InputEvent::QuitPanelYes] {
        lemma_only_event(InputEvent::QuitPanelYes);
    } else {
        lemma_only_event(InputEvent::QuitPanelNo);
    }
}

/// What the `IO` struct needs: valid export settings, a tempo that typing keeps in range, a
/// valid state when the focused panel gets the input (after an undo, say), what the focused
/// panel needs, and a focused panel that exists when playing music is checked.
pub open spec fn spec_io_fits(
    io: IOModel,
    st: StateModel,
    synth: SynthState,
    ex: ExporterModel,
    b: FileBrowserModel,
    input: Input,
    exporting: bool,
    has_save_path: bool,
) -> bool {
    let e = input.events@;
    let (io1, st1, quit) = spec_quit_requested(io, st, e);
    !quit && !exporting ==> {
        let (io2, st2, ex2, e2, done) = spec_abc123_stage(io1, st1, synth, ex, input);
        let (io3, st3, e3) = spec_file_stage(io2, st2, ex2, e, has_save_path);
        let (io4, st4, ex4, snap, e4) = spec_panel_update(io3, spec_focused(st3), st3, synth, ex2, b, input);
        let (io5, st5, e5, applied, q) = spec_apply_snapshot(io4, st4, ex4, snap);
        &&& spec_focused(st1) == PanelType::Music && spec_field(st1) == MusicPanelField::BPM ==> spec_edit_number(
            st1.time.bpm,
            input.typed@,
            input.backspace,
        ).0 <= u64::MAX
        &&& !done && !e.contains(InputEvent::EnableLinksPanel) ==> {
            &&& st3.wf()
            &&& spec_panel_fits(io3, spec_focused(st3), st3, ex2, input)
            &&& !q && !applied ==> st5.focus.index < st5.panels.len()
        }
    }
}

impl IO {
    /// The panels, with empty undo and redo stacks.
    ///
    /// - `beat` The input beat in PPQ.
    /// - `beats` The beats of the piano roll in PPQ, from the config file.
    /// - `deltas` The edit mode deltas of the piano roll, from the config file.
    /// - `dt_0` The default width of the piano roll's viewport in PPQ.
    /// - `default_soundfont_path` The SoundFont that a new track gets.
    pub fn new(
        beat: u64,
        beats: Vec<u64>,
        deltas: crate::piano_roll::edit_mode_deltas::EditModeDeltas,
        dt_0: u64,
        default_soundfont_path: String,
    ) -> (r: IO)
        ensures
            r@.history.undo == Seq::<SnapshotModel>::empty(),
            r@.history.redo == Seq::<SnapshotModel>::empty(),
            r@.tracks_soundfont == default_soundfont_path@,
            r@.piano_roll.edit == (crate::piano_roll::edit::Edit { deltas }),
            r@.piano_roll.time == (crate::piano_roll::time::Time { deltas }),
            r@.piano_roll.view == (crate::piano_roll::view::PianoRollView { deltas, dt_0 }),
            r@.piano_roll.beats == (if beats@.contains(beat) { beats@ } else { beats@.push(beat) }),
            r@.piano_roll.beat.length == r@.piano_roll.beats.len(),
            r@.piano_roll.beat.index < r@.piano_roll.beat.length,
            r@.piano_roll.beats[r@.piano_roll.beat.index as int] == beat,
            forall|j: int| 0 <= j < r@.piano_roll.beat.index ==> r@.piano_roll.beats[j] != beat,
            r@.piano_roll.copy_buffer.len() == 0,
            r@.piano_roll.wf(),
            r@.open_file.popup.panels.len() == 0,
            r@.open_file.open_file_type == OpenFileType::ReadSave,
            r@.export_panel.panels.len() == 0,
            r@.quit_popup.panels.len() == 0,
            r@.links == crate::links::spec_default_links(),
            r@.links_popup.panels.len() == 0,
            r@.pre_export_panels.len() == 0,
            r@.pre_export_focus == 0,
    {
        IO {
            history: History::new(),
            music_panel: MusicPanel::new(),
            tracks_panel: TracksPanel::new(default_soundfont_path),
            open_file_panel: OpenFilePanel::new(),
            piano_roll_panel: PianoRollPanel::new(beat, beats, deltas, dt_0),
            export_panel: ExportPanel::new(),
            export_settings_panel: ExportSettingsPanel::new(),
            quit_panel: QuitPanel::new(),
            links_panel: LinksPanel::new(),
            pre_export_panels: Vec::new(),
            pre_export_focus: 0,
        }
    }

    /// Apply a frame of input. Returns true if the app quits, and the effects for the app to
    /// perform, in order, what is said among them.
    ///
    /// - `exporting` Whether audio is being exported.
    /// - `has_save_path` Whether there is a path to save to.
    #[verifier::rlimit(40)]
    #[verifier::spinoff_prover]
    pub fn update(
        &mut self,
        state: &mut State,
        synth: &SynthState,
        exporter: &mut Exporter,
        browser: &FileBrowser,
        input: &Input,
        exporting: bool,
        has_save_path: bool,
    ) -> (r: (bool, Vec<IOEffect>))
        requires
            old(state)@.wf(),
            old(exporter)@.wf(),
            spec_io_fits(old(self)@, old(state)@, *synth, old(exporter)@, browser@, *input, exporting, has_save_path),
        ensures
            (final(self)@, final(state)@, final(exporter)@, r.0, effects_view(r.1@)) == spec_io_update(
                old(self)@,
                old(state)@,
                *synth,
                old(exporter)@,
                browser@,
                *input,
                exporting,
                has_save_path,
            ),
            spec_history_bounded(old(self)@.history) ==> spec_history_bounded(final(self)@.history)
                && final(self)@.history.undo.len() <= crate::history::MAX_UNDOS,
            final(self)@.history == old(self)@.history || final(self)@.history == crate::history::spec_undo(
                old(self)@.history,
                old(state)@,
            ).0 || final(self)@.history == crate::history::spec_redo(old(self)@.history, old(state)@).0
                || final(self)@.history.redo.len() == 0,
            old(self)@.history.undo.len() <= crate::history::MAX_UNDOS ==> final(self)@.history.undo.len()
                <= crate::history::MAX_UNDOS || (input.events@.contains(InputEvent::Redo)
                && old(self)@.history.undo.len() == crate::history::MAX_UNDOS && old(self)@.history.redo.len() > 0),
    {
        proof {
            lemma_frame_history(self@, state@, *synth, exporter@, browser@, *input, exporting, has_save_path);
            if spec_history_bounded(self@.history) {
                lemma_history_stays_bounded(
                    self@,
                    state@,
                    *synth,
                    exporter@,
                    browser@,
                    *input,
                    exporting,
                    has_save_path,
                );
            }
        }
        let mut effects: Vec<IOEffect> = Vec::new();
        proof {
            assert(effects_view(effects@) =~= Seq::<IOEffectModel>::empty());
        }
        if self.quit_requested(state, input) {
            return (true, effects);
        }
        if exporting {
            return (false, effects);
        }
        if self.abc123_stage(state, synth, exporter, input, &mut effects) {
            return (false, effects);
        }
        let ghost ev2 = effects_view(effects@);
        self.file_stage(state, exporter, input, has_save_path, &mut effects);
        IO::speech_stage(input, &mut effects);
        if input.happened(InputEvent::EnableLinksPanel) {
            self.links_panel.enable(state);
            return (false, effects);
        }
        let panel = state.panels[state.focus.get()];
        let snapshot = self.panel_update(panel, state, synth, exporter, browser, input, &mut effects);
        let (applied, quit) = self.apply_snapshot(snapshot, state, exporter, &mut effects);
        if quit {
            return (true, effects);
        }
        if applied {
            return (false, effects);
        }
        let panel = state.panels[state.focus.get()];
        if IO::allow_play_music(panel) && input.happened(InputEvent::PlayStop) {
            push_effect(&mut effects, IOEffect::PlayStop);
        }
        (false, effects)
    }
}

/// Commands for the `IO` struct that do not quit never quit.
pub proof fn lemma_apply_io_no_quit(io: IOModel, st: StateModel, ex: ExporterModel, cmds: Seq<IOCommand>)
    requires
        !cmds.contains(IOCommand::Quit),
    ensures
        !spec_apply_io(io, st, ex, cmds).3,
    decreases cmds.len(),
{
    if cmds.len() > 0 {
        let (io1, st1, e1) = spec_apply_one(io, st, ex, cmds[0]);
        let rest = cmds.subrange(1, cmds.len() as int);
        assert forall|i: int| 0 <= i < rest.len() implies rest[i] != IOCommand::Quit by {
            assert(rest[i] == cmds[i + 1]);
        }
        lemma_apply_io_no_quit(io1, st1, ex, rest);
    }
}

/// A recorded change can be undone: after a snapshot of a change of state is applied (one whose
/// commands for the `IO` struct do not quit), undoing restores the state from before the change
/// (marked as having unsaved changes), sends the commands that revert the synthesizer, and
/// leaves the change alone on the redo stack.
pub proof fn lemma_change_then_undo(io: IOModel, st: StateModel, ex: ExporterModel, s: SnapshotModel)
    requires
        s.from_state is Some,
        s.io_commands is Some ==> !s.io_commands.unwrap().contains(IOCommand::Quit),
    ensures
        ({
            let (io1, st1, e1, applied, quit) = spec_apply_snapshot(io, st, ex, Some(s));
            let (h2, st2, c2) = crate::history::spec_undo(io1.history, st1);
            &&& applied
            &&& !quit
            &&& st2 == StateModel { unsaved_changes: true, ..s.from_state.unwrap() }
            &&& c2 == s.from_commands
            &&& h2.redo == seq![crate::snapshot::spec_flip(s)]
        }),
{
    if s.io_commands is Some {
        lemma_apply_io_no_quit(io, st, ex, s.io_commands.unwrap());
    }
    let (io1, st1, e1, applied, quit) = spec_apply_snapshot(io, st, ex, Some(s));
    let r = match s.io_commands {
        Some(cmds) => spec_apply_io(io, st, ex, cmds),
        None => (io, st, seq![], false),
    };
    crate::history::lemma_push_bounded_last(r.0.history.undo, s);
    assert(io1.history.redo =~= seq![]);
    assert(seq![].push(crate::snapshot::spec_flip(s)) =~= seq![crate::snapshot::spec_flip(s)]);
}

/// Nothing changes while audio is exported, unless the app is asked to quit.
pub proof fn lemma_exporting_changes_nothing(
    io: IOModel,
    st: StateModel,
    synth: SynthState,
    ex: ExporterModel,
    b: FileBrowserModel,
    input: Input,
    has_save_path: bool,
)
    requires
        !input.events@.contains(InputEvent::Quit),
    ensures
        spec_io_update(io, st, synth, ex, b, input, true, has_save_path) == (io, st, ex, false, Seq::<IOEffectModel>::empty()),
{
}


/// Asking for speech changes nothing else: a frame whose only event asks for the status or the
/// input of the focused panel to be spoken (with nothing typed and no notes played) leaves the
/// `IO` struct, the state and the export settings as they were and does not quit, unless the
/// export panel has the focus (it closes once the export is done).
#[verifier::rlimit(50)]
#[verifier::spinoff_prover]
pub proof fn lemma_speech_changes_nothing(
    io: IOModel,
    st: StateModel,
    synth: SynthState,
    ex: ExporterModel,
    b: FileBrowserModel,
    input: Input,
    has_save_path: bool,
)
    requires
        input.events@ == seq![InputEvent::StatusTTS] || input.events@ == seq![InputEvent::InputTTS],
        input.typed@.len() == 0,
        !input.backspace,
        input.new_notes@.len() == 0,
        spec_focused(st) != PanelType::ExportState,
    ensures
        ({
            let r = spec_io_update(io, st, synth, ex, b, input, false, has_save_path);
            &&& r.0 == io
            &&& r.1 == st
            &&& r.2 == ex
            &&& !r.3
        }),
{
    let e = input.events@;
    let x = e[0];
    assert(e.contains(x));
    assert forall|y: InputEvent| e.contains(y) implies y == x by {
        let k = choose|k: int| 0 <= k < e.len() && e[k] == y;
        assert(k == 0);
    }
    let (io1, st1, q) = spec_quit_requested(io, st, e);
    assert(io1 == io && st1 == st && !q);
    let panel = spec_focused(st);
    let (io2, st2, ex2, e2, done) = spec_abc123_stage(io, st, synth, ex, input);
    assert(io2 == io && st2 == st && ex2 == ex && !done) by {
        let m = ex.metadata;
        assert(spec_edit_text(m.title, input.typed@, false) == (m.title, false));
    }
    let (io3, st3, e3) = spec_file_stage(io, st, ex, e, has_save_path);
    assert(io3 == io && st3 == st);
    let (io4, st4, ex4, snap, e4) = spec_panel_update(io, panel, st, synth, ex, b, input);
    assert(io4 == io && st4 == st && ex4 == ex && snap is None) by {
        if panel == PanelType::PianoRoll {
            assert(!spec_select_track(st, e, InputEvent::PianoRollPreviousTrack, InputEvent::PianoRollNextTrack).1);
        }
    }
}


/// Whether the undo and redo stacks together hold no more than the undo stack's maximum.
pub open spec fn spec_history_bounded(h: HistoryModel) -> bool {
    h.undo.len() + h.redo.len() <= crate::history::MAX_UNDOS
}

/// Commands for the `IO` struct leave the undo and redo stacks alone.
proof fn lemma_apply_io_history(io: IOModel, st: StateModel, ex: ExporterModel, cmds: Seq<IOCommand>)
    ensures
        spec_apply_io(io, st, ex, cmds).0.history == io.history,
    decreases cmds.len(),
{
    if cmds.len() > 0 && cmds[0] != IOCommand::Quit {
        let (io1, st1, e1) = spec_apply_one(io, st, ex, cmds[0]);
        lemma_apply_io_history(io1, st1, ex, cmds.subrange(1, cmds.len() as int));
    }
}

/// Applying a snapshot keeps the stacks within the maximum: a recorded change is pushed with
/// the oldest dropped past the maximum, and the redo stack is cleared.
proof fn lemma_apply_snapshot_bounded(io: IOModel, st: StateModel, ex: ExporterModel, snap: Option<SnapshotModel>)
    requires
        spec_history_bounded(io.history),
    ensures
        spec_history_bounded(spec_apply_snapshot(io, st, ex, snap).0.history),
{
    if let Some(s) = snap {
        if let Some(cmds) = s.io_commands {
            lemma_apply_io_history(io, st, ex, cmds);
        }
        crate::history::lemma_push_bounded(io.history.undo, s);
    }
}

/// The undo stack stays bounded: when the undo and redo stacks together hold no more than the
/// maximum number of snapshots before a frame, they do so after it. So the undo stack never
/// holds more than that maximum.
#[verifier::rlimit(60)]
#[verifier::spinoff_prover]
pub proof fn lemma_history_stays_bounded(
    io: IOModel,
    st: StateModel,
    synth: SynthState,
    ex: ExporterModel,
    b: FileBrowserModel,
    input: Input,
    exporting: bool,
    has_save_path: bool,
)
    requires
        spec_history_bounded(io.history),
    ensures
        spec_history_bounded(spec_io_update(io, st, synth, ex, b, input, exporting, has_save_path).0.history),
        spec_io_update(io, st, synth, ex, b, input, exporting, has_save_path).0.history.undo.len()
            <= crate::history::MAX_UNDOS,
{
    let e = input.events@;
    let (io1, st1, quit) = spec_quit_requested(io, st, e);
    assert(io1.history == io.history);
    if !quit && !exporting {
        let panel = spec_focused(st1);
        if st1.input.alphanumeric_input {
            if spec_allow_abc123(panel, st1, ex) {
                if e.contains(InputEvent::ToggleAlphanumericInput) {
                    let (st2, ex2) = spec_on_disable(panel, spec_with_abc123(st1, false), ex);
                    lemma_apply_snapshot_bounded(io1, st2, ex2, Some(spec_snap_states(st1, st2)));
                } else {
                    let (st2, ex2, snap, updated) = spec_update_abc123(panel, st1, ex, input.typed@, input.backspace);
                    lemma_apply_snapshot_bounded(io1, st2, ex2, snap);
                }
            }
        } else if spec_allow_abc123(panel, st1, ex) && e.contains(InputEvent::ToggleAlphanumericInput) {
            let st2 = spec_with_abc123(st1, true);
            lemma_apply_snapshot_bounded(io1, st2, ex, Some(spec_snap_states(st1, st2)));
        }
        let (io2, st2, ex2, e2, done) = spec_abc123_stage(io1, st1, synth, ex, input);
        assert(spec_history_bounded(io2.history));
        if !done {
            let (io3, st3, e3) = spec_file_stage(io2, st2, ex2, e, has_save_path);
            if e.contains(InputEvent::NextPanel) || e.contains(InputEvent::PreviousPanel) {
                crate::history::lemma_push_bounded(
                    io2.history.undo,
                    spec_snap_states(st2, spec_focus_stepped(st2, e.contains(InputEvent::NextPanel))),
                );
            }
            assert(spec_history_bounded(io3.history));
            let (io4, st4, ex4, snap, e4) = spec_panel_update(io3, spec_focused(st3), st3, synth, ex2, b, input);
            assert(io4.history == io3.history);
            lemma_apply_snapshot_bounded(io4, st4, ex4, snap);
        }
    }
}


/// Applying a snapshot leaves the history as it was, or records a change: the redo stack is
/// then empty, and an undo stack within its maximum stays within it.
proof fn lemma_apply_snapshot_history(io: IOModel, st: StateModel, ex: ExporterModel, snap: Option<SnapshotModel>)
    ensures
        ({
            let h = spec_apply_snapshot(io, st, ex, snap).0.history;
            ||| h == io.history
            ||| h.redo.len() == 0 && (io.history.undo.len() <= crate::history::MAX_UNDOS ==> h.undo.len()
                <= crate::history::MAX_UNDOS)
        }),
{
    if let Some(s) = snap {
        if let Some(cmds) = s.io_commands {
            lemma_apply_io_history(io, st, ex, cmds);
        }
        if io.history.undo.len() <= crate::history::MAX_UNDOS {
            crate::history::lemma_push_bounded(io.history.undo, s);
        }
    }
}

/// How one frame changes the history: not at all, by one undo, by one redo, or by recording a
/// change, after which the redo stack is empty. An undo stack within its maximum stays within
/// it, except in a frame that redoes onto a full undo stack.
#[verifier::rlimit(80)]
#[verifier::spinoff_prover]
pub proof fn lemma_frame_history(
    io: IOModel,
    st: StateModel,
    synth: SynthState,
    ex: ExporterModel,
    b: FileBrowserModel,
    input: Input,
    exporting: bool,
    has_save_path: bool,
)
    ensures
        ({
            let h0 = io.history;
            let h = spec_io_update(io, st, synth, ex, b, input, exporting, has_save_path).0.history;
            &&& h == h0 || h == crate::history::spec_undo(h0, st).0 || h == crate::history::spec_redo(h0, st).0
                || h.redo.len() == 0
            &&& h0.undo.len() <= crate::history::MAX_UNDOS ==> h.undo.len() <= crate::history::MAX_UNDOS || (
            input.events@.contains(InputEvent::Redo) && h0.undo.len() == crate::history::MAX_UNDOS && h0.redo.len()
                > 0)
        }),
{
    let e = input.events@;
    let h0 = io.history;
    let (io1, st1, quit) = spec_quit_requested(io, st, e);
    assert(io1.history == h0);
    if !quit && !exporting {
        let panel = spec_focused(st1);
        if st1.input.alphanumeric_input {
            if spec_allow_abc123(panel, st1, ex) {
                if e.contains(InputEvent::ToggleAlphanumericInput) {
                    let (st2, ex2) = spec_on_disable(panel, spec_with_abc123(st1, false), ex);
                    lemma_apply_snapshot_history(io1, st2, ex2, Some(spec_snap_states(st1, st2)));
                } else {
                    let (st2, ex2, snap, updated) = spec_update_abc123(panel, st1, ex, input.typed@, input.backspace);
                    lemma_apply_snapshot_history(io1, st2, ex2, snap);
                }
            }
        } else if spec_allow_abc123(panel, st1, ex) && e.contains(InputEvent::ToggleAlphanumericInput) {
            let st2 = spec_with_abc123(st1, true);
            lemma_apply_snapshot_history(io1, st2, ex, Some(spec_snap_states(st1, st2)));
        }
        let (io2, st2, ex2, e2, done) = spec_abc123_stage(io1, st1, synth, ex, input);
        if !done {
            assert(io2.history == h0);
            let (io3, st3, e3) = spec_file_stage(io2, st2, ex2, e, has_save_path);
            if e.contains(InputEvent::NextPanel) || e.contains(InputEvent::PreviousPanel) {
                if h0.undo.len() <= crate::history::MAX_UNDOS {
                    crate::history::lemma_push_bounded(
                        h0.undo,
                        spec_snap_states(st2, spec_focus_stepped(st2, e.contains(InputEvent::NextPanel))),
                    );
                }
            }
            let h3 = io3.history;
            assert(h3 == h0 || h3 == crate::history::spec_undo(h0, st).0 || h3 == crate::history::spec_redo(h0, st).0
                || h3.redo.len() == 0 && (h0.undo.len() <= crate::history::MAX_UNDOS ==> h3.undo.len()
                <= crate::history::MAX_UNDOS));
            assert(h0.undo.len() <= crate::history::MAX_UNDOS ==> h3.undo.len() <= crate::history::MAX_UNDOS || (
            e.contains(InputEvent::Redo) && h0.undo.len() == crate::history::MAX_UNDOS && h0.redo.len() > 0));
            let (io4, st4, ex4, snap, e4) = spec_panel_update(io3, spec_focused(st3), st3, synth, ex2, b, input);
            assert(io4.history == h3);
            lemma_apply_snapshot_history(io4, st4, ex4, snap);
        }
    }
}

/// The focused panel takes no action on the input: it changes neither the `IO` struct, nor the
/// state, nor the export settings, and records no change.
pub open spec fn spec_panel_ignores(
    io: IOModel,
    st: StateModel,
    synth: SynthState,
    ex: ExporterModel,
    b: FileBrowserModel,
    input: Input,
) -> bool {
    let r = spec_panel_change(io, spec_focused(st), st, synth, ex, b, input);
    r.0 == io && r.1 == st && r.2 == ex && r.3 is None
}

/// The events of an input that holds one event.
proof fn lemma_single_event(e: Seq<InputEvent>, x: InputEvent)
    requires
        e == seq![x],
    ensures
        forall|y: InputEvent| #[trigger] e.contains(y) <==> y == x,
{
    assert(e[0] == x);
    assert(e.contains(x));
    assert forall|y: InputEvent| e.contains(y) implies y == x by {
        let k = choose|k: int| 0 <= k < e.len() && e[k] == y;
        assert(k == 0);
    }
}

/// The music and tracks panels take no action on a frame whose only event is an undo or a redo.
pub proof fn lemma_music_and_tracks_ignore_undo(
    io: IOModel,
    st: StateModel,
    synth: SynthState,
    ex: ExporterModel,
    b: FileBrowserModel,
    input: Input,
)
    requires
        input.events@ == seq![InputEvent::Undo] || input.events@ == seq![InputEvent::Redo],
        spec_focused(st) == PanelType::Music || spec_focused(st) == PanelType::Tracks,
    ensures
        spec_panel_ignores(io, st, synth, ex, b, input),
{
    let e = input.events@;
    if e == seq![InputEvent::Undo] {
        lemma_single_event(e, InputEvent::Undo);
    } else {
        lemma_single_event(e, InputEvent::Redo);
    }
    assert(!spec_select_track(st, e, InputEvent::PreviousTrack, InputEvent::NextTrack).1);
    if spec_focused(st) == PanelType::Tracks {
        assert(crate::tracks::spec_tracks_action(st, synth.programs@, e) == crate::tracks::TracksAction::Nothing);
    } else {
        assert(crate::music_panel::spec_music_action(st, e) == crate::music_panel::MusicAction::Nothing);
    }
}

/// A frame whose only event is an undo or a redo, without typing, where the panel focused after
/// the undo or redo takes no action on it: the undo or redo of the history is all that changes.
#[verifier::rlimit(80)]
#[verifier::spinoff_prover]
proof fn lemma_history_frame(
    io: IOModel,
    st: StateModel,
    synth: SynthState,
    ex: ExporterModel,
    b: FileBrowserModel,
    input: Input,
    has_save_path: bool,
    undo: bool,
)
    requires
        input.events@ == (if undo { seq![InputEvent::Undo] } else { seq![InputEvent::Redo] }),
        input.typed@.len() == 0,
        !input.backspace,
        input.new_notes@.len() == 0,
        !st.input.alphanumeric_input,
        ({
            let (h, st1, c) = if undo {
                crate::history::spec_undo(io.history, st)
            } else {
                crate::history::spec_redo(io.history, st)
            };
            spec_panel_ignores(IOModel { history: h, ..io }, st1, synth, ex, b, input)
        }),
    ensures
        ({
            let r = spec_io_update(io, st, synth, ex, b, input, false, has_save_path);
            let (h, st1, c) = if undo {
                crate::history::spec_undo(io.history, st)
            } else {
                crate::history::spec_redo(io.history, st)
            };
            &&& r.0 == IOModel { history: h, ..io }
            &&& r.1 == st1
            &&& r.2 == ex
            &&& !r.3
        }),
{
    let e = input.events@;
    lemma_single_event(e, if undo { InputEvent::Undo } else { InputEvent::Redo });
    assert(!e.contains(InputEvent::Quit) && !e.contains(InputEvent::ToggleAlphanumericInput));
    assert(!e.contains(InputEvent::NewFile) && !e.contains(InputEvent::OpenFile) && !e.contains(InputEvent::SaveFile));
    assert(!e.contains(InputEvent::SaveFileAs) && !e.contains(InputEvent::ExportFile) && !e.contains(InputEvent::ImportMidi));
    assert(!e.contains(InputEvent::EditConfig) && !e.contains(InputEvent::EnableLinksPanel) && !e.contains(InputEvent::PlayStop));
    assert(!e.contains(InputEvent::NextPanel) && !e.contains(InputEvent::PreviousPanel));
    assert(e.contains(InputEvent::Undo) == undo && e.contains(InputEvent::Redo) == !undo);
    let (io2, st2, ex2, e2, done) = spec_abc123_stage(io, st, synth, ex, input);
    assert(io2 == io && st2 == st && ex2 == ex && !done);
    let (io3, st3, e3) = spec_file_stage(io, st, ex, e, has_save_path);
    let (h, st1, c) = if undo {
        crate::history::spec_undo(io.history, st)
    } else {
        crate::history::spec_redo(io.history, st)
    };
    assert(io3 == IOModel { history: h, ..io } && st3 == st1);
    let (io4, st4, ex4, snap, e4) = spec_panel_update(io3, spec_focused(st3), st3, synth, ex, b, input);
    assert(io4 == io3 && st4 == st3 && ex4 == ex && snap is None);
}

/// Undo then redo is a round trip: without typing, and where the focused panel takes no action
/// on the undo or the redo, a frame that undoes the latest change (a change of state from `a`
/// to `b`) restores `a`, pops the change, and pushes its flip onto the redo stack; the next
/// frame, redoing, restores `b` and gives back the redo stack from before, with the change
/// (without its commands for the `IO` struct) on top of the undo stack again. Each restored
/// state is marked as having unsaved changes.
#[verifier::rlimit(50)]
#[verifier::spinoff_prover]
pub proof fn lemma_undo_then_redo_frames(
    io: IOModel,
    st: StateModel,
    synth: SynthState,
    ex: ExporterModel,
    b: FileBrowserModel,
    undo_input: Input,
    redo_input: Input,
    has_save_path: bool,
)
    requires
        io.history.undo.len() > 0,
        io.history.undo.last().from_state is Some,
        io.history.undo.last().to_state is Some,
        undo_input.events@ == seq![InputEvent::Undo],
        redo_input.events@ == seq![InputEvent::Redo],
        undo_input.typed@.len() == 0 && !undo_input.backspace && undo_input.new_notes@.len() == 0,
        redo_input.typed@.len() == 0 && !redo_input.backspace && redo_input.new_notes@.len() == 0,
        !st.input.alphanumeric_input,
        !io.history.undo.last().from_state.unwrap().input.alphanumeric_input,
        ({
            let (h1, st1, c1) = crate::history::spec_undo(io.history, st);
            let (h2, st2, c2) = crate::history::spec_redo(h1, st1);
            &&& spec_panel_ignores(IOModel { history: h1, ..io }, st1, synth, ex, b, undo_input)
            &&& spec_panel_ignores(IOModel { history: h2, ..io }, st2, synth, ex, b, redo_input)
        }),
    ensures
        ({
            let u = io.history.undo.last();
            let a = u.from_state.unwrap();
            let bb = u.to_state.unwrap();
            let r1 = spec_io_update(io, st, synth, ex, b, undo_input, false, has_save_path);
            let r2 = spec_io_update(r1.0, r1.1, synth, r1.2, b, redo_input, false, has_save_path);
            &&& r1.1 == StateModel { unsaved_changes: true, ..a }
            &&& r1.0.history.undo == io.history.undo.drop_last()
            &&& r1.0.history.redo == io.history.redo.push(crate::snapshot::spec_flip(u))
            &&& !r1.3
            &&& r2.1 == StateModel { unsaved_changes: true, ..bb }
            &&& r2.0.history.undo == io.history.undo.drop_last().push(
                crate::snapshot::spec_flip(crate::snapshot::spec_flip(u)),
            )
            &&& r2.0.history.redo == io.history.redo
            &&& r2.2 == ex
            &&& !r2.3
        }),
{
    lemma_history_frame(io, st, synth, ex, b, undo_input, has_save_path, true);
    let r1 = spec_io_update(io, st, synth, ex, b, undo_input, false, has_save_path);
    let u = io.history.undo.last();
    assert(r1.1 == StateModel { unsaved_changes: true, ..u.from_state.unwrap() });
    lemma_history_frame(r1.0, r1.1, synth, r1.2, b, redo_input, has_save_path, false);
    assert(r1.0.history.redo.last() == crate::snapshot::spec_flip(u));
    assert(r1.0.history.redo.drop_last() =~= io.history.redo);
}

} // verus!
