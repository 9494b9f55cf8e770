use vstd::prelude::*;
use crate::abc123::{edit_text, spec_edit_text};
use crate::exporter::{export_type_at, spec_export_type, ExportType, Exporter, ExporterModel};
use crate::index::{spec_step_up, Index};
use crate::input::{lemma_only_event, Input, InputEvent};
use crate::model::{PanelType, State, StateModel};
use crate::piano_roll::panel::spec_track;
use crate::popup::{spec_popup_closed, spec_with_panels, Popup, PopupModel};
use crate::snapshot::{
    one_command, one_io_command, opt_snapshot_view, spec_snap_commands, spec_snap_io, Command, CommandModel,
    IOCommand, OpenFileType, Snapshot, SnapshotModel,
};
use crate::speech::{
    add_phrase, add_utterance, ev1, ev2, join, say, silence, speech_view, spec_each, spec_text, spec_text1, spec_tip,
    spec_tip1, text, text1, tip, tip1, PhraseModel, Utterance, Value, ValueModel,
};

verus! {

/// The extensions of the files that the open-file panel lists.
#[derive(Clone, Copy, Debug, PartialEq, Eq, Structural)]
pub enum Extension {
    Cac,
    Sf2,
    Mid,
    Wav,
    MP3,
    Ogg,
    Flac,
}

/// The extension of an export type.
pub open spec fn spec_type_extension(e: ExportType) -> Extension {
    match e {
        ExportType::Wav => Extension::Wav,
        ExportType::Mid => Extension::Mid,
        ExportType::MP3 => Extension::MP3,
        ExportType::Ogg => Extension::Ogg,
        ExportType::Flac => Extension::Flac,
    }
}

/// The extension of an export type.
pub fn type_extension(e: ExportType) -> (r: Extension)
    ensures
        r == spec_type_extension(e),
{
    match e {
        ExportType::Wav => Extension::Wav,
        ExportType::Mid => Extension::Mid,
        ExportType::MP3 => Extension::MP3,
        ExportType::Ogg => Extension::Ogg,
        ExportType::Flac => Extension::Flac,
    }
}

/// The extension with its leading period, as it ends a file name.
pub open spec fn spec_dotted(x: Extension) -> Seq<char> {
    match x {
        Extension::Cac => seq!['.', 'c', 'a', 'c'],
        Extension::Sf2 => seq!['.', 's', 'f', '2'],
        Extension::Mid => seq!['.', 'm', 'i', 'd'],
        Extension::Wav => seq!['.', 'w', 'a', 'v'],
        Extension::MP3 => seq!['.', 'm', 'p', '3'],
        Extension::Ogg => seq!['.', 'o', 'g', 'g'],
        Extension::Flac => seq!['.', 'f', 'l', 'a', 'c'],
    }
}

/// The extension with its leading period, as it ends a file name.
pub fn dotted(x: Extension) -> (r: &'static str)
    ensures
        r@ == spec_dotted(x),
{
    match x {
        Extension::Cac => {
            proof {
                reveal_strlit(".cac");
            }
            ".cac"
        },
        Extension::Sf2 => {
            proof {
                reveal_strlit(".sf2");
            }
            ".sf2"
        },
        Extension::Mid => {
            proof {
                reveal_strlit(".mid");
            }
            ".mid"
        },
        Extension::Wav => {
            proof {
                reveal_strlit(".wav");
            }
            ".wav"
        },
        Extension::MP3 => {
            proof {
                reveal_strlit(".mp3");
            }
            ".mp3"
        },
        Extension::Ogg => {
            proof {
                reveal_strlit(".ogg");
            }
            ".ogg"
        },
        Extension::Flac => {
            proof {
                reveal_strlit(".flac");
            }
            ".flac"
        },
    }
}

/// The folders that the open-file panel browses.
#[derive(Clone, Copy, Debug, PartialEq, Eq, Structural)]
pub enum Folder {
    Saves,
    SoundFonts,
    Exports,
    Midis,
}

/// A request to list the files of a folder with an extension.
#[derive(Clone, Copy, Debug, PartialEq, Eq, Structural)]
pub struct Listing {
    pub folder: Folder,
    pub extension: Extension,
}

/// What the open-file panel reads of the file browser.
#[derive(Debug)]
pub struct FileBrowser {
    /// The file name being typed for the current kind of file, if any.
    pub filename: Option<String>,
    /// The position of the selected path, if any.
    pub selected: Option<usize>,
    /// Whether the selected path is a file (else it is a directory).
    pub selected_is_file: bool,
    /// The selected path.
    pub selected_path: String,
    /// The file name to save to, if any.
    pub saves_filename: Option<String>,
    /// The file name to export to, if any.
    pub exports_filename: Option<String>,
    /// The name of the current directory.
    pub directory: String,
    /// The name of the parent of the current directory, if it has one.
    pub parent: Option<String>,
    /// The number of paths listed.
    pub num_paths: usize,
    /// The name of the selected path: a file's name without its extension, or a directory's
    /// name.
    pub selected_name: String,
}

/// The mathematical value of what the open-file panel reads of the file browser.
pub struct FileBrowserModel {
    pub filename: Option<Seq<char>>,
    pub selected: Option<usize>,
    pub selected_is_file: bool,
    pub selected_path: Seq<char>,
    pub saves_filename: Option<Seq<char>>,
    pub exports_filename: Option<Seq<char>>,
    pub directory: Seq<char>,
    pub parent: Option<Seq<char>>,
    pub num_paths: usize,
    pub selected_name: Seq<char>,
}

impl View for FileBrowser {
    type V = FileBrowserModel;

    open spec fn view(&self) -> FileBrowserModel {
        FileBrowserModel {
            filename: crate::exporter::opt_string_view(self.filename),
            selected: self.selected,
            selected_is_file: self.selected_is_file,
            selected_path: self.selected_path@,
            saves_filename: crate::exporter::opt_string_view(self.saves_filename),
            exports_filename: crate::exporter::opt_string_view(self.exports_filename),
            directory: self.directory@,
            parent: crate::exporter::opt_string_view(self.parent),
            num_paths: self.num_paths,
            selected_name: self.selected_name@,
        }
    }
}

/// What the app does with the file browser after the open-file panel handled a frame of input.
#[derive(Debug)]
pub enum OpenFileAction {
    Nothing,
    /// List the files of a folder.
    List(Listing),
    /// Set the file name being typed.
    SetFilename(String),
    /// Go up a directory, listing files with the extension.
    UpDirectory(Extension),
    /// Go down into the selected directory, listing files with the extension.
    DownDirectory(Extension),
    /// Select the previous (true) or next (false) path.
    Scroll(bool),
    /// Read the save file at this path, and remember it as the save file.
    ReadSave(String),
    /// Write a save file with this name in the saves folder.
    WriteSave(String),
    /// Export the music to a MIDI file with this name in the exports folder.
    ExportMid(String),
    /// Export the music to an audio file with this name in the exports folder.
    ExportAudio(String),
    /// Import the MIDI file at this path.
    ImportMidi(String),
}

/// The mathematical value of an open-file action.
pub enum OpenFileActionModel {
    Nothing,
    List(Listing),
    SetFilename(Seq<char>),
    UpDirectory(Extension),
    DownDirectory(Extension),
    Scroll(bool),
    ReadSave(Seq<char>),
    WriteSave(Seq<char>),
    ExportMid(Seq<char>),
    ExportAudio(Seq<char>),
    ImportMidi(Seq<char>),
}

impl View for OpenFileAction {
    type V = OpenFileActionModel;

    open spec fn view(&self) -> OpenFileActionModel {
        match self {
            OpenFileAction::Nothing => OpenFileActionModel::Nothing,
            OpenFileAction::List(l) => OpenFileActionModel::List(*l),
            OpenFileAction::SetFilename(s) => OpenFileActionModel::SetFilename(s@),
            OpenFileAction::UpDirectory(x) => OpenFileActionModel::UpDirectory(*x),
            OpenFileAction::DownDirectory(x) => OpenFileActionModel::DownDirectory(*x),
            OpenFileAction::Scroll(b) => OpenFileActionModel::Scroll(*b),
            OpenFileAction::ReadSave(s) => OpenFileActionModel::ReadSave(s@),
            OpenFileAction::WriteSave(s) => OpenFileActionModel::WriteSave(s@),
            OpenFileAction::ExportMid(s) => OpenFileActionModel::ExportMid(s@),
            OpenFileAction::ExportAudio(s) => OpenFileActionModel::ExportAudio(s@),
            OpenFileAction::ImportMidi(s) => OpenFileActionModel::ImportMidi(s@),
        }
    }
}

/// The extension of the files that a kind of file browsing lists.
pub open spec fn spec_extension(t: OpenFileType, ex: ExporterModel) -> Extension {
    match t {
        OpenFileType::Export => spec_type_extension(ex.current_type()),
        OpenFileType::ReadSave | OpenFileType::WriteSave => Extension::Cac,
        OpenFileType::SoundFont => Extension::Sf2,
        OpenFileType::ImportMidi => Extension::Mid,
    }
}

/// The panels that the open-file panel shows: with the export settings when exporting.
pub open spec fn spec_open_file_panels(t: OpenFileType) -> Seq<PanelType> {
    if t == OpenFileType::Export {
        seq![PanelType::OpenFile, PanelType::ExportSettings]
    } else {
        seq![PanelType::OpenFile]
    }
}

/// The mathematical value of the open-file panel.
#[verifier::ext_equal]
pub struct OpenFileModel {
    pub popup: PopupModel,
    pub open_file_type: OpenFileType,
}

impl View for OpenFilePanel {
    type V = OpenFileModel;

    open spec fn view(&self) -> OpenFileModel {
        OpenFileModel { popup: self.popup@, open_file_type: self.open_file_type }
    }
}

/// The key of the tooltip of selecting a file of a kind.
pub open spec fn spec_select_key(t: OpenFileType) -> Seq<char> {
    match t {
        OpenFileType::ReadSave => "OPEN_FILE_PANEL_INPUT_TTS_READ_SAVE"@,
        OpenFileType::Export => "OPEN_FILE_PANEL_INPUT_TTS_EXPORT"@,
        OpenFileType::SoundFont => "OPEN_FILE_PANEL_INPUT_TTS_SOUNDFONT"@,
        OpenFileType::WriteSave => "OPEN_FILE_PANEL_INPUT_TTS_WRITE_SAVE"@,
        OpenFileType::ImportMidi => "OPEN_FILE_PANEL_INPUT_TTS_IMPORT_MIDI"@,
    }
}

/// The status of the open-file panel: the current directory, the export type when exporting,
/// and the selected path.
pub open spec fn spec_open_file_status(t: OpenFileType, ex: ExporterModel, b: FileBrowserModel) -> Seq<PhraseModel> {
    let cwd = seq![spec_text1("OPEN_FILE_PANEL_STATUS_TTS_CWD"@, ValueModel::Str(b.directory))];
    let export = if t == OpenFileType::Export {
        seq![
            spec_text1(
                "OPEN_FILE_PANEL_STATUS_TTS_EXPORT"@,
                ValueModel::Extension(spec_type_extension(ex.current_type())),
            ),
        ]
    } else {
        seq![]
    };
    let selection = match b.selected {
        Some(_) => seq![spec_text1("OPEN_FILE_PANEL_STATUS_TTS_SELECTION"@, ValueModel::File(b.selected_name))],
        None => seq![spec_text("OPEN_FILE_PANEL_STATUS_TTS_NO_SELECTION"@)],
    };
    cwd + export + selection
}

/// The input that the open-file panel takes: up a directory (if there is a parent), scrolling
/// (if more than one path is listed), the next export type (when exporting), selecting the
/// selected file or going down into the selected directory, and closing the panel.
pub open spec fn spec_open_file_input(t: OpenFileType, ex: ExporterModel, b: FileBrowserModel) -> Seq<PhraseModel> {
    let up = match b.parent {
        Some(p) => seq![
            spec_tip1("OPEN_FILE_PANEL_INPUT_TTS_UP_DIRECTORY"@, seq![InputEvent::UpDirectory], ValueModel::Str(p)),
        ],
        None => seq![],
    };
    let scroll = if b.num_paths > 1 {
        seq![spec_tip("OPEN_FILE_PANEL_INPUT_TTS_SCROLL"@, seq![InputEvent::PreviousPath, InputEvent::NextPath])]
    } else {
        seq![]
    };
    let export = if t == OpenFileType::Export {
        seq![
            spec_tip1(
                "OPEN_FILE_PANEL_INPUT_TTS_CYCLE_EXPORT"@,
                seq![InputEvent::CycleExportType],
                ValueModel::Extension(spec_type_extension(spec_export_type(spec_step_up(ex.export_type).index))),
            ),
        ]
    } else {
        seq![]
    };
    let selection = match b.selected {
        Some(_) => if b.selected_is_file {
            seq![spec_tip1(spec_select_key(t), seq![InputEvent::SelectFile], ValueModel::Str(b.selected_name))]
        } else {
            seq![
                spec_tip1(
                    "OPEN_FILE_PANEL_INPUT_TTS_DOWN_DIRECTORY"@,
                    seq![InputEvent::DownDirectory],
                    ValueModel::Str(b.selected_name),
                ),
            ]
        },
        None => seq![],
    };
    up + scroll + export + selection + seq![spec_tip("OPEN_FILE_PANEL_INPUT_TTS_CLOSE"@, seq![InputEvent::CloseOpenFile])]
}

/// What the open-file panel says: unless a typed file name changed, its status as one
/// utterance, or the input that it takes, each tooltip on its own.
pub open spec fn spec_open_file_speech(
    p: OpenFileModel,
    ex: ExporterModel,
    b: FileBrowserModel,
    e: Seq<InputEvent>,
    typed: Seq<char>,
    backspace: bool,
) -> Seq<Seq<PhraseModel>> {
    let t = p.open_file_type;
    let name = match b.filename {
        Some(f) => f,
        None => Seq::empty(),
    };
    if t != OpenFileType::SoundFont && t != OpenFileType::ReadSave && spec_edit_text(name, typed, backspace).1 {
        seq![]
    } else if e.contains(InputEvent::StatusTTS) {
        seq![spec_open_file_status(t, ex, b)]
    } else if e.contains(InputEvent::InputTTS) {
        spec_each(spec_open_file_input(t, ex, b))
    } else {
        seq![]
    }
}

/// What the open-file panel does with a frame of input: the new state, the new export settings,
/// the snapshot made, if any, and what the app does with the file browser. What it says is
/// given by `spec_open_file_speech`.
pub open spec fn spec_open_file_update(
    p: OpenFileModel,
    st: StateModel,
    ex: ExporterModel,
    b: FileBrowserModel,
    e: Seq<InputEvent>,
    typed: Seq<char>,
    backspace: bool,
) -> (StateModel, ExporterModel, Option<SnapshotModel>, OpenFileActionModel) {
    let t = p.open_file_type;
    let closed = spec_popup_closed(p.popup, st);
    let name = match b.filename {
        Some(f) => f,
        None => Seq::empty(),
    };
    let (typed_name, changed) = spec_edit_text(name, typed, backspace);
    let nothing = (st, ex, None, OpenFileActionModel::Nothing);
    if t != OpenFileType::SoundFont && t != OpenFileType::ReadSave && changed {
        (st, ex, None, OpenFileActionModel::SetFilename(typed_name))
    } else if e.contains(InputEvent::StatusTTS) || e.contains(InputEvent::InputTTS) {
        nothing
    } else if e.contains(InputEvent::UpDirectory) {
        (st, ex, None, OpenFileActionModel::UpDirectory(spec_extension(t, ex)))
    } else if e.contains(InputEvent::DownDirectory) {
        (st, ex, None, OpenFileActionModel::DownDirectory(spec_extension(t, ex)))
    } else if e.contains(InputEvent::PreviousPath) {
        (st, ex, None, OpenFileActionModel::Scroll(true))
    } else if e.contains(InputEvent::NextPath) {
        (st, ex, None, OpenFileActionModel::Scroll(false))
    } else if t == OpenFileType::Export && e.contains(InputEvent::CycleExportType) {
        let ex1 = ExporterModel { export_type: spec_step_up(ex.export_type), ..ex };
        (
            st,
            ex1,
            None,
            OpenFileActionModel::List(
                Listing { folder: Folder::Exports, extension: spec_type_extension(ex1.current_type()) },
            ),
        )
    } else if e.contains(InputEvent::SelectFile) {
        match t {
            OpenFileType::ReadSave => if b.selected is Some {
                (closed, ex, None, OpenFileActionModel::ReadSave(b.selected_path))
            } else {
                nothing
            },
            OpenFileType::SoundFont => if b.selected is Some {
                if b.selected_is_file {
                    let c = spec_track(st).channel;
                    (
                        closed,
                        ex,
                        Some(
                            spec_snap_commands(
                                seq![CommandModel::UnsetProgram { channel: c }],
                                seq![CommandModel::LoadSoundFont { channel: c, path: b.selected_path }],
                            ),
                        ),
                        OpenFileActionModel::Nothing,
                    )
                } else {
                    (closed, ex, None, OpenFileActionModel::Nothing)
                }
            } else {
                nothing
            },
            OpenFileType::WriteSave => match b.saves_filename {
                Some(f) => (
                    StateModel { unsaved_changes: false, ..closed },
                    ex,
                    None,
                    OpenFileActionModel::WriteSave(f + spec_dotted(Extension::Cac)),
                ),
                None => nothing,
            },
            OpenFileType::Export => match b.exports_filename {
                Some(f) => {
                    let name = f + spec_dotted(spec_type_extension(ex.current_type()));
                    if ex.current_type() == ExportType::Mid {
                        (closed, ex, None, OpenFileActionModel::ExportMid(name))
                    } else {
                        (closed, ex, Some(spec_snap_io(seq![IOCommand::Export])), OpenFileActionModel::ExportAudio(name))
                    }
                },
                None => nothing,
            },
            OpenFileType::ImportMidi => if b.selected is Some {
                (
                    StateModel { unsaved_changes: true, ..closed },
                    ex,
                    None,
                    OpenFileActionModel::ImportMidi(b.selected_path),
                )
            } else {
                nothing
            },
        }
    } else if e.contains(InputEvent::CloseOpenFile) {
        (closed, ex, None, OpenFileActionModel::Nothing)
    } else {
        nothing
    }
}

/// Moving through the folders in the open-file panel, for a frame whose only event is a move and
/// with nothing typed: the previous path scrolls up and the next path scrolls down; up and down a
/// directory ask the host to go to the parent or into the selected directory, listing the files
/// of the panel's kind; the state and the export settings stay, and nothing is recorded. Selecting
/// a save file to read closes the panel and asks the host to read the selected path.
pub proof fn lemma_open_file_moves(
    p: OpenFileModel,
    st: StateModel,
    ex: ExporterModel,
    b: FileBrowserModel,
    x: InputEvent,
)
    requires
        x == InputEvent::PreviousPath || x == InputEvent::NextPath || x == InputEvent::UpDirectory
            || x == InputEvent::DownDirectory || x == InputEvent::SelectFile,
    ensures
        ({
            let (st1, ex1, snap, a) = spec_open_file_update(p, st, ex, b, seq![x], Seq::empty(), false);
            let ext = spec_extension(p.open_file_type, ex);
            &&& x == InputEvent::PreviousPath ==> st1 == st && ex1 == ex && snap is None && a
                == OpenFileActionModel::Scroll(true)
            &&& x == InputEvent::NextPath ==> st1 == st && ex1 == ex && snap is None && a
                == OpenFileActionModel::Scroll(false)
            &&& x == InputEvent::UpDirectory ==> st1 == st && ex1 == ex && snap is None && a
                == OpenFileActionModel::UpDirectory(ext)
            &&& x == InputEvent::DownDirectory ==> st1 == st && ex1 == ex && snap is None && a
                == OpenFileActionModel::DownDirectory(ext)
            &&& x == InputEvent::SelectFile && p.open_file_type == OpenFileType::ReadSave && b.selected is Some
                ==> ex1 == ex && snap is None && a == OpenFileActionModel::ReadSave(b.selected_path) && st1
                == StateModel {
                panels: p.popup.panels,
                focus: Index { index: p.popup.focus, length: p.popup.panels.len() as usize },
                ..st
            }
        }),
{
    lemma_only_event(x);
    let name = match b.filename {
        Some(f) => f,
        None => Seq::empty(),
    };
    assert(spec_edit_text(name, Seq::empty(), false).1 == false);
}

/// A file browser for reading and writing saves, loading SoundFonts, exporting, and importing.
#[derive(Debug)]
pub struct OpenFilePanel {
    /// Remembers the panels that were active before this one.
    pub popup: Popup,
    /// What the browser is for.
    pub open_file_type: OpenFileType,
}

impl OpenFilePanel {
    pub fn new() -> (r: OpenFilePanel)
        ensures
            r.popup.panels@ == Seq::<PanelType>::empty(),
            r.popup.focus == 0,
            r.open_file_type == OpenFileType::ReadSave,
    {
        OpenFilePanel { popup: Popup::new(), open_file_type: OpenFileType::ReadSave }
    }

    /// Show the panel (with the export settings when exporting) and set what it is for.
    fn enable(&mut self, open_file_type: OpenFileType, state: &mut State)
        ensures
            final(self).open_file_type == open_file_type,
            final(self).popup.focus == old(state).focus.index,
            final(self).popup.panels@ == old(state).panels@,
            final(state)@ == spec_with_panels(
                old(state)@,
                spec_open_file_panels(open_file_type),
                Index { index: 0, length: spec_open_file_panels(open_file_type).len() as usize },
            ),
    {
        let mut panels: Vec<PanelType> = Vec::new();
        panels.push(PanelType::OpenFile);
        if open_file_type == OpenFileType::Export {
            panels.push(PanelType::ExportSettings);
        }
        proof {
            assert(panels@ =~= spec_open_file_panels(open_file_type));
        }
        self.popup.enable(state, panels);
        self.open_file_type = open_file_type;
    }

    /// Show the panel to load a SoundFont. Returns the files to list.
    pub fn soundfont(&mut self, state: &mut State) -> (r: Listing)
        ensures
            final(self).open_file_type == OpenFileType::SoundFont,
            final(self).popup.focus == old(state).focus.index,
            final(self).popup.panels@ == old(state).panels@,
            final(state)@ == spec_with_panels(old(state)@, seq![PanelType::OpenFile], Index { index: 0, length: 1 }),
            r == (Listing { folder: Folder::SoundFonts, extension: Extension::Sf2 }),
    {
        self.enable(OpenFileType::SoundFont, state);
        Listing { folder: Folder::SoundFonts, extension: Extension::Sf2 }
    }

    /// Show the panel for a save file. Returns the files to list.
    fn enable_as_save(&mut self, open_file_type: OpenFileType, state: &mut State) -> (r: Listing)
        requires
            open_file_type == OpenFileType::ReadSave || open_file_type == OpenFileType::WriteSave,
        ensures
            final(self).open_file_type == open_file_type,
            final(self).popup.focus == old(state).focus.index,
            final(self).popup.panels@ == old(state).panels@,
            final(state)@ == spec_with_panels(old(state)@, seq![PanelType::OpenFile], Index { index: 0, length: 1 }),
            r == (Listing { folder: Folder::Saves, extension: Extension::Cac }),
    {
        self.enable(open_file_type, state);
        Listing { folder: Folder::Saves, extension: Extension::Cac }
    }

    /// Show the panel to read a save file. Returns the files to list.
    pub fn read_save(&mut self, state: &mut State) -> (r: Listing)
        ensures
            final(self).open_file_type == OpenFileType::ReadSave,
            final(self).popup.focus == old(state).focus.index,
            final(self).popup.panels@ == old(state).panels@,
            final(state)@ == spec_with_panels(old(state)@, seq![PanelType::OpenFile], Index { index: 0, length: 1 }),
            r == (Listing { folder: Folder::Saves, extension: Extension::Cac }),
    {
        self.enable_as_save(OpenFileType::ReadSave, state)
    }

    /// Show the panel to write a save file. Returns the files to list: save files in the MIDI
    /// folder.
    pub fn write_save(&mut self, state: &mut State) -> (r: Listing)
        ensures
            final(self).open_file_type == OpenFileType::WriteSave,
            final(self).popup.focus == old(state).focus.index,
            final(self).popup.panels@ == old(state).panels@,
            final(state)@ == spec_with_panels(old(state)@, seq![PanelType::OpenFile], Index { index: 0, length: 1 }),
            r == (Listing { folder: Folder::Midis, extension: Extension::Cac }),
    {
        self.enable_as_save(OpenFileType::WriteSave, state);
        Listing { folder: Folder::Midis, extension: Extension::Cac }
    }

    /// Show the panel to choose the export file. Returns the files to list.
    pub fn export(&mut self, state: &mut State, exporter: &Exporter) -> (r: Listing)
        ensures
            final(self).open_file_type == OpenFileType::Export,
            final(self).popup.focus == old(state).focus.index,
            final(self).popup.panels@ == old(state).panels@,
            final(state)@ == spec_with_panels(
                old(state)@,
                seq![PanelType::OpenFile, PanelType::ExportSettings],
                Index { index: 0, length: 2 },
            ),
            r == (Listing { folder: Folder::Exports, extension: spec_type_extension(exporter@.current_type()) }),
    {
        let extension = type_extension(exporter.get_export_type());
        self.enable(OpenFileType::Export, state);
        Listing { folder: Folder::Exports, extension }
    }

    /// Show the panel to import a MIDI file. Returns the files to list.
    pub fn import_midi(&mut self, state: &mut State) -> (r: Listing)
        ensures
            final(self).open_file_type == OpenFileType::ImportMidi,
            final(self).popup.focus == old(state).focus.index,
            final(self).popup.panels@ == old(state).panels@,
            final(state)@ == spec_with_panels(old(state)@, seq![PanelType::OpenFile], Index { index: 0, length: 1 }),
            r == (Listing { folder: Folder::Midis, extension: Extension::Mid }),
    {
        self.enable(OpenFileType::ImportMidi, state);
        Listing { folder: Folder::Midis, extension: Extension::Mid }
    }

    /// What the open-file panel says in a frame of input.
    pub fn speech(&self, exporter: &Exporter, browser: &FileBrowser, input: &Input) -> (r: Vec<Utterance>)
        ensures
            speech_view(r@) == spec_open_file_speech(
                self@,
                exporter@,
                browser@,
                input.events@,
                input.typed@,
                input.backspace,
            ),
    {
        let mut r = silence();
        let t = self.open_file_type;
        if t != OpenFileType::SoundFont && t != OpenFileType::ReadSave {
            let mut filename = match &browser.filename {
                Some(f) => f.clone(),
                None => String::new(),
            };
            if edit_text(&mut filename, input) {
                return r;
            }
        }
        if input.happened(InputEvent::StatusTTS) {
            let mut u = say(text1("OPEN_FILE_PANEL_STATUS_TTS_CWD", Value::Str(browser.directory.clone())));
            if t == OpenFileType::Export {
                join(
                    &mut u,
                    text1(
                        "OPEN_FILE_PANEL_STATUS_TTS_EXPORT",
                        Value::Extension(type_extension(exporter.get_export_type())),
                    ),
                );
            }
            match browser.selected {
                Some(_) => join(
                    &mut u,
                    text1("OPEN_FILE_PANEL_STATUS_TTS_SELECTION", Value::File(browser.selected_name.clone())),
                ),
                None => join(&mut u, text("OPEN_FILE_PANEL_STATUS_TTS_NO_SELECTION")),
            }
            proof {
                assert(u@ =~= spec_open_file_status(t, exporter@, browser@));
            }
            add_utterance(&mut r, u);
            proof {
                assert(speech_view(r@) =~= seq![spec_open_file_status(t, exporter@, browser@)]);
            }
            return r;
        }
        if !input.happened(InputEvent::InputTTS) {
            return r;
        }
        match &browser.parent {
            Some(p) => add_phrase(
                &mut r,
                tip1("OPEN_FILE_PANEL_INPUT_TTS_UP_DIRECTORY", ev1(InputEvent::UpDirectory), Value::Str(p.clone())),
            ),
            None => {},
        }
        if browser.num_paths > 1 {
            add_phrase(&mut r, tip("OPEN_FILE_PANEL_INPUT_TTS_SCROLL", ev2(InputEvent::PreviousPath, InputEvent::NextPath)));
        }
        if t == OpenFileType::Export {
            let mut next = exporter.export_type;
            next.increment(true);
            add_phrase(
                &mut r,
                tip1(
                    "OPEN_FILE_PANEL_INPUT_TTS_CYCLE_EXPORT",
                    ev1(InputEvent::CycleExportType),
                    Value::Extension(type_extension(export_type_at(next.get()))),
                ),
            );
        }
        match browser.selected {
            Some(_) => {
                if browser.selected_is_file {
                    let key = match t {
                        OpenFileType::ReadSave => "OPEN_FILE_PANEL_INPUT_TTS_READ_SAVE",
                        OpenFileType::Export => "OPEN_FILE_PANEL_INPUT_TTS_EXPORT",
                        OpenFileType::SoundFont => "OPEN_FILE_PANEL_INPUT_TTS_SOUNDFONT",
                        OpenFileType::WriteSave => "OPEN_FILE_PANEL_INPUT_TTS_WRITE_SAVE",
                        OpenFileType::ImportMidi => "OPEN_FILE_PANEL_INPUT_TTS_IMPORT_MIDI",
                    };
                    add_phrase(&mut r, tip1(key, ev1(InputEvent::SelectFile), Value::Str(browser.selected_name.clone())));
                } else {
                    add_phrase(
                        &mut r,
                        tip1(
                            "OPEN_FILE_PANEL_INPUT_TTS_DOWN_DIRECTORY",
                            ev1(InputEvent::DownDirectory),
                            Value::Str(browser.selected_name.clone()),
                        ),
                    );
                }
            },
            None => {},
        }
        add_phrase(&mut r, tip("OPEN_FILE_PANEL_INPUT_TTS_CLOSE", ev1(InputEvent::CloseOpenFile)));
        proof {
            assert(speech_view(r@) =~= spec_each(spec_open_file_input(t, exporter@, browser@)));
        }
        r
    }

    /// The extension of the files that the panel lists.
    fn get_extension(&self, exporter: &Exporter) -> (r: Extension)
        ensures
            r == spec_extension(self.open_file_type, exporter@),
    {
        match self.open_file_type {
            OpenFileType::Export => type_extension(exporter.get_export_type()),
            OpenFileType::ReadSave | OpenFileType::WriteSave => Extension::Cac,
            OpenFileType::SoundFont => Extension::Sf2,
            OpenFileType::ImportMidi => Extension::Mid,
        }
    }

    /// Hide the panel: restore the panels from before it.
    pub fn disable(&self, state: &mut State)
        ensures
            final(state)@ == spec_popup_closed(self.popup@, old(state)@),
    {
        self.popup.disable(state);
    }

    /// A file name with an extension appended.
    fn with_extension(name: &String, x: Extension) -> (r: String)
        ensures
            r@ == name@ + spec_dotted(x),
    {
        let mut s = name.clone();
        s.append(dotted(x));
        s
    }

    /// Apply a frame of input: type the file name, browse, cycle the export type, choose a file,
    /// or close the panel.
    pub fn update(&self, state: &mut State, exporter: &mut Exporter, browser: &FileBrowser, input: &Input) -> (r: (
        Option<Snapshot>,
        OpenFileAction,
    ))
        requires
            old(state)@.wf(),
            self.open_file_type == OpenFileType::SoundFont ==> old(state).music.selected is Some,
        ensures
            (final(state)@, final(exporter)@, opt_snapshot_view(r.0), r.1@) == spec_open_file_update(
                self@,
                old(state)@,
                old(exporter)@,
                browser@,
                input.events@,
                input.typed@,
                input.backspace,
            ),
    {
        let ghost st0 = state@;
        let t = self.open_file_type;
        if t != OpenFileType::SoundFont && t != OpenFileType::ReadSave {
            let mut filename = match &browser.filename {
                Some(f) => f.clone(),
                None => String::new(),
            };
            if edit_text(&mut filename, input) {
                return (None, OpenFileAction::SetFilename(filename));
            }
        }
        if input.happened(InputEvent::StatusTTS) || input.happened(InputEvent::InputTTS) {
            return (None, OpenFileAction::Nothing);
        }
        if input.happened(InputEvent::UpDirectory) {
            return (None, OpenFileAction::UpDirectory(self.get_extension(exporter)));
        }
        if input.happened(InputEvent::DownDirectory) {
            return (None, OpenFileAction::DownDirectory(self.get_extension(exporter)));
        }
        if input.happened(InputEvent::PreviousPath) {
            return (None, OpenFileAction::Scroll(true));
        }
        if input.happened(InputEvent::NextPath) {
            return (None, OpenFileAction::Scroll(false));
        }
        if t == OpenFileType::Export && input.happened(InputEvent::CycleExportType) {
            exporter.export_type.increment(true);
            let extension = type_extension(exporter.get_export_type());
            return (None, OpenFileAction::List(Listing { folder: Folder::Exports, extension }));
        }
        if input.happened(InputEvent::SelectFile) {
            match t {
                OpenFileType::ReadSave => {
                    if browser.selected.is_some() {
                        self.disable(state);
                        return (None, OpenFileAction::ReadSave(browser.selected_path.clone()));
                    }
                },
                OpenFileType::SoundFont => {
                    if browser.selected.is_some() {
                        let t = state.music.selected.unwrap();
                        proof {
                            assert(spec_track(st0) == state.music.midi_tracks@[t as int]@);
                        }
                        let channel = state.music.midi_tracks[t].channel;
                        self.disable(state);
                        if browser.selected_is_file {
                            let c0 = one_command(Command::UnsetProgram { channel });
                            let c1 = one_command(
                                Command::LoadSoundFont { channel, path: browser.selected_path.clone() },
                            );
                            return (Some(Snapshot::from_commands(c0, &c1)), OpenFileAction::Nothing);
                        }
                        return (None, OpenFileAction::Nothing);
                    }
                },
                OpenFileType::WriteSave => {
                    if let Some(f) = &browser.saves_filename {
                        self.disable(state);
                        state.unsaved_changes = false;
                        let name = OpenFilePanel::with_extension(f, Extension::Cac);
                        return (None, OpenFileAction::WriteSave(name));
                    }
                },
                OpenFileType::Export => {
                    if let Some(f) = &browser.exports_filename {
                        self.disable(state);
                        let export_type = exporter.get_export_type();
                        let name = OpenFilePanel::with_extension(f, type_extension(export_type));
                        if export_type == ExportType::Mid {
                            return (None, OpenFileAction::ExportMid(name));
                        } else {
                            return (
                                Some(Snapshot::from_io_commands(one_io_command(IOCommand::Export))),
                                OpenFileAction::ExportAudio(name),
                            );
                        }
                    }
                },
                OpenFileType::ImportMidi => {
                    if browser.selected.is_some() {
                        state.unsaved_changes = true;
                        self.disable(state);
                        return (None, OpenFileAction::ImportMidi(browser.selected_path.clone()));
                    }
                },
            }
            return (None, OpenFileAction::Nothing);
        }
        if input.happened(InputEvent::CloseOpenFile) {
            self.disable(state);
        }
        (None, OpenFileAction::Nothing)
    }
}

} // verus!
