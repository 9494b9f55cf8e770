use vstd::prelude::*;

verus! {

/// The input events that a frame of user input can hold.
#[derive(Clone, Copy, Debug, PartialEq, Eq, Hash, Structural)]
pub enum InputEvent {
    Quit,
    ToggleAlphanumericInput,
    NewFile,
    OpenFile,
    SaveFile,
    SaveFileAs,
    ExportFile,
    ImportMidi,
    EditConfig,
    Undo,
    Redo,
    NextPanel,
    PreviousPanel,
    StopTTS,
    StatusTTS,
    InputTTS,
    FileTTS,
    AppTTS,
    EnableLinksPanel,
    PlayStop,
    PianoRollCycleMode,
    SelectStartLeft,
    SelectStartRight,
    SelectNone,
    SelectAll,
    SelectEndLeft,
    SelectEndRight,
    TimeCursorStart,
    TimeCursorEnd,
    TimeCursorLeft,
    TimeCursorRight,
    TimeCursorPlayback,
    TimeCursorBeat,
    TimePlaybackStart,
    TimePlaybackEnd,
    TimePlaybackLeft,
    TimePlaybackRight,
    TimePlaybackCursor,
    TimePlaybackBeat,
    EditStartLeft,
    EditStartRight,
    EditDurationLeft,
    EditDurationRight,
    EditPitchUp,
    EditPitchDown,
    EditVolumeUp,
    EditVolumeDown,
    ViewStart,
    ViewEnd,
    ViewLeft,
    ViewRight,
    ViewUp,
    ViewDown,
    ViewZoomIn,
    ViewZoomOut,
    ViewZoomDefault,
    PianoRollPreviousTrack,
    PianoRollNextTrack,
    CopyNotes,
    CutNotes,
    DeleteNotes,
    PasteNotes,
    Arm,
    PianoRollToggleTracks,
    InputBeatLeft,
    InputBeatRight,
    ToggleInputVolume,
    DecreaseInputVolume,
    IncreaseInputVolume,
    PianoRollSetEdit,
    PianoRollSetSelect,
    PianoRollSetTime,
    PianoRollSetView,
    PreviousTrack,
    NextTrack,
    AddTrack,
    RemoveTrack,
    EnableSoundFontPanel,
    NextPreset,
    PreviousPreset,
    NextBank,
    PreviousBank,
    IncreaseTrackGain,
    DecreaseTrackGain,
    Mute,
    Solo,
    NextEffect,
    PreviousEffect,
    IncrementEffectValue,
    DecrementEffectValue,
    IncrementAftertouchNote,
    DecrementAftertouchNote,
    NextMusicPanelField,
    PreviousMusicPanelField,
    DecreaseMusicGain,
    IncreaseMusicGain,
    PreviousExportSetting,
    NextExportSetting,
    PreviousExportSettingValue,
    NextExportSettingValue,
    ToggleExportSettingBoolean,
    CloseOpenFile,
    QuitPanelYes,
    QuitPanelNo,
    CloseLinksPanel,
    WebsiteUrl,
    DiscordUrl,
    GitHubUrl,
    UpDirectory,
    DownDirectory,
    PreviousPath,
    NextPath,
    SelectFile,
    CycleExportType,
    C,
    CSharp,
    D,
    DSharp,
    E,
    F,
    FSharp,
    G,
    GSharp,
    A,
    ASharp,
    B,
    OctaveUp,
    OctaveDown,
}

/// A note played on the keyboard or a MIDI device, to be added to the music.
#[derive(Clone, Copy, Debug, PartialEq, Eq, Structural)]
pub struct NoteOn {
    pub note: u8,
    pub velocity: u8,
}

/// The user input of one frame.
#[derive(Debug)]
pub struct Input {
    /// The events that happened.
    pub events: Vec<InputEvent>,
    /// New notes to add to the music.
    pub new_notes: Vec<NoteOn>,
    /// The characters typed in this frame, for a text or number field.
    pub typed: Vec<char>,
    /// Whether the key that deletes the last character of a text or number field was pressed.
    pub backspace: bool,
}

impl Input {
    /// Did this event happen?
    pub fn happened(&self, event: InputEvent) -> (r: bool)
        ensures
            r == self.events@.contains(event),
    {
        let n = self.events.len();
        for i in 0..n
            invariant
                n == self.events.len(),
                forall|j: int| 0 <= j < i ==> self.events@[j] != event,
        {
            if self.events[i] == event {
                return true;
            }
        }
        false
    }
}

/// A frame whose only event is `x` holds `x` and no other event.
pub proof fn lemma_only_event(x: InputEvent)
    ensures
        forall|y: InputEvent| #[trigger] seq![x].contains(y) <==> y == x,
{
    let e = seq![x];
    assert(e[0] == x);
    assert forall|y: InputEvent| #[trigger] e.contains(y) <==> y == x by {
        if e.contains(y) {
            let k = choose|k: int| 0 <= k < e.len() && e[k] == y;
            assert(k == 0);
        }
    }
}

} // verus!
