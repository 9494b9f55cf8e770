use vstd::prelude::*;
use crate::model::{State, StateModel};

verus! {

/// The files that the open-file panel can be used for.
#[derive(Clone, Copy, Debug, PartialEq, Eq, Structural)]
pub enum OpenFileType {
    /// Read a save file.
    ReadSave,
    /// Read a SoundFont.
    SoundFont,
    /// Write a save file.
    WriteSave,
    /// Export audio or MIDI.
    Export,
    /// Import a MIDI file.
    ImportMidi,
}

/// Commands for the `IO` struct itself.
#[derive(Clone, Copy, Debug, PartialEq, Eq, Structural)]
pub enum IOCommand {
    /// Enable the open-file panel.
    EnableOpenFile(OpenFileType),
    /// Begin to export.
    Export,
    /// Close the open-file panel.
    CloseOpenFile,
    /// Quit the application.
    Quit,
}

/// A command for the synthesizer.
#[derive(Debug)]
pub enum Command {
    SetGain { gain: u8 },
    LoadSoundFont { channel: u8, path: String },
    SetProgram { channel: u8, path: String, bank_index: usize, preset_index: usize },
    UnsetProgram { channel: u8 },
}

/// The mathematical value of a synthesizer command.
pub enum CommandModel {
    SetGain { gain: u8 },
    LoadSoundFont { channel: u8, path: Seq<char> },
    SetProgram { channel: u8, path: Seq<char>, bank_index: usize, preset_index: usize },
    UnsetProgram { channel: u8 },
}

impl View for Command {
    type V = CommandModel;

    open spec fn view(&self) -> CommandModel {
        match self {
            Command::SetGain { gain } => CommandModel::SetGain { gain: *gain },
            Command::LoadSoundFont { channel, path } => CommandModel::LoadSoundFont {
                channel: *channel,
                path: path@,
            },
            Command::SetProgram { channel, path, bank_index, preset_index } =>
                CommandModel::SetProgram {
                    channel: *channel,
                    path: path@,
                    bank_index: *bank_index,
                    preset_index: *preset_index,
                },
            Command::UnsetProgram { channel } => CommandModel::UnsetProgram { channel: *channel },
        }
    }
}

/// The views of a list of commands.
pub open spec fn commands_view(c: Seq<Command>) -> Seq<CommandModel> {
    c.map_values(|x: Command| x@)
}

/// The view of an optional list of commands.
pub open spec fn opt_commands_view(c: Option<Vec<Command>>) -> Option<Seq<CommandModel>> {
    match c {
        Some(v) => Some(commands_view(v@)),
        None => None,
    }
}

/// The view of an optional state.
pub open spec fn opt_state_view(s: Option<State>) -> Option<StateModel> {
    match s {
        Some(s) => Some(s@),
        None => None,
    }
}

/// The view of an optional list of IO commands.
pub open spec fn opt_io_view(c: Option<Vec<IOCommand>>) -> Option<Seq<IOCommand>> {
    match c {
        Some(v) => Some(v@),
        None => None,
    }
}

impl Command {
    pub fn duplicate(&self) -> (r: Command)
        ensures
            r@ == self@,
    {
        match self {
            Command::SetGain { gain } => Command::SetGain { gain: *gain },
            Command::LoadSoundFont { channel, path } => Command::LoadSoundFont {
                channel: *channel,
                path: path.clone(),
            },
            Command::SetProgram { channel, path, bank_index, preset_index } => Command::SetProgram {
                channel: *channel,
                path: path.clone(),
                bank_index: *bank_index,
                preset_index: *preset_index,
            },
            Command::UnsetProgram { channel } => Command::UnsetProgram { channel: *channel },
        }
    }
}

/// A copy of a list of commands.
pub fn duplicate_commands(c: &Vec<Command>) -> (r: Vec<Command>)
    ensures
        commands_view(r@) == commands_view(c@),
{
    let mut r: Vec<Command> = Vec::new();
    let n = c.len();
    for i in 0..n
        invariant
            n == c.len(),
            r.len() == i,
            forall|j: int| 0 <= j < i ==> #[trigger] r@[j]@ == c@[j]@,
    {
        r.push(c[i].duplicate());
    }
    proof {
        assert(commands_view(r@) =~= commands_view(c@));
    }
    r
}

fn duplicate_opt_commands(c: &Option<Vec<Command>>) -> (r: Option<Vec<Command>>)
    ensures
        opt_commands_view(r) == opt_commands_view(*c),
{
    match c {
        Some(v) => Some(duplicate_commands(v)),
        None => None,
    }
}

fn duplicate_opt_state(s: &Option<State>) -> (r: Option<State>)
    ensures
        opt_state_view(r) == opt_state_view(*s),
{
    match s {
        Some(s) => Some(s.duplicate()),
        None => None,
    }
}

/// A snapshot of a state delta: what to restore to undo a change, what to apply to redo it,
/// and commands for the `IO` struct.
#[derive(Debug)]
pub struct Snapshot {
    /// The state before changes were applied.
    pub from_state: Option<State>,
    /// The state after changes were applied.
    pub to_state: Option<State>,
    /// Commands that revert the synthesizer to its state before the change.
    pub from_commands: Option<Vec<Command>>,
    /// Commands that apply the change to the synthesizer.
    pub to_commands: Option<Vec<Command>>,
    /// Commands for the `IO` struct.
    pub io_commands: Option<Vec<IOCommand>>,
}

/// The mathematical value of a snapshot.
pub struct SnapshotModel {
    pub from_state: Option<StateModel>,
    pub to_state: Option<StateModel>,
    pub from_commands: Option<Seq<CommandModel>>,
    pub to_commands: Option<Seq<CommandModel>>,
    pub io_commands: Option<Seq<IOCommand>>,
}

impl View for Snapshot {
    type V = SnapshotModel;

    open spec fn view(&self) -> SnapshotModel {
        SnapshotModel {
            from_state: opt_state_view(self.from_state),
            to_state: opt_state_view(self.to_state),
            from_commands: opt_commands_view(self.from_commands),
            to_commands: opt_commands_view(self.to_commands),
            io_commands: opt_io_view(self.io_commands),
        }
    }
}

/// The snapshot that undoes what `s` does and redoes what `s` undoes.
pub open spec fn spec_flip(s: SnapshotModel) -> SnapshotModel {
    SnapshotModel {
        from_state: s.to_state,
        to_state: s.from_state,
        from_commands: s.to_commands,
        to_commands: s.from_commands,
        io_commands: None,
    }
}

impl Snapshot {
    /// The delta between two states.
    ///
    /// - `from_state` The state before the change.
    /// - `to_state` The state after the change.
    pub fn from_states(from_state: State, to_state: &State) -> (r: Snapshot)
        ensures
            r@ == (SnapshotModel {
                from_state: Some(from_state@),
                to_state: Some(to_state@),
                from_commands: None,
                to_commands: None,
                io_commands: None,
            }),
    {
        Snapshot {
            from_state: Some(from_state),
            to_state: Some(to_state.duplicate()),
            from_commands: None,
            to_commands: None,
            io_commands: None,
        }
    }

    /// The delta between two synthesizer states.
    ///
    /// - `from_commands` Commands that revert the synthesizer.
    /// - `to_commands` Commands that apply the change; these are also the ones to send now.
    pub fn from_commands(from_commands: Vec<Command>, to_commands: &Vec<Command>) -> (r: Snapshot)
        ensures
            r@ == (SnapshotModel {
                from_state: None,
                to_state: None,
                from_commands: Some(commands_view(from_commands@)),
                to_commands: Some(commands_view(to_commands@)),
                io_commands: None,
            }),
    {
        Snapshot {
            from_state: None,
            to_state: None,
            from_commands: Some(from_commands),
            to_commands: Some(duplicate_commands(to_commands)),
            io_commands: None,
        }
    }

    /// The delta between two states and between two synthesizer states.
    pub fn from_states_and_commands(
        from_state: State,
        to_state: &State,
        from_commands: Vec<Command>,
        to_commands: &Vec<Command>,
    ) -> (r: Snapshot)
        ensures
            r@ == (SnapshotModel {
                from_state: Some(from_state@),
                to_state: Some(to_state@),
                from_commands: Some(commands_view(from_commands@)),
                to_commands: Some(commands_view(to_commands@)),
                io_commands: None,
            }),
    {
        Snapshot {
            from_state: Some(from_state),
            to_state: Some(to_state.duplicate()),
            from_commands: Some(from_commands),
            to_commands: Some(duplicate_commands(to_commands)),
            io_commands: None,
        }
    }

    /// A snapshot that only holds commands for the `IO` struct.
    pub fn from_io_commands(io_commands: Vec<IOCommand>) -> (r: Snapshot)
        ensures
            r@ == (SnapshotModel {
                from_state: None,
                to_state: None,
                from_commands: None,
                to_commands: None,
                io_commands: Some(io_commands@),
            }),
    {
        Snapshot {
            from_state: None,
            to_state: None,
            from_commands: None,
            to_commands: None,
            io_commands: Some(io_commands),
        }
    }

    /// The snapshot with its "from" and "to" swapped. This is used for undo and redo.
    pub fn from_snapshot(snapshot: &Snapshot) -> (r: Snapshot)
        ensures
            r@ == spec_flip(snapshot@),
    {
        Snapshot {
            from_state: duplicate_opt_state(&snapshot.to_state),
            to_state: duplicate_opt_state(&snapshot.from_state),
            from_commands: duplicate_opt_commands(&snapshot.to_commands),
            to_commands: duplicate_opt_commands(&snapshot.from_commands),
            io_commands: None,
        }
    }
}

/// The snapshot of a change of state alone.
pub open spec fn spec_snap_states(from: StateModel, to: StateModel) -> SnapshotModel {
    SnapshotModel {
        from_state: Some(from),
        to_state: Some(to),
        from_commands: None,
        to_commands: None,
        io_commands: None,
    }
}

/// The snapshot of a change of the synthesizer alone.
pub open spec fn spec_snap_commands(c0: Seq<CommandModel>, c1: Seq<CommandModel>) -> SnapshotModel {
    SnapshotModel {
        from_state: None,
        to_state: None,
        from_commands: Some(c0),
        to_commands: Some(c1),
        io_commands: None,
    }
}

/// The snapshot of a change of state and of the synthesizer.
pub open spec fn spec_snap_both(
    from: StateModel,
    to: StateModel,
    c0: Seq<CommandModel>,
    c1: Seq<CommandModel>,
) -> SnapshotModel {
    SnapshotModel {
        from_state: Some(from),
        to_state: Some(to),
        from_commands: Some(c0),
        to_commands: Some(c1),
        io_commands: None,
    }
}

/// The snapshot that only holds commands for the `IO` struct.
pub open spec fn spec_snap_io(io: Seq<IOCommand>) -> SnapshotModel {
    SnapshotModel {
        from_state: None,
        to_state: None,
        from_commands: None,
        to_commands: None,
        io_commands: Some(io),
    }
}

/// The view of an optional snapshot.
pub open spec fn opt_snapshot_view(s: Option<Snapshot>) -> Option<SnapshotModel> {
    match s {
        Some(s) => Some(s@),
        None => None,
    }
}

/// One command in a list.
pub fn one_command(c: Command) -> (r: Vec<Command>)
    ensures
        commands_view(r@) == seq![c@],
{
    let mut r = Vec::new();
    r.push(c);
    proof {
        assert(commands_view(r@) =~= seq![c@]);
    }
    r
}

/// One IO command in a list.
pub fn one_io_command(c: IOCommand) -> (r: Vec<IOCommand>)
    ensures
        r@ == seq![c],
{
    let mut r = Vec::new();
    r.push(c);
    proof {
        assert(r@ =~= seq![c]);
    }
    r
}

/// Flipping a snapshot twice gives back the snapshot without its IO commands.
pub proof fn lemma_flip_twice(s: SnapshotModel)
    ensures
        spec_flip(spec_flip(s)) == (SnapshotModel { io_commands: None, ..s }),
{
}

} // verus!
