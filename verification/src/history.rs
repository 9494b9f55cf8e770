use vstd::prelude::*;
use crate::model::{State, StateModel};
use crate::snapshot::{opt_commands_view, spec_flip, Command, CommandModel, Snapshot, SnapshotModel};

verus! {

/// The maximum size of the undo stack.
pub const MAX_UNDOS: usize = 100;

/// The views of a stack of snapshots.
pub open spec fn snapshots_view(s: Seq<Snapshot>) -> Seq<SnapshotModel> {
    s.map_values(|x: Snapshot| x@)
}

/// The undo stack and the redo stack.
#[derive(Debug)]
pub struct History {
    /// A stack of snapshots that can be popped to undo an action.
    pub undo: Vec<Snapshot>,
    /// A stack of snapshots that can be popped to redo an action.
    pub redo: Vec<Snapshot>,
}

/// The mathematical value of the undo and redo stacks.
#[verifier::ext_equal]
pub struct HistoryModel {
    pub undo: Seq<SnapshotModel>,
    pub redo: Seq<SnapshotModel>,
}

impl View for History {
    type V = HistoryModel;

    open spec fn view(&self) -> HistoryModel {
        HistoryModel { undo: snapshots_view(self.undo@), redo: snapshots_view(self.redo@) }
    }
}

/// The undo stack after a snapshot is pushed onto it: the oldest snapshot is dropped
/// when the stack would grow past its maximum size.
pub open spec fn spec_push_bounded(undo: Seq<SnapshotModel>, s: SnapshotModel) -> Seq<SnapshotModel> {
    if undo.push(s).len() > MAX_UNDOS {
        undo.push(s).drop_first()
    } else {
        undo.push(s)
    }
}

/// The state that a snapshot's "from" side restores, marked as having unsaved changes.
pub open spec fn spec_restore(s: SnapshotModel, st: StateModel) -> StateModel {
    let restored = match s.from_state {
        Some(f) => f,
        None => st,
    };
    StateModel { unsaved_changes: true, ..restored }
}

/// Undo: pop the undo stack, restore its "from" side, and push its flip to the redo stack.
/// Returns the new history, the new state, and the commands to send to the synthesizer.
pub open spec fn spec_undo(h: HistoryModel, st: StateModel) -> (HistoryModel, StateModel, Option<Seq<CommandModel>>) {
    if h.undo.len() == 0 {
        (h, st, None)
    } else {
        let u = h.undo.last();
        (
            HistoryModel { undo: h.undo.drop_last(), redo: h.redo.push(spec_flip(u)) },
            spec_restore(u, st),
            u.from_commands,
        )
    }
}

/// Redo: pop the redo stack, restore its "from" side, and push its flip to the undo stack.
pub open spec fn spec_redo(h: HistoryModel, st: StateModel) -> (HistoryModel, StateModel, Option<Seq<CommandModel>>) {
    if h.redo.len() == 0 {
        (h, st, None)
    } else {
        let r = h.redo.last();
        (
            HistoryModel { undo: h.undo.push(spec_flip(r)), redo: h.redo.drop_last() },
            spec_restore(r, st),
            r.from_commands,
        )
    }
}

impl History {
    /// Empty stacks.
    pub fn new() -> (r: History)
        ensures
            r@.undo == Seq::<SnapshotModel>::empty(),
            r@.redo == Seq::<SnapshotModel>::empty(),
    {
        let r = History { undo: Vec::new(), redo: Vec::new() };
        proof {
            assert(r@.undo =~= Seq::<SnapshotModel>::empty());
            assert(r@.redo =~= Seq::<SnapshotModel>::empty());
        }
        r
    }

    /// Push a snapshot to the undo stack and clear the redo stack.
    /// If there are too many snapshots, the oldest one is removed.
    pub fn push_undo(&mut self, snapshot: Snapshot)
        ensures
            final(self)@.undo == spec_push_bounded(old(self)@.undo, snapshot@),
            final(self)@.redo == Seq::<SnapshotModel>::empty(),
    {
        let ghost s = snapshot@;
        let ghost u0 = self@.undo;
        self.undo.push(snapshot);
        proof {
            assert(self@.undo =~= u0.push(s));
        }
        self.redo.clear();
        if self.undo.len() > MAX_UNDOS {
            self.undo.remove(0);
            proof {
                assert(self@.undo =~= u0.push(s).drop_first());
            }
        }
        proof {
            assert(self@.redo =~= Seq::<SnapshotModel>::empty());
        }
    }

    /// Undo the latest change. Sets `state` and returns the commands that the synthesizer
    /// has to perform to revert, if any.
    pub fn undo(&mut self, state: &mut State) -> (commands: Option<Vec<Command>>)
        ensures
            (final(self)@, final(state)@, opt_commands_view(commands))
                == spec_undo(old(self)@, old(state)@),
    {
        let ghost h0 = self@;
        match self.undo.pop() {
            None => None,
            Some(u) => {
                proof {
                    assert(u@ == h0.undo.last());
                    assert(self@.undo =~= h0.undo.drop_last());
                }
                let flipped = Snapshot::from_snapshot(&u);
                let Snapshot { from_state, to_state: _, from_commands, to_commands: _, io_commands: _ } = u;
                if let Some(s1) = from_state {
                    *state = s1;
                }
                state.unsaved_changes = true;
                let ghost r0 = self@.redo;
                self.redo.push(flipped);
                proof {
                    assert(self@.redo =~= r0.push(spec_flip(h0.undo.last())));
                    assert(state@ =~= spec_restore(h0.undo.last(), old(state)@));
                }
                from_commands
            },
        }
    }

    /// Redo the latest undone change. Sets `state` and returns the commands that the
    /// synthesizer has to perform to re-apply the change, if any.
    pub fn redo(&mut self, state: &mut State) -> (commands: Option<Vec<Command>>)
        ensures
            (final(self)@, final(state)@, opt_commands_view(commands))
                == spec_redo(old(self)@, old(state)@),
    {
        let ghost h0 = self@;
        match self.redo.pop() {
            None => None,
            Some(r) => {
                proof {
                    assert(r@ == h0.redo.last());
                    assert(self@.redo =~= h0.redo.drop_last());
                }
                let flipped = Snapshot::from_snapshot(&r);
                let Snapshot { from_state, to_state: _, from_commands, to_commands: _, io_commands: _ } = r;
                if let Some(s1) = from_state {
                    *state = s1;
                }
                state.unsaved_changes = true;
                let ghost u0 = self@.undo;
                self.undo.push(flipped);
                proof {
                    assert(self@.undo =~= u0.push(spec_flip(h0.redo.last())));
                    assert(state@ =~= spec_restore(h0.redo.last(), old(state)@));
                }
                from_commands
            },
        }
    }
}

/// Undoing a recorded change restores the state before the change and sends the commands that
/// revert the synthesizer; redoing it then restores the state after the change, sends the
/// commands that re-apply it, and leaves both stacks as they were (the snapshot loses only its
/// commands for the `IO` struct, which are never replayed).
pub proof fn lemma_undo_then_redo(h: HistoryModel, st: StateModel)
    requires
        h.undo.len() > 0,
        h.undo.last().from_state is Some,
        h.undo.last().to_state is Some,
    ensures
        ({
            let u = h.undo.last();
            let (h1, s1, c1) = spec_undo(h, st);
            let (h2, s2, c2) = spec_redo(h1, s1);
            &&& s1 == StateModel { unsaved_changes: true, ..u.from_state.unwrap() }
            &&& c1 == u.from_commands
            &&& s2 == StateModel { unsaved_changes: true, ..u.to_state.unwrap() }
            &&& c2 == u.to_commands
            &&& h2.redo == h.redo
            &&& h2.undo == h.undo.drop_last().push(SnapshotModel { io_commands: None, ..u })
        }),
{
    let u = h.undo.last();
    let (h1, s1, c1) = spec_undo(h, st);
    assert(h1.redo.last() == spec_flip(u));
    assert(h1.redo.drop_last() =~= h.redo);
}

/// The undo stack never holds more than its maximum number of snapshots, and a new change
/// always becomes the latest undo.
pub proof fn lemma_push_bounded(undo: Seq<SnapshotModel>, s: SnapshotModel)
    requires
        undo.len() <= MAX_UNDOS,
    ensures
        spec_push_bounded(undo, s).len() <= MAX_UNDOS,
        spec_push_bounded(undo, s).last() == s,
{
}

/// A change pushed onto the undo stack is the one that the next undo pops.
pub proof fn lemma_push_bounded_last(undo: Seq<SnapshotModel>, s: SnapshotModel)
    ensures
        spec_push_bounded(undo, s).len() > 0,
        spec_push_bounded(undo, s).last() == s,
{
}

} // verus!
