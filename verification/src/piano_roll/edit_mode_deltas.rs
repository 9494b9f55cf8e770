use vstd::prelude::*;
use crate::model::EditMode;

verus! {

/// Delta factors and values for edit modes.
#[derive(Clone, Copy, Debug)]
pub struct EditModeDeltas {
    /// Multiply the beat by this factor to get the quick time.
    pub quick_time_factor: u64,
    /// In precise mode, move by this PPQ value.
    pub precise_time: u64,
    /// In normal mode, move by this many half-steps.
    pub normal_note: u8,
    /// In quick mode, move by this many half-steps.
    pub quick_note: u8,
    /// In precise mode, move by this many half-steps.
    pub precise_note: u8,
    /// In normal mode, edit volume by this delta.
    pub normal_volume: u8,
    /// In quick mode, edit volume by this delta.
    pub quick_volume: u8,
    /// In precise mode, edit volume by this delta.
    pub precise_volume: u8,
}

impl EditModeDeltas {
    /// The deltas, from the values of the piano roll section of the config file.
    pub fn new(
        quick_time_factor: u64,
        precise_time: u64,
        normal_note: u8,
        quick_note: u8,
        precise_note: u8,
        normal_volume: u8,
        quick_volume: u8,
        precise_volume: u8,
    ) -> (r: EditModeDeltas)
        ensures
            r == (EditModeDeltas {
                quick_time_factor,
                precise_time,
                normal_note,
                quick_note,
                precise_note,
                normal_volume,
                quick_volume,
                precise_volume,
            }),
    {
        EditModeDeltas {
            quick_time_factor,
            precise_time,
            normal_note,
            quick_note,
            precise_note,
            normal_volume,
            quick_volume,
            precise_volume,
        }
    }

    /// The time delta of a mode, given the input beat.
    pub open spec fn spec_dt(self, mode: EditMode, beat: u64) -> int {
        match mode {
            EditMode::Normal => beat as int,
            EditMode::Quick => beat * self.quick_time_factor,
            EditMode::Precise => self.precise_time as int,
        }
    }

    /// The note delta of a mode.
    pub open spec fn spec_dn(self, mode: EditMode) -> u8 {
        match mode {
            EditMode::Normal => self.normal_note,
            EditMode::Quick => self.quick_note,
            EditMode::Precise => self.precise_note,
        }
    }

    /// The volume delta of a mode.
    pub open spec fn spec_dv(self, mode: EditMode) -> u8 {
        match mode {
            EditMode::Normal => self.normal_volume,
            EditMode::Quick => self.quick_volume,
            EditMode::Precise => self.precise_volume,
        }
    }

    /// Returns the delta for time.
    pub fn get_dt(&self, mode: EditMode, beat: u64) -> (r: u64)
        requires
            self.spec_dt(mode, beat) <= u64::MAX,
        ensures
            r == self.spec_dt(mode, beat),
    {
        match mode {
            EditMode::Normal => beat,
            EditMode::Quick => beat * self.quick_time_factor,
            EditMode::Precise => self.precise_time,
        }
    }

    /// Returns the delta for notes.
    pub fn get_dn(&self, mode: EditMode) -> (r: u8)
        ensures
            r == self.spec_dn(mode),
    {
        match mode {
            EditMode::Normal => self.normal_note,
            EditMode::Quick => self.quick_note,
            EditMode::Precise => self.precise_note,
        }
    }

    /// Returns the delta for volume.
    pub fn get_dv(&self, mode: EditMode) -> (r: u8)
        ensures
            r == self.spec_dv(mode),
    {
        match mode {
            EditMode::Normal => self.normal_volume,
            EditMode::Quick => self.quick_volume,
            EditMode::Precise => self.precise_volume,
        }
    }
}

} // verus!
