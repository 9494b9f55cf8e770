use vstd::prelude::*;

verus! {

/// An index into a list of known length that cycles around when it is incremented past either end.
#[derive(Clone, Copy, Debug, PartialEq, Eq, Structural)]
pub struct Index {
    pub index: usize,
    pub length: usize,
}

/// Where an index lands after one step up or down.
///
/// An empty index never moves. Stepping up from the last position (or beyond) wraps to zero;
/// stepping down from zero wraps to the last position.
pub open spec fn spec_step(index: usize, length: usize, up: bool) -> usize {
    if length == 0 {
        index
    } else if up {
        if index >= length - 1 {
            0
        } else {
            (index + 1) as usize
        }
    } else {
        if index == 0 {
            (length - 1) as usize
        } else {
            (index - 1) as usize
        }
    }
}

/// The index stepped up once.
pub open spec fn spec_step_up(i: Index) -> Index {
    Index { index: spec_step(i.index, i.length, true), ..i }
}

/// The index stepped down once.
pub open spec fn spec_step_down(i: Index) -> Index {
    Index { index: spec_step(i.index, i.length, false), ..i }
}

/// Stepping cycles through the positions of a list: up goes to the next position, wrapping
/// from the last to the first, down to the previous one, wrapping from the first to the last,
/// and a step down undoes a step up.
pub proof fn lemma_step_cycles(index: usize, length: usize)
    requires
        index < length,
    ensures
        spec_step(index, length, true) == (index + 1) % (length as int),
        spec_step(index, length, false) == (index + length - 1) % (length as int),
        spec_step(spec_step(index, length, true), length, false) == index,
        spec_step(spec_step(index, length, false), length, true) == index,
        spec_step(index, length, true) < length && spec_step(index, length, false) < length,
{
    let n = length as int;
    let i = index as int;
    if i + 1 < n {
        assert((i + 1) % n == i + 1) by (nonlinear_arith)
            requires
                0 <= i + 1 < n,
        ;
    } else {
        assert((i + 1) % n == 0) by (nonlinear_arith)
            requires
                i + 1 == n,
                n > 0,
        ;
    }
    if i > 0 {
        assert((i + n - 1) % n == i - 1) by (nonlinear_arith)
            requires
                0 < i < n,
        ;
    } else {
        assert((i + n - 1) % n == n - 1) by (nonlinear_arith)
            requires
                i == 0,
                n > 0,
        ;
    }
}

impl Index {
    /// A position inside the list, or the only position an empty list has.
    pub open spec fn wf(self) -> bool {
        self.length == 0 || self.index < self.length
    }

    pub fn new(index: usize, length: usize) -> (r: Index)
        ensures
            r.index == index,
            r.length == length,
    {
        Index { index, length }
    }

    pub fn get(&self) -> (r: usize)
        ensures
            r == self.index,
    {
        self.index
    }

    /// Set the position without changing the length.
    pub fn set(&mut self, index: usize)
        ensures
            final(self).index == index,
            final(self).length == old(self).length,
    {
        self.index = index;
    }

    /// Step the index up or down, cycling at both ends. Returns false if the list is empty.
    pub fn increment(&mut self, up: bool) -> (changed: bool)
        ensures
            changed == (old(self).length > 0),
            final(self).length == old(self).length,
            final(self).index == spec_step(old(self).index, old(self).length, up),
    {
        if self.length == 0 {
            return false;
        }
        if up {
            if self.index >= self.length - 1 {
                self.index = 0;
            } else {
                self.index = self.index + 1;
            }
        } else {
            if self.index == 0 {
                self.index = self.length - 1;
            } else {
                self.index = self.index - 1;
            }
        }
        true
    }
}

/// Stepping keeps a well-formed index inside its list.
pub proof fn lemma_step_stays_in_range(index: usize, length: usize, up: bool)
    requires
        length == 0 || index < length,
    ensures
        length == 0 || spec_step(index, length, up) < length,
{
}

/// Stepping up and then down (or down and then up) returns a well-formed index to where it was.
pub proof fn lemma_step_round_trip(index: usize, length: usize, up: bool)
    requires
        length == 0 || index < length,
    ensures
        spec_step(spec_step(index, length, up), length, !up) == index,
{
}

} // verus!
