//! Constants whose values are known only after the instructions that use
//! them have been built.

use vstd::prelude::*;

verus! {

/// The table behind the lazily resolved constants of an instruction tree.
///
/// An instruction carries a handle into the table, so any number of
/// instructions may stand for the same value. An entry is reserved first and
/// resolved later, once: a resolved entry keeps its value.
pub struct LazyConsts {
    values: Vec<Option<i32>>,
}

impl View for LazyConsts {
    type V = Seq<Option<i32>>;

    closed spec fn view(&self) -> Seq<Option<i32>> {
        self.values@
    }
}

impl LazyConsts {
    /// The value that a handle stands for: `None` while the entry is not
    /// resolved, and for a handle that was never given out.
    pub open spec fn value(&self, handle: u32) -> Option<i32> {
        if handle < self@.len() {
            self@[handle as int]
        } else {
            None
        }
    }

    /// The table without entries.
    pub fn new() -> (table: Self)
        ensures
            table@.len() == 0,
    {
        LazyConsts { values: Vec::new() }
    }

    /// Reserves an entry and gives out its handle. The entry is not resolved
    /// yet. There is no entry to give once every handle is in use.
    pub fn reserve(&mut self) -> (handle: Option<u32>)
        ensures
            match handle {
                Some(handle) => handle == old(self)@.len() && final(self)@ == old(self)@.push(
                    None,
                ),
                None => old(self)@.len() > u32::MAX && final(self)@ == old(self)@,
            },
    {
        let len = self.values.len();
        if len > u32::MAX as usize {
            None
        } else {
            self.values.push(None);
            Some(len as u32)
        }
    }

    /// Gives the entry its value. This is done at most once for an entry:
    /// the result says whether the value was taken, and it is not for a
    /// handle that was never given out, nor for an entry that has its value
    /// already.
    pub fn resolve(&mut self, handle: u32, value: i32) -> (taken: bool)
        ensures
            taken == (handle < old(self)@.len() && old(self)@[handle as int] is None),
            final(self)@ == if taken {
                old(self)@.update(handle as int, Some(value))
            } else {
                old(self)@
            },
    {
        let index = handle as usize;
        if index < self.values.len() {
            match self.values[index] {
                Some(_) => false,
                None => {
                    self.values.set(index, Some(value));
                    true
                },
            }
        } else {
            false
        }
    }

    /// Reads the value that the handle stands for at this moment.
    pub fn get(&self, handle: u32) -> (value: Option<i32>)
        ensures
            value == self.value(handle),
    {
        let index = handle as usize;
        if index < self.values.len() {
            self.values[index]
        } else {
            None
        }
    }
}

} // verus!
