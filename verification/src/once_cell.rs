//! A write-once cell for handing a driver capability to the code that
//! needs it after construction.

use vstd::prelude::*;

verus! {

/// A cell that starts empty and is set once, after which every `get`
/// returns the stored value.
pub struct AtomicOnceCell<T> {
    /// The stored value, if the cell has been set.
    pub value: Option<T>,
}

impl<T> AtomicOnceCell<T> {
    /// An empty cell.
    pub fn new() -> (cell: Self)
        ensures
            cell.value is None,
    {
        Self { value: None }
    }

    /// Stores the value.
    pub fn set(&mut self, new: T)
        ensures
            final(self).value == Some(new),
    {
        self.value = Some(new);
    }

    /// The stored value, if any.
    pub fn try_get(&self) -> (stored: Option<&T>)
        ensures
            match stored {
                Some(v) => self.value == Some(*v),
                None => self.value is None,
            },
    {
        self.value.as_ref()
    }

    /// The stored value; an empty cell is ruled out by contract.
    pub fn get(&self) -> (stored: &T)
        requires
            self.value is Some,
        ensures
            self.value == Some(*stored),
    {
        match &self.value {
            Some(v) => v,
            None => unreached(),
        }
    }
}

} // verus!
