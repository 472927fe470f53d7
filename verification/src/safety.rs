//! A single guarded value.
//!
//! The value is held by one owner at a time: whoever changes it has it
//! exclusively, and whoever reads it sees the value of the last change.

use vstd::prelude::*;

verus! {

/// One integer, zero at first.
pub struct SafeData {
    data: i32,
}

impl View for SafeData {
    type V = i32;

    /// The value held.
    closed spec fn view(&self) -> i32 {
        self.data
    }
}

impl SafeData {
    /// A value of zero.
    pub fn new() -> (cell: Self)
        ensures
            cell@ == 0,
    {
        SafeData { data: 0 }
    }

    /// Replaces the value.
    pub fn update_data(&mut self, value: i32)
        ensures
            final(self)@ == value,
    {
        self.data = value;
    }

    /// The value of the last change, or zero where there was none.
    pub fn read_data(&self) -> (value: i32)
        ensures
            value == self@,
    {
        self.data
    }
}

} // verus!
