//! The capability a scheduler needs from one status-line entry: update its
//! value, render it, and read its timing and color metadata.
use vstd::prelude::*;

use crate::base::{spec_render, BaseV, Value};

verus! {

/// The scheduler's view of one block.
pub trait Block {
    /// The configuration and value model of the block.
    spec fn base_v(&self) -> BaseV;

    /// Replaces the block's current value with a fresh sensor reading.
    fn set_value(&mut self, value: Value)
        ensures
            final(self).base_v() == (BaseV { value: value@, ..old(self).base_v() }),
    ;

    /// Sets the block's stable identifier.
    fn set_name(&mut self, name: String)
        ensures
            final(self).base_v() == (BaseV { name: name@, ..old(self).base_v() }),
    ;

    /// The polling interval in seconds; 0 means never auto-polled.
    fn interval(&self) -> (r: u32)
        ensures
            r == self.base_v().interval,
    ;

    /// The refresh signal offset; 0 means none.
    fn signal(&self) -> (r: u32)
        ensures
            r == self.base_v().signal,
    ;

    /// The background color of the block.
    fn bgcolor(&self) -> (r: Option<u32>)
        ensures
            r == self.base_v().bgcolor,
    ;

    /// Appends the block's segments to a status line.
    fn render(&self, prev_bg: Option<u32>, out: &mut String)
        ensures
            final(out)@ == old(out)@ + spec_render(self.base_v(), prev_bg),
    ;

    /// Records the block's position in the status line.
    fn set_index(&mut self, index: usize)
        ensures
            final(self).base_v() == (BaseV { index: index as int, ..old(self).base_v() }),
    ;
}

} // verus!
