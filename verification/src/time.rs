//! The time block: the current local time, formatted.
use vstd::prelude::*;

use crate::base::{Base, BaseV, Value, ValueV};
use crate::block;
use vstd::string::StringExecFns;

verus! {

/// The time block.
pub struct Block {
    /// Display and timing configuration.
    pub base: Base,
    /// Format of the displayed time.
    pub format: String,
}

impl Block {
    /// Takes the formatted current time as the value.
    pub fn update(&mut self, now: String)
        ensures
            final(self).base@ == (BaseV { value: ValueV::Str(now@), ..old(self).base@ }),
            final(self).format == old(self).format,
    {
        self.base.value = Value::Str(now);
    }
}

impl block::Block for Block {
    open spec fn base_v(&self) -> BaseV {
        self.base@
    }

    fn set_value(&mut self, value: Value) {
        self.base.value = value;
    }

    fn set_name(&mut self, name: String) {
        self.base.set_name(name);
    }

    fn interval(&self) -> (r: u32) {
        self.base.interval()
    }

    fn signal(&self) -> (r: u32) {
        self.base.signal()
    }

    fn bgcolor(&self) -> (r: Option<u32>) {
        self.base.bg()
    }

    fn render(&self, prev_bg: Option<u32>, out: &mut String) {
        self.base.render(prev_bg, out)
    }

    fn set_index(&mut self, index: usize) {
        self.base.set_index(index);
    }
}

/// The time format shown when none is configured.
pub fn default_format() -> (r: String)
    ensures
        r@ == "%d.%m.%Y %H:%M"@,
{
    "%d.%m.%Y %H:%M".to_owned()
}

} // verus!
