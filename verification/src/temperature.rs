//! The temperature block: a thermal sensor reading in whole degrees.
use vstd::prelude::*;

use crate::base::{Base, BaseV, Value, ValueV};
use crate::block;
use crate::utility::{parse_u32, spec_parse_u32, spec_trim, trim};

verus! {

/// The value a temperature reading denotes: the sensor's number is in
/// thousandths of a degree and is scaled to whole degrees; absent or
/// malformed data is invalid.
pub open spec fn spec_temperature_value(text: Option<&str>) -> ValueV {
    match text {
        None => ValueV::Invalid,
        Some(t) => match spec_parse_u32(spec_trim(t@)) {
            Some(v) => ValueV::Int(v / 1000),
            None => ValueV::Invalid,
        },
    }
}

/// The temperature block.
pub struct Block {
    /// Display and timing configuration.
    pub base: Base,
    /// Sysfs file of the thermal sensor.
    pub sensor: String,
}

impl Block {
    /// Refreshes the value from the sensor file's text.
    pub fn update(&mut self, text: Option<&str>)
        ensures
            final(self).base@ == (BaseV { value: spec_temperature_value(text), ..old(self).base@ }),
            final(self).sensor == old(self).sensor,
    {
        self.base.value = match text {
            None => Value::Invalid,
            Some(t) => {
                let tr = trim(t);
                match parse_u32(tr) {
                    Some(v) => Value::Int(v / 1000),
                    None => Value::Invalid,
                }
            },
        };
    }
}

impl block::Block for Block {
    open spec fn base_v(&self) -> BaseV {
        self.base@
    }

    fn set_value(&mut self, value: Value) {
        self.base.value = value;
    }

    fn set_name(&mut self, name: String) {
        self.base.set_name(name);
    }

    fn interval(&self) -> (r: u32) {
        self.base.interval()
    }

    fn signal(&self) -> (r: u32) {
        self.base.signal()
    }

    fn bgcolor(&self) -> (r: Option<u32>) {
        self.base.bg()
    }

    fn render(&self, prev_bg: Option<u32>, out: &mut String) {
        self.base.render(prev_bg, out)
    }

    fn set_index(&mut self, index: usize) {
        self.base.set_index(index);
    }
}

} // verus!
