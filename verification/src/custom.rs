//! The custom block: the output of an arbitrary shell command.
use vstd::prelude::*;

use crate::base::{Base, BaseV, Value, ValueV};
use crate::block;
use crate::utility::{parse_u32, read_color, spec_parse_u32, spec_read_color, spec_split, split_char};
use vstd::string::StrSliceExecFns;

verus! {

/// The custom block.
pub struct Block {
    /// Display and timing configuration.
    pub base: Base,
    /// The shell command whose output becomes the value.
    pub command: String,
}

impl Block {
    /// Interprets the command's output: a single line is a number when it
    /// parses, text when it is not empty, and invalid otherwise; with more
    /// lines, the second is read as a fresh base color and the first is the
    /// text.
    pub fn update(&mut self, output: &str)
        ensures
            final(self).command == old(self).command,
            ({
                let parts = spec_split(output@, '\n');
                if parts.len() == 1 {
                    final(self).base@ == (BaseV {
                        value: match spec_parse_u32(parts[0]) {
                            Some(v) => ValueV::Int(v),
                            None => if parts[0].len() > 0 {
                                ValueV::Str(parts[0])
                            } else {
                                ValueV::Invalid
                            },
                        },
                        ..old(self).base@
                    })
                } else {
                    final(self).base@ == (BaseV {
                        value: ValueV::Str(parts[0]),
                        color: spec_read_color(parts[1], 0xffffff),
                        ..old(self).base@
                    })
                }
            }),
    {
        let parts = split_char(output, '\n');
        proof {
            assert(parts@[0]@ == spec_split(output@, '\n')[0]);
        }
        if parts.len() == 1 {
            self.base.value = match parse_u32(parts[0].as_str()) {
                Some(v) => Value::Int(v),
                None => {
                    if !parts[0].as_str().is_empty() {
                        Value::Str(parts[0].clone())
                    } else {
                        Value::Invalid
                    }
                },
            };
        } else {
            proof {
                assert(parts@[1]@ == spec_split(output@, '\n')[1]);
            }
            let color = read_color(parts[1].as_str(), 0xffffff);
            self.base.set_color(color);
            self.base.value = Value::Str(parts[0].clone());
        }
    }
}

impl block::Block for Block {
    open spec fn base_v(&self) -> BaseV {
        self.base@
    }

    fn set_value(&mut self, value: Value) {
        self.base.value = value;
    }

    fn set_name(&mut self, name: String) {
        self.base.set_name(name);
    }

    fn interval(&self) -> (r: u32) {
        self.base.interval()
    }

    fn signal(&self) -> (r: u32) {
        self.base.signal()
    }

    fn bgcolor(&self) -> (r: Option<u32>) {
        self.base.bg()
    }

    fn render(&self, prev_bg: Option<u32>, out: &mut String) {
        self.base.render(prev_bg, out)
    }

    fn set_index(&mut self, index: usize) {
        self.base.set_index(index);
    }
}

} // verus!
