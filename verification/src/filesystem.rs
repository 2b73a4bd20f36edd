//! The filesystem block: the used share of a mounted filesystem.
use vstd::prelude::*;

use crate::base::{Base, BaseV, Value, ValueV};
use crate::block;

verus! {

/// The value a filesystem report denotes: the used share of its blocks in
/// percent; a failed or degenerate report is invalid.
pub open spec fn spec_filesystem_value(usage: Option<(u64, u64)>) -> ValueV {
    match usage {
        None => ValueV::Invalid,
        Some((blocks, bfree)) => if blocks > 0 && bfree <= blocks {
            ValueV::Int((100int * (blocks as int - bfree as int) / (blocks as int)) as u32)
        } else {
            ValueV::Invalid
        },
    }
}

/// The filesystem block.
pub struct Block {
    /// Display and timing configuration.
    pub base: Base,
    /// Mount point that is measured.
    pub path: String,
}

impl Block {
    /// Computes the used share from the filesystem's total and free block
    /// counts.
    pub fn update(&mut self, usage: Option<(u64, u64)>)
        ensures
            final(self).base@ == (BaseV { value: spec_filesystem_value(usage), ..old(self).base@ }),
            final(self).path == old(self).path,
    {
        self.base.value = match usage {
            None => Value::Invalid,
            Some((blocks, bfree)) => {
                if blocks > 0 && bfree <= blocks {
                    let used: u128 = 100 * ((blocks - bfree) as u128) / (blocks as u128);
                    proof {
                        assert(used <= 100) by (nonlinear_arith)
                            requires
                                used == 100int * (blocks as int - bfree as int) / (blocks as int),
                                0 < blocks,
                                bfree <= blocks,
                        ;
                    }
                    Value::Int(used as u32)
                } else {
                    Value::Invalid
                }
            },
        };
    }
}

impl block::Block for Block {
    open spec fn base_v(&self) -> BaseV {
        self.base@
    }

    fn set_value(&mut self, value: Value) {
        self.base.value = value;
    }

    fn set_name(&mut self, name: String) {
        self.base.set_name(name);
    }

    fn interval(&self) -> (r: u32) {
        self.base.interval()
    }

    fn signal(&self) -> (r: u32) {
        self.base.signal()
    }

    fn bgcolor(&self) -> (r: Option<u32>) {
        self.base.bg()
    }

    fn render(&self, prev_bg: Option<u32>, out: &mut String) {
        self.base.render(prev_bg, out)
    }

    fn set_index(&mut self, index: usize) {
        self.base.set_index(index);
    }
}

} // verus!
