//! The memory block: the used share of physical memory.
use vstd::prelude::*;

use crate::base::{Base, BaseV, Value, ValueV};
use crate::block;
use crate::utility::{parse_u64, spec_parse_u64, spec_tokens, split_tokens};

verus! {

/// The total and available amounts a memory report lists, read from its
/// second and eighth whitespace-separated fields; a report with too few or
/// malformed fields yields nothing.
pub open spec fn spec_meminfo_fields(text: Seq<char>) -> Option<(u64, u64)> {
    let t = spec_tokens(text);
    if t.len() > 7 {
        match (spec_parse_u64(t[1]), spec_parse_u64(t[7])) {
            (Some(total), Some(free)) => Some((total, free)),
            _ => None,
        }
    } else {
        None
    }
}

/// Reads the total and available amounts from a memory report.
pub fn meminfo_fields(text: &str) -> (r: Option<(u64, u64)>)
    ensures
        r == spec_meminfo_fields(text@),
{
    let toks = split_tokens(text);
    if toks.len() > 7 {
        proof {
            assert(toks@[1]@ == spec_tokens(text@)[1]);
            assert(toks@[7]@ == spec_tokens(text@)[7]);
        }
        match (parse_u64(toks[1].as_str()), parse_u64(toks[7].as_str())) {
            (Some(total), Some(free)) => Some((total, free)),
            _ => None,
        }
    } else {
        None
    }
}

/// The memory block.
pub struct Block {
    /// Display and timing configuration.
    pub base: Base,
}

impl Block {
    /// Takes the computed used share of memory as the value; a failed
    /// reading is invalid.
    pub fn update(&mut self, usage: Option<u32>)
        ensures
            final(self).base@ == (BaseV {
                value: match usage {
                    Some(v) => ValueV::Int(v),
                    None => ValueV::Invalid,
                },
                ..old(self).base@
            }),
    {
        self.base.value = Value::new(usage);
    }
}

impl block::Block for Block {
    open spec fn base_v(&self) -> BaseV {
        self.base@
    }

    fn set_value(&mut self, value: Value) {
        self.base.value = value;
    }

    fn set_name(&mut self, name: String) {
        self.base.set_name(name);
    }

    fn interval(&self) -> (r: u32) {
        self.base.interval()
    }

    fn signal(&self) -> (r: u32) {
        self.base.signal()
    }

    fn bgcolor(&self) -> (r: Option<u32>) {
        self.base.bg()
    }

    fn render(&self, prev_bg: Option<u32>, out: &mut String) {
        self.base.render(prev_bg, out)
    }

    fn set_index(&mut self, index: usize) {
        self.base.set_index(index);
    }
}

} // verus!
