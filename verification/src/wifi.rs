//! The wifi block: the link quality of a wireless interface.
use vstd::prelude::*;

use crate::base::{Base, BaseV, Value, ValueV};
use crate::block;
use crate::utility::{
    contains_sub, parse_u32, spec_contains_sub, spec_parse_u32, spec_split, spec_tokens,
    split_char, split_tokens,
};
use vstd::string::StrSliceExecFns;
use vstd::string::StringExecFns;

verus! {

/// The first of the lines that holds the sought name as a substring.
pub open spec fn spec_find_line(lines: Seq<Seq<char>>, needle: Seq<char>) -> Option<Seq<char>>
    decreases lines.len(),
{
    if lines.len() == 0 {
        None
    } else if spec_contains_sub(lines[0], needle) {
        Some(lines[0])
    } else {
        spec_find_line(lines.drop_first(), needle)
    }
}

/// The link quality a wireless report denotes for one interface: on the
/// first line naming the interface, the third field with its trailing
/// punctuation removed, read as a number and rescaled from the kernel's
/// 0..70 range to percent; anything malformed is an error.
pub open spec fn spec_parse_wifi(interface: Seq<char>, text: Seq<char>) -> Result<u32, ()> {
    match spec_find_line(spec_split(text, '\n'), interface) {
        None => Err(()),
        Some(line) => {
            let t = spec_tokens(line);
            if t.len() <= 2 || t[2].len() == 0 {
                Err(())
            } else {
                match spec_parse_u32(t[2].drop_last()) {
                    Some(v) => if v as int * 100 / 70 <= u32::MAX {
                        Ok((v as int * 100 / 70) as u32)
                    } else {
                        Err(())
                    },
                    None => Err(()),
                }
            }
        },
    }
}

/// Reads the link quality of one interface from a wireless status report.
pub fn parse_wifi_str(interface: &str, text: &str) -> (r: Result<u32, ()>)
    ensures
        r == spec_parse_wifi(interface@, text@),
{
    let lines = split_char(text, '\n');
    let ghost lv = lines.deep_view();
    let mut l: usize = 0;
    proof {
        assert(lv.skip(0) =~~= lv);
    }
    while l < lines.len()
        invariant
            0 <= l <= lines@.len(),
            lv == lines.deep_view(),
            lv.len() == lines@.len(),
            spec_find_line(lv, interface@) == spec_find_line(lv.skip(l as int), interface@),
        decreases lines@.len() - l,
    {
        proof {
            assert(lv.skip(l as int)[0] == lv[l as int]);
            assert(lv.skip(l as int).drop_first() =~~= lv.skip(l as int + 1));
        }
        if contains_sub(lines[l].as_str(), interface) {
            let toks = split_tokens(lines[l].as_str());
            proof {
                assert(spec_find_line(lv, interface@) == Some(lv[l as int]));
            }
            if toks.len() <= 2 {
                return Err(());
            }
            proof {
                assert(toks@[2]@ == spec_tokens(lv[l as int])[2]);
            }
            let tok = toks[2].as_str();
            let tn = tok.unicode_len();
            if tn == 0 {
                return Err(());
            }
            let body = tok.substring_char(0, tn - 1);
            proof {
                assert(body@ =~= spec_tokens(lv[l as int])[2].drop_last());
            }
            match parse_u32(body) {
                Some(v) => {
                    let w: u64 = v as u64 * 100 / 70;
                    if w <= 0xffff_ffff {
                        return Ok(w as u32);
                    }
                    return Err(());
                },
                None => {
                    return Err(());
                },
            }
        }
        l = l + 1;
    }
    proof {
        assert(lv.skip(lines@.len() as int).len() == 0);
    }
    Err(())
}

/// The wifi block.
pub struct Block {
    /// Display and timing configuration.
    pub base: Base,
    /// Name of the wireless interface.
    pub interface: String,
}

impl Block {
    /// Refreshes the value from the wireless status report; an unreadable
    /// report or an absent interface makes the value invalid.
    pub fn update(&mut self, text: Option<&str>)
        ensures
            final(self).interface == old(self).interface,
            final(self).base@ == (BaseV {
                value: match text {
                    None => ValueV::Invalid,
                    Some(t) => match spec_parse_wifi(old(self).interface@, t@) {
                        Ok(v) => ValueV::Int(v),
                        Err(_) => ValueV::Invalid,
                    },
                },
                ..old(self).base@
            }),
    {
        self.base.value = match text {
            None => Value::Invalid,
            Some(t) => {
                let r = parse_wifi_str(self.interface.as_str(), t);
                Value::new(r)
            },
        };
    }
}

impl block::Block for Block {
    open spec fn base_v(&self) -> BaseV {
        self.base@
    }

    fn set_value(&mut self, value: Value) {
        self.base.value = value;
    }

    fn set_name(&mut self, name: String) {
        self.base.set_name(name);
    }

    fn interval(&self) -> (r: u32) {
        self.base.interval()
    }

    fn signal(&self) -> (r: u32) {
        self.base.signal()
    }

    fn bgcolor(&self) -> (r: Option<u32>) {
        self.base.bg()
    }

    fn render(&self, prev_bg: Option<u32>, out: &mut String) {
        self.base.render(prev_bg, out)
    }

    fn set_index(&mut self, index: usize) {
        self.base.set_index(index);
    }
}

} // verus!
