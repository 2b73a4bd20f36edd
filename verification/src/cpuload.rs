//! The CPU load block: the busy share of processor time between two readings.
use vstd::prelude::*;

use crate::base::{Base, BaseV, Value, ValueV};
use crate::block;
use crate::utility::{parse_u64, spec_parse_u64, spec_tokens, split_tokens};

verus! {

/// The number a counter field denotes, a malformed field counting as zero.
pub open spec fn spec_tok_val(s: Seq<char>) -> int {
    match spec_parse_u64(s) {
        Some(v) => v as int,
        None => 0,
    }
}

/// The reading a processor time report denotes: the idle counter is its
/// fifth field, the total is the sum of its second through seventh fields;
/// a report with too few fields, or whose total does not fit, yields
/// nothing.
pub open spec fn spec_cpu_parse(text: Seq<char>) -> Option<CpuStat> {
    let t = spec_tokens(text);
    if t.len() < 7 {
        None
    } else {
        let idle = spec_tok_val(t[4]);
        let total = spec_tok_val(t[1]) + spec_tok_val(t[2]) + spec_tok_val(t[3]) + idle
            + spec_tok_val(t[5]) + spec_tok_val(t[6]);
        if total <= u64::MAX {
            Some(CpuStat { idle: idle as u64, total: total as u64 })
        } else {
            None
        }
    }
}

/// The busy share of processor time between two readings, in percent,
/// truncated to 32 bits as the display needs it; without a previous
/// reading, or when the counters did not advance consistently, the value
/// is invalid.
pub open spec fn spec_cpu_value(prev: Option<CpuStat>, cur: CpuStat) -> ValueV {
    match prev {
        None => ValueV::Invalid,
        Some(p) => if cur.total > p.total && cur.total - cur.idle >= p.total - p.idle {
            ValueV::Int(
                ((((cur.total - cur.idle) - (p.total - p.idle)) * 100 / (cur.total - p.total))
                    % 0x1_0000_0000) as u32,
            )
        } else {
            ValueV::Invalid
        },
    }
}

/// One reading of the processor time counters.
pub struct CpuStat {
    /// Idle time.
    pub idle: u64,
    /// Total time, idle included.
    pub total: u64,
}

impl CpuStat {
    /// The busy share of the counters: total time minus idle time.
    pub fn sub(&self) -> (r: u64)
        requires
            self.idle <= self.total,
        ensures
            r == self.total - self.idle,
    {
        self.total - self.idle
    }
}

/// The cpuload block.
pub struct Block {
    /// Display and timing configuration.
    pub base: Base,
    /// The previous reading, against which the next one is compared.
    pub prev: Option<CpuStat>,
}

impl Block {
    /// The idle counter never exceeds the total it is part of.
    pub open spec fn wf(&self) -> bool {
        match self.prev {
            Some(p) => p.idle <= p.total,
            None => true,
        }
    }

    /// Compares a fresh processor time report against the previous one and
    /// takes the busy share as the value; a malformed report makes the
    /// value invalid, and an absent report changes nothing.
    pub fn update(&mut self, data: Option<&str>)
        requires
            old(self).wf(),
        ensures
            final(self).wf(),
            data is None ==> *final(self) == *old(self),
            data matches Some(d) ==> match spec_cpu_parse(d@) {
                Some(cur) => final(self).prev == Some(cur) && final(self).base@ == (BaseV {
                    value: spec_cpu_value(old(self).prev, cur),
                    ..old(self).base@
                }),
                None => final(self).prev == old(self).prev && final(self).base@ == (BaseV {
                    value: ValueV::Invalid,
                    ..old(self).base@
                }),
            },
    {
        match data {
            None => {
            },
            Some(d) => {
                let toks = split_tokens(d);
                if toks.len() < 7 {
                    self.base.value = Value::Invalid;
                    return;
                }
                proof {
                    assert(toks@[1]@ == spec_tokens(d@)[1]);
                    assert(toks@[2]@ == spec_tokens(d@)[2]);
                    assert(toks@[3]@ == spec_tokens(d@)[3]);
                    assert(toks@[4]@ == spec_tokens(d@)[4]);
                    assert(toks@[5]@ == spec_tokens(d@)[5]);
                    assert(toks@[6]@ == spec_tokens(d@)[6]);
                }
                let v1 = parse_u64(toks[1].as_str()).unwrap_or(0);
                let v2 = parse_u64(toks[2].as_str()).unwrap_or(0);
                let v3 = parse_u64(toks[3].as_str()).unwrap_or(0);
                let idle = parse_u64(toks[4].as_str()).unwrap_or(0);
                let v5 = parse_u64(toks[5].as_str()).unwrap_or(0);
                let v6 = parse_u64(toks[6].as_str()).unwrap_or(0);
                let total_wide: u128 = v1 as u128 + v2 as u128 + v3 as u128 + idle as u128
                    + v5 as u128 + v6 as u128;
                if total_wide > 0xffff_ffff_ffff_ffff {
                    self.base.value = Value::Invalid;
                    return;
                }
                let cur = CpuStat { idle, total: total_wide as u64 };
                let value = match self.prev {
                    Some(ref p) => {
                        if cur.total > p.total && cur.total - cur.idle >= p.total - p.idle {
                            let dsub: u64 = (cur.total - cur.idle) - (p.total - p.idle);
                            let dtotal: u64 = cur.total - p.total;
                            let q: u128 = dsub as u128 * 100 / (dtotal as u128);
                            let w: u32 = (q % 0x1_0000_0000) as u32;
                            Value::Int(w)
                        } else {
                            Value::Invalid
                        }
                    },
                    None => Value::Invalid,
                };
                proof {
                    let t = spec_tokens(d@);
                    assert(spec_tok_val(t[1]) == v1 as int);
                    assert(spec_tok_val(t[4]) == idle as int);
                    assert(spec_cpu_parse(d@) == Some(cur));
                    assert(value@ == spec_cpu_value(old(self).prev, cur));
                }
                self.base.value = value;
                self.prev = Some(cur);
            },
        }
    }
}

impl block::Block for Block {
    open spec fn base_v(&self) -> BaseV {
        self.base@
    }

    fn set_value(&mut self, value: Value) {
        self.base.value = value;
    }

    fn set_name(&mut self, name: String) {
        self.base.set_name(name);
    }

    fn interval(&self) -> (r: u32) {
        self.base.interval()
    }

    fn signal(&self) -> (r: u32) {
        self.base.signal()
    }

    fn bgcolor(&self) -> (r: Option<u32>) {
        self.base.bg()
    }

    fn render(&self, prev_bg: Option<u32>, out: &mut String) {
        self.base.render(prev_bg, out)
    }

    fn set_index(&mut self, index: usize) {
        self.base.set_index(index);
    }
}

} // verus!
