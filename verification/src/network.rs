//! The network block: the signal strength of the active interface.
use vstd::prelude::*;

use crate::base::{Base, BaseV, Value, ValueV};
use crate::block;
use crate::utility::{
    contains_sub, parse_u32, spec_contains_sub, spec_parse_u32, spec_split, spec_tokens,
    split_char, split_tokens, str_eq,
};
use vstd::string::StringExecFns;

verus! {

/// The percentage table for wireless signal levels: entry `i` is the link
/// quality shown for a received signal strength of `255 - i`.
pub open spec fn spec_perc_lut() -> Seq<u32> {
    seq![
        100, 100, 100, 100, 100, 100, 100, 100, 100, 100, 100, 100, 100, 100, 100, 100, 100,
        100, 100, 100, 99, 99, 99, 98, 98, 98, 97, 97, 96, 96, 95, 95, 94, 93, 93, 92, 91, 90,
        90, 89, 88, 87, 86, 85, 84, 83, 82, 81, 80, 79, 78, 76, 75, 74, 73, 71, 70, 69, 67, 66,
        64, 63, 61, 60, 58, 56, 55, 53, 51, 50, 48, 46, 44, 42, 40, 38, 36, 34, 32, 30, 28, 26,
        24, 22, 20, 17, 15, 13, 10, 8, 6, 3, 1, 1, 1, 1, 1, 1, 1, 1
    ]
}

/// Looks up the link quality percentage for a received signal strength
/// byte; levels that would fall outside the table are left out, as
/// indexing them is an error.
pub fn strength_percent(signal: u8) -> (r: u32)
    requires
        signal > 155,
    ensures
        r == spec_perc_lut()[255 - signal as int],
{
    let lut: Vec<u32> = vec![
        100, 100, 100, 100, 100, 100, 100, 100, 100, 100, 100, 100, 100, 100, 100, 100, 100,
        100, 100, 100, 99, 99, 99, 98, 98, 98, 97, 97, 96, 96, 95, 95, 94, 93, 93, 92, 91, 90,
        90, 89, 88, 87, 86, 85, 84, 83, 82, 81, 80, 79, 78, 76, 75, 74, 73, 71, 70, 69, 67, 66,
        64, 63, 61, 60, 58, 56, 55, 53, 51, 50, 48, 46, 44, 42, 40, 38, 36, 34, 32, 30, 28, 26,
        24, 22, 20, 17, 15, 13, 10, 8, 6, 3, 1, 1, 1, 1, 1, 1, 1, 1
    ];
    proof {
        assert(lut@ =~= spec_perc_lut());
    }
    let idx: usize = 255 - signal as usize;
    lut[idx]
}

/// Folds the default-route selection over the lines of a routing table:
/// a line that is not the heading, has enough fields, and routes the
/// all-zero destination offers its metric; the interface with the lowest
/// metric wins, the earliest on a tie.
pub open spec fn spec_route_fold(
    lines: Seq<Seq<char>>,
    i: int,
    best_metric: int,
    best_iface: Seq<char>,
) -> Seq<char>
    decreases lines.len() - i,
{
    if i < 0 || i >= lines.len() {
        best_iface
    } else if spec_contains_sub(lines[i], "Iface"@) {
        spec_route_fold(lines, i + 1, best_metric, best_iface)
    } else {
        let t = spec_tokens(lines[i]);
        if t.len() > 5 && t[1] == "00000000"@ {
            let metric = match spec_parse_u32(t[5]) {
                Some(v) => v as int,
                None => 0xffff,
            };
            if metric < best_metric {
                spec_route_fold(lines, i + 1, metric, t[0])
            } else {
                spec_route_fold(lines, i + 1, best_metric, best_iface)
            }
        } else {
            spec_route_fold(lines, i + 1, best_metric, best_iface)
        }
    }
}

/// The interface of the lowest-metric default route in a routing table,
/// when the table names one.
pub open spec fn spec_active_interface(text: Seq<char>) -> Option<Seq<char>> {
    let best = spec_route_fold(spec_split(text, '\n'), 0, 0xffff, Seq::empty());
    if best.len() > 0 {
        Some(best)
    } else {
        None
    }
}

/// Reads the interface of the lowest-metric default route from a routing
/// table.
pub fn active_interface(text: &str) -> (r: Option<String>)
    ensures
        match r {
            Some(name) => spec_active_interface(text@) == Some(name@),
            None => spec_active_interface(text@) is None,
        },
{
    let lines = split_char(text, '\n');
    let ghost lv = lines.deep_view();
    let mut best_metric: u32 = 0xffff;
    let mut best_iface: String = String::new();
    let mut i: usize = 0;
    proof {
        assert(best_iface@ =~= Seq::<char>::empty());
    }
    while i < lines.len()
        invariant
            0 <= i <= lines@.len(),
            lv == lines.deep_view(),
            lv.len() == lines@.len(),
            spec_route_fold(lv, 0, 0xffff, Seq::empty()) == spec_route_fold(
                lv,
                i as int,
                best_metric as int,
                best_iface@,
            ),
        decreases lines@.len() - i,
    {
        proof {
            assert(lv[i as int] == lines@[i as int]@);
        }
        let line = lines[i].as_str();
        if !contains_sub(line, "Iface") {
            let toks = split_tokens(line);
            if toks.len() > 5 {
                proof {
                    assert(toks@[0]@ == spec_tokens(lv[i as int])[0]);
                    assert(toks@[1]@ == spec_tokens(lv[i as int])[1]);
                    assert(toks@[5]@ == spec_tokens(lv[i as int])[5]);
                }
                if str_eq(toks[1].as_str(), "00000000") {
                    let metric = match parse_u32(toks[5].as_str()) {
                        Some(v) => v,
                        None => 0xffff,
                    };
                    if metric < best_metric {
                        best_metric = metric;
                        best_iface = toks[0].clone();
                    }
                }
            }
        }
        i = i + 1;
    }
    if !best_iface.as_str().is_empty() {
        Some(best_iface)
    } else {
        None
    }
}

/// The network block.
pub struct Block {
    /// Display and timing configuration.
    pub base: Base,
    /// Prefix shown for a wireless interface.
    pub wifi: String,
    /// Text shown for a wired interface.
    pub ethernet: String,
}

impl Block {
    /// Takes the measured link quality of the active interface: with a
    /// quality reading the wireless prefix and a percent suffix are shown;
    /// an active interface without one is shown as wired; without an
    /// active interface the value is invalid.
    pub fn update(&mut self, active: bool, strength: Option<u32>)
        ensures
            final(self).wifi == old(self).wifi,
            final(self).ethernet == old(self).ethernet,
            !active ==> final(self).base@ == (BaseV { value: ValueV::Invalid, ..old(self).base@ }),
            active ==> match strength {
                Some(s) => final(self).base@ == (BaseV {
                    value: ValueV::Int(s),
                    iprefix: old(self).wifi@,
                    isuffix: "%"@,
                    ..old(self).base@
                }),
                None => final(self).base@ == (BaseV {
                    value: ValueV::Str(old(self).ethernet@),
                    iprefix: ""@,
                    isuffix: ""@,
                    ..old(self).base@
                }),
            },
    {
        self.base.value = Value::Invalid;
        if active {
            match strength {
                Some(s) => {
                    let pfx = self.wifi.clone();
                    self.base.set_prefix(pfx.as_str());
                    self.base.set_suffix("%");
                    self.base.value = Value::Int(s);
                },
                None => {
                    self.base.set_prefix("");
                    self.base.set_suffix("");
                    self.base.value = Value::Str(self.ethernet.clone());
                },
            }
        }
    }
}

impl block::Block for Block {
    open spec fn base_v(&self) -> BaseV {
        self.base@
    }

    fn set_value(&mut self, value: Value) {
        self.base.value = value;
    }

    fn set_name(&mut self, name: String) {
        self.base.set_name(name);
    }

    fn interval(&self) -> (r: u32) {
        self.base.interval()
    }

    fn signal(&self) -> (r: u32) {
        self.base.signal()
    }

    fn bgcolor(&self) -> (r: Option<u32>) {
        self.base.bg()
    }

    fn render(&self, prev_bg: Option<u32>, out: &mut String) {
        self.base.render(prev_bg, out)
    }

    fn set_index(&mut self, index: usize) {
        self.base.set_index(index);
    }
}

/// The wireless prefix shown when none is configured.
pub fn default_wifi() -> (r: String)
    ensures
        r@ == "wifi"@,
{
    "wifi".to_owned()
}

/// The wired text shown when none is configured.
pub fn default_ethernet() -> (r: String)
    ensures
        r@ == "eth"@,
{
    "eth".to_owned()
}

} // verus!
