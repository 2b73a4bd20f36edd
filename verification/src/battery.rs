//! The battery block: its charge percentage and charging-status decorations.
use vstd::prelude::*;

use crate::base::{Base, BaseV, Value, ValueV};
use crate::block;
use crate::utility::{parse_u32, spec_parse_u32, spec_trim, str_eq, trim};

verus! {

/// Prefix and suffix decoration for one charging status.
pub struct Status {
    /// Prefix shown in this status.
    pub prefix: String,
    /// Suffix shown in this status.
    pub suffix: String,
}

/// The charging status name used to look up decorations: the kernel's
/// status strings map onto the three configured decoration slots.
pub open spec fn spec_status2rstatus(s: Seq<char>) -> Seq<char> {
    if s == "Charging"@ {
        "online"@
    } else if s == "Discharging"@ {
        "offline"@
    } else {
        "full"@
    }
}

/// Maps the kernel's charging status onto the configured decoration slots.
pub fn status2rstatus(status: &str) -> (r: &str)
    ensures
        r@ == spec_status2rstatus(status@),
{
    if str_eq(status, "Charging") {
        "online"
    } else if str_eq(status, "Discharging") {
        "offline"
    } else {
        "full"
    }
}

/// The first decoration stored under the given status name.
pub open spec fn spec_lookup_status(stats: Seq<(String, Status)>, key: Seq<char>) -> Option<
    Status,
>
    decreases stats.len(),
{
    if stats.len() == 0 {
        None
    } else if stats[0].0@ == key {
        Some(stats[0].1)
    } else {
        spec_lookup_status(stats.drop_first(), key)
    }
}

/// No per-status decorations unless configured.
pub fn default_statuses() -> (r: Vec<(String, Status)>)
    ensures
        r@ == Seq::<(String, Status)>::empty(),
{
    Vec::new()
}

/// The battery block.
pub struct Block {
    /// Display and timing configuration.
    pub base: Base,
    /// Sysfs directory of the battery.
    pub sensor: String,
    /// Prefix and suffix decorations per charging status.
    pub statuses: Vec<(String, Status)>,
    /// Charge percentage under which the warning action fires.
    pub warning_level: u32,
    /// Shell command run when the charge falls under the warning level.
    pub warning_action: Option<String>,
}

impl Block {
    /// Interprets the charging status and charge percentage read from the
    /// battery's sysfs files: the status picks the prefix and suffix
    /// decorations, the parsed percentage becomes the value, and the
    /// result says whether the configured warning action should run.
    pub fn update(&mut self, status_raw: &str, capacity_raw: Option<&str>) -> (warn: bool)
        ensures
            final(self).sensor == old(self).sensor,
            final(self).statuses == old(self).statuses,
            final(self).warning_level == old(self).warning_level,
            final(self).warning_action == old(self).warning_action,
            ({
                let st = spec_trim(status_raw@);
                let dec = spec_lookup_status(old(self).statuses@, spec_status2rstatus(st));
                let cap = match capacity_raw {
                    None => None,
                    Some(c) => spec_parse_u32(spec_trim(c@)),
                };
                if st == "error"@ {
                    final(self).base@ == (BaseV { value: ValueV::Invalid, ..old(self).base@ })
                        && !warn
                } else {
                    final(self).base@ == (BaseV {
                        value: match cap {
                            Some(v) => ValueV::Int(v),
                            None => ValueV::Invalid,
                        },
                        iprefix: match dec {
                            Some(d) => d.prefix@,
                            None => old(self).base@.iprefix,
                        },
                        isuffix: match dec {
                            Some(d) => d.suffix@,
                            None => old(self).base@.isuffix,
                        },
                        ..old(self).base@
                    }) && warn == (old(self).warning_action is Some && st == "Discharging"@ && (
                    cap matches Some(v) && v < old(self).warning_level))
                }
            }),
    {
        let status = trim(status_raw);
        if str_eq(status, "error") {
            self.base.value = Value::Invalid;
            return false;
        }
        let rstatus = status2rstatus(status);
        let ghost stats0 = self.statuses@;
        let ghost base0 = self.base@;
        let mut i: usize = 0;
        let n = self.statuses.len();
        proof {
            assert(stats0.skip(0) =~= stats0);
        }
        let mut found = false;
        while i < n && !found
            invariant
                n == stats0.len(),
                0 <= i <= n,
                self.sensor == old(self).sensor,
                self.statuses == old(self).statuses,
                self.warning_level == old(self).warning_level,
                self.warning_action == old(self).warning_action,
                !found ==> self.base@ == base0 && spec_lookup_status(stats0, rstatus@)
                    == spec_lookup_status(stats0.skip(i as int), rstatus@),
                found ==> match spec_lookup_status(stats0, rstatus@) {
                    Some(d) => self.base@ == (BaseV {
                        iprefix: d.prefix@,
                        isuffix: d.suffix@,
                        ..base0
                    }),
                    None => false,
                },
            decreases n - i, (if found { 0int } else { 1int }),
        {
            proof {
                assert(stats0.skip(i as int)[0] == stats0[i as int]);
                assert(stats0.skip(i as int).drop_first() =~= stats0.skip(i as int + 1));
            }
            if str_eq(self.statuses[i].0.as_str(), rstatus) {
                let pfx = self.statuses[i].1.prefix.clone();
                let sfx = self.statuses[i].1.suffix.clone();
                self.base.set_prefix(pfx.as_str());
                self.base.set_suffix(sfx.as_str());
                found = true;
            } else {
                i = i + 1;
            }
        }
        proof {
            if !found {
                assert(stats0.skip(n as int).len() == 0);
            }
        }
        let value: Option<u32> = match capacity_raw {
            None => None,
            Some(c) => {
                let tr = trim(c);
                parse_u32(tr)
            },
        };
        let mut warn = false;
        if self.warning_action.is_some() && str_eq(status, "Discharging") {
            if let Some(v) = value {
                if v < self.warning_level {
                    warn = true;
                }
            }
        }
        self.base.value = Value::new(value);
        warn
    }
}

impl block::Block for Block {
    open spec fn base_v(&self) -> BaseV {
        self.base@
    }

    fn set_value(&mut self, value: Value) {
        self.base.value = value;
    }

    fn set_name(&mut self, name: String) {
        self.base.set_name(name);
    }

    fn interval(&self) -> (r: u32) {
        self.base.interval()
    }

    fn signal(&self) -> (r: u32) {
        self.base.signal()
    }

    fn bgcolor(&self) -> (r: Option<u32>) {
        self.base.bg()
    }

    fn render(&self, prev_bg: Option<u32>, out: &mut String) {
        self.base.render(prev_bg, out)
    }

    fn set_index(&mut self, index: usize) {
        self.base.set_index(index);
    }
}

} // verus!
