//! The ordered collection of blocks and the update scheduler: the shared
//! polling tick, the timer- and signal-driven update decisions, and the
//! serialization of the full status line.
use vstd::prelude::*;

use crate::base::{spec_render, BaseV, Value};
use crate::battery;
use crate::block;
use crate::block::Block;
use crate::cpuload;
use crate::custom;
use crate::filesystem;
use crate::memory;
use crate::network;
use crate::temperature;
use crate::time;
use crate::utility;
use crate::utility::SIGRTMIN;
use crate::volume;
use vstd::string::StringExecFns;

verus! {

/// One configured status-line entry, over the fixed set of block kinds.
#[allow(non_camel_case_types, missing_docs)]
pub enum Blocks {
    battery(battery::Block),
    cpuload(cpuload::Block),
    custom(custom::Block),
    filesystem(filesystem::Block),
    memory(memory::Block),
    temperature(temperature::Block),
    time(time::Block),
    volume(volume::Block),
    network(network::Block),
}

impl block::Block for Blocks {
    open spec fn base_v(&self) -> BaseV {
        match self {
            Blocks::battery(b) => b.base_v(),
            Blocks::cpuload(b) => b.base_v(),
            Blocks::custom(b) => b.base_v(),
            Blocks::filesystem(b) => b.base_v(),
            Blocks::memory(b) => b.base_v(),
            Blocks::temperature(b) => b.base_v(),
            Blocks::time(b) => b.base_v(),
            Blocks::volume(b) => b.base_v(),
            Blocks::network(b) => b.base_v(),
        }
    }

    fn set_value(&mut self, value: Value) {
        match self {
            Blocks::battery(b) => b.set_value(value),
            Blocks::cpuload(b) => b.set_value(value),
            Blocks::custom(b) => b.set_value(value),
            Blocks::filesystem(b) => b.set_value(value),
            Blocks::memory(b) => b.set_value(value),
            Blocks::temperature(b) => b.set_value(value),
            Blocks::time(b) => b.set_value(value),
            Blocks::volume(b) => b.set_value(value),
            Blocks::network(b) => b.set_value(value),
        }
    }

    fn set_name(&mut self, name: String) {
        match self {
            Blocks::battery(b) => b.set_name(name),
            Blocks::cpuload(b) => b.set_name(name),
            Blocks::custom(b) => b.set_name(name),
            Blocks::filesystem(b) => b.set_name(name),
            Blocks::memory(b) => b.set_name(name),
            Blocks::temperature(b) => b.set_name(name),
            Blocks::time(b) => b.set_name(name),
            Blocks::volume(b) => b.set_name(name),
            Blocks::network(b) => b.set_name(name),
        }
    }

    fn interval(&self) -> (r: u32) {
        match self {
            Blocks::battery(b) => b.interval(),
            Blocks::cpuload(b) => b.interval(),
            Blocks::custom(b) => b.interval(),
            Blocks::filesystem(b) => b.interval(),
            Blocks::memory(b) => b.interval(),
            Blocks::temperature(b) => b.interval(),
            Blocks::time(b) => b.interval(),
            Blocks::volume(b) => b.interval(),
            Blocks::network(b) => b.interval(),
        }
    }

    fn signal(&self) -> (r: u32) {
        match self {
            Blocks::battery(b) => b.signal(),
            Blocks::cpuload(b) => b.signal(),
            Blocks::custom(b) => b.signal(),
            Blocks::filesystem(b) => b.signal(),
            Blocks::memory(b) => b.signal(),
            Blocks::temperature(b) => b.signal(),
            Blocks::time(b) => b.signal(),
            Blocks::volume(b) => b.signal(),
            Blocks::network(b) => b.signal(),
        }
    }

    fn bgcolor(&self) -> (r: Option<u32>) {
        match self {
            Blocks::battery(b) => b.bgcolor(),
            Blocks::cpuload(b) => b.bgcolor(),
            Blocks::custom(b) => b.bgcolor(),
            Blocks::filesystem(b) => b.bgcolor(),
            Blocks::memory(b) => b.bgcolor(),
            Blocks::temperature(b) => b.bgcolor(),
            Blocks::time(b) => b.bgcolor(),
            Blocks::volume(b) => b.bgcolor(),
            Blocks::network(b) => b.bgcolor(),
        }
    }

    fn render(&self, prev_bg: Option<u32>, out: &mut String) {
        match self {
            Blocks::battery(b) => b.render(prev_bg, out),
            Blocks::cpuload(b) => b.render(prev_bg, out),
            Blocks::custom(b) => b.render(prev_bg, out),
            Blocks::filesystem(b) => b.render(prev_bg, out),
            Blocks::memory(b) => b.render(prev_bg, out),
            Blocks::temperature(b) => b.render(prev_bg, out),
            Blocks::time(b) => b.render(prev_bg, out),
            Blocks::volume(b) => b.render(prev_bg, out),
            Blocks::network(b) => b.render(prev_bg, out),
        }
    }

    fn set_index(&mut self, index: usize) {
        match self {
            Blocks::battery(b) => b.set_index(index),
            Blocks::cpuload(b) => b.set_index(index),
            Blocks::custom(b) => b.set_index(index),
            Blocks::filesystem(b) => b.set_index(index),
            Blocks::memory(b) => b.set_index(index),
            Blocks::temperature(b) => b.set_index(index),
            Blocks::time(b) => b.set_index(index),
            Blocks::volume(b) => b.set_index(index),
            Blocks::network(b) => b.set_index(index),
        }
    }
}

/// The stable identifier a block kind carries in the output protocol.
pub open spec fn spec_kind_name(b: Blocks) -> Seq<char> {
    match b {
        Blocks::battery(_) => "battery"@,
        Blocks::cpuload(_) => "cpuload"@,
        Blocks::custom(_) => "custom"@,
        Blocks::filesystem(_) => "filesystem"@,
        Blocks::memory(_) => "memory"@,
        Blocks::temperature(_) => "temperature"@,
        Blocks::time(_) => "time"@,
        Blocks::volume(_) => "volume"@,
        Blocks::network(_) => "network"@,
    }
}

/// The stable identifier a block kind carries in the output protocol.
pub fn kind_name(b: &Blocks) -> (r: String)
    ensures
        r@ == spec_kind_name(*b),
{
    match b {
        Blocks::battery(_) => "battery".to_owned(),
        Blocks::cpuload(_) => "cpuload".to_owned(),
        Blocks::custom(_) => "custom".to_owned(),
        Blocks::filesystem(_) => "filesystem".to_owned(),
        Blocks::memory(_) => "memory".to_owned(),
        Blocks::temperature(_) => "temperature".to_owned(),
        Blocks::time(_) => "time".to_owned(),
        Blocks::volume(_) => "volume".to_owned(),
        Blocks::network(_) => "network".to_owned(),
    }
}

/// Folds the polling tick over the blocks from position `i`: the greatest
/// common divisor of `g` and every nonzero interval.
pub open spec fn spec_tick_fold(bs: Seq<BaseV>, i: int, g: nat) -> nat
    decreases bs.len() - i,
{
    if i < 0 || i >= bs.len() {
        g
    } else if bs[i].interval != 0 {
        spec_tick_fold(bs, i + 1, utility::spec_gcd(g, bs[i].interval as nat))
    } else {
        spec_tick_fold(bs, i + 1, g)
    }
}

/// The shared polling tick: the greatest common divisor of all nonzero
/// intervals, and 0 when no block declares one.
pub open spec fn spec_tick(bs: Seq<BaseV>) -> nat {
    spec_tick_fold(bs, 0, 0)
}

/// Folding the tick over the remaining blocks keeps a divisor of the
/// accumulator and of every nonzero interval it meets.
proof fn lemma_tick_fold_divides(bs: Seq<BaseV>, i: int, g: nat)
    requires
        0 <= i <= bs.len(),
    ensures
        g != 0 ==> spec_tick_fold(bs, i, g) != 0 && g % spec_tick_fold(bs, i, g) == 0,
        forall|j: int|
            i <= j < bs.len() && (#[trigger] bs[j]).interval != 0 ==> spec_tick_fold(bs, i, g) != 0
                && (bs[j].interval as nat) % spec_tick_fold(bs, i, g) == 0,
    decreases bs.len() - i,
{
    if i >= bs.len() {
        if g != 0 {
            vstd::arithmetic::div_mod::lemma_mod_self_0(g as int);
        }
    } else if bs[i].interval != 0 {
        let iv = bs[i].interval as nat;
        let g2 = utility::spec_gcd(g, iv);
        utility::lemma_gcd_divides(g, iv);
        assert(g2 != 0);
        lemma_tick_fold_divides(bs, i + 1, g2);
        let r = spec_tick_fold(bs, i + 1, g2);
        if g != 0 {
            utility::lemma_divides_trans(g, g2, r);
        }
        utility::lemma_divides_trans(iv, g2, r);
    } else {
        lemma_tick_fold_divides(bs, i + 1, g);
    }
}

/// Every auto-polled block fires on a tick boundary: the shared polling
/// tick divides each block's nonzero interval, so sleeping in ticks never
/// skips over a multiple of an interval.
pub proof fn lemma_tick_divides(bs: Seq<BaseV>)
    ensures
        forall|j: int|
            0 <= j < bs.len() && (#[trigger] bs[j]).interval != 0 ==> spec_tick(bs) != 0 && (
            bs[j].interval as nat) % spec_tick(bs) == 0,
{
    lemma_tick_fold_divides(bs, 0, 0);
}

/// Whether a block is due for a timer update when the elapsed-seconds
/// counter reads `count`: it is auto-polled at all, and the counter is an
/// exact multiple of its interval.
pub open spec fn spec_due(b: BaseV, count: u64) -> bool {
    b.interval != 0 && count as int % (b.interval as int) == 0
}

/// Whether a delivered OS signal addresses a block: its configured offset
/// from the real-time-signal base gives exactly that signal number.
pub open spec fn spec_matches_signal(b: BaseV, sig: i32) -> bool {
    sig == b.signal + SIGRTMIN
}

/// Whether a block with the given interval is due at counter reading
/// `count`; a block with interval 0 is never auto-polled.
pub fn due(interval: u32, count: u64) -> (r: bool)
    ensures
        r == (interval != 0 && count as int % (interval as int) == 0),
{
    interval != 0 && count % (interval as u64) == 0
}

/// The first `n` blocks of a status line, comma-joined, each rendered with
/// the background color of the block before it.
pub open spec fn spec_display_body(bs: Seq<BaseV>, n: int) -> Seq<char>
    decreases n,
{
    if n <= 0 {
        Seq::empty()
    } else {
        spec_display_body(bs, n - 1) + (
        if n > 1 {
            seq![',']
        } else {
            Seq::<char>::empty()
        }) + spec_render(
            bs[n - 1],
            if n - 1 == 0 {
                None
            } else {
                bs[n - 2].bgcolor
            },
        )
    }
}

/// One full status line: all blocks' segments inside a bracketed array,
/// closed with the trailing comma the streaming protocol expects.
pub open spec fn spec_display(bs: Seq<BaseV>) -> Seq<char> {
    "["@ + spec_display_body(bs, bs.len() as int) + "],\n"@
}

/// The one-time protocol header, with the opening bracket of the infinite
/// array of refresh lines.
pub fn header() -> (r: String)
    ensures
        r@ == "{\"version\": 1, \"click_events\": false}\n[\n"@,
{
    "{\"version\": 1, \"click_events\": false}\n[\n".to_owned()
}

/// The ordered collection of blocks and the state of the update loop.
pub struct Scheduler {
    /// The blocks, in configuration order.
    pub blocks: Vec<Blocks>,
}

impl Scheduler {
    /// The models of all blocks, in order.
    pub open spec fn bases(&self) -> Seq<BaseV> {
        self.blocks@.map_values(|b: Blocks| b.base_v())
    }

    /// Adopts the configured blocks, giving each its kind's stable name and
    /// its position in the status line.
    pub fn new(blocks: Vec<Blocks>) -> (r: Scheduler)
        ensures
            r.bases().len() == blocks@.len(),
            forall|i: int|
                0 <= i < blocks@.len() ==> r.bases()[i] == (BaseV {
                    name: spec_kind_name(blocks@[i]),
                    index: i,
                    ..(#[trigger] blocks@[i]).base_v()
                }),
    {
        let ghost orig = blocks@;
        let mut input = blocks;
        let mut out: Vec<Blocks> = Vec::new();
        proof {
            assert(input@ =~= orig.skip(0));
        }
        while input.len() > 0
            invariant
                out@.len() + input@.len() == orig.len(),
                input@ == orig.skip(out@.len() as int),
                forall|j: int|
                    0 <= j < out@.len() ==> (#[trigger] out@[j]).base_v() == (BaseV {
                        name: spec_kind_name(orig[j]),
                        index: j,
                        ..orig[j].base_v()
                    }),
            decreases input@.len(),
        {
            let ghost i = out@.len() as int;
            let mut b = input.remove(0);
            proof {
                assert(orig.skip(i)[0] == orig[i]);
                assert(orig.skip(i).subrange(1, orig.skip(i).len() as int) =~= orig.skip(i + 1));
            }
            let name = kind_name(&b);
            b.set_name(name);
            b.set_index(out.len());
            out.push(b);
        }
        proof {
            assert(orig.skip(orig.len() as int).len() == 0);
        }
        let r = Scheduler { blocks: out };
        proof {
            assert(r.bases().len() == orig.len());
            assert forall|j: int| 0 <= j < orig.len() implies r.bases()[j] == (BaseV {
                name: spec_kind_name(orig[j]),
                index: j,
                ..orig[j].base_v()
            }) by {
                assert(r.bases()[j] == out@[j].base_v());
            }
        }
        r
    }

    /// The shared polling tick: the greatest common divisor of all nonzero
    /// intervals, and 0 when no block declares one.
    pub fn tick(&self) -> (r: u32)
        ensures
            r as nat == spec_tick(self.bases()),
    {
        let mut g: u32 = 0;
        let mut i: usize = 0;
        while i < self.blocks.len()
            invariant
                0 <= i <= self.blocks@.len(),
                spec_tick(self.bases()) == spec_tick_fold(self.bases(), i as int, g as nat),
            decreases self.blocks@.len() - i,
        {
            proof {
                assert(self.bases()[i as int] == self.blocks@[i as int].base_v());
            }
            let iv = self.blocks[i].interval();
            if iv != 0 {
                g = utility::gcd(g, iv);
            }
            i = i + 1;
        }
        g
    }

    /// The positions of the blocks due for a timer update at counter
    /// reading `count`, in ascending order.
    pub fn due_targets(&self, count: u64) -> (r: Vec<usize>)
        ensures
            forall|k: int|
                0 <= k < r@.len() ==> #[trigger] r@[k] < self.bases().len() && spec_due(
                    self.bases()[r@[k] as int],
                    count,
                ),
            forall|j: int|
                0 <= j < self.bases().len() && spec_due(#[trigger] self.bases()[j], count)
                    ==> r@.contains(j as usize),
            forall|k1: int, k2: int| 0 <= k1 < k2 < r@.len() ==> r@[k1] < r@[k2],
    {
        let mut r: Vec<usize> = Vec::new();
        let mut i: usize = 0;
        while i < self.blocks.len()
            invariant
                0 <= i <= self.blocks@.len(),
                forall|k: int|
                    0 <= k < r@.len() ==> #[trigger] r@[k] < i && spec_due(
                        self.bases()[r@[k] as int],
                        count,
                    ),
                forall|j: int|
                    0 <= j < i && spec_due(#[trigger] self.bases()[j], count) ==> r@.contains(
                        j as usize,
                    ),
                forall|k1: int, k2: int| 0 <= k1 < k2 < r@.len() ==> r@[k1] < r@[k2],
            decreases self.blocks@.len() - i,
        {
            proof {
                assert(self.bases()[i as int] == self.blocks@[i as int].base_v());
            }
            let ghost r0 = r@;
            let iv = self.blocks[i].interval();
            if due(iv, count) {
                r.push(i);
                proof {
                    assert(r@[r0.len() as int] == i);
                    assert forall|x: usize| r0.contains(x) implies r@.contains(x) by {
                        let k = choose|k: int| 0 <= k < r0.len() && r0[k] == x;
                        assert(r@[k] == x);
                    }
                }
            }
            i = i + 1;
        }
        r
    }

    /// The positions of the blocks a delivered OS signal addresses, in
    /// ascending order.
    pub fn signal_targets(&self, sig: i32) -> (r: Vec<usize>)
        ensures
            forall|k: int|
                0 <= k < r@.len() ==> #[trigger] r@[k] < self.bases().len()
                    && spec_matches_signal(self.bases()[r@[k] as int], sig),
            forall|j: int|
                0 <= j < self.bases().len() && spec_matches_signal(
                    #[trigger] self.bases()[j],
                    sig,
                ) ==> r@.contains(j as usize),
            forall|k1: int, k2: int| 0 <= k1 < k2 < r@.len() ==> r@[k1] < r@[k2],
    {
        let mut r: Vec<usize> = Vec::new();
        let mut i: usize = 0;
        while i < self.blocks.len()
            invariant
                0 <= i <= self.blocks@.len(),
                forall|k: int|
                    0 <= k < r@.len() ==> #[trigger] r@[k] < i && spec_matches_signal(
                        self.bases()[r@[k] as int],
                        sig,
                    ),
                forall|j: int|
                    0 <= j < i && spec_matches_signal(#[trigger] self.bases()[j], sig)
                        ==> r@.contains(j as usize),
                forall|k1: int, k2: int| 0 <= k1 < k2 < r@.len() ==> r@[k1] < r@[k2],
            decreases self.blocks@.len() - i,
        {
            proof {
                assert(self.bases()[i as int] == self.blocks@[i as int].base_v());
            }
            let ghost r0 = r@;
            let sg = self.blocks[i].signal();
            if (sg as i64) + (SIGRTMIN as i64) == (sig as i64) {
                r.push(i);
                proof {
                    assert(r@[r0.len() as int] == i);
                    assert forall|x: usize| r0.contains(x) implies r@.contains(x) by {
                        let k = choose|k: int| 0 <= k < r0.len() && r0[k] == x;
                        assert(r@[k] == x);
                    }
                }
            }
            i = i + 1;
        }
        r
    }

    /// Replaces the value of the addressed block, leaving every other block
    /// unchanged.
    pub fn set_value(&mut self, index: usize, value: Value)
        requires
            index < old(self).bases().len(),
        ensures
            final(self).bases().len() == old(self).bases().len(),
            final(self).bases()[index as int] == (BaseV {
                value: value@,
                ..old(self).bases()[index as int]
            }),
            forall|j: int|
                0 <= j < old(self).bases().len() && j != index
                    ==> final(self).bases()[j] == old(self).bases()[j],
    {
        let ghost orig = self.blocks@;
        let mut b = self.blocks.remove(index);
        b.set_value(value);
        self.blocks.insert(index, b);
        proof {
            assert(self.blocks@ =~= orig.update(index as int, self.blocks@[index as int]));
            assert forall|j: int|
                0 <= j < orig.len() && j != index implies self.bases()[j] == orig.map_values(
                |bb: Blocks| bb.base_v(),
            )[j] by {
                assert(self.blocks@[j] == orig[j]);
            }
        }
    }

    /// Serializes the full ordered status line from the blocks' current
    /// values, threading each block's background color to the next.
    pub fn display_all(&self) -> (r: String)
        ensures
            r@ == spec_display(self.bases()),
    {
        let ghost bs = self.bases();
        let mut out = String::new();
        out.append("[");
        let mut prev_bg: Option<u32> = None;
        let mut i: usize = 0;
        proof {
            assert(out@ =~= "["@ + spec_display_body(bs, 0));
        }
        while i < self.blocks.len()
            invariant
                0 <= i <= self.blocks@.len(),
                out@ == "["@ + spec_display_body(bs, i as int),
                prev_bg == (
                if i == 0 {
                    Option::<u32>::None
                } else {
                    bs[i as int - 1].bgcolor
                }),
            decreases self.blocks@.len() - i,
        {
            let ghost out_i = out@;
            proof {
                assert(bs[i as int] == self.blocks@[i as int].base_v());
            }
            if i > 0 {
                out.append(",");
            }
            self.blocks[i].render(prev_bg, &mut out);
            proof {
                reveal_strlit(",");
                if i > 0 {
                    assert(out@ =~= out_i + seq![','] + spec_render(bs[i as int], prev_bg));
                } else {
                    assert(out@ =~= out_i + spec_render(bs[i as int], prev_bg));
                }
                assert(out@ =~= "["@ + spec_display_body(bs, i as int + 1));
            }
            prev_bg = self.blocks[i].bgcolor();
            i = i + 1;
        }
        out.append("],\n");
        proof {
            assert(out@ =~= spec_display(bs));
        }
        out
    }

    /// A signal- or callback-driven refresh of one block: replaces its
    /// value, leaves every other block's last-known value unchanged, and
    /// immediately serializes the full refreshed status line.
    pub fn update_by_index(&mut self, index: usize, value: Value) -> (r: String)
        requires
            index < old(self).bases().len(),
        ensures
            final(self).bases().len() == old(self).bases().len(),
            final(self).bases()[index as int] == (BaseV {
                value: value@,
                ..old(self).bases()[index as int]
            }),
            forall|j: int|
                0 <= j < old(self).bases().len() && j != index
                    ==> final(self).bases()[j] == old(self).bases()[j],
            r@ == spec_display(final(self).bases()),
    {
        self.set_value(index, value);
        self.display_all()
    }
}

} // verus!
