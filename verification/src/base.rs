//! The per-block value and configuration model, and the rendering of one
//! block into the JSON segments of the status-line protocol.
use vstd::prelude::*;

use crate::block_builder::{merge_add, BlockBuilder, RenderFlags, SubBlock, SubBlockV};
use vstd::string::StringExecFns;

verus! {

/// A block's current datum: absent or malformed sensor data collapses to
/// `Invalid`, a numeric reading is `Int`, a textual reading is `Str`.
#[allow(missing_docs)]
pub enum Value {
    Invalid,
    Int(u32),
    Str(String),
}

/// The mathematical value of a [`Value`].
#[allow(missing_docs)]
pub enum ValueV {
    Invalid,
    Int(u32),
    Str(Seq<char>),
}

impl View for Value {
    type V = ValueV;

    open spec fn view(&self) -> ValueV {
        match self {
            Value::Invalid => ValueV::Invalid,
            Value::Int(v) => ValueV::Int(*v),
            Value::Str(s) => ValueV::Str(s@),
        }
    }
}

impl Default for Value {
    /// The default datum is the invalid one.
    fn default() -> (r: Self)
        ensures
            r@ == ValueV::Invalid,
    {
        Value::Invalid
    }
}

/// Conversion of a raw sensor result into a [`Value`]: a successful numeric
/// or textual reading keeps its payload, an absent or failed one collapses
/// to `Invalid`.
pub trait ValueConstructor {
    /// The datum this raw result denotes.
    spec fn spec_build(&self) -> ValueV;

    /// Builds the datum this raw result denotes.
    fn build(&self) -> (v: Value)
        ensures
            v@ == self.spec_build(),
    ;
}

impl ValueConstructor for u32 {
    open spec fn spec_build(&self) -> ValueV {
        ValueV::Int(*self)
    }

    fn build(&self) -> (v: Value) {
        Value::Int(*self)
    }
}

impl ValueConstructor for Option<u32> {
    open spec fn spec_build(&self) -> ValueV {
        match self {
            Some(v) => ValueV::Int(*v),
            None => ValueV::Invalid,
        }
    }

    fn build(&self) -> (v: Value) {
        match *self {
            Some(value) => Value::Int(value),
            None => Value::Invalid,
        }
    }
}

impl ValueConstructor for String {
    open spec fn spec_build(&self) -> ValueV {
        ValueV::Str(self@)
    }

    fn build(&self) -> (v: Value) {
        Value::Str(self.clone())
    }
}

impl<'a> ValueConstructor for &'a str {
    open spec fn spec_build(&self) -> ValueV {
        ValueV::Str(self@)
    }

    fn build(&self) -> (v: Value) {
        Value::Str((*self).to_owned())
    }
}

impl<E> ValueConstructor for Result<u32, E> {
    open spec fn spec_build(&self) -> ValueV {
        match self {
            Ok(v) => ValueV::Int(*v),
            Err(_) => ValueV::Invalid,
        }
    }

    fn build(&self) -> (v: Value) {
        match *self {
            Ok(value) => Value::Int(value),
            Err(_) => Value::Invalid,
        }
    }
}

impl<E> ValueConstructor for Result<String, E> {
    open spec fn spec_build(&self) -> ValueV {
        match self {
            Ok(v) => ValueV::Str(v@),
            Err(_) => ValueV::Invalid,
        }
    }

    fn build(&self) -> (v: Value) {
        match *self {
            Ok(ref value) => Value::Str(value.clone()),
            Err(_) => Value::Invalid,
        }
    }
}

impl Value {
    /// Builds a datum from any raw sensor result.
    pub fn new<T: ValueConstructor>(arg: T) -> (r: Self)
        ensures
            r@ == arg.spec_build(),
    {
        arg.build()
    }
}

/// The display and timing configuration of one block, together with its
/// current value.
pub struct Base {
    /// Value to display.
    pub value: Value,
    /// Seconds between forced polls; 0 means never auto-polled.
    pub interval: u32,
    /// Real-time-signal offset triggering an immediate update; 0 means none.
    pub signal: u32,
    /// Stable identifier of the block in the output protocol.
    pub name: String,
    /// Width of the separator gap after the block.
    pub separator_width: u32,
    /// Replacement glyph rendered as its own leading segment when a
    /// background color is set.
    pub custom_separator: Option<String>,
    /// Foreground color for the value.
    pub color: u32,
    /// Background color for the whole block.
    pub bgcolor: Option<u32>,
    /// Prefix for the value, from the configuration.
    pub prefix: String,
    /// Prefix for the value, set by the data source at run time.
    pub iprefix: String,
    /// Color of the prefixes; the value's resolved color when absent.
    pub prefix_color: Option<u32>,
    /// Suffix for the value, from the configuration.
    pub suffix: String,
    /// Suffix for the value, set by the data source at run time.
    pub isuffix: String,
    /// Color of the suffixes; the value's resolved color when absent.
    pub suffix_color: Option<u32>,
    /// Text shown when the value is invalid.
    pub invalid: String,
    /// Color of the invalid text.
    pub invalid_color: u32,
    /// Force prefix and suffix colors to the threshold-derived color.
    pub threshold_fix: bool,
    /// Lower bounds mapped to colors, with keys strictly ascending.
    pub thresholds: Vec<(u32, u32)>,
    /// Position of the block in the status line, assigned at load time.
    pub index: usize,
}

/// The mathematical value of a [`Base`].
#[allow(missing_docs)]
pub struct BaseV {
    pub value: ValueV,
    pub interval: u32,
    pub signal: u32,
    pub name: Seq<char>,
    pub separator_width: u32,
    pub custom_separator: Option<Seq<char>>,
    pub color: u32,
    pub bgcolor: Option<u32>,
    pub prefix: Seq<char>,
    pub iprefix: Seq<char>,
    pub prefix_color: Option<u32>,
    pub suffix: Seq<char>,
    pub isuffix: Seq<char>,
    pub suffix_color: Option<u32>,
    pub invalid: Seq<char>,
    pub invalid_color: u32,
    pub threshold_fix: bool,
    pub thresholds: Seq<(u32, u32)>,
    pub index: int,
}

impl View for Base {
    type V = BaseV;

    open spec fn view(&self) -> BaseV {
        BaseV {
            value: self.value@,
            interval: self.interval,
            signal: self.signal,
            name: self.name@,
            separator_width: self.separator_width,
            custom_separator: match self.custom_separator {
                Some(ref s) => Some(s@),
                None => None,
            },
            color: self.color,
            bgcolor: self.bgcolor,
            prefix: self.prefix@,
            iprefix: self.iprefix@,
            prefix_color: self.prefix_color,
            suffix: self.suffix@,
            isuffix: self.isuffix@,
            suffix_color: self.suffix_color,
            invalid: self.invalid@,
            invalid_color: self.invalid_color,
            threshold_fix: self.threshold_fix,
            thresholds: self.thresholds@,
            index: self.index as int,
        }
    }
}

/// Threshold keys are unique and strictly ascending.
pub open spec fn spec_sorted_thresholds(t: Seq<(u32, u32)>) -> bool {
    forall|i: int, j: int| 0 <= i < j < t.len() ==> (#[trigger] t[i]).0 < (#[trigger] t[j]).0
}

/// The color of the greatest threshold key at most `value`, walking the
/// ordered mapping from its highest key down; `base` when no key qualifies.
pub open spec fn spec_color_for(t: Seq<(u32, u32)>, base: u32, value: u32) -> u32
    decreases t.len(),
{
    if t.len() == 0 {
        base
    } else if value >= t.last().0 {
        t.last().1
    } else {
        spec_color_for(t.drop_last(), base, value)
    }
}

impl Base {
    /// A block configuration with every field at its default.
    pub fn new() -> (r: Base)
        ensures
            r@.value == ValueV::Invalid,
            r@.interval == 0,
            r@.signal == 0,
            r@.name == Seq::<char>::empty(),
            r@.separator_width == 0,
            r@.custom_separator is None,
            r@.color == 0xffffff,
            r@.bgcolor is None,
            r@.prefix == Seq::<char>::empty(),
            r@.iprefix == Seq::<char>::empty(),
            r@.prefix_color is None,
            r@.suffix == Seq::<char>::empty(),
            r@.isuffix == Seq::<char>::empty(),
            r@.suffix_color is None,
            r@.invalid == "invalid"@,
            r@.invalid_color == 0xff0000,
            !r@.threshold_fix,
            r@.thresholds == Seq::<(u32, u32)>::empty(),
            r@.index == 0,
    {
        let r = Base {
            value: Value::Invalid,
            interval: default_zero(),
            signal: default_zero(),
            name: String::new(),
            separator_width: default_zero(),
            custom_separator: default_str_none(),
            color: default_color(),
            bgcolor: default_none(),
            prefix: String::new(),
            iprefix: String::new(),
            prefix_color: default_none(),
            suffix: String::new(),
            isuffix: String::new(),
            suffix_color: default_none(),
            invalid: default_invalid(),
            invalid_color: default_invalid_color(),
            threshold_fix: default_false(),
            thresholds: default_thresholds(),
            index: default_index(),
        };
        proof {
            assert(r@.thresholds =~= Seq::<(u32, u32)>::empty());
        }
        r
    }

    /// Resolves the display color of a numeric value against the thresholds:
    /// the color of the first key at most `value`, from the highest key
    /// down, or the base color when none qualifies.
    pub fn get_to_color(&self, value: u32) -> (c: u32)
        ensures
            c == spec_color_for(self@.thresholds, self@.color, value),
    {
        proof {
            assert(self@.thresholds.take(self@.thresholds.len() as int) =~= self@.thresholds);
        }
        let mut i: usize = self.thresholds.len();
        while i > 0
            invariant
                0 <= i <= self@.thresholds.len(),
                spec_color_for(self@.thresholds, self@.color, value) == spec_color_for(
                    self@.thresholds.take(i as int),
                    self@.color,
                    value,
                ),
            decreases i,
        {
            let pair = self.thresholds[i - 1];
            if value >= pair.0 {
                return pair.1;
            }
            proof {
                assert(self@.thresholds.take(i as int).drop_last() =~= self@.thresholds.take(
                    i as int - 1,
                ));
            }
            i = i - 1;
        }
        self.color
    }

    /// The block's polling interval in seconds.
    pub fn interval(&self) -> (r: u32)
        ensures
            r == self@.interval,
    {
        self.interval
    }

    /// The block's refresh signal offset.
    pub fn signal(&self) -> (r: u32)
        ensures
            r == self@.signal,
    {
        self.signal
    }

    /// Records the block's position in the status line.
    pub fn set_index(&mut self, index: usize)
        ensures
            final(self)@ == (BaseV { index: index as int, ..old(self)@ }),
    {
        self.index = index;
    }

    /// The block's background color.
    pub fn bg(&self) -> (r: Option<u32>)
        ensures
            r == self@.bgcolor,
    {
        self.bgcolor
    }

    /// Sets the run-time prefix supplied by the data source.
    pub fn set_prefix(&mut self, prefix: &str)
        ensures
            final(self)@ == (BaseV { iprefix: prefix@, ..old(self)@ }),
    {
        self.iprefix = prefix.to_owned();
    }

    /// Sets the run-time suffix supplied by the data source.
    pub fn set_suffix(&mut self, suffix: &str)
        ensures
            final(self)@ == (BaseV { isuffix: suffix@, ..old(self)@ }),
    {
        self.isuffix = suffix.to_owned();
    }

    /// Sets the base foreground color.
    pub fn set_color(&mut self, color: u32)
        ensures
            final(self)@ == (BaseV { color, ..old(self)@ }),
    {
        self.color = color;
    }

    /// Sets the block's stable identifier.
    pub fn set_name(&mut self, name: String)
        ensures
            final(self)@ == (BaseV { name: name@, ..old(self)@ }),
    {
        self.name = name;
    }

    /// The block's position in the status line.
    pub fn index(&self) -> (r: usize)
        ensures
            r == self@.index,
    {
        self.index
    }
}

/// When no threshold key is at most `value`, the base color is kept; when
/// some key qualifies, the resolved color is the color of the greatest
/// qualifying key.
pub proof fn lemma_color_for_greatest(t: Seq<(u32, u32)>, base: u32, value: u32)
    requires
        spec_sorted_thresholds(t),
    ensures
        (forall|i: int| 0 <= i < t.len() ==> (#[trigger] t[i]).0 > value) ==> spec_color_for(
            t,
            base,
            value,
        ) == base,
        forall|i: int|
            0 <= i < t.len() && (#[trigger] t[i]).0 <= value && (i == t.len() - 1 || t[i + 1].0
                > value) ==> spec_color_for(t, base, value) == t[i].1,
    decreases t.len(),
{
    if t.len() == 0 {
    } else if value >= t.last().0 {
        assert forall|i: int|
            0 <= i < t.len() && (#[trigger] t[i]).0 <= value && (i == t.len() - 1 || t[i + 1].0
                > value) implies spec_color_for(t, base, value) == t[i].1 by {
            if i < t.len() - 1 {
                assert(t[i + 1].0 <= t[t.len() - 1].0);
            }
        }
    } else {
        let t2 = t.drop_last();
        assert(spec_sorted_thresholds(t2));
        lemma_color_for_greatest(t2, base, value);
        if forall|i: int| 0 <= i < t.len() ==> (#[trigger] t[i]).0 > value {
            assert(forall|i: int| 0 <= i < t2.len() ==> (#[trigger] t2[i]).0 > value);
        }
        assert forall|i: int|
            0 <= i < t.len() && (#[trigger] t[i]).0 <= value && (i == t.len() - 1 || t[i + 1].0
                > value) implies spec_color_for(t, base, value) == t[i].1 by {
            assert(i < t.len() - 1);
            assert(t2[i].0 <= value);
            if i < t.len() - 2 {
                assert(t2[i + 1].0 == t[i + 1].0);
            }
        }
    }
}

/// The separator-eligibility policy for suffix segments: a segment that may
/// take the separator gap gets it only when no custom separator glyph is
/// configured, since the glyph itself then serves that role.
pub open spec fn spec_suffix_flags(b: BaseV, flags: RenderFlags) -> RenderFlags {
    flags.spec_or(
        if b.custom_separator is Some {
            RenderFlags::Plain
        } else {
            RenderFlags::Separator
        },
    )
}

/// The merged segment sequence of one block: for a numeric value, prefixes,
/// the decimal text and suffixes in threshold-resolved colors; for a textual
/// value the same shape in the base color; for an invalid value one segment
/// with the configured invalid text and color. The value segment always
/// carries the block's name.
pub open spec fn spec_subblocks(b: BaseV) -> Seq<SubBlockV> {
    match b.value {
        ValueV::Int(value) => {
            let color = spec_color_for(b.thresholds, b.color, value);
            let pc0 = match b.prefix_color {
                Some(c) => c,
                None => color,
            };
            let sc0 = match b.suffix_color {
                Some(c) => c,
                None => color,
            };
            let pc = if b.threshold_fix && color != b.color {
                color
            } else {
                pc0
            };
            let sc = if b.threshold_fix && color != b.color {
                color
            } else {
                sc0
            };
            merge_add(
                merge_add(
                    merge_add(
                        merge_add(
                            merge_add(Seq::empty(), b.prefix, pc, RenderFlags::Plain),
                            b.iprefix,
                            pc,
                            RenderFlags::Plain,
                        ),
                        spec_dec_chars(value as nat),
                        color,
                        RenderFlags::Name,
                    ),
                    b.isuffix,
                    sc,
                    spec_suffix_flags(b, RenderFlags::Plain),
                ),
                b.suffix,
                sc,
                spec_suffix_flags(b, RenderFlags::Plain),
            )
        },
        ValueV::Str(text) => {
            let pc = match b.prefix_color {
                Some(c) => c,
                None => b.color,
            };
            let sc = match b.suffix_color {
                Some(c) => c,
                None => b.color,
            };
            merge_add(
                merge_add(
                    merge_add(
                        merge_add(
                            merge_add(Seq::empty(), b.prefix, pc, RenderFlags::Plain),
                            b.iprefix,
                            pc,
                            RenderFlags::Plain,
                        ),
                        text,
                        b.color,
                        RenderFlags::Name,
                    ),
                    b.isuffix,
                    sc,
                    spec_suffix_flags(b, RenderFlags::Plain),
                ),
                b.suffix,
                sc,
                spec_suffix_flags(b, RenderFlags::Plain),
            )
        },
        ValueV::Invalid => merge_add(
            Seq::empty(),
            b.invalid,
            b.invalid_color,
            spec_suffix_flags(b, RenderFlags::Name),
        ),
    }
}

/// The optional `background` field of a segment object.
pub open spec fn spec_bg_json(bg: Option<u32>) -> Seq<char> {
    match bg {
        Some(c) => ",\"background\":\"#"@ + spec_hex6(c as nat) + "\""@,
        None => Seq::empty(),
    }
}

/// The JSON object of one segment: its text, its separator gap (the
/// configured width when the segment is separator-eligible, else an explicit
/// no-separator marker), the block's background, the block's name on the
/// name-carrying segment, and the segment's color.
pub open spec fn spec_subblock_json(sb: SubBlockV, b: BaseV) -> Seq<char> {
    "{\"full_text\":\""@ + sb.text + "\","@ + (
    if sb.flags.spec_separator() {
        "\"separator_block_width\":"@ + spec_dec_chars(b.separator_width as nat)
    } else {
        "\"separator\":false,\"separator_block_width\":0"@
    }) + spec_bg_json(b.bgcolor) + (
    if sb.flags.spec_name() {
        ",\"name\":\""@ + b.name + "\""@
    } else {
        Seq::empty()
    }) + ",\"color\":\"#"@ + spec_hex6(sb.color as nat) + "\"}"@
}

/// The standalone separator glyph segment emitted before a block that has
/// both a custom separator and a background color; the previous block's
/// background is carried in its `background` field.
pub open spec fn spec_sep_segment_json(b: BaseV, prev_bg: Option<u32>) -> Seq<char> {
    let glyph = match b.custom_separator {
        Some(s) => s,
        None => Seq::empty(),
    };
    let bgc = match b.bgcolor {
        Some(c) => c,
        None => 0,
    };
    "{\"full_text\":\""@ + glyph + "\",\"separator\":false,\"separator_block_width\":0,\"color\":\"#"@
        + spec_hex6(bgc as nat) + "\""@ + spec_bg_json(prev_bg) + "},"@
}

/// The first `n` segment objects of a block, comma-joined.
pub open spec fn spec_subblocks_json(sbs: Seq<SubBlockV>, b: BaseV, n: int) -> Seq<char>
    decreases n,
{
    if n <= 0 {
        Seq::empty()
    } else {
        spec_subblocks_json(sbs, b, n - 1) + (
        if n > 1 {
            seq![',']
        } else {
            Seq::<char>::empty()
        }) + spec_subblock_json(sbs[n - 1], b)
    }
}

/// Everything one block contributes to a status line: the optional leading
/// separator glyph segment, then its merged segments, comma-joined.
pub open spec fn spec_render(b: BaseV, prev_bg: Option<u32>) -> Seq<char> {
    (if b.custom_separator is Some && b.bgcolor is Some {
        spec_sep_segment_json(b, prev_bg)
    } else {
        Seq::empty()
    }) + spec_subblocks_json(spec_subblocks(b), b, spec_subblocks(b).len() as int)
}

impl Base {
    /// Appends the optional `background` field for the given color.
    fn render_bg(bg: Option<u32>, out: &mut String)
        ensures
            final(out)@ == old(out)@ + spec_bg_json(bg),
    {
        if let Some(c) = bg {
            out.append(",\"background\":\"#");
            append_hex6(out, c);
            out.append("\"");
            proof {
                assert(out@ =~= old(out)@ + spec_bg_json(bg));
            }
        }
    }

    /// Appends the JSON object of one segment.
    #[verifier::rlimit(100)]
    fn render_subblock(&self, subblock: &SubBlock, out: &mut String)
        ensures
            final(out)@ == old(out)@ + spec_subblock_json(subblock@, self@),
    {
        out.append("{\"full_text\":\"");
        out.append(subblock.text.as_str());
        out.append("\",");
        if subblock.flags.separator() {
            out.append("\"separator_block_width\":");
            append_dec(out, self.separator_width);
        } else {
            out.append("\"separator\":false,\"separator_block_width\":0");
        }
        Base::render_bg(self.bgcolor, out);
        if subblock.flags.name() {
            out.append(",\"name\":\"");
            out.append(self.name.as_str());
            out.append("\"");
        }
        out.append(",\"color\":\"#");
        append_hex6(out, subblock.color);
        out.append("\"}");
        proof {
            assert(out@ =~= old(out)@ + spec_subblock_json(subblock@, self@));
        }
    }

    /// Builds the merged segment sequence for the current value: prefixes,
    /// the value's text and suffixes, coalesced by color.
    #[verifier::rlimit(100)]
    pub fn subblocks(&self) -> (r: Vec<SubBlock>)
        ensures
            r@.map_values(|x: SubBlock| x@) == spec_subblocks(self@),
    {
        let sf: RenderFlags = if self.custom_separator.is_some() {
            RenderFlags::Plain
        } else {
            RenderFlags::Separator
        };
        let subblocks: Vec<SubBlock> = match &self.value {
            Value::Int(v) => {
                let value = *v;
                let color = self.get_to_color(value);
                let mut prefix_color = match self.prefix_color {
                    Some(c) => c,
                    None => color,
                };
                let mut suffix_color = match self.suffix_color {
                    Some(c) => c,
                    None => color,
                };
                if self.threshold_fix && color != self.color {
                    prefix_color = color;
                    suffix_color = color;
                }
                let mut num = String::new();
                append_dec(&mut num, value);
                BlockBuilder::new()
                    .add(self.prefix.as_str(), prefix_color, RenderFlags::Plain)
                    .add(self.iprefix.as_str(), prefix_color, RenderFlags::Plain)
                    .add(num.as_str(), color, RenderFlags::Name)
                    .add(self.isuffix.as_str(), suffix_color, RenderFlags::Plain.bitor(sf))
                    .add(self.suffix.as_str(), suffix_color, RenderFlags::Plain.bitor(sf))
                    .get()
            },
            Value::Str(value) => {
                let prefix_color = match self.prefix_color {
                    Some(c) => c,
                    None => self.color,
                };
                let suffix_color = match self.suffix_color {
                    Some(c) => c,
                    None => self.color,
                };
                BlockBuilder::new()
                    .add(self.prefix.as_str(), prefix_color, RenderFlags::Plain)
                    .add(self.iprefix.as_str(), prefix_color, RenderFlags::Plain)
                    .add(value.as_str(), self.color, RenderFlags::Name)
                    .add(self.isuffix.as_str(), suffix_color, RenderFlags::Plain.bitor(sf))
                    .add(self.suffix.as_str(), suffix_color, RenderFlags::Plain.bitor(sf))
                    .get()
            },
            Value::Invalid => BlockBuilder::new()
                .add(self.invalid.as_str(), self.invalid_color, RenderFlags::Name.bitor(sf))
                .get(),
        };
        proof {
            assert(subblocks@.map_values(|x: SubBlock| x@) =~~= spec_subblocks(self@));
        }
        subblocks
    }

    /// Appends the leading separator glyph segment when a custom separator
    /// and a background color are both configured.
    fn render_sep_segment(&self, prev_bg: Option<u32>, out: &mut String)
        ensures
            final(out)@ == old(out)@ + (
            if self@.custom_separator is Some && self@.bgcolor is Some {
                spec_sep_segment_json(self@, prev_bg)
            } else {
                Seq::<char>::empty()
            }),
    {
        let ghost pre = if self@.custom_separator is Some && self@.bgcolor is Some {
            spec_sep_segment_json(self@, prev_bg)
        } else {
            Seq::<char>::empty()
        };
        match (&self.custom_separator, self.bgcolor) {
            (Some(glyph), Some(bgc)) => {
                out.append("{\"full_text\":\"");
                out.append(glyph.as_str());
                out.append("\",\"separator\":false,\"separator_block_width\":0,\"color\":\"#");
                append_hex6(out, bgc);
                out.append("\"");
                Base::render_bg(prev_bg, out);
                out.append("},");
                proof {
                    assert(out@ =~= old(out)@ + pre);
                }
            },
            _ => {
                proof {
                    assert(out@ =~= old(out)@ + pre);
                }
            },
        }
    }

    /// Appends everything this block contributes to a status line: the
    /// optional leading separator glyph segment, then the merged segments
    /// built from the current value, comma-joined.
    #[verifier::rlimit(100)]
    pub fn render(&self, prev_bg: Option<u32>, out: &mut String)
        ensures
            final(out)@ == old(out)@ + spec_render(self@, prev_bg),
    {
        let ghost pre = if self@.custom_separator is Some && self@.bgcolor is Some {
            spec_sep_segment_json(self@, prev_bg)
        } else {
            Seq::<char>::empty()
        };
        self.render_sep_segment(prev_bg, out);
        let subblocks = self.subblocks();
        let ghost sbs = spec_subblocks(self@);
        let n = subblocks.len();
        let mut i: usize = 0;
        proof {
            assert(out@ =~= old(out)@ + pre + spec_subblocks_json(sbs, self@, 0));
        }
        while i < n
            invariant
                0 <= i <= n,
                out@ == old(out)@ + pre + spec_subblocks_json(sbs, self@, i as int),
            decreases n - i,
        {
            let ghost out_i = out@;
            if i > 0 {
                out.append(",");
            }
            self.render_subblock(&subblocks[i], out);
            proof {
                reveal_strlit(",");
                assert(subblocks@[i as int]@ == sbs[i as int]);
                if i > 0 {
                    assert(out@ =~= out_i + seq![','] + spec_subblock_json(sbs[i as int], self@));
                } else {
                    assert(out@ =~= out_i + spec_subblock_json(sbs[i as int], self@));
                }
                assert(out@ =~= old(out)@ + pre + spec_subblocks_json(sbs, self@, i as int + 1));
            }
            i = i + 1;
        }
        proof {
            assert(out@ =~= old(out)@ + spec_render(self@, prev_bg));
        }
    }
}

/// The character of one digit value, in uppercase for the hexadecimal range.
pub open spec fn spec_digit_char(d: int) -> char {
    if d == 0 {
        '0'
    } else if d == 1 {
        '1'
    } else if d == 2 {
        '2'
    } else if d == 3 {
        '3'
    } else if d == 4 {
        '4'
    } else if d == 5 {
        '5'
    } else if d == 6 {
        '6'
    } else if d == 7 {
        '7'
    } else if d == 8 {
        '8'
    } else if d == 9 {
        '9'
    } else if d == 10 {
        'A'
    } else if d == 11 {
        'B'
    } else if d == 12 {
        'C'
    } else if d == 13 {
        'D'
    } else if d == 14 {
        'E'
    } else {
        'F'
    }
}

/// The decimal digit characters of a number, most significant first.
pub open spec fn spec_dec_chars(v: nat) -> Seq<char>
    decreases v,
{
    if v < 10 {
        seq![spec_digit_char(v as int)]
    } else {
        spec_dec_chars(v / 10) + seq![spec_digit_char((v % 10) as int)]
    }
}

/// The hexadecimal digit characters of a number, most significant first.
pub open spec fn spec_hex_chars(v: nat) -> Seq<char>
    decreases v,
{
    if v < 16 {
        seq![spec_digit_char(v as int)]
    } else {
        spec_hex_chars(v / 16) + seq![spec_digit_char((v % 16) as int)]
    }
}

/// `n` zero characters, or none when `n` is not positive.
pub open spec fn spec_zeros(n: int) -> Seq<char>
    decreases n,
{
    if n <= 0 {
        Seq::empty()
    } else {
        spec_zeros(n - 1) + seq!['0']
    }
}

/// The hexadecimal digits of a number, zero-padded on the left to at least
/// six places, as a `#RRGGBB` color is written.
pub open spec fn spec_hex6(v: nat) -> Seq<char> {
    spec_zeros(6 - spec_hex_chars(v).len()) + spec_hex_chars(v)
}

/// How many hexadecimal digits a number takes.
proof fn lemma_hex_chars_len(v: nat)
    ensures
        v < 0x10 ==> spec_hex_chars(v).len() == 1,
        0x10 <= v < 0x100 ==> spec_hex_chars(v).len() == 2,
        0x100 <= v < 0x1000 ==> spec_hex_chars(v).len() == 3,
        0x1000 <= v < 0x10000 ==> spec_hex_chars(v).len() == 4,
        0x10000 <= v < 0x100000 ==> spec_hex_chars(v).len() == 5,
        0x100000 <= v ==> spec_hex_chars(v).len() >= 6,
    decreases v,
{
    if v >= 0x10 {
        lemma_hex_chars_len(v / 16);
    }
}

/// One digit as text.
fn digit_str(d: u32) -> (r: &'static str)
    requires
        d < 16,
    ensures
        r@ == seq![spec_digit_char(d as int)],
{
    let r: &'static str = match d {
        0 => "0",
        1 => "1",
        2 => "2",
        3 => "3",
        4 => "4",
        5 => "5",
        6 => "6",
        7 => "7",
        8 => "8",
        9 => "9",
        10 => "A",
        11 => "B",
        12 => "C",
        13 => "D",
        14 => "E",
        _ => "F",
    };
    proof {
        reveal_strlit("0");
        reveal_strlit("1");
        reveal_strlit("2");
        reveal_strlit("3");
        reveal_strlit("4");
        reveal_strlit("5");
        reveal_strlit("6");
        reveal_strlit("7");
        reveal_strlit("8");
        reveal_strlit("9");
        reveal_strlit("A");
        reveal_strlit("B");
        reveal_strlit("C");
        reveal_strlit("D");
        reveal_strlit("E");
        reveal_strlit("F");
        assert(r@ =~= seq![spec_digit_char(d as int)]);
    }
    r
}

/// Appends `n` zero characters.
fn append_zeros(out: &mut String, n: usize)
    ensures
        final(out)@ == old(out)@ + spec_zeros(n as int),
{
    let mut j: usize = 0;
    proof {
        assert(out@ =~= old(out)@ + spec_zeros(0));
    }
    while j < n
        invariant
            0 <= j <= n,
            out@ == old(out)@ + spec_zeros(j as int),
        decreases n - j,
    {
        let z = digit_str(0);
        out.append(z);
        proof {
            assert(old(out)@ + spec_zeros(j as int) + seq!['0'] =~= old(out)@ + spec_zeros(
                j as int + 1,
            ));
        }
        j = j + 1;
    }
}

/// Appends a number in decimal.
fn append_dec(out: &mut String, v: u32)
    ensures
        final(out)@ == old(out)@ + spec_dec_chars(v as nat),
    decreases v,
{
    if v >= 10 {
        append_dec(out, v / 10);
    }
    let d = digit_str(v % 10);
    out.append(d);
    proof {
        if v >= 10 {
            assert(old(out)@ + spec_dec_chars((v / 10) as nat) + seq![spec_digit_char(
                (v % 10) as int,
            )] =~= old(out)@ + spec_dec_chars(v as nat));
        } else {
            assert(old(out)@ + spec_dec_chars(v as nat) =~= out@);
        }
    }
}

/// Appends a number in hexadecimal, uppercase.
fn append_hex(out: &mut String, v: u32)
    ensures
        final(out)@ == old(out)@ + spec_hex_chars(v as nat),
    decreases v,
{
    if v >= 16 {
        append_hex(out, v / 16);
    }
    let d = digit_str(v % 16);
    out.append(d);
    proof {
        if v >= 16 {
            assert(old(out)@ + spec_hex_chars((v / 16) as nat) + seq![spec_digit_char(
                (v % 16) as int,
            )] =~= old(out)@ + spec_hex_chars(v as nat));
        } else {
            assert(old(out)@ + spec_hex_chars(v as nat) =~= out@);
        }
    }
}

/// Appends a color value as at least six uppercase hexadecimal digits.
fn append_hex6(out: &mut String, v: u32)
    ensures
        final(out)@ == old(out)@ + spec_hex6(v as nat),
{
    proof {
        lemma_hex_chars_len(v as nat);
    }
    let pad: usize = if v < 0x10 {
        5
    } else if v < 0x100 {
        4
    } else if v < 0x1000 {
        3
    } else if v < 0x10000 {
        2
    } else if v < 0x100000 {
        1
    } else {
        0
    };
    append_zeros(out, pad);
    append_hex(out, v);
    proof {
        assert(old(out)@ + spec_zeros(pad as int) + spec_hex_chars(v as nat) =~= old(out)@
            + spec_hex6(v as nat));
    }
}

/// Adding a fragment never loses the name flag: if some segment already
/// carries it, or the new fragment does, some segment of the result does.
proof fn lemma_merge_add_keeps_name(s: Seq<SubBlockV>, text: Seq<char>, color: u32, flags: RenderFlags)
    requires
        (exists|i: int| 0 <= i < s.len() && (#[trigger] s[i]).flags.spec_name())
            || flags.spec_name(),
    ensures
        exists|i: int|
            0 <= i < merge_add(s, text, color, flags).len() && (#[trigger] merge_add(
                s,
                text,
                color,
                flags,
            )[i]).flags.spec_name(),
{
    let r = merge_add(s, text, color, flags);
    if s.len() > 0 && s.last().color == color {
        if flags.spec_name() || s[s.len() - 1].flags.spec_name() {
            assert(r[s.len() - 1].flags.spec_name());
        } else {
            let i = choose|i: int| 0 <= i < s.len() && (#[trigger] s[i]).flags.spec_name();
            assert(r[i].flags.spec_name());
        }
    } else {
        if flags.spec_name() {
            assert(r[s.len() as int].flags.spec_name());
        } else {
            let i = choose|i: int| 0 <= i < s.len() && (#[trigger] s[i]).flags.spec_name();
            assert(r[i].flags.spec_name());
        }
    }
}

/// Whatever the value and the configuration, some rendered segment carries
/// the block's name, so every block stays addressable in the protocol.
pub proof fn lemma_subblocks_carry_name(b: BaseV)
    ensures
        exists|i: int|
            0 <= i < spec_subblocks(b).len() && (#[trigger] spec_subblocks(b)[i]).flags.spec_name(),
{
    match b.value {
        ValueV::Int(value) => {
            let color = spec_color_for(b.thresholds, b.color, value);
            let pc0 = match b.prefix_color {
                Some(c) => c,
                None => color,
            };
            let sc0 = match b.suffix_color {
                Some(c) => c,
                None => color,
            };
            let pc = if b.threshold_fix && color != b.color {
                color
            } else {
                pc0
            };
            let sc = if b.threshold_fix && color != b.color {
                color
            } else {
                sc0
            };
            let s1 = merge_add(Seq::empty(), b.prefix, pc, RenderFlags::Plain);
            let s2 = merge_add(s1, b.iprefix, pc, RenderFlags::Plain);
            let s3 = merge_add(s2, spec_dec_chars(value as nat), color, RenderFlags::Name);
            let s4 = merge_add(s3, b.isuffix, sc, spec_suffix_flags(b, RenderFlags::Plain));
            lemma_merge_add_keeps_name(s2, spec_dec_chars(value as nat), color, RenderFlags::Name);
            lemma_merge_add_keeps_name(s3, b.isuffix, sc, spec_suffix_flags(b, RenderFlags::Plain));
            lemma_merge_add_keeps_name(s4, b.suffix, sc, spec_suffix_flags(b, RenderFlags::Plain));
        },
        ValueV::Str(text) => {
            let pc = match b.prefix_color {
                Some(c) => c,
                None => b.color,
            };
            let sc = match b.suffix_color {
                Some(c) => c,
                None => b.color,
            };
            let s1 = merge_add(Seq::empty(), b.prefix, pc, RenderFlags::Plain);
            let s2 = merge_add(s1, b.iprefix, pc, RenderFlags::Plain);
            let s3 = merge_add(s2, text, b.color, RenderFlags::Name);
            let s4 = merge_add(s3, b.isuffix, sc, spec_suffix_flags(b, RenderFlags::Plain));
            lemma_merge_add_keeps_name(s2, text, b.color, RenderFlags::Name);
            lemma_merge_add_keeps_name(s3, b.isuffix, sc, spec_suffix_flags(b, RenderFlags::Plain));
            lemma_merge_add_keeps_name(s4, b.suffix, sc, spec_suffix_flags(b, RenderFlags::Plain));
        },
        ValueV::Invalid => {
            assert(spec_subblocks(b)[0].flags.spec_name());
        },
    }
}

/// Rendering an invalid value is total: whatever the configuration, it
/// yields exactly one segment, holding the configured invalid text and
/// color, and that segment carries the block's name.
pub proof fn lemma_render_invalid(b: BaseV)
    requires
        b.value is Invalid,
    ensures
        spec_subblocks(b).len() == 1,
        spec_subblocks(b)[0].text == b.invalid,
        spec_subblocks(b)[0].color == b.invalid_color,
        spec_subblocks(b)[0].flags.spec_name(),
{
}

/// A numeric value with no custom separator and no threshold fix renders as
/// exactly the fragment sequence prefix, instance prefix, decimal value,
/// instance suffix, static suffix, collapsed by the color-merge rules, with
/// the prefixes in the prefix color, the value in the threshold-resolved
/// color, the suffixes in the suffix color, and only the suffixes eligible
/// for the separator gap.
pub proof fn lemma_render_int_shape(b: BaseV, value: u32)
    requires
        b.value == ValueV::Int(value),
        b.custom_separator is None,
        !b.threshold_fix,
    ensures
        spec_subblocks(b) == ({
            let color = spec_color_for(b.thresholds, b.color, value);
            let pc = match b.prefix_color {
                Some(c) => c,
                None => color,
            };
            let sc = match b.suffix_color {
                Some(c) => c,
                None => color,
            };
            merge_add(
                merge_add(
                    merge_add(
                        merge_add(
                            merge_add(Seq::empty(), b.prefix, pc, RenderFlags::Plain),
                            b.iprefix,
                            pc,
                            RenderFlags::Plain,
                        ),
                        spec_dec_chars(value as nat),
                        color,
                        RenderFlags::Name,
                    ),
                    b.isuffix,
                    sc,
                    RenderFlags::Separator,
                ),
                b.suffix,
                sc,
                RenderFlags::Separator,
            )
        }),
        exists|i: int|
            0 <= i < spec_subblocks(b).len() && (#[trigger] spec_subblocks(b)[i]).flags.spec_name(),
{
    lemma_subblocks_carry_name(b);
}

/// The text shown for an invalid value when none is configured.
pub fn default_invalid() -> (r: String)
    ensures
        r@ == "invalid"@,
{
    "invalid".to_owned()
}

/// The default numeric configuration field.
pub fn default_zero() -> (r: u32)
    ensures
        r == 0,
{
    0
}

/// The default block position.
pub fn default_index() -> (r: usize)
    ensures
        r == 0,
{
    0
}

/// The default foreground color, white.
pub fn default_color() -> (r: u32)
    ensures
        r == 0xffffff,
{
    0xffffff
}

/// The default color of the invalid text, red.
pub fn default_invalid_color() -> (r: u32)
    ensures
        r == 0xff0000,
{
    0xff0000
}

/// The default optional color: absent.
pub fn default_none() -> (r: Option<u32>)
    ensures
        r is None,
{
    None
}

/// The default optional text: absent.
pub fn default_str_none() -> (r: Option<String>)
    ensures
        r is None,
{
    None
}

/// The default threshold mapping: empty.
pub fn default_thresholds() -> (r: Vec<(u32, u32)>)
    ensures
        r@ == Seq::<(u32, u32)>::empty(),
{
    Vec::new()
}

/// The default boolean configuration field.
pub fn default_false() -> (r: bool)
    ensures
        r == false,
{
    false
}


} // verus!
