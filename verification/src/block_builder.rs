//! Accumulates the text fragments of one block into renderable segments,
//! merging adjacent fragments of the same color so that the status line
//! never pays a separator gap between runs that look like one segment.
use vstd::prelude::*;

verus! {

/// Flags attached to one rendered segment: whether it takes the separator
/// gap after it, and whether it carries the block's name in the protocol.
#[allow(missing_docs)]
#[derive(Clone, Copy, Debug, PartialEq, Eq, Structural)]
pub enum RenderFlags {
    Plain,
    Separator,
    Name,
    Both,
}

impl RenderFlags {
    /// Whether the separator bit is set.
    pub open spec fn spec_separator(self) -> bool {
        self == RenderFlags::Separator || self == RenderFlags::Both
    }

    /// Whether the name bit is set.
    pub open spec fn spec_name(self) -> bool {
        self == RenderFlags::Name || self == RenderFlags::Both
    }

    /// The flag value with exactly the given bits.
    pub open spec fn spec_from(sep: bool, name: bool) -> RenderFlags {
        if sep && name {
            RenderFlags::Both
        } else if sep {
            RenderFlags::Separator
        } else if name {
            RenderFlags::Name
        } else {
            RenderFlags::Plain
        }
    }

    /// The union of the bits of two flag values.
    pub open spec fn spec_or(self, rhs: RenderFlags) -> RenderFlags {
        RenderFlags::spec_from(
            self.spec_separator() || rhs.spec_separator(),
            self.spec_name() || rhs.spec_name(),
        )
    }

    /// Builds the flag value with exactly the given bits.
    pub fn from_bits(sep: bool, name: bool) -> (r: RenderFlags)
        ensures
            r == RenderFlags::spec_from(sep, name),
    {
        if sep && name {
            RenderFlags::Both
        } else if sep {
            RenderFlags::Separator
        } else if name {
            RenderFlags::Name
        } else {
            RenderFlags::Plain
        }
    }

    /// Whether the separator bit is set.
    pub fn separator(self) -> (b: bool)
        ensures
            b == self.spec_separator(),
    {
        match self {
            RenderFlags::Separator => true,
            RenderFlags::Both => true,
            _ => false,
        }
    }

    /// Whether the name bit is set.
    pub fn name(self) -> (b: bool)
        ensures
            b == self.spec_name(),
    {
        match self {
            RenderFlags::Name => true,
            RenderFlags::Both => true,
            _ => false,
        }
    }

    /// Bitwise union of two flag values.
    pub fn bitor(self, rhs: RenderFlags) -> (r: RenderFlags)
        ensures
            r == self.spec_or(rhs),
    {
        RenderFlags::from_bits(
            self.separator() || rhs.separator(),
            self.name() || rhs.name(),
        )
    }
}

/// One color/text run of the rendered output, after merging.
pub struct SubBlock {
    /// Text of the run.
    pub text: String,
    /// Foreground color of the run.
    pub color: u32,
    /// Separator and name flags of the run.
    pub flags: RenderFlags,
}

/// The mathematical value of a [`SubBlock`].
pub struct SubBlockV {
    /// Text of the run.
    pub text: Seq<char>,
    /// Foreground color of the run.
    pub color: u32,
    /// Separator and name flags of the run.
    pub flags: RenderFlags,
}

impl View for SubBlock {
    type V = SubBlockV;

    open spec fn view(&self) -> SubBlockV {
        SubBlockV { text: self.text@, color: self.color, flags: self.flags }
    }
}

impl SubBlock {
    /// A fresh segment holding one fragment.
    pub fn new(text: &str, color: u32, flags: RenderFlags) -> (s: SubBlock)
        ensures
            s@ == (SubBlockV { text: text@, color, flags }),
    {
        SubBlock { text: text.to_owned(), color, flags }
    }
}

/// What adding one fragment does to a segment sequence: if the last segment
/// has the same color, the fragment's text is appended to it and the flags
/// are merged; otherwise a new segment is started.
pub open spec fn merge_add(
    s: Seq<SubBlockV>,
    text: Seq<char>,
    color: u32,
    flags: RenderFlags,
) -> Seq<SubBlockV> {
    if s.len() > 0 && s.last().color == color {
        s.update(
            s.len() - 1,
            SubBlockV {
                text: s.last().text + text,
                color,
                flags: s.last().flags.spec_or(flags),
            },
        )
    } else {
        s.push(SubBlockV { text, color, flags })
    }
}

/// Collects fragments into the minimal segment sequence by greedy,
/// local color merging.
pub struct BlockBuilder {
    /// Segments collected so far.
    pub sub_blocks: Vec<SubBlock>,
}

impl View for BlockBuilder {
    type V = Seq<SubBlockV>;

    open spec fn view(&self) -> Seq<SubBlockV> {
        self.sub_blocks@.map_values(|b: SubBlock| b@)
    }
}

impl BlockBuilder {
    /// An empty builder.
    pub fn new() -> (b: BlockBuilder)
        ensures
            b@ == Seq::<SubBlockV>::empty(),
    {
        let b = BlockBuilder { sub_blocks: Vec::new() };
        proof {
            assert(b@ =~= Seq::<SubBlockV>::empty());
        }
        b
    }

    /// Adds one fragment, merging it into the last segment when the colors
    /// are equal.
    pub fn add(self, text: &str, color: u32, flags: RenderFlags) -> (r: Self)
        ensures
            r@ == merge_add(self@, text@, color, flags),
    {
        let ghost s0 = self@;
        let mut b = self;
        if b.sub_blocks.len() > 0 {
            let last = b.sub_blocks.pop().unwrap();
            if last.color == color {
                let mut merged = last;
                merged.text.append(text);
                merged.flags = merged.flags.bitor(flags);
                b.sub_blocks.push(merged);
                proof {
                    assert(b@ =~= merge_add(s0, text@, color, flags));
                }
                return b;
            }
            b.sub_blocks.push(last);
            proof {
                assert(b@ =~= s0);
            }
        }
        b.sub_blocks.push(SubBlock::new(text, color, flags));
        proof {
            assert(b@ =~= merge_add(s0, text@, color, flags));
        }
        b
    }

    /// The finished segment sequence.
    pub fn get(self) -> (r: Vec<SubBlock>)
        ensures
            r@.map_values(|b: SubBlock| b@) == self@,
    {
        self.sub_blocks
    }
}

/// Two fragments of one color collapse into a single segment whose text is
/// the concatenation and whose flags are the union; two fragments of
/// different colors stay two segments.
pub proof fn lemma_merge_by_color(
    t1: Seq<char>,
    t2: Seq<char>,
    c1: u32,
    c2: u32,
    f1: RenderFlags,
    f2: RenderFlags,
)
    ensures
        c1 == c2 ==> merge_add(merge_add(Seq::empty(), t1, c1, f1), t2, c2, f2)
            =~= seq![SubBlockV { text: t1 + t2, color: c1, flags: f1.spec_or(f2) }],
        c1 != c2 ==> merge_add(merge_add(Seq::empty(), t1, c1, f1), t2, c2, f2)
            =~= seq![
                SubBlockV { text: t1, color: c1, flags: f1 },
                SubBlockV { text: t2, color: c2, flags: f2 },
            ],
{
}

} // verus!
