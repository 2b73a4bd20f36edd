//! Small helpers shared by the blocks and the scheduler: the greatest
//! common divisor used for the polling tick, text splitting and number
//! parsing for the sensor files, and the color parser for `#RRGGBB` style
//! configuration strings.
use vstd::prelude::*;

use vstd::string::StrSliceExecFns;
use vstd::string::StringExecFns;

verus! {

/// Offset of the first POSIX real-time signal; a block's configured `signal`
/// is added to this base to obtain the OS signal number.
pub const SIGRTMIN: i32 = 34;

/// The greatest common divisor, by Euclid's algorithm.
pub open spec fn spec_gcd(x: nat, y: nat) -> nat
    decreases y,
{
    if y == 0 {
        x
    } else {
        spec_gcd(y, x % y)
    }
}

/// Shared polling tick of two update intervals.
pub fn gcd(i1: u32, i2: u32) -> (r: u32)
    requires
        i2 != 0,
    ensures
        r == spec_gcd(i1 as nat, i2 as nat),
        r != 0,
{
    let mut x = i1;
    let mut y = i2;
    let mut r = x % y;
    while r != 0
        invariant
            y != 0,
            r == x % y,
            spec_gcd(x as nat, y as nat) == spec_gcd(i1 as nat, i2 as nat),
        decreases y,
    {
        proof {
            assert(spec_gcd(x as nat, y as nat) == spec_gcd(y as nat, (x % y) as nat));
        }
        x = y;
        y = r;
        r = x % y;
    }
    proof {
        assert(spec_gcd(x as nat, y as nat) == spec_gcd(y as nat, 0));
        assert(spec_gcd(y as nat, 0) == y as nat);
    }
    y
}

/// Divisibility carries through a chain: what divides a divisor divides
/// the multiple.
pub proof fn lemma_divides_trans(a: nat, b: nat, c: nat)
    requires
        b != 0,
        c != 0,
        a % b == 0,
        b % c == 0,
    ensures
        a % c == 0,
{
    vstd::arithmetic::div_mod::lemma_fundamental_div_mod(a as int, b as int);
    vstd::arithmetic::div_mod::lemma_fundamental_div_mod(b as int, c as int);
    let k = a as int / b as int;
    let m = b as int / c as int;
    assert(a as int == c as int * (m * k)) by (nonlinear_arith)
        requires
            a as int == b as int * k + a as int % b as int,
            b as int == c as int * m + b as int % c as int,
            a as int % b as int == 0,
            b as int % c as int == 0,
    ;
    vstd::arithmetic::div_mod::lemma_mod_multiples_basic(m * k, c as int);
}

/// The greatest common divisor divides both of its arguments, and is zero
/// only when both are.
pub proof fn lemma_gcd_divides(x: nat, y: nat)
    ensures
        spec_gcd(x, y) == 0 ==> x == 0 && y == 0,
        spec_gcd(x, y) != 0 ==> x % spec_gcd(x, y) == 0 && y % spec_gcd(x, y) == 0,
    decreases y,
{
    if y == 0 {
        if x != 0 {
            vstd::arithmetic::div_mod::lemma_mod_self_0(x as int);
        }
    } else {
        lemma_gcd_divides(y, x % y);
        let g = spec_gcd(y, x % y);
        assert(g != 0);
        vstd::arithmetic::div_mod::lemma_fundamental_div_mod(x as int, y as int);
        vstd::arithmetic::div_mod::lemma_fundamental_div_mod(y as int, g as int);
        let q = x as int / y as int;
        let m = y as int / g as int;
        assert(x as int == g as int * (m * q) + (x % y) as int) by (nonlinear_arith)
            requires
                x as int == y as int * q + (x % y) as int,
                y as int == g as int * m + (y as int % g as int),
                y as int % g as int == 0,
        ;
        assert((x % y) as int % g as int == 0);
        assert((g as int * (m * q) + (x % y) as int) % g as int == (x % y) as int % g as int) by {
            vstd::arithmetic::div_mod::lemma_mod_multiples_vanish(m * q, (x % y) as int, g as int);
        }
    }
}

/// ASCII whitespace, as the sensor files under /proc and /sys use it.
pub open spec fn spec_is_ws(c: char) -> bool {
    c as u32 == 0x20 || (0x09 <= c as u32 && c as u32 <= 0x0d)
}

/// Whether the character is ASCII whitespace.
pub fn is_ws(c: char) -> (r: bool)
    ensures
        r == spec_is_ws(c),
{
    c as u32 == 0x20 || (0x09 <= c as u32 && c as u32 <= 0x0d)
}

/// Whether two pieces of text hold the same characters.
pub fn str_eq(a: &str, b: &str) -> (r: bool)
    ensures
        r == (a@ == b@),
{
    a.to_owned() == b.to_owned()
}

/// The text with its leading whitespace removed.
pub open spec fn spec_trim_start(s: Seq<char>) -> Seq<char>
    decreases s.len(),
{
    if s.len() > 0 && spec_is_ws(s[0]) {
        spec_trim_start(s.drop_first())
    } else {
        s
    }
}

/// The text with its trailing whitespace removed.
pub open spec fn spec_trim_end(s: Seq<char>) -> Seq<char>
    decreases s.len(),
{
    if s.len() > 0 && spec_is_ws(s.last()) {
        spec_trim_end(s.drop_last())
    } else {
        s
    }
}

/// The text with whitespace removed from both ends.
pub open spec fn spec_trim(s: Seq<char>) -> Seq<char> {
    spec_trim_end(spec_trim_start(s))
}

/// Strips ASCII whitespace from both ends of a piece of text.
pub fn trim(s: &str) -> (r: &str)
    ensures
        r@ == spec_trim(s@),
{
    let n = s.unicode_len();
    proof {
        assert(s@.skip(0) =~= s@);
    }
    let mut lo: usize = 0;
    while lo < n && is_ws(s.get_char(lo))
        invariant
            n == s@.len(),
            0 <= lo <= n,
            spec_trim_start(s@) == spec_trim_start(s@.skip(lo as int)),
        decreases n - lo,
    {
        proof {
            assert(s@.skip(lo as int).drop_first() =~= s@.skip(lo as int + 1));
        }
        lo = lo + 1;
    }
    proof {
        assert(spec_trim_start(s@.skip(lo as int)) == s@.skip(lo as int));
        assert(s@.skip(lo as int) =~= s@.subrange(lo as int, s@.len() as int));
    }
    let mut hi: usize = n;
    while hi > lo && is_ws(s.get_char(hi - 1))
        invariant
            n == s@.len(),
            lo <= hi <= n,
            spec_trim_end(spec_trim_start(s@)) == spec_trim_end(
                s@.subrange(lo as int, hi as int),
            ),
        decreases hi,
    {
        proof {
            assert(s@.subrange(lo as int, hi as int).drop_last() =~= s@.subrange(
                lo as int,
                hi as int - 1,
            ));
        }
        hi = hi - 1;
    }
    proof {
        assert(spec_trim_end(s@.subrange(lo as int, hi as int)) == s@.subrange(
            lo as int,
            hi as int,
        ));
    }
    s.substring_char(lo, hi)
}

/// Left fold of whitespace splitting: walks `s` from position `i` with the
/// tokens found so far and the run of non-whitespace characters being read.
pub open spec fn spec_tokens_fold(
    s: Seq<char>,
    i: int,
    toks: Seq<Seq<char>>,
    cur: Seq<char>,
) -> Seq<Seq<char>>
    decreases s.len() - i,
{
    if i < 0 || i >= s.len() {
        if cur.len() > 0 {
            toks.push(cur)
        } else {
            toks
        }
    } else if spec_is_ws(s[i]) {
        if cur.len() > 0 {
            spec_tokens_fold(s, i + 1, toks.push(cur), Seq::empty())
        } else {
            spec_tokens_fold(s, i + 1, toks, Seq::empty())
        }
    } else {
        spec_tokens_fold(s, i + 1, toks, cur.push(s[i]))
    }
}

/// The maximal runs of non-whitespace characters of `s`, in order.
pub open spec fn spec_tokens(s: Seq<char>) -> Seq<Seq<char>> {
    spec_tokens_fold(s, 0, Seq::empty(), Seq::empty())
}

/// Splits a piece of text at ASCII whitespace into its maximal
/// non-whitespace runs.
pub fn split_tokens(s: &str) -> (r: Vec<String>)
    ensures
        r.deep_view() == spec_tokens(s@),
{
    let n = s.unicode_len();
    let mut toks: Vec<String> = Vec::new();
    let mut start: usize = 0;
    let mut i: usize = 0;
    proof {
        assert(toks.deep_view() =~~= Seq::<Seq<char>>::empty());
        assert(s@.subrange(0, 0) =~= Seq::<char>::empty());
    }
    while i < n
        invariant
            n == s@.len(),
            0 <= start <= i <= n,
            spec_tokens(s@) == spec_tokens_fold(
                s@,
                i as int,
                toks.deep_view(),
                s@.subrange(start as int, i as int),
            ),
        decreases n - i,
    {
        let ghost toks0 = toks.deep_view();
        if is_ws(s.get_char(i)) {
            if start < i {
                let tok = s.substring_char(start, i).to_owned();
                toks.push(tok);
                proof {
                    assert(toks.deep_view() =~~= toks0.push(s@.subrange(start as int, i as int)));
                }
            }
            start = i + 1;
            proof {
                assert(s@.subrange(i as int + 1, i as int + 1) =~= Seq::<char>::empty());
            }
        } else {
            proof {
                assert(s@.subrange(start as int, i as int).push(s@[i as int]) =~= s@.subrange(
                    start as int,
                    i as int + 1,
                ));
            }
        }
        i = i + 1;
    }
    if start < n {
        let ghost toks0 = toks.deep_view();
        let tok = s.substring_char(start, n).to_owned();
        toks.push(tok);
        proof {
            assert(toks.deep_view() =~~= toks0.push(s@.subrange(start as int, n as int)));
        }
    }
    toks
}

/// Left fold of delimiter splitting: walks `s` from position `i` with the
/// parts found so far and the part being read; empty parts are kept.
pub open spec fn spec_split_fold(
    s: Seq<char>,
    delim: char,
    i: int,
    parts: Seq<Seq<char>>,
    cur: Seq<char>,
) -> Seq<Seq<char>>
    decreases s.len() - i,
{
    if i < 0 || i >= s.len() {
        parts.push(cur)
    } else if s[i] == delim {
        spec_split_fold(s, delim, i + 1, parts.push(cur), Seq::empty())
    } else {
        spec_split_fold(s, delim, i + 1, parts, cur.push(s[i]))
    }
}

/// The parts of `s` between occurrences of `delim`, in order; one more part
/// than there are delimiters, and empty parts are kept.
pub open spec fn spec_split(s: Seq<char>, delim: char) -> Seq<Seq<char>> {
    spec_split_fold(s, delim, 0, Seq::empty(), Seq::empty())
}

/// Splits a piece of text at every occurrence of `delim`, keeping empty
/// parts.
pub fn split_char(s: &str, delim: char) -> (r: Vec<String>)
    ensures
        r.deep_view() == spec_split(s@, delim),
        r.len() > 0,
{
    let n = s.unicode_len();
    let mut parts: Vec<String> = Vec::new();
    let mut start: usize = 0;
    let mut i: usize = 0;
    proof {
        assert(parts.deep_view() =~~= Seq::<Seq<char>>::empty());
        assert(s@.subrange(0, 0) =~= Seq::<char>::empty());
    }
    while i < n
        invariant
            n == s@.len(),
            0 <= start <= i <= n,
            spec_split(s@, delim) == spec_split_fold(
                s@,
                delim,
                i as int,
                parts.deep_view(),
                s@.subrange(start as int, i as int),
            ),
        decreases n - i,
    {
        let ghost parts0 = parts.deep_view();
        if s.get_char(i) == delim {
            let part = s.substring_char(start, i).to_owned();
            parts.push(part);
            proof {
                assert(parts.deep_view() =~~= parts0.push(s@.subrange(start as int, i as int)));
                assert(s@.subrange(i as int + 1, i as int + 1) =~= Seq::<char>::empty());
            }
            start = i + 1;
        } else {
            proof {
                assert(s@.subrange(start as int, i as int).push(s@[i as int]) =~= s@.subrange(
                    start as int,
                    i as int + 1,
                ));
            }
        }
        i = i + 1;
    }
    let ghost parts0 = parts.deep_view();
    let part = s.substring_char(start, n).to_owned();
    parts.push(part);
    proof {
        assert(parts.deep_view() =~~= parts0.push(s@.subrange(start as int, n as int)));
    }
    parts
}

/// Whether every character of `s` is an ASCII decimal digit.
pub open spec fn spec_is_digits(s: Seq<char>) -> bool {
    forall|i: int| 0 <= i < s.len() ==> 0x30 <= (#[trigger] s[i]) as u32 <= 0x39
}

/// The number denoted by a run of decimal digits.
pub open spec fn spec_dec_val(s: Seq<char>) -> int
    decreases s.len(),
{
    if s.len() == 0 {
        0
    } else {
        spec_dec_val(s.drop_last()) * 10 + (s.last() as u32 - 0x30)
    }
}

/// A digit string denotes a nonnegative number.
proof fn lemma_dec_val_nonneg(s: Seq<char>)
    requires
        spec_is_digits(s),
    ensures
        spec_dec_val(s) >= 0,
    decreases s.len(),
{
    if s.len() > 0 {
        assert(spec_is_digits(s.drop_last()));
        lemma_dec_val_nonneg(s.drop_last());
    }
}

/// A digit string's value is at least the value of any of its prefixes.
proof fn lemma_dec_val_prefix(s: Seq<char>, j: int)
    requires
        spec_is_digits(s),
        0 <= j <= s.len(),
    ensures
        spec_dec_val(s.take(j)) <= spec_dec_val(s),
    decreases s.len() - j,
{
    if j < s.len() {
        assert(s.take(j + 1).drop_last() =~= s.take(j));
        assert(spec_is_digits(s.take(j)));
        lemma_dec_val_nonneg(s.take(j));
        lemma_dec_val_prefix(s, j + 1);
    } else {
        assert(s.take(j) =~= s);
    }
}

/// What `parse::<u64>` returns: the decimal value, after an optional
/// leading plus sign, if the digits are well formed and the value fits.
pub open spec fn spec_parse_u64(s: Seq<char>) -> Option<u64> {
    let body = if s.len() > 0 && s[0] == '+' {
        s.drop_first()
    } else {
        s
    };
    if body.len() > 0 && spec_is_digits(body) && spec_dec_val(body) <= u64::MAX {
        Some(spec_dec_val(body) as u64)
    } else {
        None
    }
}

/// What `parse::<u32>` returns.
pub open spec fn spec_parse_u32(s: Seq<char>) -> Option<u32> {
    let body = if s.len() > 0 && s[0] == '+' {
        s.drop_first()
    } else {
        s
    };
    if body.len() > 0 && spec_is_digits(body) && spec_dec_val(body) <= u32::MAX {
        Some(spec_dec_val(body) as u32)
    } else {
        None
    }
}

/// Reads an unsigned decimal number, rejecting malformed digits and values
/// that do not fit.
pub fn parse_u64(s: &str) -> (r: Option<u64>)
    ensures
        r == spec_parse_u64(s@),
{
    let n = s.unicode_len();
    let body: &str = if n > 0 && s.get_char(0) == '+' {
        s.substring_char(1, n)
    } else {
        s
    };
    proof {
        if s@.len() > 0 && s@[0] == '+' {
            assert(body@ =~= s@.drop_first());
        }
    }
    let m = body.unicode_len();
    if m == 0 {
        return None;
    }
    let mut i: usize = 0;
    while i < m
        invariant
            m == body@.len(),
            0 <= i <= m,
            forall|j: int| 0 <= j < i ==> 0x30 <= (#[trigger] body@[j]) as u32 <= 0x39,
        decreases m - i,
    {
        let u = body.get_char(i) as u32;
        if u < 0x30 || u > 0x39 {
            proof {
                assert(!(0x30 <= body@[i as int] as u32 <= 0x39));
                assert(!spec_is_digits(body@));
            }
            return None;
        }
        i = i + 1;
    }
    assert(spec_is_digits(body@));
    let mut acc: u64 = 0;
    let mut j: usize = 0;
    proof {
        assert(body@.take(0) =~= Seq::<char>::empty());
    }
    while j < m
        invariant
            m == body@.len(),
            0 <= j <= m,
            spec_is_digits(body@),
            acc == spec_dec_val(body@.take(j as int)),
        decreases m - j,
    {
        let d: u64 = (body.get_char(j) as u32 - 0x30) as u64;
        let wide: u128 = acc as u128 * 10 + d as u128;
        proof {
            assert(body@.take(j as int + 1).drop_last() =~= body@.take(j as int));
        }
        if wide > 0xffff_ffff_ffff_ffff {
            proof {
                assert(spec_dec_val(body@.take(j as int + 1)) > u64::MAX);
                lemma_dec_val_prefix(body@, j as int + 1);
            }
            return None;
        }
        acc = wide as u64;
        j = j + 1;
    }
    proof {
        assert(body@.take(body@.len() as int) =~= body@);
    }
    Some(acc)
}

/// Reads an unsigned decimal number that must fit in 32 bits.
pub fn parse_u32(s: &str) -> (r: Option<u32>)
    ensures
        r == spec_parse_u32(s@),
{
    proof {
        let body = if s@.len() > 0 && s@[0] == '+' {
            s@.drop_first()
        } else {
            s@
        };
        if spec_is_digits(body) {
            lemma_dec_val_nonneg(body);
        }
    }
    match parse_u64(s) {
        Some(v) => {
            if v <= 0xffff_ffff {
                Some(v as u32)
            } else {
                None
            }
        },
        None => None,
    }
}

/// Whether the character is an ASCII hexadecimal digit.
pub open spec fn spec_is_hex_digit(c: char) -> bool {
    (0x30 <= c as u32 && c as u32 <= 0x39) || (0x41 <= c as u32 && c as u32 <= 0x46) || (0x61
        <= c as u32 && c as u32 <= 0x66)
}

/// The value of one hexadecimal digit.
pub open spec fn spec_hex_digit_val(c: char) -> int {
    if 0x30 <= c as u32 && c as u32 <= 0x39 {
        c as u32 - 0x30
    } else if 0x41 <= c as u32 && c as u32 <= 0x46 {
        c as u32 - 0x37
    } else if 0x61 <= c as u32 && c as u32 <= 0x66 {
        c as u32 - 0x57
    } else {
        0
    }
}

/// Whether every character of `s` is an ASCII hexadecimal digit.
pub open spec fn spec_is_hex(s: Seq<char>) -> bool {
    forall|i: int| 0 <= i < s.len() ==> spec_is_hex_digit(#[trigger] s[i])
}

/// The number denoted by a run of hexadecimal digits.
pub open spec fn spec_hex_val(s: Seq<char>) -> int
    decreases s.len(),
{
    if s.len() == 0 {
        0
    } else {
        spec_hex_val(s.drop_last()) * 16 + spec_hex_digit_val(s.last())
    }
}

/// A hexadecimal digit string denotes a nonnegative number.
proof fn lemma_hex_val_nonneg(s: Seq<char>)
    requires
        spec_is_hex(s),
    ensures
        spec_hex_val(s) >= 0,
    decreases s.len(),
{
    if s.len() > 0 {
        assert(spec_is_hex(s.drop_last()));
        lemma_hex_val_nonneg(s.drop_last());
    }
}

/// A hexadecimal digit string's value is at least the value of any prefix.
proof fn lemma_hex_val_prefix(s: Seq<char>, j: int)
    requires
        spec_is_hex(s),
        0 <= j <= s.len(),
    ensures
        spec_hex_val(s.take(j)) <= spec_hex_val(s),
    decreases s.len() - j,
{
    if j < s.len() {
        assert(s.take(j + 1).drop_last() =~= s.take(j));
        assert(spec_is_hex(s.take(j)));
        lemma_hex_val_nonneg(s.take(j));
        lemma_hex_val_prefix(s, j + 1);
    } else {
        assert(s.take(j) =~= s);
    }
}

/// What reading `t` as a signed 64-bit number in base 16 and truncating to
/// 32 bits yields: the magnitude after an optional sign, rejected when a
/// digit is malformed or the value does not fit in the signed range.
pub open spec fn spec_radix16_u32(t: Seq<char>) -> Option<u32> {
    let neg = t.len() > 0 && t[0] == '-';
    let digits = if t.len() > 0 && (t[0] == '-' || t[0] == '+') {
        t.drop_first()
    } else {
        t
    };
    if digits.len() > 0 && spec_is_hex(digits) && spec_hex_val(digits) <= (
    if neg {
        0x8000_0000_0000_0000int
    } else {
        0x7fff_ffff_ffff_ffffint
    }) {
        if neg {
            Some((((0x1_0000_0000_0000_0000 - spec_hex_val(digits)) % 0x1_0000_0000) as u32))
        } else {
            Some(((spec_hex_val(digits) % 0x1_0000_0000) as u32))
        }
    } else {
        None
    }
}

/// The color a configuration string denotes: its hexadecimal value after an
/// optional `#`, or `default` when the string is not a well-formed number.
pub open spec fn spec_read_color(s: Seq<char>, default: u32) -> u32 {
    if s.len() == 0 {
        default
    } else {
        let t = if s[0] == '#' {
            s.drop_first()
        } else {
            s
        };
        match spec_radix16_u32(t) {
            Some(v) => v,
            None => default,
        }
    }
}

/// Reads a `#RRGGBB` style color string, falling back to `default` when it
/// is malformed.
pub fn read_color(input: &str, default: u32) -> (r: u32)
    ensures
        r == spec_read_color(input@, default),
{
    let n = input.unicode_len();
    if n == 0 {
        return default;
    }
    let t: &str = if input.get_char(0) == '#' {
        input.substring_char(1, n)
    } else {
        input
    };
    proof {
        if input@[0] == '#' {
            assert(t@ =~= input@.drop_first());
        }
    }
    let tn = t.unicode_len();
    let neg = tn > 0 && t.get_char(0) == '-';
    let digits: &str = if tn > 0 && (t.get_char(0) == '-' || t.get_char(0) == '+') {
        t.substring_char(1, tn)
    } else {
        t
    };
    proof {
        if t@.len() > 0 && (t@[0] == '-' || t@[0] == '+') {
            assert(digits@ =~= t@.drop_first());
        }
    }
    let m = digits.unicode_len();
    if m == 0 {
        return default;
    }
    let limit: u64 = if neg {
        0x8000_0000_0000_0000
    } else {
        0x7fff_ffff_ffff_ffff
    };
    let mut i: usize = 0;
    while i < m
        invariant
            m == digits@.len(),
            0 <= i <= m,
            forall|j: int| 0 <= j < i ==> spec_is_hex_digit(#[trigger] digits@[j]),
        decreases m - i,
    {
        let u = digits.get_char(i) as u32;
        if !((0x30 <= u && u <= 0x39) || (0x41 <= u && u <= 0x46) || (0x61 <= u && u <= 0x66)) {
            proof {
                assert(!spec_is_hex_digit(digits@[i as int]));
                assert(!spec_is_hex(digits@));
            }
            return default;
        }
        i = i + 1;
    }
    assert(spec_is_hex(digits@));
    let mut acc: u64 = 0;
    let mut j: usize = 0;
    proof {
        assert(digits@.take(0) =~= Seq::<char>::empty());
    }
    while j < m
        invariant
            m == digits@.len(),
            0 <= j <= m,
            acc == spec_hex_val(digits@.take(j as int)),
            acc <= limit,
            spec_is_hex(digits@),
        decreases m - j,
    {
        let u = digits.get_char(j) as u32;
        let d: u64 = if u <= 0x39 {
            (u - 0x30) as u64
        } else if u <= 0x46 {
            (u - 0x37) as u64
        } else {
            (u - 0x57) as u64
        };
        let wide: u128 = acc as u128 * 16 + d as u128;
        proof {
            assert(digits@.take(j as int + 1).drop_last() =~= digits@.take(j as int));
        }
        if wide > limit as u128 {
            proof {
                assert(spec_hex_val(digits@.take(j as int + 1)) > limit);
                lemma_hex_val_prefix(digits@, j as int + 1);
            }
            return default;
        }
        acc = wide as u64;
        j = j + 1;
    }
    proof {
        assert(digits@.take(digits@.len() as int) =~= digits@);
    }
    if neg {
        let low: u64 = acc % 0x1_0000_0000;
        let r64: u64 = (0x1_0000_0000 - low) % 0x1_0000_0000;
        proof {
            lemma_wrap_neg(acc as int);
        }
        r64 as u32
    } else {
        (acc % 0x1_0000_0000) as u32
    }
}

/// Truncating the two's complement of a magnitude to 32 bits is the same as
/// wrapping its low 32 bits.
proof fn lemma_wrap_neg(a: int)
    requires
        0 <= a <= 0x1_0000_0000_0000_0000,
    ensures
        (0x1_0000_0000_0000_0000 - a) % 0x1_0000_0000 == (0x1_0000_0000 - a % 0x1_0000_0000)
            % 0x1_0000_0000,
{
    let m: int = 0x1_0000_0000;
    vstd::arithmetic::div_mod::lemma_fundamental_div_mod(a, m);
    let q = a / m;
    let low = a % m;
    assert(0x1_0000_0000_0000_0000 - a == m * (m - q - 1) + (m - low)) by {
        assert(a == q * m + low);
        assert(0x1_0000_0000int * 0x1_0000_0000int == 0x1_0000_0000_0000_0000int)
            by (nonlinear_arith);
        assert(m * (m - q - 1) == m * m - m * q - m) by (nonlinear_arith);
        assert(q * m == m * q) by (nonlinear_arith);
    }
    vstd::arithmetic::div_mod::lemma_mod_multiples_vanish(m - q - 1, m - low, m);
}

/// Whether `needle` occurs as a contiguous run inside `hay`.
pub open spec fn spec_contains_sub(hay: Seq<char>, needle: Seq<char>) -> bool {
    exists|i: int|
        0 <= i <= hay.len() - needle.len() && #[trigger] hay.subrange(i, i + needle.len())
            == needle
}

/// Searches `hay` for an occurrence of `needle`.
pub fn contains_sub(hay: &str, needle: &str) -> (r: bool)
    ensures
        r == spec_contains_sub(hay@, needle@),
{
    let hn = hay.unicode_len();
    let nn = needle.unicode_len();
    if nn > hn {
        return false;
    }
    if nn == 0 {
        proof {
            assert(hay@.subrange(0, 0 + needle@.len() as int) =~= needle@);
        }
        return true;
    }
    let mut i: usize = 0;
    while i <= hn - nn
        invariant
            hn == hay@.len(),
            nn == needle@.len(),
            nn <= hn,
            0 <= i <= hn - nn + 1,
            forall|k: int|
                0 <= k < i ==> #[trigger] hay@.subrange(k, k + needle@.len()) != needle@,
        decreases hn - nn + 1 - i,
    {
        let piece = hay.substring_char(i, i + nn).to_owned();
        if piece == needle.to_owned() {
            proof {
                assert(hay@.subrange(i as int, i as int + needle@.len()) == needle@);
            }
            return true;
        }
        i = i + 1;
    }
    false
}

} // verus!
