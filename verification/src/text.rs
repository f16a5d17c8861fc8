//! Verified text helpers: decimal parsing in the way Rust's integer
//! `parse` behaves (optional leading `+`, decimal digits, overflow is
//! an error), whitespace trimming, and prefix tests.

use vstd::prelude::*;

verus! {

/// A decimal digit; `48` and `57` are the code points of `'0'` and `'9'`.
pub open spec fn is_digit(c: char) -> bool {
    48 <= (c as u32) && (c as u32) <= 57
}

/// The numeric value of a decimal digit.
pub open spec fn digit_val(c: char) -> nat
    recommends
        is_digit(c),
{
    ((c as u32) - 48) as nat
}

pub open spec fn all_digits(s: Seq<char>) -> bool {
    forall|i: int| 0 <= i < s.len() ==> is_digit(#[trigger] s[i])
}

/// The value of a digit string, most significant digit first.
pub open spec fn digits_value(s: Seq<char>) -> nat
    decreases s.len(),
{
    if s.len() == 0 {
        0
    } else {
        digits_value(s.drop_last()) * 10 + digit_val(s.last())
    }
}

/// What Rust's unsigned integer `parse` accepts, before any range
/// check: an optional leading `+`, then at least one digit.
pub open spec fn spec_parse_uint(s: Seq<char>) -> Option<nat> {
    let body = if s.len() > 0 && s[0] == '+' {
        s.skip(1)
    } else {
        s
    };
    if body.len() > 0 && all_digits(body) {
        Some(digits_value(body))
    } else {
        None
    }
}

/// `u32::from_str` on a character sequence: well-formed and in range.
pub open spec fn spec_parse_u32(s: Seq<char>) -> Option<u32> {
    match spec_parse_uint(s) {
        Some(v) => if v <= u32::MAX {
            Some(v as u32)
        } else {
            None
        },
        None => None,
    }
}

/// Appending digits never decreases the value of a digit string.
proof fn lemma_digits_value_prefix_le(s: Seq<char>, i: int)
    requires
        0 <= i <= s.len(),
    ensures
        digits_value(s.take(i)) <= digits_value(s),
    decreases s.len() - i,
{
    if i < s.len() {
        lemma_digits_value_prefix_le(s, i + 1);
        assert(s.take(i + 1).drop_last() =~= s.take(i));
        assert(s.take(i + 1).last() == s[i]);
        assert(digits_value(s.take(i)) <= digits_value(s.take(i + 1)));
    } else {
        assert(s.take(i) =~= s);
    }
}

/// Parses the digit body `s[from..]`, already past any leading sign,
/// as a `u32`.
fn parse_digits_u32(s: &str, from: usize, len: usize) -> (r: Option<u32>)
    requires
        from < len,
        len == s@.len(),
    ensures
        ({
            let body = s@.skip(from as int);
            match r {
                Some(v) => all_digits(body) && digits_value(body) == v,
                None => !(all_digits(body) && digits_value(body) <= u32::MAX),
            }
        }),
{
    let ghost body = s@.skip(from as int);
    let mut acc: u64 = 0;
    let mut i: usize = from;
    while i < len
        invariant
            from <= i <= len,
            len == s@.len(),
            body == s@.skip(from as int),
            all_digits(body.take(i - from)),
            acc == digits_value(body.take(i - from)),
            acc <= u32::MAX,
        decreases len - i,
    {
        let c = s.get_char(i);
        let cv = c as u32;
        if cv < 48 || cv > 57 {
            assert(body[i - from] == s@[i as int]);
            assert(!is_digit(body[i - from]));
            return None;
        }
        let d: u64 = (cv - 48) as u64;
        assert(body.take(i - from + 1).drop_last() =~= body.take(i - from));
        assert(body.take(i - from + 1).last() == s@[i as int]);
        let next: u64 = acc * 10 + d;
        if next > 0xffff_ffff {
            proof {
                lemma_digits_value_prefix_le(body, i - from + 1);
            }
            return None;
        }
        acc = next;
        i = i + 1;
    }
    assert(body.take(i - from) =~= body);
    #[allow(clippy::cast_possible_truncation)]
    Some(acc as u32)
}

/// `str::parse::<u32>`: an optional leading `+`, then decimal digits,
/// rejecting overflow.
pub fn parse_u32(s: &str) -> (r: Option<u32>)
    ensures
        r == spec_parse_u32(s@),
{
    let len = s.unicode_len();
    if len == 0 {
        return None;
    }
    let first = s.get_char(0);
    let from: usize = if first == '+' {
        1
    } else {
        0
    };
    if from == len {
        assert(s@.skip(1) =~= Seq::<char>::empty());
        return None;
    }
    let ghost body = if s@[0] == '+' {
        s@.skip(1)
    } else {
        s@
    };
    assert(s@.skip(0) =~= s@);
    let r = parse_digits_u32(s, from, len);
    proof {
        if r is Some {
            assert(spec_parse_uint(s@) == Some(digits_value(body)));
        }
    }
    r
}

/// Unicode whitespace, as `char::is_whitespace` recognises it: the
/// code points with the `White_Space` property.
pub open spec fn is_ws(c: char) -> bool {
    let v = c as u32;
    (0x09 <= v && v <= 0x0d) || v == 0x20 || v == 0x85 || v == 0xa0 || v == 0x1680 || (0x2000 <= v
        && v <= 0x200a) || v == 0x2028 || v == 0x2029 || v == 0x202f || v == 0x205f || v == 0x3000
}

/// How many whitespace characters the sequence starts with.
pub open spec fn ws_prefix_len(s: Seq<char>) -> int
    decreases s.len(),
{
    if s.len() == 0 || !is_ws(s[0]) {
        0
    } else {
        1 + ws_prefix_len(s.skip(1))
    }
}

/// How many whitespace characters the sequence ends with.
pub open spec fn ws_suffix_len(s: Seq<char>) -> int
    decreases s.len(),
{
    if s.len() == 0 || !is_ws(s.last()) {
        0
    } else {
        1 + ws_suffix_len(s.drop_last())
    }
}

/// `str::trim`: the sequence with leading and trailing whitespace
/// removed.
pub open spec fn spec_trim(s: Seq<char>) -> Seq<char> {
    if ws_prefix_len(s) == s.len() {
        Seq::empty()
    } else {
        s.subrange(ws_prefix_len(s), s.len() - ws_suffix_len(s))
    }
}

proof fn lemma_ws_prefix_len_at(s: Seq<char>, i: int)
    requires
        0 <= i <= s.len(),
        forall|j: int| 0 <= j < i ==> is_ws(#[trigger] s[j]),
        i == s.len() || !is_ws(s[i]),
    ensures
        ws_prefix_len(s) == i,
    decreases i,
{
    if i > 0 {
        assert(is_ws(s[0]));
        lemma_ws_prefix_len_at(s.skip(1), i - 1);
    }
}

proof fn lemma_ws_suffix_len_at(s: Seq<char>, k: int)
    requires
        0 <= k <= s.len(),
        forall|j: int| s.len() - k <= j < s.len() ==> is_ws(#[trigger] s[j]),
        k == s.len() || !is_ws(s[s.len() - k - 1]),
    ensures
        ws_suffix_len(s) == k,
    decreases k,
{
    if k > 0 {
        assert(is_ws(s.last()));
        lemma_ws_suffix_len_at(s.drop_last(), k - 1);
    }
}

/// `str::trim`: drops leading and trailing Unicode whitespace.
pub fn trim_text(s: &str) -> (r: String)
    ensures
        r@ == spec_trim(s@),
{
    let len = s.unicode_len();
    let mut start: usize = 0;
    while start < len && is_ws_char(s.get_char(start))
        invariant
            0 <= start <= len,
            len == s@.len(),
            forall|j: int| 0 <= j < start ==> is_ws(#[trigger] s@[j]),
        decreases len - start,
    {
        start = start + 1;
    }
    if start == len {
        proof {
            lemma_ws_prefix_len_at(s@, start as int);
        }
        return String::new();
    }
    proof {
        lemma_ws_prefix_len_at(s@, start as int);
    }
    let mut end: usize = len;
    while end > start && is_ws_char(s.get_char(end - 1))
        invariant
            start <= end <= len,
            len == s@.len(),
            start < len,
            !is_ws(s@[start as int]),
            forall|j: int| end <= j < len ==> is_ws(#[trigger] s@[j]),
        decreases end,
    {
        end = end - 1;
    }
    proof {
        lemma_ws_suffix_len_at(s@, len - end);
    }
    let part = s.substring_char(start, end);
    part.to_owned()
}

/// `char::is_whitespace`, decided by code-point comparison.
fn is_ws_char(c: char) -> (r: bool)
    ensures
        r == is_ws(c),
{
    let v = c as u32;
    (0x09 <= v && v <= 0x0d) || v == 0x20 || v == 0x85 || v == 0xa0 || v == 0x1680 || (0x2000 <= v
        && v <= 0x200a) || v == 0x2028 || v == 0x2029 || v == 0x202f || v == 0x205f || v == 0x3000
}

/// Whether `p` is a prefix of `s`.
pub open spec fn is_prefix_of(p: Seq<char>, s: Seq<char>) -> bool {
    p.len() <= s.len() && s.subrange(0, p.len() as int) == p
}

/// `str::starts_with` for a string prefix.
pub fn str_starts_with(s: &str, p: &str) -> (r: bool)
    ensures
        r == is_prefix_of(p@, s@),
{
    let slen = s.unicode_len();
    let plen = p.unicode_len();
    if plen > slen {
        assert(!is_prefix_of(p@, s@));
        return false;
    }
    let mut i: usize = 0;
    while i < plen
        invariant
            0 <= i <= plen,
            plen == p@.len(),
            slen == s@.len(),
            plen <= slen,
            forall|j: int| 0 <= j < i ==> s@[j] == p@[j],
        decreases plen - i,
    {
        if s.get_char(i) != p.get_char(i) {
            assert(s@.subrange(0, plen as int)[i as int] != p@[i as int]);
            return false;
        }
        i = i + 1;
    }
    assert(s@.subrange(0, plen as int) =~= p@);
    true
}

/// Parses a digits-only numeric field: at least one decimal digit,
/// nothing else (no sign, no whitespace), rejecting overflow.
pub fn parse_digits(s: &str) -> (r: Option<u32>)
    ensures
        (match r {
            Some(v) => s@.len() > 0 && all_digits(s@) && digits_value(s@) == v,
            None => !(s@.len() > 0 && all_digits(s@) && digits_value(s@) <= u32::MAX),
        }),
{
    let len = s.unicode_len();
    if len == 0 {
        return None;
    }
    proof {
        assert(s@.skip(0) =~= s@);
    }
    parse_digits_u32(s, 0, len)
}

} // verus!
