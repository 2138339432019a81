use vstd::prelude::*;

verus! {

pub open spec fn is_hex_digit(c: char) -> bool {
    ('0' <= c && c <= '9') || ('a' <= c && c <= 'f') || ('A' <= c && c <= 'F')
}

pub open spec fn hex_digit_value(c: char) -> int {
    if '0' <= c && c <= '9' {
        (c as int) - ('0' as int)
    } else if 'a' <= c && c <= 'f' {
        (c as int) - ('a' as int) + 10
    } else {
        (c as int) - ('A' as int) + 10
    }
}

/// The value of a string of hexadecimal digits.
pub open spec fn hex_value(s: Seq<char>) -> int
    decreases s.len(),
{
    if s.len() == 0 {
        0
    } else {
        hex_value(s.drop_last()) * 16 + hex_digit_value(s.last())
    }
}

/// The digits of a color text: the text without one leading '#'.
pub open spec fn color_digits(s: Seq<char>) -> Seq<char> {
    if s.len() > 0 && s[0] == '#' {
        s.subrange(1, s.len() as int)
    } else {
        s
    }
}

/// The color (0xRRGGBB) that a hex color text denotes, if it is one that fits
/// an `i32`.
pub open spec fn parsed_color(s: Seq<char>) -> Option<int> {
    let d = color_digits(s);
    if d.len() > 0 && (forall|i: int| 0 <= i < d.len() ==> is_hex_digit(#[trigger] d[i])) && hex_value(d)
        <= i32::MAX {
        Some(hex_value(d))
    } else {
        None
    }
}

proof fn lemma_hex_value_nonneg(s: Seq<char>)
    requires
        forall|i: int| 0 <= i < s.len() ==> is_hex_digit(#[trigger] s[i]),
    ensures
        hex_value(s) >= 0,
    decreases s.len(),
{
    if s.len() > 0 {
        assert(is_hex_digit(s[s.len() - 1]));
        lemma_hex_value_nonneg(s.drop_last());
    }
}

proof fn lemma_hex_prefix_grows(s: Seq<char>, j: int, k: int)
    requires
        0 <= j <= k <= s.len(),
        forall|i: int| 0 <= i < s.len() ==> is_hex_digit(#[trigger] s[i]),
    ensures
        hex_value(s.subrange(0, j)) <= hex_value(s.subrange(0, k)),
    decreases k - j,
{
    if j < k {
        lemma_hex_prefix_grows(s, j, k - 1);
        let p = s.subrange(0, k);
        assert(p.drop_last() =~= s.subrange(0, k - 1));
        assert(is_hex_digit(s[k - 1]));
        lemma_hex_value_nonneg(s.subrange(0, k - 1));
    }
}

/// Parses a hex color text such as "#ff9900".
pub fn parse_hex_color(s: &str) -> (r: Option<i32>)
    ensures
        r is None <==> parsed_color(s@) is None,
        r matches Some(v) ==> parsed_color(s@) == Some(v as int),
{
    let n = s.unicode_len();
    let start: usize = if n > 0 && s.get_char(0) == '#' { 1 } else { 0 };
    let ghost d = color_digits(s@);
    assert(d =~= s@.subrange(start as int, n as int));
    if start >= n {
        return None;
    }
    let mut acc: i64 = 0;
    let mut i: usize = start;
    while i < n
        invariant
            n == s@.len(),
            start <= i <= n,
            d =~= s@.subrange(start as int, n as int),
            d == color_digits(s@),
            forall|k: int| 0 <= k < i - start ==> is_hex_digit(#[trigger] d[k]),
            acc == hex_value(d.subrange(0, i - start)),
            0 <= acc <= i32::MAX,
        decreases n - i,
    {
        let c = s.get_char(i);
        assert(d[i - start] == c);
        let v: i64 = if '0' <= c && c <= '9' {
            (c as u32 - '0' as u32) as i64
        } else if 'a' <= c && c <= 'f' {
            (c as u32 - 'a' as u32 + 10) as i64
        } else if 'A' <= c && c <= 'F' {
            (c as u32 - 'A' as u32 + 10) as i64
        } else {
            assert(!is_hex_digit(d[i - start]));
            return None;
        };
        assert(d.subrange(0, i - start + 1).drop_last() =~= d.subrange(0, i - start));
        let next = acc * 16 + v;
        if next > 0x7fff_ffff {
            let rest_hex = all_hex(s, i + 1);
            proof {
                if rest_hex {
                    assert forall|k: int| 0 <= k < d.len() implies is_hex_digit(#[trigger] d[k]) by {
                        if k > i - start {
                            assert(d[k] == s@[k + start]);
                        }
                    }
                    lemma_hex_prefix_grows(d, i - start + 1, d.len() as int);
                    assert(d.subrange(0, d.len() as int) =~= d);
                } else {
                    let k = choose|k: int| i + 1 <= k < s@.len() && !is_hex_digit(#[trigger] s@[k]);
                    assert(d[k - start] == s@[k]);
                }
            }
            return None;
        }
        acc = next;
        i = i + 1;
    }
    assert(d.subrange(0, n - start) =~= d);
    Some(acc as i32)
}

/// Whether the characters of `s` from `from` on are all hex digits.
fn all_hex(s: &str, from: usize) -> (r: bool)
    requires
        from <= s@.len(),
    ensures
        r == forall|k: int| from <= k < s@.len() ==> is_hex_digit(#[trigger] s@[k]),
{
    let n = s.unicode_len();
    let mut i = from;
    while i < n
        invariant
            n == s@.len(),
            from <= i <= n,
            forall|k: int| from <= k < i ==> is_hex_digit(#[trigger] s@[k]),
        decreases n - i,
    {
        let c = s.get_char(i);
        if !(('0' <= c && c <= '9') || ('a' <= c && c <= 'f') || ('A' <= c && c <= 'F')) {
            return false;
        }
        i = i + 1;
    }
    true
}

} // verus!
