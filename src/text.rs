use vstd::prelude::*;

verus! {

/// Whether two strings hold the same characters.
pub fn text_eq(a: &str, b: &str) -> (r: bool)
    ensures
        r == (a@ == b@),
{
    let n = a.unicode_len();
    let m = b.unicode_len();
    if n != m {
        return false;
    }
    let mut i: usize = 0;
    while i < n
        invariant
            i <= n,
            n == a@.len(),
            m == b@.len(),
            n == m,
            forall|k: int| 0 <= k < i ==> a@[k] == b@[k],
        decreases n - i,
    {
        if a.get_char(i) != b.get_char(i) {
            return false;
        }
        i = i + 1;
    }
    assert(a@ =~= b@);
    true
}

} // verus!

verus! {

/// The character of a decimal digit.
pub open spec fn digit_char(d: int) -> char {
    if d == 0 {
        '0'
    } else if d == 1 {
        '1'
    } else if d == 2 {
        '2'
    } else if d == 3 {
        '3'
    } else if d == 4 {
        '4'
    } else if d == 5 {
        '5'
    } else if d == 6 {
        '6'
    } else if d == 7 {
        '7'
    } else if d == 8 {
        '8'
    } else {
        '9'
    }
}

/// The decimal digits of a natural number, most significant first.
pub open spec fn decimal(n: nat) -> Seq<char>
    decreases n,
{
    if n < 10 {
        seq![digit_char(n as int)]
    } else {
        decimal(n / 10).push(digit_char((n % 10) as int))
    }
}

/// The decimal text of an integer, with a leading '-' when negative.
pub open spec fn signed_decimal(v: int) -> Seq<char> {
    if v < 0 {
        seq!['-'] + decimal((-v) as nat)
    } else {
        decimal(v as nat)
    }
}

/// The text of a fixed-point value given in hundredths, with two decimals.
pub open spec fn hundredths_text(v: int) -> Seq<char> {
    let a: nat = if v < 0 { (-v) as nat } else { v as nat };
    let sign = if v < 0 { seq!['-'] } else { Seq::<char>::empty() };
    sign + decimal(a / 100) + seq!['.', digit_char(((a % 100) / 10) as int), digit_char((a % 10) as int)]
}

/// A value given in hundredths, rounded half away from zero to a whole number.
pub open spec fn round_hundredths(v: int) -> int {
    if v < 0 {
        -(((-v) + 50) / 100)
    } else {
        (v + 50) / 100
    }
}

/// A value given in hundredths, rounded half away from zero to one decimal.
pub open spec fn tenths_text(v: int) -> Seq<char> {
    let a: nat = if v < 0 { (-v) as nat } else { v as nat };
    let t: nat = (a + 5) / 10;
    let sign = if v < 0 && t > 0 { seq!['-'] } else { Seq::<char>::empty() };
    sign + decimal(t / 10) + seq!['.', digit_char((t % 10) as int)]
}

fn digit_str(d: u128) -> (r: &'static str)
    requires
        d < 10,
    ensures
        r@ == seq![digit_char(d as int)],
{
    proof {
        reveal_strlit("0");
        reveal_strlit("1");
        reveal_strlit("2");
        reveal_strlit("3");
        reveal_strlit("4");
        reveal_strlit("5");
        reveal_strlit("6");
        reveal_strlit("7");
        reveal_strlit("8");
        reveal_strlit("9");
    }
    if d == 0 {
        "0"
    } else if d == 1 {
        "1"
    } else if d == 2 {
        "2"
    } else if d == 3 {
        "3"
    } else if d == 4 {
        "4"
    } else if d == 5 {
        "5"
    } else if d == 6 {
        "6"
    } else if d == 7 {
        "7"
    } else if d == 8 {
        "8"
    } else {
        "9"
    }
}

/// Appends the decimal digits of `n` to `out`.
pub fn push_decimal(out: &mut String, n: u128)
    ensures
        final(out)@ == old(out)@ + decimal(n as nat),
    decreases n,
{
    if n >= 10 {
        push_decimal(out, n / 10);
    }
    out.append(digit_str(n % 10));
    proof {
        if n >= 10 {
            assert(old(out)@ + decimal(n as nat) =~= old(out)@ + decimal((n / 10) as nat) + seq![
                digit_char((n % 10) as int),
            ]);
        } else {
            assert(decimal(n as nat) == seq![digit_char(n as int)]);
        }
    }
}

/// Appends the decimal text of a signed integer to `out`.
pub fn push_signed(out: &mut String, v: i64)
    ensures
        final(out)@ == old(out)@ + signed_decimal(v as int),
{
    if v < 0 {
        proof {
            reveal_strlit("-");
        }
        out.append("-");
        let m: u64 = ((-(v + 1)) as u64) + 1;
        push_decimal(out, m as u128);
        assert(final(out)@ =~= old(out)@ + signed_decimal(v as int));
    } else {
        push_decimal(out, v as u128);
    }
}

/// The decimal text of an unsigned integer.
pub fn decimal_text(n: u128) -> (r: String)
    ensures
        r@ == decimal(n as nat),
{
    let mut s = String::new();
    push_decimal(&mut s, n);
    assert(s@ =~= decimal(n as nat));
    s
}

/// Appends a value given in hundredths, with two decimals.
pub fn push_hundredths(out: &mut String, v: i64)
    ensures
        final(out)@ == old(out)@ + hundredths_text(v as int),
{
    proof {
        reveal_strlit("-");
        reveal_strlit(".");
    }
    let a: u64 = if v < 0 { ((-(v + 1)) as u64) + 1 } else { v as u64 };
    if v < 0 {
        out.append("-");
    }
    push_decimal(out, (a / 100) as u128);
    out.append(".");
    out.append(digit_str(((a % 100) / 10) as u128));
    out.append(digit_str((a % 10) as u128));
    assert(final(out)@ =~= old(out)@ + hundredths_text(v as int));
}

/// Appends a value given in hundredths, rounded to one decimal.
pub fn push_tenths(out: &mut String, v: i64)
    ensures
        final(out)@ == old(out)@ + tenths_text(v as int),
{
    proof {
        reveal_strlit("-");
        reveal_strlit(".");
    }
    let a: u64 = if v < 0 { ((-(v + 1)) as u64) + 1 } else { v as u64 };
    let t: u64 = a / 10 + if a % 10 >= 5 { 1 } else { 0 };
    assert(t == (a + 5) / 10);
    if v < 0 && t > 0 {
        out.append("-");
    }
    push_decimal(out, (t / 10) as u128);
    out.append(".");
    out.append(digit_str((t % 10) as u128));
    assert(final(out)@ =~= old(out)@ + tenths_text(v as int));
}

/// A value given in hundredths, rounded half away from zero.
pub fn round_centi(v: i64) -> (r: i64)
    ensures
        r as int == round_hundredths(v as int),
{
    if v < 0 {
        let a: u64 = ((-(v + 1)) as u64) + 1;
        let q: u64 = a / 100 + if a % 100 >= 50 { 1 } else { 0 };
        assert(q == (a + 50) / 100);
        -(q as i64)
    } else {
        let q: i64 = v / 100 + if v % 100 >= 50 { 1 } else { 0 };
        q
    }
}

} // verus!
