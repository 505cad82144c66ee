//! Decimal rendering of unsigned integers, with optional zero padding
//! (what `{}` and `{:04}` print for an unsigned integer).

use vstd::prelude::*;

verus! {

/// The character of a decimal digit.
pub open spec fn digit_char(d: nat) -> char
    recommends
        d < 10,
{
    if d == 0 { '0' }
    else if d == 1 { '1' }
    else if d == 2 { '2' }
    else if d == 3 { '3' }
    else if d == 4 { '4' }
    else if d == 5 { '5' }
    else if d == 6 { '6' }
    else if d == 7 { '7' }
    else if d == 8 { '8' }
    else { '9' }
}

/// The numeric value of a decimal digit character.
pub open spec fn char_value(c: char) -> nat {
    if c == '1' { 1 }
    else if c == '2' { 2 }
    else if c == '3' { 3 }
    else if c == '4' { 4 }
    else if c == '5' { 5 }
    else if c == '6' { 6 }
    else if c == '7' { 7 }
    else if c == '8' { 8 }
    else if c == '9' { 9 }
    else { 0 }
}

/// Whether a character is one of `0`..`9`.
pub open spec fn is_digit(c: char) -> bool {
    '0' <= c && c <= '9'
}

/// The shortest decimal representation of `n`, most significant digit first.
pub open spec fn decimal(n: nat) -> Seq<char>
    decreases n,
{
    if n < 10 {
        seq![digit_char(n)]
    } else {
        decimal(n / 10).push(digit_char(n % 10))
    }
}

/// `count` copies of the character `0`.
pub open spec fn zeros(count: nat) -> Seq<char> {
    Seq::new(count, |i: int| '0')
}

/// The decimal representation of `n`, left-padded with zeros to at least `width` characters.
pub open spec fn padded_decimal(n: nat, width: nat) -> Seq<char> {
    let d = decimal(n);
    if d.len() < width {
        zeros((width - d.len()) as nat) + d
    } else {
        d
    }
}

/// The number that a string of decimal digits denotes.
pub open spec fn digits_value(s: Seq<char>) -> nat
    decreases s.len(),
{
    if s.len() == 0 {
        0
    } else {
        digits_value(s.drop_last()) * 10 + char_value(s.last())
    }
}

/// Whether every character of `s` is a decimal digit.
pub open spec fn all_digits(s: Seq<char>) -> bool {
    forall|i: int| 0 <= i < s.len() ==> is_digit(#[trigger] s[i])
}

proof fn lemma_digit_char(d: nat)
    requires
        d < 10,
    ensures
        is_digit(digit_char(d)),
        char_value(digit_char(d)) == d,
{
}

/// The decimal representation of `n` is a non-empty string of digits that denotes `n`.
pub proof fn lemma_decimal_denotes(n: nat)
    ensures
        decimal(n).len() >= 1,
        all_digits(decimal(n)),
        digits_value(decimal(n)) == n,
    decreases n,
{
    if n < 10 {
        lemma_digit_char(n);
        let d = decimal(n);
        assert(d.drop_last() =~= Seq::<char>::empty());
        assert(digits_value(d.drop_last()) == 0);
        assert(d.last() == digit_char(n));
        assert(digits_value(d) == digits_value(d.drop_last()) * 10 + char_value(d.last()));
    } else {
        lemma_decimal_denotes(n / 10);
        lemma_digit_char(n % 10);
        let d = decimal(n);
        assert(d.drop_last() =~= decimal(n / 10));
        assert(d.last() == digit_char(n % 10));
        assert(digits_value(d) == digits_value(decimal(n / 10)) * 10 + char_value(digit_char(n % 10)));
        assert(n == (n / 10) * 10 + n % 10);
        assert forall|i: int| 0 <= i < d.len() implies is_digit(#[trigger] d[i]) by {
            if i < d.len() - 1 {
                assert(d[i] == decimal(n / 10)[i]);
            }
        }
    }
}

proof fn lemma_zeros_prefix_value(k: nat, s: Seq<char>)
    ensures
        digits_value(zeros(k) + s) == digits_value(zeros(k)) * pow10(s.len()) + digits_value(s),
        digits_value(zeros(k)) == 0,
    decreases s.len() + k,
{
    if s.len() == 0 {
        assert(zeros(k) + s =~= zeros(k));
        lemma_zeros_value(k);
    } else {
        lemma_zeros_prefix_value(k, s.drop_last());
        assert((zeros(k) + s).drop_last() =~= zeros(k) + s.drop_last());
        lemma_zeros_value(k);
    }
}

proof fn lemma_zeros_value(k: nat)
    ensures
        digits_value(zeros(k)) == 0,
    decreases k,
{
    if k > 0 {
        assert(zeros(k).drop_last() =~= zeros((k - 1) as nat));
        lemma_zeros_value((k - 1) as nat);
    }
}

/// Ten to the power `e`.
pub open spec fn pow10(e: nat) -> nat
    decreases e,
{
    if e == 0 { 1 } else { 10 * pow10((e - 1) as nat) }
}

/// The zero-padded representation of `n` is a string of digits of length
/// `max(width, decimal(n).len())` that denotes `n`.
pub proof fn lemma_padded_decimal_denotes(n: nat, width: nat)
    ensures
        all_digits(padded_decimal(n, width)),
        digits_value(padded_decimal(n, width)) == n,
        padded_decimal(n, width).len() == if decimal(n).len() < width { width } else { decimal(n).len() },
        padded_decimal(n, width).len() >= 1,
{
    lemma_decimal_denotes(n);
    let d = decimal(n);
    if d.len() < width {
        let k = (width - d.len()) as nat;
        lemma_zeros_prefix_value(k, d);
        assert(all_digits(zeros(k) + d)) by {
            assert forall|i: int| 0 <= i < (zeros(k) + d).len() implies is_digit(#[trigger] (zeros(k) + d)[i]) by {
                if i >= k {
                    assert((zeros(k) + d)[i] == d[i - k]);
                }
            }
        }
    }
}

/// Two numbers with the same zero-padded representation are equal.
pub proof fn lemma_padded_decimal_injective(n: nat, m: nat, width: nat)
    requires
        padded_decimal(n, width) == padded_decimal(m, width),
    ensures
        n == m,
{
    lemma_padded_decimal_denotes(n, width);
    lemma_padded_decimal_denotes(m, width);
}

/// A digit string followed by text that starts with a non-digit can be split
/// back uniquely: if `x + r1 == y + r2` for digit strings `x`, `y` and texts
/// `r1`, `r2` that start with a non-digit, then `x == y` and `r1 == r2`.
pub proof fn lemma_digits_split_unique(x: Seq<char>, r1: Seq<char>, y: Seq<char>, r2: Seq<char>)
    requires
        all_digits(x),
        all_digits(y),
        r1.len() > 0,
        r2.len() > 0,
        !is_digit(r1[0]),
        !is_digit(r2[0]),
        x + r1 == y + r2,
    ensures
        x == y,
        r1 == r2,
{
    if x.len() < y.len() {
        assert((x + r1)[x.len() as int] == r1[0]);
        assert((y + r2)[x.len() as int] == y[x.len() as int]);
    } else if y.len() < x.len() {
        assert((y + r2)[y.len() as int] == r2[0]);
        assert((x + r1)[y.len() as int] == x[y.len() as int]);
    } else {
        assert(x =~= (x + r1).subrange(0, x.len() as int));
        assert(y =~= (y + r2).subrange(0, y.len() as int));
        assert(r1 =~= (x + r1).subrange(x.len() as int, (x + r1).len() as int));
        assert(r2 =~= (y + r2).subrange(y.len() as int, (y + r2).len() as int));
    }
}

/// Two zero-padded numbers framed by the same texts, where the text after
/// each number starts with a non-digit, can be read back uniquely.
pub proof fn lemma_framed_numbers_unique(
    pre: Seq<char>,
    mid: Seq<char>,
    post: Seq<char>,
    a1: nat,
    b1: nat,
    a2: nat,
    b2: nat,
)
    requires
        mid.len() > 0,
        !is_digit(mid[0]),
        post.len() > 0,
        !is_digit(post[0]),
        pre + padded_decimal(a1, 4) + mid + padded_decimal(b1, 4) + post
            == pre + padded_decimal(a2, 4) + mid + padded_decimal(b2, 4) + post,
    ensures
        a1 == a2,
        b1 == b2,
{
    let x1 = padded_decimal(a1, 4);
    let x2 = padded_decimal(a2, 4);
    let y1 = padded_decimal(b1, 4);
    let y2 = padded_decimal(b2, 4);
    lemma_padded_decimal_denotes(a1, 4);
    lemma_padded_decimal_denotes(a2, 4);
    lemma_padded_decimal_denotes(b1, 4);
    lemma_padded_decimal_denotes(b2, 4);
    let r1 = mid + y1 + post;
    let r2 = mid + y2 + post;
    let whole1 = pre + x1 + mid + y1 + post;
    let whole2 = pre + x2 + mid + y2 + post;
    assert(whole1 =~= pre + (x1 + r1));
    assert(whole2 =~= pre + (x2 + r2));
    assert(x1 + r1 =~= whole1.subrange(pre.len() as int, whole1.len() as int));
    assert(x2 + r2 =~= whole2.subrange(pre.len() as int, whole2.len() as int));
    assert((x1 + r1) == (x2 + r2));
    assert(r1[0] == mid[0]);
    assert(r2[0] == mid[0]);
    lemma_digits_split_unique(x1, r1, x2, r2);
    lemma_padded_decimal_injective(a1, a2, 4);
    assert(y1 + post =~= r1.subrange(mid.len() as int, r1.len() as int));
    assert(y2 + post =~= r2.subrange(mid.len() as int, r2.len() as int));
    lemma_digits_split_unique(y1, post, y2, post);
    lemma_padded_decimal_injective(b1, b2, 4);
}

fn digit_str(d: u64) -> (s: &'static str)
    requires
        d < 10,
    ensures
        s@ == seq![digit_char(d as nat)],
{
    if d == 0 {
        proof { reveal_strlit("0"); }
        "0"
    } else if d == 1 {
        proof { reveal_strlit("1"); }
        "1"
    } else if d == 2 {
        proof { reveal_strlit("2"); }
        "2"
    } else if d == 3 {
        proof { reveal_strlit("3"); }
        "3"
    } else if d == 4 {
        proof { reveal_strlit("4"); }
        "4"
    } else if d == 5 {
        proof { reveal_strlit("5"); }
        "5"
    } else if d == 6 {
        proof { reveal_strlit("6"); }
        "6"
    } else if d == 7 {
        proof { reveal_strlit("7"); }
        "7"
    } else if d == 8 {
        proof { reveal_strlit("8"); }
        "8"
    } else {
        proof { reveal_strlit("9"); }
        "9"
    }
}

/// Appends the decimal representation of `n` to `out`.
pub fn push_decimal(out: &mut String, n: u64)
    ensures
        final(out)@ == old(out)@ + decimal(n as nat),
    decreases n,
{
    if n >= 10 {
        push_decimal(out, n / 10);
    }
    out.append(digit_str(n % 10));
    proof {
        if n >= 10 {
            assert(old(out)@ + decimal((n / 10) as nat) + seq![digit_char((n % 10) as nat)]
                =~= old(out)@ + decimal(n as nat));
        } else {
            assert(old(out)@ + seq![digit_char((n % 10) as nat)] =~= old(out)@ + decimal(n as nat));
        }
    }
}

/// The number of digits of the decimal representation of `n`.
pub fn decimal_len(n: u64) -> (len: usize)
    ensures
        len == decimal(n as nat).len(),
        1 <= len <= 20,
    decreases n,
{
    if n < 10 {
        1
    } else {
        let l = decimal_len(n / 10);
        proof {
            assert(decimal(n as nat).len() == decimal((n / 10) as nat).len() + 1);
            assert(pow10(20) == 100000000000000000000nat) by { reveal_with_fuel(pow10, 21); }
            lemma_decimal_len_bound(n as nat, 20);
        }
        l + 1
    }
}

proof fn lemma_decimal_len_bound(n: nat, k: nat)
    requires
        k >= 1,
        n < pow10(k),
    ensures
        decimal(n).len() <= k,
    decreases n,
{
    if n >= 10 {
        assert(k >= 2) by {
            if k == 1 {
                assert(pow10(1) == 10 * pow10(0));
            }
        }
        assert(pow10(k) == 10 * pow10((k - 1) as nat));
        lemma_decimal_len_bound(n / 10, (k - 1) as nat);
    }
}

/// Appends the decimal representation of `n`, left-padded with zeros to at
/// least `width` characters, to `out`.
pub fn push_padded_decimal(out: &mut String, n: u64, width: usize)
    ensures
        final(out)@ == old(out)@ + padded_decimal(n as nat, width as nat),
{
    let len = decimal_len(n);
    if len < width {
        let mut k: usize = 0;
        while k < width - len
            invariant
                len < width,
                k <= width - len,
                out@ == old(out)@ + zeros(k as nat),
            decreases width - len - k,
        {
            proof { reveal_strlit("0"); }
            out.append("0");
            assert(old(out)@ + zeros(k as nat) + "0"@ =~= old(out)@ + zeros((k + 1) as nat));
            k = k + 1;
        }
    }
    push_decimal(out, n);
    proof {
        if len < width {
            assert(old(out)@ + zeros((width - len) as nat) + decimal(n as nat)
                =~= old(out)@ + padded_decimal(n as nat, width as nat));
        }
    }
}

/// The decimal representation of `n` (what `format!("{}", n)` gives).
pub fn decimal_string(n: u64) -> (s: String)
    ensures
        s@ == decimal(n as nat),
{
    let mut s = String::new();
    push_decimal(&mut s, n);
    assert(s@ =~= decimal(n as nat));
    s
}

/// The decimal representation of `n`, zero-padded to `width` characters
/// (what `format!("{:0width$}", n)` gives).
pub fn padded_decimal_string(n: u64, width: usize) -> (s: String)
    ensures
        s@ == padded_decimal(n as nat, width as nat),
{
    let mut s = String::new();
    push_padded_decimal(&mut s, n, width);
    assert(s@ =~= padded_decimal(n as nat, width as nat));
    s
}

} // verus!
