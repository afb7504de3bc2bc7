//! Decimal rendering of unsigned numbers, plain and zero-padded, with exact
//! character-level specifications.

use vstd::prelude::*;

verus! {

/// The decimal digit character for a value below ten.
pub open spec fn digit_char(d: int) -> char {
    if d == 0 {
        '0'
    } else if d == 1 {
        '1'
    } else if d == 2 {
        '2'
    } else if d == 3 {
        '3'
    } else if d == 4 {
        '4'
    } else if d == 5 {
        '5'
    } else if d == 6 {
        '6'
    } else if d == 7 {
        '7'
    } else if d == 8 {
        '8'
    } else {
        '9'
    }
}

/// The decimal rendering of `n` without leading zeros; zero renders as "0".
pub open spec fn dec_chars(n: nat) -> Seq<char>
    decreases n,
{
    if n < 10 {
        seq![digit_char(n as int)]
    } else {
        dec_chars(n / 10).push(digit_char((n % 10) as int))
    }
}

/// A run of `k` zero characters.
pub open spec fn zeros(k: nat) -> Seq<char> {
    Seq::new(k, |i: int| '0')
}

/// `n` rendered in decimal and left-padded with zeros to at least `width`
/// characters.
pub open spec fn padded_dec(n: nat, width: nat) -> Seq<char> {
    if dec_chars(n).len() >= width {
        dec_chars(n)
    } else {
        zeros((width - dec_chars(n).len()) as nat) + dec_chars(n)
    }
}

/// Powers of ten.
pub open spec fn pow10(k: nat) -> nat
    decreases k,
{
    if k == 0 {
        1
    } else {
        10 * pow10((k - 1) as nat)
    }
}

/// A number below the `k`-th power of ten renders in at most `k` digits.
pub proof fn lemma_dec_chars_len(n: nat, k: nat)
    requires
        k >= 1,
        n < pow10(k),
    ensures
        dec_chars(n).len() <= k,
    decreases k,
{
    if n >= 10 {
        assert(pow10(k) == 10 * pow10((k - 1) as nat));
        lemma_dec_chars_len(n / 10, (k - 1) as nat);
    }
}

/// Every `u64` renders in at most twenty digits.
pub proof fn lemma_dec_chars_len_u64(n: u64)
    ensures
        dec_chars(n as nat).len() <= 20,
{
    assert(pow10(20) == 100000000000000000000) by {
        reveal_with_fuel(pow10, 21);
    }
    lemma_dec_chars_len(n as nat, 20);
}

/// Append the single digit character of `d` to `out`.
pub fn push_digit(out: &mut String, d: u64)
    requires
        d < 10,
    ensures
        final(out)@ == old(out)@ + seq![digit_char(d as int)],
{
    let s: &str = if d == 0 {
        "0"
    } else if d == 1 {
        "1"
    } else if d == 2 {
        "2"
    } else if d == 3 {
        "3"
    } else if d == 4 {
        "4"
    } else if d == 5 {
        "5"
    } else if d == 6 {
        "6"
    } else if d == 7 {
        "7"
    } else if d == 8 {
        "8"
    } else {
        "9"
    };
    proof {
        reveal_strlit("0");
        reveal_strlit("1");
        reveal_strlit("2");
        reveal_strlit("3");
        reveal_strlit("4");
        reveal_strlit("5");
        reveal_strlit("6");
        reveal_strlit("7");
        reveal_strlit("8");
        reveal_strlit("9");
        assert(s@ =~= seq![digit_char(d as int)]);
    }
    out.append(s);
}

/// Append the decimal rendering of `n` to `out`.
pub fn push_dec(out: &mut String, n: u64)
    ensures
        final(out)@ == old(out)@ + dec_chars(n as nat),
    decreases n,
{
    if n < 10 {
        push_digit(out, n);
    } else {
        push_dec(out, n / 10);
        push_digit(out, n % 10);
        proof {
            assert(out@ =~= old(out)@ + dec_chars(n as nat));
        }
    }
}

/// The number of digits in the decimal rendering of `n`.
pub fn dec_width(n: u64) -> (w: usize)
    ensures
        w == dec_chars(n as nat).len(),
{
    proof {
        lemma_dec_chars_len_u64(n);
    }
    let mut m = n;
    let mut w: usize = 1;
    while m >= 10
        invariant
            dec_chars(n as nat).len() == dec_chars(m as nat).len() + w - 1,
            1 <= w <= dec_chars(n as nat).len(),
            dec_chars(n as nat).len() <= 20,
        decreases m,
    {
        m = m / 10;
        w = w + 1;
    }
    w
}

/// Append `n` in decimal, left-padded with zeros to at least `width`
/// characters, to `out`.
pub fn push_padded(out: &mut String, n: u64, width: usize)
    ensures
        final(out)@ == old(out)@ + padded_dec(n as nat, width as nat),
{
    let w = dec_width(n);
    let pad: usize = if w >= width {
        0
    } else {
        width - w
    };
    let mut k: usize = 0;
    while k < pad
        invariant
            out@ == old(out)@ + zeros(k as nat),
            k <= pad,
        decreases pad - k,
    {
        out.append("0");
        proof {
            reveal_strlit("0");
            assert(out@ =~= old(out)@ + zeros((k + 1) as nat));
        }
        k = k + 1;
    }
    push_dec(out, n);
    proof {
        assert(out@ =~= old(out)@ + padded_dec(n as nat, width as nat));
    }
}

} // verus!
