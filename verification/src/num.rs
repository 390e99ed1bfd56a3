//! Decimal rendering of sizes and space padding for fixed-width columns.

use vstd::prelude::*;

verus! {

/// The character standing for one decimal digit value.
pub open spec fn digit_char(d: int) -> char {
    if d == 0 { '0' }
    else if d == 1 { '1' }
    else if d == 2 { '2' }
    else if d == 3 { '3' }
    else if d == 4 { '4' }
    else if d == 5 { '5' }
    else if d == 6 { '6' }
    else if d == 7 { '7' }
    else if d == 8 { '8' }
    else { '9' }
}

/// The decimal rendering of a number, most significant digit first,
/// with no leading zeros (except for the number zero itself).
pub open spec fn dec_str(n: nat) -> Seq<char>
    decreases n,
{
    if n < 10 {
        seq![digit_char(n as int)]
    } else {
        dec_str(n / 10) + seq![digit_char((n % 10) as int)]
    }
}

/// A run of space characters.
pub open spec fn spaces(n: nat) -> Seq<char> {
    Seq::new(n, |i: int| ' ')
}

/// A string padded with spaces on the left to the given width;
/// a string already that wide is unchanged.
pub open spec fn pad_left(s: Seq<char>, w: nat) -> Seq<char> {
    if s.len() >= w { s } else { spaces((w - s.len()) as nat) + s }
}

/// A string padded with spaces on the right to the given width;
/// a string already that wide is unchanged.
pub open spec fn pad_right(s: Seq<char>, w: nat) -> Seq<char> {
    if s.len() >= w { s } else { s + spaces((w - s.len()) as nat) }
}

/// Powers of ten.
pub open spec fn pow10(k: nat) -> nat
    decreases k,
{
    if k == 0 { 1 } else { 10 * pow10((k - 1) as nat) }
}

/// A number below the `k`-th power of ten has at most `k` decimal
/// digits.
pub proof fn lemma_dec_str_len_le(n: nat, k: nat)
    requires
        1 <= k,
        n < pow10(k),
    ensures
        dec_str(n).len() <= k,
    decreases k,
{
    if n >= 10 {
        assert(pow10(k) == 10 * pow10((k - 1) as nat));
        assert(n / 10 < pow10((k - 1) as nat)) by (nonlinear_arith)
            requires
                n < pow10(k),
                pow10(k) == 10 * pow10((k - 1) as nat),
        ;
        lemma_dec_str_len_le(n / 10, (k - 1) as nat);
    }
}

fn digit_str(d: u64) -> (r: &'static str)
    requires
        d < 10,
    ensures
        r@ == seq![digit_char(d as int)],
{
    let r = match d {
        0 => "0",
        1 => "1",
        2 => "2",
        3 => "3",
        4 => "4",
        5 => "5",
        6 => "6",
        7 => "7",
        8 => "8",
        _ => "9",
    };
    proof {
        reveal_strlit("0");
        reveal_strlit("1");
        reveal_strlit("2");
        reveal_strlit("3");
        reveal_strlit("4");
        reveal_strlit("5");
        reveal_strlit("6");
        reveal_strlit("7");
        reveal_strlit("8");
        reveal_strlit("9");
        assert(r@ =~= seq![digit_char(d as int)]);
    }
    r
}

/// The decimal rendering of a 64-bit number.
pub fn u64_string(n: u64) -> (r: String)
    ensures
        r@ == dec_str(n as nat),
    decreases n,
{
    if n < 10 {
        digit_str(n).to_owned()
    } else {
        let mut s = u64_string(n / 10);
        s.append(digit_str(n % 10));
        s
    }
}

/// Pads a string with spaces on the left to the given width.
pub fn pad_left_str(s: &str, w: usize) -> (r: String)
    ensures
        r@ == pad_left(s@, w as nat),
{
    let n = s.unicode_len();
    if n >= w {
        s.to_owned()
    } else {
        let mut r = String::new();
        let mut k: usize = 0;
        while k < w - n
            invariant
                n == s@.len(),
                n < w <= usize::MAX,
                k <= w - n,
                r@ == spaces(k as nat),
            decreases w - n - k,
        {
            r.append(" ");
            proof {
                reveal_strlit(" ");
                assert(r@ =~= spaces((k + 1) as nat));
            }
            k += 1;
        }
        r.append(s);
        proof {
            assert(r@ =~= pad_left(s@, w as nat));
        }
        r
    }
}

/// Pads a string with spaces on the right to the given width.
pub fn pad_right_str(s: &str, w: usize) -> (r: String)
    ensures
        r@ == pad_right(s@, w as nat),
{
    let n = s.unicode_len();
    if n >= w {
        s.to_owned()
    } else {
        let mut r = s.to_owned();
        let mut k: usize = 0;
        while k < w - n
            invariant
                n == s@.len(),
                n < w <= usize::MAX,
                k <= w - n,
                r@ == s@ + spaces(k as nat),
            decreases w - n - k,
        {
            r.append(" ");
            proof {
                reveal_strlit(" ");
                assert(r@ =~= s@ + spaces((k + 1) as nat));
            }
            k += 1;
        }
        proof {
            assert(r@ =~= pad_right(s@, w as nat));
        }
        r
    }
}

} // verus!
