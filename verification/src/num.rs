//! Decimal rendering of positional placeholder indices.

use vstd::prelude::*;

verus! {

/// The character for one decimal digit.
pub open spec fn digit_char(d: nat) -> char
    recommends
        d < 10,
{
    if d == 0 {
        '0'
    } else if d == 1 {
        '1'
    } else if d == 2 {
        '2'
    } else if d == 3 {
        '3'
    } else if d == 4 {
        '4'
    } else if d == 5 {
        '5'
    } else if d == 6 {
        '6'
    } else if d == 7 {
        '7'
    } else if d == 8 {
        '8'
    } else {
        '9'
    }
}

/// The decimal rendering of `n`: most significant digit first, no sign, no
/// leading zeroes, a lone `0` for zero.
pub open spec fn dec_digits(n: nat) -> Seq<char>
    decreases n,
{
    if n < 10 {
        seq![digit_char(n)]
    } else {
        dec_digits(n / 10).push(digit_char(n % 10))
    }
}

/// The digit characters of `ds` read back to front: a division loop yields
/// digits least significant first, and this reverses them.
pub open spec fn rev_digit_chars(ds: Seq<u64>) -> Seq<char> {
    Seq::new(ds.len(), |i: int| digit_char(ds[ds.len() - 1 - i] as nat))
}

proof fn lemma_rev_digit_chars_push(ds: Seq<u64>, d: u64)
    ensures
        rev_digit_chars(ds.push(d)) =~= seq![digit_char(d as nat)] + rev_digit_chars(ds),
{
}

fn digit_str(d: u64) -> (r: &'static str)
    requires
        d < 10,
    ensures
        r@ =~= seq![digit_char(d as nat)],
{
    proof {
        reveal_strlit("0");
        reveal_strlit("1");
        reveal_strlit("2");
        reveal_strlit("3");
        reveal_strlit("4");
        reveal_strlit("5");
        reveal_strlit("6");
        reveal_strlit("7");
        reveal_strlit("8");
        reveal_strlit("9");
    }
    match d {
        0 => "0",
        1 => "1",
        2 => "2",
        3 => "3",
        4 => "4",
        5 => "5",
        6 => "6",
        7 => "7",
        8 => "8",
        _ => "9",
    }
}

/// Renders `n` in decimal, exactly as [`dec_digits`] states.
pub fn dec_string(n: u64) -> (r: String)
    ensures
        r@ =~= dec_digits(n as nat),
{
    if n == 0 {
        let r = String::from_str(digit_str(0));
        return r;
    }
    let mut m: u64 = n;
    let mut ds: Vec<u64> = Vec::new();
    while m > 0
        invariant
            forall|i: int| 0 <= i < ds@.len() ==> ds@[i] < 10,
            m > 0 ==> dec_digits(n as nat) =~= dec_digits(m as nat) + rev_digit_chars(ds@),
            m == 0 ==> dec_digits(n as nat) =~= rev_digit_chars(ds@),
        decreases m,
    {
        let d = m % 10;
        proof {
            lemma_rev_digit_chars_push(ds@, d);
            if m >= 10 {
                assert(dec_digits(m as nat) =~= dec_digits((m / 10) as nat) + seq![
                    digit_char((m % 10) as nat),
                ]);
                assert(dec_digits(m as nat) + rev_digit_chars(ds@) =~= dec_digits((m / 10) as nat)
                    + rev_digit_chars(ds@.push(d)));
            } else {
                assert(dec_digits(m as nat) =~= seq![digit_char(m as nat)]);
                assert(dec_digits(m as nat) + rev_digit_chars(ds@) =~= rev_digit_chars(
                    ds@.push(d),
                ));
            }
        }
        ds.push(d);
        m = m / 10;
    }
    let mut r = String::new();
    let mut i: usize = ds.len();
    while i > 0
        invariant
            i <= ds@.len(),
            forall|k: int| 0 <= k < ds@.len() ==> ds@[k] < 10,
            dec_digits(n as nat) =~= rev_digit_chars(ds@),
            r@ =~= rev_digit_chars(ds@).take(ds@.len() - i),
        decreases i,
    {
        i = i - 1;
        r.append(digit_str(ds[i]));
        proof {
            assert(rev_digit_chars(ds@)[ds@.len() - 1 - i] == digit_char(ds@[i as int] as nat));
            assert(rev_digit_chars(ds@).take(ds@.len() - i) =~= rev_digit_chars(ds@).take(
                ds@.len() - i - 1,
            ).push(digit_char(ds@[i as int] as nat)));
        }
    }
    r
}

} // verus!
