use vstd::prelude::*;

verus! {

/// The ASCII digit for `d` (0..=9).
pub open spec fn digit_char(d: nat) -> char {
    ((48 + d) as u8) as char
}

/// Decimal representation of `n`, most significant digit first, no leading zeros.
pub open spec fn decimal(n: nat) -> Seq<char>
    decreases n,
{
    if n < 10 {
        seq![digit_char(n)]
    } else {
        decimal(n / 10) + seq![digit_char(n % 10)]
    }
}

/// The number a string of decimal digits denotes, most significant first.
pub open spec fn decimal_value(s: Seq<char>) -> int
    decreases s.len(),
{
    if s.len() == 0 {
        0
    } else {
        decimal_value(s.drop_last()) * 10 + (s.last() as int - 48)
    }
}

/// Every character of `s` is one of the ASCII digits `'0'..='9'`.
pub open spec fn all_digits(s: Seq<char>) -> bool {
    forall|i: int| 0 <= i < s.len() ==> 48 <= #[trigger] (s[i] as int) <= 57
}

/// The digit character of `d` is the ASCII code `48 + d` (`'0'` + d).
pub proof fn lemma_digit_char(d: nat)
    requires
        d < 10,
    ensures
        digit_char(d) as int == 48 + d,
{
    let b: u8 = (48 + d) as u8;
    assert(b == 48 + d);
    assert((b as char) as int == b as int);
}

/// Law of the decimal text: `decimal(n)` is a non-empty string of ASCII
/// digits, without a leading zero unless `n` is 0, that reads back in base 10
/// as `n`.
pub proof fn lemma_decimal_reads_back(n: nat)
    ensures
        decimal(n).len() >= 1,
        all_digits(decimal(n)),
        decimal_value(decimal(n)) == n,
        n > 0 ==> decimal(n)[0] != '0',
    decreases n,
{
    if n < 10 {
        lemma_digit_char(n);
        let s = decimal(n);
        assert(s.drop_last() =~= Seq::<char>::empty());
        assert(decimal_value(s.drop_last()) == 0);
    } else {
        let q: nat = n / 10;
        let r: nat = n % 10;
        vstd::arithmetic::div_mod::lemma_fundamental_div_mod(n as int, 10);
        lemma_decimal_reads_back(q);
        lemma_digit_char(r);
        let s = decimal(n);
        assert(s.drop_last() =~= decimal(q));
        assert(s.last() == digit_char(r));
        assert(s[0] == decimal(q)[0]);
        assert forall|i: int| 0 <= i < s.len() implies 48 <= #[trigger] (s[i] as int) <= 57 by {
            if i < decimal(q).len() {
                assert(s[i] == decimal(q)[i]);
            }
        }
    }
}

/// The one-character string of a decimal digit.
fn digit_str(d: u32) -> (r: &'static str)
    requires
        d < 10,
    ensures
        r@ == seq![digit_char(d as nat)],
        r@.len() == 1,
        r@[0] as int == 48 + d,
{
    proof {
        lemma_digit_char(d as nat);
    }
    match d {
        0 => {
            proof { reveal_strlit("0"); }
            "0"
        },
        1 => {
            proof { reveal_strlit("1"); }
            "1"
        },
        2 => {
            proof { reveal_strlit("2"); }
            "2"
        },
        3 => {
            proof { reveal_strlit("3"); }
            "3"
        },
        4 => {
            proof { reveal_strlit("4"); }
            "4"
        },
        5 => {
            proof { reveal_strlit("5"); }
            "5"
        },
        6 => {
            proof { reveal_strlit("6"); }
            "6"
        },
        7 => {
            proof { reveal_strlit("7"); }
            "7"
        },
        8 => {
            proof { reveal_strlit("8"); }
            "8"
        },
        _ => {
            proof { reveal_strlit("9"); }
            "9"
        },
    }
}

/// Appends the decimal representation of `n` to `out`.
pub fn append_decimal(out: &mut String, n: u32)
    ensures
        final(out)@ == old(out)@ + decimal(n as nat),
        final(out)@.subrange(0, old(out)@.len() as int) == old(out)@,
        all_digits(final(out)@.skip(old(out)@.len() as int)),
        decimal_value(final(out)@.skip(old(out)@.len() as int)) == n,
    decreases n,
{
    if n >= 10 {
        append_decimal(out, n / 10);
    }
    out.append(digit_str(n % 10));
    proof {
        assert(old(out)@ + decimal(n as nat) =~= (if n >= 10 { old(out)@ + decimal((n / 10) as nat) } else { old(out)@ }) + seq![digit_char((n % 10) as nat)]);
        assert(out@.skip(old(out)@.len() as int) =~= decimal(n as nat));
        assert(out@.subrange(0, old(out)@.len() as int) =~= old(out)@);
        lemma_decimal_reads_back(n as nat);
    }
}

} // verus!
