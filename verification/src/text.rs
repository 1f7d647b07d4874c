use vstd::prelude::*;

verus! {

/// The decimal digit character for `d` (taken as `9` above nine).
pub open spec fn digit_char(d: nat) -> char {
    if d == 0 {
        '0'
    } else if d == 1 {
        '1'
    } else if d == 2 {
        '2'
    } else if d == 3 {
        '3'
    } else if d == 4 {
        '4'
    } else if d == 5 {
        '5'
    } else if d == 6 {
        '6'
    } else if d == 7 {
        '7'
    } else if d == 8 {
        '8'
    } else {
        '9'
    }
}

/// The decimal numeral of `n`, with no leading zeros.
pub open spec fn decimal_nat(n: nat) -> Seq<char>
    decreases n,
{
    if n < 10 {
        seq![digit_char(n)]
    } else {
        decimal_nat(n / 10) + seq![digit_char(n % 10)]
    }
}

/// The decimal numeral of `n`, with a leading `-` when it is negative.
pub open spec fn decimal(n: int) -> Seq<char> {
    if n < 0 {
        seq!['-'] + decimal_nat((-n) as nat)
    } else {
        decimal_nat(n as nat)
    }
}

/// The one-character string of the digit `d`.
fn digit_str(d: u32) -> (s: &'static str)
    requires
        d < 10,
    ensures
        s@ == seq![digit_char(d as nat)],
{
    proof {
        reveal_strlit("0");
        reveal_strlit("1");
        reveal_strlit("2");
        reveal_strlit("3");
        reveal_strlit("4");
        reveal_strlit("5");
        reveal_strlit("6");
        reveal_strlit("7");
        reveal_strlit("8");
        reveal_strlit("9");
    }
    match d {
        0 => "0",
        1 => "1",
        2 => "2",
        3 => "3",
        4 => "4",
        5 => "5",
        6 => "6",
        7 => "7",
        8 => "8",
        _ => "9",
    }
}

/// Appends the decimal numeral of `n` to `s`.
pub fn push_decimal_u32(s: &mut String, n: u32)
    ensures
        final(s)@ == old(s)@ + decimal_nat(n as nat),
    decreases n,
{
    if n >= 10 {
        push_decimal_u32(s, n / 10);
    }
    s.append(digit_str(n % 10));
    proof {
        if n >= 10 {
            assert(old(s)@ + decimal_nat(n as nat) =~= old(s)@ + decimal_nat((n / 10) as nat)
                + seq![digit_char((n % 10) as nat)]);
        } else {
            assert(decimal_nat(n as nat) =~= seq![digit_char((n % 10) as nat)]);
        }
    }
}

/// Appends the decimal numeral of `n` to `s`, with a leading `-` when `n` is negative.
pub fn push_decimal_i32(s: &mut String, n: i32)
    ensures
        final(s)@ == old(s)@ + decimal(n as int),
{
    if n < 0 {
        proof {
            reveal_strlit("-");
        }
        s.append("-");
        let magnitude: u32 = (0i64 - n as i64) as u32;
        push_decimal_u32(s, magnitude);
        assert(old(s)@ + decimal(n as int) =~= old(s)@ + seq!['-'] + decimal_nat(magnitude as nat));
    } else {
        push_decimal_u32(s, n as u32);
    }
}

/// Whether `c` is one of the characters `0` to `9`.
pub open spec fn is_decimal_digit(c: char) -> bool {
    48 <= (c as int) && (c as int) <= 57
}

/// The value of a decimal digit character.
pub open spec fn digit_value(c: char) -> int {
    (c as int) - 48
}

/// The number that a string of decimal digits denotes, read left to right
/// with the most significant digit first.
pub open spec fn numeral_value(s: Seq<char>) -> int
    decreases s.len(),
{
    if s.len() == 0 {
        0
    } else {
        numeral_value(s.drop_last()) * 10 + digit_value(s.last())
    }
}

/// Whether `s` is a well-formed decimal numeral: at least one digit, only
/// digits, and no leading zero unless the numeral is `0` itself.
pub open spec fn is_numeral(s: Seq<char>) -> bool {
    &&& s.len() > 0
    &&& forall|i: int| 0 <= i < s.len() ==> is_decimal_digit(#[trigger] s[i])
    &&& (s[0] != '0' || s.len() == 1)
}

/// Whether `s` is a well-formed decimal numeral, possibly preceded by `-`.
pub open spec fn is_signed_numeral(s: Seq<char>) -> bool {
    is_numeral(s) || (s.len() > 0 && s[0] == '-' && is_numeral(s.drop_first()))
}

/// The number that an optionally `-`-signed decimal numeral denotes.
pub open spec fn signed_numeral_value(s: Seq<char>) -> int {
    if s.len() > 0 && s[0] == '-' {
        -numeral_value(s.drop_first())
    } else {
        numeral_value(s)
    }
}

/// Each digit character is a decimal digit whose value is the digit.
proof fn lemma_digit_char(d: nat)
    requires
        d < 10,
    ensures
        is_decimal_digit(digit_char(d)),
        digit_value(digit_char(d)) == d,
{
}

/// The decimal text of a natural number is a well-formed numeral (digits
/// only, no leading zero) that reads back as the number.
pub proof fn lemma_decimal_nat_reads_back(n: nat)
    ensures
        is_numeral(decimal_nat(n)),
        numeral_value(decimal_nat(n)) == n,
    decreases n,
{
    let s = decimal_nat(n);
    if n < 10 {
        lemma_digit_char(n);
        assert(s.drop_last() =~= Seq::<char>::empty());
        assert(numeral_value(Seq::<char>::empty()) == 0);
        assert(s.last() == digit_char(n));
    } else {
        let m = n / 10;
        let r = n % 10;
        lemma_decimal_nat_reads_back(m);
        lemma_digit_char(r);
        let p = decimal_nat(m);
        assert(s == p + seq![digit_char(r)]);
        assert(s.drop_last() =~= p);
        assert(s.last() == digit_char(r));
        assert(numeral_value(s) == m * 10 + r);
        assert forall|i: int| 0 <= i < s.len() implies is_decimal_digit(#[trigger] s[i]) by {
            if i < p.len() {
                assert(s[i] == p[i]);
            }
        }
        assert(s[0] == p[0]);
        if p.len() == 1 {
            assert(p.drop_last() =~= Seq::<char>::empty());
            assert(numeral_value(Seq::<char>::empty()) == 0);
            assert(p.last() == p[0]);
            assert(numeral_value(p) == digit_value(p[0]));
        }
    }
}

/// The decimal text of an integer reads back as the integer: a `-` followed
/// by the numeral of its magnitude when it is negative, its numeral otherwise.
pub proof fn lemma_decimal_reads_back(n: int)
    ensures
        signed_numeral_value(decimal(n)) == n,
        is_signed_numeral(decimal(n)),
        n < 0 ==> decimal(n)[0] == '-' && is_numeral(decimal(n).drop_first()),
        n >= 0 ==> is_numeral(decimal(n)),
{
    if n < 0 {
        lemma_decimal_nat_reads_back((-n) as nat);
        assert(decimal(n).drop_first() =~= decimal_nat((-n) as nat));
    } else {
        lemma_decimal_nat_reads_back(n as nat);
        let s = decimal_nat(n as nat);
        assert(is_decimal_digit(s[0]));
    }
}

} // verus!
