use vstd::prelude::*;
use vstd::string::*;

verus! {

/// The decimal digit character for `d` (which is below ten).
pub open spec fn spec_digit(d: nat) -> char {
    if d == 0 { '0' }
    else if d == 1 { '1' }
    else if d == 2 { '2' }
    else if d == 3 { '3' }
    else if d == 4 { '4' }
    else if d == 5 { '5' }
    else if d == 6 { '6' }
    else if d == 7 { '7' }
    else if d == 8 { '8' }
    else { '9' }
}

/// The decimal digits of `n`, most significant first, with no leading zero.
pub open spec fn spec_digits(n: nat) -> Seq<char>
    decreases n,
{
    if n < 10 {
        seq![spec_digit(n)]
    } else {
        spec_digits(n / 10).push(spec_digit(n % 10))
    }
}

/// The decimal representation of `x`, as `{}` prints an integer: a minus sign
/// before the digits of a negative number.
pub open spec fn spec_decimal(x: int) -> Seq<char> {
    if x < 0 {
        seq!['-'] + spec_digits((-x) as nat)
    } else {
        spec_digits(x as nat)
    }
}

/// The value of the decimal digit character `c` (0 for a non-digit).
pub open spec fn spec_digit_value(c: char) -> int {
    if c == '1' { 1 }
    else if c == '2' { 2 }
    else if c == '3' { 3 }
    else if c == '4' { 4 }
    else if c == '5' { 5 }
    else if c == '6' { 6 }
    else if c == '7' { 7 }
    else if c == '8' { 8 }
    else if c == '9' { 9 }
    else { 0 }
}

/// Reads a run of decimal digits, most significant first.
pub open spec fn spec_read_digits(s: Seq<char>) -> int
    decreases s.len(),
{
    if s.len() == 0 {
        0
    } else {
        spec_read_digits(s.drop_last()) * 10 + spec_digit_value(s.last())
    }
}

/// Reads a decimal number: an optional minus sign, then digits.
pub open spec fn spec_read_decimal(s: Seq<char>) -> int {
    if s.len() > 0 && s[0] == '-' {
        -spec_read_digits(s.drop_first())
    } else {
        spec_read_digits(s)
    }
}

proof fn lemma_digits_read_back(n: nat)
    ensures
        spec_read_digits(spec_digits(n)) == n,
        spec_digits(n).len() > 0,
        spec_digits(n)[0] != '-',
    decreases n,
{
    assert(spec_digit_value(spec_digit(n % 10)) == n % 10);
    if n >= 10 {
        lemma_digits_read_back(n / 10);
        let d = spec_digits(n);
        assert(d.drop_last() =~= spec_digits(n / 10));
        assert(d.last() == spec_digit(n % 10));
        assert(d[0] == spec_digits(n / 10)[0]);
        assert(n == (n / 10) * 10 + n % 10);
        assert(spec_read_digits(d) == spec_read_digits(d.drop_last()) * 10 + spec_digit_value(
            d.last(),
        ));
    } else {
        let d = spec_digits(n);
        assert(d =~= seq![spec_digit(n)]);
        assert(d.drop_last() =~= Seq::<char>::empty());
        assert(spec_read_digits(Seq::<char>::empty()) == 0);
        assert(n % 10 == n);
        assert(spec_read_digits(d) == spec_read_digits(d.drop_last()) * 10 + spec_digit_value(
            d.last(),
        ));
    }
}

/// The decimal text of a number reads back as that number: the text keeps
/// the sign and every digit, so different numbers print differently.
pub proof fn lemma_decimal_reads_back(x: int)
    ensures
        spec_read_decimal(spec_decimal(x)) == x,
        spec_decimal(x).len() > 0,
        (spec_decimal(x)[0] == '-') <==> x < 0,
{
    if x < 0 {
        let m = (-x) as nat;
        lemma_digits_read_back(m);
        assert((seq!['-'] + spec_digits(m)).drop_first() =~= spec_digits(m));
    } else {
        lemma_digits_read_back(x as nat);
    }
}

fn push_digit(s: &mut String, d: u64)
    requires
        d < 10,
    ensures
        final(s)@ == old(s)@.push(spec_digit(d as nat)),
{
    let lit = match d {
        0 => "0",
        1 => "1",
        2 => "2",
        3 => "3",
        4 => "4",
        5 => "5",
        6 => "6",
        7 => "7",
        8 => "8",
        _ => "9",
    };
    proof {
        reveal_strlit("0");
        reveal_strlit("1");
        reveal_strlit("2");
        reveal_strlit("3");
        reveal_strlit("4");
        reveal_strlit("5");
        reveal_strlit("6");
        reveal_strlit("7");
        reveal_strlit("8");
        reveal_strlit("9");
    }
    assert(lit@ == seq![spec_digit(d as nat)]);
    s.append(lit);
}

fn append_digits(s: &mut String, n: u64)
    ensures
        final(s)@ == old(s)@ + spec_digits(n as nat),
    decreases n,
{
    if n >= 10 {
        append_digits(s, n / 10);
    }
    push_digit(s, n % 10);
}

/// Appends the decimal representation of `x` to `s`.
pub fn append_decimal(s: &mut String, x: i64)
    ensures
        final(s)@ == old(s)@ + spec_decimal(x as int),
{
    if x < 0 {
        proof {
            reveal_strlit("-");
        }
        s.append("-");
        let m: u64 = (-(x as i128)) as u64;
        append_digits(s, m);
    } else {
        append_digits(s, x as u64);
    }
}

/// The decimal representation of `x`.
pub fn decimal_text(x: i64) -> (s: String)
    ensures
        s@ == spec_decimal(x as int),
{
    let mut s = String::new();
    append_decimal(&mut s, x);
    s
}

} // verus!
