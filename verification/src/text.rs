//! Character-level helpers on strings: comparison, prefixes and decimal
//! rendering of integers.
use vstd::prelude::*;

verus! {

/// Whether `a` and `b` hold the same characters.
pub fn str_equal(a: &str, b: &str) -> (eq: bool)
    ensures
        eq == (a@ == b@),
{
    let n = a.unicode_len();
    if n != b.unicode_len() {
        return false;
    }
    let mut i: usize = 0;
    while i < n
        invariant
            n == a@.len(),
            n == b@.len(),
            i <= n,
            forall|j: int| 0 <= j < i ==> a@[j] == b@[j],
        decreases n - i,
    {
        if a.get_char(i) != b.get_char(i) {
            return false;
        }
        i = i + 1;
    }
    assert(a@ =~= b@);
    true
}

/// Whether `s` begins with the characters of `prefix`.
pub fn starts_with(s: &str, prefix: &str) -> (b: bool)
    ensures
        b == prefix@.is_prefix_of(s@),
{
    let n = prefix.unicode_len();
    if n > s.unicode_len() {
        return false;
    }
    let mut i: usize = 0;
    while i < n
        invariant
            n == prefix@.len(),
            n <= s@.len(),
            i <= n,
            forall|j: int| 0 <= j < i ==> prefix@[j] == s@[j],
        decreases n - i,
    {
        if s.get_char(i) != prefix.get_char(i) {
            return false;
        }
        i = i + 1;
    }
    true
}

/// The character of a decimal digit.
pub open spec fn digit_char(d: nat) -> char {
    (48 + d) as char
}

/// The decimal digits of `n`, most significant first, without leading zeros.
pub open spec fn nat_digits(n: nat) -> Seq<char>
    decreases n,
{
    if n < 10 {
        seq![digit_char(n)]
    } else {
        nat_digits(n / 10).push(digit_char(n % 10))
    }
}

/// The decimal rendering of an integer, with a leading `-` when it is negative.
pub open spec fn spec_decimal(n: int) -> Seq<char> {
    if n < 0 {
        seq!['-'] + nat_digits((-n) as nat)
    } else {
        nat_digits(n as nat)
    }
}

/// The value of a sequence of decimal digits.
pub open spec fn digits_value(s: Seq<char>) -> int
    decreases s.len(),
{
    if s.len() == 0 {
        0
    } else {
        digits_value(s.drop_last()) * 10 + (s.last() as int - 48)
    }
}

/// The value that a decimal rendering stands for.
pub open spec fn decimal_value(s: Seq<char>) -> int {
    if s.len() > 0 && s[0] == '-' {
        -digits_value(s.drop_first())
    } else {
        digits_value(s)
    }
}

/// Whether every character of `s` is a decimal digit.
pub open spec fn all_digits(s: Seq<char>) -> bool {
    forall|i: int| 0 <= i < s.len() ==> '0' <= #[trigger] s[i] <= '9'
}

proof fn lemma_digit_char(d: nat)
    requires
        d < 10,
    ensures
        digit_char(d) as int == 48 + d,
        '0' <= digit_char(d) <= '9',
{
}

proof fn lemma_nat_digits(n: nat)
    ensures
        digits_value(nat_digits(n)) == n,
        all_digits(nat_digits(n)),
        nat_digits(n).len() >= 1,
        n >= 10 ==> nat_digits(n).len() > 1,
        nat_digits(n).len() > 1 ==> nat_digits(n)[0] != '0',
    decreases n,
{
    lemma_digit_char(n % 10);
    if n >= 10 {
        lemma_nat_digits(n / 10);
        if n / 10 < 10 {
            lemma_digit_char(n / 10);
            assert(nat_digits(n / 10)[0] == digit_char(n / 10));
            assert(digit_char(n / 10) != '0');
        }
        let s = nat_digits(n);
        assert(s.drop_last() =~= nat_digits(n / 10));
        assert(s[0] == nat_digits(n / 10)[0]);
        assert(s.last() == digit_char(n % 10));
        assert((n / 10) * 10 + n % 10 == n) by (nonlinear_arith);
        assert(digits_value(s) == digits_value(s.drop_last()) * 10 + (s.last() as int - 48));
    } else {
        let s = nat_digits(n);
        assert(s.drop_last() =~= Seq::<char>::empty());
        assert(digits_value(s.drop_last()) == 0);
    }
}

/// Reading back the decimal rendering of an integer gives that integer; the
/// rendering is an optional minus sign followed by digits, with no leading zero.
pub proof fn lemma_decimal_round_trip(n: int)
    ensures
        decimal_value(spec_decimal(n)) == n,
        n >= 0 ==> all_digits(spec_decimal(n)),
        n < 0 ==> spec_decimal(n)[0] == '-' && all_digits(spec_decimal(n).drop_first()),
        spec_decimal(n).len() > 1 && n >= 0 ==> spec_decimal(n)[0] != '0',
{
    if n < 0 {
        let m = (-n) as nat;
        lemma_nat_digits(m);
        let s = spec_decimal(n);
        assert(s.drop_first() =~= nat_digits(m));
    } else {
        lemma_nat_digits(n as nat);
        let s = nat_digits(n as nat);
        if s.len() > 0 {
            assert('0' <= s[0] <= '9');
        }
    }
}

fn digit_str(d: u64) -> (s: &'static str)
    requires
        d < 10,
    ensures
        s@ == seq![digit_char(d as nat)],
{
    match d {
        0 => {
            proof { reveal_strlit("0"); }
            "0"
        },
        1 => {
            proof { reveal_strlit("1"); }
            "1"
        },
        2 => {
            proof { reveal_strlit("2"); }
            "2"
        },
        3 => {
            proof { reveal_strlit("3"); }
            "3"
        },
        4 => {
            proof { reveal_strlit("4"); }
            "4"
        },
        5 => {
            proof { reveal_strlit("5"); }
            "5"
        },
        6 => {
            proof { reveal_strlit("6"); }
            "6"
        },
        7 => {
            proof { reveal_strlit("7"); }
            "7"
        },
        8 => {
            proof { reveal_strlit("8"); }
            "8"
        },
        _ => {
            proof { reveal_strlit("9"); }
            "9"
        },
    }
}

fn append_digits(s: &mut String, m: u64)
    ensures
        final(s)@ == old(s)@ + nat_digits(m as nat),
    decreases m,
{
    if m >= 10 {
        append_digits(s, m / 10);
    }
    s.append(digit_str(m % 10));
    proof {
        if m >= 10 {
            assert(nat_digits(m as nat) == nat_digits((m / 10) as nat).push(digit_char((m % 10) as nat)));
        }
    }
}

/// Renders an integer in decimal, as `format!("{}", n)` does.
pub fn i64_to_decimal(n: i64) -> (s: String)
    ensures
        s@ == spec_decimal(n as int),
{
    let mut s = String::new();
    if n < 0 {
        proof { reveal_strlit("-"); }
        s.append("-");
        let wide: i128 = n as i128;
        let magnitude: u64 = (-wide) as u64;
        append_digits(&mut s, magnitude);
        assert(s@ =~= spec_decimal(n as int));
    } else {
        let magnitude: u64 = n as u64;
        append_digits(&mut s, magnitude);
        assert(s@ =~= spec_decimal(n as int));
    }
    s
}

} // verus!
