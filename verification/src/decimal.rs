//! Decimal notation of integers, as `format!("{}", n)` writes it.
use vstd::prelude::*;

verus! {

/// The character of the decimal digit `d`.
pub open spec fn digit_char(d: nat) -> char {
    (d + 48) as char
}

/// The decimal digits of `n`, most significant first, without leading zeros.
pub open spec fn nat_decimal(n: nat) -> Seq<char>
    decreases n,
{
    if n < 10 {
        seq![digit_char(n)]
    } else {
        nat_decimal(n / 10).push(digit_char(n % 10))
    }
}

/// The decimal notation of `i`: a minus sign before negative numbers.
pub open spec fn int_decimal(i: int) -> Seq<char> {
    if i < 0 {
        seq!['-'] + nat_decimal((-i) as nat)
    } else {
        nat_decimal(i as nat)
    }
}

/// Decimal notation is never empty and starts with a digit.
pub proof fn lemma_nat_decimal_shape(n: nat)
    ensures
        nat_decimal(n).len() >= 1,
        nat_decimal(n)[0] != '-',
        n >= 10 ==> nat_decimal(n).len() >= 2,
    decreases n,
{
    if n >= 10 {
        lemma_nat_decimal_shape(n / 10);
    }
}

/// Different natural numbers have different decimal notations.
pub proof fn lemma_nat_decimal_injective(a: nat, b: nat)
    requires
        nat_decimal(a) == nat_decimal(b),
    ensures
        a == b,
    decreases a,
{
    lemma_nat_decimal_shape(a);
    lemma_nat_decimal_shape(b);
    if a < 10 && b < 10 {
        assert(nat_decimal(a)[0] == nat_decimal(b)[0]);
    } else if a >= 10 && b >= 10 {
        let sa = nat_decimal(a);
        let sb = nat_decimal(b);
        assert(sa.last() == sb.last());
        assert(sa.drop_last() =~= nat_decimal(a / 10));
        assert(sb.drop_last() =~= nat_decimal(b / 10));
        lemma_nat_decimal_injective(a / 10, b / 10);
        assert((a % 10) == (b % 10));
    }
}

/// Different integers have different decimal notations.
pub proof fn lemma_int_decimal_injective(a: int, b: int)
    requires
        int_decimal(a) == int_decimal(b),
    ensures
        a == b,
{
    if a < 0 && b < 0 {
        assert(int_decimal(a).drop_first() =~= nat_decimal((-a) as nat));
        assert(int_decimal(b).drop_first() =~= nat_decimal((-b) as nat));
        lemma_nat_decimal_injective((-a) as nat, (-b) as nat);
    } else if a >= 0 && b >= 0 {
        lemma_nat_decimal_injective(a as nat, b as nat);
    } else if a < 0 {
        lemma_nat_decimal_shape(b as nat);
        assert(int_decimal(a)[0] == '-');
    } else {
        lemma_nat_decimal_shape(a as nat);
        assert(int_decimal(b)[0] == '-');
    }
}

/// The number that a string of decimal digits denotes, most significant
/// first.
pub open spec fn digits_value(s: Seq<char>) -> int
    decreases s.len(),
{
    if s.len() == 0 {
        0
    } else {
        10 * digits_value(s.drop_last()) + (s.last() as int - 48)
    }
}

/// Whether every character of `s` is one of `0` to `9`.
pub open spec fn all_digits(s: Seq<char>) -> bool {
    forall|k: int| 0 <= k < s.len() ==> 48 <= #[trigger] (s[k] as int) <= 57
}

/// Law: the decimal notation of a natural number is made of digits, has no
/// leading zero, and denotes the number.
pub proof fn law_nat_decimal_value(n: nat)
    ensures
        all_digits(nat_decimal(n)),
        digits_value(nat_decimal(n)) == n,
        n > 0 ==> nat_decimal(n)[0] != '0',
    decreases n,
{
    if n >= 10 {
        law_nat_decimal_value(n / 10);
        let s = nat_decimal(n);
        let t = nat_decimal(n / 10);
        assert(s.drop_last() =~= t);
        assert forall|k: int| 0 <= k < s.len() implies 48 <= #[trigger] (s[k] as int) <= 57 by {
            if k < t.len() {
                assert(s[k] == t[k]);
            }
        }
        assert(s[0] == t[0]);
        assert(s.last() == digit_char(n % 10));
        assert(digit_char(n % 10) as int == n % 10 + 48);
        vstd::arithmetic::div_mod::lemma_fundamental_div_mod(n as int, 10);
    } else {
        let s = nat_decimal(n);
        assert(s.drop_last() =~= Seq::<char>::empty());
        assert(digits_value(Seq::<char>::empty()) == 0);
        assert(digit_char(n) as int == n + 48);
    }
}

/// Law: the notation of a negative number is a minus sign followed by the
/// notation of its magnitude; that of any other number denotes the number.
pub proof fn law_int_decimal_value(i: int)
    ensures
        i < 0 ==> int_decimal(i)[0] == '-' && int_decimal(i).drop_first() == nat_decimal((-i) as nat)
            && digits_value(int_decimal(i).drop_first()) == -i,
        i >= 0 ==> digits_value(int_decimal(i)) == i && all_digits(int_decimal(i)),
{
    if i < 0 {
        assert(int_decimal(i).drop_first() =~= nat_decimal((-i) as nat));
        law_nat_decimal_value((-i) as nat);
    } else {
        law_nat_decimal_value(i as nat);
    }
}

fn digit_str(d: u64) -> (r: &'static str)
    requires
        d < 10,
    ensures
        r@ == seq![digit_char(d as nat)],
{
    match d {
        0 => {
            proof { reveal_strlit("0"); }
            "0"
        },
        1 => {
            proof { reveal_strlit("1"); }
            "1"
        },
        2 => {
            proof { reveal_strlit("2"); }
            "2"
        },
        3 => {
            proof { reveal_strlit("3"); }
            "3"
        },
        4 => {
            proof { reveal_strlit("4"); }
            "4"
        },
        5 => {
            proof { reveal_strlit("5"); }
            "5"
        },
        6 => {
            proof { reveal_strlit("6"); }
            "6"
        },
        7 => {
            proof { reveal_strlit("7"); }
            "7"
        },
        8 => {
            proof { reveal_strlit("8"); }
            "8"
        },
        _ => {
            proof { reveal_strlit("9"); }
            "9"
        },
    }
}

/// Appends the decimal digits of `n` to `s`.
pub fn push_decimal(s: &mut String, n: u64)
    ensures
        final(s)@ == old(s)@ + nat_decimal(n as nat),
    decreases n,
{
    if n >= 10 {
        push_decimal(s, n / 10);
    }
    s.append(digit_str(n % 10));
    assert(s@ =~= old(s)@ + nat_decimal(n as nat)) by {
        if n >= 10 {
            assert(nat_decimal(n as nat) == nat_decimal((n / 10) as nat).push(digit_char((n % 10) as nat)));
        }
    }
}

/// The decimal notation of `n`.
pub fn decimal_string(n: i64) -> (r: String)
    ensures
        r@ == int_decimal(n as int),
{
    let mut s = String::new();
    if n < 0 {
        proof { reveal_strlit("-"); }
        s.append("-");
        let m: u64 = if n == i64::MIN { 0x8000_0000_0000_0000u64 } else { (-n) as u64 };
        push_decimal(&mut s, m);
    } else {
        push_decimal(&mut s, n as u64);
    }
    assert(s@ =~= int_decimal(n as int));
    s
}

} // verus!
