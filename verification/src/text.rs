use vstd::prelude::*;

verus! {

/// The character of a decimal digit `d` (`0 <= d < 10`).
pub open spec fn digit_char(d: int) -> char {
    ('0' as int + d) as char
}

/// Whether `c` is one of the ASCII digits `0` to `9`.
pub open spec fn is_digit(c: char) -> bool {
    '0' <= c && c <= '9'
}

/// The value of a digit character.
pub open spec fn digit_value(c: char) -> int {
    c as int - '0' as int
}

/// The decimal representation of `n`: its digits, most significant first,
/// without leading zeros (zero is the single digit `0`).
pub open spec fn decimal(n: nat) -> Seq<char>
    decreases n,
{
    if n < 10 {
        seq![digit_char(n as int)]
    } else {
        decimal(n / 10) + seq![digit_char((n % 10) as int)]
    }
}

/// The number that a string of digits denotes in base ten.
pub open spec fn digits_value(s: Seq<char>) -> int
    decreases s.len(),
{
    if s.len() == 0 {
        0
    } else {
        digits_value(s.drop_last()) * 10 + digit_value(s.last())
    }
}

/// Whether every character of `s` is a decimal digit.
pub open spec fn all_digits(s: Seq<char>) -> bool {
    forall|i: int| 0 <= i < s.len() ==> #[trigger] is_digit(s[i])
}

/// The digits of an unsigned number in text: the text without one leading `+`.
pub open spec fn unsigned_digits(s: Seq<char>) -> Seq<char> {
    if s.len() > 0 && s[0] == '+' {
        s.drop_first()
    } else {
        s
    }
}

/// What reading `s` as a `u16` gives: an optional `+` followed by at least
/// one decimal digit and nothing else, denoting a number no larger than
/// `u16::MAX`; `None` for any other text.
pub open spec fn parse_u16_spec(s: Seq<char>) -> Option<u16> {
    let d = unsigned_digits(s);
    if d.len() > 0 && all_digits(d) && digits_value(d) <= u16::MAX {
        Some(digits_value(d) as u16)
    } else {
        None
    }
}

/// The one-character string of the digit `d`.
fn digit_str(d: u32) -> (s: &'static str)
    requires
        d < 10,
    ensures
        s@ == seq![digit_char(d as int)],
{
    let s = match d {
        0 => "0",
        1 => "1",
        2 => "2",
        3 => "3",
        4 => "4",
        5 => "5",
        6 => "6",
        7 => "7",
        8 => "8",
        _ => "9",
    };
    proof {
        reveal_strlit("0");
        reveal_strlit("1");
        reveal_strlit("2");
        reveal_strlit("3");
        reveal_strlit("4");
        reveal_strlit("5");
        reveal_strlit("6");
        reveal_strlit("7");
        reveal_strlit("8");
        reveal_strlit("9");
    }
    assert(s@ =~= seq![digit_char(d as int)]);
    s
}

/// Appends the decimal representation of `n` to `out`.
pub fn push_decimal(out: &mut String, n: u32)
    ensures
        final(out)@ == old(out)@ + decimal(n as nat),
    decreases n,
{
    if n >= 10 {
        push_decimal(out, n / 10);
    }
    out.append(digit_str(n % 10));
    proof {
        if n >= 10 {
            assert(old(out)@ + decimal((n / 10) as nat) + seq![digit_char((n % 10) as int)] =~= old(out)@
                + decimal(n as nat));
        } else {
            assert(n % 10 == n);
        }
    }
}

/// Reads `text` as a `u16` in base ten, as `u16`'s `FromStr` does: an optional
/// leading `+`, then one or more ASCII digits, with a value that fits.
pub fn parse_u16(text: &str) -> (r: Option<u16>)
    ensures
        r == parse_u16_spec(text@),
{
    let len = text.unicode_len();
    let mut start: usize = 0;
    if len > 0 && text.get_char(0) == '+' {
        start = 1;
    }
    let ghost d = unsigned_digits(text@);
    assert(d =~= text@.subrange(start as int, len as int));
    if start == len {
        return None;
    }
    let mut value: u32 = 0;
    let mut overflow = false;
    let mut i = start;
    while i < len
        invariant
            start <= i <= len,
            len == text@.len(),
            d =~= text@.subrange(start as int, len as int),
            d == unsigned_digits(text@),
            all_digits(d.take(i - start)),
            overflow ==> digits_value(d.take(i - start)) > u16::MAX,
            !overflow ==> value == digits_value(d.take(i - start)),
            !overflow ==> value <= u16::MAX,
        decreases len - i,
    {
        let c = text.get_char(i);
        if !('0' <= c && c <= '9') {
            assert(d[i - start] == c);
            assert(!is_digit(d[i - start]));
            assert(!all_digits(d));
            return None;
        }
        assert(d[i - start] == c);
        proof {
            lemma_digits_step(d, i - start);
        }
        let dv = (c as u32) - ('0' as u32);
        if !overflow {
            let next = value * 10 + dv;
            if next > 65535 {
                overflow = true;
            } else {
                value = next;
            }
        } else {
            let ghost p = digits_value(d.take(i - start));
            assert(p * 10 + digit_value(c) > u16::MAX) by (nonlinear_arith)
                requires
                    p > u16::MAX,
                    digit_value(c) >= 0,
            ;
        }
        i = i + 1;
    }
    assert(d.take(len - start) =~= d);
    if overflow {
        None
    } else {
        Some(value as u16)
    }
}

/// The decimal representation of a number is a non-empty string of digits
/// that denotes the number.
pub proof fn lemma_decimal_digits(n: nat)
    ensures
        decimal(n).len() > 0,
        all_digits(decimal(n)),
        digits_value(decimal(n)) == n,
        decimal(n)[0] != '+',
    decreases n,
{
    if n < 10 {
        let s = decimal(n);
        assert(s.drop_last() =~= Seq::<char>::empty());
        assert(digits_value(s.drop_last()) == 0);
        assert(digit_value(digit_char(n as int)) == n);
        assert(is_digit(s[0]));
    } else {
        let q = n / 10;
        let r = n % 10;
        lemma_decimal_digits(q);
        let s = decimal(n);
        assert(s.drop_last() =~= decimal(q));
        assert(s.last() == digit_char(r as int));
        assert(digit_value(digit_char(r as int)) == r);
        assert(q * 10 + r == n);
        assert forall|i: int| 0 <= i < s.len() implies #[trigger] is_digit(s[i]) by {
            if i < decimal(q).len() {
                assert(s[i] == decimal(q)[i]);
            }
        }
        assert(s[0] == decimal(q)[0]);
    }
}

/// Writing a `u16` in decimal and reading the text back gives the same
/// number.
pub proof fn lemma_parse_decimal_round_trip(n: u16)
    ensures
        parse_u16_spec(decimal(n as nat)) == Some(n),
{
    lemma_decimal_digits(n as nat);
    assert(unsigned_digits(decimal(n as nat)) == decimal(n as nat));
}

/// Whether a string of digits is written without leading zeros: either it is
/// a single digit, or its first digit is not `0`.
pub open spec fn no_leading_zero(s: Seq<char>) -> bool {
    s.len() == 1 || (s.len() > 1 && s[0] != '0')
}

/// The decimal representation is the canonical one: a non-empty string of
/// digits, with no leading zero, that denotes the number.
pub proof fn lemma_decimal_canonical(n: nat)
    ensures
        all_digits(decimal(n)),
        digits_value(decimal(n)) == n,
        no_leading_zero(decimal(n)),
        n > 0 ==> decimal(n)[0] != '0',
    decreases n,
{
    lemma_decimal_digits(n);
    if n >= 10 {
        let q = n / 10;
        lemma_decimal_canonical(q);
        let s = decimal(n);
        assert(s[0] == decimal(q)[0]);
        assert(q > 0);
    } else {
        assert(decimal(n)[0] == digit_char(n as int));
        assert(digit_value(digit_char(n as int)) == n);
    }
}

/// A digit character is the character of its own value.
proof fn lemma_digit_char_of_value(c: char)
    requires
        is_digit(c),
    ensures
        digit_char(digit_value(c)) == c,
        0 <= digit_value(c) < 10,
{
}

/// Any string of digits without leading zeros that denotes `n` is exactly
/// the decimal representation of `n`: the decimal text of a number is
/// unique.
pub proof fn lemma_decimal_unique(s: Seq<char>, n: nat)
    requires
        all_digits(s),
        no_leading_zero(s),
        digits_value(s) == n,
    ensures
        s == decimal(n),
    decreases s.len(),
{
    if s.len() == 1 {
        assert(s.drop_last() =~= Seq::<char>::empty());
        assert(is_digit(s[0]));
        lemma_digit_char_of_value(s[0]);
        assert(digits_value(s.drop_last()) == 0);
        assert(s.last() == s[0]);
        assert(digits_value(s) == digit_value(s[0]));
        assert(s =~= seq![digit_char(n as int)]);
    } else {
        let t = s.drop_last();
        let c = s.last();
        assert(is_digit(s[s.len() - 1]));
        lemma_digit_char_of_value(c);
        assert(all_digits(t)) by {
            assert forall|i: int| 0 <= i < t.len() implies #[trigger] is_digit(t[i]) by {
                assert(t[i] == s[i]);
            }
        }
        lemma_digits_value_nonneg(t);
        let v = digits_value(t);
        let d = digit_value(c);
        assert(n == v * 10 + d);
        vstd::arithmetic::div_mod::lemma_fundamental_div_mod_converse(n as int, 10, v, d);
        assert(t[0] == s[0]);
        if v == 0 {
            // A leading digit followed by more digits with value zero would
            // have to be `0`.
            lemma_value_zero_all_zero(t);
            assert(t[0] == '0');
            assert(false);
        }
        assert(no_leading_zero(t));
        lemma_decimal_unique(t, v as nat);
        assert(n >= 10);
        assert(decimal(n) == decimal((n / 10) as nat) + seq![digit_char((n % 10) as int)]);
        assert(s =~= t + seq![c]);
    }
}

/// A string of digits that denotes zero consists of zeros only.
proof fn lemma_value_zero_all_zero(s: Seq<char>)
    requires
        all_digits(s),
        digits_value(s) == 0,
        s.len() > 0,
    ensures
        s[0] == '0',
    decreases s.len(),
{
    let t = s.drop_last();
    assert(is_digit(s[s.len() - 1]));
    assert(all_digits(t)) by {
        assert forall|i: int| 0 <= i < t.len() implies #[trigger] is_digit(t[i]) by {
            assert(t[i] == s[i]);
        }
    }
    lemma_digits_value_nonneg(t);
    if s.len() == 1 {
        assert(t =~= Seq::<char>::empty());
        assert(digit_value(s[0]) == 0);
    } else {
        assert(digits_value(t) == 0);
        lemma_value_zero_all_zero(t);
        assert(t[0] == s[0]);
    }
}

/// Reading a `u16` accepts every string of digits whose value fits, with or
/// without a leading `+`, whatever its first digit, and gives that value.
pub proof fn lemma_parse_reads_digits(s: Seq<char>)
    requires
        s.len() > 0,
        all_digits(s),
        digits_value(s) <= u16::MAX,
    ensures
        parse_u16_spec(s) == Some(digits_value(s) as u16),
        parse_u16_spec(seq!['+'] + s) == Some(digits_value(s) as u16),
{
    assert(is_digit(s[0]));
    assert(unsigned_digits(s) == s);
    assert((seq!['+'] + s).drop_first() =~= s);
    assert(unsigned_digits(seq!['+'] + s) == s);
}

/// Reading a `u16` refuses the empty text, text with a character that is
/// neither a digit nor a single leading `+`, and digits whose value does not
/// fit.
pub proof fn lemma_parse_rejects(s: Seq<char>, i: int)
    ensures
        s.len() == 0 ==> parse_u16_spec(s) is None,
        (0 <= i < s.len() && !is_digit(s[i]) && !(i == 0 && s[0] == '+')) ==> parse_u16_spec(s) is None,
        (s.len() > 0 && all_digits(s) && digits_value(s) > u16::MAX) ==> parse_u16_spec(s) is None,
{
    if 0 <= i < s.len() && !is_digit(s[i]) && !(i == 0 && s[0] == '+') {
        let d = unsigned_digits(s);
        if s[0] == '+' {
            assert(d[i - 1] == s[i]);
            assert(!is_digit(d[i - 1]));
        } else {
            assert(d[i] == s[i]);
            assert(!is_digit(d[i]));
        }
    }
    if s.len() > 0 && all_digits(s) {
        assert(is_digit(s[0]));
        assert(unsigned_digits(s) == s);
    }
}

/// Extending a prefix of digits by one more digit.
proof fn lemma_digits_step(d: Seq<char>, k: int)
    requires
        0 <= k < d.len(),
        all_digits(d.take(k)),
        is_digit(d[k]),
    ensures
        all_digits(d.take(k + 1)),
        digits_value(d.take(k + 1)) == digits_value(d.take(k)) * 10 + digit_value(d[k]),
        digits_value(d.take(k)) >= 0,
{
    assert(d.take(k + 1).drop_last() =~= d.take(k));
    assert(d.take(k + 1).last() == d[k]);
    assert forall|i: int| 0 <= i < k + 1 implies #[trigger] is_digit(d.take(k + 1)[i]) by {
        if i < k {
            assert(d.take(k + 1)[i] == d.take(k)[i]);
        }
    }
    lemma_digits_value_nonneg(d.take(k));
}

/// A string of digits denotes a number that is not negative.
proof fn lemma_digits_value_nonneg(s: Seq<char>)
    requires
        all_digits(s),
    ensures
        digits_value(s) >= 0,
    decreases s.len(),
{
    if s.len() > 0 {
        assert(is_digit(s[s.len() - 1]));
        assert(all_digits(s.drop_last()));
        lemma_digits_value_nonneg(s.drop_last());
    }
}

} // verus!
