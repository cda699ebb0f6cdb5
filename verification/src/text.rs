//! Decimal numerals and small text helpers.

use vstd::arithmetic::power::*;
use vstd::prelude::*;
use vstd::string::*;

verus! {

/// The character that stands for a decimal digit.
pub open spec fn digit_char(digit: nat) -> char {
    ('0' as int + digit) as char
}

/// The decimal numeral of a natural number, without leading zeros.
pub open spec fn nat_text(n: nat) -> Seq<char>
    decreases n,
{
    if n < 10 {
        seq![digit_char(n)]
    } else {
        nat_text(n / 10).push(digit_char(n % 10))
    }
}

/// The decimal numeral of an integer: a minus sign in front of the negative ones.
pub open spec fn int_text(n: int) -> Seq<char> {
    if n < 0 {
        seq!['-'] + nat_text((-n) as nat)
    } else {
        nat_text(n as nat)
    }
}

/// Whether a character is one of the ten ASCII digits.
pub open spec fn is_digit(c: char) -> bool {
    '0' <= c <= '9'
}

/// Whether a text is a run of ASCII digits, possibly empty.
pub open spec fn all_digits(text: Seq<char>) -> bool {
    forall|i: int| 0 <= i < text.len() ==> is_digit(#[trigger] text[i])
}

/// The number that a run of ASCII digits denotes.
pub open spec fn digits_value(text: Seq<char>) -> nat
    decreases text.len(),
{
    if text.len() == 0 {
        0
    } else {
        digits_value(text.drop_last()) * 10 + (text.last() as int - '0' as int) as nat
    }
}

/// Whether a text denotes an integer: digits without leading zeros, behind a
/// minus sign for the negative ones.
pub open spec fn denotes(text: Seq<char>, n: int) -> bool {
    if n < 0 {
        &&& text.len() > 0
        &&& text[0] == '-'
        &&& denotes_nat(text.skip(1), -n)
    } else {
        denotes_nat(text, n)
    }
}

/// Whether a text denotes a natural number: digits without leading zeros.
pub open spec fn denotes_nat(text: Seq<char>, n: int) -> bool {
    &&& text.len() > 0
    &&& forall|i: int| 0 <= i < text.len() ==> '0' <= #[trigger] text[i] <= '9'
    &&& text.len() > 1 ==> text[0] != '0'
    &&& digits_value(text) == n
}

/// What an optional text holds.
pub open spec fn option_text(text: Option<String>) -> Option<Seq<char>> {
    match text {
        Some(t) => Some(t@),
        None => None,
    }
}

/// What each text of a list holds.
pub open spec fn texts(list: Seq<String>) -> Seq<Seq<char>> {
    list.map_values(|t: String| t@)
}

fn digit_str(digit: u64) -> (text: &'static str)
    requires
        digit < 10,
    ensures
        text@ == seq![digit_char(digit as nat)],
{
    proof {
        reveal_strlit("0");
        reveal_strlit("1");
        reveal_strlit("2");
        reveal_strlit("3");
        reveal_strlit("4");
        reveal_strlit("5");
        reveal_strlit("6");
        reveal_strlit("7");
        reveal_strlit("8");
        reveal_strlit("9");
    }
    if digit == 0 {
        "0"
    } else if digit == 1 {
        "1"
    } else if digit == 2 {
        "2"
    } else if digit == 3 {
        "3"
    } else if digit == 4 {
        "4"
    } else if digit == 5 {
        "5"
    } else if digit == 6 {
        "6"
    } else if digit == 7 {
        "7"
    } else if digit == 8 {
        "8"
    } else {
        "9"
    }
}

/// Appends the decimal numeral of `n`.
pub fn push_nat(out: &mut String, n: u64)
    ensures
        final(out)@ == old(out)@ + nat_text(n as nat),
    decreases n,
{
    if n >= 10 {
        push_nat(out, n / 10);
    }
    out.append(digit_str(n % 10));
}

/// Appends the decimal numeral of `n`, with a minus sign when `n` is negative.
pub fn push_int(out: &mut String, n: i64)
    ensures
        final(out)@ == old(out)@ + int_text(n as int),
        old(out)@.is_prefix_of(final(out)@),
        denotes(final(out)@.skip(old(out)@.len() as int), n as int),
{
    proof {
        law_numeral_denotes(n as int);
        assert((old(out)@ + int_text(n as int)).skip(old(out)@.len() as int) =~= int_text(
            n as int,
        ));
        assert((old(out)@ + int_text(n as int)).take(old(out)@.len() as int) =~= old(out)@);
    }
    if n < 0 {
        proof {
            reveal_strlit("-");
        }
        out.append("-");
        let magnitude: u64 = (-(n + 1)) as u64 + 1;
        push_nat(out, magnitude);
        assert(out@ == old(out)@ + int_text(n as int));
    } else {
        push_nat(out, n as u64);
    }
}

/// Whether `text` begins with `prefix`.
pub fn starts_with(text: &str, prefix: &str) -> (found: bool)
    ensures
        found == prefix@.is_prefix_of(text@),
{
    let total: usize = text.unicode_len();
    let wanted: usize = prefix.unicode_len();
    if total < wanted {
        return false;
    }
    let mut i: usize = 0;
    while i < wanted
        invariant
            i <= wanted <= total,
            wanted == prefix@.len(),
            total == text@.len(),
            forall|j: int| 0 <= j < i ==> prefix@[j] == text@[j],
        decreases wanted - i,
    {
        if text.get_char(i) != prefix.get_char(i) {
            return false;
        }
        i += 1;
    }
    assert(prefix@ =~= text@.subrange(0, prefix@.len() as int));
    true
}

/// Reads a run of ASCII digits as a number and caps it; `None` for an empty
/// text and for one that holds anything but ASCII digits.
pub fn capped_number(text: &str, cap: u32) -> (number: Option<u32>)
    ensures
        number is Some <==> text@.len() > 0 && all_digits(text@),
        number is Some <==> text@.len() > 0 && forall|i: int|
            0 <= i < text@.len() ==> '0' <= #[trigger] text@[i] <= '9',
        number matches Some(n) ==> n == (if digits_value(text@) < cap {
            digits_value(text@)
        } else {
            cap as nat
        }),
{
    let mut number: u32 = 0;
    let mut empty = true;
    assert(text@.take(0).len() == 0);
    for c in iter: text.chars()
        invariant
            iter.seq() == text@,
            empty == (iter.index() == 0),
            all_digits(text@.take(iter.index())),
            number == (if digits_value(text@.take(iter.index())) < cap {
                digits_value(text@.take(iter.index()))
            } else {
                cap as nat
            }),
    {
        let ghost i = iter.index();
        assert(c == text@[i]);
        if c < '0' || c > '9' {
            assert(!is_digit(text@[i]));
            return None;
        }
        proof {
            assert(text@.take(i + 1).drop_last() =~= text@.take(i));
            assert(text@.take(i + 1).last() == c);
        }
        let digit: u32 = c as u32 - '0' as u32;
        let next: u64 = number as u64 * 10 + digit as u64;
        number = if next < cap as u64 { next as u32 } else { cap };
        empty = false;
    }
    assert(text@.take(text@.len() as int) =~= text@);
    if empty {
        None
    } else {
        Some(number)
    }
}

/// A numeral is a nonempty run of digits, and denotes the number it was made of.
pub proof fn law_numeral_round_trip(n: nat)
    ensures
        nat_text(n).len() > 0,
        all_digits(nat_text(n)),
        digits_value(nat_text(n)) == n,
    decreases n,
{
    if n < 10 {
        assert(nat_text(n).drop_last() =~= Seq::<char>::empty());
        assert(digits_value(Seq::<char>::empty()) == 0);
    } else {
        let head = nat_text(n / 10);
        law_numeral_round_trip(n / 10);
        assert(nat_text(n).drop_last() =~= head);
        assert(all_digits(nat_text(n))) by {
            assert forall|i: int| 0 <= i < nat_text(n).len() implies is_digit(
                #[trigger] nat_text(n)[i],
            ) by {
                if i < head.len() {
                    assert(is_digit(head[i]));
                }
            }
        }
    }
}

/// The value of a run of digits is positional: the digits in front count ten
/// times for each digit behind them, and a single digit counts its distance
/// from zero.
pub proof fn law_digits_are_positional(front: Seq<char>, back: Seq<char>, digit: char)
    requires
        '0' <= digit <= '9',
    ensures
        digits_value(front + back) == digits_value(front) * pow(10, back.len()) + digits_value(
            back,
        ),
        digits_value(seq![digit]) == digit as int - '0' as int,
        digits_value(Seq::<char>::empty()) == 0,
    decreases back.len(),
{
    assert(seq![digit].drop_last() =~= Seq::<char>::empty());
    assert(digits_value(Seq::<char>::empty()) == 0);
    lemma_pow0(10);
    if back.len() == 0 {
        assert(front + back =~= front);
        assert(back =~= Seq::<char>::empty());
    } else {
        let less = back.drop_last();
        law_digits_are_positional(front, less, digit);
        assert((front + back).drop_last() =~= front + less);
        assert((front + back).last() == back.last());
        lemma_pow1(10);
        lemma_pow_adds(10, less.len(), 1);
        let (f, p, l) = (digits_value(front) as int, pow(10, less.len()), digits_value(less) as int);
        assert((f * p + l) * 10 == f * (p * 10) + l * 10) by (nonlinear_arith);
    }
}

/// The digits are the ten characters from zero to nine.
pub proof fn law_digits_are_ten(c: char, text: Seq<char>)
    ensures
        is_digit(c) <==> "0123456789"@.contains(c),
        all_digits(text) <==> forall|i: int|
            0 <= i < text.len() ==> "0123456789"@.contains(#[trigger] text[i]),
        forall|d: nat| #![trigger digit_char(d)] d < 10 ==> "0123456789"@[d as int] == digit_char(d),
{
    reveal_strlit("0123456789");
    let ten = "0123456789"@;
    assert forall|x: char| is_digit(x) <==> #[trigger] ten.contains(x) by {
        if is_digit(x) {
            assert(ten[x as int - '0' as int] == x);
        }
    }
}

/// The numeral of an integer denotes it.
pub proof fn law_numeral_denotes(n: int)
    ensures
        denotes(int_text(n), n),
{
    let m = if n < 0 {
        -n
    } else {
        n
    };
    law_numeral_round_trip(m as nat);
    lemma_no_leading_zero(m as nat);
    assert(forall|i: int|
        0 <= i < nat_text(m as nat).len() ==> is_digit(#[trigger] nat_text(m as nat)[i]));
    if n < 0 {
        assert(int_text(n).skip(1) =~= nat_text(m as nat));
    }
}

/// Behind the minus sign of a negative integer, and nowhere else, the numeral
/// is a run of digits that has the integer's magnitude for its value and does
/// not begin with a zero, unless it is zero itself.
pub proof fn law_signed_numeral_round_trip(n: int)
    ensures
        n >= 0 ==> digits_value(int_text(n)) == n,
        n < 0 ==> int_text(n)[0] == '-' && digits_value(int_text(n).skip(1)) == -n,
        n > 0 ==> '1' <= int_text(n)[0] <= '9',
        n < 0 ==> '1' <= int_text(n)[1] <= '9',
        n == 0 ==> int_text(n) == seq!['0'],
        forall|i: int|
            (if n < 0 {
                1int
            } else {
                0
            }) <= i < int_text(n).len() ==> '0' <= #[trigger] int_text(n)[i] <= '9',
{
    law_numeral_denotes(n);
    if n < 0 {
        let digits = int_text(n).skip(1);
        assert forall|i: int| 1 <= i < int_text(n).len() implies '0' <= #[trigger] int_text(n)[i]
            <= '9' by {
            assert(digits[i - 1] == int_text(n)[i]);
        }
        lemma_no_leading_zero((-n) as nat);
        law_numeral_round_trip((-n) as nat);
        assert(int_text(n)[1] == nat_text((-n) as nat)[0]);
    } else {
        lemma_no_leading_zero(n as nat);
        law_numeral_round_trip(n as nat);
        assert(digit_char(0) == '0');
    }
}

/// A text denotes an integer only if it is that integer's numeral.
pub proof fn law_numeral_is_the_only_one(text: Seq<char>, n: int)
    requires
        denotes(text, n),
    ensures
        text == int_text(n),
{
    if n < 0 {
        lemma_only_numeral(text.skip(1), -n);
        assert(text =~= seq!['-'] + text.skip(1));
    } else {
        lemma_only_numeral(text, n);
    }
}

/// A text denotes one integer at most.
pub proof fn law_denotes_one(text: Seq<char>, a: int, b: int)
    requires
        denotes(text, a),
        denotes(text, b),
    ensures
        a == b,
{
    law_numeral_is_the_only_one(text, a);
    law_numeral_is_the_only_one(text, b);
    law_numerals_differ(a, b);
}

/// An optional text, and each text of a list, is seen as it is.
pub proof fn law_texts_are_seen(text: String, list: Seq<String>, i: int)
    requires
        0 <= i < list.len(),
    ensures
        option_text(Some(text)) == Some(text@),
        option_text(None) is None,
        texts(list).len() == list.len(),
        texts(list)[i] == list[i]@,
{
}

proof fn lemma_no_leading_zero(n: nat)
    ensures
        n > 0 ==> nat_text(n)[0] != '0',
        nat_text(n).len() > 1 ==> n >= 10,
    decreases n,
{
    if n >= 10 {
        lemma_no_leading_zero(n / 10);
        law_numeral_round_trip(n / 10);
        assert(nat_text(n)[0] == nat_text(n / 10)[0]);
    }
}

proof fn lemma_only_numeral(text: Seq<char>, n: int)
    requires
        denotes_nat(text, n),
    ensures
        text == nat_text(n as nat),
        text[0] != '0' ==> n > 0,
    decreases text.len(),
{
    let less = text.drop_last();
    let d = text.last() as int - '0' as int;
    assert('0' <= text[text.len() - 1] <= '9');
    if less.len() == 0 {
        assert(digits_value(less) == 0);
        assert(text =~= seq![text.last()]);
        assert(digit_char(n as nat) == text.last());
    } else {
        let m = digits_value(less) as int;
        assert(less[0] == text[0]);
        assert(forall|i: int| 0 <= i < less.len() ==> '0' <= #[trigger] text[i] <= '9');
        lemma_only_numeral(less, m);
        assert(n == m * 10 + d);
        assert(n / 10 == m && n % 10 == d);
        assert(digit_char(d as nat) == text.last());
        assert(text =~= less.push(text.last()));
    }
}

/// Different integers have different numerals.
pub proof fn law_numerals_differ(a: int, b: int)
    requires
        int_text(a) == int_text(b),
    ensures
        a == b,
{
    let (m, n) = (
        if a < 0 {
            -a
        } else {
            a
        },
        if b < 0 {
            -b
        } else {
            b
        },
    );
    law_numeral_round_trip(m as nat);
    law_numeral_round_trip(n as nat);
    if a < 0 {
        assert(int_text(a)[0] == '-');
        assert(int_text(a).skip(1) =~= nat_text(m as nat));
    } else {
        assert(is_digit(int_text(a)[0]));
    }
    if b < 0 {
        assert(int_text(b)[0] == '-');
        assert(int_text(b).skip(1) =~= nat_text(n as nat));
    } else {
        assert(is_digit(int_text(b)[0]));
    }
}

} // verus!
