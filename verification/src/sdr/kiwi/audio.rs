//! The text message in which a receiver announces its audio parameters.

use vstd::prelude::*;

use crate::outside::{capture_groups, captured_groups, group_texts};
use crate::text::{
    all_digits, capped_number, digits_value, is_digit, law_numeral_round_trip, nat_text,
    starts_with,
};

verus! {

/// The pattern that the announcement of the audio parameters matches. Its
/// groups are the number behind `audio_init`, the one behind `audio_rate` and
/// the one behind `sample_rate`.
pub const AUDIO_INIT_PATTERN: &'static str =
    "audio_init=(\\d+)\\s+audio_rate=(\\d+)\\s+sample_rate=([\\d.]+)";

/// Why an announcement cannot be read.
#[derive(Debug, Clone, Copy, PartialEq, Eq, Structural)]
pub enum AudioInitError {
    /// The text does not hold the three parameters.
    NoMatch,
    /// The `audio_init` number is not in ASCII digits or exceeds an `i16`.
    BadAudioInit,
    /// The `audio_rate` number is not in ASCII digits.
    BadAudioRate,
    /// The `sample_rate` number is no decimal fraction in ASCII digits.
    BadSampleRate,
}

/// The announcement of the audio parameters, from its numbers and the gaps
/// between them.
pub open spec fn announcement(
    audio_init: Seq<char>,
    first_gap: Seq<char>,
    audio_rate: Seq<char>,
    second_gap: Seq<char>,
    sample_rate: Seq<char>,
) -> Seq<char> {
    "audio_init="@ + audio_init + first_gap + "audio_rate="@ + audio_rate + second_gap
        + "sample_rate="@ + sample_rate
}

/// Whether an announcement of the three numbers stands somewhere in a text.
pub open spec fn announces(
    text: Seq<char>,
    audio_init: Seq<char>,
    audio_rate: Seq<char>,
    sample_rate: Seq<char>,
) -> bool {
    exists|before: Seq<char>, first_gap: Seq<char>, second_gap: Seq<char>, after: Seq<char>|
        text == #[trigger] (before + announcement(
            audio_init,
            first_gap,
            audio_rate,
            second_gap,
            sample_rate,
        ) + after)
}

/// Whether a text is a nonempty run of spaces.
pub open spec fn is_gap(text: Seq<char>) -> bool {
    &&& text.len() > 0
    &&& forall|i: int| 0 <= i < text.len() ==> #[trigger] text[i] == ' '
}

/// Whether a text is a nonempty run of ASCII digits.
pub open spec fn is_number(text: Seq<char>) -> bool {
    text.len() > 0 && all_digits(text)
}

/// Whether a text is a nonempty run of ASCII digits and points.
pub open spec fn is_pointed_number(text: Seq<char>) -> bool {
    &&& text.len() > 0
    &&& forall|i: int|
        0 <= i < text.len() ==> (#[trigger] text[i] == '.' || '0' <= text[i] <= '9')
}

/// Whether a text is a decimal fraction: ASCII digits, at least one, with at
/// most one point.
pub open spec fn is_fraction(text: Seq<char>) -> bool {
    &&& forall|i: int| 0 <= i < text.len() ==> (#[trigger] text[i] == '.' || is_digit(text[i]))
    &&& exists|i: int| 0 <= i < text.len() && is_digit(#[trigger] text[i])
    &&& forall|i: int, j: int|
        0 <= i < j < text.len() ==> !(#[trigger] text[i] == '.' && #[trigger] text[j] == '.')
}

/// The rate in samples per second that an `audio_rate` number stands for: the
/// number itself, as far as a `u32` can hold it.
pub open spec fn rate_of(audio_rate: Seq<char>) -> u32 {
    if digits_value(audio_rate) < u32::MAX {
        digits_value(audio_rate) as u32
    } else {
        u32::MAX
    }
}

/// The rate that the three numbers of an announcement give. Each number has
/// to be well-formed, though only `audio_rate` counts.
pub open spec fn announced_rate(groups: Option<(Seq<char>, Seq<char>, Seq<char>)>) -> Result<
    u32,
    AudioInitError,
> {
    match groups {
        None => Err(AudioInitError::NoMatch),
        Some((init, rate, sample)) => {
            if !is_number(init) || digits_value(init) > i16::MAX {
                Err(AudioInitError::BadAudioInit)
            } else if !is_number(rate) {
                Err(AudioInitError::BadAudioRate)
            } else if !is_fraction(sample) {
                Err(AudioInitError::BadSampleRate)
            } else {
                Ok(rate_of(rate))
            }
        },
    }
}

/// Whether a rate is the value of a run of digits, or the greatest rate where
/// the value exceeds that.
pub open spec fn is_capped_value(rate: u32, digits: Seq<char>) -> bool {
    &&& digits_value(digits) <= u32::MAX ==> rate == digits_value(digits)
    &&& digits_value(digits) > u32::MAX ==> rate == u32::MAX
}

/// Whether a text is an announcement: it begins with `audio_init`.
pub open spec fn is_announcement(text: Seq<char>) -> bool {
    "audio_init"@.is_prefix_of(text)
}

/// The rate that the text of an announcement gives.
pub open spec fn rate_in(text: Seq<char>) -> Result<u32, AudioInitError> {
    announced_rate(captured_groups(AUDIO_INIT_PATTERN@, text))
}

/// Whether the parts of an announcement are well-formed: numbers in ASCII
/// digits that fit, with spaces between them.
pub open spec fn is_well_formed(
    init: Seq<char>,
    first_gap: Seq<char>,
    digits: Seq<char>,
    second_gap: Seq<char>,
    sample: Seq<char>,
) -> bool {
    &&& is_number(init)
    &&& digits_value(init) <= i16::MAX
    &&& is_gap(first_gap)
    &&& is_number(digits)
    &&& is_gap(second_gap)
    &&& is_fraction(sample)
}

/// An announcement begins as one.
pub proof fn lemma_announcement_is_one(
    init: Seq<char>,
    first_gap: Seq<char>,
    digits: Seq<char>,
    second_gap: Seq<char>,
    sample: Seq<char>,
)
    ensures
        is_announcement(announcement(init, first_gap, digits, second_gap, sample)),
{
    reveal_strlit("audio_init");
    reveal_strlit("audio_init=");
    let text = announcement(init, first_gap, digits, second_gap, sample);
    let word = "audio_init"@;
    assert forall|i: int| 0 <= i < word.len() implies word[i] == text[i] by {
        assert(text[i] == "audio_init="@[i]);
        assert("audio_init="@[i] == word[i]);
    }
    assert(word =~= text.subrange(0, word.len() as int));
}

/// An announcement is told by its first ten characters.
pub proof fn law_announcement_is_told_by_its_word(text: Seq<char>)
    ensures
        is_announcement(text) <==> text.len() >= 10 && text.take(10) == "audio_init"@,
{
    reveal_strlit("audio_init");
    if text.len() >= 10 {
        assert(text.take(10) =~= text.subrange(0, 10));
    }
}

/// Each number of an announcement stands behind its name and an equals sign,
/// with the gaps between the three.
pub proof fn law_announcement_layout(
    init: Seq<char>,
    first_gap: Seq<char>,
    digits: Seq<char>,
    second_gap: Seq<char>,
    sample: Seq<char>,
)
    ensures
        ({
            let text = announcement(init, first_gap, digits, second_gap, sample);
            let a = 11 + init.len() as int;
            let b = a + first_gap.len();
            let c = b + 11 + digits.len();
            let d = c + second_gap.len();
            &&& text.len() == d + 12 + sample.len()
            &&& text.take(11) == "audio_init="@
            &&& text.subrange(11, a) == init
            &&& text.subrange(a, b) == first_gap
            &&& text.subrange(b, b + 11) == "audio_rate="@
            &&& text.subrange(b + 11, c) == digits
            &&& text.subrange(c, d) == second_gap
            &&& text.subrange(d, d + 12) == "sample_rate="@
            &&& text.skip(d + 12) == sample
        }),
{
    reveal_strlit("audio_init=");
    reveal_strlit("audio_rate=");
    reveal_strlit("sample_rate=");
    let text = announcement(init, first_gap, digits, second_gap, sample);
    let a = 11 + init.len() as int;
    let b = a + first_gap.len();
    let c = b + 11 + digits.len();
    let d = c + second_gap.len();
    assert(text.take(11) =~= "audio_init="@);
    assert(text.subrange(11, a) =~= init);
    assert(text.subrange(a, b) =~= first_gap);
    assert(text.subrange(b, b + 11) =~= "audio_rate="@);
    assert(text.subrange(b + 11, c) =~= digits);
    assert(text.subrange(c, d) =~= second_gap);
    assert(text.subrange(d, d + 12) =~= "sample_rate="@);
    assert(text.skip(d + 12) =~= sample);
}

/// A receiver that announces a rate by its numeral gets that very rate, as far
/// as it can be held, whatever the two other numbers are as long as they are
/// well-formed.
pub proof fn law_announced_rate_is_the_number(init: nat, rate: nat, whole: nat, part: nat)
    ensures
        ({
            let sample = nat_text(whole) + seq!['.'] + nat_text(part);
            let result = announced_rate(Some((nat_text(init), nat_text(rate), sample)));
            &&& init <= i16::MAX && rate <= u32::MAX ==> result is Ok && result->Ok_0 == rate
            &&& init <= i16::MAX && rate > u32::MAX ==> result is Ok && result->Ok_0 == u32::MAX
            &&& init > i16::MAX ==> result == Err::<u32, AudioInitError>(
                AudioInitError::BadAudioInit,
            )
        }),
{
    law_numeral_round_trip(init);
    law_numeral_round_trip(rate);
    law_numeral_round_trip(whole);
    law_numeral_round_trip(part);
    let sample = nat_text(whole) + seq!['.'] + nat_text(part);
    law_fraction_is_digits_around_a_point(sample, nat_text(whole), nat_text(part));
}

/// Which numbers an announcement may hold, and which of them is to blame where
/// it cannot be read: the first, in their order.
pub proof fn law_blame_falls_on_the_first(init: Seq<char>, rate: Seq<char>, sample: Seq<char>)
    ensures
        ({
            let result = announced_rate(Some((init, rate, sample)));
            let good_init = init.len() > 0 && (forall|i: int|
                0 <= i < init.len() ==> '0' <= #[trigger] init[i] <= '9') && digits_value(init)
                <= 32767;
            let good_rate = rate.len() > 0 && forall|i: int|
                0 <= i < rate.len() ==> '0' <= #[trigger] rate[i] <= '9';
            &&& result == Err::<u32, AudioInitError>(AudioInitError::BadAudioInit) <==> !good_init
            &&& result == Err::<u32, AudioInitError>(AudioInitError::BadAudioRate) <==> good_init
                && !good_rate
            &&& result == Err::<u32, AudioInitError>(AudioInitError::BadSampleRate) <==> good_init
                && good_rate && !is_fraction(sample)
            &&& result is Ok <==> good_init && good_rate && is_fraction(sample)
            &&& result is Ok && digits_value(rate) <= u32::MAX ==> result->Ok_0 == digits_value(
                rate,
            )
            &&& result is Ok && digits_value(rate) > u32::MAX ==> result->Ok_0 == u32::MAX
            &&& announced_rate(None) == Err::<u32, AudioInitError>(AudioInitError::NoMatch)
        }),
{
    assert(all_digits(init) <==> forall|i: int|
        0 <= i < init.len() ==> '0' <= #[trigger] init[i] <= '9');
    assert(all_digits(rate) <==> forall|i: int|
        0 <= i < rate.len() ==> '0' <= #[trigger] rate[i] <= '9');
}

/// A fraction is a run of digits, or two with a point between them of which
/// one may be empty, and nothing else.
pub proof fn law_fraction_is_digits_around_a_point(
    text: Seq<char>,
    whole: Seq<char>,
    part: Seq<char>,
)
    ensures
        all_digits(whole) && all_digits(part) && whole.len() + part.len() > 0 ==> is_fraction(
            whole + seq!['.'] + part,
        ),
        all_digits(whole) && whole.len() > 0 ==> is_fraction(whole),
        is_fraction(text) ==> text.len() > 0 && (all_digits(text) || exists|point: int|
            {
                &&& 0 <= point < text.len()
                &&& #[trigger] text[point] == '.'
                &&& text.len() > 1
                &&& all_digits(text.take(point))
                &&& all_digits(text.skip(point + 1))
            }),
{
    if all_digits(whole) && all_digits(part) && whole.len() + part.len() > 0 {
        let joined = whole + seq!['.'] + part;
        assert forall|i: int| 0 <= i < joined.len() && i != whole.len() implies is_digit(
            #[trigger] joined[i],
        ) by {
            if i < whole.len() {
                assert(joined[i] == whole[i]);
            } else {
                assert(joined[i] == part[i - whole.len() - 1]);
            }
        }
        if whole.len() > 0 {
            assert(is_digit(joined[0]));
        } else {
            assert(is_digit(joined[1]));
        }
    }
    if all_digits(whole) && whole.len() > 0 {
        assert(is_digit(whole[0]));
    }
    if is_fraction(text) && !all_digits(text) {
        let point = choose|i: int| 0 <= i < text.len() && !is_digit(#[trigger] text[i]);
        assert(text[point] == '.');
        assert forall|i: int| 0 <= i < text.len() && i != point implies is_digit(
            #[trigger] text[i],
        ) by {
            if i < point {
                assert(!(text[i] == '.' && text[point] == '.'));
            } else {
                assert(!(text[point] == '.' && text[i] == '.'));
            }
        }
        assert forall|i: int| 0 <= i < point implies is_digit(#[trigger] text.take(point)[i]) by {
            assert(text.take(point)[i] == text[i]);
        }
        assert forall|i: int| 0 <= i < text.len() - point - 1 implies is_digit(
            #[trigger] text.skip(point + 1)[i],
        ) by {
            assert(text.skip(point + 1)[i] == text[point + 1 + i]);
        }
    }
}

/// The announcement that a receiver makes of three numbers, with any number of
/// spaces between them, is well-formed if the first fits in sixteen bits with a
/// sign.
pub proof fn law_ordinary_announcement_is_well_formed(
    init: nat,
    first: nat,
    rate: nat,
    second: nat,
    whole: nat,
    part: nat,
)
    requires
        first > 0,
        second > 0,
    ensures
        is_well_formed(
            nat_text(init),
            Seq::new(first, |i: int| ' '),
            nat_text(rate),
            Seq::new(second, |i: int| ' '),
            nat_text(whole) + seq!['.'] + nat_text(part),
        ) <==> init <= 32767,
{
    law_numeral_round_trip(init);
    law_numeral_round_trip(rate);
    law_numeral_round_trip(whole);
    law_numeral_round_trip(part);
    law_fraction_is_digits_around_a_point(
        nat_text(whole) + seq!['.'] + nat_text(part),
        nat_text(whole),
        nat_text(part),
    );
}

fn fraction(text: &str) -> (ok: bool)
    ensures
        ok == is_fraction(text@),
{
    let mut digits = false;
    let mut points = false;
    for c in iter: text.chars()
        invariant
            iter.seq() == text@,
            forall|i: int|
                0 <= i < iter.index() ==> (#[trigger] text@[i] == '.' || is_digit(text@[i])),
            digits == (exists|i: int| 0 <= i < iter.index() && is_digit(#[trigger] text@[i])),
            points == (exists|i: int| 0 <= i < iter.index() && #[trigger] text@[i] == '.'),
            forall|i: int, j: int|
                0 <= i < j < iter.index() ==> !(#[trigger] text@[i] == '.' && #[trigger] text@[j]
                    == '.'),
    {
        let ghost k = iter.index();
        assert(c == text@[k]);
        if c == '.' {
            if points {
                return false;
            }
            points = true;
        } else if '0' <= c && c <= '9' {
            digits = true;
        } else {
            return false;
        }
    }
    digits
}

/// Whether a text message announces the audio parameters.
pub fn announces_audio(text: &str) -> (yes: bool)
    ensures
        yes == is_announcement(text@),
        yes == "audio_init"@.is_prefix_of(text@),
{
    starts_with(text, "audio_init")
}

/// The rate that the three numbers of an announcement give.
pub fn rate_from_groups(groups: &Option<(String, String, String)>) -> (rate: Result<
    u32,
    AudioInitError,
>)
    ensures
        rate == announced_rate(group_texts(*groups)),
        groups is None <==> rate == Err::<u32, AudioInitError>(AudioInitError::NoMatch),
        rate matches Ok(r) ==> is_capped_value(r, groups->Some_0.1@),
{
    match groups {
        None => Err(AudioInitError::NoMatch),
        Some(g) => {
            match capped_number(g.0.as_str(), 0x8000) {
                None => {
                    return Err(AudioInitError::BadAudioInit);
                },
                Some(n) => {
                    if n > 0x7fff {
                        return Err(AudioInitError::BadAudioInit);
                    }
                },
            }
            match capped_number(g.1.as_str(), u32::MAX) {
                None => Err(AudioInitError::BadAudioRate),
                Some(rate) => {
                    if fraction(g.2.as_str()) {
                        Ok(rate)
                    } else {
                        Err(AudioInitError::BadSampleRate)
                    }
                },
            }
        },
    }
}

/// Reads the rate out of the text of an announcement. A rate that comes out
/// stands behind `audio_rate=` in the text, and an announcement in ASCII whose
/// numbers are well-formed gives its rate.
pub fn parse_audio_init(text: &str) -> (rate: Result<u32, AudioInitError>)
    ensures
        rate == rate_in(text@),
        rate matches Ok(r) ==> exists|init: Seq<char>, digits: Seq<char>, sample: Seq<char>|
            #[trigger] announces(text@, init, digits, sample) && is_number(digits) && r == rate_of(
                digits,
            ) && is_capped_value(r, digits),
        forall|
            init: Seq<char>,
            first_gap: Seq<char>,
            digits: Seq<char>,
            second_gap: Seq<char>,
            sample: Seq<char>,
        |
            text@ == #[trigger] announcement(init, first_gap, digits, second_gap, sample)
                && is_well_formed(init, first_gap, digits, second_gap, sample) ==> rate == Ok::<
                u32,
                AudioInitError,
            >(rate_of(digits)) && is_capped_value(rate->Ok_0, digits),
{
    let groups = capture_groups(AUDIO_INIT_PATTERN, text);
    let rate = rate_from_groups(&groups);
    proof {
        assert forall|
            init: Seq<char>,
            first_gap: Seq<char>,
            digits: Seq<char>,
            second_gap: Seq<char>,
            sample: Seq<char>,
        |
            text@ == #[trigger] announcement(init, first_gap, digits, second_gap, sample)
                && is_well_formed(
                init,
                first_gap,
                digits,
                second_gap,
                sample,
            ) implies rate == Ok::<u32, AudioInitError>(rate_of(digits)) by {
            assert(is_pointed_number(sample));
            assert(group_texts(groups) == Some((init, digits, sample)));
        }
    }
    rate
}

} // verus!
