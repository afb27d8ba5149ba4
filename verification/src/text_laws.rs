//! What the text functions give, in terms of the characters that they are given.

use vstd::prelude::*;

use crate::text;
use crate::wide;

verus! {

/// The white space is the tab, the line feed and the three controls after it, the
/// blank, the next-line control and the blanks of Unicode; no other character is.
pub proof fn blanks_are_the_unicode_ones(c: char)
    ensures
        text::is_space(c) <==> {
            ||| '\t' <= c <= '\r'
            ||| c == ' '
            ||| c == '\u{85}'
            ||| c == '\u{A0}'
            ||| c == '\u{1680}'
            ||| '\u{2000}' <= c <= '\u{200A}'
            ||| c == '\u{2028}'
            ||| c == '\u{2029}'
            ||| c == '\u{202F}'
            ||| c == '\u{205F}'
            ||| c == '\u{3000}'
        },
{
}

/// How many white-space characters stand in front.
pub open spec fn leading(s: Seq<char>) -> int {
    s.len() - text::without_leading_spaces(s).len()
}

/// What is left without the white space in front is the rest from the first other
/// character on.
proof fn leading_spaces_go(s: Seq<char>)
    ensures
        0 <= leading(s) <= s.len(),
        text::without_leading_spaces(s) == s.skip(leading(s)),
        forall|i: int| 0 <= i < leading(s) ==> text::is_space(#[trigger] s[i]),
        leading(s) < s.len() ==> !text::is_space(s[leading(s)]),
    decreases s.len(),
{
    if s.len() > 0 && text::is_space(s[0]) {
        let rest = s.drop_first();
        leading_spaces_go(rest);
        assert(leading(s) == leading(rest) + 1);
        assert forall|i: int| 0 <= i < leading(s) implies text::is_space(#[trigger] s[i]) by {
            if i > 0 {
                assert(rest[i - 1] == s[i]);
            }
        }
        assert(rest.skip(leading(rest)) =~= s.skip(leading(s)));
    } else {
        assert(s.skip(0) =~= s);
    }
}

/// What is left without the white space behind is the front up to the last other
/// character.
proof fn trailing_spaces_go(s: Seq<char>)
    ensures
        text::without_trailing_spaces(s).len() <= s.len(),
        text::without_trailing_spaces(s) == s.take(text::without_trailing_spaces(s).len() as int),
        forall|i: int|
            text::without_trailing_spaces(s).len() <= i < s.len() ==> text::is_space(
                #[trigger] s[i],
            ),
        text::without_trailing_spaces(s).len() > 0 ==> !text::is_space(
            text::without_trailing_spaces(s).last(),
        ),
    decreases s.len(),
{
    if s.len() > 0 && text::is_space(s.last()) {
        let rest = s.drop_last();
        trailing_spaces_go(rest);
        let n = text::without_trailing_spaces(rest).len() as int;
        assert(rest.take(n) =~= s.take(n));
        assert forall|i: int| n <= i < s.len() implies text::is_space(#[trigger] s[i]) by {
            if i < rest.len() {
                assert(rest[i] == s[i]);
            }
        }
    } else {
        assert(s.take(s.len() as int) =~= s);
    }
}

/// A trimmed text is a part of the text that neither begins nor ends with white
/// space, and nothing but white space lies outside it.
pub proof fn trimming_takes_the_white_space_around(s: &str, r: &str)
    requires
        call_ensures(text::trim, (s,), r),
    ensures
        exists|from: int, to: int|
            #![trigger s@.subrange(from, to)]
            0 <= from <= to <= s@.len() && r@ == s@.subrange(from, to) && (forall|i: int|
                0 <= i < s@.len() && !(from <= i < to) ==> text::is_space(#[trigger] s@[i])),
        r@.len() > 0 ==> !text::is_space(r@[0]) && !text::is_space(r@.last()),
{
    let front = text::without_leading_spaces(s@);
    leading_spaces_go(s@);
    trailing_spaces_go(front);
    let from = leading(s@);
    let to = from + r@.len();
    assert(r@ =~= s@.subrange(from, to));
    assert forall|i: int| 0 <= i < s@.len() && !(from <= i < to) implies text::is_space(
        #[trigger] s@[i],
    ) by {
        if i >= to {
            assert(front[i - from] == s@[i]);
        }
    }
    if r@.len() > 0 {
        assert(r@[0] == front[0]);
    }
}

/// What is left of a text without one character around it is a part of the text
/// that neither begins nor ends with that character, and nothing else lies outside
/// it. Behind alone, the part starts where the text does.
pub proof fn one_character_is_taken_from_around(s: &str, c: char, r: &str, e: &str)
    requires
        call_ensures(text::trim_char, (s, c), r),
        call_ensures(text::trim_end_char, (s, c), e),
    ensures
        exists|from: int, to: int|
            #![trigger s@.subrange(from, to)]
            0 <= from <= to <= s@.len() && r@ == s@.subrange(from, to) && (forall|i: int|
                0 <= i < s@.len() && !(from <= i < to) ==> #[trigger] s@[i] == c),
        r@.len() > 0 ==> r@[0] != c && r@.last() != c,
        e@.len() <= s@.len(),
        e@ == s@.take(e@.len() as int),
        forall|i: int| e@.len() <= i < s@.len() ==> #[trigger] s@[i] == c,
        e@.len() > 0 ==> e@.last() != c,
{
    let front = text::without_leading(s@, c);
    leading_ones_go(s@, c);
    trailing_ones_go(front, c);
    trailing_ones_go(s@, c);
    let from = s@.len() - front.len();
    let to = from + r@.len();
    assert(r@ =~= s@.subrange(from, to));
    assert forall|i: int| 0 <= i < s@.len() && !(from <= i < to) implies #[trigger] s@[i] == c by {
        if i >= to {
            assert(front[i - from] == s@[i]);
        }
    }
    if r@.len() > 0 {
        assert(r@[0] == front[0]);
    }
}

/// What is left of a text without one character in front starts at the first other
/// character.
pub proof fn leading_ones_go(s: Seq<char>, c: char)
    ensures
        ({
            let r = text::without_leading(s, c);
            let n = s.len() - r.len();
            &&& 0 <= n <= s.len()
            &&& r == s.skip(n)
            &&& forall|i: int| 0 <= i < n ==> #[trigger] s[i] == c
            &&& r.len() > 0 ==> r[0] != c
        }),
    decreases s.len(),
{
    if s.len() > 0 && s[0] == c {
        let rest = s.drop_first();
        leading_ones_go(rest, c);
        let n = s.len() - text::without_leading(s, c).len();
        assert forall|i: int| 0 <= i < n implies #[trigger] s[i] == c by {
            if i > 0 {
                assert(rest[i - 1] == s[i]);
            }
        }
        assert(rest.skip(n - 1) =~= s.skip(n));
    } else {
        assert(s.skip(0) =~= s);
    }
}

/// What is left of a text without one character behind ends with the last other
/// character.
pub proof fn trailing_ones_go(s: Seq<char>, c: char)
    ensures
        ({
            let r = text::without_trailing(s, c);
            &&& r.len() <= s.len()
            &&& r == s.take(r.len() as int)
            &&& forall|i: int| r.len() <= i < s.len() ==> #[trigger] s[i] == c
            &&& r.len() > 0 ==> r.last() != c
        }),
    decreases s.len(),
{
    if s.len() > 0 && s.last() == c {
        let rest = s.drop_last();
        trailing_ones_go(rest, c);
        let n = text::without_trailing(rest, c).len() as int;
        assert(rest.take(n) =~= s.take(n));
        assert forall|i: int| n <= i < s.len() implies #[trigger] s[i] == c by {
            if i < rest.len() {
                assert(rest[i] == s[i]);
            }
        }
    } else {
        assert(s.take(s.len() as int) =~= s);
    }
}

/// The first word of a text is its first run of other characters than white space:
/// only white space lies before it, and white space or the end comes after it.
pub proof fn first_words_end_at_white_space(s: &str, r: Option<&str>)
    requires
        call_ensures(text::first_token, (s,), r),
    ensures
        r is None ==> forall|i: int| 0 <= i < s@.len() ==> text::is_space(#[trigger] s@[i]),
        r matches Some(word) ==> word@.len() > 0 && exists|from: int, to: int|
            #![trigger s@.subrange(from, to)]
            0 <= from < to <= s@.len() && word@ == s@.subrange(from, to) && (forall|i: int|
                0 <= i < from ==> text::is_space(#[trigger] s@[i])) && (forall|i: int|
                from <= i < to ==> !text::is_space(#[trigger] s@[i])) && (to < s@.len()
                ==> text::is_space(s@[to])),
{
    let front = text::without_leading_spaces(s@);
    leading_spaces_go(s@);
    word_ends_at_space(front);
    let from = leading(s@);
    let word = text::first_word(s@);
    if word.len() > 0 {
        let to = from + word.len();
        assert(word =~= s@.subrange(from, to));
        assert forall|i: int| from <= i < to implies !text::is_space(#[trigger] s@[i]) by {
            assert(front[i - from] == s@[i]);
        }
        if to < s@.len() {
            assert(front[to - from] == s@[to]);
        }
    } else if front.len() > 0 {
        assert(front[0] == s@[from]);
    }
}

proof fn word_ends_at_space(s: Seq<char>)
    ensures
        ({
            let w = text::before_space(s);
            &&& w.len() <= s.len()
            &&& w == s.take(w.len() as int)
            &&& forall|i: int| 0 <= i < w.len() ==> !text::is_space(#[trigger] s[i])
            &&& w.len() < s.len() ==> text::is_space(s[w.len() as int])
        }),
    decreases s.len(),
{
    if s.len() > 0 && !text::is_space(s[0]) {
        let rest = s.drop_first();
        word_ends_at_space(rest);
        let w = text::before_space(s);
        let sub = text::before_space(rest);
        assert(w =~= s.take(w.len() as int));
        assert forall|i: int| 0 <= i < w.len() implies !text::is_space(#[trigger] s[i]) by {
            if i > 0 {
                assert(rest[i - 1] == s[i]);
            }
        }
        if w.len() < s.len() {
            assert(rest[sub.len() as int] == s[w.len() as int]);
        }
    } else {
        assert(s.take(0) =~= seq![]);
    }
}

/// The texts joined with a character between each two.
pub open spec fn joined(parts: Seq<Seq<char>>, c: char) -> Seq<char>
    decreases parts.len(),
{
    if parts.len() == 0 {
        seq![]
    } else if parts.len() == 1 {
        parts[0]
    } else {
        parts[0] + seq![c] + joined(parts.drop_first(), c)
    }
}

/// A text is split at each place where the character stands: there is at least one
/// piece, no piece holds the character, and the pieces joined with it give the text
/// back.
pub proof fn pieces_join_to_the_text(s: Seq<char>, c: char, i: int)
    ensures
        ({
            let p = text::pieces(s, c);
            &&& p.len() > 0
            &&& joined(p, c) == s
            &&& 0 <= i < p.len() ==> !p[i].contains(c)
        }),
    decreases s.len(),
{
    let at = text::first_index(s, c);
    text::first_index_is_first(s, c);
    let p = text::pieces(s, c);
    if at < s.len() {
        let rest = s.skip(at + 1);
        pieces_join_to_the_text(rest, c, i - 1);
        assert(p.drop_first() =~= text::pieces(rest, c));
        assert(s =~= s.take(at) + seq![c] + rest);
        if i == 0 && p[0].contains(c) {
            let k = choose|k: int| 0 <= k < p[0].len() && p[0][k] == c;
            assert(s[k] == c);
        }
    } else {
        if p[0].contains(c) {
            let k = choose|k: int| 0 <= k < p[0].len() && p[0][k] == c;
            assert(s[k] == c);
        }
    }
}

/// A text is split once at the first place where the character stands: what lies
/// before does not hold it, and the two parts with the character between them give
/// the text back. It is not split where the character does not stand in it.
pub proof fn texts_are_split_at_the_first_place(s: &str, c: char, r: Option<(&str, &str)>)
    requires
        call_ensures(text::split_once, (s, c), r),
    ensures
        r is Some <==> s@.contains(c),
        r matches Some((before, after)) ==> !before@.contains(c) && s@ == before@ + seq![c] + after@,
{
    let at = text::first_index(s@, c);
    text::first_index_is_first(s@, c);
    if s@.contains(c) {
        let k = choose|k: int| 0 <= k < s@.len() && s@[k] == c;
        assert(k >= at);
    }
    if at < s@.len() {
        assert(s@[at] == c);
        assert(s@ =~= s@.take(at) + seq![c] + s@.skip(at + 1));
        if s@.take(at).contains(c) {
            let k = choose|k: int| 0 <= k < at && s@.take(at)[k] == c;
            assert(s@[k] == c);
        }
    }
}

/// Two texts are the same but for case just where they have the same length and
/// each two characters are equal once the letters from A to Z are made small.
pub proof fn case_is_ignored_in_plain_letters(a: &str, b: &str, r: bool, i: int)
    requires
        call_ensures(text::same_but_for_case, (a, b), r),
    ensures
        a@ == b@ ==> r,
        r ==> a@.len() == b@.len(),
        r && 0 <= i < a@.len() ==> {
            let x = a@[i] as u32;
            let y = b@[i] as u32;
            ||| x == y
            ||| (65 <= x <= 90 && y == x + 32)
            ||| (65 <= y <= 90 && x == y + 32)
        },
        a@.len() == b@.len() && (forall|k: int|
            0 <= k < a@.len() ==> (#[trigger] a@[k]) as u32 == b@[k] as u32 || (65 <= a@[k] as u32
                <= 90 && b@[k] as u32 == a@[k] as u32 + 32) || (65 <= b@[k] as u32 <= 90 && a@[k] as u32
                == b@[k] as u32 + 32)) ==> r,
{
    if r && 0 <= i < a@.len() {
        assert(text::ascii_lower(a@[i]) == text::ascii_lower(b@[i]));
    }
}

/// A text holds another but for case just where some part of it is the same but for
/// case.
pub proof fn parts_are_found_whatever_their_case(s: &str, part: &str, r: bool, i: int)
    requires
        call_ensures(text::contains_but_for_case, (s, part), r),
    ensures
        0 <= i <= s@.len() - part@.len() && text::same_ignoring_case(
            s@.subrange(i, i + part@.len()),
            part@,
        ) ==> r,
        r ==> exists|k: int|
            0 <= k <= s@.len() - part@.len() && text::same_ignoring_case(
                #[trigger] s@.subrange(k, k + part@.len()),
                part@,
            ),
{
}

/// A number's text has only digits and no zero in front, and its digits have the
/// number's value: the last counts one, each before it ten times the next.
pub proof fn decimals_are_shortest(n: nat)
    ensures
        ({
            let d = text::decimal(n);
            &&& d.len() > 0
            &&& d.last() as u32 == 48 + n % 10
            &&& n >= 10 ==> d.drop_last() == text::decimal(n / 10)
            &&& n < 10 ==> d.len() == 1
            &&& n > 0 ==> d[0] != '0'
        }),
    decreases n,
{
    if n >= 10 {
        decimals_are_shortest(n / 10);
        assert(text::decimal(n).drop_last() =~= text::decimal(n / 10));
        assert(text::decimal(n)[0] == text::decimal(n / 10)[0]);
    }
}

/// A word is a number just where it is digits, with a plus in front or without, and
/// its value fits; one that may be negative may have a minus in front instead.
pub proof fn numbers_are_digits(s: &str, u: Option<u32>, n: Option<i32>)
    requires
        call_ensures(text::parse_u32, (s,), u),
        call_ensures(text::parse_i32, (s,), n),
    ensures
        ({
            let plus = s@.len() > 0 && s@[0] == '+';
            let minus = s@.len() > 0 && s@[0] == '-';
            let rest = s@.skip(1);
            let digits = if plus {
                rest
            } else {
                s@
            };
            let plain = text::all_digits(digits);
            let negative = minus && text::all_digits(rest);
            &&& u is Some <==> plain && text::digits_value(digits) <= u32::MAX
            &&& u matches Some(x) ==> x == text::digits_value(digits)
            &&& n is Some <==> (plain && text::digits_value(digits) <= i32::MAX) || (negative
                && text::digits_value(rest) <= 0x8000_0000)
            &&& plain && n is Some ==> n->0 == text::digits_value(digits)
            &&& negative && n is Some ==> n->0 == -text::digits_value(rest)
        }),
{
    let rest = s@.skip(1);
    assert(s@.len() > 0 ==> s@.drop_first() =~= rest);
    let plus = s@.len() > 0 && s@[0] == '+';
    let digits = if plus {
        rest
    } else {
        s@
    };
    assert(text::unsigned_part(s@, '+') == digits);
    if s@.len() > 0 && s@[0] == '-' {
        assert(!text::is_digit(digits[0]));
    }
}

/// Digits are the characters from zero to nine, and there is at least one.
pub proof fn digits_are_zero_to_nine(s: Seq<char>, i: int)
    ensures
        text::all_digits(s) ==> s.len() > 0,
        text::all_digits(s) && 0 <= i < s.len() ==> '0' <= s[i] <= '9',
        s.len() > 0 && (forall|k: int| 0 <= k < s.len() ==> '0' <= #[trigger] s[k] <= '9')
            ==> text::all_digits(s),
{
    if text::all_digits(s) && 0 <= i < s.len() {
        assert(text::is_digit(s[i]));
    }
}

/// The value of digits is that of all but the last ten times, and the last.
pub proof fn digits_count_by_place(s: Seq<char>, c: char)
    requires
        '0' <= c <= '9',
    ensures
        text::digits_value(seq![]) == 0,
        text::digits_value(s.push(c)) == 10 * text::digits_value(s) + (c as u32 - 48),
{
    assert(s.push(c).drop_last() =~= s);
}

/// A character below the surrogates is one unit, any other two: the high half of
/// what it has over sixty-five thousand five hundred and thirty-six, and the low.
pub proof fn wide_characters_are_one_or_two_units(c: char)
    ensures
        ({
            let n = c as u32;
            let u = wide::char_units(c);
            &&& n < 0x1_0000 ==> u.len() == 1 && u[0] == n
            &&& n >= 0x1_0000 ==> u.len() == 2 && 0xD800 <= u[0] <= 0xDBFF && 0xDC00 <= u[1]
                <= 0xDFFF && n == 0x1_0000 + (u[0] - 0xD800) * 0x400 + (u[1] - 0xDC00)
        }),
{
}

/// A text in units has those of each of its characters in turn; for the system it
/// ends with a zero.
pub proof fn wide_texts_are_their_characters(s: Seq<char>, c: char)
    ensures
        wide::units(seq![]).len() == 0,
        wide::units(s.push(c)) == wide::units(s) + wide::char_units(c),
        wide::units_null(s) == wide::units(s) + seq![0u16],
{
    assert(s.push(c).drop_last() =~= s);
    assert(wide::units_null(s) =~= wide::units(s) + seq![0u16]);
}

/// A system text is read up to its first zero, or up to its end.
pub proof fn system_texts_end_at_zero(v: Seq<u16>, i: int)
    ensures
        ({
            let r = wide::before_zero(v);
            &&& r.len() <= v.len()
            &&& r == v.take(r.len() as int)
            &&& 0 <= i < r.len() ==> r[i] != 0
            &&& r.len() < v.len() ==> v[r.len() as int] == 0
        }),
    decreases v.len(),
{
    if v.len() > 0 && v[0] != 0 {
        let rest = v.drop_first();
        system_texts_end_at_zero(rest, i - 1);
        let r = wide::before_zero(v);
        let sub = wide::before_zero(rest);
        assert(r =~= v.take(r.len() as int));
        if r.len() < v.len() {
            assert(rest[sub.len() as int] == v[r.len() as int]);
        }
    } else {
        assert(v.take(0) =~= seq![]);
    }
}

/// A text is split into its pieces, and a number is written with its digits and with
/// a minus where it is below zero.
pub proof fn texts_are_split_and_numbers_written(
    s: &str,
    c: char,
    parts: Vec<&str>,
    i: int,
    n: u64,
    written: String,
    k: i32,
    signed: String,
)
    requires
        call_ensures(text::split, (s, c), parts),
        call_ensures(text::decimal_text, (n,), written),
        call_ensures(text::signed_decimal_text, (k,), signed),
    ensures
        joined(text::contents(parts@), c) == s@,
        0 <= i < parts@.len() ==> !parts@[i]@.contains(c),
        text::all_digits(written@) && text::digits_value(written@) == n,
        k >= 0 ==> signed@ == text::decimal(k as nat),
        k < 0 ==> signed@ == seq!['-'] + text::decimal((-k) as nat),
{
    pieces_join_to_the_text(s@, c, i);
    text::decimal_reads_back(n as nat);
    if 0 <= i < parts@.len() {
        assert(text::contents(parts@)[i] == parts@[i]@);
    }
}

/// A text for the system is its units and a zero; so many bytes are half as many
/// units, rounded up.
pub proof fn system_texts_are_units_and_a_zero(value: &str, r: Vec<u16>, byte_len: u32, n: u32)
    requires
        call_ensures(wide::wide_null, (value,), r),
        call_ensures(wide::units_for, (byte_len,), n),
    ensures
        r@.last() == 0,
        r@.drop_last() == wide::units(value@),
        byte_len <= 2 * n <= byte_len + 1,
{
    assert(r@.drop_last() =~= wide::units(value@));
}

} // verus!
