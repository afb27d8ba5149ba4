//! Text as sequences of characters: comparing, trimming, splitting, and decimal
//! numbers.

use vstd::prelude::*;

verus! {

/// Whether `c` is a space character.
pub open spec fn is_space(c: char) -> bool {
    let n = c as u32;
    ||| 0x09 <= n <= 0x0D
    ||| n == 0x20
    ||| n == 0x85
    ||| n == 0xA0
    ||| n == 0x1680
    ||| 0x2000 <= n <= 0x200A
    ||| n == 0x2028
    ||| n == 0x2029
    ||| n == 0x202F
    ||| n == 0x205F
    ||| n == 0x3000
}

/// `s` without the spaces at its start.
pub open spec fn without_leading_spaces(s: Seq<char>) -> Seq<char>
    decreases s.len(),
{
    if s.len() > 0 && is_space(s[0]) {
        without_leading_spaces(s.drop_first())
    } else {
        s
    }
}

/// `s` without the spaces at its end.
pub open spec fn without_trailing_spaces(s: Seq<char>) -> Seq<char>
    decreases s.len(),
{
    if s.len() > 0 && is_space(s.last()) {
        without_trailing_spaces(s.drop_last())
    } else {
        s
    }
}

/// `s` without the spaces around it.
pub open spec fn trimmed(s: Seq<char>) -> Seq<char> {
    without_trailing_spaces(without_leading_spaces(s))
}

/// `s` without the characters `c` at its start.
pub open spec fn without_leading(s: Seq<char>, c: char) -> Seq<char>
    decreases s.len(),
{
    if s.len() > 0 && s[0] == c {
        without_leading(s.drop_first(), c)
    } else {
        s
    }
}

/// `s` without the characters `c` at its end.
pub open spec fn without_trailing(s: Seq<char>, c: char) -> Seq<char>
    decreases s.len(),
{
    if s.len() > 0 && s.last() == c {
        without_trailing(s.drop_last(), c)
    } else {
        s
    }
}

/// The characters of `s` before the first space.
pub open spec fn before_space(s: Seq<char>) -> Seq<char>
    decreases s.len(),
{
    if s.len() == 0 || is_space(s[0]) {
        seq![]
    } else {
        seq![s[0]] + before_space(s.drop_first())
    }
}

/// The first word of `s`: empty where `s` holds nothing but spaces.
pub open spec fn first_word(s: Seq<char>) -> Seq<char> {
    before_space(without_leading_spaces(s))
}

/// Whether `part` stands somewhere in `s`, up to the case of ASCII letters.
pub open spec fn contains_ignoring_case(s: Seq<char>, part: Seq<char>) -> bool {
    exists|i: int|
        0 <= i <= s.len() - part.len() && same_ignoring_case(
            #[trigger] s.subrange(i, i + part.len()),
            part,
        )
}

/// The small form of an ASCII letter; any other character itself.
pub open spec fn ascii_lower(c: char) -> char {
    if 'A' <= c <= 'Z' {
        ((c as u32) + 32) as char
    } else {
        c
    }
}

/// Whether `a` and `b` differ at most in the case of ASCII letters.
pub open spec fn same_ignoring_case(a: Seq<char>, b: Seq<char>) -> bool {
    &&& a.len() == b.len()
    &&& forall|i: int| 0 <= i < a.len() ==> ascii_lower(#[trigger] a[i]) == ascii_lower(b[i])
}

/// Where `c` first stands in `s`; the length of `s` where it does not.
pub open spec fn first_index(s: Seq<char>, c: char) -> int
    decreases s.len(),
{
    if s.len() == 0 || s[0] == c {
        0
    } else {
        1 + first_index(s.drop_first(), c)
    }
}

/// The parts of `s` between the characters `c`: always at least one.
pub open spec fn pieces(s: Seq<char>, c: char) -> Seq<Seq<char>>
    decreases s.len(),
{
    let at = first_index(s, c);
    if 0 <= at < s.len() {
        seq![s.take(at)] + pieces(s.skip(at + 1), c)
    } else {
        seq![s]
    }
}

/// What the members of a list of texts hold.
pub open spec fn contents(texts: Seq<&str>) -> Seq<Seq<char>> {
    texts.map_values(|t: &str| t@)
}

/// What the members of a list of owned texts hold.
pub open spec fn string_contents(texts: Seq<String>) -> Seq<Seq<char>> {
    texts.map_values(|t: String| t@)
}

/// Whether `c` is a decimal digit.
pub open spec fn is_digit(c: char) -> bool {
    '0' <= c <= '9'
}

/// The value of a digit.
pub open spec fn digit_value(c: char) -> nat {
    ((c as u32) - 48) as nat
}

/// The digit of a value below ten.
pub open spec fn digit(n: nat) -> char {
    ((n % 10) + 48) as char
}

/// Whether `s` holds digits and nothing else, at least one.
pub open spec fn all_digits(s: Seq<char>) -> bool {
    &&& s.len() > 0
    &&& forall|i: int| 0 <= i < s.len() ==> is_digit(#[trigger] s[i])
}

/// The number that a sequence of digits writes.
pub open spec fn digits_value(s: Seq<char>) -> nat
    decreases s.len(),
{
    if s.len() == 0 {
        0
    } else {
        10 * digits_value(s.drop_last()) + digit_value(s.last())
    }
}

/// The digits of `n`, without leading zeros.
pub open spec fn decimal(n: nat) -> Seq<char>
    decreases n,
{
    if n < 10 {
        seq![digit(n)]
    } else {
        decimal(n / 10).push(digit(n))
    }
}

/// The digits of `n`, after a minus sign where it is negative.
pub open spec fn signed_decimal(n: int) -> Seq<char> {
    if n < 0 {
        seq!['-'] + decimal((-n) as nat)
    } else {
        decimal(n as nat)
    }
}

/// What follows a sign: the whole text, or all but its first character where that
/// is `sign`.
pub open spec fn unsigned_part(s: Seq<char>, sign: char) -> Seq<char> {
    if s.len() > 0 && s[0] == sign {
        s.drop_first()
    } else {
        s
    }
}

/// The 32-bit number that `s` writes: digits, with or without a plus sign.
pub open spec fn u32_value(s: Seq<char>) -> Option<u32> {
    let digits = unsigned_part(s, '+');
    if all_digits(digits) && digits_value(digits) <= u32::MAX {
        Some(digits_value(digits) as u32)
    } else {
        None
    }
}

/// The signed 32-bit number that `s` writes: digits, with or without a sign.
pub open spec fn i32_value(s: Seq<char>) -> Option<i32> {
    if s.len() > 0 && s[0] == '-' {
        let digits = s.drop_first();
        if all_digits(digits) && digits_value(digits) <= 0x8000_0000 {
            Some((-(digits_value(digits) as int)) as i32)
        } else {
            None
        }
    } else {
        let digits = unsigned_part(s, '+');
        if all_digits(digits) && digits_value(digits) <= i32::MAX {
            Some(digits_value(digits) as i32)
        } else {
            None
        }
    }
}

/// The digits of a number are digits, and write that number.
pub proof fn decimal_reads_back(n: nat)
    ensures
        all_digits(decimal(n)),
        digits_value(decimal(n)) == n,
    decreases n,
{
    reveal_with_fuel(digits_value, 2);
    if n < 10 {
        assert(decimal(n).drop_last() =~= seq![]);
    } else {
        decimal_reads_back(n / 10);
        assert(decimal(n).drop_last() =~= decimal(n / 10));
    }
}

/// A 32-bit number written in decimal reads back as it was.
pub proof fn u32_reads_back(n: u32)
    ensures
        u32_value(decimal(n as nat)) == Some(n),
{
    decimal_reads_back(n as nat);
}

/// A signed 32-bit number written in decimal reads back as it was.
pub proof fn i32_reads_back(n: i32)
    ensures
        i32_value(signed_decimal(n as int)) == Some(n),
{
    if n < 0 {
        let m = (-(n as int)) as nat;
        decimal_reads_back(m);
        assert(signed_decimal(n as int).drop_first() =~= decimal(m));
    } else {
        decimal_reads_back(n as nat);
    }
}

/// The characters of `s`.
pub fn chars_of(s: &str) -> (r: Vec<char>)
    ensures
        r@ == s@,
{
    let mut out: Vec<char> = Vec::new();
    for c in it: s.chars()
        invariant
            it.seq() == s@,
            out@ == s@.take(it.index()),
    {
        out.push(c);
        assert(s@.take(it.index() + 1) =~= s@.take(it.index()).push(c));
    }
    assert(s@.take(s@.len() as int) =~= s@);
    out
}

fn space(c: char) -> (r: bool)
    ensures
        r == is_space(c),
{
    let n: u32 = c as u32;
    (0x09 <= n && n <= 0x0D) || n == 0x20 || n == 0x85 || n == 0xA0 || n == 0x1680 || (0x2000 <= n
        && n <= 0x200A) || n == 0x2028 || n == 0x2029 || n == 0x202F || n == 0x205F || n == 0x3000
}

/// `s` without the spaces around it.
pub fn trim<'a>(s: &'a str) -> (r: &'a str)
    ensures
        r@ == trimmed(s@),
{
    let chars = chars_of(s);
    let mut from: usize = 0;
    assert(s@.skip(0) =~= s@);
    while from < chars.len() && space(chars[from])
        invariant
            chars@ == s@,
            from <= chars.len(),
            without_leading_spaces(s@) == without_leading_spaces(s@.skip(from as int)),
        decreases chars.len() - from,
    {
        assert(s@.skip(from as int).drop_first() =~= s@.skip(from + 1));
        from = from + 1;
    }
    assert(without_leading_spaces(s@) == s@.skip(from as int));
    let mut to: usize = chars.len();
    assert(s@.subrange(from as int, to as int) =~= s@.skip(from as int));
    while from < to && space(chars[to - 1])
        invariant
            chars@ == s@,
            from <= to <= chars.len(),
            trimmed(s@) == without_trailing_spaces(s@.subrange(from as int, to as int)),
        decreases to,
    {
        assert(s@.subrange(from as int, to as int).drop_last() =~= s@.subrange(
            from as int,
            to - 1,
        ));
        to = to - 1;
    }
    s.substring_char(from, to)
}

/// `s` without the characters `c` around it.
pub fn trim_char<'a>(s: &'a str, c: char) -> (r: &'a str)
    ensures
        r@ == without_trailing(without_leading(s@, c), c),
{
    let chars = chars_of(s);
    let mut from: usize = 0;
    assert(s@.skip(0) =~= s@);
    while from < chars.len() && chars[from] == c
        invariant
            chars@ == s@,
            from <= chars.len(),
            without_leading(s@, c) == without_leading(s@.skip(from as int), c),
        decreases chars.len() - from,
    {
        assert(s@.skip(from as int).drop_first() =~= s@.skip(from + 1));
        from = from + 1;
    }
    assert(without_leading(s@, c) == s@.skip(from as int));
    let rest = s.substring_char(from, chars.len());
    assert(rest@ =~= s@.skip(from as int));
    trim_end_char(rest, c)
}

/// `s` without the characters `c` at its end.
pub fn trim_end_char<'a>(s: &'a str, c: char) -> (r: &'a str)
    ensures
        r@ == without_trailing(s@, c),
{
    let chars = chars_of(s);
    let mut to: usize = chars.len();
    assert(s@.take(to as int) =~= s@);
    while to > 0 && chars[to - 1] == c
        invariant
            chars@ == s@,
            to <= chars.len(),
            without_trailing(s@, c) == without_trailing(s@.take(to as int), c),
        decreases to,
    {
        assert(s@.take(to as int).drop_last() =~= s@.take(to - 1));
        to = to - 1;
    }
    s.substring_char(0, to)
}

/// The first word of `s`, where there is one.
pub fn first_token<'a>(s: &'a str) -> (r: Option<&'a str>)
    ensures
        r is Some <==> first_word(s@).len() > 0,
        r matches Some(word) ==> word@ == first_word(s@),
{
    let chars = chars_of(s);
    let mut from: usize = 0;
    assert(s@.skip(0) =~= s@);
    while from < chars.len() && space(chars[from])
        invariant
            chars@ == s@,
            from <= chars.len(),
            without_leading_spaces(s@) == without_leading_spaces(s@.skip(from as int)),
        decreases chars.len() - from,
    {
        assert(s@.skip(from as int).drop_first() =~= s@.skip(from + 1));
        from = from + 1;
    }
    let mut to: usize = from;
    let ghost rest = s@.skip(from as int);
    assert(s@.subrange(from as int, from as int) =~= seq![]);
    assert(seq![] + before_space(rest) =~= before_space(rest));
    while to < chars.len() && !space(chars[to])
        invariant
            chars@ == s@,
            from <= to <= chars.len(),
            rest == s@.skip(from as int),
            s@.subrange(from as int, to as int) + before_space(s@.skip(to as int)) == before_space(
                rest,
            ),
        decreases chars.len() - to,
    {
        assert(s@.skip(to as int).drop_first() =~= s@.skip(to + 1));
        assert(s@.subrange(from as int, to + 1) + before_space(s@.skip(to + 1)) =~= s@.subrange(
            from as int,
            to as int,
        ) + before_space(s@.skip(to as int)));
        to = to + 1;
    }
    assert(before_space(s@.skip(to as int)) =~= seq![]);
    assert(s@.subrange(from as int, to as int) =~= before_space(rest));
    if from == to {
        None
    } else {
        Some(s.substring_char(from, to))
    }
}

/// Whether `part` stands somewhere in `s`, up to the case of ASCII letters.
pub fn contains_but_for_case(s: &str, part: &str) -> (r: bool)
    ensures
        r == contains_ignoring_case(s@, part@),
{
    let len: usize = s.unicode_len();
    let part_len: usize = part.unicode_len();
    if part_len > len {
        return false;
    }
    let last: usize = len - part_len;
    let mut i: usize = 0;
    loop
        invariant
            last + part_len == len,
            len == s@.len(),
            part_len == part@.len(),
            i <= last,
            forall|j: int|
                0 <= j < i ==> !same_ignoring_case(
                    #[trigger] s@.subrange(j, j + part_len),
                    part@,
                ),
        decreases last - i,
    {
        if same_but_for_case(s.substring_char(i, i + part_len), part) {
            return true;
        }
        if i == last {
            return false;
        }
        i = i + 1;
    }
}

fn lower(c: char) -> (r: u32)
    ensures
        r == ascii_lower(c) as u32,
{
    let n: u32 = c as u32;
    if 'A' <= c && c <= 'Z' {
        n + 32
    } else {
        n
    }
}

/// Whether two texts are the same.
pub fn same(a: &str, b: &str) -> (r: bool)
    ensures
        r == (a@ == b@),
{
    let left = chars_of(a);
    let right = chars_of(b);
    if left.len() != right.len() {
        return false;
    }
    let mut i: usize = 0;
    while i < left.len()
        invariant
            left@ == a@,
            right@ == b@,
            left.len() == right.len(),
            i <= left.len(),
            a@.take(i as int) == b@.take(i as int),
        decreases left.len() - i,
    {
        if left[i] != right[i] {
            assert(a@[i as int] != b@[i as int]);
            return false;
        }
        assert(a@.take(i + 1) =~= a@.take(i as int).push(a@[i as int]));
        assert(b@.take(i + 1) =~= b@.take(i as int).push(b@[i as int]));
        i = i + 1;
    }
    assert(a@.take(i as int) =~= a@);
    assert(b@.take(i as int) =~= b@);
    true
}

/// Whether two texts differ at most in the case of ASCII letters.
pub fn same_but_for_case(a: &str, b: &str) -> (r: bool)
    ensures
        r == same_ignoring_case(a@, b@),
{
    let left = chars_of(a);
    let right = chars_of(b);
    if left.len() != right.len() {
        return false;
    }
    let mut i: usize = 0;
    while i < left.len()
        invariant
            left@ == a@,
            right@ == b@,
            left.len() == right.len(),
            i <= left.len(),
            forall|j: int| 0 <= j < i ==> ascii_lower(#[trigger] a@[j]) == ascii_lower(b@[j]),
        decreases left.len() - i,
    {
        if lower(left[i]) != lower(right[i]) {
            assert(ascii_lower(a@[i as int]) != ascii_lower(b@[i as int]));
            return false;
        }
        i = i + 1;
    }
    true
}

/// The first index is within the text or its length, holds the character where it
/// is within, and no earlier character is that one.
pub proof fn first_index_is_first(s: Seq<char>, c: char)
    ensures
        0 <= first_index(s, c) <= s.len(),
        first_index(s, c) < s.len() ==> s[first_index(s, c)] == c,
        forall|i: int| 0 <= i < first_index(s, c) ==> #[trigger] s[i] != c,
    decreases s.len(),
{
    if s.len() > 0 && s[0] != c {
        first_index_is_first(s.drop_first(), c);
        assert forall|i: int| 0 <= i < first_index(s, c) implies #[trigger] s[i] != c by {
            if i > 0 {
                assert(s.drop_first()[i - 1] == s[i]);
            }
        }
    }
}

/// An index with these properties is the first one.
pub proof fn first_index_is(s: Seq<char>, c: char, at: int)
    requires
        0 <= at <= s.len(),
        at < s.len() ==> s[at] == c,
        forall|i: int| 0 <= i < at ==> #[trigger] s[i] != c,
    ensures
        first_index(s, c) == at,
{
    first_index_is_first(s, c);
    let first = first_index(s, c);
    if first < at {
        assert(s[first] != c);
    } else if at < first {
        assert(s[at] != c);
    }
}

/// Where `c` first stands in a list of characters, from `from` on.
fn find(chars: &Vec<char>, from: usize, c: char) -> (at: usize)
    requires
        from <= chars.len(),
    ensures
        from <= at <= chars.len(),
        at - from == first_index(chars@.skip(from as int), c),
{
    let mut at: usize = from;
    let ghost rest = chars@.skip(from as int);
    while at < chars.len() && chars[at] != c
        invariant
            rest == chars@.skip(from as int),
            from <= at <= chars.len(),
            forall|i: int| 0 <= i < at - from ==> #[trigger] rest[i] != c,
        decreases chars.len() - at,
    {
        assert(rest[at - from] == chars@[at as int]);
        at = at + 1;
    }
    proof {
        first_index_is(rest, c, at - from);
    }
    at
}

/// The parts of `s` between the characters `c`.
pub fn split<'a>(s: &'a str, c: char) -> (r: Vec<&'a str>)
    ensures
        contents(r@) == pieces(s@, c),
{
    let chars = chars_of(s);
    let mut out: Vec<&'a str> = Vec::new();
    let mut from: usize = 0;
    assert(s@.skip(0) =~= s@);
    assert(contents(out@) =~= seq![]);
    assert(contents(out@) + pieces(s@, c) =~= pieces(s@, c));
    loop
        invariant
            chars@ == s@,
            from <= chars.len(),
            contents(out@) + pieces(s@.skip(from as int), c) == pieces(s@, c),
        decreases chars.len() - from,
    {
        let ghost rest = s@.skip(from as int);
        let ghost before = out@;
        let at: usize = find(&chars, from, c);
        out.push(s.substring_char(from, at));
        assert(rest.take(at - from) =~= s@.subrange(from as int, at as int));
        assert(contents(out@) =~= contents(before).push(rest.take(at - from)));
        if at == chars.len() {
            assert(rest.take(at - from) =~= rest);
            assert(contents(out@) =~= contents(before) + pieces(rest, c));
            return out;
        }
        assert(rest.skip(at - from + 1) =~= s@.skip(at + 1));
        assert(contents(out@) + pieces(s@.skip(at + 1), c) =~= contents(before) + pieces(rest, c));
        from = at + 1;
    }
}

/// The parts of `s` before and after the first `c`.
pub fn split_once<'a>(s: &'a str, c: char) -> (r: Option<(&'a str, &'a str)>)
    ensures
        r is Some <==> first_index(s@, c) < s@.len(),
        r matches Some((before, after)) ==> {
            &&& before@ == s@.take(first_index(s@, c))
            &&& after@ == s@.skip(first_index(s@, c) + 1)
        },
{
    let chars = chars_of(s);
    assert(s@.skip(0) =~= s@);
    let at: usize = find(&chars, 0, c);
    if at == chars.len() {
        return None;
    }
    let before = s.substring_char(0, at);
    let after = s.substring_char(at + 1, chars.len());
    assert(after@ =~= s@.skip(at + 1));
    assert(before@ =~= s@.take(at as int));
    Some((before, after))
}

fn digit_text(n: u64) -> (r: &'static str)
    requires
        n < 10,
    ensures
        r@ == seq![digit(n as nat)],
{
    proof {
        reveal_strlit("0");
        reveal_strlit("1");
        reveal_strlit("2");
        reveal_strlit("3");
        reveal_strlit("4");
        reveal_strlit("5");
        reveal_strlit("6");
        reveal_strlit("7");
        reveal_strlit("8");
        reveal_strlit("9");
    }
    if n == 0 {
        "0"
    } else if n == 1 {
        "1"
    } else if n == 2 {
        "2"
    } else if n == 3 {
        "3"
    } else if n == 4 {
        "4"
    } else if n == 5 {
        "5"
    } else if n == 6 {
        "6"
    } else if n == 7 {
        "7"
    } else if n == 8 {
        "8"
    } else {
        "9"
    }
}

/// Appends the digits of `n`.
pub fn append_decimal(out: &mut String, n: u64)
    ensures
        final(out)@ == old(out)@ + decimal(n as nat),
    decreases n,
{
    if n >= 10 {
        append_decimal(out, n / 10);
    }
    let ghost before = out@;
    out.append(digit_text(n % 10));
    assert(digit((n % 10) as nat) == digit(n as nat));
    if n >= 10 {
        assert(out@ =~= old(out)@ + decimal(n as nat));
    }
}

/// `n` in decimal.
pub fn decimal_text(n: u64) -> (r: String)
    ensures
        r@ == decimal(n as nat),
{
    let mut out = String::new();
    append_decimal(&mut out, n);
    assert(out@ =~= decimal(n as nat));
    out
}

/// `n` in decimal, after a minus sign where it is negative.
pub fn signed_decimal_text(n: i32) -> (r: String)
    ensures
        r@ == signed_decimal(n as int),
{
    let wide: i64 = n as i64;
    if n < 0 {
        let mut out = String::from_str("-");
        proof {
            reveal_strlit("-");
        }
        append_decimal(&mut out, (-wide) as u64);
        assert(out@ =~= signed_decimal(n as int));
        out
    } else {
        decimal_text(wide as u64)
    }
}

/// A digit more makes the number no smaller.
proof fn digits_value_grows(s: Seq<char>, n: int)
    requires
        0 <= n <= s.len(),
    ensures
        digits_value(s.take(n)) <= digits_value(s),
    decreases s.len() - n,
{
    if n < s.len() {
        digits_value_grows(s, n + 1);
        assert(s.take(n + 1).drop_last() =~= s.take(n));
    } else {
        assert(s.take(n) =~= s);
    }
}

/// The number that the digits from `from` on write, where it is at most `max`.
fn read_digits(chars: &Vec<char>, from: usize, max: u64) -> (r: Option<u64>)
    requires
        from <= chars.len(),
        max <= 0xFFFF_FFFF,
    ensures
        r is Some <==> all_digits(chars@.skip(from as int)) && digits_value(
            chars@.skip(from as int),
        ) <= max,
        r matches Some(v) ==> v == digits_value(chars@.skip(from as int)),
{
    let ghost digits = chars@.skip(from as int);
    if from == chars.len() {
        return None;
    }
    let mut value: u64 = 0;
    let mut i: usize = from;
    assert(digits.take(0) =~= seq![]);
    while i < chars.len()
        invariant
            digits == chars@.skip(from as int),
            max <= 0xFFFF_FFFF,
            from <= i <= chars.len(),
            forall|j: int| 0 <= j < i - from ==> is_digit(#[trigger] digits[j]),
            value == digits_value(digits.take(i - from)),
            value <= max,
        decreases chars.len() - i,
    {
        let c = chars[i];
        assert(c == digits[i - from]);
        if !('0' <= c && c <= '9') {
            return None;
        }
        value = 10 * value + (c as u64 - 48);
        assert(digits.take(i - from + 1).drop_last() =~= digits.take(i - from));
        if value > max {
            proof {
                digits_value_grows(digits, i - from + 1);
            }
            return None;
        }
        i = i + 1;
    }
    assert(digits.take(i - from) =~= digits);
    Some(value)
}

/// The 32-bit number that `s` writes.
pub fn parse_u32(s: &str) -> (r: Option<u32>)
    ensures
        r == u32_value(s@),
{
    let chars = chars_of(s);
    assert(s@.skip(0) =~= s@);
    let from: usize = if chars.len() > 0 && chars[0] == '+' {
        1
    } else {
        0
    };
    assert(s@.skip(from as int) =~= unsigned_part(s@, '+'));
    match read_digits(&chars, from, 0xFFFF_FFFF) {
        Some(v) => Some(v as u32),
        None => None,
    }
}

/// The signed 32-bit number that `s` writes.
pub fn parse_i32(s: &str) -> (r: Option<i32>)
    ensures
        r == i32_value(s@),
{
    let chars = chars_of(s);
    assert(s@.skip(0) =~= s@);
    if chars.len() > 0 && chars[0] == '-' {
        assert(s@.skip(1) =~= s@.drop_first());
        match read_digits(&chars, 1, 0x8000_0000) {
            Some(v) => Some((-(v as i64)) as i32),
            None => None,
        }
    } else {
        let from: usize = if chars.len() > 0 && chars[0] == '+' {
            1
        } else {
            0
        };
        assert(s@.skip(from as int) =~= unsigned_part(s@, '+'));
        match read_digits(&chars, from, 0x7FFF_FFFF) {
            Some(v) => Some(v as i32),
            None => None,
        }
    }
}

/// A text that holds more than spaces has a first word.
pub proof fn words_are_found(s: Seq<char>, i: int)
    requires
        0 <= i < s.len(),
        !is_space(s[i]),
    ensures
        first_word(s).len() > 0,
    decreases s.len(),
{
    if is_space(s[0]) {
        assert(s.drop_first()[i - 1] == s[i]);
        words_are_found(s.drop_first(), i - 1);
    }
}

} // verus!
