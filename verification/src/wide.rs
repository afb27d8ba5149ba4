//! Text in UTF-16, as the system takes and gives it.

use vstd::prelude::*;
use vstd::slice::slice_subrange;

use crate::text::chars_of;

verus! {

/// The units of a character: one, or a pair of surrogates.
pub open spec fn char_units(c: char) -> Seq<u16> {
    let n = c as u32;
    if n < 0x1_0000 {
        seq![n as u16]
    } else {
        seq![(0xD800 + (n - 0x1_0000) / 0x400) as u16, (0xDC00 + (n - 0x1_0000) % 0x400) as u16]
    }
}

/// The units of a text.
pub open spec fn units(s: Seq<char>) -> Seq<u16>
    decreases s.len(),
{
    if s.len() == 0 {
        seq![]
    } else {
        units(s.drop_last()) + char_units(s.last())
    }
}

/// The units of a text, with a zero behind them.
pub open spec fn units_null(s: Seq<char>) -> Seq<u16> {
    units(s).push(0)
}

/// A single unit is no surrogate and is the character; a pair ends with a low
/// surrogate and gives the character back.
proof fn char_units_read_back(c: char)
    ensures
        ({
            let u = char_units(c);
            ||| u.len() == 1 && u[0] == c as u32 && !(0xD800 <= u[0] < 0xE000)
            ||| {
                &&& u.len() == 2
                &&& 0xDC00 <= u[1] < 0xE000
                &&& 0xD800 <= u[0] < 0xDC00
                &&& 0x1_0000 + (u[0] - 0xD800) * 0x400 + (u[1] - 0xDC00) == c as u32
            }
        }),
{
}

/// Characters with the same number are the same, and only one has the number zero.
proof fn char_numbers(a: char, b: char)
    ensures
        a as u32 == b as u32 ==> a == b,
        a as u32 == 0 ==> a == '\0',
{
}

/// Two texts with the same units are the same text.
pub proof fn units_are_unambiguous(a: Seq<char>, b: Seq<char>)
    requires
        units(a) == units(b),
    ensures
        a == b,
    decreases a.len(),
{
    if a.len() == 0 {
        if b.len() > 0 {
            assert(units(b).len() > 0);
        }
        assert(a =~= b);
    } else if b.len() == 0 {
        assert(units(a).len() > 0);
    } else {
        let ua = char_units(a.last());
        let ub = char_units(b.last());
        let u = units(a);
        char_units_read_back(a.last());
        char_units_read_back(b.last());
        assert(u.last() == ua.last());
        assert(u.last() == ub.last());
        assert(ua.len() == ub.len());
        assert(units(a.drop_last()) =~= u.take(u.len() - ua.len()));
        assert(units(b.drop_last()) =~= u.take(u.len() - ub.len()));
        assert(u.skip(u.len() - ua.len()) =~= ua);
        assert(u.skip(u.len() - ub.len()) =~= ub);
        assert(a.last() == b.last()) by {
            char_numbers(a.last(), b.last());
            assert(ua == ub);
            if ua.len() == 1 {
                assert(ua[0] == ub[0]);
            } else {
                assert(ua[0] == ub[0] && ua[1] == ub[1]);
            }
        }
        units_are_unambiguous(a.drop_last(), b.drop_last());
        assert(a =~= a.drop_last().push(a.last()));
        assert(b =~= b.drop_last().push(b.last()));
    }
}

/// The units of a text, with a zero behind them.
pub fn wide_null(value: &str) -> (r: Vec<u16>)
    ensures
        r@ == units_null(value@),
{
    let chars = chars_of(value);
    let mut out: Vec<u16> = Vec::new();
    let mut i: usize = 0;
    while i < chars.len()
        invariant
            i <= chars.len(),
            chars@ == value@,
            out@ == units(value@.take(i as int)),
        decreases chars.len() - i,
    {
        assert(value@.take(i + 1).drop_last() =~= value@.take(i as int));
        let ghost before = out@;
        let n: u32 = chars[i] as u32;
        if n < 0x1_0000 {
            out.push(n as u16);
        } else {
            out.push((0xD800 + (n - 0x1_0000) / 0x400) as u16);
            out.push((0xDC00 + (n - 0x1_0000) % 0x400) as u16);
        }
        assert(out@ =~= before + char_units(value@[i as int]));
        i = i + 1;
    }
    assert(value@.take(i as int) =~= value@);
    out.push(0);
    out
}

/// `String::from_utf16`: the text with these units, and none where no text has
/// them.
#[verifier::external_body]
pub(crate) fn text_of_units(v: &[u16]) -> (r: Option<String>)
    ensures
        r matches Some(s) ==> units(s@) == v@,
        r is None ==> forall|s: Seq<char>| #[trigger] units(s) != v@,
{
    String::from_utf16(v).ok()
}

/// The units before the first zero.
pub open spec fn before_zero(v: Seq<u16>) -> Seq<u16>
    decreases v.len(),
{
    if v.len() == 0 || v[0] == 0 {
        seq![]
    } else {
        seq![v[0]] + before_zero(v.drop_first())
    }
}

/// The units that a value of `byte_len` bytes takes.
pub fn units_for(byte_len: u32) -> (r: u32)
    ensures
        r == (byte_len + 1) / 2,
{
    byte_len / 2 + byte_len % 2
}

/// The text of a value that the system gave in `byte_len` bytes: what stands before
/// the first zero. None where that is no text.
pub fn text_of_value(data: &[u16], byte_len: u32) -> (r: Option<String>)
    requires
        byte_len / 2 <= data@.len(),
    ensures
        ({
            let v = before_zero(data@.take((byte_len / 2) as int));
            match r {
                Some(s) => units(s@) == v,
                None => forall|s: Seq<char>| #[trigger] units(s) != v,
            }
        }),
{
    let len: usize = (byte_len / 2) as usize;
    let mut end: usize = 0;
    let ghost all = data@.take(len as int);
    assert(all.skip(0) =~= all);
    assert(all.take(0) =~= seq![]);
    assert(seq![] + before_zero(all) =~= before_zero(all));
    while end < len && data[end] != 0
        invariant
            end <= len <= data@.len(),
            all == data@.take(len as int),
            all.take(end as int) + before_zero(all.skip(end as int)) == before_zero(all),
        decreases len - end,
    {
        assert(all.skip(end as int).drop_first() =~= all.skip(end + 1));
        assert(all.take(end + 1) + before_zero(all.skip(end + 1)) =~= all.take(end as int)
            + before_zero(all.skip(end as int)));
        end = end + 1;
    }
    assert(before_zero(all.skip(end as int)) =~= seq![]);
    assert(all.take(end as int) =~= before_zero(all));
    assert(data@.subrange(0, end as int) =~= all.take(end as int));
    text_of_units(slice_subrange(data, 0, end))
}

/// What stands before the first zero of a text's units, with a zero behind them,
/// is that text, unless the text holds a zero itself.
pub proof fn wide_texts_read_back(s: Seq<char>)
    requires
        forall|i: int| 0 <= i < s.len() ==> #[trigger] s[i] != '\0',
    ensures
        before_zero(units_null(s)) == units(s),
{
    no_zero_units(s);
    all_before_zero(units(s));
}

proof fn no_zero_units(s: Seq<char>)
    requires
        forall|i: int| 0 <= i < s.len() ==> #[trigger] s[i] != '\0',
    ensures
        forall|i: int| 0 <= i < units(s).len() ==> #[trigger] units(s)[i] != 0,
    decreases s.len(),
{
    if s.len() > 0 {
        assert forall|i: int| 0 <= i < s.drop_last().len() implies #[trigger] s.drop_last()[i]
            != '\0' by {
            assert(s.drop_last()[i] == s[i]);
        }
        no_zero_units(s.drop_last());
        let before = units(s.drop_last());
        let c = s.last();
        assert(c == s[s.len() - 1]);
        assert forall|i: int| 0 <= i < units(s).len() implies #[trigger] units(s)[i] != 0 by {
            if i < before.len() {
                assert(units(s)[i] == before[i]);
            } else {
                char_units_read_back(c);
                char_numbers(c, c);
                assert(units(s)[i] == char_units(c)[i - before.len()]);
            }
        }
    }
}

proof fn all_before_zero(v: Seq<u16>)
    requires
        forall|i: int| 0 <= i < v.len() ==> #[trigger] v[i] != 0,
    ensures
        before_zero(v.push(0)) == v,
    decreases v.len(),
{
    if v.len() > 0 {
        let rest = v.drop_first();
        assert forall|i: int| 0 <= i < rest.len() implies #[trigger] rest[i] != 0 by {
            assert(rest[i] == v[i + 1]);
        }
        all_before_zero(rest);
        assert(v.push(0).drop_first() =~= rest.push(0));
        assert(seq![v[0]] + rest =~= v);
    } else {
        assert(v =~= seq![]);
    }
}

} // verus!
