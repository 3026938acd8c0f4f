//! The names under which models are billed.

use vstd::prelude::*;
use vstd::string::*;
use crate::text;

verus! {

/// What follows the last `separator` in a text; all of it where there is none.
pub open spec fn after_last(name: Seq<char>, separator: char) -> Seq<char>
    decreases name.len(),
{
    if name.len() == 0 {
        name
    } else if name.last() == separator {
        Seq::empty()
    } else {
        after_last(name.drop_last(), separator).push(name.last())
    }
}

/// Whether the characters of a text from `from` to `to` are digits.
pub open spec fn digits_at(name: Seq<char>, from: int, to: int) -> bool {
    forall|i: int| from <= i < to ==> text::is_digit(#[trigger] name[i])
}

/// Whether `-YYYY-MM-DD` stands at position `i`.
pub open spec fn iso_date_at(name: Seq<char>, i: int) -> bool {
    &&& name[i] == '-'
    &&& digits_at(name, i + 1, i + 5)
    &&& name[i + 5] == '-'
    &&& digits_at(name, i + 6, i + 8)
    &&& name[i + 8] == '-'
    &&& digits_at(name, i + 9, i + 11)
}

/// Whether `-YYYYMMDD` stands at position `i`.
pub open spec fn compact_date_at(name: Seq<char>, i: int) -> bool {
    name[i] == '-' && digits_at(name, i + 1, i + 9)
}

/// A name without `-YYYY-MM-DD` at its end, unless that is all of it.
pub open spec fn strip_iso_date(name: Seq<char>) -> Seq<char> {
    if name.len() > 11 && iso_date_at(name, name.len() - 11) {
        name.take(name.len() - 11)
    } else {
        name
    }
}

/// A name without `-YYYYMMDD` at its end, unless that is all of it.
pub open spec fn strip_compact_date(name: Seq<char>) -> Seq<char> {
    if name.len() > 9 && compact_date_at(name, name.len() - 9) {
        name.take(name.len() - 9)
    } else {
        name
    }
}

/// The name under which a model is billed: in lower case, without the provider
/// before it and the date after it.
pub open spec fn billed_name(raw: Seq<char>) -> Seq<char> {
    strip_compact_date(strip_iso_date(after_last(text::lowercase(raw), '/')))
}

/// Whether the characters from `from` to `to` are digits.
fn all_digits(name: &Vec<char>, from: usize, to: usize) -> (r: bool)
    requires
        from <= to <= name@.len(),
    ensures
        r == digits_at(name@, from as int, to as int),
{
    let mut i: usize = from;
    while i < to
        invariant
            from <= i <= to <= name@.len(),
            digits_at(name@, from as int, i as int),
        decreases to - i,
    {
        if !('0' <= name[i] && name[i] <= '9') {
            return false;
        }
        i = i + 1;
    }
    true
}

/// The position that follows the last `separator`, or the first one.
fn tail_start(name: &Vec<char>, separator: char) -> (r: usize)
    ensures
        r <= name@.len(),
        name@.skip(r as int) == after_last(name@, separator),
{
    let n: usize = name.len();
    let mut i: usize = n;
    assert(name@.take(n as int) == name@);
    assert(after_last(name@, separator) =~= after_last(name@.take(n as int), separator)
        + name@.skip(n as int));
    while i > 0
        invariant
            i <= n == name@.len(),
            after_last(name@, separator) == after_last(name@.take(i as int), separator)
                + name@.skip(i as int),
        decreases i,
    {
        assert(name@.take(i as int).drop_last() == name@.take(i - 1));
        if name[i - 1] == separator {
            assert(Seq::<char>::empty() + name@.skip(i as int) =~= name@.skip(i as int));
            return i;
        }
        assert(after_last(name@.take(i - 1), separator).push(name@[i - 1]) + name@.skip(i as int)
            =~= after_last(name@.take(i - 1), separator) + name@.skip(i - 1));
        i = i - 1;
    }
    assert(after_last(name@.take(0), separator) + name@.skip(0) =~= name@.skip(0));
    0
}

/// The name under which a model is billed.
pub fn normalize_codex_model(raw: &str) -> (r: String)
    ensures
        r@ == billed_name(raw@),
{
    let lower = text::chars_of(raw.to_lowercase().as_str());
    let from: usize = tail_start(&lower, '/');
    let name = text::chars_of(text::text_of(&lower, from, lower.len()).as_str());
    assert(lower@.skip(from as int) == lower@.subrange(from as int, lower@.len() as int));
    let mut end: usize = name.len();
    assert(name@.take(end as int) == name@);
    if end > 11 {
        let i: usize = end - 11;
        if name[i] == '-' && all_digits(&name, i + 1, i + 5) && name[i + 5] == '-' && all_digits(
            &name,
            i + 6,
            i + 8,
        ) && name[i + 8] == '-' && all_digits(&name, i + 9, i + 11) {
            end = i;
        }
    }
    let ghost middle = name@.take(end as int);
    assert(middle == strip_iso_date(name@));
    if end > 9 {
        let i: usize = end - 9;
        let dated = name[i] == '-' && all_digits(&name, i + 1, i + 9);
        assert(dated == compact_date_at(middle, i as int)) by {
            assert(forall|k: int| i <= k < end ==> #[trigger] middle[k] == name@[k]);
        }
        if dated {
            end = i;
            assert(middle.take(i as int) == name@.take(i as int));
        }
    }
    assert(name@.take(end as int) == name@.subrange(0, end as int));
    text::text_of(&name, 0, end)
}

/// What follows the last separator holds no separator.
proof fn lemma_after_last_has_none(name: Seq<char>, separator: char)
    ensures
        !after_last(name, separator).contains(separator),
    decreases name.len(),
{
    if name.len() > 0 && name.last() != separator {
        lemma_after_last_has_none(name.drop_last(), separator);
        let before = after_last(name.drop_last(), separator);
        assert forall|i: int| 0 <= i < before.len() + 1 implies #[trigger] before.push(
            name.last(),
        )[i] != separator by {
            if i < before.len() {
                assert(before.contains(before[i]));
            }
        }
    }
}

/// No provider is left in the name under which a model is billed.
pub proof fn law_billed_name_has_no_provider(raw: Seq<char>)
    ensures
        !billed_name(raw).contains('/'),
{
    let tail = after_last(text::lowercase(raw), '/');
    lemma_after_last_has_none(text::lowercase(raw), '/');
    let r = billed_name(raw);
    assert forall|i: int| 0 <= i < r.len() implies r[i] != '/' by {
        assert(r[i] == tail[i]);
        assert(tail.contains(tail[i]));
    }
}

/// What follows the last separator is all that stands after it.
proof fn lemma_after_last(head: Seq<char>, tail: Seq<char>, separator: char)
    requires
        !tail.contains(separator),
    ensures
        after_last(head + seq![separator] + tail, separator) == tail,
        after_last(tail, separator) == tail,
    decreases tail.len(),
{
    let all = head + seq![separator] + tail;
    if tail.len() == 0 {
        assert(tail =~= Seq::empty());
        assert(all.last() == separator);
    } else {
        let less = tail.drop_last();
        assert(tail.contains(tail[tail.len() - 1]));
        assert(!less.contains(separator)) by {
            if less.contains(separator) {
                let i = choose|i: int| 0 <= i < less.len() && less[i] == separator;
                assert(tail[i] == separator);
            }
        }
        lemma_after_last(head, less, separator);
        assert(all.drop_last() =~= head + seq![separator] + less);
        assert(less.push(tail.last()) =~= tail);
    }
}

/// Whether a text is a date with a hyphen before each of its parts, `-YYYY-MM-DD`.
pub open spec fn is_iso_date(date: Seq<char>) -> bool {
    &&& date.len() == 11
    &&& date[0] == '-' && date[5] == '-' && date[8] == '-'
    &&& forall|i: int|
        0 < i < 11 && i != 5 && i != 8 ==> '0' <= #[trigger] date[i] && date[i] <= '9'
}

/// Whether a text is a date with a hyphen before it, `-YYYYMMDD`.
pub open spec fn is_compact_date(date: Seq<char>) -> bool {
    &&& date.len() == 9
    &&& date[0] == '-'
    &&& forall|i: int| 0 < i < 9 ==> '0' <= #[trigger] date[i] && date[i] <= '9'
}

/// A model is billed under its name in lower case: what stands before its last slash is left
/// out, and so is a date at its end, in either form, unless nothing would be left. A name
/// that does not end in a digit is billed whole.
pub proof fn law_a_billed_name_has_no_provider_and_no_date(
    raw: Seq<char>,
    provider: Seq<char>,
    name: Seq<char>,
    date: Seq<char>,
)
    requires
        name.len() > 0,
        !(name + date).contains('/'),
        !text::is_digit(name.last()),
        date.len() == 0 || is_iso_date(date) || is_compact_date(date),
        text::lowercase(raw) == name + date || text::lowercase(raw) == provider + seq!['/'] + (name
            + date),
    ensures
        billed_name(raw) == name,
{
    let whole = name + date;
    lemma_after_last(provider, whole, '/');
    assert(after_last(text::lowercase(raw), '/') == whole);
    let n = whole.len() as int;
    assert(whole.take(name.len() as int) =~= name);
    if date.len() == 0 {
        assert(whole =~= name);
        if n > 11 && iso_date_at(whole, n - 11) {
            assert(text::is_digit(whole[n - 1]));
        }
        if n > 9 && compact_date_at(whole, n - 9) {
            assert(text::is_digit(whole[n - 1]));
        }
    } else if is_iso_date(date) {
        assert(iso_date_at(whole, n - 11)) by {
            assert forall|i: int| n - 10 <= i < n - 6 implies text::is_digit(#[trigger] whole[i]) by {
                assert(whole[i] == date[i - (n - 11)]);
            }
            assert forall|i: int| n - 5 <= i < n - 3 implies text::is_digit(#[trigger] whole[i]) by {
                assert(whole[i] == date[i - (n - 11)]);
            }
            assert forall|i: int| n - 2 <= i < n implies text::is_digit(#[trigger] whole[i]) by {
                assert(whole[i] == date[i - (n - 11)]);
            }
        }
        let m = name.len() as int;
        if m > 9 && compact_date_at(name, m - 9) {
            assert(text::is_digit(name[m - 1]));
        }
    } else {
        assert(!iso_date_at(whole, n - 11)) by {
            assert(whole[n - 3] == date[6]);
        }
        assert(strip_iso_date(whole) == whole);
        assert(compact_date_at(whole, n - 9)) by {
            assert forall|i: int| n - 8 <= i < n implies text::is_digit(#[trigger] whole[i]) by {
                assert(whole[i] == date[i - (n - 9)]);
            }
        }
    }
}

} // verus!
