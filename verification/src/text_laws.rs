//! What holds of texts.

use vstd::prelude::*;
#[allow(unused_imports)]
use crate::text;

verus! {

proof fn lemma_trim_start(s: Seq<char>)
    ensures
        text::trim_start(s).is_suffix_of(s),
        text::trim_start(s).len() > 0 ==> !text::is_white_space(text::trim_start(s)[0]),
        forall|i: int|
            0 <= i < s.len() - text::trim_start(s).len() ==> text::is_white_space(#[trigger] s[i]),
    decreases s.len(),
{
    if s.len() > 0 && text::is_white_space(s[0]) {
        let rest = s.drop_first();
        lemma_trim_start(rest);
        let kept = text::trim_start(rest);
        assert(kept =~= s.subrange(s.len() - kept.len(), s.len() as int));
        assert forall|i: int| 0 <= i < s.len() - kept.len() implies text::is_white_space(
            #[trigger] s[i],
        ) by {
            if i > 0 {
                assert(rest[i - 1] == s[i]);
            }
        }
    } else {
        assert(s =~= s.subrange(0, s.len() as int));
    }
}

proof fn lemma_trim_end(s: Seq<char>)
    ensures
        text::trim_end(s).is_prefix_of(s),
        text::trim_end(s).len() > 0 ==> !text::is_white_space(text::trim_end(s).last()),
        forall|i: int|
            text::trim_end(s).len() <= i < s.len() ==> text::is_white_space(#[trigger] s[i]),
    decreases s.len(),
{
    if s.len() > 0 && text::is_white_space(s.last()) {
        let rest = s.drop_last();
        lemma_trim_end(rest);
        assert(text::trim_end(rest) =~= s.subrange(0, text::trim_end(rest).len() as int));
        assert forall|i: int| text::trim_end(s).len() <= i < s.len() implies text::is_white_space(
            #[trigger] s[i],
        ) by {
            if i < rest.len() {
                assert(rest[i] == s[i]);
            }
        }
    } else {
        assert(s =~= s.subrange(0, s.len() as int));
    }
}

/// Whether `s` is `kept` with nothing but white space around it.
pub open spec fn is_padded(s: Seq<char>, kept: Seq<char>, from: int) -> bool {
    &&& 0 <= from
    &&& from + kept.len() <= s.len()
    &&& s.subrange(from, from + kept.len()) == kept
    &&& forall|i: int|
        0 <= i < s.len() && !(from <= i < from + kept.len()) ==> text::is_white_space(
            #[trigger] s[i],
        )
}

/// Just the white space around a text is left out: what is kept neither begins nor ends with
/// any, and what is left out is nothing else.
pub proof fn law_white_space_around_a_text_is_left_out(s: Seq<char>)
    ensures
        ({
            let kept = text::trim(s);
            &&& exists|from: int| #[trigger] is_padded(s, kept, from)
            &&& kept.len() > 0 ==> !text::is_white_space(kept[0]) && !text::is_white_space(
                kept.last(),
            )
        }),
        text::is_blank(s) <==> forall|i: int|
            0 <= i < s.len() ==> text::is_white_space(#[trigger] s[i]),
{
    let middle = text::trim_start(s);
    let kept = text::trim(s);
    lemma_trim_start(s);
    lemma_trim_end(middle);
    let from = s.len() - middle.len();
    assert(middle =~= s.subrange(from, s.len() as int));
    assert(s.subrange(from, from + kept.len()) =~= kept);
    assert forall|i: int|
        0 <= i < s.len() && !(from <= i < from + kept.len()) implies text::is_white_space(
        #[trigger] s[i],
    ) by {
        if i >= from {
            assert(middle[i - from] == s[i]);
        }
    }
    assert(is_padded(s, kept, from));
    if kept.len() > 0 {
        assert(kept[0] == middle[0]);
        assert(!text::is_white_space(s[from]));
    }
}

/// A text is found in a longer one wherever it stands in it, and begins and ends it where it
/// stands at its edges.
pub proof fn law_a_part_is_found_where_it_stands(
    before: Seq<char>,
    part: Seq<char>,
    after: Seq<char>,
)
    ensures
        text::contains(before + part + after, part),
        text::starts_with(part + after, part),
        text::ends_with(before + part, part),
        text::strip_prefix(part + after, part) == Some(after),
{
    let all = before + part + after;
    assert(all.subrange(before.len() as int, before.len() as int + part.len()) =~= part);
    assert(text::occurs_at(all, part, before.len() as int));
    assert((part + after).subrange(0, 0int + part.len()) =~= part);
    assert((part + after).skip(part.len() as int) =~= after);
    let head = before + part;
    assert(head.len() - part.len() == before.len());
    assert(head.subrange(before.len() as int, before.len() as int + part.len()) =~= part);
}

/// A text that begins or ends with another one is that one with something behind or before it.
pub proof fn law_a_beginning_is_followed_by_the_rest(s: Seq<char>, part: Seq<char>)
    ensures
        text::starts_with(s, part) ==> s == part + s.skip(part.len() as int),
        text::ends_with(s, part) ==> s == s.take(s.len() - part.len()) + part,
        text::strip_prefix(s, part) matches Some(rest) ==> s == part + rest,
{
    if text::starts_with(s, part) {
        assert(s =~= s.subrange(0, 0int + part.len()) + s.skip(part.len() as int));
    }
    if text::ends_with(s, part) {
        let n = s.len() - part.len();
        assert(s =~= s.take(n) + s.subrange(n, n + part.len()));
    }
}

/// The pieces of a text hold no separator, and put together with separators they give the text.
pub proof fn law_pieces_hold_no_separator(s: Seq<char>, separator: char)
    ensures
        forall|i: int|
            0 <= i < text::split_on(s, separator).len() ==> !(#[trigger] text::split_on(
                s,
                separator,
            )[i]).contains(separator),
        text::join(text::split_on(s, separator), seq![separator]) == s,
    decreases s.len(),
{
    text::lemma_join_of_pieces(s, separator);
    if s.len() > 0 {
        let head = s.drop_last();
        law_pieces_hold_no_separator(head, separator);
        text::lemma_split_on_nonempty(head, separator);
        let before = text::split_on(head, separator);
        let pieces = text::split_on(s, separator);
        assert forall|i: int| 0 <= i < pieces.len() implies !(#[trigger] pieces[i]).contains(
            separator,
        ) by {
            if s.last() == separator {
                if i < before.len() {
                    assert(pieces[i] == before[i]);
                }
            } else if i < before.len() - 1 {
                assert(pieces[i] == before[i]);
            } else {
                let last = before[before.len() - 1];
                assert(pieces[i] == last.push(s.last()));
                if pieces[i].contains(separator) {
                    let k = choose|k: int|
                        0 <= k < pieces[i].len() && pieces[i][k] == separator;
                    assert(last[k] == separator);
                }
            }
        }
    }
}

/// The number that a run of decimal digits stands for.
pub open spec fn value_of(digits: Seq<char>) -> nat
    decreases digits.len(),
{
    if digits.len() == 0 {
        0
    } else {
        (10 * value_of(digits.drop_last()) + (digits.last() as int - '0' as int)) as nat
    }
}

/// A number is written in decimal digits, which stand for it, without a zero in front of it.
pub proof fn law_numbers_are_written_in_decimal_digits(n: nat)
    ensures
        value_of(text::decimal(n)) == n,
        forall|i: int|
            0 <= i < text::decimal(n).len() ==> text::is_digit(#[trigger] text::decimal(n)[i]),
        text::decimal(n).len() > 0,
        n > 0 ==> text::decimal(n)[0] != '0',
    decreases n,
{
    if n < 10 {
        assert(text::decimal(n).drop_last() =~= seq![]);
        assert(value_of(text::decimal(n).drop_last()) == 0);
    } else {
        law_numbers_are_written_in_decimal_digits(n / 10);
        assert(text::decimal(n).drop_last() =~= text::decimal(n / 10));
        let head = text::decimal(n / 10);
        assert forall|i: int| 0 <= i < text::decimal(n).len() implies text::is_digit(
            #[trigger] text::decimal(n)[i],
        ) by {
            if i < head.len() {
                assert(text::decimal(n)[i] == head[i]);
            }
        }
    }
}

/// Capital letters of ASCII count as the small ones, and no other characters as one another.
pub proof fn law_only_the_case_of_letters_is_passed_over(a: char, b: char)
    ensures
        text::same_but_for_case(seq![a], seq![b]) <==> {
            ||| a == b
            ||| 'A' <= a <= 'Z' && b as u32 == a as u32 + 32
            ||| 'A' <= b <= 'Z' && a as u32 == b as u32 + 32
        },
{
    assert(seq![a][0] == a);
    assert(seq![b][0] == b);
    if 'A' <= a <= 'Z' {
        assert(text::ascii_lower(a) as u32 == a as u32 + 32);
    }
    if 'A' <= b <= 'Z' {
        assert(text::ascii_lower(b) as u32 == b as u32 + 32);
    }
    if text::ascii_lower(a) == text::ascii_lower(b) {
        assert(text::ascii_lower(seq![a][0]) == text::ascii_lower(seq![b][0]));
        assert(text::same_but_for_case(seq![a], seq![b]));
    } else {
        assert(text::ascii_lower(seq![a][0]) != text::ascii_lower(seq![b][0]));
    }
}

/// The lines of a text hold no line feed.
pub proof fn law_lines_hold_no_line_feed(s: Seq<char>, i: int)
    requires
        0 <= i < text::lines(s).len(),
    ensures
        !text::lines(s)[i].contains('\n'),
{
    law_pieces_hold_no_separator(s, '\n');
    let parts = text::split_on(s, '\n');
    text::lemma_split_on_nonempty(s, '\n');
    let line = text::lines(s)[i];
    if line.contains('\n') {
        let k = choose|k: int| 0 <= k < line.len() && line[k] == '\n';
        assert(parts[i][k] == '\n');
    }
}

/// A line feed at the end of a text that ends in no line feed adds no line; a carriage return
/// before it is not part of the line.
pub proof fn law_a_line_feed_ends_a_line(s: Seq<char>)
    requires
        s.len() > 0,
        s.last() != '\n',
        s.last() != '\r',
    ensures
        text::lines(s.push('\n')) == text::lines(s),
        text::lines(s.push('\r').push('\n')) == text::lines(s),
{
    text::lemma_split_on_nonempty(s.drop_last(), '\n');
    let parts = text::split_on(s, '\n');
    let ended = s.push('\n');
    let returned = s.push('\r').push('\n');
    assert(ended.drop_last() =~= s);
    assert(returned.drop_last() =~= s.push('\r'));
    assert(s.push('\r').drop_last() =~= s);
    let last = text::split_on(s.drop_last(), '\n').last();
    assert(parts.last() == last.push(s.last()));
    assert(parts.last().push('\r').drop_last() =~= parts.last());
    assert(text::split_on(s.push('\r'), '\n') == parts.drop_last().push(
        parts.last().push('\r'),
    ));
    assert(text::split_on(returned, '\n') == text::split_on(s.push('\r'), '\n').push(Seq::empty()));
    assert(text::lines(ended) =~= text::lines(s));
    assert(text::lines(returned) =~= text::lines(s));
}

} // verus!
