//! Text as sequences of characters.
//!
//! Every contract in this crate that speaks of text speaks of the character
//! sequence behind it (`s@`). This module holds the vocabulary for those
//! sequences and the small verified routines that work on them.

use vstd::prelude::*;
use vstd::string::*;
use vstd::utf8::*;

verus! {

/// `String::push` appends one character.
pub assume_specification[ String::push ](target: &mut String, c: char)
    ensures
        final(target)@ == old(target)@.push(c),
;

/// Whether `char::is_alphanumeric` holds of a character (the Unicode
/// properties `Alphabetic` and `Number`).
pub uninterp spec fn char_is_alphanumeric(c: char) -> bool;

/// `char::is_alphanumeric` depends on the character alone.
pub assume_specification[ char::is_alphanumeric ](c: char) -> (r: bool)
    ensures
        r == char_is_alphanumeric(c),
;

/// The text that `str::to_lowercase` gives for a text.
pub uninterp spec fn lowercase(text: Seq<char>) -> Seq<char>;

/// `str::to_lowercase` depends on the characters of the text alone.
pub assume_specification[ str::to_lowercase ](target: &str) -> (r: String)
    ensures
        r@ == lowercase(target@),
;

/// The bytes of a text as `String::from_utf8_lossy` reads them.
pub uninterp spec fn utf8_lossy(bytes: Seq<u8>) -> Seq<char>;

/// `String::from_utf8_lossy`: bytes that are valid UTF-8 are read as the text that they
/// encode. What is read of others depends on the bytes alone; nothing more is said of it.
#[verifier::external_body]
pub(crate) fn lossy_text(bytes: &[u8]) -> (r: String)
    ensures
        r@ == utf8_lossy(bytes@),
        vstd::utf8::valid_utf8(bytes@) ==> r@ == vstd::utf8::decode_utf8(bytes@),
{
    String::from_utf8_lossy(bytes).into_owned()
}

/// The text that bytes are read as.
pub open spec fn bytes_text(bytes: Seq<u8>) -> Seq<char> {
    if vstd::utf8::valid_utf8(bytes) {
        vstd::utf8::decode_utf8(bytes)
    } else {
        utf8_lossy(bytes)
    }
}

/// The characters with the Unicode property `White_Space`.
pub open spec fn is_white_space(c: char) -> bool {
    ||| 0x9 <= c as u32 <= 0xd
    ||| c as u32 == 0x20
    ||| c as u32 == 0x85
    ||| c as u32 == 0xa0
    ||| c as u32 == 0x1680
    ||| 0x2000 <= c as u32 <= 0x200a
    ||| c as u32 == 0x2028
    ||| c as u32 == 0x2029
    ||| c as u32 == 0x202f
    ||| c as u32 == 0x205f
    ||| c as u32 == 0x3000
}

/// Whether a character is white space.
pub fn white_space(c: char) -> (r: bool)
    ensures
        r == is_white_space(c),
{
    let n: u32 = c as u32;
    (0x9 <= n && n <= 0xd) || n == 0x20 || n == 0x85 || n == 0xa0 || n == 0x1680 || (0x2000 <= n
        && n <= 0x200a) || n == 0x2028 || n == 0x2029 || n == 0x202f || n == 0x205f || n == 0x3000
}

/// The control characters (Unicode category `Cc`).
pub open spec fn is_control(c: char) -> bool {
    c as u32 <= 0x1f || 0x7f <= c as u32 <= 0x9f
}

/// Whether a character is a control character.
pub fn control(c: char) -> (r: bool)
    ensures
        r == is_control(c),
{
    let n: u32 = c as u32;
    n <= 0x1f || (0x7f <= n && n <= 0x9f)
}

/// The characters `0` to `9`.
pub open spec fn is_digit(c: char) -> bool {
    '0' <= c <= '9'
}

/// The characters of a text, in order.
pub fn chars_of(text: &str) -> (r: Vec<char>)
    ensures
        r@ == text@,
{
    let mut r: Vec<char> = Vec::new();
    for c in it: text.chars()
        invariant
            it.seq() == text@,
            r@ == text@.take(it.index()),
    {
        r.push(c);
    }
    r
}

/// The text that a run of characters spells.
pub fn text_of(chars: &Vec<char>, from: usize, to: usize) -> (r: String)
    requires
        from <= to <= chars@.len(),
    ensures
        r@ == chars@.subrange(from as int, to as int),
{
    let mut r = String::new();
    let mut i: usize = from;
    while i < to
        invariant
            from <= i <= to <= chars@.len(),
            r@ == chars@.subrange(from as int, i as int),
        decreases to - i,
    {
        r.push(chars[i]);
        assert(chars@.subrange(from as int, i + 1) == chars@.subrange(from as int, i as int).push(
            chars@[i as int],
        ));
        i = i + 1;
    }
    r
}

/// The text without its leading white space.
pub open spec fn trim_start(text: Seq<char>) -> Seq<char>
    decreases text.len(),
{
    if text.len() > 0 && is_white_space(text[0]) {
        trim_start(text.drop_first())
    } else {
        text
    }
}

/// The text without its trailing white space.
pub open spec fn trim_end(text: Seq<char>) -> Seq<char>
    decreases text.len(),
{
    if text.len() > 0 && is_white_space(text.last()) {
        trim_end(text.drop_last())
    } else {
        text
    }
}

/// The text without the white space on either side of it.
pub open spec fn trim(text: Seq<char>) -> Seq<char> {
    trim_end(trim_start(text))
}

/// Whether a text holds nothing but white space.
pub open spec fn is_blank(text: Seq<char>) -> bool {
    trim(text).len() == 0
}

/// The part of a text between the white space on either side of it.
pub fn trimmed<'a>(text: &'a str) -> (r: &'a str)
    ensures
        r@ == trim(text@),
{
    let chars = chars_of(text);
    let n: usize = chars.len();
    let mut from: usize = 0;
    assert(chars@.skip(0) == chars@);
    while from < n && white_space(chars[from])
        invariant
            n == chars@.len(),
            from <= n,
            trim_start(chars@) == trim_start(chars@.skip(from as int)),
        decreases n - from,
    {
        assert(chars@.skip(from as int).drop_first() == chars@.skip(from + 1));
        from = from + 1;
    }
    assert(trim_start(chars@) == chars@.subrange(from as int, n as int)) by {
        assert(chars@.skip(from as int) == chars@.subrange(from as int, n as int));
    }
    let mut to: usize = n;
    while to > from && white_space(chars[to - 1])
        invariant
            n == chars@.len(),
            from <= to <= n,
            trim(chars@) == trim_end(chars@.subrange(from as int, to as int)),
        decreases to,
    {
        assert(chars@.subrange(from as int, to as int).drop_last() == chars@.subrange(
            from as int,
            to - 1,
        ));
        to = to - 1;
    }
    text.substring_char(from, to)
}

/// Whether a text holds nothing but white space.
pub fn blank(text: &str) -> (r: bool)
    ensures
        r == is_blank(text@),
{
    trimmed(text).is_empty()
}

/// Whether `part` stands in `text` at position `i`.
pub open spec fn occurs_at(text: Seq<char>, part: Seq<char>, i: int) -> bool {
    &&& 0 <= i
    &&& i + part.len() <= text.len()
    &&& text.subrange(i, i + part.len()) == part
}

/// Whether `part` stands in `text` somewhere.
pub open spec fn contains(text: Seq<char>, part: Seq<char>) -> bool {
    exists|i: int| occurs_at(text, part, i)
}

/// Whether `text` begins with `part`.
pub open spec fn starts_with(text: Seq<char>, part: Seq<char>) -> bool {
    occurs_at(text, part, 0)
}

/// Whether `text` ends with `part`.
pub open spec fn ends_with(text: Seq<char>, part: Seq<char>) -> bool {
    occurs_at(text, part, text.len() - part.len())
}

/// The first position, from `from` on, at which `part` stands in `text`.
pub open spec fn find_from(text: Seq<char>, part: Seq<char>, from: int) -> Option<int>
    decreases text.len() + 1 - from,
{
    if from < 0 || from + part.len() > text.len() {
        None
    } else if occurs_at(text, part, from) {
        Some(from)
    } else {
        find_from(text, part, from + 1)
    }
}

/// `find_from` gives the least position, and gives one whenever there is one.
pub proof fn lemma_find_from(text: Seq<char>, part: Seq<char>, from: int)
    requires
        0 <= from,
    ensures
        match find_from(text, part, from) {
            Some(i) => {
                &&& from <= i
                &&& occurs_at(text, part, i)
                &&& forall|j: int| from <= j < i ==> !occurs_at(text, part, j)
            },
            None => forall|j: int| from <= j ==> !occurs_at(text, part, j),
        },
    decreases text.len() + 1 - from,
{
    if from + part.len() <= text.len() && !occurs_at(text, part, from) {
        lemma_find_from(text, part, from + 1);
    }
}

/// Searching in what follows position `k` is searching from there on.
pub proof fn lemma_find_from_skip(text: Seq<char>, part: Seq<char>, k: int, from: int)
    requires
        0 <= k <= text.len(),
        0 <= from,
    ensures
        match find_from(text.skip(k), part, from) {
            Some(i) => find_from(text, part, k + from) == Some(k + i),
            None => find_from(text, part, k + from) is None,
        },
    decreases text.len() + 1 - from,
{
    if k + from + part.len() <= text.len() {
        assert(text.skip(k).subrange(from, from + part.len()) == text.subrange(
            k + from,
            k + from + part.len(),
        ));
        if !occurs_at(text, part, k + from) {
            lemma_find_from_skip(text, part, k, from + 1);
        }
    }
}

/// What is found in a text is found in a longer one at the same position.
pub proof fn lemma_find_from_append(text: Seq<char>, more: Seq<char>, part: Seq<char>, from: int)
    requires
        0 <= from,
        find_from(text, part, from) is Some,
    ensures
        find_from(text + more, part, from) == find_from(text, part, from),
    decreases text.len() + 1 - from,
{
    assert((text + more).subrange(from, from + part.len()) == text.subrange(
        from,
        from + part.len(),
    ));
    if !occurs_at(text, part, from) {
        lemma_find_from_append(text, more, part, from + 1);
    }
}

/// Whether `part` stands in `chars` at position `i`.
fn stands_at(chars: &Vec<char>, part: &Vec<char>, i: usize) -> (r: bool)
    ensures
        r == occurs_at(chars@, part@, i as int),
{
    let n: usize = chars.len();
    if part.len() > n || i > n - part.len() {
        return false;
    }
    let mut k: usize = 0;
    while k < part.len()
        invariant
            k <= part@.len(),
            i + part@.len() <= chars@.len() == n,
            forall|j: int| 0 <= j < k ==> chars@[i + j] == part@[j],
        decreases part@.len() - k,
    {
        if chars[i + k] != part[k] {
            assert(chars@.subrange(i as int, i + part@.len())[k as int] != part@[k as int]);
            return false;
        }
        k = k + 1;
    }
    assert(chars@.subrange(i as int, i + part@.len()) =~= part@);
    true
}

/// The first position, from `from` on, at which `part` stands in `chars`.
pub fn find_in(chars: &Vec<char>, part: &str, from: usize) -> (r: Option<usize>)
    ensures
        match r {
            Some(i) => find_from(chars@, part@, from as int) == Some(i as int),
            None => find_from(chars@, part@, from as int) is None,
        },
{
    let pattern = chars_of(part);
    let mut i: usize = from;
    if pattern.len() > chars.len() {
        return None;
    }
    let end: usize = chars.len() - pattern.len();
    while i <= end
        invariant
            pattern@ == part@,
            end + pattern@.len() == chars@.len(),
            from <= i,
            i <= end + 1 || i == from,
            find_from(chars@, part@, from as int) == find_from(chars@, part@, i as int),
        decreases end + 1 - i,
    {
        if stands_at(chars, &pattern, i) {
            return Some(i);
        }
        if i == end {
            assert(find_from(chars@, part@, i + 1) is None);
            return None;
        }
        i = i + 1;
    }
    None
}

/// Whether `part` stands in `text` somewhere.
pub fn has_part(text: &str, part: &str) -> (r: bool)
    ensures
        r == contains(text@, part@),
{
    let chars = chars_of(text);
    let r = find_in(&chars, part, 0);
    proof {
        lemma_find_from(text@, part@, 0);
        if r is None {
            assert(!contains(text@, part@)) by {
                assert forall|i: int| !occurs_at(text@, part@, i) by {
                    if 0 <= i {
                    }
                }
            }
        }
    }
    r.is_some()
}

/// Whether `text` begins with `part`.
pub fn has_prefix(text: &str, part: &str) -> (r: bool)
    ensures
        r == starts_with(text@, part@),
{
    stands_at(&chars_of(text), &chars_of(part), 0)
}

/// Whether `text` ends with `part`.
pub fn has_suffix(text: &str, part: &str) -> (r: bool)
    ensures
        r == ends_with(text@, part@),
{
    let chars = chars_of(text);
    let pattern = chars_of(part);
    if pattern.len() > chars.len() {
        return false;
    }
    stands_at(&chars, &pattern, chars.len() - pattern.len())
}

/// What follows `part` at the beginning of `text`, if it stands there.
pub open spec fn strip_prefix(text: Seq<char>, part: Seq<char>) -> Option<Seq<char>> {
    if starts_with(text, part) {
        Some(text.skip(part.len() as int))
    } else {
        None
    }
}

/// What follows `part` at the beginning of `text`, if it stands there.
pub fn after_prefix<'a>(text: &'a str, part: &str) -> (r: Option<&'a str>)
    ensures
        match r {
            Some(rest) => strip_prefix(text@, part@) == Some(rest@),
            None => strip_prefix(text@, part@) is None,
        },
{
    if has_prefix(text, part) {
        let n: usize = text.unicode_len();
        let k: usize = part.unicode_len();
        assert(text@.skip(k as int) == text@.subrange(k as int, n as int));
        Some(text.substring_char(k, n))
    } else {
        None
    }
}

/// The pieces of a text between the occurrences of a character.
pub open spec fn split_on(text: Seq<char>, separator: char) -> Seq<Seq<char>>
    decreases text.len(),
{
    if text.len() == 0 {
        seq![Seq::empty()]
    } else {
        let before = split_on(text.drop_last(), separator);
        if text.last() == separator {
            before.push(Seq::empty())
        } else {
            before.drop_last().push(before.last().push(text.last()))
        }
    }
}

/// There is always a piece.
pub proof fn lemma_split_on_nonempty(text: Seq<char>, separator: char)
    ensures
        split_on(text, separator).len() > 0,
    decreases text.len(),
{
    if text.len() > 0 {
        lemma_split_on_nonempty(text.drop_last(), separator);
    }
}

/// The views of a sequence of texts.
pub open spec fn views(texts: Seq<String>) -> Seq<Seq<char>> {
    Seq::new(texts.len(), |i: int| texts[i]@)
}

/// A copy of a list of texts.
pub fn copy_texts(texts: &Vec<String>) -> (r: Vec<String>)
    ensures
        views(r@) == views(texts@),
{
    let mut r: Vec<String> = Vec::new();
    let mut i: usize = 0;
    while i < texts.len()
        invariant
            i <= texts@.len(),
            r@.len() == i,
            forall|k: int| 0 <= k < i ==> (#[trigger] r@[k])@ == texts@[k]@,
        decreases texts@.len() - i,
    {
        r.push(texts[i].clone());
        i = i + 1;
    }
    assert(views(r@) =~= views(texts@));
    r
}

/// The pieces of a text between the occurrences of a character.
pub fn pieces(text: &str, separator: char) -> (r: Vec<String>)
    ensures
        views(r@) == split_on(text@, separator),
{
    let chars = chars_of(text);
    let mut r: Vec<String> = Vec::new();
    let mut current = String::new();
    let mut i: usize = 0;
    assert(views(r@).push(current@) =~= split_on(chars@.take(0), separator));
    while i < chars.len()
        invariant
            i <= chars@.len(),
            views(r@).push(current@) == split_on(chars@.take(i as int), separator),
        decreases chars@.len() - i,
    {
        let c = chars[i];
        let ghost before = views(r@);
        let ghost old_current = current@;
        assert(chars@.take(i + 1).drop_last() == chars@.take(i as int));
        if c == separator {
            r.push(current);
            current = String::new();
            assert(views(r@) =~= before.push(old_current));
        } else {
            current.push(c);
            assert(before.push(old_current).drop_last() =~= before);
        }
        i = i + 1;
    }
    assert(chars@.take(i as int) == chars@);
    let ghost before = views(r@);
    let ghost last = current@;
    r.push(current);
    assert(views(r@) =~= before.push(last));
    r
}

/// A text without the carriage return at its end, if it has one.
pub open spec fn strip_carriage_return(line: Seq<char>) -> Seq<char> {
    if line.len() > 0 && line.last() == '\r' {
        line.drop_last()
    } else {
        line
    }
}

/// The lines of a text: what `\n` or `\r\n` ends, and what follows the last of
/// these unless it is empty.
pub open spec fn lines(text: Seq<char>) -> Seq<Seq<char>> {
    let parts = split_on(text, '\n');
    let ended = Seq::new((parts.len() - 1) as nat, |i: int| strip_carriage_return(parts[i]));
    if parts.last().len() == 0 {
        ended
    } else {
        ended.push(parts.last())
    }
}

/// The lines of a text.
pub fn lines_of(text: &str) -> (r: Vec<String>)
    ensures
        views(r@) == lines(text@),
{
    let parts = pieces(text, '\n');
    proof {
        lemma_split_on_nonempty(text@, '\n');
        assert(views(parts@).len() == parts@.len());
    }
    let ghost all = split_on(text@, '\n');
    let mut r: Vec<String> = Vec::new();
    let last: usize = parts.len() - 1;
    let mut i: usize = 0;
    while i < last
        invariant
            views(parts@) == all,
            last + 1 == parts@.len() == all.len(),
            i <= last,
            r@.len() == i,
            forall|j: int| 0 <= j < i ==> r@[j]@ == strip_carriage_return(#[trigger] all[j]),
        decreases last - i,
    {
        let part = parts[i].as_str();
        assert(views(parts@)[i as int] == part@);
        let n: usize = part.unicode_len();
        if n > 0 && part.get_char(n - 1) == '\r' {
            assert(part@.drop_last() == part@.subrange(0, n - 1));
            r.push(part.substring_char(0, n - 1).to_owned());
        } else {
            r.push(part.to_owned());
        }
        i = i + 1;
    }
    assert(views(parts@)[last as int] == parts@[last as int]@);
    let ghost ended = Seq::new((all.len() - 1) as nat, |k: int| strip_carriage_return(all[k]));
    assert(views(r@) =~= ended);
    if !parts[last].as_str().is_empty() {
        r.push(parts[last].clone());
        assert(views(r@) =~= ended.push(all.last()));
    }
    r
}

/// The texts of a list, with a separator between each and the next.
pub open spec fn join(texts: Seq<Seq<char>>, separator: Seq<char>) -> Seq<char>
    decreases texts.len(),
{
    if texts.len() == 0 {
        Seq::empty()
    } else if texts.len() == 1 {
        texts[0]
    } else {
        join(texts.drop_last(), separator) + separator + texts.last()
    }
}

/// The texts of a list, with a separator between each and the next.
pub fn joined(texts: &Vec<String>, separator: &str) -> (r: String)
    ensures
        r@ == join(views(texts@), separator@),
{
    let mut r = String::new();
    let mut i: usize = 0;
    assert(views(texts@).take(0) =~= Seq::empty());
    while i < texts.len()
        invariant
            i <= texts@.len(),
            r@ == join(views(texts@).take(i as int), separator@),
        decreases texts@.len() - i,
    {
        if i > 0 {
            r.append(separator);
        }
        r.append(texts[i].as_str());
        assert(views(texts@).take(i + 1).drop_last() == views(texts@).take(i as int));
        assert(views(texts@)[i as int] == texts@[i as int]@);
        proof {
            if i == 0 {
                assert(views(texts@).take(1)[0] == texts@[0]@);
                assert(Seq::<char>::empty() + texts@[0]@ =~= texts@[0]@);
            }
        }
        i = i + 1;
    }
    assert(views(texts@).take(i as int) == views(texts@));
    r
}

/// Joining the pieces of a text by the character that they were split on gives the
/// text.
pub proof fn lemma_join_of_pieces(text: Seq<char>, separator: char)
    ensures
        join(split_on(text, separator), seq![separator]) == text,
    decreases text.len(),
{
    lemma_split_on_nonempty(text, separator);
    if text.len() == 0 {
        assert(split_on(text, separator).len() == 1);
        assert(text =~= Seq::empty());
    } else {
        let before = split_on(text.drop_last(), separator);
        lemma_split_on_nonempty(text.drop_last(), separator);
        lemma_join_of_pieces(text.drop_last(), separator);
        if text.last() == separator {
            let now = before.push(Seq::empty());
            assert(now.drop_last() =~= before);
            assert(join(now, seq![separator]) =~= join(before, seq![separator]) + seq![separator]);
        } else {
            let now = before.drop_last().push(before.last().push(text.last()));
            assert(now.drop_last() =~= before.drop_last());
            assert(join(now, seq![separator]) =~= join(before, seq![separator]).push(text.last()));
        }
        assert(text =~= text.drop_last().push(text.last()));
    }
}

/// The character of a digit.
pub open spec fn digit_char(digit: nat) -> char {
    ('0' as u32 + digit) as char
}

/// The decimal numeral of a number.
pub open spec fn decimal(n: nat) -> Seq<char>
    decreases n,
{
    if n < 10 {
        seq![digit_char(n)]
    } else {
        decimal(n / 10).push(digit_char(n % 10))
    }
}

/// A numeral has a digit.
pub proof fn lemma_decimal_nonempty(n: nat)
    ensures
        decimal(n).len() > 0,
    decreases n,
{
    if n >= 10 {
        lemma_decimal_nonempty(n / 10);
    }
}

/// Different numbers have different numerals.
pub proof fn lemma_decimal_injective(a: nat, b: nat)
    requires
        decimal(a) == decimal(b),
    ensures
        a == b,
    decreases a,
{
    if a < 10 && b < 10 {
        assert(decimal(a)[0] == digit_char(a));
        assert(decimal(b)[0] == digit_char(b));
        assert(digit_char(a) as u32 == 48 + a);
        assert(digit_char(b) as u32 == 48 + b);
    } else if a < 10 {
        lemma_decimal_nonempty(b / 10);
        assert(decimal(b).len() == decimal(b / 10).len() + 1);
        assert(decimal(a).len() == 1);
    } else if b < 10 {
        lemma_decimal_nonempty(a / 10);
        assert(decimal(a).len() == decimal(a / 10).len() + 1);
        assert(decimal(b).len() == 1);
    } else {
        assert(decimal(a).drop_last() =~= decimal(a / 10));
        assert(decimal(b).drop_last() =~= decimal(b / 10));
        lemma_decimal_injective(a / 10, b / 10);
        assert(decimal(a).last() == digit_char(a % 10));
        assert(decimal(b).last() == digit_char(b % 10));
        assert(digit_char(a % 10) as u32 == 48 + a % 10);
        assert(digit_char(b % 10) as u32 == 48 + b % 10);
    }
}

/// The character of a digit.
fn digit_of(digit: u64) -> (r: char)
    requires
        digit < 10,
    ensures
        r == digit_char(digit as nat),
{
    match digit {
        0 => '0',
        1 => '1',
        2 => '2',
        3 => '3',
        4 => '4',
        5 => '5',
        6 => '6',
        7 => '7',
        8 => '8',
        _ => '9',
    }
}

/// The decimal numeral of a number.
pub fn number_text(n: u64) -> (r: String)
    ensures
        r@ == decimal(n as nat),
    decreases n,
{
    if n < 10 {
        let mut r = String::new();
        r.push(digit_of(n));
        assert(r@ =~= seq![digit_char(n as nat)]);
        r
    } else {
        let mut r = number_text(n / 10);
        r.push(digit_of(n % 10));
        r
    }
}

/// Two texts one after the other.
pub fn concat2(a: &str, b: &str) -> (r: String)
    ensures
        r@ == a@ + b@,
{
    let mut r = a.to_owned();
    r.append(b);
    r
}

/// Three texts one after the other.
pub fn concat3(a: &str, b: &str, c: &str) -> (r: String)
    ensures
        r@ == a@ + b@ + c@,
{
    let mut r = a.to_owned();
    r.append(b);
    r.append(c);
    r
}

/// The view of an optional text.
pub open spec fn option_view(text: Option<String>) -> Option<Seq<char>> {
    match text {
        Some(t) => Some(t@),
        None => None,
    }
}

/// Whether two texts are the same.
pub fn same_text(a: &str, b: &str) -> (r: bool)
    ensures
        r == (a@ == b@),
{
    let x = a.as_bytes();
    let y = b.as_bytes();
    proof {
        encode_utf8_decode_utf8(a@);
        encode_utf8_decode_utf8(b@);
    }
    if x.len() != y.len() {
        return false;
    }
    let mut i: usize = 0;
    while i < x.len()
        invariant
            i <= x@.len() == y@.len(),
            x@ == encode_utf8(a@),
            y@ == encode_utf8(b@),
            x@.take(i as int) == y@.take(i as int),
        decreases x@.len() - i,
    {
        if x[i] != y[i] {
            assert(x@[i as int] != y@[i as int]);
            return false;
        }
        assert(x@.take(i + 1) == x@.take(i as int).push(x@[i as int]));
        assert(y@.take(i + 1) == y@.take(i as int).push(y@[i as int]));
        i = i + 1;
    }
    assert(x@.take(i as int) == x@);
    assert(y@.take(i as int) == y@);
    true
}

/// An ASCII letter as a small letter; any other character as it is.
pub open spec fn ascii_lower(c: char) -> char {
    if 'A' <= c && c <= 'Z' {
        ((c as u32) + 32) as char
    } else {
        c
    }
}

/// Whether two texts are the same but for the case of ASCII letters.
pub open spec fn same_but_for_case(a: Seq<char>, b: Seq<char>) -> bool {
    &&& a.len() == b.len()
    &&& forall|i: int| 0 <= i < a.len() ==> ascii_lower(#[trigger] a[i]) == ascii_lower(b[i])
}

/// An ASCII letter as a small letter; any other character as it is.
pub fn small(c: char) -> (r: char)
    ensures
        r == ascii_lower(c),
{
    if 'A' <= c && c <= 'Z' {
        ((c as u8) + 32) as char
    } else {
        c
    }
}

/// Whether two texts are the same but for the case of ASCII letters.
pub fn same_text_but_for_case(a: &str, b: &str) -> (r: bool)
    ensures
        r == same_but_for_case(a@, b@),
{
    let x = chars_of(a);
    let y = chars_of(b);
    if x.len() != y.len() {
        return false;
    }
    let mut i: usize = 0;
    while i < x.len()
        invariant
            i <= x@.len() == y@.len(),
            x@ == a@,
            y@ == b@,
            forall|k: int| 0 <= k < i ==> ascii_lower(#[trigger] x@[k]) == ascii_lower(y@[k]),
        decreases x@.len() - i,
    {
        if small(x[i]) != small(y[i]) {
            assert(ascii_lower(a@[i as int]) != ascii_lower(b@[i as int]));
            return false;
        }
        i = i + 1;
    }
    true
}

} // verus!
