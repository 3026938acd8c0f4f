//! File names and their extensions.

use vstd::prelude::*;
use vstd::string::*;
use crate::text;

verus! {

/// A file name without its extension. A dot at the beginning does not begin an
/// extension.
pub open spec fn stem_of(name: Seq<char>) -> Seq<char> {
    match last_dot(name) {
        Some(i) => if i == 0 || name == seq!['.', '.'] {
            name
        } else {
            name.take(i)
        },
        None => name,
    }
}

/// The position of the last dot.
pub open spec fn last_dot(name: Seq<char>) -> Option<int>
    decreases name.len(),
{
    if name.len() == 0 {
        None
    } else if name.last() == '.' {
        Some(name.len() - 1)
    } else {
        last_dot(name.drop_last())
    }
}

/// The end of the stem of a file name.
pub fn stem_end(name: &Vec<char>) -> (r: usize)
    ensures
        r <= name@.len(),
        stem_of(name@) == name@.take(r as int),
{
    let n: usize = name.len();
    let mut i: usize = n;
    assert(name@.take(n as int) == name@);
    while i > 0
        invariant
            i <= n == name@.len(),
            last_dot(name@) == last_dot(name@.take(i as int)),
        decreases i,
    {
        if name[i - 1] == '.' {
            let both = n == 2 && name[0] == '.' && name[1] == '.';
            assert(both == (name@ =~= seq!['.', '.']));
            if i == 1 || both {
                return n;
            }
            return i - 1;
        }
        assert(name@.take(i as int).drop_last() == name@.take(i - 1));
        i = i - 1;
    }
    n
}

/// Whether a file name has an extension.
pub fn has_extension(name: &str, extension: &str) -> (r: bool)
    ensures
        r == (stem_of(name@).len() < name@.len() && name@.skip(stem_of(name@).len() as int + 1)
            == extension@),
{
    let chars = text::chars_of(name);
    let end: usize = stem_end(&chars);
    if end >= chars.len() {
        return false;
    }
    assert(chars@.skip(end + 1) == chars@.subrange(end + 1, chars@.len() as int));
    text::same_text(text::text_of(&chars, end + 1, chars.len()).as_str(), extension)
}

proof fn lemma_last_dot(name: Seq<char>)
    ensures
        match last_dot(name) {
            Some(i) => {
                &&& 0 <= i < name.len()
                &&& name[i] == '.'
                &&& !name.skip(i + 1).contains('.')
            },
            None => !name.contains('.'),
        },
    decreases name.len(),
{
    if name.len() > 0 && name.last() != '.' {
        let head = name.drop_last();
        lemma_last_dot(head);
        if let Some(i) = last_dot(head) {
            let rest = name.skip(i + 1);
            let before = head.skip(i + 1);
            assert forall|k: int| 0 <= k < rest.len() implies #[trigger] rest[k] != '.' by {
                if k < before.len() {
                    assert(before[k] == rest[k]);
                    assert(before.contains(before[k]));
                }
            }
        } else {
            assert forall|k: int| 0 <= k < name.len() implies #[trigger] name[k] != '.' by {
                if k < head.len() {
                    assert(head.contains(head[k]));
                }
            }
        }
    }
}

/// A file name is its stem, or its stem, a dot and an extension that holds no dot; the stem is
/// never empty unless the name is.
pub proof fn law_a_name_is_a_stem_and_an_extension(name: Seq<char>)
    ensures
        stem_of(name).is_prefix_of(name),
        name.len() > 0 ==> stem_of(name).len() > 0,
        stem_of(name).len() < name.len() ==> {
            let n = stem_of(name).len() as int;
            &&& name[n] == '.'
            &&& !name.skip(n + 1).contains('.')
        },
        stem_of(name) == name ==> forall|i: int|
            0 < i < name.len() && #[trigger] name[i] == '.' ==> name == seq!['.', '.'],
{
    lemma_last_dot(name);
    assert(name.take(name.len() as int) =~= name);
    if stem_of(name) == name {
        if let Some(d) = last_dot(name) {
            assert forall|i: int| 0 < i < name.len() && #[trigger] name[i] == '.' implies name
                == seq!['.', '.'] by {
                if d == 0 {
                    assert(name.skip(1)[i - 1] == '.');
                }
            }
        } else {
            assert forall|i: int| 0 < i < name.len() && #[trigger] name[i] == '.' implies name
                == seq!['.', '.'] by {
                assert(name.contains('.'));
            }
        }
    }
}

/// A name that ends in a dot and an extension, behind something else, has that extension.
pub proof fn law_an_extension_is_what_stands_behind_the_last_dot(
    stem: Seq<char>,
    extension: Seq<char>,
)
    requires
        stem.len() > 0,
        extension.len() > 0,
        !extension.contains('.'),
    ensures
        stem_of(stem + seq!['.'] + extension) == stem,
{
    let name = stem + seq!['.'] + extension;
    lemma_last_dot(name);
    assert(name[stem.len() as int] == '.');
    if let Some(d) = last_dot(name) {
        if d < stem.len() {
            assert(name.skip(d + 1)[stem.len() - d - 1] == '.');
        } else if d > stem.len() {
            assert(extension[d - stem.len() - 1] == '.');
        }
        assert(name.take(stem.len() as int) =~= stem);
    }
}

} // verus!
