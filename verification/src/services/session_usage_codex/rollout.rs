//! Session log files: which files are session logs, and which thread each of them
//! belongs to.

use vstd::hash_map::StringHashMap;
use vstd::prelude::*;
use vstd::string::*;
use crate::file_name;
use crate::text;

verus! {

/// The number of bytes that a character takes in UTF-8.
pub open spec fn utf8_width(c: char) -> int {
    if (c as u32) < 0x80 {
        1
    } else if (c as u32) < 0x800 {
        2
    } else if (c as u32) < 0x1_0000 {
        3
    } else {
        4
    }
}

/// The number of bytes that a text takes in UTF-8.
pub open spec fn utf8_len(name: Seq<char>) -> int
    decreases name.len(),
{
    if name.len() == 0 {
        0
    } else {
        utf8_len(name.drop_last()) + utf8_width(name.last())
    }
}

/// The end of a text that takes `n` bytes in UTF-8, where there is one.
pub open spec fn last_bytes(name: Seq<char>, n: int) -> Option<Seq<char>>
    decreases name.len(),
{
    if n == 0 {
        Some(Seq::empty())
    } else if n < 0 || name.len() == 0 {
        None
    } else {
        match last_bytes(name.drop_last(), n - utf8_width(name.last())) {
            Some(before) => Some(before.push(name.last())),
            None => None,
        }
    }
}

/// The hyphenated text of the UUID that `uuid` reads in a text, where it reads
/// one.
pub uninterp spec fn uuid_hyphenated(candidate: Seq<char>) -> Option<Seq<char>>;

/// `uuid::Uuid::parse_str`, and `Hyphenated` on what it gives: both depend on the
/// text alone.
#[verifier::external_body]
pub(crate) fn hyphenated_uuid(candidate: &str) -> (r: Option<String>)
    ensures
        text::option_view(r) == uuid_hyphenated(candidate@),
{
    uuid::Uuid::parse_str(candidate).ok().map(|value| value.hyphenated().to_string())
}

/// The thread that a session log belongs to: the UUID at the end of its name.
pub open spec fn thread_of(name: Seq<char>) -> Option<Seq<char>> {
    match last_bytes(file_name::stem_of(name), 36) {
        Some(candidate) => uuid_hyphenated(candidate),
        None => None,
    }
}

/// A text without `suffix` at its end, as often as it stands there.
pub open spec fn strip_suffixes(name: Seq<char>, suffix: Seq<char>) -> Seq<char>
    decreases name.len(),
{
    if suffix.len() > 0 && text::ends_with(name, suffix) {
        strip_suffixes(name.take(name.len() - suffix.len()), suffix)
    } else {
        name
    }
}

/// Whether a file name is that of a session log: `rollout-`, something, a UUID and
/// `.jsonl`.
pub open spec fn is_rollout_name(name: Seq<char>) -> bool {
    let stem = strip_suffixes(name, ".jsonl"@);
    let candidate = if utf8_len(stem) < 36 {
        Some(stem)
    } else {
        last_bytes(stem, 36)
    };
    &&& text::starts_with(name, "rollout-"@)
    &&& text::ends_with(name, ".jsonl"@)
    &&& candidate matches Some(candidate) && uuid_hyphenated(candidate) is Some
}

/// The number of bytes that a character takes in UTF-8.
fn char_width(c: char) -> (r: usize)
    ensures
        r == utf8_width(c),
{
    let n: u32 = c as u32;
    if n < 0x80 {
        1
    } else if n < 0x800 {
        2
    } else if n < 0x1_0000 {
        3
    } else {
        4
    }
}

/// The start of the last `n` bytes of `chars[..end]`, where they begin with a
/// character.
fn last_bytes_start(chars: &Vec<char>, end: usize, n: usize) -> (r: Option<usize>)
    requires
        end <= chars@.len(),
    ensures
        match r {
            Some(i) => i <= end && last_bytes(chars@.take(end as int), n as int) == Some(
                chars@.subrange(i as int, end as int),
            ),
            None => last_bytes(chars@.take(end as int), n as int) is None,
        },
{
    let mut i: usize = end;
    let mut left: usize = n;
    assert(chars@.subrange(end as int, end as int) =~= Seq::empty());
    while left > 0
        invariant
            i <= end <= chars@.len(),
            last_bytes(chars@.take(end as int), n as int) == match last_bytes(
                chars@.take(i as int),
                left as int,
            ) {
                Some(before) => Some(before + chars@.subrange(i as int, end as int)),
                None => None,
            },
        decreases i,
    {
        if i == 0 {
            return None;
        }
        let width: usize = char_width(chars[i - 1]);
        assert(chars@.take(i as int).drop_last() == chars@.take(i - 1));
        if width > left {
            return None;
        }
        proof {
            if let Some(before) = last_bytes(chars@.take(i - 1), left - width) {
                assert(before.push(chars@[i - 1]) + chars@.subrange(i as int, end as int) =~= before
                    + chars@.subrange(i - 1, end as int));
            }
        }
        i = i - 1;
        left = left - width;
    }
    assert(Seq::<char>::empty() + chars@.subrange(i as int, end as int) =~= chars@.subrange(
        i as int,
        end as int,
    ));
    Some(i)
}

/// Whether a text takes fewer than `n` bytes in UTF-8.
fn is_shorter(chars: &Vec<char>, end: usize, n: usize) -> (r: bool)
    requires
        end <= chars@.len(),
    ensures
        r == (utf8_len(chars@.take(end as int)) < n),
{
    let mut i: usize = 0;
    let mut size: usize = 0;
    while i < end && size < n
        invariant
            i <= end <= chars@.len(),
            size == utf8_len(chars@.take(i as int)),
            size <= n,
        decreases end - i,
    {
        assert(chars@.take(i + 1).drop_last() == chars@.take(i as int));
        let width: usize = char_width(chars[i]);
        if width >= n - size {
            proof {
                lemma_utf8_len_grows(chars@, i + 1, end as int);
            }
            return false;
        }
        size = size + width;
        i = i + 1;
    }
    proof {
        lemma_utf8_len_grows(chars@, i as int, end as int);
    }
    size < n
}

/// More of a text takes at least as many bytes.
proof fn lemma_utf8_len_grows(chars: Seq<char>, i: int, j: int)
    requires
        0 <= i <= j <= chars.len(),
    ensures
        0 <= utf8_len(chars.take(i)) <= utf8_len(chars.take(j)),
    decreases j,
{
    if i < j {
        assert(chars.take(j).drop_last() == chars.take(j - 1));
        lemma_utf8_len_grows(chars, i, j - 1);
    } else if j > 0 {
        assert(chars.take(j).drop_last() == chars.take(j - 1));
        lemma_utf8_len_grows(chars, j - 1, j - 1);
    }
}

/// The thread that the session log with a file name belongs to.
pub fn thread_id_from_filename(name: &str) -> (r: Option<String>)
    ensures
        text::option_view(r) == thread_of(name@),
{
    let chars = text::chars_of(name);
    let end: usize = file_name::stem_end(&chars);
    match last_bytes_start(&chars, end, 36) {
        Some(start) => hyphenated_uuid(text::text_of(&chars, start, end).as_str()),
        None => None,
    }
}

/// Whether a file name is that of a session log.
pub fn is_rollout_filename(file_name: &str) -> (r: bool)
    ensures
        r == is_rollout_name(file_name@),
{
    if !text::has_prefix(file_name, "rollout-") || !text::has_suffix(file_name, ".jsonl") {
        return false;
    }
    let chars = text::chars_of(file_name);
    let mut end: usize = chars.len();
    assert(chars@.take(end as int) == chars@);
    proof {
        reveal_strlit(".jsonl");
    }
    loop
        invariant
            end <= chars@.len(),
            ".jsonl"@.len() == 6,
            strip_suffixes(chars@, ".jsonl"@) == strip_suffixes(chars@.take(end as int), ".jsonl"@),
        ensures
            end <= chars@.len(),
            strip_suffixes(chars@, ".jsonl"@) == chars@.take(end as int),
        decreases end,
    {
        let stem = text::text_of(&chars, 0, end);
        assert(chars@.subrange(0, end as int) == chars@.take(end as int));
        if !text::has_suffix(stem.as_str(), ".jsonl") {
            break;
        }
        assert(chars@.take(end as int).take(end - 6) == chars@.take(end - 6));
        end = end - 6;
    }
    let start: Option<usize> = if is_shorter(&chars, end, 36) {
        assert(chars@.subrange(0, end as int) == chars@.take(end as int));
        Some(0)
    } else {
        last_bytes_start(&chars, end, 36)
    };
    match start {
        Some(start) => hyphenated_uuid(text::text_of(&chars, start, end).as_str()).is_some(),
        None => false,
    }
}

/// The parts of a path, whichever way its slashes lean.
pub open spec fn path_parts(path: Seq<char>) -> Seq<Seq<char>> {
    text::split_on(
        path.map_values(
            |c: char|
                if c == '\\' {
                    '/'
                } else {
                    c
                },
        ),
        '/',
    )
}

/// Whether a part of a path is a directory of session logs.
pub open spec fn is_log_directory(part: Seq<char>) -> bool {
    part == "sessions"@ || part == "archived_sessions"@
}

/// Whether a path is that of a session log: its name is that of one, and it lies
/// under a directory of session logs.
pub open spec fn is_cursor_path(path: Seq<char>) -> bool {
    let parts = path_parts(path);
    &&& is_rollout_name(parts.last())
    &&& exists|i: int| 0 <= i < parts.len() && is_log_directory(#[trigger] parts[i])
}

/// The parts of a path.
fn parts_of(path: &str) -> (r: Vec<String>)
    ensures
        text::views(r@) == path_parts(path@),
        r@.len() > 0,
{
    let chars = text::chars_of(path);
    let ghost leaned = path@.map_values(
        |c: char|
            if c == '\\' {
                '/'
            } else {
                c
            },
    );
    let mut plain = String::new();
    let mut i: usize = 0;
    assert(leaned.take(0) =~= Seq::empty());
    while i < chars.len()
        invariant
            chars@ == path@,
            i <= chars@.len() == leaned.len(),
            forall|k: int|
                0 <= k < leaned.len() ==> #[trigger] leaned[k] == if path@[k] == '\\' {
                    '/'
                } else {
                    path@[k]
                },
            plain@ == leaned.take(i as int),
        decreases chars@.len() - i,
    {
        let c = if chars[i] == '\\' {
            '/'
        } else {
            chars[i]
        };
        plain.push(c);
        assert(leaned.take(i + 1) == leaned.take(i as int).push(leaned[i as int]));
        i = i + 1;
    }
    assert(leaned.take(i as int) == leaned);
    proof {
        text::lemma_split_on_nonempty(leaned, '/');
    }
    let r = text::pieces(plain.as_str(), '/');
    assert(text::views(r@).len() == r@.len());
    r
}

/// Whether a path is that of a session log.
pub fn is_codex_cursor_path(file_path: &str) -> (r: bool)
    ensures
        r == is_cursor_path(file_path@),
{
    let parts = parts_of(file_path);
    let ghost views = path_parts(file_path@);
    let last: usize = parts.len() - 1;
    assert(text::views(parts@)[last as int] == parts@[last as int]@);
    if !is_rollout_filename(parts[last].as_str()) {
        return false;
    }
    let mut i: usize = 0;
    while i < parts.len()
        invariant
            i <= parts@.len() == views.len(),
            text::views(parts@) == views,
            views == path_parts(file_path@),
            is_rollout_name(views.last()),
            forall|k: int| 0 <= k < i ==> !is_log_directory(#[trigger] views[k]),
        decreases parts@.len() - i,
    {
        assert(text::views(parts@)[i as int] == parts@[i as int]@);
        if text::same_text(parts[i].as_str(), "sessions") || text::same_text(
            parts[i].as_str(),
            "archived_sessions",
        ) {
            assert(is_log_directory(views[i as int]));
            return true;
        }
        i = i + 1;
    }
    false
}

/// Whether a path stands before another one or is the same: part by part, so that
/// a slash stands before every other character.
pub open spec fn path_before(a: Seq<char>, b: Seq<char>) -> bool
    decreases a.len(),
{
    if a.len() == 0 {
        true
    } else if b.len() == 0 {
        false
    } else if a[0] == b[0] {
        path_before(a.drop_first(), b.drop_first())
    } else {
        a[0] == '/' || (b[0] != '/' && a[0] < b[0])
    }
}

/// Of two paths one stands before the other.
proof fn lemma_path_before_total(a: Seq<char>, b: Seq<char>)
    ensures
        path_before(a, b) || path_before(b, a),
    decreases a.len(),
{
    if a.len() > 0 && b.len() > 0 && a[0] == b[0] {
        lemma_path_before_total(a.drop_first(), b.drop_first());
    }
}

/// What stands before a path stands before those after it.
proof fn lemma_path_before_transitive(a: Seq<char>, b: Seq<char>, c: Seq<char>)
    requires
        path_before(a, b),
        path_before(b, c),
    ensures
        path_before(a, c),
    decreases a.len(),
{
    if a.len() > 0 && b.len() > 0 && c.len() > 0 && a[0] == b[0] && b[0] == c[0] {
        lemma_path_before_transitive(a.drop_first(), b.drop_first(), c.drop_first());
    }
}

/// Whether paths stand in order.
pub open spec fn in_order(paths: Seq<Seq<char>>) -> bool {
    forall|i: int, j: int|
        0 <= i <= j < paths.len() ==> path_before(#[trigger] paths[i], #[trigger] paths[j])
}

/// Whether a path stands before another one or is the same.
fn stands_before(a: &str, b: &str) -> (r: bool)
    ensures
        r == path_before(a@, b@),
{
    let x = text::chars_of(a);
    let y = text::chars_of(b);
    let mut i: usize = 0;
    assert(x@.skip(0) == x@);
    assert(y@.skip(0) == y@);
    while i < x.len()
        invariant
            x@ == a@,
            y@ == b@,
            i <= x@.len(),
            i <= y@.len(),
            path_before(a@, b@) == path_before(x@.skip(i as int), y@.skip(i as int)),
        decreases x@.len() - i,
    {
        if i >= y.len() {
            return false;
        }
        assert(x@.skip(i as int).drop_first() == x@.skip(i + 1));
        assert(y@.skip(i as int).drop_first() == y@.skip(i + 1));
        if x[i] != y[i] {
            return x[i] == '/' || (y[i] != '/' && x[i] < y[i]);
        }
        i = i + 1;
    }
    true
}

/// A session log file: its path, and its name where that is text.
#[derive(Debug)]
pub struct RolloutFile {
    pub path: String,
    pub name: Option<String>,
}

/// The thread that a file belongs to.
pub open spec fn file_thread(file: RolloutFile) -> Option<Seq<char>> {
    match file.name {
        Some(name) => thread_of(name@),
        None => None,
    }
}

/// The paths of the files that belong to a thread.
pub open spec fn thread_paths(files: Seq<RolloutFile>, thread: Seq<char>) -> Seq<Seq<char>>
    decreases files.len(),
{
    if files.len() == 0 {
        Seq::empty()
    } else {
        let before = thread_paths(files.drop_last(), thread);
        if file_thread(files.last()) == Some(thread) {
            before.push(files.last().path@)
        } else {
            before
        }
    }
}

/// The session logs of each thread.
pub struct RolloutIndex {
    paths: StringHashMap<Vec<String>>,
}

impl RolloutIndex {
    /// Whether a thread has a session log.
    pub closed spec fn has(self, thread: Seq<char>) -> bool {
        self.paths@.dom().contains(thread)
    }

    /// The session logs of a thread.
    pub closed spec fn paths_of(self, thread: Seq<char>) -> Seq<Seq<char>> {
        text::views(self.paths@[thread]@)
    }

    /// Whether the index holds exactly the session logs of a list of files, those
    /// of each thread in order.
    pub open spec fn indexes(self, files: Seq<RolloutFile>) -> bool {
        forall|thread: Seq<char>|
            {
                &&& #[trigger] self.has(thread) <==> thread_paths(files, thread).len() > 0
                &&& self.has(thread) ==> in_order(self.paths_of(thread))
                &&& self.has(thread) ==> self.paths_of(thread).to_multiset() == thread_paths(
                    files,
                    thread,
                ).to_multiset()
            }
    }

    /// Whether a thread has a session log.
    pub fn contains_thread(&self, thread: &str) -> (r: bool)
        ensures
            r == self.has(thread@),
    {
        self.paths.contains_key(thread)
    }

    /// The session logs of a thread.
    pub fn get(&self, thread: &str) -> (r: Option<&Vec<String>>)
        ensures
            match r {
                Some(paths) => self.has(thread@) && text::views(paths@) == self.paths_of(thread@),
                None => !self.has(thread@),
            },
    {
        self.paths.get(thread)
    }
}

/// Puts a path where it belongs among paths in order.
fn insert_in_order(paths: &mut Vec<String>, path: String)
    requires
        in_order(text::views(old(paths)@)),
    ensures
        in_order(text::views(final(paths)@)),
        text::views(final(paths)@).to_multiset() == text::views(old(paths)@).to_multiset().insert(
            path@,
        ),
        final(paths)@.len() == old(paths)@.len() + 1,
{
    let ghost before = text::views(paths@);
    let mut i: usize = 0;
    while i < paths.len() && stands_before(paths[i].as_str(), path.as_str())
        invariant
            i <= paths@.len() == before.len(),
            text::views(paths@) == before,
            paths@ == old(paths)@,
            forall|k: int| 0 <= k < i ==> path_before(#[trigger] before[k], path@),
        decreases paths@.len() - i,
    {
        assert(text::views(paths@)[i as int] == paths@[i as int]@);
        i = i + 1;
    }
    proof {
        if i < before.len() {
            assert(text::views(paths@)[i as int] == paths@[i as int]@);
            lemma_path_before_total(before[i as int], path@);
        }
        assert forall|k: int| i <= k < before.len() implies path_before(
            path@,
            #[trigger] before[k],
        ) by {
            assert(path_before(before[i as int], before[k]));
            lemma_path_before_transitive(path@, before[i as int], before[k]);
        }
    }
    paths.insert(i, path);
    proof {
        let after = text::views(paths@);
        assert(after =~= before.insert(i as int, path@));
        vstd::seq_lib::to_multiset_insert(before, i as int, path@);
        lemma_path_before_total(path@, path@);
        assert forall|a: int, b: int| 0 <= a <= b < after.len() implies path_before(
            #[trigger] after[a],
            #[trigger] after[b],
        ) by {
            if a < i {
                assert(after[a] == before[a]);
            } else if a > i {
                assert(after[a] == before[a - 1]);
            }
            if b < i {
                assert(after[b] == before[b]);
            } else if b > i {
                assert(after[b] == before[b - 1]);
            }
        }
    }
}

/// The session logs of each thread, out of a list of files.
pub fn build_rollout_index(files: &Vec<RolloutFile>) -> (r: RolloutIndex)
    ensures
        r.indexes(files@),
{
    let mut index = RolloutIndex { paths: StringHashMap::new() };
    let mut i: usize = 0;
    while i < files.len()
        invariant
            i <= files@.len(),
            index.indexes(files@.take(i as int)),
        decreases files@.len() - i,
    {
        let file = &files[i];
        let ghost before = index;
        let ghost seen = files@.take(i as int);
        assert(files@.take(i + 1).drop_last() == seen);
        assert(files@.take(i + 1).last() == *file);
        let thread = match &file.name {
            Some(name) => thread_id_from_filename(name.as_str()),
            None => None,
        };
        if let Some(thread) = thread {
            let mut paths = match index.paths.get(thread.as_str()) {
                Some(paths) => text::copy_texts(paths),
                None => Vec::new(),
            };
            let ghost old_paths = thread_paths(seen, thread@);
            proof {
                assert(before.has(thread@) <==> old_paths.len() > 0);
                if !before.has(thread@) {
                    assert(text::views(paths@) =~= old_paths);
                }
                vstd::seq_lib::to_multiset_build(old_paths, file.path@);
            }
            insert_in_order(&mut paths, file.path.clone());
            index.paths.insert(thread, paths);
            assert forall|t: Seq<char>| {
                &&& #[trigger] index.has(t) <==> thread_paths(files@.take(i + 1), t).len() > 0
                &&& index.has(t) ==> in_order(index.paths_of(t))
                &&& index.has(t) ==> index.paths_of(t).to_multiset() == thread_paths(
                    files@.take(i + 1),
                    t,
                ).to_multiset()
            } by {
                assert(before.has(t) <==> thread_paths(seen, t).len() > 0);
                if t != thread@ {
                    assert(thread_paths(files@.take(i + 1), t) == thread_paths(seen, t));
                    assert(index.has(t) == before.has(t));
                    if before.has(t) {
                        assert(index.paths_of(t) == before.paths_of(t));
                    }
                }
            }
        } else {
            assert forall|t: Seq<char>| #[trigger] thread_paths(
                files@.take(i + 1),
                t,
            ) == thread_paths(seen, t) by {}
        }
        i = i + 1;
    }
    assert(files@.take(i as int) == files@);
    index
}

/// The end of a text that takes so many bytes is an end of it, and takes just as many.
pub proof fn law_the_end_of_a_name_takes_so_many_bytes(name: Seq<char>, n: int)
    ensures
        last_bytes(name, n) matches Some(end) ==> {
            &&& end.is_suffix_of(name)
            &&& utf8_len(end) == n
        },
    decreases name.len(),
{
    if n == 0 {
        assert(Seq::<char>::empty().is_suffix_of(name));
    } else if n > 0 && name.len() > 0 {
        let head = name.drop_last();
        law_the_end_of_a_name_takes_so_many_bytes(head, n - utf8_width(name.last()));
        if let Some(before) = last_bytes(head, n - utf8_width(name.last())) {
            let end = before.push(name.last());
            assert(end.drop_last() =~= before);
            assert(before =~= head.subrange(head.len() - before.len(), head.len() as int));
            assert(end =~= name.subrange(name.len() - end.len(), name.len() as int));
        }
    }
}

/// A file belongs to the paths of a thread just where its name ends in the thread's UUID.
pub proof fn law_a_thread_has_the_files_named_after_it(files: Seq<RolloutFile>, thread: Seq<char>, k: int)
    requires
        0 <= k < files.len(),
        file_thread(files[k]) == Some(thread),
    ensures
        thread_paths(files, thread).contains(files[k].path@),
    decreases files.len(),
{
    let all = thread_paths(files, thread);
    if k == files.len() - 1 {
        assert(all[all.len() - 1] == files[k].path@);
    } else {
        let head = files.drop_last();
        law_a_thread_has_the_files_named_after_it(head, thread, k);
        let before = thread_paths(head, thread);
        let i = choose|i: int| 0 <= i < before.len() && before[i] == files[k].path@;
        assert(all[i] == files[k].path@);
    }
}

/// The paths of a thread are those of files that are named after it.
pub proof fn law_a_thread_has_no_other_files(files: Seq<RolloutFile>, thread: Seq<char>, i: int)
    requires
        0 <= i < thread_paths(files, thread).len(),
    ensures
        exists|k: int|
            0 <= k < files.len() && file_thread(#[trigger] files[k]) == Some(thread)
                && files[k].path@ == thread_paths(files, thread)[i],
    decreases files.len(),
{
    if files.len() > 0 {
        let head = files.drop_last();
        let before = thread_paths(head, thread);
        if i < before.len() {
            law_a_thread_has_no_other_files(head, thread, i);
            let k = choose|k: int|
                0 <= k < head.len() && file_thread(#[trigger] head[k]) == Some(thread)
                    && head[k].path@ == before[i];
            assert(file_thread(files[k]) == Some(thread));
        } else {
            assert(file_thread(files[files.len() - 1]) == Some(thread));
        }
    }
}

/// Two different paths stand in one order only.
pub proof fn law_paths_stand_in_one_order(a: Seq<char>, b: Seq<char>)
    ensures
        path_before(a, b) || path_before(b, a),
        path_before(a, b) && path_before(b, a) ==> a == b,
    decreases a.len(),
{
    lemma_path_before_total(a, b);
    if a.len() > 0 && b.len() > 0 && a[0] == b[0] {
        law_paths_stand_in_one_order(a.drop_first(), b.drop_first());
        assert(a =~= seq![a[0]] + a.drop_first());
        assert(b =~= seq![b[0]] + b.drop_first());
    } else if a.len() == 0 && b.len() == 0 {
        assert(a =~= b);
    }
}

/// The logs in a directory stand before those beside it whose names begin alike: a slash stands
/// before every other character.
pub proof fn law_a_directory_stands_before_what_begins_alike(
    directory: Seq<char>,
    inside: Seq<char>,
    c: char,
    beside: Seq<char>,
)
    requires
        c != '/',
    ensures
        path_before(directory + seq!['/'] + inside, directory + seq![c] + beside),
        !path_before(directory + seq![c] + beside, directory + seq!['/'] + inside),
    decreases directory.len(),
{
    let a = directory + seq!['/'] + inside;
    let b = directory + seq![c] + beside;
    if directory.len() > 0 {
        let rest = directory.drop_first();
        law_a_directory_stands_before_what_begins_alike(rest, inside, c, beside);
        assert(a.drop_first() =~= rest + seq!['/'] + inside);
        assert(b.drop_first() =~= rest + seq![c] + beside);
        assert(a[0] == directory[0] && b[0] == directory[0]);
    } else {
        assert(a[0] == '/' && b[0] == c);
    }
}

proof fn lemma_utf8_len_of_sum(a: Seq<char>, b: Seq<char>)
    ensures
        utf8_len(a + b) == utf8_len(a) + utf8_len(b),
        utf8_len(a) >= 0,
    decreases b.len(), a.len(),
{
    if b.len() > 0 {
        assert((a + b).drop_last() =~= a + b.drop_last());
        lemma_utf8_len_of_sum(a, b.drop_last());
    } else {
        assert(a + b =~= a);
        if a.len() > 0 {
            lemma_utf8_len_of_sum(a.drop_last(), b);
        }
    }
}

/// An end that takes so many bytes is the end of the text that takes so many.
pub proof fn law_the_end_of_a_name_is_found(before: Seq<char>, end: Seq<char>)
    ensures
        last_bytes(before + end, utf8_len(end)) == Some(end),
    decreases end.len(),
{
    lemma_utf8_len_of_sum(end, Seq::empty());
    if end.len() == 0 {
        assert(end =~= Seq::empty());
    } else {
        let head = end.drop_last();
        lemma_utf8_len_of_sum(head, Seq::empty());
        assert((before + end).drop_last() =~= before + head);
        law_the_end_of_a_name_is_found(before, head);
        assert(head.push(end.last()) =~= end);
    }
}

/// A file is a session log just where what stands between `rollout-` and `.jsonl` ends in a
/// UUID.
pub proof fn law_a_log_is_named_after_its_uuid(middle: Seq<char>, candidate: Seq<char>)
    requires
        utf8_len(candidate) == 36,
        !text::ends_with("rollout-"@ + middle + candidate, ".jsonl"@),
    ensures
        is_rollout_name("rollout-"@ + middle + candidate + ".jsonl"@) <==> uuid_hyphenated(
            candidate,
        ) is Some,
{
    reveal_strlit(".jsonl");
    let stem = "rollout-"@ + middle + candidate;
    let suffix = ".jsonl"@;
    let name = stem + suffix;
    assert(name.subrange(name.len() - suffix.len(), name.len() - suffix.len() + suffix.len())
        =~= suffix);
    assert(name.take(name.len() - suffix.len()) =~= stem);
    assert(strip_suffixes(stem, suffix) == stem);
    assert(strip_suffixes(name, suffix) == stem);
    lemma_utf8_len_of_sum("rollout-"@ + middle, candidate);
    law_the_end_of_a_name_is_found("rollout-"@ + middle, candidate);
    assert(name.subrange(0, 0int + "rollout-"@.len()) =~= "rollout-"@);
}

/// A file whose name does not begin with `rollout-`, or does not end with `.jsonl`, is no
/// session log.
pub proof fn law_other_files_are_no_logs(name: Seq<char>)
    requires
        !text::starts_with(name, "rollout-"@) || !text::ends_with(name, ".jsonl"@),
    ensures
        !is_rollout_name(name),
{
}

/// It does not matter which way the slashes of a path lean.
pub proof fn law_slashes_may_lean_either_way(path: Seq<char>)
    ensures
        ({
            let leaned = path.map_values(
                |c: char|
                    if c == '\\' {
                        '/'
                    } else {
                        c
                    },
            );
            &&& path_parts(leaned) == path_parts(path)
            &&& is_cursor_path(leaned) == is_cursor_path(path)
        }),
{
    let lean = |c: char|
        if c == '\\' {
            '/'
        } else {
            c
        };
    assert(path.map_values(lean).map_values(lean) =~= path.map_values(lean));
}

/// A path is that of a session log only where its last part is the name of one and a part of it
/// is a directory of session logs.
pub proof fn law_a_log_lies_under_a_directory_of_logs(path: Seq<char>)
    ensures
        is_cursor_path(path) <==> {
            &&& is_rollout_name(path_parts(path).last())
            &&& path_parts(path).contains("sessions"@) || path_parts(path).contains(
                "archived_sessions"@,
            )
        },
{
    let parts = path_parts(path);
    if parts.contains("sessions"@) {
        let i = choose|i: int| 0 <= i < parts.len() && parts[i] == "sessions"@;
        assert(is_log_directory(parts[i]));
    }
    if parts.contains("archived_sessions"@) {
        let i = choose|i: int| 0 <= i < parts.len() && parts[i] == "archived_sessions"@;
        assert(is_log_directory(parts[i]));
    }
}

/// A log belongs to the thread whose UUID its name ends in.
pub proof fn law_a_log_belongs_to_the_thread_at_its_end(name: Seq<char>, before: Seq<char>, end: Seq<char>)
    requires
        file_name::stem_of(name) == before + end,
        utf8_len(end) == 36,
    ensures
        thread_of(name) == uuid_hyphenated(end),
{
    law_the_end_of_a_name_is_found(before, end);
}

} // verus!
