//! Which files are parsed in a scan, and what becomes of them.

use vstd::prelude::*;
use crate::session_manager::cache;
#[allow(unused_imports)]
use crate::session_manager::cache::{CachedScanRow, EntryView, MetaView, RowView, TargetView};

verus! {

/// Whether a row is what is remembered of a file: the last one of its path.
pub open spec fn is_remembered(rows: Seq<RowView>, path: Seq<char>, k: int) -> bool {
    &&& 0 <= k < rows.len()
    &&& rows[k].file_path == path
    &&& forall|i: int| k < i < rows.len() ==> (#[trigger] rows[i]).file_path != path
}

proof fn lemma_row_for(rows: Seq<RowView>, path: Seq<char>, k: int)
    requires
        is_remembered(rows, path, k),
    ensures
        cache::row_for(rows, path) == Some(rows[k]),
    decreases rows.len(),
{
    if k < rows.len() - 1 {
        let head = rows.drop_last();
        assert(rows[rows.len() - 1].file_path != path);
        assert(is_remembered(head, path, k)) by {
            assert(forall|i: int| 0 <= i < head.len() ==> head[i] == rows[i]);
        }
        lemma_row_for(head, path, k);
    }
}

proof fn lemma_no_row(rows: Seq<RowView>, path: Seq<char>)
    requires
        forall|i: int| 0 <= i < rows.len() ==> (#[trigger] rows[i]).file_path != path,
    ensures
        cache::row_for(rows, path) is None,
    decreases rows.len(),
{
    if rows.len() > 0 {
        let head = rows.drop_last();
        assert(rows[rows.len() - 1].file_path != path);
        assert forall|i: int| 0 <= i < head.len() implies (#[trigger] head[i]).file_path != path by {
            assert(head[i] == rows[i]);
        }
        lemma_no_row(head, path);
    }
}

proof fn lemma_is_parsed(files: Seq<TargetView>, rows: Seq<RowView>, force: bool, t: int)
    requires
        0 <= t < files.len(),
        cache::cached_meta(rows, files[t], force) is None,
    ensures
        cache::to_parse(files, rows, force).contains(files[t]),
    decreases files.len(),
{
    let all = cache::to_parse(files, rows, force);
    if t < files.len() - 1 {
        let head = files.drop_last();
        assert(head[t] == files[t]);
        lemma_is_parsed(head, rows, force, t);
        let before = cache::to_parse(head, rows, force);
        let i = choose|i: int| 0 <= i < before.len() && before[i] == files[t];
        assert(all[i] == files[t]);
    } else {
        assert(all[all.len() - 1] == files[t]);
    }
}

/// A file that has changed is parsed: another time, another size, or a record of another
/// version than is kept now is enough, and so is a record from which nothing can be read.
pub proof fn law_a_changed_file_is_parsed(
    files: Seq<TargetView>,
    rows: Seq<RowView>,
    t: int,
    k: int,
)
    requires
        0 <= t < files.len(),
        is_remembered(rows, files[t].path, k),
        rows[k].mtime_ns != files[t].mtime_ns || rows[k].size != files[t].size
            || rows[k].cache_version != 1 || rows[k].meta is None,
    ensures
        cache::to_parse(files, rows, false).contains(files[t]),
{
    lemma_row_for(rows, files[t].path, k);
    lemma_is_parsed(files, rows, false, t);
}

/// A file of which nothing is remembered is parsed.
pub proof fn law_a_new_file_is_parsed(files: Seq<TargetView>, rows: Seq<RowView>, t: int)
    requires
        0 <= t < files.len(),
        forall|i: int| 0 <= i < rows.len() ==> (#[trigger] rows[i]).file_path != files[t].path,
    ensures
        cache::to_parse(files, rows, false).contains(files[t]),
{
    lemma_no_row(rows, files[t].path);
    lemma_is_parsed(files, rows, false, t);
}

/// A file that has not changed is not parsed: what is remembered of it is used.
pub proof fn law_an_unchanged_file_is_reused(
    files: Seq<TargetView>,
    rows: Seq<RowView>,
    t: int,
    k: int,
    meta: MetaView,
)
    requires
        0 <= t < files.len(),
        is_remembered(rows, files[t].path, k),
        rows[k].mtime_ns == files[t].mtime_ns,
        rows[k].size == files[t].size,
        rows[k].cache_version == 1,
        rows[k].meta == Some(meta),
        files[t].mtime_ns != 0,
    ensures
        cache::reused(files, rows, false).contains(meta),
    decreases files.len(),
{
    lemma_row_for(rows, files[t].path, k);
    let all = cache::reused(files, rows, false);
    if t < files.len() - 1 {
        let head = files.drop_last();
        assert(head[t] == files[t]);
        law_an_unchanged_file_is_reused(head, rows, t, k, meta);
        let before = cache::reused(head, rows, false);
        let i = choose|i: int| 0 <= i < before.len() && before[i] == meta;
        assert(all[i] == meta);
    } else {
        assert(all[all.len() - 1] == meta);
    }
}

/// Every file is either parsed or taken from what is remembered, and never both.
pub proof fn law_every_file_is_parsed_or_reused(
    files: Seq<TargetView>,
    rows: Seq<RowView>,
    force: bool,
)
    ensures
        cache::to_parse(files, rows, force).len() + cache::reused(files, rows, force).len()
            == files.len(),
    decreases files.len(),
{
    if files.len() > 0 {
        law_every_file_is_parsed_or_reused(files.drop_last(), rows, force);
    }
}

/// What is remembered of a file that was parsed is its path, its time and its size as they
/// were found, whose it is, and what was parsed; a file that is no session leaves nothing.
pub proof fn law_what_was_parsed_is_remembered(
    provider: Seq<char>,
    files: Seq<TargetView>,
    parsed: Seq<Option<MetaView>>,
    k: int,
    meta: MetaView,
)
    requires
        parsed.len() == files.len(),
        0 <= k < parsed.len(),
        parsed[k] == Some(meta),
    ensures
        exists|i: int|
            0 <= i < cache::entries_of(provider, files, parsed).len() && {
                let entry = #[trigger] cache::entries_of(provider, files, parsed)[i];
                &&& entry.file_path == files[k].path
                &&& entry.mtime_ns == files[k].mtime_ns
                &&& entry.size == files[k].size
                &&& entry.provider == provider
                &&& entry.meta == meta
                &&& entry.cache_version == 1
            },
        cache::found(parsed).contains(meta),
        cache::entries_of(provider, files, parsed).len() == cache::found(parsed).len(),
{
    lemma_entries(provider, files, parsed, k, meta);
}

proof fn lemma_entries(
    provider: Seq<char>,
    files: Seq<TargetView>,
    parsed: Seq<Option<MetaView>>,
    k: int,
    meta: MetaView,
)
    requires
        parsed.len() <= files.len(),
        0 <= k < parsed.len(),
        parsed[k] == Some(meta),
    ensures
        exists|i: int|
            0 <= i < cache::entries_of(provider, files, parsed).len()
                && #[trigger] cache::entries_of(provider, files, parsed)[i] == cache::entry_of(
                provider,
                files[k],
                meta,
            ),
        cache::found(parsed).contains(meta),
        cache::entries_of(provider, files, parsed).len() == cache::found(parsed).len(),
    decreases parsed.len(),
{
    let head = parsed.drop_last();
    let all = cache::entries_of(provider, files, parsed);
    let before = cache::entries_of(provider, files, head);
    let metas = cache::found(parsed);
    lemma_as_many(provider, files, parsed);
    if k < parsed.len() - 1 {
        assert(head[k] == parsed[k]);
        lemma_entries(provider, files, head, k, meta);
        let i = choose|i: int|
            0 <= i < before.len() && #[trigger] before[i] == cache::entry_of(
                provider,
                files[k],
                meta,
            );
        assert(all[i] == before[i]);
        let earlier = cache::found(head);
        let j = choose|j: int| 0 <= j < earlier.len() && earlier[j] == meta;
        assert(metas[j] == meta);
    } else {
        assert(all[all.len() - 1] == cache::entry_of(provider, files[k], meta));
        assert(metas[metas.len() - 1] == meta);
    }
}

proof fn lemma_as_many(provider: Seq<char>, files: Seq<TargetView>, parsed: Seq<Option<MetaView>>)
    ensures
        cache::entries_of(provider, files, parsed).len() == cache::found(parsed).len(),
    decreases parsed.len(),
{
    if parsed.len() > 0 {
        lemma_as_many(provider, files, parsed.drop_last());
    }
}

/// Between one and four workers parse, and half of what can run at once where that lies
/// between.
pub proof fn law_few_workers_parse(n: usize)
    ensures
        1 <= cache::worker_count(Some(n)) <= 4,
        2 <= n <= 8 && n % 2 == 0 ==> cache::worker_count(Some(n)) * 2 == n,
        cache::worker_count(None) == 2,
{
}

/// A cache that could not be read is one in which nothing is remembered.
pub proof fn law_an_unreadable_cache_remembers_nothing(rows: Vec<CachedScanRow>, error: String)
    ensures
        cache::loaded_rows(Err(error)).len() == 0,
        cache::loaded_rows(Ok(rows)) == cache::row_views(rows@),
{
}

/// A file counts as changed when it or the file beside it was changed last, and its size counts
/// both and one more; a time that could not be read stays one, and a file with none beside it is
/// what it is.
pub proof fn law_a_file_is_as_new_as_what_is_beside_it(target: TargetView, mtime_ns: i64, size: i64)
    ensures
        ({
            let both = cache::mixed(target, Some((mtime_ns, size)));
            &&& both.path == target.path
            &&& target.mtime_ns == 0 ==> both.mtime_ns == 0
            &&& target.mtime_ns != 0 ==> {
                &&& both.mtime_ns >= target.mtime_ns
                &&& both.mtime_ns >= mtime_ns
                &&& both.mtime_ns == target.mtime_ns || both.mtime_ns == mtime_ns
            }
            &&& 0 <= target.size && 0 <= size && target.size + size + 1 <= i64::MAX ==> both.size
                == target.size + size + 1
        }),
        cache::mixed(target, None) == target,
{
}

/// A sum stays within the numbers there are: it is exact, or off by all of them.
pub proof fn law_sums_go_on_from_the_other_end(a: i64, b: i64)
    ensures
        ({
            let sum = cache::wrapped_sum(a, b) as int;
            let off = a + b - sum;
            &&& off == 0 || off == 0x1_0000_0000_0000_0000 || off == -0x1_0000_0000_0000_0000
            &&& i64::MIN <= a + b <= i64::MAX ==> off == 0
        }),
{
}

/// A file that has not changed is still remembered after a scan; so is one that was parsed and is
/// a session. No other file is.
pub proof fn law_a_file_is_kept_for_a_reason(
    files: Seq<TargetView>,
    rows: Seq<RowView>,
    force: bool,
    parsed: Seq<Option<MetaView>>,
    path: Seq<char>,
)
    ensures
        forall|i: int|
            0 <= i < files.len() && cache::cached_meta(rows, #[trigger] files[i], force) is Some
                ==> cache::is_kept(files, rows, force, parsed, files[i].path),
        forall|i: int|
            0 <= i < parsed.len() && #[trigger] parsed[i] is Some ==> cache::is_kept(
                files,
                rows,
                force,
                parsed,
                cache::to_parse(files, rows, force)[i].path,
            ),
        (forall|i: int| 0 <= i < files.len() ==> (#[trigger] files[i]).path != path) && (forall|
            i: int,
        |
            0 <= i < parsed.len() && #[trigger] parsed[i] is Some ==> cache::to_parse(
                files,
                rows,
                force,
            )[i].path != path) ==> !cache::is_kept(files, rows, force, parsed, path),
{
}

/// Just what is remembered and not kept is forgotten.
pub proof fn law_what_is_not_kept_is_forgotten(
    rows: Seq<RowView>,
    keeps: spec_fn(Seq<char>) -> bool,
    i: int,
)
    requires
        0 <= i < rows.len(),
    ensures
        cache::forgotten(rows, keeps).contains(rows[i].file_path) <==> !keeps(rows[i].file_path),
    decreases rows.len(),
{
    let path = rows[i].file_path;
    if keeps(path) {
        lemma_only_what_is_not_kept(rows, keeps, path);
    }
    let head = rows.drop_last();
    let before = cache::forgotten(head, keeps);
    let all = cache::forgotten(rows, keeps);
    if !keeps(path) {
        if i < head.len() {
            law_what_is_not_kept_is_forgotten(head, keeps, i);
            let k = choose|k: int| 0 <= k < before.len() && before[k] == path;
            assert(all[k] == path);
        } else {
            assert(all[all.len() - 1] == path);
        }
    }
}

proof fn lemma_only_what_is_not_kept(
    rows: Seq<RowView>,
    keeps: spec_fn(Seq<char>) -> bool,
    path: Seq<char>,
)
    requires
        keeps(path),
    ensures
        !cache::forgotten(rows, keeps).contains(path),
    decreases rows.len(),
{
    if rows.len() > 0 {
        lemma_only_what_is_not_kept(rows.drop_last(), keeps, path);
        let before = cache::forgotten(rows.drop_last(), keeps);
        let all = cache::forgotten(rows, keeps);
        if all.contains(path) {
            let k = choose|k: int| 0 <= k < all.len() && all[k] == path;
            if k < before.len() {
                assert(before[k] == path);
            }
        }
    }
}

} // verus!
