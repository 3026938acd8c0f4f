//! What is remembered of session files between one scan and the next.
//!
//! A file that has not changed since it was last parsed is not parsed again: what
//! was parsed then is taken from the cache. Whether it has changed is told by its
//! time and its size.

use vstd::prelude::*;
use vstd::string::*;
use crate::file_name;
use crate::text;
use crate::text_set::TextSet;

verus! {

/// The version of what is remembered. What is remembered in another version counts
/// for nothing.
pub const SCAN_CACHE_VERSION: i64 = 1;

/// What is known of a session.
#[derive(Debug)]
pub struct SessionMeta {
    pub provider_id: String,
    pub session_id: String,
    pub title: Option<String>,
    pub summary: Option<String>,
    pub project_dir: Option<String>,
    pub created_at: Option<i64>,
    pub last_active_at: Option<i64>,
    pub source_path: Option<String>,
    pub resume_command: Option<String>,
}

/// The model of [`SessionMeta`].
pub struct MetaView {
    pub provider_id: Seq<char>,
    pub session_id: Seq<char>,
    pub title: Option<Seq<char>>,
    pub summary: Option<Seq<char>>,
    pub project_dir: Option<Seq<char>>,
    pub created_at: Option<i64>,
    pub last_active_at: Option<i64>,
    pub source_path: Option<Seq<char>>,
    pub resume_command: Option<Seq<char>>,
}

impl View for SessionMeta {
    type V = MetaView;

    open spec fn view(&self) -> MetaView {
        MetaView {
            provider_id: self.provider_id@,
            session_id: self.session_id@,
            title: text::option_view(self.title),
            summary: text::option_view(self.summary),
            project_dir: text::option_view(self.project_dir),
            created_at: self.created_at,
            last_active_at: self.last_active_at,
            source_path: text::option_view(self.source_path),
            resume_command: text::option_view(self.resume_command),
        }
    }
}

/// The model of what may be known of a session.
pub open spec fn meta_view(meta: Option<SessionMeta>) -> Option<MetaView> {
    match meta {
        Some(meta) => Some(meta@),
        None => None,
    }
}

/// A copy of an optional text.
fn copy_option(t: &Option<String>) -> (r: Option<String>)
    ensures
        text::option_view(r) == text::option_view(*t),
{
    match t {
        Some(t) => Some(t.clone()),
        None => None,
    }
}

impl SessionMeta {
    /// A copy.
    pub fn duplicate(&self) -> (r: SessionMeta)
        ensures
            r@ == self@,
    {
        SessionMeta {
            provider_id: self.provider_id.clone(),
            session_id: self.session_id.clone(),
            title: copy_option(&self.title),
            summary: copy_option(&self.summary),
            project_dir: copy_option(&self.project_dir),
            created_at: self.created_at,
            last_active_at: self.last_active_at,
            source_path: copy_option(&self.source_path),
            resume_command: copy_option(&self.resume_command),
        }
    }
}

/// A session file as it is.
#[derive(Debug)]
pub struct FileScanTarget {
    pub path: String,
    pub mtime_ns: i64,
    pub size: i64,
}

/// What is remembered of a session file.
#[derive(Debug)]
pub struct CachedScanRow {
    pub file_path: String,
    pub mtime_ns: i64,
    pub size: i64,
    pub cache_version: i64,
    /// What was parsed, where it can still be read.
    pub meta: Option<SessionMeta>,
}

/// What is to be remembered of a session file.
#[derive(Debug)]
pub struct SessionScanCacheEntry {
    pub file_path: String,
    pub provider: String,
    pub mtime_ns: i64,
    pub size: i64,
    pub meta: SessionMeta,
    pub cache_version: i64,
}

/// What a scan comes to.
#[derive(Debug)]
pub struct ScanDelta {
    pub sessions: Vec<SessionMeta>,
    /// What is to be remembered.
    pub upserts: Vec<SessionScanCacheEntry>,
    /// The files that are to be forgotten.
    pub deletes: Vec<String>,
}

/// The model of [`FileScanTarget`].
pub struct TargetView {
    pub path: Seq<char>,
    pub mtime_ns: i64,
    pub size: i64,
}

/// The model of [`CachedScanRow`].
pub struct RowView {
    pub file_path: Seq<char>,
    pub mtime_ns: i64,
    pub size: i64,
    pub cache_version: i64,
    pub meta: Option<MetaView>,
}

/// The model of [`SessionScanCacheEntry`].
pub struct EntryView {
    pub file_path: Seq<char>,
    pub provider: Seq<char>,
    pub mtime_ns: i64,
    pub size: i64,
    pub meta: MetaView,
    pub cache_version: i64,
}

impl View for FileScanTarget {
    type V = TargetView;

    open spec fn view(&self) -> TargetView {
        TargetView { path: self.path@, mtime_ns: self.mtime_ns, size: self.size }
    }
}

impl View for CachedScanRow {
    type V = RowView;

    open spec fn view(&self) -> RowView {
        RowView {
            file_path: self.file_path@,
            mtime_ns: self.mtime_ns,
            size: self.size,
            cache_version: self.cache_version,
            meta: meta_view(self.meta),
        }
    }
}

impl View for SessionScanCacheEntry {
    type V = EntryView;

    open spec fn view(&self) -> EntryView {
        EntryView {
            file_path: self.file_path@,
            provider: self.provider@,
            mtime_ns: self.mtime_ns,
            size: self.size,
            meta: self.meta@,
            cache_version: self.cache_version,
        }
    }
}

/// The models of files.
pub open spec fn target_views(targets: Seq<FileScanTarget>) -> Seq<TargetView> {
    Seq::new(targets.len(), |i: int| targets[i]@)
}

/// The models of what is remembered.
pub open spec fn row_views(rows: Seq<CachedScanRow>) -> Seq<RowView> {
    Seq::new(rows.len(), |i: int| rows[i]@)
}

/// The models of what is to be remembered.
pub open spec fn entry_views(entries: Seq<SessionScanCacheEntry>) -> Seq<EntryView> {
    Seq::new(entries.len(), |i: int| entries[i]@)
}

/// The models of what is known of sessions.
pub open spec fn meta_views(metas: Seq<SessionMeta>) -> Seq<MetaView> {
    Seq::new(metas.len(), |i: int| metas[i]@)
}

/// The models of what was parsed.
pub open spec fn parsed_views(parsed: Seq<Option<SessionMeta>>) -> Seq<Option<MetaView>> {
    Seq::new(parsed.len(), |i: int| meta_view(parsed[i]))
}

/// What is remembered of a file, the last where there is more than one.
pub open spec fn row_for(rows: Seq<RowView>, path: Seq<char>) -> Option<RowView>
    decreases rows.len(),
{
    if rows.len() == 0 {
        None
    } else if rows.last().file_path == path {
        Some(rows.last())
    } else {
        row_for(rows.drop_last(), path)
    }
}

/// What is remembered of a file that has not changed. The time of a file is 0 where it
/// could not be read; such a file is never taken for one that has not changed.
pub open spec fn cached_meta(rows: Seq<RowView>, target: TargetView, force: bool) -> Option<MetaView> {
    if force {
        None
    } else {
        match row_for(rows, target.path) {
            Some(row) => if row.cache_version == SCAN_CACHE_VERSION && target.mtime_ns != 0
                && row.mtime_ns == target.mtime_ns && row.size == target.size {
                row.meta
            } else {
                None
            },
            None => None,
        }
    }
}

/// What is remembered of the files that have not changed.
pub open spec fn reused(targets: Seq<TargetView>, rows: Seq<RowView>, force: bool) -> Seq<MetaView>
    decreases targets.len(),
{
    if targets.len() == 0 {
        Seq::empty()
    } else {
        let before = reused(targets.drop_last(), rows, force);
        match cached_meta(rows, targets.last(), force) {
            Some(meta) => before.push(meta),
            None => before,
        }
    }
}

/// The files that are parsed.
pub open spec fn to_parse(targets: Seq<TargetView>, rows: Seq<RowView>, force: bool) -> Seq<TargetView>
    decreases targets.len(),
{
    if targets.len() == 0 {
        Seq::empty()
    } else {
        let before = to_parse(targets.drop_last(), rows, force);
        match cached_meta(rows, targets.last(), force) {
            Some(_) => before,
            None => before.push(targets.last()),
        }
    }
}

/// What was parsed of the files that are sessions.
pub open spec fn found(parsed: Seq<Option<MetaView>>) -> Seq<MetaView>
    decreases parsed.len(),
{
    if parsed.len() == 0 {
        Seq::empty()
    } else {
        let before = found(parsed.drop_last());
        match parsed.last() {
            Some(meta) => before.push(meta),
            None => before,
        }
    }
}

/// What is to be remembered of a file.
pub open spec fn entry_of(provider: Seq<char>, target: TargetView, meta: MetaView) -> EntryView {
    EntryView {
        file_path: target.path,
        provider,
        mtime_ns: target.mtime_ns,
        size: target.size,
        meta,
        cache_version: SCAN_CACHE_VERSION,
    }
}

/// What is to be remembered of the files that were parsed and are sessions.
pub open spec fn entries_of(
    provider: Seq<char>,
    files: Seq<TargetView>,
    parsed: Seq<Option<MetaView>>,
) -> Seq<EntryView>
    decreases parsed.len(),
{
    if parsed.len() == 0 {
        Seq::empty()
    } else {
        let n = parsed.len() - 1;
        let before = entries_of(provider, files, parsed.drop_last());
        match parsed.last() {
            Some(meta) => before.push(entry_of(provider, files[n], meta)),
            None => before,
        }
    }
}

/// Whether a file is remembered after a scan: it has not changed, or was parsed and
/// is a session.
pub open spec fn is_kept(
    targets: Seq<TargetView>,
    rows: Seq<RowView>,
    force: bool,
    parsed: Seq<Option<MetaView>>,
    path: Seq<char>,
) -> bool {
    ||| exists|i: int|
        0 <= i < targets.len() && (#[trigger] targets[i]).path == path && cached_meta(
            rows,
            targets[i],
            force,
        ) is Some
    ||| exists|i: int|
        0 <= i < parsed.len() && #[trigger] parsed[i] is Some && to_parse(
            targets,
            rows,
            force,
        )[i].path == path
}

/// The files that are to be forgotten.
pub open spec fn forgotten(
    rows: Seq<RowView>,
    keeps: spec_fn(Seq<char>) -> bool,
) -> Seq<Seq<char>>
    decreases rows.len(),
{
    if rows.len() == 0 {
        Seq::empty()
    } else {
        let before = forgotten(rows.drop_last(), keeps);
        if keeps(rows.last().file_path) {
            before
        } else {
            before.push(rows.last().file_path)
        }
    }
}

/// What is remembered of a file that has not changed.
fn lookup<'a>(rows: &'a Vec<CachedScanRow>, target: &FileScanTarget, force: bool) -> (r: Option<
    &'a SessionMeta,
>)
    ensures
        match r {
            Some(meta) => cached_meta(row_views(rows@), target@, force) == Some(meta@),
            None => cached_meta(row_views(rows@), target@, force) is None,
        },
{
    if force {
        return None;
    }
    let ghost all = row_views(rows@);
    let mut i: usize = rows.len();
    assert(all.take(i as int) == all);
    while i > 0
        invariant
            i <= rows@.len() == all.len(),
            all == row_views(rows@),
            !force,
            row_for(all, target@.path) == row_for(all.take(i as int), target@.path),
        decreases i,
    {
        let row = &rows[i - 1];
        assert(all.take(i as int).last() == row@);
        assert(all.take(i as int).drop_last() == all.take(i - 1));
        if text::same_text(row.file_path.as_str(), target.path.as_str()) {
            if row.cache_version == SCAN_CACHE_VERSION && target.mtime_ns != 0 && row.mtime_ns
                == target.mtime_ns && row.size == target.size {
                return match &row.meta {
                    Some(meta) => Some(meta),
                    None => None,
                };
            }
            return None;
        }
        i = i - 1;
    }
    None
}

/// The positions of the files that are parsed, in order.
pub fn targets_to_parse(targets: &Vec<FileScanTarget>, cached: &Vec<CachedScanRow>, force: bool) -> (r:
    Vec<usize>)
    ensures
        forall|k: int| 0 <= k < r@.len() ==> #[trigger] r@[k] < targets@.len(),
        to_parse(target_views(targets@), row_views(cached@), force) == Seq::new(
            r@.len(),
            |k: int| target_views(targets@)[r@[k] as int],
        ),
{
    let ghost all = target_views(targets@);
    let ghost rows = row_views(cached@);
    let mut r: Vec<usize> = Vec::new();
    let mut i: usize = 0;
    assert(to_parse(all.take(0), rows, force) =~= Seq::new(
        r@.len(),
        |k: int| all[r@[k] as int],
    ));
    while i < targets.len()
        invariant
            i <= targets@.len() == all.len(),
            all == target_views(targets@),
            rows == row_views(cached@),
            forall|k: int| 0 <= k < r@.len() ==> #[trigger] r@[k] < i,
            to_parse(all.take(i as int), rows, force) == Seq::new(
                r@.len(),
                |k: int| all[r@[k] as int],
            ),
        decreases targets@.len() - i,
    {
        assert(all.take(i + 1).drop_last() == all.take(i as int));
        assert(all.take(i + 1).last() == targets@[i as int]@);
        let ghost before = Seq::new(r@.len(), |k: int| all[r@[k] as int]);
        if lookup(cached, &targets[i], force).is_none() {
            r.push(i);
            assert(Seq::new(r@.len(), |k: int| all[r@[k] as int]) =~= before.push(all[i as int]));
        }
        i = i + 1;
    }
    assert(all.take(i as int) == all);
    r
}

/// Whether a file among the first `n` has not changed.
spec fn is_reused(targets: Seq<TargetView>, rows: Seq<RowView>, force: bool, n: int, path: Seq<char>) -> bool {
    exists|i: int|
        0 <= i < n && (#[trigger] targets[i]).path == path && cached_meta(rows, targets[i], force)
            is Some
}

/// Whether a file among the first `n` that were parsed is a session.
spec fn is_found(files: Seq<TargetView>, parsed: Seq<Option<MetaView>>, n: int, path: Seq<char>) -> bool {
    exists|i: int| 0 <= i < n && #[trigger] parsed[i] is Some && files[i].path == path
}

/// Takes what is remembered of the files that have not changed, and takes note of
/// them.
fn reuse(
    targets: &Vec<FileScanTarget>,
    cached: &Vec<CachedScanRow>,
    force: bool,
    keep: &mut TextSet,
) -> (r: Vec<SessionMeta>)
    requires
        old(keep)@ == Set::<Seq<char>>::empty(),
    ensures
        meta_views(r@) == reused(target_views(targets@), row_views(cached@), force),
        forall|p: Seq<char>|
            final(keep)@.contains(p) <==> is_reused(
                target_views(targets@),
                row_views(cached@),
                force,
                targets@.len() as int,
                p,
            ),
{
    let ghost all = target_views(targets@);
    let ghost rows = row_views(cached@);
    let mut sessions: Vec<SessionMeta> = Vec::new();
    let mut i: usize = 0;
    assert(meta_views(sessions@) =~= Seq::empty());
    while i < targets.len()
        invariant
            i <= targets@.len() == all.len(),
            all == target_views(targets@),
            rows == row_views(cached@),
            meta_views(sessions@) == reused(all.take(i as int), rows, force),
            forall|p: Seq<char>|
                keep@.contains(p) <==> is_reused(all, rows, force, i as int, p),
        decreases targets@.len() - i,
    {
        let ghost before = meta_views(sessions@);
        let ghost kept = keep@;
        assert(all.take(i + 1).drop_last() == all.take(i as int));
        assert(all.take(i + 1).last() == targets@[i as int]@);
        assert(all[i as int] == targets@[i as int]@);
        if let Some(meta) = lookup(cached, &targets[i], force) {
            sessions.push(meta.duplicate());
            assert(meta_views(sessions@) =~= before.push(meta@));
            keep.insert(targets[i].path.as_str());
        }
        assert forall|p: Seq<char>|
            keep@.contains(p) <==> is_reused(all, rows, force, i + 1, p) by {
            assert(kept.contains(p) <==> is_reused(all, rows, force, i as int, p));
            if is_reused(all, rows, force, i as int, p) {
                let k = choose|k: int|
                    0 <= k < i && (#[trigger] all[k]).path == p && cached_meta(
                        rows,
                        all[k],
                        force,
                    ) is Some;
                assert(all[k].path == p);
            }
        }
        i = i + 1;
    }
    assert(all.take(i as int) == all);
    sessions
}

/// Takes what was parsed of the files that are sessions, and takes note of them.
fn take_parsed(
    provider: &str,
    targets: &Vec<FileScanTarget>,
    positions: &Vec<usize>,
    parsed: &Vec<Option<SessionMeta>>,
    keep: &mut TextSet,
    sessions: &mut Vec<SessionMeta>,
) -> (r: Vec<SessionScanCacheEntry>)
    requires
        positions@.len() == parsed@.len(),
        forall|k: int| 0 <= k < positions@.len() ==> #[trigger] positions@[k] < targets@.len(),
    ensures
        ({
            let files = Seq::new(
                positions@.len(),
                |k: int| target_views(targets@)[positions@[k] as int],
            );
            let metas = parsed_views(parsed@);
            &&& meta_views(final(sessions)@) == meta_views(old(sessions)@) + found(metas)
            &&& entry_views(r@) == entries_of(provider@, files, metas)
            &&& forall|p: Seq<char>| #[trigger]
                final(keep)@.contains(p) <==> old(keep)@.contains(p) || is_found(
                    files,
                    metas,
                    parsed@.len() as int,
                    p,
                )
        }),
{
    let ghost files = Seq::new(
        positions@.len(),
        |k: int| target_views(targets@)[positions@[k] as int],
    );
    let ghost metas = parsed_views(parsed@);
    let ghost old_sessions = meta_views(sessions@);
    let mut upserts: Vec<SessionScanCacheEntry> = Vec::new();
    let mut i: usize = 0;
    assert(entry_views(upserts@) =~= Seq::empty());
    assert(old_sessions + found(metas.take(0)) =~= old_sessions);
    while i < parsed.len()
        invariant
            i <= parsed@.len() == positions@.len(),
            parsed@.len() == metas.len(),
            files.len() == positions@.len(),
            metas == parsed_views(parsed@),
            forall|k: int| 0 <= k < positions@.len() ==> #[trigger] positions@[k] < targets@.len(),
            forall|k: int|
                0 <= k < positions@.len() ==> #[trigger] files[k] == targets@[positions@[k] as int]@,
            meta_views(sessions@) == old_sessions + found(metas.take(i as int)),
            entry_views(upserts@) == entries_of(provider@, files, metas.take(i as int)),
            forall|p: Seq<char>| #[trigger]
                keep@.contains(p) <==> old(keep)@.contains(p) || is_found(
                    files,
                    metas,
                    i as int,
                    p,
                ),
        decreases parsed@.len() - i,
    {
        let ghost before = meta_views(sessions@);
        let ghost entries = entry_views(upserts@);
        let ghost kept = keep@;
        assert(metas.take(i + 1).drop_last() == metas.take(i as int));
        assert(metas.take(i + 1).last() == metas[i as int]);
        assert(positions@[i as int] < targets@.len());
        let target = &targets[positions[i]];
        assert(files[i as int] == target@);
        if let Some(meta) = &parsed[i] {
            keep.insert(target.path.as_str());
            let entry = SessionScanCacheEntry {
                file_path: target.path.clone(),
                provider: provider.to_owned(),
                mtime_ns: target.mtime_ns,
                size: target.size,
                meta: meta.duplicate(),
                cache_version: SCAN_CACHE_VERSION,
            };
            let ghost added = entry@;
            upserts.push(entry);
            assert(entry_views(upserts@) =~= entries.push(added));
            sessions.push(meta.duplicate());
            assert(meta_views(sessions@) =~= before.push(meta@));
            assert(meta_views(sessions@) =~= old_sessions + found(metas.take(i + 1)));
        }
        assert forall|p: Seq<char>| #[trigger]
            keep@.contains(p) <==> old(keep)@.contains(p) || is_found(files, metas, i + 1, p) by {
            assert(kept.contains(p) <==> old(keep)@.contains(p) || is_found(
                files,
                metas,
                i as int,
                p,
            ));
            if is_found(files, metas, i as int, p) {
                let k = choose|k: int|
                    0 <= k < i && #[trigger] metas[k] is Some && files[k].path == p;
                assert(metas[k] is Some);
            }
            assert(metas[i as int] == meta_view(parsed@[i as int]));
        }
        i = i + 1;
    }
    assert(metas.take(i as int) == metas);
    upserts
}

/// Brings what is remembered and what is there together. `parsed` is what came of
/// parsing the files that [`targets_to_parse`] gives, in order.
pub fn revalidate(
    provider: &str,
    targets: &Vec<FileScanTarget>,
    cached: &Vec<CachedScanRow>,
    force: bool,
    parsed: &Vec<Option<SessionMeta>>,
) -> (r: ScanDelta)
    requires
        parsed@.len() == to_parse(target_views(targets@), row_views(cached@), force).len(),
    ensures
        ({
            let files = target_views(targets@);
            let rows = row_views(cached@);
            let metas = parsed_views(parsed@);
            &&& meta_views(r.sessions@) == reused(files, rows, force) + found(metas)
            &&& entry_views(r.upserts@) == entries_of(
                provider@,
                to_parse(files, rows, force),
                metas,
            )
            &&& text::views(r.deletes@) == forgotten(
                rows,
                |p: Seq<char>| is_kept(files, rows, force, metas, p),
            )
        }),
{
    let ghost files = target_views(targets@);
    let ghost rows = row_views(cached@);
    let ghost metas = parsed_views(parsed@);
    let mut keep = TextSet::new();
    let positions = targets_to_parse(targets, cached, force);
    let mut sessions = reuse(targets, cached, force, &mut keep);
    let upserts = take_parsed(provider, targets, &positions, parsed, &mut keep, &mut sessions);
    assert forall|p: Seq<char>| #[trigger]
        keep@.contains(p) <==> is_kept(files, rows, force, metas, p) by {
        let parsed_files = to_parse(files, rows, force);
        assert(is_reused(files, rows, force, files.len() as int, p) <==> exists|i: int|
            0 <= i < files.len() && (#[trigger] files[i]).path == p && cached_meta(
                rows,
                files[i],
                force,
            ) is Some);
        assert(is_found(parsed_files, metas, metas.len() as int, p) <==> exists|i: int|
            0 <= i < metas.len() && #[trigger] metas[i] is Some && parsed_files[i].path == p);
    }
    let ghost keeps = |p: Seq<char>| is_kept(files, rows, force, metas, p);
    let mut deletes: Vec<String> = Vec::new();
    let mut i: usize = 0;
    assert(text::views(deletes@) =~= Seq::empty());
    while i < cached.len()
        invariant
            i <= cached@.len() == rows.len(),
            rows == row_views(cached@),
            forall|p: Seq<char>| #[trigger] keep@.contains(p) <==> keeps(p),
            text::views(deletes@) == forgotten(rows.take(i as int), keeps),
        decreases cached@.len() - i,
    {
        let ghost before = text::views(deletes@);
        assert(rows.take(i + 1).drop_last() == rows.take(i as int));
        assert(rows.take(i + 1).last() == cached@[i as int]@);
        let path = &cached[i].file_path;
        assert(keep@.contains(path@) <==> keeps(path@));
        if !keep.contains(path.as_str()) {
            deletes.push(path.clone());
            assert(text::views(deletes@) =~= before.push(path@));
        }
        i = i + 1;
    }
    assert(rows.take(i as int) == rows);
    ScanDelta { sessions, upserts, deletes }
}

/// What is remembered, or nothing where it could not be read.
pub open spec fn loaded_rows(loaded: Result<Vec<CachedScanRow>, String>) -> Seq<RowView> {
    match loaded {
        Ok(rows) => row_views(rows@),
        Err(_) => Seq::empty(),
    }
}

/// What a scan of the files of a provider comes to. A cache that could not be read
/// is one in which nothing is remembered.
pub fn scan_provider_cached(
    provider: &str,
    targets: &Vec<FileScanTarget>,
    loaded: &Result<Vec<CachedScanRow>, String>,
    force: bool,
    parsed: &Vec<Option<SessionMeta>>,
) -> (r: ScanDelta)
    requires
        parsed@.len() == to_parse(target_views(targets@), loaded_rows(*loaded), force).len(),
    ensures
        ({
            let files = target_views(targets@);
            let rows = loaded_rows(*loaded);
            let metas = parsed_views(parsed@);
            &&& meta_views(r.sessions@) == reused(files, rows, force) + found(metas)
            &&& entry_views(r.upserts@) == entries_of(
                provider@,
                to_parse(files, rows, force),
                metas,
            )
            &&& text::views(r.deletes@) == forgotten(
                rows,
                |p: Seq<char>| is_kept(files, rows, force, metas, p),
            )
        }),
{
    match loaded {
        Ok(rows) => revalidate(provider, targets, rows, force, parsed),
        Err(_) => {
            let none: Vec<CachedScanRow> = Vec::new();
            assert(row_views(none@) =~= Seq::empty());
            revalidate(provider, targets, &none, force, parsed)
        },
    }
}

/// Adds a number to another one, from the smallest again after the largest.
pub open spec fn wrapped_sum(a: i64, b: i64) -> i64 {
    if a + b > i64::MAX {
        (a + b - 0x1_0000_0000_0000_0000) as i64
    } else if a + b < i64::MIN {
        (a + b + 0x1_0000_0000_0000_0000) as i64
    } else {
        (a + b) as i64
    }
}

/// A file together with a file beside it, from which a part of what is known of the
/// session is taken. The size counts one more than both, so that it tells that the file
/// beside it is there even where that is empty. A time that could not be read stays
/// one.
pub open spec fn mixed(target: TargetView, sibling: Option<(i64, i64)>) -> TargetView {
    match sibling {
        Some((mtime_ns, size)) => TargetView {
            path: target.path,
            mtime_ns: if target.mtime_ns != 0 && target.mtime_ns < mtime_ns {
                mtime_ns
            } else {
                target.mtime_ns
            },
            size: wrapped_sum(wrapped_sum(target.size, size), 1),
        },
        None => target,
    }
}

/// Makes the time and the size of a file change when those of a file beside it do;
/// `sibling` is the time and the size of that one, where it is there.
pub fn mix_sibling_into_fingerprint(target: &mut FileScanTarget, sibling: Option<(i64, i64)>)
    ensures
        final(target)@ == mixed(old(target)@, sibling),
{
    if let Some((mtime_ns, size)) = sibling {
        if target.mtime_ns != 0 && target.mtime_ns < mtime_ns {
            target.mtime_ns = mtime_ns;
        }
        target.size = target.size.wrapping_add(size).wrapping_add(1);
    }
}

/// When a file that was missing beside a session file appears, the session file is no
/// longer taken for the one that was read before, whatever the time and the size of the
/// new one; its path stays, and so does a time that could not be read.
pub proof fn law_an_appearing_sibling_changes_the_fingerprint(
    target: TargetView,
    mtime_ns: i64,
    size: i64,
)
    requires
        0 <= size,
    ensures
        ({
            let before = mixed(target, None);
            let after = mixed(target, Some((mtime_ns, size)));
            &&& before == target
            &&& after.path == before.path
            &&& (after.mtime_ns, after.size) != (before.mtime_ns, before.size)
            &&& target.mtime_ns == 0 ==> after.mtime_ns == 0
        }),
{
}

/// When a file beside a session file changes, the session file is no longer taken for the
/// one that was read before: where the size of the other one is not what it was, or its
/// new time is later than both its own before and that of the session file. (A change
/// that leaves the size as it is, of a time that is not later, is left out, and so is a
/// session file whose time could not be read, which is parsed each time.)
pub proof fn law_a_changed_sibling_changes_the_fingerprint(
    target: TargetView,
    before: (i64, i64),
    after: (i64, i64),
)
    requires
        before.1 != after.1 || (target.mtime_ns != 0 && before.0 < after.0 && target.mtime_ns
            < after.0),
    ensures
        ({
            let first = mixed(target, Some(before));
            let second = mixed(target, Some(after));
            &&& second.path == first.path
            &&& (second.mtime_ns, second.size) != (first.mtime_ns, first.size)
        }),
{
}

/// What is done with an entry of a directory of session files.
#[derive(Debug, Clone, Copy, PartialEq, Eq, Structural)]
pub enum CollectAction {
    Descend,
    Take,
    Ignore,
}

/// What is done with an entry of a directory: directories are entered, and files
/// with the extension are taken.
pub fn collect_action(is_dir: bool, name: Option<&str>, extension: &str) -> (r: CollectAction)
    ensures
        r == if is_dir {
            CollectAction::Descend
        } else if name matches Some(name) && file_name::stem_of(name@).len() < name@.len()
            && name@.skip(file_name::stem_of(name@).len() as int + 1) == extension@ {
            CollectAction::Take
        } else {
            CollectAction::Ignore
        },
{
    if is_dir {
        return CollectAction::Descend;
    }
    match name {
        Some(name) => if file_name::has_extension(name, extension) {
            CollectAction::Take
        } else {
            CollectAction::Ignore
        },
        None => CollectAction::Ignore,
    }
}

/// The number of workers that parse files: half of what can run at once, at least
/// one and at most four.
pub open spec fn worker_count(parallelism: Option<usize>) -> int {
    let half = match parallelism {
        Some(n) => if n as int / 2 > 1 {
            n as int / 2
        } else {
            1
        },
        None => 2,
    };
    if half < 4 {
        half
    } else {
        4
    }
}

/// How many files each worker parses, one after the other; all of them where one
/// worker suffices.
pub fn chunk_size(count: usize, parallelism: Option<usize>) -> (r: usize)
    ensures
        ({
            let workers = worker_count(parallelism);
            if workers <= 1 || count < 64 {
                r == count
            } else {
                &&& workers * r >= count
                &&& workers * (r - 1) < count
            }
        }),
{
    let half: usize = match parallelism {
        Some(n) => if n / 2 > 1 {
            n / 2
        } else {
            1
        },
        None => 2,
    };
    let workers: usize = if half < 4 {
        half
    } else {
        4
    };
    if workers <= 1 || count < 64 {
        return count;
    }
    let whole: usize = count / workers;
    let rest: usize = count % workers;
    proof {
        vstd::arithmetic::div_mod::lemma_fundamental_div_mod(count as int, workers as int);
        let (w, k) = (workers as int, whole as int);
        assert(w * (k + 1) == w * k + w) by (nonlinear_arith);
        assert(w * (k - 1) == w * k - w) by (nonlinear_arith);
        let n = count as int;
        assert(k < n) by (nonlinear_arith)
            requires
                2 <= w,
                0 <= k,
                w * k <= n,
                0 < n,
        ;
    }
    if rest == 0 {
        whole
    } else {
        whole + 1
    }
}

/// What is remembered of a file once it has been written.
pub open spec fn row_of(entry: EntryView) -> RowView {
    RowView {
        file_path: entry.file_path,
        mtime_ns: entry.mtime_ns,
        size: entry.size,
        cache_version: entry.cache_version,
        meta: Some(entry.meta),
    }
}

/// What is remembered of files once it has been written.
pub open spec fn rows_of(entries: Seq<EntryView>) -> Seq<RowView> {
    Seq::new(entries.len(), |i: int| row_of(entries[i]))
}

/// What is remembered after what is to be remembered has been written and what is
/// to be forgotten has been deleted.
pub open spec fn rows_after(rows: Seq<RowView>, entries: Seq<EntryView>, deletes: Seq<Seq<char>>) -> Seq<
    RowView,
> {
    rows.filter(|row: RowView| !deletes.contains(row.file_path)) + rows_of(entries)
}

/// Whether no two files have the same path.
pub open spec fn distinct_paths(files: Seq<TargetView>) -> bool {
    forall|i: int, j: int|
        0 <= i < j < files.len() ==> (#[trigger] files[i]).path != (#[trigger] files[j]).path
}

/// What was added last is found first.
proof fn lemma_row_for_append(a: Seq<RowView>, b: Seq<RowView>, path: Seq<char>)
    ensures
        row_for(a + b, path) == match row_for(b, path) {
            Some(row) => Some(row),
            None => row_for(a, path),
        },
    decreases b.len(),
{
    if b.len() == 0 {
        assert(a + b =~= a);
    } else {
        assert((a + b).last() == b.last());
        assert((a + b).drop_last() =~= a + b.drop_last());
        lemma_row_for_append(a, b.drop_last(), path);
    }
}

/// Taking away rows of other files changes nothing for a file.
proof fn lemma_row_for_filter(rows: Seq<RowView>, keep: spec_fn(RowView) -> bool, path: Seq<char>)
    requires
        forall|row: RowView| row.file_path == path ==> #[trigger] keep(row),
    ensures
        row_for(rows.filter(keep), path) == row_for(rows, path),
    decreases rows.len(),
{
    reveal(Seq::filter);
    if rows.len() > 0 {
        lemma_row_for_filter(rows.drop_last(), keep, path);
        let before = rows.drop_last().filter(keep);
        if keep(rows.last()) {
            assert(rows.filter(keep) == before.push(rows.last()));
            assert(before.push(rows.last()).drop_last() =~= before);
        }
    }
}

/// What is forgotten is not kept.
proof fn lemma_forgotten_is_not_kept(rows: Seq<RowView>, keeps: spec_fn(Seq<char>) -> bool, path: Seq<char>)
    requires
        keeps(path),
    ensures
        !forgotten(rows, keeps).contains(path),
    decreases rows.len(),
{
    if rows.len() > 0 {
        lemma_forgotten_is_not_kept(rows.drop_last(), keeps, path);
        let before = forgotten(rows.drop_last(), keeps);
        if !keeps(rows.last().file_path) {
            let all = before.push(rows.last().file_path);
            assert forall|i: int| 0 <= i < all.len() implies all[i] != path by {
                if i < before.len() {
                    assert(before.contains(before[i]));
                }
            }
        }
    }
}

/// The files that are parsed are files that are not remembered, no two with the
/// same path.
proof fn lemma_to_parse(files: Seq<TargetView>, rows: Seq<RowView>, force: bool)
    requires
        distinct_paths(files),
    ensures
        distinct_paths(to_parse(files, rows, force)),
        forall|j: int|
            0 <= j < to_parse(files, rows, force).len() ==> {
                &&& files.contains(#[trigger] to_parse(files, rows, force)[j])
                &&& cached_meta(rows, to_parse(files, rows, force)[j], force) is None
            },
    decreases files.len(),
{
    if files.len() > 0 {
        let head = files.drop_last();
        assert(distinct_paths(head)) by {
            assert forall|i: int, j: int| 0 <= i < j < head.len() implies (
            #[trigger] head[i]).path != (#[trigger] head[j]).path by {
                assert(files[i].path != files[j].path);
            }
        }
        lemma_to_parse(head, rows, force);
        let before = to_parse(head, rows, force);
        let all = to_parse(files, rows, force);
        assert forall|j: int| 0 <= j < all.len() implies files.contains(#[trigger] all[j])
            && cached_meta(rows, all[j], force) is None by {
            if j < before.len() {
                assert(all[j] == before[j]);
                let t = choose|t: int| 0 <= t < head.len() && head[t] == before[j];
                assert(files[t] == before[j]);
            } else {
                assert(files[files.len() - 1] == all[j]);
            }
        }
        assert forall|i: int, j: int| 0 <= i < j < all.len() implies (#[trigger] all[i]).path != (
        #[trigger] all[j]).path by {
            assert(all[i] == before[i]);
            if j < before.len() {
                assert(all[j] == before[j]);
            } else {
                assert(head.contains(before[i]));
                let t = choose|t: int| 0 <= t < head.len() && head[t] == before[i];
                assert(files[t].path != files[files.len() - 1].path);
            }
        }
    }
}

/// What is written of the files that were parsed.
proof fn lemma_written_rows(
    provider: Seq<char>,
    files: Seq<TargetView>,
    parsed: Seq<Option<MetaView>>,
    path: Seq<char>,
)
    requires
        distinct_paths(files),
        parsed.len() <= files.len(),
    ensures
        forall|k: int|
            0 <= k < parsed.len() && (#[trigger] files[k]).path == path && parsed[k] is Some
                ==> row_for(rows_of(entries_of(provider, files, parsed)), path) == Some(
                row_of(entry_of(provider, files[k], parsed[k].unwrap())),
            ),
        (forall|k: int| 0 <= k < parsed.len() ==> (#[trigger] files[k]).path != path) ==> row_for(
            rows_of(entries_of(provider, files, parsed)),
            path,
        ) is None,
    decreases parsed.len(),
{
    if parsed.len() > 0 {
        let n = parsed.len() - 1;
        let head = parsed.drop_last();
        lemma_written_rows(provider, files, head, path);
        let before = entries_of(provider, files, head);
        let all = entries_of(provider, files, parsed);
        if let Some(meta) = parsed.last() {
            assert(rows_of(all).last() == row_of(entry_of(provider, files[n], meta)));
            assert(rows_of(all).drop_last() =~= rows_of(before));
        }
        assert forall|k: int|
            0 <= k < parsed.len() && (#[trigger] files[k]).path == path && parsed[k]
                is Some implies row_for(rows_of(all), path) == Some(
            row_of(entry_of(provider, files[k], parsed[k].unwrap())),
        ) by {
            if k < n {
                assert(files[k].path != files[n].path);
                assert(head[k] == parsed[k]);
            }
        }
    }
}

/// A file that has not changed since a scan is not parsed again in the next one:
/// what is remembered of it is what it was in the scan, whether that was remembered
/// or parsed. (A scan in which two files have the same path is left out, and so is a
/// file whose time could not be read.)
pub proof fn law_next_scan_reuses_what_is_kept(
    provider: Seq<char>,
    files: Seq<TargetView>,
    rows: Seq<RowView>,
    force: bool,
    parsed: Seq<Option<MetaView>>,
)
    requires
        distinct_paths(files),
        parsed.len() == to_parse(files, rows, force).len(),
    ensures
        ({
            let entries = entries_of(provider, to_parse(files, rows, force), parsed);
            let deletes = forgotten(
                rows,
                |p: Seq<char>| is_kept(files, rows, force, parsed, p),
            );
            let after = rows_after(rows, entries, deletes);
            &&& forall|t: int|
                0 <= t < files.len() && cached_meta(rows, #[trigger] files[t], force) is Some
                    ==> cached_meta(after, files[t], false) == cached_meta(rows, files[t], force)
            &&& forall|k: int|
                0 <= k < parsed.len() && #[trigger] parsed[k] is Some && to_parse(
                    files,
                    rows,
                    force,
                )[k].mtime_ns != 0 ==> cached_meta(
                    after,
                    to_parse(files, rows, force)[k],
                    false,
                ) == parsed[k]
        }),
{
    let pf = to_parse(files, rows, force);
    let entries = entries_of(provider, pf, parsed);
    let keeps = |p: Seq<char>| is_kept(files, rows, force, parsed, p);
    let deletes = forgotten(rows, keeps);
    let after = rows_after(rows, entries, deletes);
    let stays = |row: RowView| !deletes.contains(row.file_path);
    lemma_to_parse(files, rows, force);
    assert forall|t: int|
        0 <= t < files.len() && cached_meta(rows, #[trigger] files[t], force)
            is Some implies cached_meta(after, files[t], false) == cached_meta(
        rows,
        files[t],
        force,
    ) by {
        let path = files[t].path;
        assert(keeps(path));
        lemma_forgotten_is_not_kept(rows, keeps, path);
        lemma_row_for_filter(rows, stays, path);
        assert forall|k: int| 0 <= k < parsed.len() implies (#[trigger] pf[k]).path != path by {
            assert(files.contains(pf[k]));
            let u = choose|u: int| 0 <= u < files.len() && files[u] == pf[k];
            if u < t {
                assert(files[u].path != files[t].path);
            } else if u > t {
                assert(files[t].path != files[u].path);
            }
        }
        lemma_written_rows(provider, pf, parsed, path);
        lemma_row_for_append(rows.filter(stays), rows_of(entries), path);
    }
    assert forall|k: int|
        0 <= k < parsed.len() && #[trigger] parsed[k] is Some && pf[k].mtime_ns
            != 0 implies cached_meta(after, pf[k], false) == parsed[k] by {
        let path = pf[k].path;
        lemma_written_rows(provider, pf, parsed, path);
        assert(pf[k].path == path);
        lemma_row_for_append(rows.filter(stays), rows_of(entries), path);
    }
}

/// A file whose time could not be read is parsed in every scan, whatever is remembered
/// of it.
pub proof fn law_an_unreadable_time_forces_a_parse(
    files: Seq<TargetView>,
    rows: Seq<RowView>,
    force: bool,
    t: int,
)
    requires
        0 <= t < files.len(),
        files[t].mtime_ns == 0,
    ensures
        to_parse(files, rows, force).contains(files[t]),
    decreases files.len(),
{
    let before = to_parse(files.drop_last(), rows, force);
    let all = to_parse(files, rows, force);
    if t < files.len() - 1 {
        law_an_unreadable_time_forces_a_parse(files.drop_last(), rows, force, t);
        let k = choose|k: int| 0 <= k < before.len() && before[k] == files[t];
        assert(all[k] == files[t]);
    } else {
        assert(all[before.len() as int] == files[t]);
    }
}

/// A file that was parsed and is no session is not remembered after the scan.
proof fn lemma_no_session_is_not_remembered(
    provider: Seq<char>,
    files: Seq<TargetView>,
    rows: Seq<RowView>,
    force: bool,
    parsed: Seq<Option<MetaView>>,
    k: int,
)
    requires
        distinct_paths(files),
        parsed.len() == to_parse(files, rows, force).len(),
        0 <= k < parsed.len(),
        parsed[k] is None,
    ensures
        ({
            let entries = entries_of(provider, to_parse(files, rows, force), parsed);
            let deletes = forgotten(
                rows,
                |p: Seq<char>| is_kept(files, rows, force, parsed, p),
            );
            row_for(
                rows_after(rows, entries, deletes),
                to_parse(files, rows, force)[k].path,
            ) is None
        }),
{
    let pf = to_parse(files, rows, force);
    let path = pf[k].path;
    let entries = entries_of(provider, pf, parsed);
    let keeps = |p: Seq<char>| is_kept(files, rows, force, parsed, p);
    let deletes = forgotten(rows, keeps);
    let stays = |row: RowView| !deletes.contains(row.file_path);
    lemma_to_parse(files, rows, force);
    assert(files.contains(pf[k]));
    let u = choose|u: int| 0 <= u < files.len() && files[u] == pf[k];
    assert(!keeps(path)) by {
        assert forall|i: int| 0 <= i < files.len() && (#[trigger] files[i]).path == path implies i
            == u by {
            if i < u {
                assert(files[i].path != files[u].path);
            } else if u < i {
                assert(files[u].path != files[i].path);
            }
        }
        assert forall|i: int| 0 <= i < parsed.len() && #[trigger] parsed[i] is Some implies pf[i].path
            != path by {
            if i < k {
                assert(pf[i].path != pf[k].path);
            } else if k < i {
                assert(pf[k].path != pf[i].path);
            }
        }
    }
    lemma_row_for_none(rows, keeps, deletes, path);
    lemma_unwritten(provider, pf, parsed, path);
    lemma_row_for_append(rows.filter(stays), rows_of(entries), path);
}

/// Nothing is left of a file that is not kept.
proof fn lemma_row_for_none(
    rows: Seq<RowView>,
    keeps: spec_fn(Seq<char>) -> bool,
    deletes: Seq<Seq<char>>,
    path: Seq<char>,
)
    requires
        !keeps(path),
        deletes == forgotten(rows, keeps),
    ensures
        row_for(rows.filter(|row: RowView| !deletes.contains(row.file_path)), path) is None,
{
    let stays = |row: RowView| !deletes.contains(row.file_path);
    let left = rows.filter(stays);
    assert forall|i: int| 0 <= i < left.len() implies (#[trigger] left[i]).file_path != path by {
        rows.lemma_filter_pred(stays, i);
        rows.lemma_filter_contains_rev(stays, left[i]);
        let r = choose|r: int| 0 <= r < rows.len() && rows[r] == left[i];
        assert(stays(left[i]));
        if left[i].file_path == path {
            lemma_unkept_is_forgotten(rows, keeps, r);
        }
    }
    lemma_row_for_absent(left, path);
}

/// What is remembered of a file that no row is about.
proof fn lemma_row_for_absent(rows: Seq<RowView>, path: Seq<char>)
    requires
        forall|i: int| 0 <= i < rows.len() ==> (#[trigger] rows[i]).file_path != path,
    ensures
        row_for(rows, path) is None,
    decreases rows.len(),
{
    if rows.len() > 0 {
        assert(rows[rows.len() - 1].file_path != path);
        assert forall|i: int| 0 <= i < rows.drop_last().len() implies (
        #[trigger] rows.drop_last()[i]).file_path != path by {
            assert(rows[i].file_path != path);
        }
        lemma_row_for_absent(rows.drop_last(), path);
    }
}

/// Nothing is written of a file of which nothing was found.
proof fn lemma_unwritten(
    provider: Seq<char>,
    files: Seq<TargetView>,
    parsed: Seq<Option<MetaView>>,
    path: Seq<char>,
)
    requires
        forall|i: int| 0 <= i < parsed.len() && #[trigger] parsed[i] is Some ==> files[i].path != path,
    ensures
        row_for(rows_of(entries_of(provider, files, parsed)), path) is None,
    decreases parsed.len(),
{
    if parsed.len() > 0 {
        let head = parsed.drop_last();
        assert forall|i: int| 0 <= i < head.len() && #[trigger] head[i] is Some implies files[i].path
            != path by {
            assert(parsed[i] is Some);
        }
        lemma_unwritten(provider, files, head, path);
        let before = entries_of(provider, files, head);
        let all = entries_of(provider, files, parsed);
        if let Some(meta) = parsed.last() {
            assert(parsed[parsed.len() - 1] is Some);
            assert(rows_of(all).drop_last() =~= rows_of(before));
        } else {
            assert(rows_of(all) =~= rows_of(before));
        }
    }
}

/// The file was parsed and is no session.
spec fn came_to_nothing(
    files: Seq<TargetView>,
    parsed: Seq<Option<MetaView>>,
    target: TargetView,
) -> bool {
    exists|j: int| 0 <= j < parsed.len() && parsed[j] is None && #[trigger] files[j] == target
}

/// Where the next scan remembers of each file what the scan before came to, it finds the
/// same sessions, and parses only what was found to be no session.
proof fn lemma_same_sessions(
    files: Seq<TargetView>,
    rows: Seq<RowView>,
    force: bool,
    parsed: Seq<Option<MetaView>>,
    after: Seq<RowView>,
)
    requires
        parsed.len() == to_parse(files, rows, force).len(),
        forall|t: int|
            0 <= t < files.len() && cached_meta(rows, #[trigger] files[t], force) is Some
                ==> cached_meta(after, files[t], false) == cached_meta(rows, files[t], force),
        forall|k: int|
            0 <= k < parsed.len() ==> cached_meta(
                after,
                #[trigger] to_parse(files, rows, force)[k],
                false,
            ) == parsed[k],
    ensures
        reused(files, after, false).to_multiset() =~= (reused(files, rows, force) + found(
            parsed,
        )).to_multiset(),
        forall|k: int|
            0 <= k < to_parse(files, after, false).len() ==> came_to_nothing(
                to_parse(files, rows, force),
                parsed,
                #[trigger] to_parse(files, after, false)[k],
            ),
    decreases files.len(),
{
    broadcast use vstd::seq_lib::group_to_multiset_ensures;

    if files.len() == 0 {
        assert(reused(files, rows, force) + found(parsed) =~= reused(files, after, false));
    } else {
        let head = files.drop_last();
        let last = files.last();
        let pf = to_parse(files, rows, force);
        let ph = to_parse(head, rows, force);
        let ps = if cached_meta(rows, last, force) is Some {
            parsed
        } else {
            parsed.drop_last()
        };
        assert forall|t: int|
            0 <= t < head.len() && cached_meta(rows, #[trigger] head[t], force)
                is Some implies cached_meta(after, head[t], false) == cached_meta(
            rows,
            head[t],
            force,
        ) by {
            assert(head[t] == files[t]);
        }
        assert forall|k: int| 0 <= k < ps.len() implies cached_meta(
            after,
            #[trigger] ph[k],
            false,
        ) == ps[k] by {
            assert(pf[k] == ph[k]);
        }
        lemma_same_sessions(head, rows, force, ps, after);
        assert(files[files.len() - 1] == last);
        let was = reused(head, rows, force);
        let is = reused(head, after, false);
        vstd::seq_lib::lemma_multiset_commutative(was, found(ps));
        match cached_meta(rows, last, force) {
            Some(meta) => {
                assert(reused(files, after, false) == is.push(meta));
                assert(reused(files, rows, force) == was.push(meta));
                vstd::seq_lib::lemma_multiset_commutative(was.push(meta), found(ps));
            },
            None => {
                assert(pf[pf.len() - 1] == last);
                match parsed.last() {
                    Some(meta) => {
                        assert(reused(files, after, false) == is.push(meta));
                        assert(found(parsed) == found(ps).push(meta));
                        vstd::seq_lib::lemma_multiset_commutative(was, found(ps).push(meta));
                    },
                    None => {},
                }
            },
        }
        let again = to_parse(files, after, false);
        let before = to_parse(head, after, false);
        assert forall|k: int| 0 <= k < again.len() implies came_to_nothing(
            pf,
            parsed,
            #[trigger] again[k],
        ) by {
            if k < before.len() {
                assert(again[k] == before[k]);
                assert(came_to_nothing(ph, ps, before[k]));
                let j = choose|j: int|
                    0 <= j < ps.len() && ps[j] is None && #[trigger] ph[j] == before[k];
                assert(pf[j] == again[k] && parsed[j] is None);
            } else {
                assert(pf[pf.len() - 1] == again[k]);
            }
        }
    }
}

/// A scan of files that have not changed, on what the scan before wrote, writes nothing
/// and forgets nothing, finds the same sessions, and parses only what was found to be no
/// session before. `again` is what comes of parsing, which does not change as long as the
/// file does not. (A scan in which two files have the same path is left out, and so are
/// files whose time could not be read.)
pub proof fn law_a_second_scan_changes_nothing(
    provider: Seq<char>,
    files: Seq<TargetView>,
    rows: Seq<RowView>,
    force: bool,
    parsed: Seq<Option<MetaView>>,
    again: Seq<Option<MetaView>>,
)
    requires
        distinct_paths(files),
        forall|t: int| 0 <= t < files.len() ==> (#[trigger] files[t]).mtime_ns != 0,
        parsed.len() == to_parse(files, rows, force).len(),
        ({
            let after = written(provider, files, rows, force, parsed);
            &&& again.len() == to_parse(files, after, false).len()
            &&& forall|j: int, k: int|
                0 <= j < parsed.len() && 0 <= k < again.len() && #[trigger] to_parse(
                    files,
                    rows,
                    force,
                )[j] == #[trigger] to_parse(files, after, false)[k] ==> again[k] == parsed[j]
        }),
    ensures
        ({
            let after = written(provider, files, rows, force, parsed);
            &&& forall|k: int| 0 <= k < again.len() ==> #[trigger] again[k] is None
            &&& entries_of(provider, to_parse(files, after, false), again) == Seq::<
                EntryView,
            >::empty()
            &&& forgotten(
                after,
                |p: Seq<char>| is_kept(files, after, false, again, p),
            ) == Seq::<Seq<char>>::empty()
            &&& (reused(files, after, false) + found(again)).to_multiset() =~= (reused(
                files,
                rows,
                force,
            ) + found(parsed)).to_multiset()
        }),
{
    let pf = to_parse(files, rows, force);
    let after = written(provider, files, rows, force, parsed);
    let keeps = |p: Seq<char>| is_kept(files, rows, force, parsed, p);
    let keeps_again = |p: Seq<char>| is_kept(files, after, false, again, p);
    law_next_scan_reuses_what_is_kept(provider, files, rows, force, parsed);
    lemma_to_parse(files, rows, force);
    assert forall|k: int| 0 <= k < parsed.len() implies cached_meta(
        after,
        #[trigger] pf[k],
        false,
    ) == parsed[k] by {
        assert(files.contains(pf[k]));
        if parsed[k] is None {
            lemma_no_session_is_not_remembered(provider, files, rows, force, parsed, k);
        }
    }
    lemma_same_sessions(files, rows, force, parsed, after);
    let second = to_parse(files, after, false);
    assert forall|k: int| 0 <= k < again.len() implies #[trigger] again[k] is None by {
        assert(came_to_nothing(pf, parsed, second[k]));
        let j = choose|j: int|
            0 <= j < parsed.len() && parsed[j] is None && #[trigger] pf[j] == second[k];
        assert(pf[j] == second[k]);
    }
    lemma_nothing_found(provider, second, again);
    assert(reused(files, after, false) + found(again) =~= reused(files, after, false));
    assert forall|i: int| 0 <= i < after.len() implies keeps_again(
        (#[trigger] after[i]).file_path,
    ) by {
        lemma_written_is_kept(provider, files, rows, force, parsed, i);
        let path = after[i].file_path;
        if exists|t: int|
            0 <= t < files.len() && (#[trigger] files[t]).path == path && cached_meta(
                rows,
                files[t],
                force,
            ) is Some {
            let t = choose|t: int|
                0 <= t < files.len() && (#[trigger] files[t]).path == path && cached_meta(
                    rows,
                    files[t],
                    force,
                ) is Some;
            assert(cached_meta(after, files[t], false) is Some);
        } else {
            let k = choose|k: int|
                0 <= k < parsed.len() && #[trigger] parsed[k] is Some && pf[k].path == path;
            assert(files.contains(pf[k]));
            let t = choose|t: int| 0 <= t < files.len() && files[t] == pf[k];
            assert(files[t].path == path && cached_meta(after, files[t], false) is Some);
        }
    }
    lemma_all_kept(after, keeps_again);
}

/// What is remembered after a scan.
pub open spec fn written(
    provider: Seq<char>,
    files: Seq<TargetView>,
    rows: Seq<RowView>,
    force: bool,
    parsed: Seq<Option<MetaView>>,
) -> Seq<RowView> {
    rows_after(
        rows,
        entries_of(provider, to_parse(files, rows, force), parsed),
        forgotten(rows, |p: Seq<char>| is_kept(files, rows, force, parsed, p)),
    )
}

/// Nothing comes of files of which none is a session.
proof fn lemma_nothing_found(provider: Seq<char>, files: Seq<TargetView>, parsed: Seq<Option<MetaView>>)
    requires
        forall|k: int| 0 <= k < parsed.len() ==> #[trigger] parsed[k] is None,
    ensures
        found(parsed) == Seq::<MetaView>::empty(),
        entries_of(provider, files, parsed) == Seq::<EntryView>::empty(),
    decreases parsed.len(),
{
    if parsed.len() > 0 {
        assert(parsed[parsed.len() - 1] is None);
        lemma_nothing_found(provider, files, parsed.drop_last());
    }
}

/// Where every file is kept, none is forgotten.
proof fn lemma_all_kept(rows: Seq<RowView>, keeps: spec_fn(Seq<char>) -> bool)
    requires
        forall|i: int| 0 <= i < rows.len() ==> keeps((#[trigger] rows[i]).file_path),
    ensures
        forgotten(rows, keeps) == Seq::<Seq<char>>::empty(),
    decreases rows.len(),
{
    if rows.len() > 0 {
        assert(keeps(rows[rows.len() - 1].file_path));
        assert forall|i: int| 0 <= i < rows.drop_last().len() implies keeps(
            (#[trigger] rows.drop_last()[i]).file_path,
        ) by {
            assert(keeps(rows[i].file_path));
        }
        lemma_all_kept(rows.drop_last(), keeps);
    }
}

/// What is remembered after a scan is of files that were kept in it.
proof fn lemma_written_is_kept(
    provider: Seq<char>,
    files: Seq<TargetView>,
    rows: Seq<RowView>,
    force: bool,
    parsed: Seq<Option<MetaView>>,
    i: int,
)
    requires
        parsed.len() == to_parse(files, rows, force).len(),
        0 <= i < written(provider, files, rows, force, parsed).len(),
    ensures
        is_kept(
            files,
            rows,
            force,
            parsed,
            written(provider, files, rows, force, parsed)[i].file_path,
        ),
{
    let pf = to_parse(files, rows, force);
    let entries = entries_of(provider, pf, parsed);
    let keeps = |p: Seq<char>| is_kept(files, rows, force, parsed, p);
    let deletes = forgotten(rows, keeps);
    let stays = |row: RowView| !deletes.contains(row.file_path);
    let left = rows.filter(stays);
    let after = written(provider, files, rows, force, parsed);
    assert(after == left + rows_of(entries));
    if i < left.len() {
        rows.lemma_filter_pred(stays, i);
        rows.lemma_filter_contains_rev(stays, left[i]);
        let r = choose|r: int| 0 <= r < rows.len() && rows[r] == left[i];
        assert(stays(left[i]));
        if !keeps(left[i].file_path) {
            lemma_unkept_is_forgotten(rows, keeps, r);
        }
    } else {
        lemma_entries_are_found(provider, pf, parsed, i - left.len());
    }
}

/// What is written is of files that were found to be sessions.
proof fn lemma_entries_are_found(
    provider: Seq<char>,
    files: Seq<TargetView>,
    parsed: Seq<Option<MetaView>>,
    i: int,
)
    requires
        0 <= i < entries_of(provider, files, parsed).len(),
    ensures
        exists|k: int|
            0 <= k < parsed.len() && #[trigger] parsed[k] is Some && files[k].path == entries_of(
                provider,
                files,
                parsed,
            )[i].file_path,
    decreases parsed.len(),
{
    let head = parsed.drop_last();
    let before = entries_of(provider, files, head);
    let all = entries_of(provider, files, parsed);
    if i < before.len() {
        lemma_entries_are_found(provider, files, head, i);
        let k = choose|k: int|
            0 <= k < head.len() && #[trigger] head[k] is Some && files[k].path == before[i].file_path;
        assert(parsed[k] is Some && all[i] == before[i]);
    } else {
        assert(parsed[parsed.len() - 1] is Some);
    }
}

/// A forced scan parses every file.
pub proof fn law_forced_scan_parses_everything(files: Seq<TargetView>, rows: Seq<RowView>)
    ensures
        to_parse(files, rows, true) == files,
        reused(files, rows, true) == Seq::<MetaView>::empty(),
    decreases files.len(),
{
    if files.len() > 0 {
        law_forced_scan_parses_everything(files.drop_last(), rows);
        assert(files.drop_last().push(files.last()) =~= files);
    }
}

/// A file that is no longer there is forgotten.
pub proof fn law_vanished_files_are_forgotten(
    files: Seq<TargetView>,
    rows: Seq<RowView>,
    force: bool,
    parsed: Seq<Option<MetaView>>,
    i: int,
)
    requires
        distinct_paths(files),
        parsed.len() == to_parse(files, rows, force).len(),
        0 <= i < rows.len(),
        forall|t: int| 0 <= t < files.len() ==> (#[trigger] files[t]).path != rows[i].file_path,
    ensures
        forgotten(rows, |p: Seq<char>| is_kept(files, rows, force, parsed, p)).contains(
            rows[i].file_path,
        ),
{
    let keeps = |p: Seq<char>| is_kept(files, rows, force, parsed, p);
    lemma_to_parse(files, rows, force);
    assert(!keeps(rows[i].file_path)) by {
        assert forall|k: int| 0 <= k < parsed.len() && #[trigger] parsed[k] is Some implies to_parse(
            files,
            rows,
            force,
        )[k].path != rows[i].file_path by {
            let pf = to_parse(files, rows, force);
            assert(files.contains(pf[k]));
            let u = choose|u: int| 0 <= u < files.len() && files[u] == pf[k];
            assert(files[u].path != rows[i].file_path);
        }
    }
    lemma_unkept_is_forgotten(rows, keeps, i);
}

/// What is not kept is forgotten.
proof fn lemma_unkept_is_forgotten(rows: Seq<RowView>, keeps: spec_fn(Seq<char>) -> bool, i: int)
    requires
        0 <= i < rows.len(),
        !keeps(rows[i].file_path),
    ensures
        forgotten(rows, keeps).contains(rows[i].file_path),
    decreases rows.len(),
{
    let before = forgotten(rows.drop_last(), keeps);
    let all = forgotten(rows, keeps);
    if i < rows.len() - 1 {
        lemma_unkept_is_forgotten(rows.drop_last(), keeps, i);
        let k = choose|k: int| 0 <= k < before.len() && before[k] == rows[i].file_path;
        assert(all[k] == rows[i].file_path);
    } else {
        assert(all[before.len() as int] == rows[i].file_path);
    }
}

} // verus!
