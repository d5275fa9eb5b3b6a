//! Snapshot listings and comparison: sizes of manifests, the files added,
//! removed and modified between two snapshots, and shortened identifiers.

use vstd::prelude::*;
use vstd::string::*;
use vstd::utf8::*;
use crate::text::string_from_chars;

verus! {

broadcast use vstd::utf8::encode_utf8_decode_utf8;

/// `value` shortened to `max` bytes with an ellipsis appended when it is
/// longer than `max` bytes, else `value` itself.
pub open spec fn truncated(value: Seq<char>, max: nat) -> Seq<char> {
    if encode_utf8(value).len() <= max {
        value
    } else {
        decode_utf8(encode_utf8(value).subrange(0, max as int)) + "…"@
    }
}

/// Shortens `value` to at most `max` bytes (plus an ellipsis) for tables. A
/// value longer than `max` bytes must have a character boundary at `max`.
pub fn truncate(value: &str, max: usize) -> (r: String)
    requires
        value.spec_bytes().len() <= usize::MAX,
        value.spec_bytes().len() <= max || is_char_boundary(value.spec_bytes(), max as int),
    ensures
        r@ == truncated(value@, max as nat),
{
    if value.len() <= max {
        let r = value.to_string();
        assert(r@ == value@);
        r
    } else {
        let (head, _tail) = value.split_at(max);
        let mut s = String::from_str(head);
        s.append("…");
        proof {
            assert(head.spec_bytes() == encode_utf8(head@));
            assert(decode_utf8(encode_utf8(head@)) == head@);
            assert(head.spec_bytes() =~= encode_utf8(value@).subrange(0, max as int));
            assert(s@ == head@ + "…"@);
        }
        s
    }
}

/// One file of a snapshot manifest: its path, the hash of its contents and
/// the size it takes in storage, when known.
pub struct FileEntry {
    pub path: String,
    pub hash: String,
    pub stored_size: Option<u64>,
}

/// The size a file counts for: its stored size, or 0 when unknown.
pub open spec fn entry_size(e: FileEntry) -> u64 {
    match e.stored_size {
        Some(s) => s,
        None => 0,
    }
}

/// The file `path` is listed in `m`.
pub open spec fn lists(m: Seq<FileEntry>, path: Seq<char>) -> bool {
    exists|i: int| 0 <= i < m.len() && m[i].path@ == path
}

/// No path is listed twice in `m` (as in a map from path to file).
pub open spec fn unique_paths(m: Seq<FileEntry>) -> bool {
    forall|i: int, j: int| 0 <= i < m.len() && 0 <= j < m.len() && i != j ==> m[i].path@ != m[j].path@
}

/// The sum of the sizes of the files of `m`.
pub open spec fn total_size(m: Seq<FileEntry>) -> nat
    decreases m.len(),
{
    if m.len() == 0 {
        0
    } else {
        total_size(m.drop_last()) + entry_size(m.last()) as nat
    }
}

/// The files of `src`, with their sizes, whose paths `other` does not list.
pub open spec fn missing_from(src: Seq<FileEntry>, other: Seq<FileEntry>) -> Seq<(Seq<char>, u64)>
    decreases src.len(),
{
    if src.len() == 0 {
        seq![]
    } else {
        let rest = missing_from(src.drop_last(), other);
        let e = src.last();
        if lists(other, e.path@) {
            rest
        } else {
            rest.push((e.path@, entry_size(e)))
        }
    }
}

/// The entry of `m` for `path`, the first one listed.
pub open spec fn entry_for(m: Seq<FileEntry>, path: Seq<char>) -> FileEntry
    recommends
        lists(m, path),
{
    let i = choose|i: int| 0 <= i < m.len() && m[i].path@ == path && (forall|j: int| 0 <= j < i ==> m[j].path@ != path);
    m[i]
}

/// The files of `to` that `from` lists with another hash: path, size before
/// and size after.
pub open spec fn modified_between(from: Seq<FileEntry>, to: Seq<FileEntry>) -> Seq<(Seq<char>, u64, u64)>
    decreases to.len(),
{
    if to.len() == 0 {
        seq![]
    } else {
        let rest = modified_between(from, to.drop_last());
        let e = to.last();
        if lists(from, e.path@) && entry_for(from, e.path@).hash@ != e.hash@ {
            rest.push((e.path@, entry_size(entry_for(from, e.path@)), entry_size(e)))
        } else {
            rest
        }
    }
}

/// The files added, removed and modified from the snapshot `from` to the
/// snapshot `to`.
pub open spec fn diff_of(from: Seq<FileEntry>, to: Seq<FileEntry>) -> (
    Seq<(Seq<char>, u64)>,
    Seq<(Seq<char>, u64)>,
    Seq<(Seq<char>, u64, u64)>,
) {
    (missing_from(to, from), missing_from(from, to), modified_between(from, to))
}

/// The difference between two snapshots.
pub struct SnapshotDiff {
    pub added: Vec<(String, u64)>,
    pub removed: Vec<(String, u64)>,
    pub modified: Vec<(String, u64, u64)>,
}

/// The values of a list of paths with sizes.
pub open spec fn sized_view(v: Seq<(String, u64)>) -> Seq<(Seq<char>, u64)> {
    v.map_values(|p: (String, u64)| (p.0@, p.1))
}

/// The values of a list of paths with two sizes.
pub open spec fn resized_view(v: Seq<(String, u64, u64)>) -> Seq<(Seq<char>, u64, u64)> {
    v.map_values(|p: (String, u64, u64)| (p.0@, p.1, p.2))
}

fn find_entry(m: &Vec<FileEntry>, path: &str) -> (r: Option<usize>)
    ensures
        match r {
            Some(i) => i < m@.len() && m@[i as int].path@ == path@ && (forall|j: int|
                0 <= j < i ==> m@[j].path@ != path@),
            None => !lists(m@, path@),
        },
{
    let mut i: usize = 0;
    while i < m.len()
        invariant
            i <= m@.len(),
            forall|j: int| 0 <= j < i ==> m@[j].path@ != path@,
        decreases m@.len() - i,
    {
        if crate::text::str_equal(m[i].path.as_str(), path) {
            return Some(i);
        }
        i = i + 1;
    }
    None
}

fn size_of(e: &FileEntry) -> (r: u64)
    ensures
        r == entry_size(*e),
{
    match e.stored_size {
        Some(s) => s,
        None => 0,
    }
}

/// The files of `src` whose paths `other` does not list, with their sizes.
pub fn files_missing_from(src: &Vec<FileEntry>, other: &Vec<FileEntry>) -> (r: Vec<(String, u64)>)
    ensures
        sized_view(r@) == missing_from(src@, other@),
{
    let mut out: Vec<(String, u64)> = Vec::new();
    let mut i: usize = 0;
    while i < src.len()
        invariant
            i <= src@.len(),
            sized_view(out@) == missing_from(src@.take(i as int), other@),
        decreases src@.len() - i,
    {
        let e = &src[i];
        let found = find_entry(other, e.path.as_str());
        proof {
            assert(src@.take(i + 1).drop_last() =~= src@.take(i as int));
            assert(src@.take(i + 1).last() == src@[i as int]);
        }
        if found.is_none() {
            let ghost before = out@;
            out.push((e.path.clone(), size_of(e)));
            assert(sized_view(out@) =~= sized_view(before).push((e.path@, entry_size(*e))));
        }
        i = i + 1;
    }
    assert(src@.take(src@.len() as int) =~= src@);
    out
}

/// The files of `to` that `from` lists with another hash, with their sizes
/// before and after.
pub fn files_modified(from: &Vec<FileEntry>, to: &Vec<FileEntry>) -> (r: Vec<(String, u64, u64)>)
    ensures
        resized_view(r@) == modified_between(from@, to@),
{
    let mut out: Vec<(String, u64, u64)> = Vec::new();
    let mut i: usize = 0;
    while i < to.len()
        invariant
            i <= to@.len(),
            resized_view(out@) == modified_between(from@, to@.take(i as int)),
        decreases to@.len() - i,
    {
        let e = &to[i];
        let found = find_entry(from, e.path.as_str());
        proof {
            assert(to@.take(i + 1).drop_last() =~= to@.take(i as int));
            assert(to@.take(i + 1).last() == to@[i as int]);
        }
        match found {
            Some(j) => {
                proof {
                    let p = e.path@;
                    let k = choose|k: int| 0 <= k < from@.len() && from@[k].path@ == p && (forall|
                        l: int,
                    | 0 <= l < k ==> from@[l].path@ != p);
                    if k < j {
                    } else if j < k {
                    }
                    assert(k == j);
                    assert(entry_for(from@, p) == from@[j as int]);
                }
                if !crate::text::str_equal(from[j].hash.as_str(), e.hash.as_str()) {
                    let ghost before = out@;
                    out.push((e.path.clone(), size_of(&from[j]), size_of(e)));
                    assert(resized_view(out@) =~= resized_view(before).push(
                        (e.path@, entry_size(from@[j as int]), entry_size(*e)),
                    ));
                }
            },
            None => {},
        }
        i = i + 1;
    }
    assert(to@.take(to@.len() as int) =~= to@);
    out
}

/// What changed from the snapshot `from` to the snapshot `to`: files only in
/// `to` are added, files only in `from` are removed, files in both with
/// different hashes are modified.
pub fn diff_manifests(from: &Vec<FileEntry>, to: &Vec<FileEntry>) -> (r: SnapshotDiff)
    ensures
        (sized_view(r.added@), sized_view(r.removed@), resized_view(r.modified@)) == diff_of(
            from@,
            to@,
        ),
{
    SnapshotDiff {
        added: files_missing_from(to, from),
        removed: files_missing_from(from, to),
        modified: files_modified(from, to),
    }
}

proof fn lemma_total_size_prefix(m: Seq<FileEntry>, i: int)
    requires
        0 <= i <= m.len(),
    ensures
        total_size(m.take(i)) <= total_size(m),
    decreases m.len(),
{
    if i < m.len() {
        assert(m.drop_last().take(i) =~= m.take(i));
        lemma_total_size_prefix(m.drop_last(), i);
    } else {
        assert(m.take(i) =~= m);
    }
}

/// The total stored size of the files of a manifest.
pub fn manifest_total_size(m: &Vec<FileEntry>) -> (r: u64)
    requires
        total_size(m@) <= u64::MAX,
    ensures
        r == total_size(m@),
{
    let mut sum: u64 = 0;
    let mut i: usize = 0;
    while i < m.len()
        invariant
            i <= m@.len(),
            total_size(m@) <= u64::MAX,
            sum == total_size(m@.take(i as int)),
        decreases m@.len() - i,
    {
        proof {
            assert(m@.take(i + 1).drop_last() =~= m@.take(i as int));
            lemma_total_size_prefix(m@, i + 1);
        }
        sum = sum + size_of(&m[i]);
        i = i + 1;
    }
    assert(m@.take(m@.len() as int) =~= m@);
    sum
}

/// The total stored size of the files of a manifest, or nothing when it does
/// not fit in a `u64`.
pub fn checked_total_size(m: &Vec<FileEntry>) -> (r: Option<u64>)
    ensures
        match r {
            Some(t) => t == total_size(m@),
            None => total_size(m@) > u64::MAX,
        },
{
    let mut sum: u64 = 0;
    let mut i: usize = 0;
    while i < m.len()
        invariant
            i <= m@.len(),
            sum == total_size(m@.take(i as int)),
        decreases m@.len() - i,
    {
        proof {
            assert(m@.take(i + 1).drop_last() =~= m@.take(i as int));
        }
        match sum.checked_add(size_of(&m[i])) {
            Some(s) => sum = s,
            None => {
                proof {
                    lemma_total_size_prefix(m@, i + 1);
                }
                return None;
            },
        }
        i = i + 1;
    }
    assert(m@.take(m@.len() as int) =~= m@);
    Some(sum)
}

/// A snapshot compared with itself shows no change.
pub proof fn law_self_diff_is_empty(m: Seq<FileEntry>)
    requires
        unique_paths(m),
    ensures
        diff_of(m, m).0.len() == 0,
        diff_of(m, m).1.len() == 0,
        diff_of(m, m).2.len() == 0,
{
    assert(m.take(m.len() as int) =~= m);
    lemma_missing_from_listed(m, m);
    lemma_modified_self(m, m);
}

proof fn lemma_missing_from_listed(src: Seq<FileEntry>, other: Seq<FileEntry>)
    requires
        forall|i: int| 0 <= i < src.len() ==> lists(other, #[trigger] src[i].path@),
    ensures
        missing_from(src, other).len() == 0,
    decreases src.len(),
{
    if src.len() > 0 {
        assert(lists(other, src[src.len() - 1].path@));
        assert forall|i: int| 0 <= i < src.drop_last().len() implies lists(other, #[trigger] src.drop_last()[i].path@) by {
            assert(src.drop_last()[i] == src[i]);
        }
        lemma_missing_from_listed(src.drop_last(), other);
    }
}

proof fn lemma_modified_self(m: Seq<FileEntry>, to: Seq<FileEntry>)
    requires
        unique_paths(m),
        to.len() <= m.len(),
        to == m.take(to.len() as int),
    ensures
        modified_between(m, to).len() == 0,
    decreases to.len(),
{
    if to.len() > 0 {
        let n = to.len() - 1;
        let e = to.last();
        assert(e == m[n]);
        assert(lists(m, e.path@));
        let k = choose|k: int| 0 <= k < m.len() && m[k].path@ == e.path@ && (forall|l: int| 0 <= l < k ==> m[l].path@ != e.path@);
        assert(k == n);
        assert(to.drop_last() =~= m.take(n));
        lemma_modified_self(m, to.drop_last());
    }
}

/// What `modified_between` lists: exactly the files of `to` that `from`
/// lists with another hash, each with its size before and after.
proof fn lemma_modified_members(from: Seq<FileEntry>, to: Seq<FileEntry>, t: (Seq<char>, u64, u64))
    ensures
        modified_between(from, to).contains(t) <==> exists|j: int|
            0 <= j < to.len() && #[trigger] to[j].path@ == t.0 && lists(from, t.0) && entry_for(
                from,
                t.0,
            ).hash@ != to[j].hash@ && t.1 == entry_size(entry_for(from, t.0)) && t.2 == entry_size(
                to[j],
            ),
    decreases to.len(),
{
    if to.len() > 0 {
        let rest = to.drop_last();
        lemma_modified_members(from, rest, t);
        let e = to.last();
        let before = modified_between(from, rest);
        if modified_between(from, to).contains(t) {
            if before.contains(t) {
                let j = choose|j: int|
                    0 <= j < rest.len() && #[trigger] rest[j].path@ == t.0 && lists(from, t.0)
                        && entry_for(from, t.0).hash@ != rest[j].hash@ && t.1 == entry_size(
                        entry_for(from, t.0),
                    ) && t.2 == entry_size(rest[j]);
                assert(to[j] == rest[j]);
            } else {
                let k = choose|k: int| 0 <= k < modified_between(from, to).len() && modified_between(from, to)[k] == t;
                assert(lists(from, e.path@) && entry_for(from, e.path@).hash@ != e.hash@);
                assert(modified_between(from, to) == before.push((e.path@, entry_size(entry_for(from, e.path@)), entry_size(e))));
                if k < before.len() {
                    assert(before[k] == t);
                }
                assert(to[to.len() - 1] == e);
            }
        } else {
            assert forall|j: int|
                0 <= j < to.len() && #[trigger] to[j].path@ == t.0 && lists(from, t.0) && entry_for(
                    from,
                    t.0,
                ).hash@ != to[j].hash@ && t.1 == entry_size(entry_for(from, t.0)) && t.2
                    == entry_size(to[j]) implies false by {
                if j < rest.len() {
                    assert(rest[j] == to[j]);
                    assert(before.contains(t));
                    let k = choose|k: int| 0 <= k < before.len() && before[k] == t;
                    if lists(from, e.path@) && entry_for(from, e.path@).hash@ != e.hash@ {
                        assert(modified_between(from, to)[k] == t);
                    } else {
                        assert(modified_between(from, to)[k] == t);
                    }
                } else {
                    assert(to[j] == e);
                    let m = modified_between(from, to);
                    assert(m[m.len() - 1] == t);
                }
            }
        }
    }
}

/// A file that both snapshots list is reported as modified exactly when its
/// two hashes differ, whatever its sizes, and then with its size before and
/// after (manifests list each path once).
pub proof fn law_modified_iff_hash_differs(from: Seq<FileEntry>, to: Seq<FileEntry>, i: int, j: int)
    requires
        unique_paths(from),
        unique_paths(to),
        0 <= i < from.len(),
        0 <= j < to.len(),
        from[i].path@ == to[j].path@,
    ensures
        from[i].hash@ != to[j].hash@ ==> modified_between(from, to).contains(
            (to[j].path@, entry_size(from[i]), entry_size(to[j])),
        ),
        from[i].hash@ == to[j].hash@ ==> forall|k: int|
            0 <= k < modified_between(from, to).len() ==> (#[trigger] modified_between(from, to)[k]).0
                != to[j].path@,
{
    let p = to[j].path@;
    assert(lists(from, p));
    let c = choose|c: int| 0 <= c < from.len() && from[c].path@ == p && (forall|l: int| 0 <= l < c ==> from[l].path@ != p);
    assert(c == i);
    assert(entry_for(from, p) == from[i]);
    let t = (p, entry_size(from[i]), entry_size(to[j]));
    lemma_modified_members(from, to, t);
    if from[i].hash@ == to[j].hash@ {
        assert forall|k: int| 0 <= k < modified_between(from, to).len() implies (
        #[trigger] modified_between(from, to)[k]).0 != p by {
            let u = modified_between(from, to)[k];
            if u.0 == p {
                lemma_modified_members(from, to, u);
                assert(modified_between(from, to).contains(u));
                let j2 = choose|j2: int|
                    0 <= j2 < to.len() && #[trigger] to[j2].path@ == u.0 && lists(from, u.0)
                        && entry_for(from, u.0).hash@ != to[j2].hash@ && u.1 == entry_size(
                        entry_for(from, u.0),
                    ) && u.2 == entry_size(to[j2]);
                assert(j2 == j);
            }
        }
    }
}

/// What `missing_from` lists: exactly the files of `src` that `other` does
/// not list, each with its size.
proof fn lemma_missing_members(src: Seq<FileEntry>, other: Seq<FileEntry>, t: (Seq<char>, u64))
    ensures
        missing_from(src, other).contains(t) <==> exists|j: int|
            0 <= j < src.len() && #[trigger] src[j].path@ == t.0 && !lists(other, t.0) && t.1
                == entry_size(src[j]),
    decreases src.len(),
{
    if src.len() > 0 {
        let rest = src.drop_last();
        lemma_missing_members(rest, other, t);
        let e = src.last();
        let before = missing_from(rest, other);
        let after = missing_from(src, other);
        if after.contains(t) {
            if before.contains(t) {
                let j = choose|j: int|
                    0 <= j < rest.len() && #[trigger] rest[j].path@ == t.0 && !lists(other, t.0)
                        && t.1 == entry_size(rest[j]);
                assert(src[j] == rest[j]);
            } else {
                let k = choose|k: int| 0 <= k < after.len() && after[k] == t;
                assert(!lists(other, e.path@));
                assert(after == before.push((e.path@, entry_size(e))));
                if k < before.len() {
                    assert(before[k] == t);
                }
                assert(src[src.len() - 1] == e);
            }
        } else {
            assert forall|j: int|
                0 <= j < src.len() && #[trigger] src[j].path@ == t.0 && !lists(other, t.0) && t.1
                    == entry_size(src[j]) implies false by {
                if j < rest.len() {
                    assert(rest[j] == src[j]);
                    assert(before.contains(t));
                    let k = choose|k: int| 0 <= k < before.len() && before[k] == t;
                    assert(after[k] == t);
                } else {
                    assert(src[j] == e);
                    assert(after[after.len() - 1] == t);
                }
            }
        }
    }
}

/// A file of the newer snapshot is reported as added exactly when the older
/// one does not list its path, and then with its size (with
/// `law_diff_reverses`, the same holds of removed files the other way round).
pub proof fn law_added_iff_unlisted(from: Seq<FileEntry>, to: Seq<FileEntry>, j: int)
    requires
        0 <= j < to.len(),
    ensures
        !lists(from, to[j].path@) ==> diff_of(from, to).0.contains((to[j].path@, entry_size(to[j]))),
        lists(from, to[j].path@) ==> forall|k: int|
            0 <= k < diff_of(from, to).0.len() ==> (#[trigger] diff_of(from, to).0[k]).0 != to[j].path@,
{
    let p = to[j].path@;
    lemma_missing_members(to, from, (p, entry_size(to[j])));
    if lists(from, p) {
        assert forall|k: int| 0 <= k < diff_of(from, to).0.len() implies (
        #[trigger] diff_of(from, to).0[k]).0 != p by {
            let u = missing_from(to, from)[k];
            lemma_missing_members(to, from, u);
            assert(missing_from(to, from).contains(u));
        }
    }
}

/// What is added going from one snapshot to another is exactly what is
/// removed going back, and the other way round.
pub proof fn law_diff_reverses(a: Seq<FileEntry>, b: Seq<FileEntry>)
    ensures
        diff_of(a, b).0 == diff_of(b, a).1,
        diff_of(a, b).1 == diff_of(b, a).0,
{
}

} // verus!
