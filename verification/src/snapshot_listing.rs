//! `rsb snapshots list` and `diff`: which manifests are snapshots, in which
//! order they are listed, and how their rows and size changes read.

use vstd::prelude::*;
use vstd::string::*;
use vstd::utf8::*;
use crate::numeric::{chars_of, decimal, push_decimal};
use crate::profile_listing::{pad_right, padded};
use crate::snapshot_cmd::{truncate, truncated};
use crate::text::{ends_with_chars, push_all, seq_ends_with, string_from_chars};
use crate::text_lines::texts;
use crate::text_order::{keyed, sort_by_name, sorted_by_name, text_le};
use crate::auth::handlers::opt_string_view;

verus! {

/// The paths of `paths` that end with `.toml`, in order.
pub open spec fn toml_paths(paths: Seq<Seq<char>>) -> Seq<Seq<char>>
    decreases paths.len(),
{
    if paths.len() == 0 {
        seq![]
    } else if seq_ends_with(paths.last(), ".toml"@) {
        toml_paths(paths.drop_last()).push(paths.last())
    } else {
        toml_paths(paths.drop_last())
    }
}

/// The names of named entries without data.
pub open spec fn names_of(v: Seq<(Seq<char>, ())>) -> Seq<Seq<char>> {
    v.map_values(|p: (Seq<char>, ())| p.0)
}

/// Each text comes after or equals the next one.
pub open spec fn sorted_descending(v: Seq<Seq<char>>) -> bool {
    forall|i: int, j: int| 0 <= i < j < v.len() ==> text_le(#[trigger] v[j], #[trigger] v[i])
}

/// The snapshot manifests among the stored `paths`: those ending with
/// `.toml`, the most recent name first.
pub fn snapshot_manifests(paths: &Vec<String>) -> (r: Vec<String>)
    ensures
        texts(r@).to_multiset() == toml_paths(texts(paths@)).to_multiset(),
        sorted_descending(texts(r@)),
{
    let suffix = chars_of(".toml");
    let mut kept: Vec<(String, ())> = Vec::new();
    let mut i: usize = 0;
    while i < paths.len()
        invariant
            i <= paths@.len(),
            suffix@ == ".toml"@,
            names_of(keyed(kept@)) == toml_paths(texts(paths@).take(i as int)),
        decreases paths@.len() - i,
    {
        proof {
            assert(texts(paths@).take(i + 1).drop_last() =~= texts(paths@).take(i as int));
        }
        if ends_with_chars(&chars_of(paths[i].as_str()), &suffix) {
            let ghost before = kept@;
            kept.push((paths[i].clone(), ()));
            proof {
                assert(names_of(keyed(kept@)) =~= names_of(keyed(before)).push(paths@[i as int]@));
            }
        }
        i = i + 1;
    }
    proof {
        assert(texts(paths@).take(paths@.len() as int) =~= texts(paths@));
    }
    let ghost listed = keyed(kept@);
    let sorted = sort_by_name(kept);
    let mut out: Vec<String> = Vec::new();
    let mut k: usize = sorted.len();
    while k > 0
        invariant
            k <= sorted@.len(),
            texts(out@) == names_of(keyed(sorted@)).skip(k as int).reverse(),
        decreases k,
    {
        k = k - 1;
        let ghost before = out@;
        out.push(sorted[k].0.clone());
        proof {
            let names = names_of(keyed(sorted@));
            assert(names.skip(k as int).reverse() =~= names.skip(k + 1).reverse().push(names[k as int]));
        }
    }
    proof {
        let names = names_of(keyed(sorted@));
        assert(names.skip(0) =~= names);
        assert(texts(out@) =~= names.reverse());
        assert forall|a: int, b: int| 0 <= a < b < texts(out@).len() implies text_le(
            #[trigger] texts(out@)[b],
            #[trigger] texts(out@)[a],
        ) by {
            let n = names.len();
            assert(texts(out@)[a] == names[n - 1 - a]);
            assert(texts(out@)[b] == names[n - 1 - b]);
            assert(keyed(sorted@)[n - 1 - b].0 == names[n - 1 - b]);
            assert(keyed(sorted@)[n - 1 - a].0 == names[n - 1 - a]);
        }
        names.lemma_reverse_to_multiset();
        lemma_names_multiset(keyed(sorted@), listed);
        assert(names_of(listed) == toml_paths(texts(paths@)));
    }
    out
}

proof fn lemma_names_multiset(a: Seq<(Seq<char>, ())>, b: Seq<(Seq<char>, ())>)
    requires
        a.to_multiset() == b.to_multiset(),
    ensures
        names_of(a).to_multiset() == names_of(b).to_multiset(),
{
    assert forall|x: Seq<char>| #[trigger] names_of(a).to_multiset().count(x)
        == names_of(b).to_multiset().count(x) by {
        lemma_count_names(a, x);
        lemma_count_names(b, x);
    }
    assert(names_of(a).to_multiset() =~= names_of(b).to_multiset());
}

proof fn lemma_count_names(a: Seq<(Seq<char>, ())>, x: Seq<char>)
    ensures
        names_of(a).to_multiset().count(x) == a.to_multiset().count(
            (x, ()),
        ),
    decreases a.len(),
{
    broadcast use vstd::seq_lib::group_to_multiset_ensures;
    broadcast use vstd::multiset::group_multiset_axioms;

    if a.len() == 0 {
        assert(names_of(a) =~= Seq::<Seq<char>>::empty());
        assert(a =~= Seq::<(Seq<char>, ())>::empty());
    } else {
        let init = a.drop_last();
        lemma_count_names(init, x);
        assert(names_of(a) =~= names_of(init).push(a.last().0));
        assert(init.push(a.last()) =~= a);
        assert(names_of(a).to_multiset() == names_of(init).to_multiset().insert(a.last().0));
        assert(a.to_multiset() == init.to_multiset().insert(a.last()));
        if a.last().0 == x {
            assert(a.last() == (x, ()));
        }
    }
}

/// Names what `std::path::Path::file_stem` gives for `path`, as text.
pub uninterp spec fn file_stem_text(path: Seq<char>) -> Option<Seq<char>>;

/// Calls `Path::file_stem` on `path`; the result is the named value
/// `file_stem_text(path)`.
#[verifier::external_body]
fn path_file_stem(path: &str) -> (r: Option<String>)
    ensures
        opt_string_view(r) == file_stem_text(path@),
{
    std::path::Path::new(path).file_stem().map(|s| s.to_string_lossy().into_owned())
}

/// The identifier of the snapshot whose manifest is at `path`: the file name
/// without its extension (empty when there is none).
pub fn snapshot_id(path: &str) -> (r: String)
    ensures
        r@ == match file_stem_text(path@) {
            Some(s) => s,
            None => seq![],
        },
{
    match path_file_stem(path) {
        Some(s) => s,
        None => String::new(),
    }
}

/// The identifier as listed: at most 24 bytes (with an ellipsis), padded to
/// 25 characters.
pub open spec fn id_column(id: Seq<char>) -> Seq<char> {
    padded(truncated(id, 24), 25)
}

/// An identifier is listed only if it is cut where a character ends.
pub open spec fn listable(id: Seq<char>) -> bool {
    &&& encode_utf8(id).len() <= usize::MAX
    &&& encode_utf8(id).len() <= 24 || is_char_boundary(encode_utf8(id), 24)
}

/// The row of a snapshot whose manifest is empty (`empty`) or cannot be
/// read (encrypted with another key, or invalid).
pub fn unreadable_row(id: &str, empty: bool) -> (r: String)
    requires
        listable(id@),
    ensures
        r@ == id_column(id@) + (if empty {
            " [Empty Manifest]"@
        } else {
            " [Encrypted/Invalid]"@
        }),
{
    let col = pad_right(truncate(id, 24).as_str(), 25);
    let mut out = chars_of(col.as_str());
    if empty {
        push_all(&mut out, &chars_of(" [Empty Manifest]"));
    } else {
        push_all(&mut out, &chars_of(" [Encrypted/Invalid]"));
    }
    string_from_chars(out)
}

/// The line that counts the snapshots found.
pub fn snapshots_found_line(count: usize) -> (r: String)
    ensures
        r@ == decimal(count as nat) + " Snapshots found"@,
{
    let mut out: Vec<char> = Vec::new();
    push_decimal(&mut out, count as u64);
    push_all(&mut out, &chars_of(" Snapshots found"));
    string_from_chars(out)
}

/// The change of a file's size between two snapshots: its sign (`+` when it
/// grew or stayed, nothing when it shrank) and its magnitude.
pub fn size_change(from: u64, to: u64) -> (r: (&'static str, u64))
    requires
        from <= i64::MAX,
        to <= i64::MAX,
    ensures
        to >= from ==> r.0@ == "+"@ && r.1 == to - from,
        to < from ==> r.0@ == ""@ && r.1 == from - to,
{
    if to >= from {
        ("+", to - from)
    } else {
        ("", from - to)
    }
}

/// The line shown after the snapshot `id` was deleted.
pub fn snapshot_deleted_line(id: &str) -> (r: String)
    ensures
        r@ == "✅ Snapshot deleted: "@ + id@,
{
    let mut out = chars_of("✅ Snapshot deleted: ");
    push_all(&mut out, &chars_of(id));
    string_from_chars(out)
}

} // verus!
