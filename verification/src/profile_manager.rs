//! The desktop's profile manager: the profiles saved in its profiles
//! folder, with their age, in the order of their names.

use vstd::prelude::*;
use crate::config_paths::{extension_text, path_extension};
use crate::numeric::{chars_of, decimal, push_decimal};
use crate::text::{chars_equal, push_all, string_from_chars, trim_suffix_all, trim_suffix_chars};
use crate::text_order::{keyed, named, sort_by_name, sorted_by_name};

verus! {

/// A saved profile as the manager shows it.
pub struct ProfileEntry {
    pub name: String,
    pub path: String,
    pub created: String,
}

/// How long ago a profile file was last modified.
pub enum ModifiedAge {
    /// The file system gives no modification time.
    Unknown,
    /// The modification time lies in the future.
    InFuture,
    /// Seconds since the last modification.
    Elapsed(u64),
}

/// What the manager saw of one entry of the profiles folder.
pub struct ProfileFileInfo {
    pub path: String,
    pub is_file: bool,
    /// The file name, with invalid Unicode replaced.
    pub file_name: String,
    pub age: ModifiedAge,
}

/// The age label of a profile: whole days since its last modification.
pub open spec fn created_text(age: ModifiedAge) -> Seq<char> {
    match age {
        ModifiedAge::Unknown => "Unknown"@,
        ModifiedAge::InFuture => "Recently"@,
        ModifiedAge::Elapsed(s) => decimal((s / 86400) as nat) + " days ago"@,
    }
}

/// The entry is a profile: a file with the extension `toml`.
pub open spec fn is_profile(e: ProfileFileInfo) -> bool {
    e.is_file && extension_text(e.path@) == Some("toml"@)
}

/// `l` holds, in order, one item for each profile among `entries`: its name
/// without the trailing `.toml`s, its path and its age label.
pub open spec fn listing_of(entries: Seq<ProfileFileInfo>, l: Seq<(String, (String, String))>) -> bool
    decreases entries.len(),
{
    if entries.len() == 0 {
        l.len() == 0
    } else {
        let e = entries.last();
        if is_profile(e) {
            &&& l.len() > 0
            &&& l.last().0@ == trim_suffix_all(e.file_name@, ".toml"@)
            &&& l.last().1.0 == e.path
            &&& l.last().1.1@ == created_text(e.age)
            &&& listing_of(entries.drop_last(), l.drop_last())
        } else {
            listing_of(entries.drop_last(), l)
        }
    }
}

/// A profile entry as a name with its path and age label.
pub open spec fn entry_pairs(v: Seq<ProfileEntry>) -> Seq<(String, (String, String))> {
    v.map_values(|e: ProfileEntry| (e.name, (e.path, e.created)))
}

/// The manager's profiles folder.
pub struct ProfileManager;

/// The age label of a profile.
pub fn created_label(age: &ModifiedAge) -> (r: String)
    ensures
        r@ == created_text(*age),
{
    match age {
        ModifiedAge::Unknown => "Unknown".to_string(),
        ModifiedAge::InFuture => "Recently".to_string(),
        ModifiedAge::Elapsed(s) => {
            let mut out: Vec<char> = Vec::new();
            push_decimal(&mut out, *s / 86400);
            push_all(&mut out, &chars_of(" days ago"));
            string_from_chars(out)
        },
    }
}

impl ProfileManager {
    /// The profiles among the entries of the profiles folder, in the order of
    /// their names (those with equal names in the order of the entries).
    pub fn list_profiles(entries: &Vec<ProfileFileInfo>) -> (r: Vec<ProfileEntry>)
        ensures
            exists|l: Seq<(String, (String, String))>|
                listing_of(entries@, l) && #[trigger] keyed(entry_pairs(r@)).to_multiset()
                    == keyed(l).to_multiset() && forall|n: Seq<char>|
                    #[trigger] named(keyed(entry_pairs(r@)), n) == named(keyed(l), n),
            sorted_by_name(keyed(entry_pairs(r@))),
    {
        let toml = chars_of("toml");
        let suffix = chars_of(".toml");
        proof {
            reveal_strlit(".toml");
        }
        let mut found: Vec<(String, (String, String))> = Vec::new();
        let mut i: usize = 0;
        while i < entries.len()
            invariant
                i <= entries@.len(),
                toml@ == "toml"@,
                suffix@ == ".toml"@,
                suffix@.len() > 0,
                listing_of(entries@.take(i as int), found@),
            decreases entries@.len() - i,
        {
            let e = &entries[i];
            let ghost before = found@;
            proof {
                assert(entries@.take(i + 1).drop_last() =~= entries@.take(i as int));
                assert(entries@.take(i + 1).last() == entries@[i as int]);
            }
            let keep = e.is_file && match path_extension(e.path.as_str()) {
                Some(x) => chars_equal(&chars_of(x.as_str()), &toml),
                None => false,
            };
            if keep {
                let name = string_from_chars(trim_suffix_chars(&chars_of(e.file_name.as_str()), &suffix));
                found.push((name, (e.path.clone(), created_label(&e.age))));
                proof {
                    assert(found@.drop_last() =~= before);
                }
            }
            i = i + 1;
        }
        proof {
            assert(entries@.take(entries@.len() as int) =~= entries@);
        }
        let ghost listed = found@;
        let sorted = sort_by_name(found);
        let mut out: Vec<ProfileEntry> = Vec::new();
        let mut k: usize = 0;
        while k < sorted.len()
            invariant
                k <= sorted@.len(),
                entry_pairs(out@) == sorted@.take(k as int),
            decreases sorted@.len() - k,
        {
            let ghost old_out = out@;
            let name = sorted[k].0.clone();
            let path = sorted[k].1.0.clone();
            let created = sorted[k].1.1.clone();
            assert((name, (path, created)) == sorted@[k as int]);
            out.push(ProfileEntry { name, path, created });
            assert(entry_pairs(out@) =~= entry_pairs(old_out).push(sorted@[k as int]));
            assert(sorted@.take(k + 1) =~= sorted@.take(k as int).push(sorted@[k as int]));
            k = k + 1;
        }
        proof {
            assert(sorted@.take(sorted@.len() as int) =~= sorted@);
            assert(listing_of(entries@, listed));
        }
        out
    }
}

/// The status shown after a profile was deleted.
pub fn deleted_message(name: &str) -> (r: String)
    ensures
        r@ == "✅ Profile '"@ + name@ + "' deleted successfully!"@,
{
    let mut out = chars_of("✅ Profile '");
    push_all(&mut out, &chars_of(name));
    push_all(&mut out, &chars_of("' deleted successfully!"));
    string_from_chars(out)
}

/// The status shown when deleting a profile failed with the file system's
/// message `error`.
pub fn delete_failed_message(error: &str) -> (r: String)
    ensures
        r@ == "❌ Error: Error deleting profile: "@ + error@,
{
    let mut out = chars_of("❌ Error: Error deleting profile: ");
    push_all(&mut out, &chars_of(error));
    string_from_chars(out)
}

} // verus!
