//! `rsb list-profiles`: the profiles found in the profiles directory, in the
//! order of their names, as a table, as CSV or as JSON.

use vstd::prelude::*;
use vstd::string::*;
use vstd::utf8::*;
use crate::config_paths::{extension_text, path_extension, DirEntryInfo};
use crate::numeric::chars_of;
use crate::text::{chars_equal, push_all, string_from_chars, trim_suffix_all, trim_suffix_chars};
use crate::text_lines::texts;
use crate::text_order::{keyed, named, pair_texts, sort_by_name, sorted_by_name};

verus! {

broadcast use vstd::utf8::encode_utf8_decode_utf8;

/// The formats of the profile listing.
#[derive(PartialEq, Eq, Structural, Debug, Clone, Copy)]
pub enum OutputFormat {
    Table,
    Json,
    Csv,
}

/// The listing of backup profiles.
pub struct ListProfilesCmd;

/// The entry is listed: a file with the extension `toml` whose name is
/// valid Unicode.
pub open spec fn is_listed(e: DirEntryInfo) -> bool {
    e.is_file && extension_text(e.path@) == Some("toml"@) && e.file_name is Some
}

/// The profiles of `entries`, in the order of the entries: each name without
/// its trailing `.toml`s, with the entry's path.
pub open spec fn listed_profiles(entries: Seq<DirEntryInfo>) -> Seq<(Seq<char>, String)>
    decreases entries.len(),
{
    if entries.len() == 0 {
        seq![]
    } else {
        let e = entries.last();
        if is_listed(e) {
            listed_profiles(entries.drop_last()).push(
                (trim_suffix_all(e.file_name->0@, ".toml"@), e.path),
            )
        } else {
            listed_profiles(entries.drop_last())
        }
    }
}

/// `s` padded with spaces on the right to `width` characters (as `{:<width}` does).
pub open spec fn padded(s: Seq<char>, width: nat) -> Seq<char> {
    if s.len() < width {
        s + Seq::new((width - s.len()) as nat, |i: int| ' ')
    } else {
        s
    }
}

/// `path` cut to its first 45 bytes with an ellipsis when it is longer than 48 bytes.
pub open spec fn shortened_path(path: Seq<char>) -> Seq<char> {
    if encode_utf8(path).len() > 48 {
        decode_utf8(encode_utf8(path).subrange(0, 45)) + "…"@
    } else {
        path
    }
}

/// A path that fits in memory and is shortened only where a character ends.
pub open spec fn cuttable(path: Seq<char>) -> bool {
    &&& encode_utf8(path).len() <= usize::MAX
    &&& encode_utf8(path).len() > 48 ==> is_char_boundary(encode_utf8(path), 45)
}

/// `s` padded with spaces on the right to `width` characters.
pub fn pad_right(s: &str, width: usize) -> (r: String)
    ensures
        r@ == padded(s@, width as nat),
{
    let mut out = chars_of(s);
    let n = out.len();
    if n < width {
        let mut k: usize = n;
        while k < width
            invariant
                n <= k <= width,
                n == s@.len(),
                out@ == s@ + Seq::new((k - n) as nat, |i: int| ' '),
            decreases width - k,
        {
            out.push(' ');
            k = k + 1;
            assert(out@ =~= s@ + Seq::new((k - n) as nat, |i: int| ' '));
        }
    }
    string_from_chars(out)
}

fn shorten_path(path: &str) -> (r: String)
    requires
        cuttable(path@),
    ensures
        r@ == shortened_path(path@),
{
    if path.len() <= 48 {
        path.to_string()
    } else {
        let (head, _tail) = path.split_at(45);
        let mut s = String::from_str(head);
        s.append("…");
        proof {
            assert(head.spec_bytes() == encode_utf8(head@));
            assert(decode_utf8(encode_utf8(head@)) == head@);
            assert(head.spec_bytes() =~= encode_utf8(path@).subrange(0, 45));
        }
        s
    }
}

/// The row of one profile in the table.
pub open spec fn table_row(name: Seq<char>, path: Seq<char>) -> Seq<char> {
    padded(name, 30) + " "@ + shortened_path(path)
}

/// The lines that the table listing prints.
pub open spec fn table_text(profiles: Seq<(Seq<char>, Seq<char>)>) -> Seq<Seq<char>> {
    if profiles.len() == 0 {
        seq![
            "\n📋 RS Shield Backup Profiles\n"@,
            "   ℹ️  No profiles found"@,
            "\n   Create a profile with:"@,
            "   rsb create-profile --name mybackup --source /path/to/source --dest /path/to/dest\n"@,
        ]
    } else {
        seq![
            "\n📋 RS Shield Backup Profiles\n"@,
            padded("Profile Name"@, 30) + " "@ + padded("Path"@, 50),
            Seq::new(80, |i: int| '-'),
        ] + Seq::new(profiles.len(), |i: int| table_row(profiles[i].0, profiles[i].1)) + seq![
            seq![],
        ]
    }
}

/// The lines that the CSV listing prints.
pub open spec fn csv_text(profiles: Seq<(Seq<char>, Seq<char>)>) -> Seq<Seq<char>> {
    seq!["Name,Path"@] + Seq::new(
        profiles.len(),
        |i: int| profiles[i].0 + ","@ + profiles[i].1,
    )
}

/// A member of a JSON listing document: a count, or an array of records,
/// each an object whose members are all strings.
pub enum JsonMember {
    Count(u64),
    Records(Vec<Vec<(String, String)>>),
}

/// The values of a member of a JSON listing document.
pub enum JsonMemberView {
    Count(nat),
    Records(Seq<Seq<(Seq<char>, Seq<char>)>>),
}

/// The values of the records of a member.
pub open spec fn records_view(rows: Seq<Vec<(String, String)>>) -> Seq<Seq<(Seq<char>, Seq<char>)>> {
    rows.map_values(|row: Vec<(String, String)>| pair_texts(row@))
}

/// The values of a member.
pub open spec fn member_view(m: JsonMember) -> JsonMemberView {
    match m {
        JsonMember::Count(n) => JsonMemberView::Count(n as nat),
        JsonMember::Records(rows) => JsonMemberView::Records(records_view(rows@)),
    }
}

/// The values of the members of a document, in order.
pub open spec fn document_view(doc: Seq<(String, JsonMember)>) -> Seq<(Seq<char>, JsonMemberView)> {
    doc.map_values(|m: (String, JsonMember)| (m.0@, member_view(m.1)))
}

/// The record of one profile: its name and its path.
pub open spec fn profile_record(p: (Seq<char>, Seq<char>)) -> Seq<(Seq<char>, Seq<char>)> {
    seq![("name"@, p.0), ("path"@, p.1)]
}

/// The JSON listing of `profiles`: the records of the profiles under
/// `profiles`, in order, then their number under `count`.
pub open spec fn profiles_document(profiles: Seq<(Seq<char>, Seq<char>)>) -> Seq<
    (Seq<char>, JsonMemberView),
> {
    seq![
        ("profiles"@, JsonMemberView::Records(profiles.map_values(|p: (Seq<char>, Seq<char>)| profile_record(p)))),
        ("count"@, JsonMemberView::Count(profiles.len())),
    ]
}

/// Names the text that `serde_json::to_string_pretty` writes for the JSON
/// object with the members `doc` (member names distinct), each record
/// written as an object of strings (record keys distinct).
pub uninterp spec fn json_document_text(doc: Seq<(Seq<char>, JsonMemberView)>) -> Seq<char>;

/// Turns the document into a `serde_json::Value` member for member and
/// record for record, and writes it with `serde_json::to_string_pretty`;
/// the result is the named value `json_document_text`.
#[verifier::external_body]
fn json_document(doc: &Vec<(String, JsonMember)>) -> (r: String)
    ensures
        r@ == json_document_text(document_view(doc@)),
{
    let mut top = serde_json::Map::new();
    for (key, member) in doc.iter() {
        let value = match member {
            JsonMember::Count(n) => serde_json::Value::from(*n),
            JsonMember::Records(rows) => serde_json::to_value(
                rows.iter().map(|row| row.iter().cloned().collect::<std::collections::BTreeMap<String, String>>()).collect::<Vec<_>>(),
            ).unwrap_or_default(),
        };
        top.insert(key.clone(), value);
    }
    serde_json::to_string_pretty(&top).unwrap_or_default()
}

fn add_line(v: &mut Vec<String>, s: String)
    ensures
        texts(final(v)@) == texts(old(v)@).push(s@),
{
    let ghost t = s@;
    v.push(s);
    assert(texts(v@) =~= texts(old(v)@).push(t));
}

impl ListProfilesCmd {
    /// The profiles among the entries of the profiles directory, in the
    /// order of their names.
    pub fn profiles(entries: &Vec<DirEntryInfo>) -> (r: Vec<(String, String)>)
        ensures
            keyed(r@).to_multiset() == listed_profiles(entries@).to_multiset(),
            sorted_by_name(keyed(r@)),
            forall|n: Seq<char>| #[trigger] named(keyed(r@), n) == named(listed_profiles(entries@), n),
    {
        let toml = chars_of("toml");
        let suffix = chars_of(".toml");
        let mut found: Vec<(String, String)> = Vec::new();
        let mut i: usize = 0;
        proof {
            reveal_strlit(".toml");
        }
        while i < entries.len()
            invariant
                i <= entries@.len(),
                toml@ == "toml"@,
                suffix@ == ".toml"@,
                suffix@.len() > 0,
                keyed(found@) == listed_profiles(entries@.take(i as int)),
            decreases entries@.len() - i,
        {
            let e = &entries[i];
            proof {
                assert(entries@.take(i + 1).drop_last() =~= entries@.take(i as int));
                assert(entries@.take(i + 1).last() == entries@[i as int]);
            }
            if e.is_file {
                let ext = path_extension(e.path.as_str());
                let is_toml = match &ext {
                    Some(x) => chars_equal(&chars_of(x.as_str()), &toml),
                    None => false,
                };
                if is_toml {
                    if let Some(n) = &e.file_name {
                        let name = string_from_chars(trim_suffix_chars(&chars_of(n.as_str()), &suffix));
                        found.push((name, e.path.clone()));
                        assert(keyed(found@) =~= listed_profiles(entries@.take(i as int + 1)));
                    }
                }
            }
            i = i + 1;
        }
        proof {
            assert(entries@.take(entries@.len() as int) =~= entries@);
        }
        sort_by_name(found)
    }

    /// The lines of the table listing.
    pub fn table_lines(profiles: &Vec<(String, String)>) -> (r: Vec<String>)
        requires
            forall|i: int|
                0 <= i < profiles@.len() ==> cuttable((#[trigger] profiles@[i]).1@),
        ensures
            texts(r@) == table_text(pair_texts(profiles@)),
    {
        let mut out: Vec<String> = Vec::new();
        add_line(&mut out, "\n📋 RS Shield Backup Profiles\n".to_string());
        if profiles.len() == 0 {
            add_line(&mut out, "   ℹ️  No profiles found".to_string());
            add_line(&mut out, "\n   Create a profile with:".to_string());
            add_line(
                &mut out,
                "   rsb create-profile --name mybackup --source /path/to/source --dest /path/to/dest\n".to_string(),
            );
            proof {
                assert(texts(out@) =~= table_text(pair_texts(profiles@)));
            }
            return out;
        }
        let mut header = chars_of(pad_right("Profile Name", 30).as_str());
        push_all(&mut header, &chars_of(" "));
        push_all(&mut header, &chars_of(pad_right("Path", 50).as_str()));
        add_line(&mut out, string_from_chars(header));
        let mut dashes: Vec<char> = Vec::new();
        let mut k: usize = 0;
        while k < 80
            invariant
                k <= 80,
                dashes@ == Seq::new(k as nat, |i: int| '-'),
            decreases 80 - k,
        {
            dashes.push('-');
            k = k + 1;
            assert(dashes@ =~= Seq::new(k as nat, |i: int| '-'));
        }
        add_line(&mut out, string_from_chars(dashes));
        let ghost pv = pair_texts(profiles@);
        let ghost head = texts(out@);
        let mut i: usize = 0;
        while i < profiles.len()
            invariant
                i <= profiles@.len(),
                pv == pair_texts(profiles@),
                forall|j: int|
                    0 <= j < profiles@.len() ==> cuttable((#[trigger] profiles@[j]).1@),
                texts(out@) == head + Seq::new(
                    i as nat,
                    |j: int| table_row(pv[j].0, pv[j].1),
                ),
            decreases profiles@.len() - i,
        {
            let mut row = chars_of(pad_right(profiles[i].0.as_str(), 30).as_str());
            push_all(&mut row, &chars_of(" "));
            push_all(&mut row, &chars_of(shorten_path(profiles[i].1.as_str()).as_str()));
            add_line(&mut out, string_from_chars(row));
            i = i + 1;
            assert(texts(out@) =~= head + Seq::new(
                i as nat,
                |j: int| table_row(pv[j].0, pv[j].1),
            ));
        }
        add_line(&mut out, String::new());
        proof {
            assert(texts(out@) =~= table_text(pv));
        }
        out
    }

    /// The lines of the CSV listing.
    pub fn csv_lines(profiles: &Vec<(String, String)>) -> (r: Vec<String>)
        ensures
            texts(r@) == csv_text(pair_texts(profiles@)),
    {
        let ghost pv = pair_texts(profiles@);
        let mut out: Vec<String> = Vec::new();
        add_line(&mut out, "Name,Path".to_string());
        let mut i: usize = 0;
        while i < profiles.len()
            invariant
                i <= profiles@.len(),
                pv == pair_texts(profiles@),
                texts(out@) == seq!["Name,Path"@] + Seq::new(
                    i as nat,
                    |j: int| pv[j].0 + ","@ + pv[j].1,
                ),
            decreases profiles@.len() - i,
        {
            let mut row = chars_of(profiles[i].0.as_str());
            push_all(&mut row, &chars_of(","));
            push_all(&mut row, &chars_of(profiles[i].1.as_str()));
            add_line(&mut out, string_from_chars(row));
            i = i + 1;
            assert(texts(out@) =~= seq!["Name,Path"@] + Seq::new(
                i as nat,
                |j: int| pv[j].0 + ","@ + pv[j].1,
            ));
        }
        out
    }

    /// The JSON listing document of `profiles`.
    pub fn json_document_of(profiles: &Vec<(String, String)>) -> (r: Vec<(String, JsonMember)>)
        ensures
            document_view(r@) == profiles_document(pair_texts(profiles@)),
    {
        let ghost pv = pair_texts(profiles@);
        let mut rows: Vec<Vec<(String, String)>> = Vec::new();
        let mut i: usize = 0;
        while i < profiles.len()
            invariant
                i <= profiles@.len(),
                pv == pair_texts(profiles@),
                rows@.len() == i,
                records_view(rows@) == pv.take(i as int).map_values(
                    |p: (Seq<char>, Seq<char>)| profile_record(p),
                ),
            decreases profiles@.len() - i,
        {
            let mut row: Vec<(String, String)> = Vec::new();
            row.push(("name".to_string(), profiles[i].0.clone()));
            row.push(("path".to_string(), profiles[i].1.clone()));
            proof {
                assert(pair_texts(row@) =~= profile_record(pv[i as int]));
            }
            let ghost before = rows@;
            rows.push(row);
            i = i + 1;
            proof {
                assert forall|k: int| 0 <= k < i - 1 implies #[trigger] records_view(rows@)[k]
                    == records_view(before)[k] by {
                    assert(rows@[k] == before[k]);
                }
                assert(records_view(rows@) =~= pv.take(i as int).map_values(
                    |p: (Seq<char>, Seq<char>)| profile_record(p),
                ));
            }
        }
        let mut doc: Vec<(String, JsonMember)> = Vec::new();
        doc.push(("profiles".to_string(), JsonMember::Records(rows)));
        doc.push(("count".to_string(), JsonMember::Count(profiles.len() as u64)));
        proof {
            assert(pv.take(profiles@.len() as int) =~= pv);
            assert(document_view(doc@) =~= profiles_document(pv));
        }
        doc
    }

    /// The JSON listing: the document of `profiles`, written out.
    pub fn json_text(profiles: &Vec<(String, String)>) -> (r: String)
        ensures
            r@ == json_document_text(profiles_document(pair_texts(profiles@))),
    {
        json_document(&Self::json_document_of(profiles))
    }
}

} // verus!
