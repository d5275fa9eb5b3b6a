//! Backup profiles: expanding `~` and environment variables in their paths,
//! and turning a loaded profile into the texts the profile forms show.

use vstd::prelude::*;
use crate::numeric::{chars_of, decimal, push_decimal};
use crate::text::{push_all, string_from_chars};
use crate::text_lines::texts;

verus! {

/// Names what `char::is_alphanumeric` returns for `c`.
pub uninterp spec fn is_alphanumeric(c: char) -> bool;

/// Calls `char::is_alphanumeric`; the result is the named value `is_alphanumeric(c)`.
/// On ASCII, exactly the letters and digits are alphanumeric.
#[verifier::external_body]
fn char_is_alphanumeric(c: char) -> (r: bool)
    ensures
        r == is_alphanumeric(c),
        (c as u32) < 128 ==> r == (('a' <= c && c <= 'z') || ('A' <= c && c <= 'Z') || ('0' <= c
            && c <= '9')),
{
    c.is_alphanumeric()
}

/// A character that may continue a `$NAME` variable reference.
pub open spec fn is_name_char(c: char) -> bool {
    is_alphanumeric(c) || c == '_'
}

/// A piece of a path template: a character kept as it is, a `${NAME}`
/// reference, or a `$NAME` reference.
pub enum EnvPiece {
    Literal(char),
    Braced(String),
    Plain(String),
}

/// The value of a piece of a path template.
pub enum PieceView {
    Literal(Seq<char>),
    Braced(Seq<char>),
    Plain(Seq<char>),
}

pub open spec fn piece_view(p: EnvPiece) -> PieceView {
    match p {
        EnvPiece::Literal(c) => PieceView::Literal(seq![c]),
        EnvPiece::Braced(n) => PieceView::Braced(n@),
        EnvPiece::Plain(n) => PieceView::Plain(n@),
    }
}

pub open spec fn pieces_view(v: Seq<EnvPiece>) -> Seq<PieceView> {
    v.map_values(|p: EnvPiece| piece_view(p))
}

/// The length of the name that starts `s`: characters before the first `}`
/// (all of `s` when there is none).
pub open spec fn braced_len(s: Seq<char>) -> nat
    decreases s.len(),
{
    if s.len() == 0 || s[0] == '}' {
        0
    } else {
        1 + braced_len(s.skip(1))
    }
}

/// The length of the run of name characters that starts `s`.
pub open spec fn name_len(s: Seq<char>) -> nat
    decreases s.len(),
{
    if s.len() == 0 || !is_name_char(s[0]) {
        0
    } else {
        1 + name_len(s.skip(1))
    }
}

pub proof fn lemma_braced_len_bound(s: Seq<char>)
    ensures
        braced_len(s) <= s.len(),
    decreases s.len(),
{
    if s.len() > 0 && s[0] != '}' {
        lemma_braced_len_bound(s.skip(1));
    }
}

pub proof fn lemma_name_len_bound(s: Seq<char>)
    ensures
        name_len(s) <= s.len(),
    decreases s.len(),
{
    if s.len() > 0 && is_name_char(s[0]) {
        lemma_name_len_bound(s.skip(1));
    }
}

/// How a path is read: `${NAME}` (the `}` may be missing at the end),
/// `$NAME` with a run of letters, digits and `_`, and any other character,
/// `$` included, kept as it is.
pub open spec fn template_of(s: Seq<char>) -> Seq<PieceView>
    decreases s.len(),
{
    if s.len() == 0 {
        seq![]
    } else if s[0] != '$' {
        seq![PieceView::Literal(seq![s[0]])] + template_of(s.skip(1))
    } else if s.len() > 1 && s[1] == '{' {
        let rest = s.skip(2);
        let n: int = if braced_len(rest) < rest.len() { braced_len(rest) as int } else { rest.len() as int };
        let after: int = if n < rest.len() { n + 1 } else { n };
        seq![PieceView::Braced(rest.take(n))] + template_of(rest.skip(after))
    } else if s.len() > 1 && is_name_char(s[1]) {
        let rest = s.skip(1);
        let n: int = if name_len(rest) < rest.len() { name_len(rest) as int } else { rest.len() as int };
        seq![PieceView::Plain(rest.take(n))] + template_of(rest.skip(n))
    } else {
        seq![PieceView::Literal(seq!['$'])] + template_of(s.skip(1))
    }
}

proof fn lemma_template_unfold(s: Seq<char>, i: int)
    requires
        0 <= i < s.len(),
    ensures
        s[i] != '$' ==> template_of(s.skip(i)) == seq![PieceView::Literal(seq![s[i]])] + template_of(
            s.skip(i + 1),
        ),
        s[i] == '$' && i + 1 < s.len() && s[i + 1] == '{' ==> ({
            let n = braced_len(s.skip(i + 2));
            let after: int = if n < s.len() - (i + 2) {
                (n + 1) as int
            } else {
                n as int
            };
            template_of(s.skip(i)) == seq![PieceView::Braced(s.subrange(i + 2, i + 2 + n))]
                + template_of(s.skip(i + 2 + after))
        }),
        s[i] == '$' && !(i + 1 < s.len() && s[i + 1] == '{') && i + 1 < s.len() && is_name_char(
            s[i + 1],
        ) ==> ({
            let n = name_len(s.skip(i + 1));
            template_of(s.skip(i)) == seq![PieceView::Plain(s.subrange(i + 1, i + 1 + n))]
                + template_of(s.skip(i + 1 + n))
        }),
        s[i] == '$' && !(i + 1 < s.len() && s[i + 1] == '{') && !(i + 1 < s.len()
            && is_name_char(s[i + 1])) ==> template_of(s.skip(i)) == seq![PieceView::Literal(seq!['$'])]
            + template_of(s.skip(i + 1)),
{
    let t = s.skip(i);
    assert(t.skip(1) =~= s.skip(i + 1));
    assert(t[0] == s[i]);
    assert(t.len() > 0);
    if t.len() > 1 {
        assert(t[1] == s[i + 1]);
        assert(t.skip(2) =~= s.skip(i + 2));
        let rest2 = t.skip(2);
        let n2 = braced_len(rest2);
        lemma_braced_len_bound(rest2);
        assert(rest2.take(n2 as int) =~= s.subrange(i + 2, i + 2 + n2));
        let after: int = if n2 < rest2.len() {
            (n2 + 1) as int
        } else {
            n2 as int
        };
        assert(rest2.skip(after) =~= s.skip(i + 2 + after));
        let rest1 = t.skip(1);
        let n1 = name_len(rest1);
        lemma_name_len_bound(rest1);
        assert(rest1.take(n1 as int) =~= s.subrange(i + 1, i + 1 + n1));
        assert(rest1.skip(n1 as int) =~= s.skip(i + 1 + n1));
    }
}

proof fn lemma_pieces_push(v: Seq<EnvPiece>, p: EnvPiece, t: Seq<PieceView>)
    ensures
        pieces_view(v) + (seq![piece_view(p)] + t) == pieces_view(v.push(p)) + t,
{
    assert(pieces_view(v.push(p)) =~= pieces_view(v).push(piece_view(p)));
    assert(pieces_view(v) + (seq![piece_view(p)] + t) =~= pieces_view(v).push(piece_view(p)) + t);
}

proof fn lemma_braced_len_step(s: Seq<char>, j: int)
    requires
        0 <= j < s.len(),
    ensures
        braced_len(s.skip(j)) == (if s[j] == '}' { 0 } else { 1 + braced_len(s.skip(j + 1)) }),
{
    assert(s.skip(j).skip(1) =~= s.skip(j + 1));
}

proof fn lemma_name_len_step(s: Seq<char>, j: int)
    requires
        0 <= j < s.len(),
    ensures
        name_len(s.skip(j)) == (if !is_name_char(s[j]) { 0 } else { 1 + name_len(s.skip(j + 1)) }),
{
    assert(s.skip(j).skip(1) =~= s.skip(j + 1));
}

fn copy_range(cs: &Vec<char>, from: usize, to: usize) -> (r: String)
    requires
        from <= to <= cs@.len(),
    ensures
        r@ == cs@.subrange(from as int, to as int),
{
    let mut v: Vec<char> = Vec::new();
    let mut k = from;
    while k < to
        invariant
            from <= k <= to <= cs@.len(),
            v@ == cs@.subrange(from as int, k as int),
        decreases to - k,
    {
        v.push(cs[k]);
        k = k + 1;
        assert(v@ =~= cs@.subrange(from as int, k as int));
    }
    string_from_chars(v)
}

/// Reads the path `path` as a template of characters and variable references.
pub fn env_template(path: &str) -> (r: Vec<EnvPiece>)
    ensures
        pieces_view(r@) == template_of(path@),
{
    let cs = chars_of(path);
    let n = cs.len();
    let mut out: Vec<EnvPiece> = Vec::new();
    let mut i: usize = 0;
    assert(cs@.skip(0) =~= cs@);
    while i < n
        invariant
            n == cs@.len(),
            cs@ == path@,
            i <= n,
            pieces_view(out@) + template_of(cs@.skip(i as int)) == template_of(cs@),
        decreases n - i,
    {
        proof {
            lemma_template_unfold(cs@, i as int);
        }
        let ghost before = pieces_view(out@);
        let ghost out_before = out@;
        let c = cs[i];
        if c != '$' {
            out.push(EnvPiece::Literal(c));
            proof {
                lemma_pieces_push(out_before, EnvPiece::Literal(c), template_of(cs@.skip(i + 1)));
            }
            i = i + 1;
        } else if i + 1 < n && cs[i + 1] == '{' {
            let start = i + 2;
            let mut j = start;
            while j < n && cs[j] != '}'
                invariant
                    start <= j <= n,
                    n == cs@.len(),
                    braced_len(cs@.skip(start as int)) == (j - start) + braced_len(cs@.skip(j as int)),
                decreases n - j,
            {
                proof {
                    lemma_braced_len_step(cs@, j as int);
                }
                j = j + 1;
            }
            proof {
                if j < n {
                    lemma_braced_len_step(cs@, j as int);
                } else {
                    assert(cs@.skip(j as int).len() == 0);
                }
            }
            let name = copy_range(&cs, start, j);
            let ghost piece = EnvPiece::Braced(name);
            out.push(EnvPiece::Braced(name));
            let next = if j < n { j + 1 } else { j };
            proof {
                lemma_pieces_push(out_before, piece, template_of(cs@.skip(next as int)));
            }
            i = next;
        } else if i + 1 < n && (char_is_alphanumeric(cs[i + 1]) || cs[i + 1] == '_') {
            let start = i + 1;
            let mut j = start;
            while j < n && (char_is_alphanumeric(cs[j]) || cs[j] == '_')
                invariant
                    start <= j <= n,
                    n == cs@.len(),
                    name_len(cs@.skip(start as int)) == (j - start) + name_len(cs@.skip(j as int)),
                decreases n - j,
            {
                proof {
                    lemma_name_len_step(cs@, j as int);
                }
                j = j + 1;
            }
            proof {
                if j < n {
                    lemma_name_len_step(cs@, j as int);
                } else {
                    assert(cs@.skip(j as int).len() == 0);
                }
            }
            let name = copy_range(&cs, start, j);
            let ghost piece = EnvPiece::Plain(name);
            out.push(EnvPiece::Plain(name));
            proof {
                lemma_pieces_push(out_before, piece, template_of(cs@.skip(j as int)));
            }
            i = j;
        } else {
            out.push(EnvPiece::Literal('$'));
            proof {
                lemma_pieces_push(out_before, EnvPiece::Literal('$'), template_of(cs@.skip(i + 1)));
            }
            i = i + 1;
        }
    }
    assert(cs@.skip(n as int) =~= Seq::<char>::empty());
    assert(pieces_view(out@) + Seq::<PieceView>::empty() =~= pieces_view(out@));
    out
}

/// The text a piece stands for, given the value of the variable it names
/// (`None` when the variable is not set): a missing variable is kept as it
/// was written.
pub open spec fn piece_text(p: PieceView, value: Option<Seq<char>>) -> Seq<char> {
    match p {
        PieceView::Literal(cs) => cs,
        PieceView::Braced(name) => match value {
            Some(v) => v,
            None => "${"@ + name + "}"@,
        },
        PieceView::Plain(name) => match value {
            Some(v) => v,
            None => "$"@ + name,
        },
    }
}

/// The text of a template whose `i`-th piece, when a reference, names a
/// variable of value `values[i]`.
pub open spec fn rendered(pieces: Seq<PieceView>, values: Seq<Option<Seq<char>>>) -> Seq<char>
    decreases pieces.len(),
{
    if pieces.len() == 0 {
        seq![]
    } else {
        piece_text(pieces[0], values[0]) + rendered(pieces.skip(1), values.skip(1))
    }
}

pub open spec fn values_view(v: Seq<Option<String>>) -> Seq<Option<Seq<char>>> {
    v.map_values(|o: Option<String>| match o {
        Some(s) => Some(s@),
        None => None,
    })
}

proof fn lemma_rendered_step(p: Seq<PieceView>, v: Seq<Option<Seq<char>>>, i: int)
    requires
        0 <= i < p.len(),
        v.len() == p.len(),
    ensures
        rendered(p.skip(i), v.skip(i)) == piece_text(p[i], v[i]) + rendered(p.skip(i + 1), v.skip(i + 1)),
{
    assert(p.skip(i).skip(1) =~= p.skip(i + 1));
    assert(v.skip(i).skip(1) =~= v.skip(i + 1));
}

/// Writes out the template `pieces`, where `values[i]` is the value of the
/// variable that the `i`-th piece names (unused for other pieces).
pub fn render_template(pieces: &Vec<EnvPiece>, values: &Vec<Option<String>>) -> (r: String)
    requires
        values@.len() == pieces@.len(),
    ensures
        r@ == rendered(pieces_view(pieces@), values_view(values@)),
{
    let ghost pv = pieces_view(pieces@);
    let ghost vv = values_view(values@);
    let mut out: Vec<char> = Vec::new();
    let mut i: usize = 0;
    assert(pv.skip(0) =~= pv);
    assert(vv.skip(0) =~= vv);
    while i < pieces.len()
        invariant
            values@.len() == pieces@.len(),
            pv == pieces_view(pieces@),
            vv == values_view(values@),
            i <= pieces@.len(),
            out@ + rendered(pv.skip(i as int), vv.skip(i as int)) == rendered(pv, vv),
        decreases pieces@.len() - i,
    {
        proof {
            lemma_rendered_step(pv, vv, i as int);
        }
        let ghost before = out@;
        let text: Vec<char> = match &pieces[i] {
            EnvPiece::Literal(c) => {
                let mut t: Vec<char> = Vec::new();
                t.push(*c);
                t
            },
            EnvPiece::Braced(name) => match &values[i] {
                Some(v) => chars_of(v.as_str()),
                None => {
                    let mut t = chars_of("${");
                    push_all(&mut t, &chars_of(name.as_str()));
                    push_all(&mut t, &chars_of("}"));
                    t
                },
            },
            EnvPiece::Plain(name) => match &values[i] {
                Some(v) => chars_of(v.as_str()),
                None => {
                    let mut t = chars_of("$");
                    push_all(&mut t, &chars_of(name.as_str()));
                    t
                },
            },
        };
        assert(text@ =~= piece_text(pv[i as int], vv[i as int]));
        push_all(&mut out, &text);
        assert(before + (text@ + rendered(pv.skip(i + 1), vv.skip(i + 1))) =~= (before + text@)
            + rendered(pv.skip(i + 1), vv.skip(i + 1)));
        i = i + 1;
    }
    assert(pv.skip(i as int).len() == 0);
    assert(out@ + Seq::<char>::empty() =~= out@);
    string_from_chars(out)
}

/// The path `path` with a leading `~` replaced by the home directory `home`,
/// when one is known.
pub open spec fn home_expanded(path: Seq<char>, home: Option<Seq<char>>) -> Seq<char> {
    if path.len() > 0 && path[0] == '~' && home is Some {
        home->0 + path.skip(1)
    } else {
        path
    }
}

/// Replaces a leading `~` of `path` by the home directory `home`.
pub fn expand_home(path: &str, home: Option<&str>) -> (r: String)
    ensures
        r@ == home_expanded(
            path@,
            match home {
                Some(h) => Some(h@),
                None => None,
            },
        ),
{
    let cs = chars_of(path);
    match home {
        Some(h) => if cs.len() > 0 && cs[0] == '~' {
            let mut out = chars_of(h);
            let mut i: usize = 1;
            let ghost start = out@;
            while i < cs.len()
                invariant
                    1 <= i <= cs@.len(),
                    out@ == start + cs@.subrange(1, i as int),
                decreases cs@.len() - i,
            {
                out.push(cs[i]);
                i = i + 1;
                assert(out@ =~= start + cs@.subrange(1, i as int));
            }
            assert(cs@.subrange(1, cs@.len() as int) =~= cs@.skip(1));
            string_from_chars(out)
        } else {
            path.to_string()
        },
        None => path.to_string(),
    }
}

/// `s` has no `$`, so it names no variable.
pub open spec fn has_no_dollar(s: Seq<char>) -> bool {
    forall|i: int| 0 <= i < s.len() ==> s[i] != '$'
}

/// A path that names no variable is written out unchanged, whatever the
/// environment holds.
pub proof fn law_plain_path_unchanged(s: Seq<char>, values: Seq<Option<Seq<char>>>)
    requires
        has_no_dollar(s),
        values.len() == s.len(),
    ensures
        template_of(s).len() == s.len(),
        rendered(template_of(s), values) == s,
    decreases s.len(),
{
    if s.len() > 0 {
        assert(s[0] != '$');
        let t = s.skip(1);
        assert forall|i: int| 0 <= i < t.len() implies t[i] != '$' by {
            assert(t[i] == s[i + 1]);
        }
        law_plain_path_unchanged(t, values.skip(1));
        let p = template_of(s);
        assert(p == seq![PieceView::Literal(seq![s[0]])] + template_of(t));
        assert(p.skip(1) =~= template_of(t));
        assert(rendered(p, values) == seq![s[0]] + rendered(template_of(t), values.skip(1)));
        assert(seq![s[0]] + t =~= s);
    }
}

/// S3 settings of a profile.
pub struct S3Config {
    pub bucket: Option<String>,
    pub region: Option<String>,
    pub endpoint: Option<String>,
    pub access_key: Option<String>,
    pub secret_key: Option<String>,
}

/// A backup profile as stored in its TOML file.
pub struct Config {
    pub source_path: String,
    pub destination_path: String,
    pub exclude_patterns: Vec<String>,
    pub encryption_key: Option<String>,
    pub backup_mode: String,
    pub s3_bucket: Option<String>,
    pub s3_region: Option<String>,
    pub s3_endpoint: Option<String>,
    pub s3: Option<S3Config>,
    pub encrypt_patterns: Option<Vec<String>>,
    pub pause_on_low_battery: Option<u8>,
    pub pause_on_high_cpu: Option<u8>,
    pub compression_level: Option<u8>,
}

/// A profile as the texts of the profile forms.
pub struct ProfileData {
    pub source_path: String,
    pub destination_path: String,
    pub exclude_patterns: String,
    pub encryption_key: String,
    pub backup_mode: String,
    pub s3_bucket: String,
    pub s3_region: String,
    pub s3_endpoint: String,
    pub s3_access_key: String,
    pub s3_secret_key: String,
    pub encrypt_patterns: String,
    pub pause_on_low_battery: String,
    pub pause_on_high_cpu: String,
    pub compression_level: String,
}

/// The lines of `lines` joined with newlines between them.
pub open spec fn joined_lines(lines: Seq<Seq<char>>) -> Seq<char>
    decreases lines.len(),
{
    if lines.len() == 0 {
        seq![]
    } else if lines.len() == 1 {
        lines[0]
    } else {
        joined_lines(lines.drop_last()) + "\n"@ + lines.last()
    }
}

/// The text of an optional string, empty when absent.
pub open spec fn text_or_empty(s: Option<String>) -> Seq<char> {
    match s {
        Some(t) => t@,
        None => seq![],
    }
}

/// The text of an optional number, empty when absent.
pub open spec fn number_or_empty(n: Option<u8>) -> Seq<char> {
    match n {
        Some(v) => decimal(v as nat),
        None => seq![],
    }
}

/// An S3 setting: the one of the `s3` section when given there, else the
/// one at the top level of the profile, else empty.
pub open spec fn s3_setting(section: Option<Option<String>>, top: Option<String>) -> Seq<char> {
    match section {
        Some(Some(v)) => v@,
        _ => text_or_empty(top),
    }
}

/// Joins `lines` with newlines.
pub fn join_lines(lines: &Vec<String>) -> (r: String)
    ensures
        r@ == joined_lines(texts(lines@)),
{
    let ghost lv = texts(lines@);
    let mut out: Vec<char> = Vec::new();
    let mut i: usize = 0;
    while i < lines.len()
        invariant
            lv == texts(lines@),
            i <= lines@.len(),
            out@ == joined_lines(lv.take(i as int)),
        decreases lines@.len() - i,
    {
        let ghost before = out@;
        if i > 0 {
            push_all(&mut out, &chars_of("\n"));
        }
        push_all(&mut out, &chars_of(lines[i].as_str()));
        proof {
            assert(lv.take(i + 1).drop_last() =~= lv.take(i as int));
            if i == 0 {
                assert(before == Seq::<char>::empty());
                assert(out@ =~= lv.take(1)[0]);
            } else {
                assert(out@ =~= before + "\n"@ + lv[i as int]);
            }
        }
        i = i + 1;
    }
    assert(lv.take(lines@.len() as int) =~= lv);
    string_from_chars(out)
}

fn optional_text(s: &Option<String>) -> (r: String)
    ensures
        r@ == text_or_empty(*s),
{
    match s {
        Some(t) => t.clone(),
        None => String::new(),
    }
}

fn optional_number(n: Option<u8>) -> (r: String)
    ensures
        r@ == number_or_empty(n),
{
    match n {
        Some(v) => crate::numeric::decimal_string(v as u64),
        None => String::new(),
    }
}

fn s3_value(section: Option<&Option<String>>, top: &Option<String>) -> (r: String)
    ensures
        r@ == s3_setting(
            match section {
                Some(o) => Some(*o),
                None => None,
            },
            *top,
        ),
{
    match section {
        Some(Some(v)) => v.clone(),
        _ => optional_text(top),
    }
}

impl ProfileData {
    /// The form texts of the profile `cfg`: lists are shown one item per
    /// line, absent values as empty texts, and S3 settings of the `s3` section
    /// win over those at the top level.
    pub fn from(cfg: Config) -> (r: ProfileData)
        ensures
            r.source_path@ == cfg.source_path@,
            r.destination_path@ == cfg.destination_path@,
            r.exclude_patterns@ == joined_lines(texts(cfg.exclude_patterns@)),
            r.encryption_key@ == text_or_empty(cfg.encryption_key),
            r.backup_mode@ == cfg.backup_mode@,
            r.s3_bucket@ == s3_setting(
                match cfg.s3 {
                    Some(s) => Some(s.bucket),
                    None => None,
                },
                cfg.s3_bucket,
            ),
            r.s3_region@ == s3_setting(
                match cfg.s3 {
                    Some(s) => Some(s.region),
                    None => None,
                },
                cfg.s3_region,
            ),
            r.s3_endpoint@ == s3_setting(
                match cfg.s3 {
                    Some(s) => Some(s.endpoint),
                    None => None,
                },
                cfg.s3_endpoint,
            ),
            r.s3_access_key@ == (match cfg.s3 {
                Some(s) => text_or_empty(s.access_key),
                None => seq![],
            }),
            r.s3_secret_key@ == (match cfg.s3 {
                Some(s) => text_or_empty(s.secret_key),
                None => seq![],
            }),
            r.encrypt_patterns@ == (match cfg.encrypt_patterns {
                Some(v) => joined_lines(texts(v@)),
                None => seq![],
            }),
            r.pause_on_low_battery@ == number_or_empty(cfg.pause_on_low_battery),
            r.pause_on_high_cpu@ == number_or_empty(cfg.pause_on_high_cpu),
            r.compression_level@ == number_or_empty(cfg.compression_level),
    {
        let s3_bucket = s3_value(
            match &cfg.s3 {
                Some(s) => Some(&s.bucket),
                None => None,
            },
            &cfg.s3_bucket,
        );
        let s3_region = s3_value(
            match &cfg.s3 {
                Some(s) => Some(&s.region),
                None => None,
            },
            &cfg.s3_region,
        );
        let s3_endpoint = s3_value(
            match &cfg.s3 {
                Some(s) => Some(&s.endpoint),
                None => None,
            },
            &cfg.s3_endpoint,
        );
        let s3_access_key = match &cfg.s3 {
            Some(s) => optional_text(&s.access_key),
            None => String::new(),
        };
        let s3_secret_key = match &cfg.s3 {
            Some(s) => optional_text(&s.secret_key),
            None => String::new(),
        };
        let exclude_patterns = join_lines(&cfg.exclude_patterns);
        let encryption_key = optional_text(&cfg.encryption_key);
        let encrypt_patterns = match &cfg.encrypt_patterns {
            Some(v) => join_lines(v),
            None => String::new(),
        };
        ProfileData {
            source_path: cfg.source_path,
            destination_path: cfg.destination_path,
            exclude_patterns,
            encryption_key,
            backup_mode: cfg.backup_mode,
            s3_bucket,
            s3_region,
            s3_endpoint,
            s3_access_key,
            s3_secret_key,
            encrypt_patterns,
            pause_on_low_battery: optional_number(cfg.pause_on_low_battery),
            pause_on_high_cpu: optional_number(cfg.pause_on_high_cpu),
            compression_level: optional_number(cfg.compression_level),
        }
    }
}

} // verus!
