use rs_shield::cli_commands::{output_format, ListProfilesFormat};
use rs_shield::config_paths::DirEntryInfo;
use rs_shield::profile_listing::{pad_right, JsonMember, ListProfilesCmd, OutputFormat};
use rs_shield::text_order::{sort_by_name, str_le};

fn entry(path: &str, is_file: bool) -> DirEntryInfo {
    let name = path.rsplit('/').next().unwrap().to_string();
    DirEntryInfo { path: path.to_string(), is_file, file_name: Some(name) }
}

#[test]
fn text_order_is_str_order() {
    for (a, b) in [("a", "b"), ("ab", "a"), ("", "x"), ("Z", "a"), ("é", "z"), ("same", "same")] {
        assert_eq!(str_le(a, b), a <= b, "{a:?} {b:?}");
        assert_eq!(str_le(b, a), b <= a, "{b:?} {a:?}");
    }
}

#[test]
fn sort_is_stable_by_name() {
    let v = vec![
        ("b".to_string(), "1".to_string()),
        ("a".to_string(), "2".to_string()),
        ("b".to_string(), "3".to_string()),
        ("a".to_string(), "4".to_string()),
    ];
    let mut expected = v.clone();
    expected.sort_by(|x, y| x.0.cmp(&y.0));
    assert_eq!(sort_by_name(v.clone()), expected);
}

#[test]
fn profiles_are_found_and_sorted() {
    let entries = vec![
        entry("/p/work.toml", true),
        entry("/p/notes.txt", true),
        entry("/p/dir.toml", false),
        entry("/p/alpha.toml", true),
        entry("/p/.toml", true),
    ];
    let profiles = ListProfilesCmd::profiles(&entries);
    assert_eq!(
        profiles,
        vec![("alpha".to_string(), "/p/alpha.toml".to_string()), ("work".to_string(), "/p/work.toml".to_string())]
    );
}

#[test]
fn table_and_csv() {
    let empty: Vec<(String, String)> = vec![];
    assert_eq!(ListProfilesCmd::table_lines(&empty).len(), 4);
    let long_path = format!("/{}", "x".repeat(60));
    let profiles = vec![("a".to_string(), "/p/a.toml".to_string()), ("b".to_string(), long_path.clone())];
    let lines = ListProfilesCmd::table_lines(&profiles);
    assert_eq!(lines[1], format!("{:<30} {:<50}", "Profile Name", "Path"));
    assert_eq!(lines[2], "-".repeat(80));
    assert_eq!(lines[3], format!("{:<30} {}", "a", "/p/a.toml"));
    assert_eq!(lines[4], format!("{:<30} {}…", "b", &long_path[..45]));
    assert_eq!(lines[5], "");
    assert_eq!(ListProfilesCmd::csv_lines(&profiles)[0], "Name,Path");
    assert_eq!(ListProfilesCmd::csv_lines(&profiles)[1], "a,/p/a.toml");
    assert_eq!(pad_right("ab", 4), "ab  ");
    assert_eq!(pad_right("abcdef", 4), "abcdef");
}

#[test]
fn json_listing() {
    let profiles = vec![("a".to_string(), "/p/a.toml".to_string())];
    let text = ListProfilesCmd::json_text(&profiles);
    let v: serde_json::Value = serde_json::from_str(&text).unwrap();
    assert_eq!(v["count"], 1);
    assert_eq!(v["profiles"][0]["name"], "a");
    assert_eq!(v["profiles"][0]["path"], "/p/a.toml");
    assert_eq!(output_format(ListProfilesFormat::Csv), OutputFormat::Csv);
    assert_eq!(output_format(ListProfilesFormat::Json), OutputFormat::Json);
}

#[test]
fn profiles_with_equal_names_keep_directory_order() {
    let entries = vec![
        entry("/p/a.toml.toml", true),
        entry("/p/b.toml", true),
        entry("/p/a.toml", true),
    ];
    let found = ListProfilesCmd::profiles(&entries);
    assert_eq!(
        found,
        vec![
            ("a".to_string(), "/p/a.toml.toml".to_string()),
            ("a".to_string(), "/p/a.toml".to_string()),
            ("b".to_string(), "/p/b.toml".to_string()),
        ]
    );
    let reversed: Vec<DirEntryInfo> = entries.into_iter().rev().collect();
    let found = ListProfilesCmd::profiles(&reversed);
    assert_eq!(found[0].1, "/p/a.toml");
    assert_eq!(found[1].1, "/p/a.toml.toml");
}

#[test]
fn json_listing_document_and_text() {
    let profiles = vec![
        ("a".to_string(), "/p/a.toml".to_string()),
        ("b".to_string(), "/q/b.toml".to_string()),
    ];
    let doc = ListProfilesCmd::json_document_of(&profiles);
    assert_eq!(doc.len(), 2);
    assert_eq!(doc[0].0, "profiles");
    match &doc[0].1 {
        JsonMember::Records(rows) => {
            assert_eq!(rows.len(), 2);
            assert_eq!(rows[1], vec![("name".to_string(), "b".to_string()), ("path".to_string(), "/q/b.toml".to_string())]);
        }
        JsonMember::Count(_) => panic!("profiles must hold records"),
    }
    assert_eq!(doc[1].0, "count");
    assert!(matches!(doc[1].1, JsonMember::Count(2)));
    let one = vec![("a".to_string(), "/p/a.toml".to_string())];
    assert_eq!(
        ListProfilesCmd::json_text(&one),
        "{\n  \"count\": 1,\n  \"profiles\": [\n    {\n      \"name\": \"a\",\n      \"path\": \"/p/a.toml\"\n    }\n  ]\n}"
    );
    assert_eq!(ListProfilesCmd::json_text(&Vec::new()), "{\n  \"count\": 0,\n  \"profiles\": []\n}");
}
