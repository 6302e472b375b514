use ingest_pipeline::keys::archive_name;
use ingest_pipeline::keys::destination_key;
use ingest_pipeline::keys::extraction_path;
use ingest_pipeline::keys::file_name;
use ingest_pipeline::keys::is_under_root;
use ingest_pipeline::keys::processed_prefix;
use ingest_pipeline::keys::slice_bytes;
use ingest_pipeline::keys::store_identifier;
use ingest_pipeline::keys::temp_path;
use std::path::Component;
use std::path::Path;

#[test]
fn slice_bytes_cuts_between_offsets() {
    assert_eq!(slice_bytes("uploads/sales.zip", 8, 17), Some(String::from("sales.zip")));
    assert_eq!(slice_bytes("abcdef", 2, 4), Some(String::from("cd")));
    assert_eq!(slice_bytes("abcdef", 0, 6), Some(String::from("abcdef")));
}

#[test]
fn slice_bytes_allows_an_empty_cut() {
    assert_eq!(slice_bytes("abc", 3, 3), Some(String::new()));
    assert_eq!(slice_bytes("", 0, 0), Some(String::new()));
}

#[test]
fn slice_bytes_refuses_offsets_out_of_order_or_range() {
    assert_eq!(slice_bytes("abc", 2, 1), None);
    assert_eq!(slice_bytes("abc", 0, 4), None);
    assert_eq!(slice_bytes("abc", 4, 4), None);
}

#[test]
fn slice_bytes_refuses_to_split_a_character() {
    // 'é' takes two bytes: offsets 1 and 3 are boundaries, 2 is not.
    assert_eq!(slice_bytes("aéb", 1, 3), Some(String::from("é")));
    assert_eq!(slice_bytes("aéb", 2, 4), None);
    assert_eq!(slice_bytes("aéb", 0, 2), None);
}

#[test]
fn archive_name_drops_the_upload_prefix() {
    assert_eq!(archive_name("uploads/sales.zip"), Some(String::from("sales.zip")));
    assert_eq!(archive_name("uploads/2024/q1.zip"), Some(String::from("2024/q1.zip")));
    assert_eq!(archive_name("uploads/données.zip"), Some(String::from("données.zip")));
}

#[test]
fn archive_name_counts_bytes_not_characters() {
    // 'é' takes two bytes, so the first eight bytes end before the slash.
    assert_eq!(archive_name("uploadé/x.zip"), Some(String::from("/x.zip")));
}

#[test]
fn archive_name_of_the_bare_prefix_is_empty() {
    assert_eq!(archive_name("uploads/"), Some(String::new()));
}

#[test]
fn archive_name_needs_the_whole_prefix() {
    assert_eq!(archive_name("uploads"), None);
    assert_eq!(archive_name(""), None);
    // Offset 8 falls inside 'é'.
    assert_eq!(archive_name("uploadsé.zip"), None);
}

#[test]
fn store_identifier_stands_between_prefix_and_suffix() {
    assert_eq!(store_identifier("store_0042.csv"), Some(String::from("0042")));
    assert_eq!(store_identifier("store-7.txt"), Some(String::from("7")));
    assert_eq!(store_identifier("store_123.json"), Some(String::from("123.")));
}

#[test]
fn store_identifier_may_be_empty() {
    assert_eq!(store_identifier("store_.csv"), Some(String::new()));
}

#[test]
fn store_identifier_needs_prefix_and_suffix() {
    assert_eq!(store_identifier("store.csv"), None);
    assert_eq!(store_identifier("abc"), None);
    assert_eq!(store_identifier(""), None);
}

#[test]
fn temp_path_is_under_tmp() {
    assert_eq!(temp_path("store_0042.csv"), "/tmp/store_0042.csv");
    assert_eq!(temp_path("uploads/sales.zip"), "/tmp/uploads/sales.zip");
}

#[test]
fn extraction_path_is_under_the_extraction_root() {
    assert_eq!(extraction_path("a/b.json"), "/tmp/extract/a/b.json");
}

#[test]
fn extraction_path_minus_the_root_is_the_relative_path() {
    let path = extraction_path("a/b.json");
    assert_eq!(&path[13..], "a/b.json");
}

#[test]
fn processed_prefix_names_the_archive() {
    assert_eq!(processed_prefix("sales.zip"), "processed/sales.zip/");
}

#[test]
fn destination_key_keeps_the_relative_path() {
    assert_eq!(destination_key("sales.zip", "a/b.json"), "processed/sales.zip/a/b.json");
}

#[test]
fn file_name_is_the_last_name_of_the_key() {
    assert_eq!(file_name("stores/store_0042.csv"), Some(String::from("store_0042.csv")));
    assert_eq!(file_name("store_0042.csv"), Some(String::from("store_0042.csv")));
    assert_eq!(file_name("a/b/c"), Some(String::from("c")));
    assert_eq!(file_name("/tmp/données.json"), Some(String::from("données.json")));
}

#[test]
fn file_name_passes_over_trailing_slashes_and_single_dots() {
    assert_eq!(file_name("stores/"), Some(String::from("stores")));
    assert_eq!(file_name("foo.txt/."), Some(String::from("foo.txt")));
    assert_eq!(file_name("foo.txt/.//"), Some(String::from("foo.txt")));
    assert_eq!(file_name("a/.hidden"), Some(String::from(".hidden")));
    assert_eq!(file_name("a/..."), Some(String::from("...")));
}

#[test]
fn file_name_of_a_key_without_names_is_nothing() {
    assert_eq!(file_name(""), None);
    assert_eq!(file_name("/"), None);
    assert_eq!(file_name("//"), None);
    assert_eq!(file_name("."), None);
    assert_eq!(file_name("./"), None);
    assert_eq!(file_name("/."), None);
    assert_eq!(file_name(".."), None);
    assert_eq!(file_name("foo.txt/.."), None);
    assert_eq!(file_name("foo.txt/../"), None);
}

#[test]
fn file_name_agrees_with_the_path_type_on_every_short_key() {
    let alphabet = ['/', '.', 'a', 'é'];
    let mut keys = vec![String::new()];
    let mut from = 0;
    for _ in 0..8 {
        let upto = keys.len();
        for at in from..upto {
            for c in alphabet {
                let mut longer = keys[at].clone();
                longer.push(c);
                keys.push(longer);
            }
        }
        from = upto;
    }
    assert_eq!(keys.len(), 87381);
    for key in &keys {
        let expected = Path::new(key).file_name().map(|name| name.to_str().unwrap().to_string());
        assert_eq!(file_name(key), expected, "on {:?}", key);
    }
}

#[test]
fn relative_paths_stay_under_the_root() {
    for path in ["a", "a/b.json", "a//b", "./a", "a/./b", "..a", "a..", ".../x", "a/", "é"] {
        assert!(is_under_root(path), "on {:?}", path);
    }
}

#[test]
fn paths_that_leave_the_root_are_told() {
    for path in ["", "/", "/a", "..", "../a", "a/..", "a/../b", "a/b/..", "a\0", "\0"] {
        assert!(!is_under_root(path), "on {:?}", path);
    }
}

#[test]
fn is_under_root_agrees_with_path_components_on_every_short_path() {
    let alphabet = ['/', '.', 'a', '\0'];
    let mut paths = vec![String::new()];
    let mut from = 0;
    for _ in 0..7 {
        let upto = paths.len();
        for at in from..upto {
            for c in alphabet {
                let mut longer = paths[at].clone();
                longer.push(c);
                paths.push(longer);
            }
        }
        from = upto;
    }
    for path in &paths {
        let expected = !path.is_empty()
            && !path.contains('\0')
            && Path::new(path)
                .components()
                .all(|part| matches!(part, Component::Normal(_) | Component::CurDir));
        assert_eq!(is_under_root(path), expected, "on {:?}", path);
    }
}
