use uptobox::json::Json;
use uptobox::{GetDownloadUrl, GetFiles, GetFilesFromPublicFolder, OrderBy, OrderDir, UpdateFile};

fn members(document: &Json) -> &Vec<(String, Json)> {
    match document {
        Json::Object(fields) => fields,
        other => panic!("no object: {:?}", other),
    }
}

fn keys(document: &Json) -> Vec<String> {
    members(document).iter().map(|(key, _)| key.clone()).collect()
}

fn text(document: &Json, key: &str) -> String {
    for (k, v) in members(document) {
        if k == key {
            match v {
                Json::Text(s) => return s.clone(),
                other => panic!("no text under {}: {:?}", key, other),
            }
        }
    }
    panic!("no member {}", key)
}

fn number(document: &Json, key: &str) -> u64 {
    for (k, v) in members(document) {
        if k == key {
            match v {
                Json::Unsigned(n) => return *n,
                other => panic!("no number under {}: {:?}", key, other),
            }
        }
    }
    panic!("no member {}", key)
}

fn flag(document: &Json, key: &str) -> bool {
    for (k, v) in members(document) {
        if k == key {
            match v {
                Json::Bool(b) => return *b,
                other => panic!("no truth value under {}: {:?}", key, other),
            }
        }
    }
    panic!("no member {}", key)
}

#[test]
fn download_url_without_password_sends_the_file_code_alone() {
    let payload = GetDownloadUrl::new("abc123").to_value();
    assert_eq!(keys(&payload), vec!["file_code"]);
    assert_eq!(text(&payload, "file_code"), "abc123");
}

#[test]
fn download_url_with_password_sends_both() {
    let mut input = GetDownloadUrl::new("abc123");
    input.password("secret");
    let payload = input.to_value();
    assert_eq!(keys(&payload), vec!["file_code", "password"]);
    assert_eq!(text(&payload, "password"), "secret");
}

#[test]
fn download_url_default_is_empty() {
    let payload = GetDownloadUrl::default().to_value();
    assert_eq!(keys(&payload), vec!["file_code"]);
    assert_eq!(text(&payload, "file_code"), "");
}

#[test]
fn files_request_starts_with_its_defaults() {
    let payload = GetFiles::new("//movies").to_value();
    assert_eq!(keys(&payload), vec!["path", "limit", "orderBy", "dir", "offset"]);
    assert_eq!(text(&payload, "path"), "//movies");
    assert_eq!(number(&payload, "limit"), 100);
    assert_eq!(text(&payload, "orderBy"), "file_name");
    assert_eq!(text(&payload, "dir"), "asc");
    assert_eq!(number(&payload, "offset"), 0);
}

#[test]
fn files_request_default_asks_for_the_root() {
    let payload = GetFiles::default().to_value();
    assert_eq!(keys(&payload), vec!["path", "limit", "orderBy", "dir", "offset"]);
    assert_eq!(text(&payload, "path"), "//");
    assert_eq!(number(&payload, "limit"), 100);
}

#[test]
fn files_request_setters_chain() {
    let mut input = GetFiles::new("//");
    input
        .limit(5)
        .offset(10)
        .order_by(OrderBy::FileSize)
        .order_dir(OrderDir::Desc)
        .search(OrderBy::FileDownloads, "holiday");
    let payload = input.to_value();
    assert_eq!(
        keys(&payload),
        vec!["path", "limit", "orderBy", "dir", "offset", "searchField", "search"]
    );
    assert_eq!(number(&payload, "limit"), 5);
    assert_eq!(number(&payload, "offset"), 10);
    assert_eq!(text(&payload, "orderBy"), "file_size");
    assert_eq!(text(&payload, "dir"), "desc");
    assert_eq!(text(&payload, "searchField"), "file_downloads");
    assert_eq!(text(&payload, "search"), "holiday");
}

#[test]
fn a_later_setting_replaces_an_earlier_one() {
    let mut input = GetFiles::new("//");
    input.limit(5).limit(7);
    assert_eq!(number(&input.to_value(), "limit"), 7);
}

#[test]
fn columns_and_directions_have_their_wire_names() {
    assert_eq!(OrderBy::FileName.name(), "file_name");
    assert_eq!(OrderBy::FileDate.name(), "file_date");
    assert_eq!(OrderBy::FileSize.name(), "file_size");
    assert_eq!(OrderBy::Transcoded.name(), "transcoded");
    assert_eq!(OrderBy::FileDownloads.name(), "file_downloads");
    assert_eq!(OrderDir::Asc.name(), "asc");
    assert_eq!(OrderDir::Desc.name(), "desc");
    assert_eq!(OrderDir::Asc.label(), "ASC");
    assert_eq!(OrderDir::Desc.label(), "DESC");
}

#[test]
fn public_folder_request_sends_every_member() {
    let payload = GetFilesFromPublicFolder::new(42, "hash").to_value();
    assert_eq!(keys(&payload), vec!["folder", "hash", "limit", "offset"]);
    assert_eq!(number(&payload, "folder"), 42);
    assert_eq!(text(&payload, "hash"), "hash");
    assert_eq!(number(&payload, "limit"), 100);
    assert_eq!(number(&payload, "offset"), 0);
    let mut input = GetFilesFromPublicFolder::new(42, "hash");
    input.limit(3).offset(6);
    let payload = input.to_value();
    assert_eq!(number(&payload, "limit"), 3);
    assert_eq!(number(&payload, "offset"), 6);
    let payload = GetFilesFromPublicFolder::default().to_value();
    assert_eq!(number(&payload, "folder"), 0);
    assert_eq!(text(&payload, "hash"), "");
    assert_eq!(number(&payload, "limit"), 100);
}

#[test]
fn update_without_changes_sends_the_file_code_alone() {
    let payload = UpdateFile::new("abc").to_value();
    assert_eq!(keys(&payload), vec!["file_code"]);
    assert_eq!(text(&payload, "file_code"), "abc");
    assert_eq!(keys(&UpdateFile::default().to_value()), vec!["file_code"]);
}

#[test]
fn update_sends_each_change_that_was_set() {
    let mut input = UpdateFile::new("abc");
    input.description("about").public(false);
    let payload = input.to_value();
    assert_eq!(keys(&payload), vec!["file_code", "description", "public"]);
    assert_eq!(text(&payload, "description"), "about");
    assert!(!flag(&payload, "public"));

    let mut input = UpdateFile::new("abc");
    input.name("n").description("d").password("p").public(true);
    let payload = input.to_value();
    assert_eq!(
        keys(&payload),
        vec!["file_code", "new_name", "description", "password", "public"]
    );
    assert_eq!(text(&payload, "new_name"), "n");
    assert_eq!(text(&payload, "password"), "p");
    assert!(flag(&payload, "public"));
}

#[test]
fn no_payload_holds_null() {
    let mut files = GetFiles::new("//");
    files.search(OrderBy::FileName, "x");
    let mut update = UpdateFile::new("abc");
    update.name("n");
    for payload in [
        GetDownloadUrl::new("a").to_value(),
        files.to_value(),
        GetFilesFromPublicFolder::new(1, "h").to_value(),
        update.to_value(),
    ] {
        for (_, value) in members(&payload) {
            assert!(matches!(value, Json::Text(_) | Json::Unsigned(_) | Json::Bool(_)));
        }
    }
}
