use uptobox::json::{get, Json};
use uptobox::request::{join, switch, url};
use uptobox::{GetDownloadUrl, GetFiles, GetFilesFromPublicFolder, Method, UpdateFile, Uptobox};

fn members(document: &Json) -> &Vec<(String, Json)> {
    match document {
        Json::Object(fields) => fields,
        other => panic!("no object: {:?}", other),
    }
}

fn sorted_keys(document: &Json) -> Vec<String> {
    let mut keys: Vec<String> = members(document).iter().map(|(key, _)| key.clone()).collect();
    keys.sort();
    keys
}

fn text(document: &Json, key: &str) -> String {
    match get(members(document), key) {
        Some(Json::Text(s)) => s.clone(),
        other => panic!("no text under {}: {:?}", key, other),
    }
}

fn number(document: &Json, key: &str) -> u64 {
    match get(members(document), key) {
        Some(Json::Unsigned(n)) => *n,
        other => panic!("no number under {}: {:?}", key, other),
    }
}

#[test]
fn the_token_is_added_to_a_payload() {
    let client = Uptobox::new("t0k3n");
    let request = client.get_download_url(GetDownloadUrl::new("abc"));
    assert_eq!(sorted_keys(&request.payload), vec!["file_code", "token"]);
    assert_eq!(text(&request.payload, "token"), "t0k3n");
    assert_eq!(text(&request.payload, "file_code"), "abc");
}

#[test]
fn the_token_is_added_to_an_empty_payload() {
    let client = Uptobox::new("t0k3n");
    let request = client.get_account();
    assert_eq!(request.method, Method::Get);
    assert_eq!(request.url, "https://uptobox.com/api/user/me");
    assert_eq!(sorted_keys(&request.payload), vec!["token"]);
    assert_eq!(text(&request.payload, "token"), "t0k3n");
    let request = client.get_account_payments();
    assert_eq!(request.url, "https://uptobox.com/api/user/payments/get");
    let request = client.get_upload_url();
    assert_eq!(request.method, Method::Get);
    assert_eq!(request.url, "https://uptobox.com/api/upload");
}

#[test]
fn account_switches_are_sent_as_numbers() {
    let client = Uptobox::new("k");
    let request = client.update_account_dd(true);
    assert_eq!(request.method, Method::Patch);
    assert_eq!(request.url, "https://uptobox.com/api/user/settings");
    assert_eq!(sorted_keys(&request.payload), vec!["directDownload", "token"]);
    assert_eq!(number(&request.payload, "directDownload"), 1);
    let request = client.update_account_security_lock(false);
    assert_eq!(request.url, "https://uptobox.com/api/user/securityLock");
    assert_eq!(number(&request.payload, "securityLock"), 0);
    assert_eq!(switch(true), 1);
    assert_eq!(switch(false), 0);
}

#[test]
fn download_url_requests() {
    let client = Uptobox::new("k");
    let mut input = GetDownloadUrl::new("abc");
    input.password("pw");
    let request = client.get_download_url(input);
    assert_eq!(request.method, Method::Get);
    assert_eq!(request.url, "https://uptobox.com/api/link");
    assert_eq!(sorted_keys(&request.payload), vec!["file_code", "password", "token"]);
    let request = client.public_get_download_url(GetDownloadUrl::new("abc"));
    assert_eq!(sorted_keys(&request.payload), vec!["file_code"]);
    let request = client.get_download_url_waiting_token("abc", "w");
    assert_eq!(sorted_keys(&request.payload), vec!["file_code", "token", "waitingToken"]);
    assert_eq!(text(&request.payload, "waitingToken"), "w");
    let request = client.public_get_download_url_waiting_token("abc", "w");
    assert_eq!(request.method, Method::Get);
    assert_eq!(sorted_keys(&request.payload), vec!["file_code", "waitingToken"]);
}

#[test]
fn file_codes_are_joined_with_commas() {
    let client = Uptobox::new("k");
    let request = client.get_files_informations(vec!["a", "b:pw", "c"]);
    assert_eq!(request.method, Method::Get);
    assert_eq!(request.url, "https://uptobox.com/api/link/info");
    assert_eq!(sorted_keys(&request.payload), vec!["fileCodes"]);
    assert_eq!(text(&request.payload, "fileCodes"), "a,b:pw,c");
    assert_eq!(join(&vec![], ","), "");
    assert_eq!(join(&vec!["one"], ","), "one");
    assert_eq!(join(&vec!["", ""], ", "), ", ");
    assert_eq!(join(&vec!["a", "b", "c"], ""), "abc");
}

#[test]
fn listing_requests() {
    let client = Uptobox::new("k");
    let request = client.get_files_from_public_folder(&GetFilesFromPublicFolder::new(3, "h"));
    assert_eq!(request.method, Method::Get);
    assert_eq!(request.url, "https://uptobox.com/api/user/public");
    assert_eq!(sorted_keys(&request.payload), vec!["folder", "hash", "limit", "offset"]);
    let request = client.get_files(&GetFiles::new("//"));
    assert_eq!(request.url, "https://uptobox.com/api/user/files");
    assert_eq!(
        sorted_keys(&request.payload),
        vec!["dir", "limit", "offset", "orderBy", "path", "token"]
    );
    assert_eq!(text(&request.payload, "token"), "k");
    assert_eq!(number(&request.payload, "limit"), 100);
}

#[test]
fn file_management_requests() {
    let client = Uptobox::new("k");
    let mut update = UpdateFile::new("abc");
    update.name("n");
    let request = client.update_file(&update);
    assert_eq!(request.method, Method::Patch);
    assert_eq!(request.url, "https://uptobox.com/api/user/files");
    assert_eq!(sorted_keys(&request.payload), vec!["file_code", "new_name", "token"]);

    let request = client.update_public(vec!["a", "b"], true);
    assert_eq!(request.method, Method::Patch);
    assert_eq!(text(&request.payload, "file_codes"), "a,b");
    assert!(matches!(get(members(&request.payload), "public"), Some(Json::Bool(true))));

    let request = client.move_folder(4, 9);
    assert_eq!(request.method, Method::Patch);
    assert_eq!(
        sorted_keys(&request.payload),
        vec!["action", "destination_fld_id", "fld_id", "token"]
    );
    assert_eq!(number(&request.payload, "fld_id"), 4);
    assert_eq!(number(&request.payload, "destination_fld_id"), 9);
    assert_eq!(text(&request.payload, "action"), "move");

    let request = client.move_files(vec!["a"], 9);
    assert_eq!(text(&request.payload, "file_codes"), "a");
    assert_eq!(text(&request.payload, "action"), "move");

    let request = client.copy_files(vec!["a", "b"], 9);
    assert_eq!(request.method, Method::Patch);
    assert_eq!(text(&request.payload, "action"), "copy");
    assert_eq!(number(&request.payload, "destination_fld_id"), 9);

    let request = client.rename_folder(4, "new");
    assert_eq!(sorted_keys(&request.payload), vec!["fld_id", "new_name", "token"]);
    assert_eq!(text(&request.payload, "new_name"), "new");

    let request = client.create_folder("//", "docs");
    assert_eq!(request.method, Method::Put);
    assert_eq!(request.url, "https://uptobox.com/api/user/files");
    assert_eq!(text(&request.payload, "path"), "//");
    assert_eq!(text(&request.payload, "name"), "docs");

    let request = client.delete_files(vec!["a", "b"]);
    assert_eq!(request.method, Method::Delete);
    assert_eq!(text(&request.payload, "file_codes"), "a,b");

    let request = client.delete_folder(4);
    assert_eq!(request.method, Method::Delete);
    assert_eq!(sorted_keys(&request.payload), vec!["fld_id", "token"]);
    assert_eq!(number(&request.payload, "fld_id"), 4);
}

#[test]
fn addresses_are_relative_to_the_api() {
    assert_eq!(url(""), "https://uptobox.com/api/");
    assert_eq!(url("user/me"), "https://uptobox.com/api/user/me");
}

#[test]
fn lookup_sees_the_last_of_two_members_with_one_key() {
    let fields = vec![
        ("a".to_string(), Json::Unsigned(1)),
        ("b".to_string(), Json::Unsigned(2)),
        ("a".to_string(), Json::Unsigned(3)),
    ];
    assert!(matches!(get(&fields, "a"), Some(Json::Unsigned(3))));
    assert!(matches!(get(&fields, "b"), Some(Json::Unsigned(2))));
    assert!(get(&fields, "c").is_none());
    assert!(get(&vec![], "a").is_none());
}
