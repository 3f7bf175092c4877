use uptobox::json::Json;
use uptobox::model::generic::Listing;
use uptobox::model::get_account::{deserialize_usize_to_bool, read_switch};
use uptobox::model::get_files::default_string;
use uptobox::util::{deserialize, Payload};
use uptobox::{
    Error, GetAccountPaymentsResponse, GetAccountResponse, GetDownloadUrlLink,
    GetDownloadUrlResponse, GetDownloadUrlWait, GetFiles, GetFilesCurrentFolder, GetFilesFiles,
    GetFilesFolders, GetFilesFromPublicFolder, GetFilesFromPublicFolderResponse,
    GetFilesInformationsError, GetFilesInformationsResponse, GetFilesResponse,
    GetUploadUrlResponse, Uptobox,
};

#[test]
fn account_is_read() {
    let body = r#"{"statusCode":0,"message":"Success","data":{"login":"me","email":"me@example.org","point":"ignored"}}"#;
    assert!(matches!(
        deserialize::<GetAccountResponse>(body, &[]),
        Err(Error::UnknownParseResponse(_))
    ));
    let body = r#"{"statusCode":0,"message":"Success","data":{"login":"me","email":"me@example.org","point":12.5,"premium_expire":"2030-01-01 00:00:00","securityLock":0,"directDownload":1,"sslDownload":2,"premium":1,"token":"t0k3n"}}"#;
    let account = Uptobox::new("k").get_account().read(body).unwrap();
    assert_eq!(
        account,
        GetAccountResponse {
            premium: true,
            login: "me".to_string(),
            email: "me@example.org".to_string(),
            point: "12.5".to_string(),
            premium_expire: "2030-01-01 00:00:00".to_string(),
            security_lock: false,
            direct_download: true,
            ssl_download: true,
            token: "t0k3n".to_string(),
        }
    );
}

#[test]
fn whole_points_are_read_as_they_are_written() {
    let body = r#"{"data":{"login":"me","email":"e","point":7,"premium_expire":"","securityLock":0,"directDownload":0,"sslDownload":0,"premium":0,"token":""}}"#;
    let account = deserialize::<GetAccountResponse>(body, &[]).unwrap();
    assert_eq!(account.point, "7");
    assert!(!account.premium);
    let body = r#"{"data":{"login":"me","email":"e","point":-3,"premium_expire":"","securityLock":0,"directDownload":0,"sslDownload":0,"premium":0,"token":""}}"#;
    assert_eq!(deserialize::<GetAccountResponse>(body, &[]).unwrap().point, "-3");
}

#[test]
fn a_switch_is_off_for_zero_alone() {
    assert!(!deserialize_usize_to_bool(0));
    assert!(deserialize_usize_to_bool(1));
    assert!(deserialize_usize_to_bool(usize::MAX));
    assert_eq!(read_switch(Some(&Json::Unsigned(0))), Some(false));
    assert_eq!(read_switch(Some(&Json::Unsigned(5))), Some(true));
    assert_eq!(read_switch(Some(&Json::Bool(true))), None);
    assert_eq!(read_switch(None), None);
}

#[test]
fn payments_are_read() {
    let body = r#"{"statusCode":0,"data":{"list":[{"created":"2020-01-02","status":"paid","amount":"25.00","days":30,"type":"card"}]}}"#;
    let list = Uptobox::new("k").get_account_payments().read_list(body).unwrap();
    assert_eq!(
        list,
        vec![GetAccountPaymentsResponse {
            created: "2020-01-02".to_string(),
            status: "paid".to_string(),
            amount: "25.00".to_string(),
            days: 30,
            _type: "card".to_string(),
        }]
    );
}

#[test]
fn download_link_is_read_as_a_link() {
    let body = r#"{"statusCode":0,"data":{"dlLink":"https://example.org/f"}}"#;
    assert_eq!(
        deserialize::<GetDownloadUrlResponse>(body, &[]).unwrap(),
        GetDownloadUrlResponse::Link(GetDownloadUrlLink {
            dl_link: "https://example.org/f".to_string()
        })
    );
}

#[test]
fn wait_is_read_as_a_wait() {
    let body = r#"{"statusCode":16,"data":{"waiting":30,"waitingToken":"tok"},"message":"Waiting needed"}"#;
    assert_eq!(
        deserialize::<GetDownloadUrlResponse>(body, &[16, 39]).unwrap(),
        GetDownloadUrlResponse::Wait(GetDownloadUrlWait {
            waiting: 30,
            waiting_token: Some("tok".to_string())
        })
    );
    let body = r#"{"statusCode":39,"data":{"waiting":1800},"message":"wait"}"#;
    assert_eq!(
        deserialize::<GetDownloadUrlResponse>(body, &[16, 39]).unwrap(),
        GetDownloadUrlResponse::Wait(GetDownloadUrlWait { waiting: 1800, waiting_token: None })
    );
}

#[test]
fn a_payload_with_link_and_wait_is_a_link() {
    let data = Json::Object(vec![
        ("waiting".to_string(), Json::Unsigned(3)),
        ("dlLink".to_string(), Json::Text("l".to_string())),
    ]);
    assert_eq!(
        GetDownloadUrlResponse::decode(&data),
        Some(GetDownloadUrlResponse::Link(GetDownloadUrlLink { dl_link: "l".to_string() }))
    );
    assert_eq!(GetDownloadUrlResponse::decode(&Json::Object(vec![])), None);
}

#[test]
fn files_and_folders_are_read() {
    let body = r#"{"statusCode":0,"message":"Success","data":{
        "currentFolder":{"fileCount":1,"fld_id":0,"fld_parent_id":null,"hash":"h","totalFileSize":10},
        "folders":[{"fld_id":5,"fld_name":"//a","hash":"x","name":"a"}],
        "files":[{"file_code":"c","file_created":"2020","file_descr":"","file_downloads":2,
                  "file_last_download":"2021","file_name":"n","file_password":"","file_public":1,
                  "file_size":10,"id":null,"last_stream":"","nb_stream":0,"transcoded":null}],
        "pageCount":1,"totalFileCount":1,"totalFileSize":10}}"#;
    let data = Uptobox::new("k").get_files(&GetFiles::new("//")).read(body).unwrap();
    assert_eq!(
        data,
        GetFilesResponse {
            current_folder: GetFilesCurrentFolder {
                file_count: 1,
                fld_id: 0,
                fld_name: "//".to_string(),
                fld_parent_id: None,
                hash: "h".to_string(),
                name: "//".to_string(),
                total_file_size: 10,
            },
            folders: vec![GetFilesFolders {
                fld_id: 5,
                fld_name: "//a".to_string(),
                hash: "x".to_string(),
                name: "a".to_string(),
            }],
            files: vec![GetFilesFiles {
                file_code: "c".to_string(),
                file_created: "2020".to_string(),
                file_descr: "".to_string(),
                file_downloads: 2,
                file_last_download: "2021".to_string(),
                file_name: "n".to_string(),
                file_password: "".to_string(),
                file_public: 1,
                file_size: 10,
                id: None,
                last_stream: "".to_string(),
                nb_stream: 0,
                transcoded: None,
            }],
            page_count: 1,
            total_file_count: 1,
            total_file_size: 10,
        }
    );
}

#[test]
fn folder_names_are_kept_where_the_service_gives_them() {
    let data = Json::Object(vec![
        ("fileCount".to_string(), Json::Unsigned(0)),
        ("fld_id".to_string(), Json::Unsigned(3)),
        ("fld_name".to_string(), Json::Text("//docs".to_string())),
        ("fld_parent_id".to_string(), Json::Unsigned(1)),
        ("hash".to_string(), Json::Text("h".to_string())),
        ("name".to_string(), Json::Text("docs".to_string())),
        ("totalFileSize".to_string(), Json::Unsigned(0)),
    ]);
    let folder = GetFilesCurrentFolder::decode(&data).unwrap();
    assert_eq!(folder.fld_name, "//docs");
    assert_eq!(folder.name, "docs");
    assert_eq!(folder.fld_parent_id, Some(1));
    assert_eq!(default_string(), "//");
}

#[test]
fn a_folder_name_that_is_no_text_is_refused() {
    let data = Json::Object(vec![
        ("fileCount".to_string(), Json::Unsigned(0)),
        ("fld_id".to_string(), Json::Unsigned(3)),
        ("fld_name".to_string(), Json::Null),
        ("hash".to_string(), Json::Text("h".to_string())),
        ("totalFileSize".to_string(), Json::Unsigned(0)),
    ]);
    assert_eq!(GetFilesCurrentFolder::decode(&data), None);
}

#[test]
fn a_missing_member_refuses_the_payload() {
    let body = r#"{"statusCode":0,"data":{"uploadLink":"u"}}"#;
    assert!(matches!(
        deserialize::<GetUploadUrlResponse>(body, &[]),
        Err(Error::UnknownParseResponse(_))
    ));
}

#[test]
fn upload_url_is_read() {
    let body = r#"{"statusCode":0,"data":{"uploadLink":"u","maxUpload":"5G"},"message":"Success"}"#;
    assert_eq!(
        deserialize::<GetUploadUrlResponse>(body, &[]).unwrap(),
        GetUploadUrlResponse { upload_link: "u".to_string(), max_upload: "5G".to_string() }
    );
}

#[test]
fn public_folder_files_are_read() {
    let body = r#"{"statusCode":0,"data":{"list":[
        {"file_name":"a","file_date_inserted":"2020","file_code":"x"},
        {"file_name":"b","file_date_inserted":"2021","file_code":"y"}]}}"#;
    let list = Uptobox::new("k")
        .get_files_from_public_folder(&GetFilesFromPublicFolder::new(1, "h"))
        .read_list(body).unwrap();
    assert_eq!(list.len(), 2);
    assert_eq!(
        list[1],
        GetFilesFromPublicFolderResponse {
            file_name: "b".to_string(),
            file_date_inserted: "2021".to_string(),
            file_code: "y".to_string(),
        }
    );
}

#[test]
fn file_informations_are_read() {
    let body = r#"{"statusCode":0,"data":{"list":[
        {"file_code":"x","file_name":"a","file_size":7,"available_uts":true,"need_premium":false},
        {"file_code":"y","file_name":"","file_size":0,"available_uts":false,"need_premium":false,
         "error":{"code":28,"message":"File not found"}}]}}"#;
    let request = Uptobox::new("k").get_files_informations(vec!["x", "y"]);
    let data: Listing<GetFilesInformationsResponse> = request.read(body).unwrap();
    assert_eq!(
        data.list,
        vec![
            GetFilesInformationsResponse {
                file_code: "x".to_string(),
                file_name: "a".to_string(),
                file_size: 7,
                available_uts: true,
                need_premium: false,
                error: None,
            },
            GetFilesInformationsResponse {
                file_code: "y".to_string(),
                file_name: "".to_string(),
                file_size: 0,
                available_uts: false,
                need_premium: false,
                error: Some(GetFilesInformationsError {
                    code: 28,
                    message: "File not found".to_string()
                }),
            },
        ]
    );
}

#[test]
fn a_number_out_of_place_refuses_the_payload() {
    let data = Json::Object(vec![
        ("code".to_string(), Json::Text("28".to_string())),
        ("message".to_string(), Json::Text("m".to_string())),
    ]);
    assert_eq!(GetFilesInformationsError::decode(&data), None);
    assert_eq!(GetFilesInformationsError::decode(&Json::Array(vec![])), None);
}
