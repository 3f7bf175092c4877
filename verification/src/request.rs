//! The requests that the client sends, one for each call of the API.
//!
//! A [`Request`] says what is to be sent and, by its type, what the answer
//! holds; sending it, and receiving the answer, is left to the caller.
//! [`Uptobox::parse_body`] and [`Request::read`] then say what the answer
//! means.

use std::marker::PhantomData;
use vstd::prelude::*;
use vstd::string::StringExecFns;
use crate::error::{Error, UptoboxResult};
use crate::input::get_download_url::GetDownloadUrl;
use crate::input::get_files::GetFiles;
use crate::input::get_files_from_public_folder::GetFilesFromPublicFolder;
use crate::input::update_file::UpdateFile;
use crate::json::{parsed, Json};
use crate::model::generic::{GenericEmptyData, GenericUpdatedResponse, Listing};
use crate::model::get_account::GetAccountResponse;
use crate::model::get_account_payments::GetAccountPaymentsResponse;
use crate::model::get_download_url::GetDownloadUrlResponse;
use crate::model::get_files::GetFilesResponse;
use crate::model::get_files_from_public_folder::GetFilesFromPublicFolderResponse;
use crate::model::get_files_informations::GetFilesInformationsResponse;
use crate::model::get_upload_url::GetUploadUrlResponse;
use crate::payload::{
    as_map, described, has_key, is_flat, is_payload, keys_of_map, map_of, map_of_pushed, merge,
    push_flag, push_text, push_unsigned, Content, Entry,
};
use crate::util::{classified, deserialize, Payload};

verus! {

/// The HTTP method of a request.
#[derive(Debug, Clone, Copy, PartialEq, Eq)]
pub enum Method {
    Get,
    Put,
    Patch,
    Delete,
}

/// What is to be sent, and how the answer is to be read: as a payload of
/// type `T`, with the status codes `benign` counting as success besides 0.
/// A GET request carries its payload as query parameters, any other as a JSON
/// body.
#[derive(Debug)]
pub struct Request<T> {
    pub method: Method,
    pub url: String,
    pub payload: Json,
    pub benign: Vec<usize>,
    pub answer: PhantomData<T>,
}

/// The client: it holds the token of the account.
#[derive(Debug)]
pub struct Uptobox {
    key: String,
}

/// The address that every path of the API is relative to.
pub open spec fn base_url() -> Seq<char> {
    "https://uptobox.com/api/"@
}

/// Whether an HTTP status says that the request was carried out: the
/// statuses from 200 to 299 do.
pub open spec fn is_success_status(status: u16) -> bool {
    200 <= status <= 299
}

/// The status codes besides 0 with which the service answers what is no
/// failure: 16 and 39, which ask for a wait before a download.
pub open spec fn waiting_codes() -> Seq<usize> {
    seq![16usize, 39usize]
}

/// The status codes that ask for a wait before a download.
pub fn waiting() -> (r: Vec<usize>)
    ensures
        r@ == waiting_codes(),
{
    let mut codes: Vec<usize> = Vec::new();
    codes.push(16);
    codes.push(39);
    assert(codes@ =~= waiting_codes());
    codes
}

/// The payload that holds nothing but the token.
pub open spec fn token_map(token: Seq<char>) -> Map<Seq<char>, Content> {
    Map::empty().insert("token"@, Content::Text(token))
}

/// Whether `payload` is an object that holds the token and the `entries`;
/// where an entry has the key `token`, the entry counts.
pub open spec fn carries(payload: Json, token: Seq<char>, entries: Seq<Entry>) -> bool {
    payload is Object && map_of(payload) == token_map(token).union_prefer_right(as_map(entries))
}

/// A payload that carries the token and some entries has a member for the
/// token and one for each entry, and no other; each entry is sent as it is,
/// and the token is sent under `token` unless an entry has that key.
pub proof fn token_is_sent(payload: Json, token: Seq<char>, entries: Seq<Entry>)
    requires
        carries(payload, token, entries),
    ensures
        forall|key: Seq<char>|
            map_of(payload).dom().contains(key) <==> key == "token"@ || has_key(entries, key),
        forall|key: Seq<char>|
            has_key(entries, key) ==> map_of(payload)[key] == as_map(entries)[key],
        !has_key(entries, "token"@) ==> map_of(payload)["token"@] == Content::Text(token),
{
    assert forall|key: Seq<char>|
        map_of(payload).dom().contains(key) <==> key == "token"@ || has_key(
            entries,
            key,
        ) by {
        keys_of_map(entries, key);
    }
    assert forall|key: Seq<char>| has_key(entries, key) implies map_of(payload)[key] == as_map(
        entries,
    )[key] by {
        keys_of_map(entries, key);
    }
    keys_of_map(entries, "token"@);
}

/// Whether `r` is the request with the given method, path and entries, and
/// without the token; the waiting codes are benign for it.
pub open spec fn asks_openly<T>(
    r: Request<T>,
    method: Method,
    path: Seq<char>,
    entries: Seq<Entry>,
) -> bool {
    &&& r.method == method
    &&& r.url@ == base_url() + path
    &&& is_payload(r.payload, entries)
    &&& r.benign@ == waiting_codes()
}

/// The entries of an object; none for what is no object.
pub open spec fn entries_of(document: Json) -> Seq<Entry> {
    match document {
        Json::Object(fields) => described(fields@),
        _ => Seq::empty(),
    }
}

/// The address of a path of the API.
pub fn url(path: &str) -> (r: String)
    ensures
        r@ == base_url() + path@,
{
    let mut address = "https://uptobox.com/api/".to_owned();
    address.append(path);
    address
}

/// The texts of some string slices.
pub open spec fn texts(parts: Seq<&str>) -> Seq<Seq<char>> {
    Seq::new(parts.len(), |i: int| parts[i]@)
}

/// The texts joined, with the separator between each two of them.
pub open spec fn joined(parts: Seq<Seq<char>>, separator: Seq<char>) -> Seq<char>
    decreases parts.len(),
{
    if parts.len() == 0 {
        Seq::empty()
    } else if parts.len() == 1 {
        parts[0]
    } else {
        joined(parts.drop_last(), separator) + separator + parts.last()
    }
}

/// Joins the parts, with the separator between each two of them.
pub fn join(parts: &Vec<&str>, separator: &str) -> (r: String)
    ensures
        r@ == joined(texts(parts@), separator@),
{
    let mut out = String::new();
    let mut i: usize = 0;
    assert(texts(parts@).take(0) =~= Seq::empty());
    while i < parts.len()
        invariant
            i <= parts.len(),
            out@ == joined(texts(parts@).take(i as int), separator@),
        decreases parts.len() - i,
    {
        let ghost before = texts(parts@).take(i as int);
        let ghost after = texts(parts@).take(i as int + 1);
        assert(after.drop_last() =~= before);
        assert(after.last() == parts@[i as int]@);
        if i > 0 {
            out.append(separator);
        } else {
            assert(out@ + parts@[i as int]@ =~= parts@[i as int]@);
        }
        out.append(parts[i]);
        i += 1;
    }
    assert(texts(parts@).take(parts.len() as int) =~= texts(parts@));
    out
}

/// A switch as the service wants it: 1 for on, 0 for off.
pub open spec fn switch_of(on: bool) -> u64 {
    if on {
        1
    } else {
        0
    }
}

/// A switch as the service wants it: 1 for on, 0 for off.
pub fn switch(on: bool) -> (r: usize)
    ensures
        r == switch_of(on),
{
    if on {
        1
    } else {
        0
    }
}

impl Uptobox {
    /// The token of the account.
    pub closed spec fn token(&self) -> Seq<char> {
        self.key@
    }

    /// Whether `r` is the request with the given method, path and entries,
    /// and with the token of this client; the waiting codes are benign for
    /// it.
    pub open spec fn asks<T>(
        &self,
        r: Request<T>,
        method: Method,
        path: Seq<char>,
        entries: Seq<Entry>,
    ) -> bool {
        &&& r.method == method
        &&& r.url@ == base_url() + path
        &&& carries(r.payload, self.token(), entries)
        &&& r.benign@ == waiting_codes()
    }

    /// A client for the account with the token `key`.
    pub fn new(key: &str) -> (r: Self)
        ensures
            r.token() == key@,
    {
        Uptobox { key: key.to_owned() }
    }

    /// Asks for what is known of the account.
    pub fn get_account(&self) -> (r: Request<GetAccountResponse>)
        ensures
            self.asks(r, Method::Get, "user/me"@, Seq::empty()),
    {
        let fields: Vec<(String, Json)> = Vec::new();
        assert(described(fields@) =~= Seq::empty());
        self.get("user/me", Json::Object(fields))
    }

    /// Switches direct download on or off.
    pub fn update_account_dd(&self, ssl: bool) -> (r: Request<GenericEmptyData>)
        ensures
            self.asks(
                r,
                Method::Patch,
                "user/settings"@,
                seq![
                    ("directDownload"@, Content::Unsigned(switch_of(ssl))),
                ],
            ),
    {
        let mut fields: Vec<(String, Json)> = Vec::new();
        assert(described(fields@) =~= Seq::empty());
        push_unsigned(&mut fields, "directDownload", switch(ssl));
        assert(described(fields@) =~= seq![
            ("directDownload"@, Content::Unsigned(switch_of(ssl))),
        ]);
        self.patch("user/settings", Json::Object(fields))
    }

    /// Switches the security lock on or off.
    pub fn update_account_security_lock(&self, ssl: bool) -> (r: Request<GenericEmptyData>)
        ensures
            self.asks(
                r,
                Method::Patch,
                "user/securityLock"@,
                seq![
                    ("securityLock"@, Content::Unsigned(switch_of(ssl))),
                ],
            ),
    {
        let mut fields: Vec<(String, Json)> = Vec::new();
        assert(described(fields@) =~= Seq::empty());
        push_unsigned(&mut fields, "securityLock", switch(ssl));
        assert(described(fields@) =~= seq![
            ("securityLock"@, Content::Unsigned(switch_of(ssl))),
        ]);
        self.patch("user/securityLock", Json::Object(fields))
    }

    /// Asks for the payments of the account.
    pub fn get_account_payments(&self) -> (r: Request<Listing<GetAccountPaymentsResponse>>)
        ensures
            self.asks(r, Method::Get, "user/payments/get"@, Seq::empty()),
    {
        let fields: Vec<(String, Json)> = Vec::new();
        assert(described(fields@) =~= Seq::empty());
        self.get("user/payments/get", Json::Object(fields))
    }

    /// Asks for the download address of a file, or for the wait before it is
    /// given.
    pub fn get_download_url(
        &self,
        get_waiting_token: GetDownloadUrl,
    ) -> (r: Request<GetDownloadUrlResponse>)
        ensures
            self.asks(r, Method::Get, "link"@, get_waiting_token@.entries()),
    {
        let payload = get_waiting_token.to_value();
        proof {
            get_waiting_token@.entries_are_scalar();
        }
        self.get("link", payload)
    }

    /// Asks for the download address of a file with the token of an earlier
    /// wait.
    pub fn get_download_url_waiting_token(
        &self,
        file_code: &str,
        waiting_token: &str,
    ) -> (r: Request<GetDownloadUrlResponse>)
        ensures
            self.asks(
                r,
                Method::Get,
                "link"@,
                seq![
                    ("file_code"@, Content::Text(file_code@)),
                    ("waitingToken"@, Content::Text(waiting_token@)),
                ],
            ),
    {
        let mut fields: Vec<(String, Json)> = Vec::new();
        assert(described(fields@) =~= Seq::empty());
        push_text(&mut fields, "file_code", file_code);
        push_text(&mut fields, "waitingToken", waiting_token);
        assert(described(fields@) =~= seq![
            ("file_code"@, Content::Text(file_code@)),
            ("waitingToken"@, Content::Text(waiting_token@)),
        ]);
        self.get("link", Json::Object(fields))
    }

    /// Asks, without an account, for the download address of a file.
    pub fn public_get_download_url(
        &self,
        get_waiting_token: GetDownloadUrl,
    ) -> (r: Request<GetDownloadUrlResponse>)
        ensures
            asks_openly(r, Method::Get, "link"@, get_waiting_token@.entries()),
    {
        let payload = get_waiting_token.to_value();
        self.public_get("link", payload)
    }

    /// Asks, without an account, for the download address of a file with the
    /// token of an earlier wait.
    pub fn public_get_download_url_waiting_token(
        &self,
        file_code: &str,
        waiting_token: &str,
    ) -> (r: Request<GetDownloadUrlResponse>)
        ensures
            asks_openly(
                r,
                Method::Get,
                "link"@,
                seq![
                    ("file_code"@, Content::Text(file_code@)),
                    ("waitingToken"@, Content::Text(waiting_token@)),
                ],
            ),
    {
        let mut fields: Vec<(String, Json)> = Vec::new();
        assert(described(fields@) =~= Seq::empty());
        push_text(&mut fields, "file_code", file_code);
        push_text(&mut fields, "waitingToken", waiting_token);
        assert(described(fields@) =~= seq![
            ("file_code"@, Content::Text(file_code@)),
            ("waitingToken"@, Content::Text(waiting_token@)),
        ]);
        self.public_get("link", Json::Object(fields))
    }

    /// Asks for what is known of some files. A file code may be followed by
    /// `:` and the password of the file.
    pub fn get_files_informations(
        &self,
        file_codes: Vec<&str>,
    ) -> (r: Request<Listing<GetFilesInformationsResponse>>)
        ensures
            asks_openly(
                r,
                Method::Get,
                "link/info"@,
                seq![
                    ("fileCodes"@, Content::Text(joined(texts(file_codes@), ","@))),
                ],
            ),
    {
        let codes = join(&file_codes, ",");
        let mut fields: Vec<(String, Json)> = Vec::new();
        assert(described(fields@) =~= Seq::empty());
        push_text(&mut fields, "fileCodes", codes.as_str());
        assert(described(fields@) =~= seq![
            ("fileCodes"@, Content::Text(joined(texts(file_codes@), ","@))),
        ]);
        self.public_get("link/info", Json::Object(fields))
    }

    /// Asks for the files of a public folder.
    pub fn get_files_from_public_folder(
        &self,
        get_files_from_public_folder: &GetFilesFromPublicFolder,
    ) -> (r: Request<Listing<GetFilesFromPublicFolderResponse>>)
        ensures
            asks_openly(r, Method::Get, "user/public"@, get_files_from_public_folder@.entries()),
    {
        let payload = get_files_from_public_folder.to_value();
        self.public_get("user/public", payload)
    }

    /// Asks for the files and folders of a folder.
    pub fn get_files(&self, get_files: &GetFiles) -> (r: Request<GetFilesResponse>)
        ensures
            self.asks(r, Method::Get, "user/files"@, get_files@.entries()),
    {
        let payload = get_files.to_value();
        proof {
            get_files@.entries_are_scalar();
        }
        self.get("user/files", payload)
    }

    /// Changes the name, the description, the password or the public status
    /// of a file.
    pub fn update_file(&self, update_file: &UpdateFile) -> (r: Request<GenericUpdatedResponse>)
        ensures
            self.asks(r, Method::Patch, "user/files"@, update_file@.entries()),
    {
        let payload = update_file.to_value();
        proof {
            update_file@.entries_are_scalar();
        }
        self.patch("user/files", payload)
    }

    /// Sets the public status of some files.
    pub fn update_public(
        &self,
        file_codes: Vec<&str>,
        public: bool,
    ) -> (r: Request<GenericUpdatedResponse>)
        ensures
            self.asks(
                r,
                Method::Patch,
                "user/files"@,
                seq![
                    ("file_codes"@, Content::Text(joined(texts(file_codes@), ","@))),
                    ("public"@, Content::Flag(public)),
                ],
            ),
    {
        let codes = join(&file_codes, ",");
        let mut fields: Vec<(String, Json)> = Vec::new();
        assert(described(fields@) =~= Seq::empty());
        push_text(&mut fields, "file_codes", codes.as_str());
        push_flag(&mut fields, "public", public);
        assert(described(fields@) =~= seq![
            ("file_codes"@, Content::Text(joined(texts(file_codes@), ","@))),
            ("public"@, Content::Flag(public)),
        ]);
        self.patch("user/files", Json::Object(fields))
    }

    /// Moves a folder into another.
    pub fn move_folder(&self, fld_id: usize, destination_fld_id: usize) -> (r: Request<String>)
        ensures
            self.asks(
                r,
                Method::Patch,
                "user/files"@,
                seq![
                    ("fld_id"@, Content::Unsigned(fld_id as u64)),
                    ("destination_fld_id"@, Content::Unsigned(destination_fld_id as u64)),
                    ("action"@, Content::Text("move"@)),
                ],
            ),
    {
        let mut fields: Vec<(String, Json)> = Vec::new();
        assert(described(fields@) =~= Seq::empty());
        push_unsigned(&mut fields, "fld_id", fld_id);
        push_unsigned(&mut fields, "destination_fld_id", destination_fld_id);
        push_text(&mut fields, "action", "move");
        assert(described(fields@) =~= seq![
            ("fld_id"@, Content::Unsigned(fld_id as u64)),
            ("destination_fld_id"@, Content::Unsigned(destination_fld_id as u64)),
            ("action"@, Content::Text("move"@)),
        ]);
        self.patch("user/files", Json::Object(fields))
    }

    /// Moves some files into a folder.
    pub fn move_files(
        &self,
        file_codes: Vec<&str>,
        destination_fld_id: usize,
    ) -> (r: Request<GenericUpdatedResponse>)
        ensures
            self.asks(
                r,
                Method::Patch,
                "user/files"@,
                seq![
                    ("file_codes"@, Content::Text(joined(texts(file_codes@), ","@))),
                    ("destination_fld_id"@, Content::Unsigned(destination_fld_id as u64)),
                    ("action"@, Content::Text("move"@)),
                ],
            ),
    {
        let codes = join(&file_codes, ",");
        let mut fields: Vec<(String, Json)> = Vec::new();
        assert(described(fields@) =~= Seq::empty());
        push_text(&mut fields, "file_codes", codes.as_str());
        push_unsigned(&mut fields, "destination_fld_id", destination_fld_id);
        push_text(&mut fields, "action", "move");
        assert(described(fields@) =~= seq![
            ("file_codes"@, Content::Text(joined(texts(file_codes@), ","@))),
            ("destination_fld_id"@, Content::Unsigned(destination_fld_id as u64)),
            ("action"@, Content::Text("move"@)),
        ]);
        self.patch("user/files", Json::Object(fields))
    }

    /// Copies some files into a folder.
    pub fn copy_files(
        &self,
        file_codes: Vec<&str>,
        destination_fld_id: usize,
    ) -> (r: Request<GenericUpdatedResponse>)
        ensures
            self.asks(
                r,
                Method::Patch,
                "user/files"@,
                seq![
                    ("file_codes"@, Content::Text(joined(texts(file_codes@), ","@))),
                    ("destination_fld_id"@, Content::Unsigned(destination_fld_id as u64)),
                    ("action"@, Content::Text("copy"@)),
                ],
            ),
    {
        let codes = join(&file_codes, ",");
        let mut fields: Vec<(String, Json)> = Vec::new();
        assert(described(fields@) =~= Seq::empty());
        push_text(&mut fields, "file_codes", codes.as_str());
        push_unsigned(&mut fields, "destination_fld_id", destination_fld_id);
        push_text(&mut fields, "action", "copy");
        assert(described(fields@) =~= seq![
            ("file_codes"@, Content::Text(joined(texts(file_codes@), ","@))),
            ("destination_fld_id"@, Content::Unsigned(destination_fld_id as u64)),
            ("action"@, Content::Text("copy"@)),
        ]);
        self.patch("user/files", Json::Object(fields))
    }

    /// Gives a folder a new name.
    pub fn rename_folder(&self, fld_id: usize, new_name: &str) -> (r: Request<String>)
        ensures
            self.asks(
                r,
                Method::Patch,
                "user/files"@,
                seq![
                    ("fld_id"@, Content::Unsigned(fld_id as u64)),
                    ("new_name"@, Content::Text(new_name@)),
                ],
            ),
    {
        let mut fields: Vec<(String, Json)> = Vec::new();
        assert(described(fields@) =~= Seq::empty());
        push_unsigned(&mut fields, "fld_id", fld_id);
        push_text(&mut fields, "new_name", new_name);
        assert(described(fields@) =~= seq![
            ("fld_id"@, Content::Unsigned(fld_id as u64)),
            ("new_name"@, Content::Text(new_name@)),
        ]);
        self.patch("user/files", Json::Object(fields))
    }

    /// Creates the folder `name` in the folder at `path`.
    pub fn create_folder(&self, path: &str, name: &str) -> (r: Request<String>)
        ensures
            self.asks(
                r,
                Method::Put,
                "user/files"@,
                seq![
                    ("path"@, Content::Text(path@)),
                    ("name"@, Content::Text(name@)),
                ],
            ),
    {
        let mut fields: Vec<(String, Json)> = Vec::new();
        assert(described(fields@) =~= Seq::empty());
        push_text(&mut fields, "path", path);
        push_text(&mut fields, "name", name);
        assert(described(fields@) =~= seq![
            ("path"@, Content::Text(path@)),
            ("name"@, Content::Text(name@)),
        ]);
        self.put("user/files", Json::Object(fields))
    }

    /// Deletes some files.
    pub fn delete_files(&self, file_codes: Vec<&str>) -> (r: Request<GenericUpdatedResponse>)
        ensures
            self.asks(
                r,
                Method::Delete,
                "user/files"@,
                seq![
                    ("file_codes"@, Content::Text(joined(texts(file_codes@), ","@))),
                ],
            ),
    {
        let codes = join(&file_codes, ",");
        let mut fields: Vec<(String, Json)> = Vec::new();
        assert(described(fields@) =~= Seq::empty());
        push_text(&mut fields, "file_codes", codes.as_str());
        assert(described(fields@) =~= seq![
            ("file_codes"@, Content::Text(joined(texts(file_codes@), ","@))),
        ]);
        self.delete("user/files", Json::Object(fields))
    }

    /// Deletes a folder.
    pub fn delete_folder(&self, fld_id: usize) -> (r: Request<String>)
        ensures
            self.asks(
                r,
                Method::Delete,
                "user/files"@,
                seq![
                    ("fld_id"@, Content::Unsigned(fld_id as u64)),
                ],
            ),
    {
        let mut fields: Vec<(String, Json)> = Vec::new();
        assert(described(fields@) =~= Seq::empty());
        push_unsigned(&mut fields, "fld_id", fld_id);
        assert(described(fields@) =~= seq![
            ("fld_id"@, Content::Unsigned(fld_id as u64)),
        ]);
        self.delete("user/files", Json::Object(fields))
    }

    /// Asks for an address to upload to.
    pub fn get_upload_url(&self) -> (r: Request<GetUploadUrlResponse>)
        ensures
            self.asks(r, Method::Get, "upload"@, Seq::empty()),
    {
        let fields: Vec<(String, Json)> = Vec::new();
        assert(described(fields@) =~= Seq::empty());
        self.get("upload", Json::Object(fields))
    }

    /// Makes a DELETE request.
    fn delete<T>(&self, path: &str, body: Json) -> (r: Request<T>)
        ensures
            r.method == Method::Delete,
            r.url@ == base_url() + path@,
            r.benign@ == waiting_codes(),
            body is Object ==> r.payload is Object,
            is_flat(body) ==> carries(r.payload, self.token(), entries_of(body)),
    {
        self.req(Method::Delete, path, body)
    }

    /// Makes a PUT request.
    fn put<T>(&self, path: &str, body: Json) -> (r: Request<T>)
        ensures
            r.method == Method::Put,
            r.url@ == base_url() + path@,
            r.benign@ == waiting_codes(),
            body is Object ==> r.payload is Object,
            is_flat(body) ==> carries(r.payload, self.token(), entries_of(body)),
    {
        self.req(Method::Put, path, body)
    }

    /// Makes a PATCH request.
    fn patch<T>(&self, path: &str, body: Json) -> (r: Request<T>)
        ensures
            r.method == Method::Patch,
            r.url@ == base_url() + path@,
            r.benign@ == waiting_codes(),
            body is Object ==> r.payload is Object,
            is_flat(body) ==> carries(r.payload, self.token(), entries_of(body)),
    {
        self.req(Method::Patch, path, body)
    }

    /// Makes a request that carries the token.
    fn req<T>(&self, method: Method, path: &str, body: Json) -> (r: Request<T>)
        ensures
            r.method == method,
            r.url@ == base_url() + path@,
            r.benign@ == waiting_codes(),
            body is Object ==> r.payload is Object,
            is_flat(body) ==> carries(r.payload, self.token(), entries_of(body)),
    {
        let payload = self.add_token_auth(&body);
        Request { method, url: url(path), payload, benign: waiting(), answer: PhantomData }
    }

    /// Makes a GET request that does not carry the token.
    fn public_get<T>(&self, path: &str, params: Json) -> (r: Request<T>)
        ensures
            r.method == Method::Get,
            r.url@ == base_url() + path@,
            r.payload == params,
            r.benign@ == waiting_codes(),
    {
        Request {
            method: Method::Get,
            url: url(path),
            payload: params,
            benign: waiting(),
            answer: PhantomData,
        }
    }

    /// Makes a GET request that carries the token.
    fn get<T>(&self, path: &str, params: Json) -> (r: Request<T>)
        ensures
            r.method == Method::Get,
            r.url@ == base_url() + path@,
            r.benign@ == waiting_codes(),
            params is Object ==> r.payload is Object,
            is_flat(params) ==> carries(r.payload, self.token(), entries_of(params)),
    {
        let params = self.add_token_auth(&params);
        self.public_get(path, params)
    }

    /// Adds the token to a payload: the payload is merged into an object that
    /// holds the token alone.
    fn add_token_auth(&self, input: &Json) -> (r: Json)
        ensures
            *input is Object ==> r is Object,
            is_flat(*input) ==> carries(r, self.token(), entries_of(*input)),
    {
        let mut secret: Vec<(String, Json)> = Vec::new();
        assert(described(secret@) =~= Seq::empty());
        push_text(&mut secret, "token", self.key.as_str());
        proof {
            map_of_pushed(Seq::empty(), ("token"@, Content::Text(self.key@)));
        }
        merge(&Json::Object(secret), input)
    }

    /// Decides by the HTTP status what a response is: its body where the
    /// status says success, and otherwise the failure that carries the status.
    pub fn parse_body(&self, status: u16, body: String) -> (r: UptoboxResult<String>)
        ensures
            is_success_status(status) ==> r == Ok::<String, Error>(body),
            !is_success_status(status) ==> r == Err::<String, Error>(
                Error::HttpResponseCode(status),
            ),
    {
        if 200 <= status && status <= 299 {
            Ok(body)
        } else {
            Err(Error::HttpResponseCode(status))
        }
    }
}

impl<T: Payload> Request<T> {
    /// Reads the body of the answer to this request: the payload where the
    /// body classifies as a success, and the failure that it classifies as
    /// otherwise.
    pub fn read(&self, body: &str) -> (r: UptoboxResult<T>)
        ensures
            classified(parsed(body@), self.benign@, r),
    {
        deserialize::<T>(body, self.benign.as_slice())
    }
}

impl Request<GenericUpdatedResponse> {
    /// Reads the body of the answer to a call that reports how many files it
    /// reached: the count where the body classifies as a success, and the
    /// failure that it classifies as otherwise.
    pub fn read_updated(&self, body: &str) -> (r: UptoboxResult<usize>)
        ensures
            match r {
                Ok(updated) => classified(
                    parsed(body@),
                    self.benign@,
                    Ok::<GenericUpdatedResponse, Error>(GenericUpdatedResponse { updated }),
                ),
                Err(e) => classified(
                    parsed(body@),
                    self.benign@,
                    Err::<GenericUpdatedResponse, Error>(e),
                ),
            },
    {
        match self.read(body) {
            Ok(data) => Ok(data.updated),
            Err(e) => Err(e),
        }
    }
}

impl<T: Payload> Request<Listing<T>> {
    /// Reads the body of the answer to a call that lists items: the list
    /// where the body classifies as a success, and the failure that it
    /// classifies as otherwise.
    pub fn read_list(&self, body: &str) -> (r: UptoboxResult<Vec<T>>)
        ensures
            match r {
                Ok(list) => classified(
                    parsed(body@),
                    self.benign@,
                    Ok::<Listing<T>, Error>(Listing { list }),
                ),
                Err(e) => classified(parsed(body@), self.benign@, Err::<Listing<T>, Error>(e)),
            },
    {
        match self.read(body) {
            Ok(data) => Ok(data.list),
            Err(e) => Err(e),
        }
    }
}

impl Request<GenericEmptyData> {
    /// Reads the body of the answer to a call that has nothing to report
    /// but success.
    pub fn read_empty(&self, body: &str) -> (r: UptoboxResult)
        ensures
            match r {
                Ok(_) => classified(
                    parsed(body@),
                    self.benign@,
                    Ok::<GenericEmptyData, Error>(GenericEmptyData {  }),
                ),
                Err(e) => classified(
                    parsed(body@),
                    self.benign@,
                    Err::<GenericEmptyData, Error>(e),
                ),
            },
    {
        match self.read(body) {
            Ok(_) => Ok(()),
            Err(e) => Err(e),
        }
    }
}

} // verus!
