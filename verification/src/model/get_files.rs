//! The answer to the request for the files and folders of a folder.

use vstd::prelude::*;
use crate::json::{
    as_optional_unsigned,
    as_text,
    as_text_or,
    as_unsigned,
    get,
    member,
    read_optional_unsigned,
    read_text,
    read_text_or,
    read_unsigned,
    Json,
};
use crate::model::generic::{
    list_accepts,
    list_holds,
    nested_accepts,
    nested_holds,
    read_list,
    read_nested,
};
use crate::util::Payload;

verus! {

/// The folder that was asked for.
#[derive(Debug, PartialEq, Eq)]
pub struct GetFilesCurrentFolder {
    pub file_count: usize,
    pub fld_id: usize,
    /// The path of the folder; `//` where the service names none.
    pub fld_name: String,
    pub fld_parent_id: Option<usize>,
    pub hash: String,
    /// The name of the folder; `//` where the service names none.
    pub name: String,
    pub total_file_size: usize,
}

impl Payload for GetFilesCurrentFolder {
    open spec fn accepts(data: Json) -> bool {
        data matches Json::Object(fields) && {
            &&& as_unsigned(member(fields@, "fileCount"@)) is Some
            &&& as_unsigned(member(fields@, "fld_id"@)) is Some
            &&& as_text_or(member(fields@, "fld_name"@), "//"@) is Some
            &&& as_optional_unsigned(member(fields@, "fld_parent_id"@)) is Some
            &&& as_text(member(fields@, "hash"@)) is Some
            &&& as_text_or(member(fields@, "name"@), "//"@) is Some
            &&& as_unsigned(member(fields@, "totalFileSize"@)) is Some
        }
    }

    open spec fn holds(data: Json, out: Self) -> bool {
        data matches Json::Object(fields) && {
            &&& as_unsigned(member(fields@, "fileCount"@)) == Some(out.file_count)
            &&& as_unsigned(member(fields@, "fld_id"@)) == Some(out.fld_id)
            &&& as_text_or(member(fields@, "fld_name"@), "//"@) == Some(out.fld_name@)
            &&& as_optional_unsigned(member(fields@, "fld_parent_id"@)) == Some(out.fld_parent_id)
            &&& as_text(member(fields@, "hash"@)) == Some(out.hash)
            &&& as_text_or(member(fields@, "name"@), "//"@) == Some(out.name@)
            &&& as_unsigned(member(fields@, "totalFileSize"@)) == Some(out.total_file_size)
        }
    }

    fn decode(data: &Json) -> (r: Option<Self>) {
        let fields = match data {
            Json::Object(fields) => fields,
            _ => {
                return None;
            },
        };
        let file_count = match read_unsigned(get(fields, "fileCount")) {
            Some(value) => value,
            None => {
                return None;
            },
        };
        let fld_id = match read_unsigned(get(fields, "fld_id")) {
            Some(value) => value,
            None => {
                return None;
            },
        };
        let fld_name = match read_text_or(get(fields, "fld_name"), default_string().as_str()) {
            Some(value) => value,
            None => {
                return None;
            },
        };
        let fld_parent_id = match read_optional_unsigned(get(fields, "fld_parent_id")) {
            Some(value) => value,
            None => {
                return None;
            },
        };
        let hash = match read_text(get(fields, "hash")) {
            Some(value) => value,
            None => {
                return None;
            },
        };
        let name = match read_text_or(get(fields, "name"), default_string().as_str()) {
            Some(value) => value,
            None => {
                return None;
            },
        };
        let total_file_size = match read_unsigned(get(fields, "totalFileSize")) {
            Some(value) => value,
            None => {
                return None;
            },
        };
        Some(
            GetFilesCurrentFolder {
                file_count,
                fld_id,
                fld_name,
                fld_parent_id,
                hash,
                name,
                total_file_size,
            },
        )
    }
}

/// A folder inside the folder that was asked for.
#[derive(Debug, PartialEq, Eq)]
pub struct GetFilesFolders {
    pub fld_id: usize,
    pub fld_name: String,
    pub hash: String,
    pub name: String,
}

impl Payload for GetFilesFolders {
    open spec fn accepts(data: Json) -> bool {
        data matches Json::Object(fields) && {
            &&& as_unsigned(member(fields@, "fld_id"@)) is Some
            &&& as_text(member(fields@, "fld_name"@)) is Some
            &&& as_text(member(fields@, "hash"@)) is Some
            &&& as_text(member(fields@, "name"@)) is Some
        }
    }

    open spec fn holds(data: Json, out: Self) -> bool {
        data matches Json::Object(fields) && {
            &&& as_unsigned(member(fields@, "fld_id"@)) == Some(out.fld_id)
            &&& as_text(member(fields@, "fld_name"@)) == Some(out.fld_name)
            &&& as_text(member(fields@, "hash"@)) == Some(out.hash)
            &&& as_text(member(fields@, "name"@)) == Some(out.name)
        }
    }

    fn decode(data: &Json) -> (r: Option<Self>) {
        let fields = match data {
            Json::Object(fields) => fields,
            _ => {
                return None;
            },
        };
        let fld_id = match read_unsigned(get(fields, "fld_id")) {
            Some(value) => value,
            None => {
                return None;
            },
        };
        let fld_name = match read_text(get(fields, "fld_name")) {
            Some(value) => value,
            None => {
                return None;
            },
        };
        let hash = match read_text(get(fields, "hash")) {
            Some(value) => value,
            None => {
                return None;
            },
        };
        let name = match read_text(get(fields, "name")) {
            Some(value) => value,
            None => {
                return None;
            },
        };
        Some(GetFilesFolders { fld_id, fld_name, hash, name })
    }
}

/// A file inside the folder that was asked for.
#[derive(Debug, PartialEq, Eq)]
pub struct GetFilesFiles {
    pub file_code: String,
    pub file_created: String,
    pub file_descr: String,
    pub file_downloads: usize,
    pub file_last_download: String,
    pub file_name: String,
    pub file_password: String,
    pub file_public: usize,
    pub file_size: usize,
    pub id: Option<usize>,
    pub last_stream: String,
    pub nb_stream: usize,
    pub transcoded: Option<usize>,
}

impl Payload for GetFilesFiles {
    open spec fn accepts(data: Json) -> bool {
        data matches Json::Object(fields) && {
            &&& as_text(member(fields@, "file_code"@)) is Some
            &&& as_text(member(fields@, "file_created"@)) is Some
            &&& as_text(member(fields@, "file_descr"@)) is Some
            &&& as_unsigned(member(fields@, "file_downloads"@)) is Some
            &&& as_text(member(fields@, "file_last_download"@)) is Some
            &&& as_text(member(fields@, "file_name"@)) is Some
            &&& as_text(member(fields@, "file_password"@)) is Some
            &&& as_unsigned(member(fields@, "file_public"@)) is Some
            &&& as_unsigned(member(fields@, "file_size"@)) is Some
            &&& as_optional_unsigned(member(fields@, "id"@)) is Some
            &&& as_text(member(fields@, "last_stream"@)) is Some
            &&& as_unsigned(member(fields@, "nb_stream"@)) is Some
            &&& as_optional_unsigned(member(fields@, "transcoded"@)) is Some
        }
    }

    open spec fn holds(data: Json, out: Self) -> bool {
        data matches Json::Object(fields) && {
            &&& as_text(member(fields@, "file_code"@)) == Some(out.file_code)
            &&& as_text(member(fields@, "file_created"@)) == Some(out.file_created)
            &&& as_text(member(fields@, "file_descr"@)) == Some(out.file_descr)
            &&& as_unsigned(member(fields@, "file_downloads"@)) == Some(out.file_downloads)
            &&& as_text(member(fields@, "file_last_download"@)) == Some(out.file_last_download)
            &&& as_text(member(fields@, "file_name"@)) == Some(out.file_name)
            &&& as_text(member(fields@, "file_password"@)) == Some(out.file_password)
            &&& as_unsigned(member(fields@, "file_public"@)) == Some(out.file_public)
            &&& as_unsigned(member(fields@, "file_size"@)) == Some(out.file_size)
            &&& as_optional_unsigned(member(fields@, "id"@)) == Some(out.id)
            &&& as_text(member(fields@, "last_stream"@)) == Some(out.last_stream)
            &&& as_unsigned(member(fields@, "nb_stream"@)) == Some(out.nb_stream)
            &&& as_optional_unsigned(member(fields@, "transcoded"@)) == Some(out.transcoded)
        }
    }

    fn decode(data: &Json) -> (r: Option<Self>) {
        let fields = match data {
            Json::Object(fields) => fields,
            _ => {
                return None;
            },
        };
        let file_code = match read_text(get(fields, "file_code")) {
            Some(value) => value,
            None => {
                return None;
            },
        };
        let file_created = match read_text(get(fields, "file_created")) {
            Some(value) => value,
            None => {
                return None;
            },
        };
        let file_descr = match read_text(get(fields, "file_descr")) {
            Some(value) => value,
            None => {
                return None;
            },
        };
        let file_downloads = match read_unsigned(get(fields, "file_downloads")) {
            Some(value) => value,
            None => {
                return None;
            },
        };
        let file_last_download = match read_text(get(fields, "file_last_download")) {
            Some(value) => value,
            None => {
                return None;
            },
        };
        let file_name = match read_text(get(fields, "file_name")) {
            Some(value) => value,
            None => {
                return None;
            },
        };
        let file_password = match read_text(get(fields, "file_password")) {
            Some(value) => value,
            None => {
                return None;
            },
        };
        let file_public = match read_unsigned(get(fields, "file_public")) {
            Some(value) => value,
            None => {
                return None;
            },
        };
        let file_size = match read_unsigned(get(fields, "file_size")) {
            Some(value) => value,
            None => {
                return None;
            },
        };
        let id = match read_optional_unsigned(get(fields, "id")) {
            Some(value) => value,
            None => {
                return None;
            },
        };
        let last_stream = match read_text(get(fields, "last_stream")) {
            Some(value) => value,
            None => {
                return None;
            },
        };
        let nb_stream = match read_unsigned(get(fields, "nb_stream")) {
            Some(value) => value,
            None => {
                return None;
            },
        };
        let transcoded = match read_optional_unsigned(get(fields, "transcoded")) {
            Some(value) => value,
            None => {
                return None;
            },
        };
        Some(
            GetFilesFiles {
                file_code,
                file_created,
                file_descr,
                file_downloads,
                file_last_download,
                file_name,
                file_password,
                file_public,
                file_size,
                id,
                last_stream,
                nb_stream,
                transcoded,
            },
        )
    }
}

/// The files and folders of a folder, one page of them.
#[derive(Debug, PartialEq, Eq)]
pub struct GetFilesResponse {
    pub current_folder: GetFilesCurrentFolder,
    pub folders: Vec<GetFilesFolders>,
    pub files: Vec<GetFilesFiles>,
    pub page_count: usize,
    pub total_file_count: usize,
    pub total_file_size: usize,
}

impl Payload for GetFilesResponse {
    open spec fn accepts(data: Json) -> bool {
        data matches Json::Object(fields) && {
            &&& nested_accepts::<GetFilesCurrentFolder>(member(fields@, "currentFolder"@))
            &&& list_accepts::<GetFilesFolders>(member(fields@, "folders"@))
            &&& list_accepts::<GetFilesFiles>(member(fields@, "files"@))
            &&& as_unsigned(member(fields@, "pageCount"@)) is Some
            &&& as_unsigned(member(fields@, "totalFileCount"@)) is Some
            &&& as_unsigned(member(fields@, "totalFileSize"@)) is Some
        }
    }

    open spec fn holds(data: Json, out: Self) -> bool {
        data matches Json::Object(fields) && {
            &&& nested_holds::<GetFilesCurrentFolder>(
                member(fields@, "currentFolder"@),
                out.current_folder,
            )
            &&& list_holds::<GetFilesFolders>(member(fields@, "folders"@), out.folders@)
            &&& list_holds::<GetFilesFiles>(member(fields@, "files"@), out.files@)
            &&& as_unsigned(member(fields@, "pageCount"@)) == Some(out.page_count)
            &&& as_unsigned(member(fields@, "totalFileCount"@)) == Some(out.total_file_count)
            &&& as_unsigned(member(fields@, "totalFileSize"@)) == Some(out.total_file_size)
        }
    }

    fn decode(data: &Json) -> (r: Option<Self>) {
        let fields = match data {
            Json::Object(fields) => fields,
            _ => {
                return None;
            },
        };
        let current_folder = match read_nested::<GetFilesCurrentFolder>(
            get(fields, "currentFolder"),
        ) {
            Some(value) => value,
            None => {
                return None;
            },
        };
        let folders = match read_list::<GetFilesFolders>(get(fields, "folders")) {
            Some(value) => value,
            None => {
                return None;
            },
        };
        let files = match read_list::<GetFilesFiles>(get(fields, "files")) {
            Some(value) => value,
            None => {
                return None;
            },
        };
        let page_count = match read_unsigned(get(fields, "pageCount")) {
            Some(value) => value,
            None => {
                return None;
            },
        };
        let total_file_count = match read_unsigned(get(fields, "totalFileCount")) {
            Some(value) => value,
            None => {
                return None;
            },
        };
        let total_file_size = match read_unsigned(get(fields, "totalFileSize")) {
            Some(value) => value,
            None => {
                return None;
            },
        };
        Some(
            GetFilesResponse {
                current_folder,
                folders,
                files,
                page_count,
                total_file_count,
                total_file_size,
            },
        )
    }
}

/// The name that stands in for a folder name that the service leaves out.
pub fn default_string() -> (r: String)
    ensures
        r@ == "//"@,
{
    "//".to_owned()
}

} // verus!
