//! The answer to the request for the files of a public folder.

use vstd::prelude::*;
use crate::json::{as_text, get, member, read_text, Json};
use crate::util::Payload;

verus! {

/// One file of a public folder.
#[derive(Debug, PartialEq, Eq)]
pub struct GetFilesFromPublicFolderResponse {
    pub file_name: String,
    pub file_date_inserted: String,
    pub file_code: String,
}

impl Payload for GetFilesFromPublicFolderResponse {
    open spec fn accepts(data: Json) -> bool {
        data matches Json::Object(fields) && {
            &&& as_text(member(fields@, "file_name"@)) is Some
            &&& as_text(member(fields@, "file_date_inserted"@)) is Some
            &&& as_text(member(fields@, "file_code"@)) is Some
        }
    }

    open spec fn holds(data: Json, out: Self) -> bool {
        data matches Json::Object(fields) && {
            &&& as_text(member(fields@, "file_name"@)) == Some(out.file_name)
            &&& as_text(member(fields@, "file_date_inserted"@)) == Some(out.file_date_inserted)
            &&& as_text(member(fields@, "file_code"@)) == Some(out.file_code)
        }
    }

    fn decode(data: &Json) -> (r: Option<Self>) {
        let fields = match data {
            Json::Object(fields) => fields,
            _ => {
                return None;
            },
        };
        let file_name = match read_text(get(fields, "file_name")) {
            Some(value) => value,
            None => {
                return None;
            },
        };
        let file_date_inserted = match read_text(get(fields, "file_date_inserted")) {
            Some(value) => value,
            None => {
                return None;
            },
        };
        let file_code = match read_text(get(fields, "file_code")) {
            Some(value) => value,
            None => {
                return None;
            },
        };
        Some(GetFilesFromPublicFolderResponse { file_name, file_date_inserted, file_code })
    }
}

} // verus!
