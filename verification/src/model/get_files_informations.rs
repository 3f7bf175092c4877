//! The answer to the request for what is known of some files.

use vstd::prelude::*;
use crate::json::{
    as_flag,
    as_text,
    as_unsigned,
    get,
    member,
    read_flag,
    read_text,
    read_unsigned,
    Json,
};
use crate::model::generic::{optional_accepts, optional_holds, read_optional};
use crate::util::Payload;

verus! {

/// Why nothing is known of a file.
#[derive(Debug, PartialEq, Eq)]
pub struct GetFilesInformationsError {
    pub code: usize,
    pub message: String,
}

impl Payload for GetFilesInformationsError {
    open spec fn accepts(data: Json) -> bool {
        data matches Json::Object(fields) && {
            &&& as_unsigned(member(fields@, "code"@)) is Some
            &&& as_text(member(fields@, "message"@)) is Some
        }
    }

    open spec fn holds(data: Json, out: Self) -> bool {
        data matches Json::Object(fields) && {
            &&& as_unsigned(member(fields@, "code"@)) == Some(out.code)
            &&& as_text(member(fields@, "message"@)) == Some(out.message)
        }
    }

    fn decode(data: &Json) -> (r: Option<Self>) {
        let fields = match data {
            Json::Object(fields) => fields,
            _ => {
                return None;
            },
        };
        let code = match read_unsigned(get(fields, "code")) {
            Some(value) => value,
            None => {
                return None;
            },
        };
        let message = match read_text(get(fields, "message")) {
            Some(value) => value,
            None => {
                return None;
            },
        };
        Some(GetFilesInformationsError { code, message })
    }
}

/// What is known of one file.
#[derive(Debug, PartialEq, Eq)]
pub struct GetFilesInformationsResponse {
    pub file_code: String,
    pub file_name: String,
    pub file_size: usize,
    pub available_uts: bool,
    pub need_premium: bool,
    pub error: Option<GetFilesInformationsError>,
}

impl Payload for GetFilesInformationsResponse {
    open spec fn accepts(data: Json) -> bool {
        data matches Json::Object(fields) && {
            &&& as_text(member(fields@, "file_code"@)) is Some
            &&& as_text(member(fields@, "file_name"@)) is Some
            &&& as_unsigned(member(fields@, "file_size"@)) is Some
            &&& as_flag(member(fields@, "available_uts"@)) is Some
            &&& as_flag(member(fields@, "need_premium"@)) is Some
            &&& optional_accepts::<GetFilesInformationsError>(member(fields@, "error"@))
        }
    }

    open spec fn holds(data: Json, out: Self) -> bool {
        data matches Json::Object(fields) && {
            &&& as_text(member(fields@, "file_code"@)) == Some(out.file_code)
            &&& as_text(member(fields@, "file_name"@)) == Some(out.file_name)
            &&& as_unsigned(member(fields@, "file_size"@)) == Some(out.file_size)
            &&& as_flag(member(fields@, "available_uts"@)) == Some(out.available_uts)
            &&& as_flag(member(fields@, "need_premium"@)) == Some(out.need_premium)
            &&& optional_holds::<GetFilesInformationsError>(member(fields@, "error"@), out.error)
        }
    }

    fn decode(data: &Json) -> (r: Option<Self>) {
        let fields = match data {
            Json::Object(fields) => fields,
            _ => {
                return None;
            },
        };
        let file_code = match read_text(get(fields, "file_code")) {
            Some(value) => value,
            None => {
                return None;
            },
        };
        let file_name = match read_text(get(fields, "file_name")) {
            Some(value) => value,
            None => {
                return None;
            },
        };
        let file_size = match read_unsigned(get(fields, "file_size")) {
            Some(value) => value,
            None => {
                return None;
            },
        };
        let available_uts = match read_flag(get(fields, "available_uts")) {
            Some(value) => value,
            None => {
                return None;
            },
        };
        let need_premium = match read_flag(get(fields, "need_premium")) {
            Some(value) => value,
            None => {
                return None;
            },
        };
        let error = match read_optional::<GetFilesInformationsError>(get(fields, "error")) {
            Some(value) => value,
            None => {
                return None;
            },
        };
        Some(
            GetFilesInformationsResponse {
                file_code,
                file_name,
                file_size,
                available_uts,
                need_premium,
                error,
            },
        )
    }
}

} // verus!
