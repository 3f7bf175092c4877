//! The answer to the request for an upload address.

use vstd::prelude::*;
use crate::json::{as_text, get, member, read_text, Json};
use crate::util::Payload;

verus! {

/// Where a file can be uploaded, and how large it may be.
#[derive(Debug, PartialEq, Eq)]
pub struct GetUploadUrlResponse {
    pub upload_link: String,
    pub max_upload: String,
}

impl Payload for GetUploadUrlResponse {
    open spec fn accepts(data: Json) -> bool {
        data matches Json::Object(fields) && {
            &&& as_text(member(fields@, "uploadLink"@)) is Some
            &&& as_text(member(fields@, "maxUpload"@)) is Some
        }
    }

    open spec fn holds(data: Json, out: Self) -> bool {
        data matches Json::Object(fields) && {
            &&& as_text(member(fields@, "uploadLink"@)) == Some(out.upload_link)
            &&& as_text(member(fields@, "maxUpload"@)) == Some(out.max_upload)
        }
    }

    fn decode(data: &Json) -> (r: Option<Self>) {
        let fields = match data {
            Json::Object(fields) => fields,
            _ => {
                return None;
            },
        };
        let upload_link = match read_text(get(fields, "uploadLink")) {
            Some(value) => value,
            None => {
                return None;
            },
        };
        let max_upload = match read_text(get(fields, "maxUpload")) {
            Some(value) => value,
            None => {
                return None;
            },
        };
        Some(GetUploadUrlResponse { upload_link, max_upload })
    }
}

} // verus!
