//! The answer to the request for a download address.

use vstd::prelude::*;
use crate::json::{
    as_optional_text,
    as_text,
    as_unsigned,
    get,
    member,
    read_optional_text,
    read_text,
    read_unsigned,
    Json,
};
use crate::util::Payload;

verus! {

/// The address from which the file can be fetched.
#[derive(Debug, PartialEq, Eq)]
pub struct GetDownloadUrlLink {
    pub dl_link: String,
}

impl Payload for GetDownloadUrlLink {
    open spec fn accepts(data: Json) -> bool {
        data matches Json::Object(fields) && {
            &&& as_text(member(fields@, "dlLink"@)) is Some
        }
    }

    open spec fn holds(data: Json, out: Self) -> bool {
        data matches Json::Object(fields) && {
            &&& as_text(member(fields@, "dlLink"@)) == Some(out.dl_link)
        }
    }

    fn decode(data: &Json) -> (r: Option<Self>) {
        let fields = match data {
            Json::Object(fields) => fields,
            _ => {
                return None;
            },
        };
        let dl_link = match read_text(get(fields, "dlLink")) {
            Some(value) => value,
            None => {
                return None;
            },
        };
        Some(GetDownloadUrlLink { dl_link })
    }
}

/// How long to wait before the address is given, and the token to ask again with.
#[derive(Debug, PartialEq, Eq)]
pub struct GetDownloadUrlWait {
    /// Seconds to wait.
    pub waiting: usize,
    pub waiting_token: Option<String>,
}

impl Payload for GetDownloadUrlWait {
    open spec fn accepts(data: Json) -> bool {
        data matches Json::Object(fields) && {
            &&& as_unsigned(member(fields@, "waiting"@)) is Some
            &&& as_optional_text(member(fields@, "waitingToken"@)) is Some
        }
    }

    open spec fn holds(data: Json, out: Self) -> bool {
        data matches Json::Object(fields) && {
            &&& as_unsigned(member(fields@, "waiting"@)) == Some(out.waiting)
            &&& as_optional_text(member(fields@, "waitingToken"@)) == Some(out.waiting_token)
        }
    }

    fn decode(data: &Json) -> (r: Option<Self>) {
        let fields = match data {
            Json::Object(fields) => fields,
            _ => {
                return None;
            },
        };
        let waiting = match read_unsigned(get(fields, "waiting")) {
            Some(value) => value,
            None => {
                return None;
            },
        };
        let waiting_token = match read_optional_text(get(fields, "waitingToken")) {
            Some(value) => value,
            None => {
                return None;
            },
        };
        Some(GetDownloadUrlWait { waiting, waiting_token })
    }
}

/// Either the address, or the wait before it is given.
#[derive(Debug, PartialEq, Eq)]
pub enum GetDownloadUrlResponse {
    Link(GetDownloadUrlLink),
    Wait(GetDownloadUrlWait),
}

/// A payload that has the shape of a link is one; any other is read as a
/// wait.
impl Payload for GetDownloadUrlResponse {
    open spec fn accepts(data: Json) -> bool {
        GetDownloadUrlLink::accepts(data) || GetDownloadUrlWait::accepts(data)
    }

    open spec fn holds(data: Json, out: Self) -> bool {
        if GetDownloadUrlLink::accepts(data) {
            out matches GetDownloadUrlResponse::Link(link) && GetDownloadUrlLink::holds(data, link)
        } else {
            out matches GetDownloadUrlResponse::Wait(wait) && GetDownloadUrlWait::holds(data, wait)
        }
    }

    fn decode(data: &Json) -> (r: Option<Self>) {
        match GetDownloadUrlLink::decode(data) {
            Some(link) => Some(GetDownloadUrlResponse::Link(link)),
            None => match GetDownloadUrlWait::decode(data) {
                Some(wait) => Some(GetDownloadUrlResponse::Wait(wait)),
                None => None,
            },
        }
    }
}

} // verus!
