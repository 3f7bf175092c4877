//! The answer to the request for what is known of the account.

use vstd::prelude::*;
use crate::json::{
    as_text, as_unsigned, found, get, member, read_text, read_unsigned, render, rendered, Json,
};
use crate::util::Payload;

verus! {

/// What is known of the account.
#[derive(Debug, PartialEq, Eq)]
pub struct GetAccountResponse {
    pub premium: bool,
    pub login: String,
    pub email: String,
    /// The points of the account: the number as compact JSON text, since it
    /// may have a fraction.
    pub point: String,
    pub premium_expire: String,
    pub security_lock: bool,
    pub direct_download: bool,
    pub ssl_download: bool,
    pub token: String,
}

/// A switch as the service reports it: off for 0, on for any other number.
pub fn deserialize_usize_to_bool(value: usize) -> (r: bool)
    ensures
        r == (value != 0),
{
    value != 0
}

/// A member read as a switch: `None` where it is no unsigned number.
pub open spec fn as_switch(value: Option<Json>) -> Option<bool> {
    match as_unsigned(value) {
        Some(n) => Some(n != 0),
        None => None,
    }
}

/// A member read as the text of a number: `None` where it is no number.
pub open spec fn as_number_text(value: Option<Json>) -> Option<Seq<char>> {
    match value {
        Some(number) => if number is Unsigned || number is Number {
            Some(rendered(number))
        } else {
            None
        },
        None => None,
    }
}

/// Reads a value as a switch.
pub fn read_switch(value: Option<&Json>) -> (r: Option<bool>)
    ensures
        r == as_switch(found(value)),
{
    match read_unsigned(value) {
        Some(n) => Some(deserialize_usize_to_bool(n)),
        None => None,
    }
}

/// Reads a value as the text of a number.
pub fn read_number_text(value: Option<&Json>) -> (r: Option<String>)
    ensures
        match as_number_text(found(value)) {
            Some(text) => r matches Some(s) && s@ == text,
            None => r is None,
        },
{
    match value {
        Some(number) => match number {
            Json::Unsigned(_) => Some(render(number)),
            Json::Number(_) => Some(render(number)),
            _ => None,
        },
        None => None,
    }
}

impl Payload for GetAccountResponse {
    open spec fn accepts(data: Json) -> bool {
        data matches Json::Object(fields) && {
            &&& as_switch(member(fields@, "premium"@)) is Some
            &&& as_text(member(fields@, "login"@)) is Some
            &&& as_text(member(fields@, "email"@)) is Some
            &&& as_number_text(member(fields@, "point"@)) is Some
            &&& as_text(member(fields@, "premium_expire"@)) is Some
            &&& as_switch(member(fields@, "securityLock"@)) is Some
            &&& as_switch(member(fields@, "directDownload"@)) is Some
            &&& as_switch(member(fields@, "sslDownload"@)) is Some
            &&& as_text(member(fields@, "token"@)) is Some
        }
    }

    open spec fn holds(data: Json, out: Self) -> bool {
        data matches Json::Object(fields) && {
            &&& as_switch(member(fields@, "premium"@)) == Some(out.premium)
            &&& as_text(member(fields@, "login"@)) == Some(out.login)
            &&& as_text(member(fields@, "email"@)) == Some(out.email)
            &&& as_number_text(member(fields@, "point"@)) == Some(out.point@)
            &&& as_text(member(fields@, "premium_expire"@)) == Some(out.premium_expire)
            &&& as_switch(member(fields@, "securityLock"@)) == Some(out.security_lock)
            &&& as_switch(member(fields@, "directDownload"@)) == Some(out.direct_download)
            &&& as_switch(member(fields@, "sslDownload"@)) == Some(out.ssl_download)
            &&& as_text(member(fields@, "token"@)) == Some(out.token)
        }
    }

    fn decode(data: &Json) -> (r: Option<Self>) {
        let fields = match data {
            Json::Object(fields) => fields,
            _ => {
                return None;
            },
        };
        let premium = match read_switch(get(fields, "premium")) {
            Some(value) => value,
            None => {
                return None;
            },
        };
        let login = match read_text(get(fields, "login")) {
            Some(value) => value,
            None => {
                return None;
            },
        };
        let email = match read_text(get(fields, "email")) {
            Some(value) => value,
            None => {
                return None;
            },
        };
        let point = match read_number_text(get(fields, "point")) {
            Some(value) => value,
            None => {
                return None;
            },
        };
        let premium_expire = match read_text(get(fields, "premium_expire")) {
            Some(value) => value,
            None => {
                return None;
            },
        };
        let security_lock = match read_switch(get(fields, "securityLock")) {
            Some(value) => value,
            None => {
                return None;
            },
        };
        let direct_download = match read_switch(get(fields, "directDownload")) {
            Some(value) => value,
            None => {
                return None;
            },
        };
        let ssl_download = match read_switch(get(fields, "sslDownload")) {
            Some(value) => value,
            None => {
                return None;
            },
        };
        let token = match read_text(get(fields, "token")) {
            Some(value) => value,
            None => {
                return None;
            },
        };
        Some(
            GetAccountResponse {
                premium,
                login,
                email,
                point,
                premium_expire,
                security_lock,
                direct_download,
                ssl_download,
                token,
            },
        )
    }
}

} // verus!
