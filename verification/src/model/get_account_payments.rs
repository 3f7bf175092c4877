//! The answer to the request for the payments of the account.

use vstd::prelude::*;
use crate::json::{as_text, as_unsigned, get, member, read_text, read_unsigned, Json};
use crate::util::Payload;

verus! {

/// One payment of the account.
#[derive(Debug, PartialEq, Eq)]
pub struct GetAccountPaymentsResponse {
    pub created: String,
    pub status: String,
    pub amount: String,
    pub days: usize,
    /// The kind of payment; `type` on the wire.
    pub _type: String,
}

impl Payload for GetAccountPaymentsResponse {
    open spec fn accepts(data: Json) -> bool {
        data matches Json::Object(fields) && {
            &&& as_text(member(fields@, "created"@)) is Some
            &&& as_text(member(fields@, "status"@)) is Some
            &&& as_text(member(fields@, "amount"@)) is Some
            &&& as_unsigned(member(fields@, "days"@)) is Some
            &&& as_text(member(fields@, "type"@)) is Some
        }
    }

    open spec fn holds(data: Json, out: Self) -> bool {
        data matches Json::Object(fields) && {
            &&& as_text(member(fields@, "created"@)) == Some(out.created)
            &&& as_text(member(fields@, "status"@)) == Some(out.status)
            &&& as_text(member(fields@, "amount"@)) == Some(out.amount)
            &&& as_unsigned(member(fields@, "days"@)) == Some(out.days)
            &&& as_text(member(fields@, "type"@)) == Some(out._type)
        }
    }

    fn decode(data: &Json) -> (r: Option<Self>) {
        let fields = match data {
            Json::Object(fields) => fields,
            _ => {
                return None;
            },
        };
        let created = match read_text(get(fields, "created")) {
            Some(value) => value,
            None => {
                return None;
            },
        };
        let status = match read_text(get(fields, "status")) {
            Some(value) => value,
            None => {
                return None;
            },
        };
        let amount = match read_text(get(fields, "amount")) {
            Some(value) => value,
            None => {
                return None;
            },
        };
        let days = match read_unsigned(get(fields, "days")) {
            Some(value) => value,
            None => {
                return None;
            },
        };
        let _type = match read_text(get(fields, "type")) {
            Some(value) => value,
            None => {
                return None;
            },
        };
        Some(GetAccountPaymentsResponse { created, status, amount, days, _type })
    }
}

} // verus!
