//! Payloads that several calls share.

use vstd::prelude::*;
use crate::json::{as_unsigned, found, get, member, read_text, read_unsigned, Json};
use crate::util::Payload;

verus! {

/// The answer to a call that changes, moves, copies or deletes files: how
/// many files it reached.
#[derive(Debug, PartialEq, Eq)]
pub struct GenericUpdatedResponse {
    pub updated: usize,
}

/// The member that holds the count: `updated`, or where there is none,
/// `deleted`.
pub open spec fn count_member(fields: Seq<(String, Json)>) -> Option<Json> {
    match member(fields, "updated"@) {
        Some(value) => Some(value),
        None => member(fields, "deleted"@),
    }
}

impl Payload for GenericUpdatedResponse {
    open spec fn accepts(data: Json) -> bool {
        data matches Json::Object(fields) && as_unsigned(count_member(fields@)) is Some
    }

    open spec fn holds(data: Json, out: Self) -> bool {
        data matches Json::Object(fields) && as_unsigned(count_member(fields@)) == Some(
            out.updated,
        )
    }

    fn decode(data: &Json) -> (r: Option<Self>) {
        match data {
            Json::Object(fields) => {
                let count = match get(fields, "updated") {
                    Some(value) => Some(value),
                    None => get(fields, "deleted"),
                };
                match read_unsigned(count) {
                    Some(updated) => Some(GenericUpdatedResponse { updated }),
                    None => None,
                }
            },
            _ => None,
        }
    }
}

/// The answer to a call that reports in words what it did.
impl Payload for String {
    open spec fn accepts(data: Json) -> bool {
        data is Text
    }

    open spec fn holds(data: Json, out: Self) -> bool {
        data == Json::Text(out)
    }

    fn decode(data: &Json) -> (r: Option<Self>) {
        read_text(Some(data))
    }
}

/// The answer to a call that has nothing to report: whatever `data` holds is
/// passed over.
#[derive(Debug, PartialEq, Eq)]
pub struct GenericEmptyData {}

impl Payload for GenericEmptyData {
    open spec fn accepts(data: Json) -> bool {
        true
    }

    open spec fn holds(data: Json, out: Self) -> bool {
        true
    }

    fn decode(data: &Json) -> (r: Option<Self>) {
        Some(GenericEmptyData {  })
    }
}

/// Whether each of `items` has the shape of a `T`.
pub open spec fn all_accepted<T: Payload>(items: Seq<Json>) -> bool {
    forall|i: int| 0 <= i < items.len() ==> T::accepts(#[trigger] items[i])
}

/// Whether `out` holds, item by item and in order, what `items` say.
pub open spec fn all_held<T: Payload>(items: Seq<Json>, out: Seq<T>) -> bool {
    out.len() == items.len() && forall|i: int|
        0 <= i < items.len() ==> T::holds(items[i], #[trigger] out[i])
}

/// Whether a member is an array of which each item has the shape of a `T`.
pub open spec fn list_accepts<T: Payload>(value: Option<Json>) -> bool {
    match value {
        Some(Json::Array(items)) => all_accepted::<T>(items@),
        _ => false,
    }
}

/// Whether `out` holds, item by item and in order, what the array says.
pub open spec fn list_holds<T: Payload>(value: Option<Json>, out: Seq<T>) -> bool {
    match value {
        Some(Json::Array(items)) => all_held::<T>(items@, out),
        _ => false,
    }
}

/// Reads a member as a list of `T`.
pub fn read_list<T: Payload>(value: Option<&Json>) -> (r: Option<Vec<T>>)
    ensures
        r is Some <==> list_accepts::<T>(found(value)),
        r matches Some(out) ==> list_holds::<T>(found(value), out@),
{
    match value {
        Some(Json::Array(items)) => {
            let mut out: Vec<T> = Vec::new();
            let mut i: usize = 0;
            while i < items.len()
                invariant
                    found(value) == Some(Json::Array(*items)),
                    i <= items.len(),
                    out@.len() == i,
                    forall|k: int| 0 <= k < i ==> T::accepts(#[trigger] items@[k]),
                    forall|k: int| 0 <= k < i ==> T::holds(items@[k], #[trigger] out@[k]),
                decreases items.len() - i,
            {
                match T::decode(&items[i]) {
                    Some(item) => {
                        out.push(item);
                    },
                    None => {
                        assert(!T::accepts(items@[i as int]));
                        return None;
                    },
                }
                i += 1;
            }
            Some(out)
        },
        _ => None,
    }
}

/// A payload whose `list` member holds the items of the answer.
#[derive(Debug, PartialEq, Eq)]
pub struct Listing<T> {
    pub list: Vec<T>,
}

impl<T: Payload> Payload for Listing<T> {
    open spec fn accepts(data: Json) -> bool {
        data matches Json::Object(fields) && list_accepts::<T>(member(fields@, "list"@))
    }

    open spec fn holds(data: Json, out: Self) -> bool {
        data matches Json::Object(fields) && list_holds::<T>(member(fields@, "list"@), out.list@)
    }

    fn decode(data: &Json) -> (r: Option<Self>) {
        match data {
            Json::Object(fields) => match read_list::<T>(get(fields, "list")) {
                Some(list) => Some(Listing { list }),
                None => None,
            },
            _ => None,
        }
    }
}

/// Whether a member is there and has the shape of a `T`.
pub open spec fn nested_accepts<T: Payload>(value: Option<Json>) -> bool {
    match value {
        Some(inner) => T::accepts(inner),
        None => false,
    }
}

/// Whether `out` is what the member says, read as a `T`.
pub open spec fn nested_holds<T: Payload>(value: Option<Json>, out: T) -> bool {
    match value {
        Some(inner) => T::holds(inner, out),
        None => false,
    }
}

/// Reads a member as a `T`.
pub fn read_nested<T: Payload>(value: Option<&Json>) -> (r: Option<T>)
    ensures
        r is Some <==> nested_accepts::<T>(found(value)),
        r matches Some(out) ==> nested_holds::<T>(found(value), out),
{
    match value {
        Some(inner) => T::decode(inner),
        None => None,
    }
}

/// Whether a member is missing, `null`, or has the shape of a `T`.
pub open spec fn optional_accepts<T: Payload>(value: Option<Json>) -> bool {
    match value {
        None => true,
        Some(Json::Null) => true,
        Some(inner) => T::accepts(inner),
    }
}

/// Whether `out` is what the member says, read as an optional `T`: nothing
/// for a missing member and for `null`.
pub open spec fn optional_holds<T: Payload>(value: Option<Json>, out: Option<T>) -> bool {
    match value {
        None => out is None,
        Some(Json::Null) => out is None,
        Some(inner) => out matches Some(o) && T::holds(inner, o),
    }
}

/// Reads a member as an optional `T`.
pub fn read_optional<T: Payload>(value: Option<&Json>) -> (r: Option<Option<T>>)
    ensures
        r is Some <==> optional_accepts::<T>(found(value)),
        r matches Some(out) ==> optional_holds::<T>(found(value), out),
{
    match value {
        None => Some(None),
        Some(Json::Null) => Some(None),
        Some(inner) => match T::decode(inner) {
            Some(out) => Some(Some(out)),
            None => None,
        },
    }
}

} // verus!
