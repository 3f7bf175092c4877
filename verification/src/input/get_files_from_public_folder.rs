//! What is sent to ask for the files of a public folder.

use vstd::prelude::*;
use crate::json::Json;
use crate::payload::{all_scalar, described, is_payload, push_text, push_unsigned, Content, Entry};

verus! {

/// The request for the files of a public folder.
#[derive(Debug)]
pub struct GetFilesFromPublicFolder {
    folder: usize,
    hash: String,
    limit: usize,
    offset: usize,
}

/// What a [`GetFilesFromPublicFolder`] asks for.
pub ghost struct GetFilesFromPublicFolderView {
    /// The id of the folder.
    pub folder: usize,
    /// The hash of the folder.
    pub hash: Seq<char>,
    /// How many files to retrieve.
    pub limit: usize,
    /// The offset to retrieve from.
    pub offset: usize,
}

impl GetFilesFromPublicFolderView {
    /// The members of the payload; every one of them is always sent.
    pub open spec fn entries(self) -> Seq<Entry> {
        seq![
            ("folder"@, Content::Unsigned(self.folder as u64)),
            ("hash"@, Content::Text(self.hash)),
            ("limit"@, Content::Unsigned(self.limit as u64)),
            ("offset"@, Content::Unsigned(self.offset as u64)),
        ]
    }

    /// Every member of the payload holds a text, a number or a truth value:
    /// none is `null`, and none is nested.
    pub proof fn entries_are_scalar(self)
        ensures
            all_scalar(self.entries()),
    {
    }
}

impl View for GetFilesFromPublicFolder {
    type V = GetFilesFromPublicFolderView;

    closed spec fn view(&self) -> GetFilesFromPublicFolderView {
        GetFilesFromPublicFolderView {
            folder: self.folder,
            hash: self.hash@,
            limit: self.limit,
            offset: self.offset,
        }
    }
}

impl GetFilesFromPublicFolder {
    /// A request for the first hundred files of the folder.
    pub fn new(folder: usize, hash: &str) -> (r: Self)
        ensures
            r@ == (GetFilesFromPublicFolderView { folder, hash: hash@, limit: 100, offset: 0 }),
    {
        GetFilesFromPublicFolder { folder, hash: hash.to_owned(), limit: 100, offset: 0 }
    }

    /// Sets how many files to retrieve.
    pub fn limit(&mut self, limit: usize) -> (r: &mut Self)
        ensures
            r@ == (GetFilesFromPublicFolderView { limit, ..old(self)@ }),
            *final(self) == *final(r),
    {
        self.limit = limit;
        self
    }

    /// Sets the offset to retrieve from.
    pub fn offset(&mut self, offset: usize) -> (r: &mut Self)
        ensures
            r@ == (GetFilesFromPublicFolderView { offset, ..old(self)@ }),
            *final(self) == *final(r),
    {
        self.offset = offset;
        self
    }

    /// The payload of the request.
    pub fn to_value(&self) -> (r: Json)
        ensures
            is_payload(r, self@.entries()),
    {
        let mut fields: Vec<(String, Json)> = Vec::new();
        assert(described(fields@) =~= Seq::empty());
        push_unsigned(&mut fields, "folder", self.folder);
        push_text(&mut fields, "hash", self.hash.as_str());
        push_unsigned(&mut fields, "limit", self.limit);
        push_unsigned(&mut fields, "offset", self.offset);
        assert(described(fields@) =~= self@.entries());
        Json::Object(fields)
    }
}

impl Default for GetFilesFromPublicFolder {
    fn default() -> (r: Self)
        ensures
            r@ == (GetFilesFromPublicFolderView {
                folder: 0,
                hash: Seq::empty(),
                limit: 100,
                offset: 0,
            }),
    {
        GetFilesFromPublicFolder { folder: 0, hash: String::new(), limit: 100, offset: 0 }
    }
}

} // verus!
