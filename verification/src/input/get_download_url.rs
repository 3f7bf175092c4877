//! What is sent to ask for a download address.

use vstd::prelude::*;
use crate::json::Json;
use crate::payload::{all_scalar, 
    described, has_key, is_payload, optional_entry, optional_text, push_text, text_view,
    Content, Entry,
};

verus! {

/// The request for the download address of a file.
#[derive(Debug)]
pub struct GetDownloadUrl {
    file_code: String,
    password: Option<String>,
}

/// What a [`GetDownloadUrl`] asks for.
pub ghost struct GetDownloadUrlView {
    /// The code of the file.
    pub file_code: Seq<char>,
    /// The password of the file, where one was given.
    pub password: Option<Seq<char>>,
}

impl GetDownloadUrlView {
    /// The members of the payload: the file code, and the password where one
    /// was given.
    pub open spec fn entries(self) -> Seq<Entry> {
        seq![("file_code"@, Content::Text(self.file_code))] + optional_entry(
            "password"@,
            optional_text(self.password),
        )
    }

    /// A request on which nothing but the file code was set sends the file
    /// code and no other member.
    pub proof fn initial_sends_required_only(file_code: Seq<char>)
        ensures
            (GetDownloadUrlView { file_code, password: None }).entries() == seq![
                ("file_code"@, Content::Text(file_code)),
            ],
    {
        assert((GetDownloadUrlView { file_code, password: None }).entries() =~= seq![
            ("file_code"@, Content::Text(file_code)),
        ]);
    }

    /// The payload has a `password` member exactly where a password was
    /// given: a request without one sends no such key.
    pub proof fn unset_password_is_omitted(self)
        ensures
            has_key(self.entries(), "password"@) <==> self.password is Some,
            has_key(self.entries(), "file_code"@),
    {
        reveal_strlit("file_code");
        reveal_strlit("password");
        let entries = self.entries();
        assert(entries[0].0 == "file_code"@);
        assert("file_code"@.len() != "password"@.len());
        if self.password is Some {
            assert(entries[1].0 == "password"@);
        }
    }

    /// Every member of the payload holds a text, a number or a truth value:
    /// none is `null`, and none is nested.
    pub proof fn entries_are_scalar(self)
        ensures
            all_scalar(self.entries()),
    {
    }
}

impl View for GetDownloadUrl {
    type V = GetDownloadUrlView;

    closed spec fn view(&self) -> GetDownloadUrlView {
        GetDownloadUrlView { file_code: self.file_code@, password: text_view(self.password) }
    }
}

impl GetDownloadUrl {
    /// A request for the file with the given code, without a password.
    pub fn new(file_code: &str) -> (r: Self)
        ensures
            r@ == (GetDownloadUrlView { file_code: file_code@, password: None }),
    {
        GetDownloadUrl { file_code: file_code.to_owned(), password: None }
    }

    /// Sets the password of the file.
    pub fn password(&mut self, password: &str) -> (r: &mut Self)
        ensures
            r@ == (GetDownloadUrlView { password: Some(password@), ..old(self)@ }),
            *final(self) == *final(r),
    {
        self.password = Some(password.to_owned());
        self
    }

    /// The payload of the request.
    pub fn to_value(&self) -> (r: Json)
        ensures
            is_payload(r, self@.entries()),
    {
        let mut fields: Vec<(String, Json)> = Vec::new();
        assert(described(fields@) =~= Seq::empty());
        push_text(&mut fields, "file_code", self.file_code.as_str());
        match &self.password {
            Some(p) => {
                push_text(&mut fields, "password", p.as_str());
            },
            None => {},
        }
        assert(described(fields@) =~= self@.entries());
        Json::Object(fields)
    }
}

impl Default for GetDownloadUrl {
    fn default() -> (r: Self)
        ensures
            r@ == (GetDownloadUrlView { file_code: Seq::empty(), password: None }),
    {
        GetDownloadUrl { file_code: String::new(), password: None }
    }
}

} // verus!
