//! What is sent to change what is recorded of a file.

use vstd::prelude::*;
use crate::json::Json;
use crate::payload::{all_scalar, 
    described, has_key, is_payload, key_of_joined, key_of_optional, optional_entry,
    optional_flag, optional_text, push_flag, push_text, text_view, Content, Entry,
};

verus! {

/// The request to change the name, the description, the password or the
/// public status of a file. The service wants at least one of them set.
#[derive(Debug)]
pub struct UpdateFile {
    file_code: String,
    new_name: Option<String>,
    description: Option<String>,
    password: Option<String>,
    public: Option<bool>,
}

/// What an [`UpdateFile`] asks for.
pub ghost struct UpdateFileView {
    /// The code of the file.
    pub file_code: Seq<char>,
    /// The new name, where one was given.
    pub new_name: Option<Seq<char>>,
    /// The new description, where one was given.
    pub description: Option<Seq<char>>,
    /// The new password, where one was given.
    pub password: Option<Seq<char>>,
    /// The new public status, where one was given.
    pub public: Option<bool>,
}

impl UpdateFileView {
    /// What a request for the file `file_code` asks for before anything is
    /// set: no change at all.
    pub open spec fn initial(file_code: Seq<char>) -> UpdateFileView {
        UpdateFileView {
            file_code,
            new_name: None,
            description: None,
            password: None,
            public: None,
        }
    }

    /// The members of the payload: the file code, then each change that was
    /// given.
    pub open spec fn entries(self) -> Seq<Entry> {
        seq![("file_code"@, Content::Text(self.file_code))] + optional_entry(
            "new_name"@,
            optional_text(self.new_name),
        ) + optional_entry("description"@, optional_text(self.description)) + optional_entry(
            "password"@,
            optional_text(self.password),
        ) + optional_entry("public"@, optional_flag(self.public))
    }

    /// A request on which nothing but the file code was set sends the file
    /// code and no other member.
    pub proof fn initial_sends_required_only(file_code: Seq<char>)
        ensures
            Self::initial(file_code).entries() == seq![
                ("file_code"@, Content::Text(file_code)),
            ],
    {
        assert(Self::initial(file_code).entries() =~= seq![
            ("file_code"@, Content::Text(file_code)),
        ]);
    }

    /// The payload has the member of a change exactly where the change was
    /// given: what was not set sends no key.
    pub proof fn unset_changes_are_omitted(self)
        ensures
            has_key(self.entries(), "new_name"@) <==> self.new_name is Some,
            has_key(self.entries(), "description"@) <==> self.description is Some,
            has_key(self.entries(), "password"@) <==> self.password is Some,
            has_key(self.entries(), "public"@) <==> self.public is Some,
    {
        reveal_strlit("file_code");
        reveal_strlit("new_name");
        reveal_strlit("description");
        reveal_strlit("password");
        reveal_strlit("public");
        let code = seq![("file_code"@, Content::Text(self.file_code))];
        let name = optional_entry("new_name"@, optional_text(self.new_name));
        let description = optional_entry("description"@, optional_text(self.description));
        let password = optional_entry("password"@, optional_text(self.password));
        let public = optional_entry("public"@, optional_flag(self.public));
        assert("new_name"@[0] != "password"@[0]);
        assert("file_code"@.len() == 9 && "new_name"@.len() == 8 && "description"@.len() == 11
            && "password"@.len() == 8 && "public"@.len() == 6);
        assert forall|key: Seq<char>| key.len() != 9 implies !has_key(code, key) by {}
        Self::keys_of_changes(code, name, description, password, public, "new_name"@);
        Self::keys_of_changes(code, name, description, password, public, "description"@);
        Self::keys_of_changes(code, name, description, password, public, "password"@);
        Self::keys_of_changes(code, name, description, password, public, "public"@);
        Self::keys_of_options(self, "new_name"@);
        Self::keys_of_options(self, "description"@);
        Self::keys_of_options(self, "password"@);
        Self::keys_of_options(self, "public"@);
    }

    proof fn keys_of_changes(
        a: Seq<Entry>,
        b: Seq<Entry>,
        c: Seq<Entry>,
        d: Seq<Entry>,
        e: Seq<Entry>,
        key: Seq<char>,
    )
        ensures
            has_key(a + b + c + d + e, key) <==> has_key(a, key) || has_key(b, key) || has_key(
                c,
                key,
            ) || has_key(d, key) || has_key(e, key),
    {
        key_of_joined(a, b, key);
        key_of_joined(a + b, c, key);
        key_of_joined(a + b + c, d, key);
        key_of_joined(a + b + c + d, e, key);
    }

    proof fn keys_of_options(self, key: Seq<char>)
        ensures
            has_key(optional_entry("new_name"@, optional_text(self.new_name)), key)
                <==> self.new_name is Some && "new_name"@ == key,
            has_key(optional_entry("description"@, optional_text(self.description)), key)
                <==> self.description is Some && "description"@ == key,
            has_key(optional_entry("password"@, optional_text(self.password)), key)
                <==> self.password is Some && "password"@ == key,
            has_key(optional_entry("public"@, optional_flag(self.public)), key)
                <==> self.public is Some && "public"@ == key,
    {
        key_of_optional("new_name"@, optional_text(self.new_name), key);
        key_of_optional("description"@, optional_text(self.description), key);
        key_of_optional("password"@, optional_text(self.password), key);
        key_of_optional("public"@, optional_flag(self.public), key);
    }

    /// Every member of the payload holds a text, a number or a truth value:
    /// none is `null`, and none is nested.
    pub proof fn entries_are_scalar(self)
        ensures
            all_scalar(self.entries()),
    {
    }
}

impl View for UpdateFile {
    type V = UpdateFileView;

    closed spec fn view(&self) -> UpdateFileView {
        UpdateFileView {
            file_code: self.file_code@,
            new_name: text_view(self.new_name),
            description: text_view(self.description),
            password: text_view(self.password),
            public: self.public,
        }
    }
}

impl UpdateFile {
    /// A request for the file with the given code that changes nothing yet.
    pub fn new(file_code: &str) -> (r: Self)
        ensures
            r@ == UpdateFileView::initial(file_code@),
    {
        UpdateFile {
            file_code: file_code.to_owned(),
            new_name: None,
            description: None,
            password: None,
            public: None,
        }
    }

    /// Sets the new name of the file.
    pub fn name(&mut self, name: &str) -> (r: &mut Self)
        ensures
            r@ == (UpdateFileView { new_name: Some(name@), ..old(self)@ }),
            *final(self) == *final(r),
    {
        self.new_name = Some(name.to_owned());
        self
    }

    /// Sets the new description of the file.
    pub fn description(&mut self, description: &str) -> (r: &mut Self)
        ensures
            r@ == (UpdateFileView { description: Some(description@), ..old(self)@ }),
            *final(self) == *final(r),
    {
        self.description = Some(description.to_owned());
        self
    }

    /// Sets the new password of the file.
    pub fn password(&mut self, password: &str) -> (r: &mut Self)
        ensures
            r@ == (UpdateFileView { password: Some(password@), ..old(self)@ }),
            *final(self) == *final(r),
    {
        self.password = Some(password.to_owned());
        self
    }

    /// Sets the new public status of the file.
    pub fn public(&mut self, public: bool) -> (r: &mut Self)
        ensures
            r@ == (UpdateFileView { public: Some(public), ..old(self)@ }),
            *final(self) == *final(r),
    {
        self.public = Some(public);
        self
    }

    /// The payload of the request.
    pub fn to_value(&self) -> (r: Json)
        ensures
            is_payload(r, self@.entries()),
    {
        let mut fields: Vec<(String, Json)> = Vec::new();
        assert(described(fields@) =~= Seq::empty());
        push_text(&mut fields, "file_code", self.file_code.as_str());
        match &self.new_name {
            Some(text) => {
                push_text(&mut fields, "new_name", text.as_str());
            },
            None => {},
        }
        match &self.description {
            Some(text) => {
                push_text(&mut fields, "description", text.as_str());
            },
            None => {},
        }
        match &self.password {
            Some(text) => {
                push_text(&mut fields, "password", text.as_str());
            },
            None => {},
        }
        match self.public {
            Some(flag) => {
                push_flag(&mut fields, "public", flag);
            },
            None => {},
        }
        assert(described(fields@) =~= self@.entries());
        Json::Object(fields)
    }
}

impl Default for UpdateFile {
    fn default() -> (r: Self)
        ensures
            r@ == UpdateFileView::initial(Seq::empty()),
    {
        UpdateFile {
            file_code: String::new(),
            new_name: None,
            description: None,
            password: None,
            public: None,
        }
    }
}

} // verus!
