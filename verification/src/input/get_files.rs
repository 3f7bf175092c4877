//! What is sent to ask for the files and folders of a folder.

use vstd::prelude::*;
use crate::json::Json;
use crate::payload::{all_scalar, 
    described, has_key, is_payload, key_of_joined, key_of_optional, optional_entry,
    optional_text, push_text, push_unsigned, text_view, Content, Entry,
};

verus! {

/// The column by which a listing is sorted or searched.
#[derive(Debug, Clone, Copy, PartialEq, Eq)]
pub enum OrderBy {
    FileName,
    FileDate,
    FileSize,
    Transcoded,
    FileDownloads,
}

/// The direction in which a listing is sorted.
#[derive(Debug, Clone, Copy, PartialEq, Eq)]
pub enum OrderDir {
    Asc,
    Desc,
}

impl OrderBy {
    /// The name of the column in a payload.
    pub open spec fn wire(self) -> Seq<char> {
        match self {
            OrderBy::FileName => "file_name"@,
            OrderBy::FileDate => "file_date"@,
            OrderBy::FileSize => "file_size"@,
            OrderBy::Transcoded => "transcoded"@,
            OrderBy::FileDownloads => "file_downloads"@,
        }
    }

    /// The name of the column in a payload.
    pub fn name(&self) -> (r: &'static str)
        ensures
            r@ == self.wire(),
    {
        match self {
            OrderBy::FileName => "file_name",
            OrderBy::FileDate => "file_date",
            OrderBy::FileSize => "file_size",
            OrderBy::Transcoded => "transcoded",
            OrderBy::FileDownloads => "file_downloads",
        }
    }
}

impl OrderDir {
    /// The name of the direction in a payload.
    pub open spec fn wire(self) -> Seq<char> {
        match self {
            OrderDir::Asc => "asc"@,
            OrderDir::Desc => "desc"@,
        }
    }

    /// The name of the direction in a payload.
    pub fn name(&self) -> (r: &'static str)
        ensures
            r@ == self.wire(),
    {
        match self {
            OrderDir::Asc => "asc",
            OrderDir::Desc => "desc",
        }
    }

    /// The direction as it is shown to a reader: `ASC` or `DESC`.
    pub fn label(&self) -> (r: &'static str)
        ensures
            *self == OrderDir::Asc ==> r@ == "ASC"@,
            *self == OrderDir::Desc ==> r@ == "DESC"@,
    {
        match self {
            OrderDir::Asc => "ASC",
            OrderDir::Desc => "DESC",
        }
    }
}

/// The request for the files and folders of a folder.
#[derive(Debug)]
pub struct GetFiles {
    path: String,
    limit: usize,
    order_by: OrderBy,
    dir: OrderDir,
    offset: usize,
    search_field: Option<OrderBy>,
    search: Option<String>,
}

/// What a [`GetFiles`] asks for.
pub ghost struct GetFilesView {
    /// The path of the folder.
    pub path: Seq<char>,
    /// How many files to retrieve.
    pub limit: usize,
    /// The column to sort by.
    pub order_by: OrderBy,
    /// The direction to sort in.
    pub dir: OrderDir,
    /// The offset to retrieve from.
    pub offset: usize,
    /// The column to search in, where a search was asked for.
    pub search_field: Option<OrderBy>,
    /// The text to search for, where a search was asked for.
    pub search: Option<Seq<char>>,
}

/// The column of a search as the content of an optional member.
pub open spec fn optional_column(value: Option<OrderBy>) -> Option<Content> {
    match value {
        Some(column) => Some(Content::Text(column.wire())),
        None => None,
    }
}

impl GetFilesView {
    /// What a request for `path` asks for before anything else is set: a
    /// hundred files from the start, sorted by name, ascending, no search.
    pub open spec fn initial(path: Seq<char>) -> GetFilesView {
        GetFilesView {
            path,
            limit: 100,
            order_by: OrderBy::FileName,
            dir: OrderDir::Asc,
            offset: 0,
            search_field: None,
            search: None,
        }
    }

    /// The members that every payload has.
    pub open spec fn required_entries(self) -> Seq<Entry> {
        seq![
            ("path"@, Content::Text(self.path)),
            ("limit"@, Content::Unsigned(self.limit as u64)),
            ("orderBy"@, Content::Text(self.order_by.wire())),
            ("dir"@, Content::Text(self.dir.wire())),
            ("offset"@, Content::Unsigned(self.offset as u64)),
        ]
    }

    /// The members of the payload: the required ones, then the column and the
    /// text of the search where they were given.
    pub open spec fn entries(self) -> Seq<Entry> {
        self.required_entries() + optional_entry(
            "searchField"@,
            optional_column(self.search_field),
        ) + optional_entry("search"@, optional_text(self.search))
    }

    /// A request on which nothing but the path was set sends the required
    /// members and no other.
    pub proof fn initial_sends_required_only(path: Seq<char>)
        ensures
            Self::initial(path).entries() == Self::initial(path).required_entries(),
    {
        assert(Self::initial(path).entries() =~= Self::initial(path).required_entries());
    }

    /// The payload has a `searchField` and a `search` member exactly where
    /// they were given: a request without a search sends neither key.
    pub proof fn unset_search_is_omitted(self)
        ensures
            has_key(self.entries(), "searchField"@) <==> self.search_field is Some,
            has_key(self.entries(), "search"@) <==> self.search is Some,
    {
        reveal_strlit("path");
        reveal_strlit("limit");
        reveal_strlit("orderBy");
        reveal_strlit("dir");
        reveal_strlit("offset");
        reveal_strlit("searchField");
        reveal_strlit("search");
        let required = self.required_entries();
        let column = optional_entry("searchField"@, optional_column(self.search_field));
        let text = optional_entry("search"@, optional_text(self.search));
        assert("offset"@[0] != "search"@[0]);
        assert("searchField"@.len() != "search"@.len());
        assert(!has_key(required, "searchField"@));
        assert(!has_key(required, "search"@));
        key_of_joined(required, column, "searchField"@);
        key_of_joined(required, column, "search"@);
        key_of_joined(required + column, text, "searchField"@);
        key_of_joined(required + column, text, "search"@);
        key_of_optional("searchField"@, optional_column(self.search_field), "searchField"@);
        key_of_optional("searchField"@, optional_column(self.search_field), "search"@);
        key_of_optional("search"@, optional_text(self.search), "searchField"@);
        key_of_optional("search"@, optional_text(self.search), "search"@);
    }

    /// Every member of the payload holds a text, a number or a truth value:
    /// none is `null`, and none is nested.
    pub proof fn entries_are_scalar(self)
        ensures
            all_scalar(self.entries()),
    {
    }
}

impl View for GetFiles {
    type V = GetFilesView;

    closed spec fn view(&self) -> GetFilesView {
        GetFilesView {
            path: self.path@,
            limit: self.limit,
            order_by: self.order_by,
            dir: self.dir,
            offset: self.offset,
            search_field: self.search_field,
            search: text_view(self.search),
        }
    }
}

impl GetFiles {
    /// A request for the folder at `path`, with everything else as in
    /// [`GetFilesView::initial`].
    pub fn new(path: &str) -> (r: Self)
        ensures
            r@ == GetFilesView::initial(path@),
    {
        GetFiles {
            path: path.to_owned(),
            limit: 100,
            order_by: OrderBy::FileName,
            dir: OrderDir::Asc,
            offset: 0,
            search_field: None,
            search: None,
        }
    }

    /// Sets how many files to retrieve.
    pub fn limit(&mut self, limit: usize) -> (r: &mut Self)
        ensures
            r@ == (GetFilesView { limit, ..old(self)@ }),
            *final(self) == *final(r),
    {
        self.limit = limit;
        self
    }

    /// Sets the offset to retrieve from.
    pub fn offset(&mut self, offset: usize) -> (r: &mut Self)
        ensures
            r@ == (GetFilesView { offset, ..old(self)@ }),
            *final(self) == *final(r),
    {
        self.offset = offset;
        self
    }

    /// Sets the column to sort by.
    pub fn order_by(&mut self, order_by: OrderBy) -> (r: &mut Self)
        ensures
            r@ == (GetFilesView { order_by, ..old(self)@ }),
            *final(self) == *final(r),
    {
        self.order_by = order_by;
        self
    }

    /// Sets the direction to sort in.
    pub fn order_dir(&mut self, order_dir: OrderDir) -> (r: &mut Self)
        ensures
            r@ == (GetFilesView { dir: order_dir, ..old(self)@ }),
            *final(self) == *final(r),
    {
        self.dir = order_dir;
        self
    }

    /// Asks for the files of which the column `search_field` holds `search`.
    pub fn search(&mut self, search_field: OrderBy, search: &str) -> (r: &mut Self)
        ensures
            r@ == (GetFilesView {
                search_field: Some(search_field),
                search: Some(search@),
                ..old(self)@
            }),
            *final(self) == *final(r),
    {
        self.search_field = Some(search_field);
        self.search = Some(search.to_owned());
        self
    }

    /// The payload of the request.
    pub fn to_value(&self) -> (r: Json)
        ensures
            is_payload(r, self@.entries()),
    {
        let mut fields: Vec<(String, Json)> = Vec::new();
        assert(described(fields@) =~= Seq::empty());
        push_text(&mut fields, "path", self.path.as_str());
        push_unsigned(&mut fields, "limit", self.limit);
        push_text(&mut fields, "orderBy", self.order_by.name());
        push_text(&mut fields, "dir", self.dir.name());
        push_unsigned(&mut fields, "offset", self.offset);
        assert(described(fields@) =~= self@.required_entries());
        match &self.search_field {
            Some(column) => {
                push_text(&mut fields, "searchField", column.name());
            },
            None => {},
        }
        match &self.search {
            Some(text) => {
                push_text(&mut fields, "search", text.as_str());
            },
            None => {},
        }
        assert(described(fields@) =~= self@.entries());
        Json::Object(fields)
    }
}

impl Default for GetFiles {
    fn default() -> (r: Self)
        ensures
            r@ == GetFilesView::initial("//"@),
    {
        GetFiles {
            path: "//".to_owned(),
            limit: 100,
            offset: 0,
            order_by: OrderBy::FileName,
            dir: OrderDir::Asc,
            search_field: None,
            search: None,
        }
    }
}

} // verus!
