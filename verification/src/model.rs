use vstd::prelude::*;

verus! {

/// Where a book stands on the reading list.
#[derive(Clone, Copy, Debug, PartialEq, Eq, Structural)]
pub enum Status {
    Read,
    Reading,
    ToRead,
}

/// The status as the command line names it (`read`, `reading`, `to-read`).
#[derive(Clone, Copy, Debug, PartialEq, Eq, Structural)]
pub enum StatusArg {
    Read,
    Reading,
    ToRead,
}

/// The status that a command-line status argument stands for.
pub open spec fn status_of_arg(value: StatusArg) -> Status {
    match value {
        StatusArg::Read => Status::Read,
        StatusArg::Reading => Status::Reading,
        StatusArg::ToRead => Status::ToRead,
    }
}

impl From<StatusArg> for Status {
    fn from(value: StatusArg) -> (r: Status) {
        match value {
            StatusArg::Read => Status::Read,
            StatusArg::Reading => Status::Reading,
            StatusArg::ToRead => Status::ToRead,
        }
    }
}

impl vstd::std_specs::convert::FromSpecImpl<StatusArg> for Status {
    open spec fn obeys_from_spec() -> bool {
        true
    }

    open spec fn from_spec(value: StatusArg) -> Status {
        status_of_arg(value)
    }
}


/// A calendar date; the library only carries dates from one place to another.
#[verifier::external_type_specification]
#[verifier::external_body]
pub struct ExNaiveDate(chrono::NaiveDate);

/// A book on the reading list. `id` is the Google Books volume id and the
/// list's key.
#[derive(Debug, PartialEq, Eq)]
pub struct Book {
    pub id: String,
    pub title: String,
    pub authors: Vec<String>,
    pub status: Status,
    pub started: Option<chrono::NaiveDate>,
    pub completed: Option<chrono::NaiveDate>,
    pub pages: Option<u32>,
}

/// A book as a mathematical value: its strings as sequences of characters.
pub struct BookView {
    pub id: Seq<char>,
    pub title: Seq<char>,
    pub authors: Seq<Seq<char>>,
    pub status: Status,
    pub started: Option<chrono::NaiveDate>,
    pub completed: Option<chrono::NaiveDate>,
    pub pages: Option<u32>,
}

impl View for Book {
    type V = BookView;

    open spec fn view(&self) -> BookView {
        BookView {
            id: self.id@,
            title: self.title@,
            authors: self.authors@.map_values(|a: String| a@),
            status: self.status,
            started: self.started,
            completed: self.completed,
            pages: self.pages,
        }
    }
}

impl Clone for Book {
    fn clone(&self) -> (r: Book)
        ensures
            r@ == self@,
    {
        let authors = self.authors.clone();
        proof {
            assert(authors@.map_values(|a: String| a@) =~= self.authors@.map_values(
                |a: String| a@,
            ));
        }
        Book {
            id: self.id.clone(),
            title: self.title.clone(),
            authors,
            status: self.status,
            started: self.started,
            completed: self.completed,
            pages: self.pages,
        }
    }
}

/// One search result: a volume id and its title.
#[derive(Debug, PartialEq, Eq)]
pub struct SearchHit {
    pub id: String,
    pub title: String,
}

/// A search result as a pair of character sequences.
pub struct SearchHitView {
    pub id: Seq<char>,
    pub title: Seq<char>,
}

impl View for SearchHit {
    type V = SearchHitView;

    open spec fn view(&self) -> SearchHitView {
        SearchHitView { id: self.id@, title: self.title@ }
    }
}

impl Clone for SearchHit {
    fn clone(&self) -> (r: SearchHit)
        ensures
            r@ == self@,
    {
        SearchHit { id: self.id.clone(), title: self.title.clone() }
    }
}

} // verus!
