use vstd::prelude::*;

use crate::error::BookError;
use crate::model::{Book, BookView, SearchHit, Status};

verus! {

/// Where books are looked up. What a lookup returns is up to the service
/// behind it, so the methods promise nothing of their result.
pub trait BookSearch {
    /// The volumes that match a free-text query.
    fn search(&self, query: &str) -> Result<Vec<SearchHit>, BookError>;

    /// The metadata of one volume, as a book on no list yet.
    fn fetch(&self, id: &str) -> Result<Book, BookError>;
}

/// With a key, the requests carry exactly one more parameter, named `key`,
/// holding the whole key; without one they carry none.
pub proof fn lemma_key_params_send_whole_key(key: Seq<char>)
    ensures
        key_params(Some(key)).len() == 1,
        key_params(Some(key))[0].0 == "key"@,
        key_params(Some(key))[0].1 == key,
        key_params(None).len() == 0,
{
}

/// The book for a volume keeps the volume's id, title, every author in
/// order and page count, and is on no list yet.
pub proof fn lemma_volume_book_keeps_metadata(
    id: Seq<char>,
    title: Seq<char>,
    authors: Seq<Seq<char>>,
    pages: Option<u32>,
)
    ensures
        ({
            let b = volume_book(id, title, authors, pages);
            &&& b.id == id && b.title == title && b.pages == pages
            &&& b.authors == authors && b.authors.len() == authors.len()
            &&& b.status == Status::ToRead && b.started is None && b.completed is None
        }),
{
}

/// An HTTP request to the book service: an address and its query parameters.
pub struct Request {
    pub url: String,
    pub params: Vec<(String, String)>,
}

/// Query parameters as pairs of character sequences.
pub open spec fn params_view(params: Seq<(String, String)>) -> Seq<(Seq<char>, Seq<char>)> {
    params.map_values(|p: (String, String)| (p.0@, p.1@))
}

/// The volumes endpoint of the Google Books API.
pub open spec fn volumes_endpoint() -> Seq<char> {
    "https://www.googleapis.com/books/v1/volumes"@
}

/// The `key` parameter when there is an API key, else nothing.
pub open spec fn key_params(api_key: Option<Seq<char>>) -> Seq<(Seq<char>, Seq<char>)> {
    match api_key {
        Some(k) => seq![("key"@, k)],
        None => Seq::empty(),
    }
}

/// The client of the Google Books volumes API: builds its requests and reads
/// its volumes. The optional API key only lifts the anonymous rate limit.
pub struct GoogleBooks {
    api_key: Option<String>,
}

impl GoogleBooks {
    /// A client that sends `api_key` with each request when there is one.
    pub fn new(api_key: Option<String>) -> (r: GoogleBooks)
        ensures
            r.key() == (match api_key {
                Some(k) => Some(k@),
                None => None::<Seq<char>>,
            }),
    {
        GoogleBooks { api_key }
    }

    /// The API key, as text.
    pub closed spec fn key(&self) -> Option<Seq<char>> {
        match self.api_key {
            Some(k) => Some(k@),
            None => None,
        }
    }

    /// The `key` parameter for this client's requests.
    fn key_param(&self, params: &mut Vec<(String, String)>)
        ensures
            params_view(final(params)@) == params_view(old(params)@) + key_params(self.key()),
            self.key() is None ==> final(params)@ == old(params)@,
            self.key() matches Some(k) ==> {
                &&& final(params)@.len() == old(params)@.len() + 1
                &&& final(params)@.last().0@ == "key"@
                &&& final(params)@.last().1@ == k
            },
    {
        let ghost before = params@;
        match &self.api_key {
            Some(k) => {
                params.push((String::from_str("key"), k.clone()));
                assert(params_view(params@) =~= params_view(before) + key_params(self.key()));
            },
            None => {
                assert(params_view(params@) =~= params_view(before) + key_params(self.key()));
            },
        }
    }

    /// The request that searches the volumes for `query`: `q` is the query,
    /// followed by the key when there is one.
    pub fn search_request(&self, query: &str) -> (r: Request)
        ensures
            r.url@ == volumes_endpoint(),
            params_view(r.params@) == seq![("q"@, query@)] + key_params(self.key()),
            r.params@[0].0@ == "q"@ && r.params@[0].1@ == query@,
            self.key() is None ==> r.params@.len() == 1,
            self.key() matches Some(k) ==> r.params@.len() == 2 && r.params@[1].0@ == "key"@
                && r.params@[1].1@ == k,
    {
        let mut params: Vec<(String, String)> = Vec::new();
        params.push((String::from_str("q"), String::from_str(query)));
        assert(params_view(params@) =~= seq![("q"@, query@)]);
        self.key_param(&mut params);
        assert(params_view(params@)[0] == (params@[0].0@, params@[0].1@));
        assert((seq![("q"@, query@)] + key_params(self.key()))[0] == ("q"@, query@));
        Request { url: String::from_str("https://www.googleapis.com/books/v1/volumes"), params }
    }

    /// The request that fetches volume `id`: its address under the volumes
    /// endpoint, with the key when there is one.
    pub fn fetch_request(&self, id: &str) -> (r: Request)
        ensures
            r.url@ == volumes_endpoint() + "/"@ + id@,
            params_view(r.params@) == key_params(self.key()),
            self.key() is None ==> r.params@.len() == 0,
            self.key() matches Some(k) ==> r.params@.len() == 1 && r.params@[0].0@ == "key"@
                && r.params@[0].1@ == k,
    {
        let mut params: Vec<(String, String)> = Vec::new();
        assert(params_view(params@) =~= Seq::<(Seq<char>, Seq<char>)>::empty());
        self.key_param(&mut params);
        assert(params_view(params@) =~= key_params(self.key()));
        let mut url = String::from_str("https://www.googleapis.com/books/v1/volumes");
        url.append("/");
        url.append(id);
        Request { url, params }
    }
}

/// The book that a fetched volume stands for: its id, title, authors and
/// page count, on no list yet (`ToRead`, no dates).
pub open spec fn volume_book(
    id: Seq<char>,
    title: Seq<char>,
    authors: Seq<Seq<char>>,
    pages: Option<u32>,
) -> BookView {
    BookView { id, title, authors, status: Status::ToRead, started: None, completed: None, pages }
}

/// The book for a fetched volume.
pub fn book_from_volume(id: String, title: String, authors: Vec<String>, pages: Option<u32>) -> (r: Book)
    ensures
        r@ == volume_book(id@, title@, authors@.map_values(|a: String| a@), pages),
        r.id == id && r.title == title && r.pages == pages,
        r@.authors == authors@.map_values(|a: String| a@),
        r.authors@.len() == authors@.len(),
        r.status == Status::ToRead && r.started is None && r.completed is None,
{
    Book { id, title, authors, status: Status::ToRead, started: None, completed: None, pages }
}

} // verus!
