use vstd::prelude::*;

use crate::error::BookError;
use crate::model::{Book, BookView};

verus! {

/// The books of a list, each taken by its view.
pub open spec fn book_views(books: Seq<Book>) -> Seq<BookView> {
    books.map_values(|b: Book| b@)
}

/// A found book taken by its view.
pub open spec fn option_view(found: Option<Book>) -> Option<BookView> {
    match found {
        Some(b) => Some(b@),
        None => None,
    }
}

/// Some book of the list has this id.
pub open spec fn has_id(books: Seq<BookView>, id: Seq<char>) -> bool {
    exists|i: int| 0 <= i < books.len() && #[trigger] books[i].id == id
}

/// Position `i` holds the first book of the list with this id.
pub open spec fn is_first_with_id(books: Seq<BookView>, id: Seq<char>, i: int) -> bool {
    &&& 0 <= i < books.len()
    &&& books[i].id == id
    &&& forall|j: int| 0 <= j < i ==> #[trigger] books[j].id != id
}

/// The first book of the list with this id, if there is one.
pub open spec fn find_by_id(books: Seq<BookView>, id: Seq<char>) -> Option<BookView> {
    if exists|i: int| is_first_with_id(books, id, i) {
        Some(books[choose|i: int| is_first_with_id(books, id, i)])
    } else {
        None
    }
}

/// No two books of the list share an id.
pub open spec fn ids_unique(books: Seq<BookView>) -> bool {
    forall|i: int, j: int|
        0 <= i < books.len() && 0 <= j < books.len() && i != j ==> #[trigger] books[i].id
            != #[trigger] books[j].id
}

/// A list holding some book with an id holds a first one.
proof fn lemma_first_exists(books: Seq<BookView>, id: Seq<char>)
    requires
        has_id(books, id),
    ensures
        exists|i: int| is_first_with_id(books, id, i),
    decreases books.len(),
{
    let prefix = books.drop_last();
    if has_id(prefix, id) {
        lemma_first_exists(prefix, id);
        let i = choose|i: int| is_first_with_id(prefix, id, i);
        assert(prefix[i] == books[i]);
        assert forall|j: int| 0 <= j < i implies #[trigger] books[j].id != id by {
            assert(prefix[j] == books[j]);
            assert(prefix[j].id != id);
        }
        assert(is_first_with_id(books, id, i));
    } else {
        let k = choose|k: int| 0 <= k < books.len() && #[trigger] books[k].id == id;
        if k < books.len() - 1 {
            assert(prefix[k].id == id);
        }
        assert forall|j: int| 0 <= j < books.len() - 1 implies #[trigger] books[j].id != id by {
            assert(prefix[j] == books[j]);
        }
        assert(is_first_with_id(books, id, books.len() - 1));
    }
}

/// The first position with an id is the one `find_by_id` reports.
proof fn lemma_find_at(books: Seq<BookView>, id: Seq<char>, i: int)
    requires
        is_first_with_id(books, id, i),
    ensures
        find_by_id(books, id) == Some(books[i]),
{
    let k = choose|k: int| is_first_with_id(books, id, k);
    assert(is_first_with_id(books, id, k));
    if k < i {
        assert(books[k].id != id);
    }
    if i < k {
        assert(books[i].id != id);
    }
}

/// A lookup by id finds a book exactly when the list holds that id, and the
/// book it finds has that id.
pub proof fn lemma_find_iff_has(books: Seq<BookView>, id: Seq<char>)
    ensures
        find_by_id(books, id) is Some <==> has_id(books, id),
        find_by_id(books, id) matches Some(b) ==> b.id == id,
{
    if has_id(books, id) {
        lemma_first_exists(books, id);
        let i = choose|i: int| is_first_with_id(books, id, i);
        lemma_find_at(books, id, i);
    }
    if exists|i: int| is_first_with_id(books, id, i) {
        let i = choose|i: int| is_first_with_id(books, id, i);
        assert(books[i].id == id);
    }
}

/// What a lookup gives after an add: the added book under its own id (which
/// the list did not hold before), and for every other id what it gave before.
pub proof fn lemma_find_after_add(books: Seq<BookView>, book: BookView, id: Seq<char>)
    requires
        !has_id(books, book.id),
    ensures
        find_by_id(books.push(book), book.id) == Some(book),
        id != book.id ==> find_by_id(books.push(book), id) == find_by_id(books, id),
{
    let after = books.push(book);
    assert forall|j: int| 0 <= j < books.len() implies #[trigger] after[j].id != book.id by {
        assert(after[j] == books[j]);
        if books[j].id == book.id {
            assert(has_id(books, book.id));
        }
    }
    assert(is_first_with_id(after, book.id, books.len() as int));
    lemma_find_at(after, book.id, books.len() as int);
    if id != book.id {
        if has_id(books, id) {
            lemma_first_exists(books, id);
            let i = choose|i: int| is_first_with_id(books, id, i);
            assert(after[i] == books[i]);
            assert forall|j: int| 0 <= j < i implies #[trigger] after[j].id != id by {
                assert(after[j] == books[j]);
                assert(books[j].id != id);
            }
            assert(is_first_with_id(after, id, i));
            lemma_find_at(after, id, i);
            lemma_find_at(books, id, i);
        } else {
            lemma_find_iff_has(books, id);
            assert forall|j: int| 0 <= j < after.len() implies #[trigger] after[j].id != id by {
                if j < books.len() {
                    assert(after[j] == books[j]);
                    if books[j].id == id {
                        assert(has_id(books, id));
                    }
                }
            }
            lemma_find_iff_has(after, id);
        }
    }
}

/// Adding a book whose id the list does not hold keeps the ids unique, so
/// a list built by `add` alone never holds two books with one id.
pub proof fn lemma_add_keeps_ids_unique(books: Seq<BookView>, book: BookView)
    requires
        ids_unique(books),
        !has_id(books, book.id),
    ensures
        ids_unique(books.push(book)),
        has_id(books.push(book), book.id),
{
    let after = books.push(book);
    assert forall|i: int, j: int|
        0 <= i < after.len() && 0 <= j < after.len() && i != j implies #[trigger] after[i].id
        != #[trigger] after[j].id by {
        if i < books.len() && j < books.len() {
            assert(after[i] == books[i] && after[j] == books[j]);
        } else if i < books.len() {
            assert(after[i] == books[i]);
            if books[i].id == book.id {
                assert(has_id(books, book.id));
            }
        } else if j < books.len() {
            assert(after[j] == books[j]);
            if books[j].id == book.id {
                assert(has_id(books, book.id));
            }
        }
    }
    assert(after[books.len() as int].id == book.id);
}

/// The position of the first book with this id.
fn position_of(books: &Vec<Book>, id: &String) -> (r: Option<usize>)
    ensures
        match r {
            Some(i) => is_first_with_id(book_views(books@), id@, i as int),
            None => !has_id(book_views(books@), id@),
        },
{
    let ghost views = book_views(books@);
    let mut i: usize = 0;
    while i < books.len()
        invariant
            0 <= i <= books.len(),
            views == book_views(books@),
            forall|j: int| 0 <= j < i ==> #[trigger] views[j].id != id@,
        decreases books.len() - i,
    {
        if books[i].id == *id {
            assert(views[i as int].id == id@);
            return Some(i);
        }
        i += 1;
    }
    assert forall|j: int| 0 <= j < views.len() implies #[trigger] views[j].id != id@ by {}
    None
}

/// A copy of the first book with this id.
fn find_book(books: &Vec<Book>, id: &str) -> (r: Option<Book>)
    ensures
        option_view(r) == find_by_id(book_views(books@), id@),
{
    let key = id.to_owned();
    match position_of(books, &key) {
        Some(i) => {
            proof {
                lemma_find_at(book_views(books@), id@, i as int);
            }
            Some(books[i].clone())
        },
        None => {
            proof {
                lemma_find_iff_has(book_views(books@), id@);
            }
            None
        },
    }
}

/// A copy of every book, in order.
fn copy_books(books: &Vec<Book>) -> (r: Vec<Book>)
    ensures
        book_views(r@) == book_views(books@),
{
    let mut out: Vec<Book> = Vec::new();
    let mut i: usize = 0;
    while i < books.len()
        invariant
            0 <= i <= books.len(),
            out@.len() == i,
            forall|k: int| 0 <= k < i ==> #[trigger] out@[k]@ == books@[k]@,
        decreases books.len() - i,
    {
        let b = books[i].clone();
        out.push(b);
        i += 1;
    }
    assert(book_views(out@) =~= book_views(books@));
    out
}

/// Adds a book at the end unless one with its id is already there.
fn add_unique(books: &mut Vec<Book>, book: Book) -> (r: Result<(), BookError>)
    ensures
        has_id(book_views(old(books)@), book.id@) ==> {
            &&& r == Err::<(), BookError>(BookError::DuplicateId(book.id))
            &&& book_views(final(books)@) == book_views(old(books)@)
        },
        !has_id(book_views(old(books)@), book.id@) ==> {
            &&& r is Ok
            &&& book_views(final(books)@) == book_views(old(books)@).push(book@)
        },
{
    match position_of(books, &book.id) {
        Some(_) => Err(BookError::DuplicateId(book.id)),
        None => {
            books.push(book);
            proof {
                assert(book_views(books@) =~= book_views(old(books)@).push(book@));
            }
            Ok(())
        },
    }
}

/// Where books are kept. `books` is the stored list, in the order the books
/// were added; reading it changes nothing.
pub trait BookRepository {
    /// The stored books, in order.
    spec fn books(&self) -> Seq<BookView>;

    /// Every stored book, in order.
    fn all(&self) -> (r: Result<Vec<Book>, BookError>)
        ensures
            r matches Ok(list) ==> book_views(list@) == self.books(),
    ;

    /// The first stored book with this id, or `None`.
    fn get(&self, id: &str) -> (r: Result<Option<Book>, BookError>)
        ensures
            r matches Ok(found) ==> option_view(found) == find_by_id(self.books(), id@),
    ;

    /// Adds a book at the end; refuses a book whose id is already stored,
    /// and with no other error.
    fn add(&mut self, book: Book) -> (r: Result<(), BookError>)
        ensures
            has_id(old(self).books(), book.id@) ==> {
                &&& r == Err::<(), BookError>(BookError::DuplicateId(book.id))
                &&& final(self).books() == old(self).books()
            },
            !has_id(old(self).books(), book.id@) ==> r is Ok,
            r is Ok ==> {
                &&& !has_id(old(self).books(), book.id@)
                &&& final(self).books() == old(self).books().push(book@)
            },
    ;
}

/// A repository that keeps its books in memory only.
pub struct InMemoryRepository {
    books: Vec<Book>,
}

impl InMemoryRepository {
    /// An empty repository.
    pub fn new() -> (r: InMemoryRepository)
        ensures
            r.books() == Seq::<BookView>::empty(),
    {
        InMemoryRepository { books: Vec::new() }
    }
}

impl Default for InMemoryRepository {
    fn default() -> (r: InMemoryRepository)
        ensures
            r.books() == Seq::<BookView>::empty(),
    {
        InMemoryRepository::new()
    }
}

impl BookRepository for InMemoryRepository {
    closed spec fn books(&self) -> Seq<BookView> {
        book_views(self.books@)
    }

    fn all(&self) -> (r: Result<Vec<Book>, BookError>)
        ensures
            r is Ok,
    {
        Ok(copy_books(&self.books))
    }

    fn get(&self, id: &str) -> (r: Result<Option<Book>, BookError>)
        ensures
            r is Ok,
    {
        Ok(find_book(&self.books, id))
    }

    fn add(&mut self, book: Book) -> (r: Result<(), BookError>) {
        add_unique(&mut self.books, book)
    }
}

/// The repository of the JSON store file: the books read from the file at
/// `path`, which the program writes back after each change.
pub struct JsonRepository {
    path: String,
    books: Vec<Book>,
}

impl JsonRepository {
    /// The store at `path`, holding the books read from it.
    pub fn with_books(path: String, books: Vec<Book>) -> (r: JsonRepository)
        ensures
            r.location() == path@,
            r.books() == book_views(books@),
    {
        JsonRepository { path, books }
    }

    /// The path of the store file.
    pub closed spec fn location(&self) -> Seq<char> {
        self.path@
    }

    /// The path of the store file.
    pub fn path(&self) -> (r: &str)
        ensures
            r@ == self.location(),
    {
        self.path.as_str()
    }

    /// The books to write to the store file, in order.
    pub fn stored(&self) -> (r: &Vec<Book>)
        ensures
            book_views(r@) == self.books(),
    {
        &self.books
    }
}

impl BookRepository for JsonRepository {
    closed spec fn books(&self) -> Seq<BookView> {
        book_views(self.books@)
    }

    fn all(&self) -> (r: Result<Vec<Book>, BookError>)
        ensures
            r is Ok,
    {
        Ok(copy_books(&self.books))
    }

    fn get(&self, id: &str) -> (r: Result<Option<Book>, BookError>)
        ensures
            r is Ok,
    {
        Ok(find_book(&self.books, id))
    }

    fn add(&mut self, book: Book) -> (r: Result<(), BookError>)
        ensures
            final(self).location() == old(self).location(),
    {
        add_unique(&mut self.books, book)
    }
}

/// The text of the path that `std::path::Path::join` makes of `base` and
/// `segment` on the target the program is built for.
pub uninterp spec fn path_join(base: Seq<char>, segment: Seq<char>) -> Seq<char>;

/// Joins `segment` onto `base` with `std::path::Path::join` and gives the
/// result as text. Trusted: the result is `path_join` of the two texts; its
/// shape (where a separator goes, an absolute segment replacing the base) is
/// left to std and not stated. Both inputs are UTF-8, so the text conversion
/// loses nothing.
#[verifier::external_body]
fn join_path(base: &str, segment: &str) -> (r: String)
    ensures
        r@ == path_join(base@, segment@),
{
    std::path::Path::new(base).join(segment).to_string_lossy().into_owned()
}

/// Where the store file lives: the explicit location when one is given
/// (`BOOKCLI_STORE`), else `bookcli/books.json` under the configuration
/// directory; with neither, there is no store location.
pub fn store_path(env: Option<String>, config_dir: Option<String>) -> (r: Result<String, BookError>)
    ensures
        env matches Some(e) ==> r == Ok::<String, BookError>(e),
        env is None ==> (config_dir matches Some(c) ==> (r matches Ok(p) && p@ == path_join(
            path_join(c@, "bookcli"@),
            "books.json"@,
        ))),
        env is None && config_dir is None ==> r matches Err(BookError::NoConfigDir),
{
    match env {
        Some(explicit) => Ok(explicit),
        None => match config_dir {
            Some(dir) => {
                let app_dir = join_path(dir.as_str(), "bookcli");
                Ok(join_path(app_dir.as_str(), "books.json"))
            },
            None => Err(BookError::NoConfigDir),
        },
    }
}

} // verus!
