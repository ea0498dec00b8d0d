use vstd::prelude::*;

use chrono::NaiveDate;

use crate::error::BookError;
use crate::model::{Book, BookView, SearchHit, SearchHitView, Status};
use crate::repository::{has_id, BookRepository};
use crate::search::BookSearch;

verus! {

/// Search results, each taken by its view.
pub open spec fn hit_views(hits: Seq<SearchHit>) -> Seq<SearchHitView> {
    hits.map_values(|h: SearchHit| h@)
}

/// The output line of one search result: id, a tab, the title.
pub open spec fn hit_line(hit: SearchHitView) -> Seq<char> {
    hit.id + "\t"@ + hit.title + "\n"@
}

/// The output lines of the search results, in order.
pub open spec fn hit_lines(hits: Seq<SearchHitView>) -> Seq<char>
    decreases hits.len(),
{
    if hits.len() == 0 {
        Seq::empty()
    } else {
        hit_lines(hits.drop_last()) + hit_line(hits.last())
    }
}

/// The line printed when a search finds nothing.
pub open spec fn no_results_line(query: Seq<char>) -> Seq<char> {
    "No results for \""@ + query + "\"\n"@
}

/// What the search command prints for these results of `query`.
pub open spec fn search_listing(hits: Seq<SearchHitView>, query: Seq<char>) -> Seq<char> {
    if hits.len() == 0 {
        no_results_line(query)
    } else {
        hit_lines(hits)
    }
}

/// The line printed once a book has been added.
pub open spec fn added_line(id: Seq<char>) -> Seq<char> {
    "Added "@ + id + "\n"@
}

/// The `started` date that a status gives a book: today (or the given date)
/// when reading, the given date if any when read, none when still to read.
pub open spec fn started_for(status: Status, started: Option<NaiveDate>, today: NaiveDate) -> Option<NaiveDate> {
    match status {
        Status::Reading => match started {
            Some(d) => Some(d),
            None => Some(today),
        },
        Status::Read => started,
        Status::ToRead => None,
    }
}

/// The `completed` date that a status gives a book: today when read.
pub open spec fn completed_for(status: Status, today: NaiveDate) -> Option<NaiveDate> {
    match status {
        Status::Read => Some(today),
        _ => None,
    }
}

/// A fetched book with the chosen status and the dates that go with it.
pub open spec fn stamped(book: BookView, status: Status, started: Option<NaiveDate>, today: NaiveDate) -> BookView {
    BookView {
        id: book.id,
        title: book.title,
        authors: book.authors,
        status,
        started: started_for(status, started, today),
        completed: completed_for(status, today),
        pages: book.pages,
    }
}

/// The confirmation of an add is "Added ", then the whole requested id
/// character for character, then a newline; so different ids give
/// different lines.
pub proof fn lemma_added_line_echoes_id(id: Seq<char>, other: Seq<char>)
    ensures
        added_line(id).len() == id.len() + 7,
        added_line(id).subrange(0, 6) == "Added "@,
        added_line(id).subrange(6, id.len() as int + 6) == id,
        added_line(id)[id.len() as int + 6] == '\n',
        added_line(id) == added_line(other) ==> id == other,
{
    reveal_strlit("Added ");
    reveal_strlit("\n");
    let line = added_line(id);
    assert(line.subrange(0, 6) =~= "Added "@);
    assert(line.subrange(6, id.len() as int + 6) =~= id);
    if added_line(id) == added_line(other) {
        assert(added_line(other).len() == other.len() + 7);
        assert(added_line(other).subrange(6, other.len() as int + 6) =~= other);
    }
}

/// A search without results prints one line naming the query in quotes.
pub proof fn lemma_listing_empty(query: Seq<char>)
    ensures
        search_listing(Seq::empty(), query) == "No results for \""@ + query + "\"\n"@,
{
}

/// A single result prints its id, a tab, its title and a newline: id first.
pub proof fn lemma_listing_one(hit: SearchHitView, query: Seq<char>)
    ensures
        search_listing(seq![hit], query) == hit.id + "\t"@ + hit.title + "\n"@,
{
    let one = seq![hit];
    assert(one.drop_last() =~= Seq::<SearchHitView>::empty());
    assert(one.last() == hit);
    assert(hit_lines(one.drop_last()) == Seq::<char>::empty());
    assert(hit_lines(one) =~= hit.id + "\t"@ + hit.title + "\n"@);
}

/// One more result adds exactly one more line, after all the earlier ones:
/// its id, a tab, its title and a newline. So every result is printed, in
/// order, however many there are.
pub proof fn lemma_listing_push(hits: Seq<SearchHitView>, hit: SearchHitView, query: Seq<char>)
    requires
        hits.len() > 0,
    ensures
        search_listing(hits.push(hit), query) == search_listing(hits, query) + hit.id + "\t"@
            + hit.title + "\n"@,
{
    let more = hits.push(hit);
    assert(more.drop_last() =~= hits);
    assert(more.last() == hit);
    assert(search_listing(more, query) =~= search_listing(hits, query) + hit.id + "\t"@ + hit.title
        + "\n"@);
}

/// The date rules of the add command: a book being read always has a start
/// date (the given one when there is one), a book read is completed today and
/// keeps only a given start date, a book still to read has no dates; the
/// fetched metadata is kept.
pub proof fn lemma_stamped_dates(book: BookView, status: Status, started: Option<NaiveDate>, today: NaiveDate)
    ensures
        ({
            let b = stamped(book, status, started, today);
            &&& b.id == book.id && b.title == book.title && b.authors == book.authors
            &&& b.pages == book.pages && b.status == status
            &&& status == Status::Reading ==> b.started is Some && b.completed is None
            &&& status == Status::Reading && started is Some ==> b.started == started
            &&& status == Status::Reading && started is None ==> b.started == Some(today)
            &&& status == Status::Read ==> b.started == started && b.completed == Some(today)
            &&& status == Status::ToRead ==> b.started is None && b.completed is None
        }),
{
}

/// Prints what a search found: one `id<TAB>title` line per result, or a
/// "No results" line naming the query when there is none.
pub fn report_search(found: Result<Vec<SearchHit>, BookError>, query: &str, out: &mut String) -> (r: Result<(), BookError>)
    ensures
        found matches Err(e) ==> r == Err::<(), BookError>(e) && final(out)@ == old(out)@,
        found matches Ok(hits) ==> r is Ok && final(out)@ == old(out)@ + search_listing(
            hit_views(hits@),
            query@,
        ),
{
    let hits = match found {
        Ok(hits) => hits,
        Err(e) => return Err(e),
    };
    let ghost views = hit_views(hits@);
    if hits.len() == 0 {
        out.append("No results for \"");
        out.append(query);
        out.append("\"\n");
        return Ok(());
    }
    let ghost start = out@;
    let mut i: usize = 0;
    while i < hits.len()
        invariant
            0 <= i <= hits.len(),
            views == hit_views(hits@),
            out@ == start + hit_lines(views.take(i as int)),
        decreases hits.len() - i,
    {
        out.append(hits[i].id.as_str());
        out.append("\t");
        out.append(hits[i].title.as_str());
        out.append("\n");
        proof {
            assert(views.take(i + 1).drop_last() =~= views.take(i as int));
            assert(views.take(i + 1).last() == views[i as int]);
        }
        i += 1;
    }
    assert(views.take(hits.len() as int) =~= views);
    Ok(())
}

/// `found` is what `search` answers when asked for `query`.
pub open spec fn search_answered<S: BookSearch>(search: &S, query: &str, found: Result<Vec<SearchHit>, BookError>) -> bool {
    call_ensures(S::search, (search, query), found)
}

/// `fetched` is what `search` answers when asked for volume `id`.
pub open spec fn fetch_answered<S: BookSearch>(search: &S, id: &str, fetched: Result<Book, BookError>) -> bool {
    call_ensures(S::fetch, (search, id), fetched)
}

/// The search command: asks `search` for `query` and prints what it found.
/// It fails exactly when the search does, with the search's error.
pub fn run_search<S: BookSearch>(search: &S, query: &str, out: &mut String) -> (r: Result<(), BookError>)
    ensures
        r matches Err(e) ==> search_answered(search, query, Err(e)) && final(out)@ == old(out)@,
        r is Ok ==> exists|hits: Vec<SearchHit>|
            {
                &&& #[trigger] search_answered(search, query, Ok(hits))
                &&& final(out)@ == old(out)@ + search_listing(hit_views(hits@), query@)
            },
{
    let found = search.search(query);
    let ghost answer = found;
    let r = report_search(found, query, out);
    proof {
        assert(search_answered(search, query, answer));
        if r is Ok {
            let hits = answer->Ok_0;
            assert(search_answered(search, query, Ok(hits)));
        }
    }
    r
}

/// Files a fetched book under `status`, stamps the dates that go with it,
/// adds it to the repository and confirms with an "Added" line.
pub fn add_fetched<R: BookRepository>(
    repo: &mut R,
    fetched: Result<Book, BookError>,
    id: &str,
    status: Status,
    started: Option<NaiveDate>,
    today: NaiveDate,
    out: &mut String,
) -> (r: Result<(), BookError>)
    ensures
        fetched matches Err(e) ==> {
            &&& r == Err::<(), BookError>(e)
            &&& *final(repo) == *old(repo)
            &&& final(out)@ == old(out)@
        },
        fetched matches Ok(book) ==> {
            &&& has_id(old(repo).books(), book.id@) ==> {
                &&& r == Err::<(), BookError>(BookError::DuplicateId(book.id))
                &&& final(repo).books() == old(repo).books()
            }
            &&& !has_id(old(repo).books(), book.id@) ==> {
                &&& r is Ok
                &&& final(repo).books() == old(repo).books().push(
                    stamped(book@, status, started, today),
                )
                &&& final(out)@ == old(out)@ + added_line(id@)
            }
        },
        r is Err ==> final(out)@ == old(out)@,
{
    let mut book = match fetched {
        Ok(book) => book,
        Err(e) => return Err(e),
    };
    book.status = status;
    book.started = match status {
        Status::Reading => match started {
            Some(d) => Some(d),
            None => Some(today),
        },
        Status::Read => started,
        Status::ToRead => None,
    };
    book.completed = match status {
        Status::Read => Some(today),
        _ => None,
    };
    repo.add(book)?;
    out.append("Added ");
    out.append(id);
    out.append("\n");
    Ok(())
}

/// The add command: fetches volume `id` from `search`, files it under
/// `status` with its dates, adds it to `repo` and prints "Added <id>".
/// A failed fetch is returned as it is and changes nothing; a fetched book
/// whose id is already stored is refused with `DuplicateId`; any other fetched
/// book is stored and the command succeeds.
pub fn run_add<R: BookRepository, S: BookSearch>(
    repo: &mut R,
    search: &S,
    id: &str,
    status: Status,
    started: Option<NaiveDate>,
    today: NaiveDate,
    out: &mut String,
) -> (r: Result<(), BookError>)
    ensures
        r is Ok ==> exists|book: Book|
            {
                &&& #[trigger] fetch_answered(search, id, Ok(book))
                &&& !has_id(old(repo).books(), book.id@)
                &&& final(repo).books() == old(repo).books().push(
                    stamped(book@, status, started, today),
                )
            },
        r is Ok ==> final(out)@ == old(out)@ + added_line(id@),
        r matches Err(e) ==> {
            &&& final(out)@ == old(out)@
            &&& {
                ||| fetch_answered(search, id, Err(e)) && *final(repo) == *old(repo)
                ||| exists|book: Book|
                    {
                        &&& #[trigger] fetch_answered(search, id, Ok(book))
                        &&& has_id(old(repo).books(), book.id@)
                        &&& e == BookError::DuplicateId(book.id)
                        &&& final(repo).books() == old(repo).books()
                    }
            }
        },
{
    let fetched = search.fetch(id);
    let ghost answer = fetched;
    let r = add_fetched(repo, fetched, id, status, started, today, out);
    proof {
        assert(fetch_answered(search, id, answer));
        if answer is Ok {
            let book = answer->Ok_0;
            assert(fetch_answered(search, id, Ok(book)));
        }
    }
    r
}

} // verus!
