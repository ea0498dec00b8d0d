use bookcli::cli::{add_fetched, report_search, run_add, run_search};
use bookcli::error::BookError;
use bookcli::model::{Book, SearchHit, Status, StatusArg};
use bookcli::repository::{BookRepository, InMemoryRepository};
use bookcli::search::BookSearch;
use chrono::NaiveDate;

struct FakeSearch {
    hits: Vec<SearchHit>,
}

impl BookSearch for FakeSearch {
    fn search(&self, _query: &str) -> Result<Vec<SearchHit>, BookError> {
        Ok(self.hits.clone())
    }

    fn fetch(&self, id: &str) -> Result<Book, BookError> {
        Ok(Book {
            id: id.to_string(),
            title: "Fetched Title".to_string(),
            authors: vec![],
            status: Status::ToRead,
            started: None,
            completed: None,
            pages: None,
        })
    }
}

struct DownSearch;

impl BookSearch for DownSearch {
    fn search(&self, _query: &str) -> Result<Vec<SearchHit>, BookError> {
        Err(BookError::NoConfigDir)
    }

    fn fetch(&self, _id: &str) -> Result<Book, BookError> {
        Err(BookError::NoConfigDir)
    }
}

fn hit(id: &str, title: &str) -> SearchHit {
    SearchHit {
        id: id.to_string(),
        title: title.to_string(),
    }
}

#[test]
fn test_search_command_prints_id_and_title() {
    let search = FakeSearch {
        hits: vec![SearchHit {
            id: "s5VfEAAAQBAJ".to_string(),
            title: "The Pragmatic Programmer".to_string(),
        }],
    };

    let mut out = String::new();
    run_search(&search, "pragmatic", &mut out).unwrap();

    let printed = out;
    assert!(printed.contains("s5VfEAAAQBAJ"));
    assert!(printed.contains("The Pragmatic Programmer"));
}

#[test]
fn test_add_sets_started_when_reading() {
    let mut repo = InMemoryRepository::new();
    let search = FakeSearch { hits: vec![] };
    let today = NaiveDate::from_ymd_opt(2026, 6, 6).unwrap();
    let mut out = String::new();

    run_add(
        &mut repo,
        &search,
        "abc",
        Status::Reading,
        None,
        today,
        &mut out,
    )
    .unwrap();

    let book = repo.get("abc").unwrap().unwrap();
    assert_eq!(book.status, Status::Reading);
    assert_eq!(book.started, Some(today));
}

#[test]
fn test_add_read_sets_completed() {
    let mut repo = InMemoryRepository::new();
    let search = FakeSearch { hits: vec![] };
    let today = NaiveDate::from_ymd_opt(2026, 6, 6).unwrap();
    let mut out = String::new();

    run_add(
        &mut repo,
        &search,
        "abc",
        Status::Read,
        None,
        today,
        &mut out,
    )
    .unwrap();

    let book = repo.get("abc").unwrap().unwrap();
    assert_eq!(book.status, Status::Read);
    assert_eq!(book.completed, Some(today));
    assert_eq!(book.started, None);
}

#[test]
fn search_output_is_one_tab_separated_line_per_hit_in_order() {
    let search = FakeSearch {
        hits: vec![
            hit("s5VfEAAAQBAJ", "The Pragmatic Programmer"),
            hit("hjEFCAAAQBAJ", "Clean Code"),
        ],
    };
    let mut out = String::from("before\n");
    run_search(&search, "code", &mut out).unwrap();
    assert_eq!(
        out,
        "before\ns5VfEAAAQBAJ\tThe Pragmatic Programmer\nhjEFCAAAQBAJ\tClean Code\n"
    );
}

#[test]
fn search_without_hits_says_no_results_for_the_query() {
    let search = FakeSearch { hits: vec![] };
    let mut out = String::new();
    run_search(&search, "nothing here", &mut out).unwrap();
    assert_eq!(out, "No results for \"nothing here\"\n");
}

#[test]
fn search_error_is_returned_and_nothing_printed() {
    let mut out = String::new();
    let err = run_search(&DownSearch, "rust", &mut out).unwrap_err();
    assert!(matches!(err, BookError::NoConfigDir));
    assert_eq!(out, "");
}

#[test]
fn report_search_lists_given_hits() {
    let mut out = String::new();
    report_search(Ok(vec![hit("a", "A"), hit("b", "B")]), "q", &mut out).unwrap();
    assert_eq!(out, "a\tA\nb\tB\n");
    let mut out = String::new();
    let err = report_search(Err(BookError::DuplicateId("x".to_string())), "q", &mut out);
    assert!(matches!(err, Err(BookError::DuplicateId(ref id)) if id == "x"));
    assert_eq!(out, "");
}

#[test]
fn add_prints_added_line() {
    let mut repo = InMemoryRepository::new();
    let today = NaiveDate::from_ymd_opt(2026, 6, 6).unwrap();
    let mut out = String::new();
    run_add(
        &mut repo,
        &FakeSearch { hits: vec![] },
        "abc",
        Status::ToRead,
        None,
        today,
        &mut out,
    )
    .unwrap();
    assert_eq!(out, "Added abc\n");
}

#[test]
fn add_reading_keeps_given_start_date() {
    let mut repo = InMemoryRepository::new();
    let today = NaiveDate::from_ymd_opt(2026, 6, 6).unwrap();
    let given = NaiveDate::from_ymd_opt(2026, 1, 10).unwrap();
    let mut out = String::new();
    run_add(
        &mut repo,
        &FakeSearch { hits: vec![] },
        "abc",
        Status::Reading,
        Some(given),
        today,
        &mut out,
    )
    .unwrap();
    let book = repo.get("abc").unwrap().unwrap();
    assert_eq!(book.started, Some(given));
    assert_eq!(book.completed, None);
}

#[test]
fn add_read_keeps_given_start_date_and_completes_today() {
    let mut repo = InMemoryRepository::new();
    let today = NaiveDate::from_ymd_opt(2026, 6, 6).unwrap();
    let given = NaiveDate::from_ymd_opt(2026, 1, 10).unwrap();
    let mut out = String::new();
    run_add(
        &mut repo,
        &FakeSearch { hits: vec![] },
        "abc",
        Status::Read,
        Some(given),
        today,
        &mut out,
    )
    .unwrap();
    let book = repo.get("abc").unwrap().unwrap();
    assert_eq!(book.started, Some(given));
    assert_eq!(book.completed, Some(today));
}

#[test]
fn add_to_read_drops_dates() {
    let mut repo = InMemoryRepository::new();
    let today = NaiveDate::from_ymd_opt(2026, 6, 6).unwrap();
    let given = NaiveDate::from_ymd_opt(2026, 1, 10).unwrap();
    let mut out = String::new();
    run_add(
        &mut repo,
        &FakeSearch { hits: vec![] },
        "abc",
        Status::ToRead,
        Some(given),
        today,
        &mut out,
    )
    .unwrap();
    let book = repo.get("abc").unwrap().unwrap();
    assert_eq!(book.status, Status::ToRead);
    assert_eq!(book.started, None);
    assert_eq!(book.completed, None);
    assert_eq!(book.title, "Fetched Title");
}

#[test]
fn add_twice_is_refused_and_prints_nothing_more() {
    let mut repo = InMemoryRepository::new();
    let today = NaiveDate::from_ymd_opt(2026, 6, 6).unwrap();
    let search = FakeSearch { hits: vec![] };
    let mut out = String::new();
    run_add(&mut repo, &search, "abc", Status::Reading, None, today, &mut out).unwrap();
    let err = run_add(&mut repo, &search, "abc", Status::Read, None, today, &mut out).unwrap_err();
    assert!(matches!(err, BookError::DuplicateId(ref id) if id == "abc"));
    assert_eq!(out, "Added abc\n");
    let books = repo.all().unwrap();
    assert_eq!(books.len(), 1);
    assert_eq!(books[0].status, Status::Reading);
}

#[test]
fn add_fetch_error_is_returned_and_repository_untouched() {
    let mut repo = InMemoryRepository::new();
    let today = NaiveDate::from_ymd_opt(2026, 6, 6).unwrap();
    let mut out = String::new();
    let err = run_add(&mut repo, &DownSearch, "abc", Status::Read, None, today, &mut out).unwrap_err();
    assert!(matches!(err, BookError::NoConfigDir));
    assert!(repo.all().unwrap().is_empty());
    assert_eq!(out, "");
}

#[test]
fn add_fetched_stamps_the_fetched_book() {
    let mut repo = InMemoryRepository::new();
    let today = NaiveDate::from_ymd_opt(2026, 6, 6).unwrap();
    let fetched = Book {
        id: "vol".to_string(),
        title: "Title".to_string(),
        authors: vec!["Author".to_string()],
        status: Status::Read,
        started: Some(NaiveDate::from_ymd_opt(2020, 1, 1).unwrap()),
        completed: Some(NaiveDate::from_ymd_opt(2020, 2, 2).unwrap()),
        pages: Some(211),
    };
    let mut out = String::new();
    add_fetched(&mut repo, Ok(fetched), "asked", Status::Reading, None, today, &mut out).unwrap();
    let book = repo.get("vol").unwrap().unwrap();
    assert_eq!(book.authors, vec!["Author".to_string()]);
    assert_eq!(book.pages, Some(211));
    assert_eq!(book.status, Status::Reading);
    assert_eq!(book.started, Some(today));
    assert_eq!(book.completed, None);
    assert_eq!(out, "Added asked\n");
}

#[test]
fn status_arg_converts_to_the_same_status() {
    assert_eq!(Status::from(StatusArg::Read), Status::Read);
    assert_eq!(Status::from(StatusArg::Reading), Status::Reading);
    assert_eq!(Status::from(StatusArg::ToRead), Status::ToRead);
}
