use backend::book::{BookRating, RawBook};
use backend::context::{activate_context, ContextProvider, LoadedContext};
use backend::lock::OptionRwProvider;
use backend::book_org::{arc_wrap, parse_raw, AgeGroup, Author, RawAuthor};
use backend::io::{split_for_update_insert, Book, DatabaseRepr, DbBook, DbGroup};

#[test]
fn ratings_and_their_stars() {
    let all = [
        (BookRating::One, 1, "One star"),
        (BookRating::Two, 2, "Two stars"),
        (BookRating::Three, 3, "Three stars"),
        (BookRating::Four, 4, "Four stars"),
        (BookRating::Five, 5, "Five stars"),
    ];
    for (rating, stars, words) in all {
        assert_eq!(rating.number(), stars);
        assert_eq!(i8::from(rating), stars);
        assert_eq!(BookRating::from_number(stars), Some(rating));
        assert_eq!(BookRating::try_from(stars), Ok(rating));
        assert_eq!(rating.to_string(), words);
    }
    for stars in [i8::MIN, -1, 0, 6, i8::MAX] {
        assert_eq!(BookRating::from_number(stars), None);
        assert_eq!(BookRating::try_from(stars), Err(()));
    }
}

#[test]
fn age_group_names() {
    assert_eq!(AgeGroup::Child.to_string(), "Child");
    assert_eq!(AgeGroup::Teenager.to_string(), "Teenager");
    assert_eq!(AgeGroup::YoungAdult.to_string(), "Young Adult");
    assert_eq!(AgeGroup::Adult.to_string(), "Adult");
}

fn raw_author(id: u32, rating: i8) -> RawAuthor {
    RawAuthor {
        id,
        first_name: format!("first{id}"),
        last_name: format!("last{id}"),
        rating,
        comment: String::new(),
    }
}

#[test]
fn authors_to_the_database_and_back() {
    let author = Author::try_from(raw_author(3, 4)).unwrap();
    assert_eq!(author.id, 3);
    assert_eq!(author.first_name, "first3");
    assert_eq!(author.last_name, "last3");
    assert_eq!(author.rating, BookRating::Four);
    let raw = RawAuthor::from(author);
    assert_eq!(raw.rating, 4);
    assert_eq!(raw.id, 3);
    assert_eq!(raw.first_name, "first3");
    assert!(Author::try_from(raw_author(1, 0)).is_err());
    assert!(Author::from_raw(raw_author(1, 6)).is_none());
}

#[test]
fn parse_raw_sorts_values_and_errors() {
    let (authors, errors): (Vec<Author>, Vec<()>) =
        parse_raw(vec![raw_author(1, 1), raw_author(2, 9), raw_author(3, 5), raw_author(4, -1)]);
    assert_eq!(authors.iter().map(|a| a.id).collect::<Vec<_>>(), vec![1, 3]);
    assert_eq!(errors.len(), 2);

    let (small, errors): (Vec<u8>, Vec<_>) = parse_raw(vec![1u32, 300, 255, 256, 0]);
    assert_eq!(small, vec![1, 255, 0]);
    assert_eq!(errors.len(), 2);

    let (none, errors): (Vec<u8>, Vec<_>) = parse_raw(Vec::<u32>::new());
    assert!(none.is_empty() && errors.is_empty());
}

#[test]
fn arc_wrap_keeps_the_order() {
    let shared = arc_wrap(vec!["a".to_string(), "b".to_string(), "c".to_string()]);
    assert_eq!(shared.iter().map(|s| s.as_str()).collect::<Vec<_>>(), vec!["a", "b", "c"]);
    assert!(arc_wrap(Vec::<u8>::new()).is_empty());
}

#[test]
fn raw_book_by_reference() {
    let book = RawBook::new(7, "Title".into(), "About".into(), 3, true);
    let borrowed = book.as_ref();
    let copy = borrowed.to_owned();
    assert_eq!(format!("{:?}", copy), format!("{:?}", book));
    assert!(format!("{:?}", borrowed).contains("\"Title\""));
}

#[test]
fn rows_are_split_into_new_and_old() {
    let rows = vec![
        DbGroup::from_row(1, "a".into(), "".into()),
        DbGroup::new(2, "b".into(), "".into()),
        DbGroup::new(3, "c".into(), "".into()),
        DbGroup::from_row(4, "d".into(), "".into()),
        DbGroup::new(5, "e".into(), "".into()),
    ];
    assert!(!rows[0].is_new());
    assert!(rows[1].is_new());
    let (insert, update) = split_for_update_insert(&rows);
    assert_eq!(insert.iter().map(|row| row.id).collect::<Vec<_>>(), vec![2, 3, 5]);
    assert_eq!(update.iter().map(|row| row.id).collect::<Vec<_>>(), vec![1, 4]);
    let none: Vec<DbGroup> = Vec::new();
    let (insert, update) = split_for_update_insert(&none);
    assert!(insert.is_empty() && update.is_empty());
}

#[test]
fn book_of_a_row() {
    let row = DbBook::from_row(9, 1, "T".into(), "D".into(), 4, true, Some(2), 3);
    assert!(!row.is_new());
    let book = Book::from(row);
    assert_eq!(book.id, 9);
    assert_eq!(book.title, "T");
    assert_eq!(book.description, "D");
    assert_eq!(book.rating, 4);
    assert!(book.is_favorite);
    assert!(book.author.is_none());
    let plain = Book::new(1, "t".into(), "d".into(), 2, false);
    assert!(plain.author.is_none());
    assert_eq!(plain.rating, 2);
}

#[test]
fn user_row_to_raw_user() {
    let row = backend::io::DbUser::from_row("u".into(), "f".into(), "l".into(), "p".into());
    assert!(!row.is_new());
    let raw = row.into_raw();
    assert_eq!(raw, backend::usr::RawUser::new("u".into(), "f".into(), "l".into(), "p".into()));
}

fn loaded() -> LoadedContext {
    let hash = "$2y$12$L6Bc/AlTQHyd9liGgGEZyOFLPHNgyxeEPfgYfBCVxJ7JIlwxyVU3u";
    LoadedContext {
        books: vec![
            DbBook::from_row(1, 1, "first".into(), "".into(), 3, false, None, 20),
            DbBook::from_row(2, 1, "second".into(), "".into(), 4, true, Some(1), 99),
            DbBook::from_row(3, 2, "third".into(), "".into(), 5, false, None, 10),
        ],
        groups: vec![DbGroup::from_row(1, "g1".into(), "".into()), DbGroup::from_row(2, "g2".into(), "".into())],
        users: vec![
            backend::io::DbUser::from_row("ann".into(), "A".into(), "N".into(), hash.into()),
            backend::io::DbUser::from_row("bad".into(), "B".into(), "D".into(), "no hash".into()),
            backend::io::DbUser::from_row("cy".into(), "C".into(), "Y".into(), hash.into()),
        ],
        genres: vec![backend::io::Genre::from_row(1, "crime".into(), "".into(), 3)],
        authors: vec![
            backend::io::Author::from_row(10, "ten".into(), "a".into(), 5, "".into()),
            backend::io::Author::from_row(20, "twenty".into(), "b".into(), 4, "".into()),
            backend::io::Author::from_row(20, "twenty again".into(), "c".into(), 3, "".into()),
        ],
    }
}

#[test]
fn context_binds_books_to_their_authors() {
    let active = activate_context(loaded());
    let titles: Vec<&str> = active.books.iter().map(|book| book.title.as_str()).collect();
    assert_eq!(titles, vec!["first", "second", "third"]);
    assert_eq!(active.books[0].author.as_ref().unwrap().first_name, "twenty");
    assert!(active.books[1].author.is_none());
    assert_eq!(active.books[2].author.as_ref().unwrap().first_name, "ten");
    assert_eq!(active.books[1].rating, 4);
    assert!(active.books[1].is_favorite);
    assert_eq!(active.authors.len(), 3);
    assert_eq!(active.authors[2].first_name, "twenty again");
    assert_eq!(active.groups.iter().map(|g| g.id).collect::<Vec<_>>(), vec![1, 2]);
    assert_eq!(active.genres[0].name, "crime");
}

#[test]
fn context_leaves_out_users_without_a_hash() {
    let active = activate_context(loaded());
    let names: Vec<&str> = active.users.iter().map(|user| user.username().as_str()).collect();
    assert_eq!(names, vec!["ann", "cy"]);
    assert_eq!(active.users[1].get_names(), ("C", "Y"));
}

#[test]
fn context_provider_holds_the_context() {
    let provider = ContextProvider::default();
    assert!(!provider.is_open());
    provider.pass(activate_context(loaded()));
    assert!(provider.is_open());
    assert_eq!(provider.access().access().unwrap().books.len(), 3);
    provider.reset();
    assert!(!provider.is_open());
}
