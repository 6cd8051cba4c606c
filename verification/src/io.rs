//! Rows of the database as plain values, and which of them are new.

use vstd::prelude::*;
use std::sync::Arc;
use crate::usr::RawUser;

verus! {

/// A value that stands for a row of a table.
pub trait DatabaseRepr: Sized {
    /// Whether the row is not in the table yet.
    spec fn fresh(&self) -> bool;

    /// Whether the row is not in the table yet.
    fn is_new(&self) -> (new: bool)
        ensures
            new == self.fresh(),
    ;
}

/// A group of books, as a row.
#[derive(Clone, Debug, Hash)]
pub struct DbGroup {
    pub id: i32,
    pub name: String,
    pub desc: String,
    pub is_new: bool,
}

impl DbGroup {
    /// The row as it was read from the table: it is not new.
    pub fn from_row(id: i32, name: String, desc: String) -> (row: Self)
        ensures
            row.id == id,
            row.name@ == name@,
            row.desc@ == desc@,
            !row.fresh(),
    {
        DbGroup { id, name, desc, is_new: false }
    }

    /// A row that is not in the table yet.
    pub fn new(id: i32, name: String, desc: String) -> (row: Self)
        ensures
            row.id == id,
            row.name@ == name@,
            row.desc@ == desc@,
            row.fresh(),
    {
        DbGroup { id, name, desc, is_new: true }
    }
}

impl DatabaseRepr for DbGroup {
    open spec fn fresh(&self) -> bool {
        self.is_new
    }

    fn is_new(&self) -> (new: bool) {
        self.is_new
    }
}

/// A genre, as a row.
#[derive(Clone, Debug, Hash)]
pub struct Genre {
    pub id: i32,
    pub name: String,
    pub desc: String,
    pub age_group: i8,
    pub is_new: bool,
}

impl Genre {
    /// The row as it was read from the table: it is not new.
    pub fn from_row(id: i32, name: String, desc: String, age_group: i8) -> (row: Self)
        ensures
            row.id == id,
            row.name@ == name@,
            row.desc@ == desc@,
            row.age_group == age_group,
            !row.fresh(),
    {
        Genre { id, name, desc, age_group, is_new: false }
    }

    /// A row that is not in the table yet.
    pub fn new(id: i32, name: String, desc: String, age_group: i8) -> (row: Self)
        ensures
            row.id == id,
            row.name@ == name@,
            row.desc@ == desc@,
            row.age_group == age_group,
            row.fresh(),
    {
        Genre { id, name, desc, age_group, is_new: true }
    }
}

impl DatabaseRepr for Genre {
    open spec fn fresh(&self) -> bool {
        self.is_new
    }

    fn is_new(&self) -> (new: bool) {
        self.is_new
    }
}

/// An author, as a row.
#[derive(Clone, Debug, Hash)]
pub struct Author {
    pub id: i32,
    pub first_name: String,
    pub last_name: String,
    pub rating: i8,
    pub comment: String,
    pub is_new: bool,
}

impl Author {
    /// The row as it was read from the table: it is not new.
    pub fn from_row(
        id: i32,
        first_name: String,
        last_name: String,
        rating: i8,
        comment: String,
    ) -> (row: Self)
        ensures
            row.id == id,
            row.first_name@ == first_name@,
            row.last_name@ == last_name@,
            row.rating == rating,
            row.comment@ == comment@,
            !row.fresh(),
    {
        Author { id, first_name, last_name, rating, comment, is_new: false }
    }

    /// A row that is not in the table yet.
    pub fn new(
        id: i32,
        first_name: String,
        last_name: String,
        rating: i8,
        comment: String,
    ) -> (row: Self)
        ensures
            row.id == id,
            row.first_name@ == first_name@,
            row.last_name@ == last_name@,
            row.rating == rating,
            row.comment@ == comment@,
            row.fresh(),
    {
        Author { id, first_name, last_name, rating, comment, is_new: true }
    }
}

impl DatabaseRepr for Author {
    open spec fn fresh(&self) -> bool {
        self.is_new
    }

    fn is_new(&self) -> (new: bool) {
        self.is_new
    }
}

/// A user, as a row: the password is the text of its bcrypt hash.
#[derive(Clone, Debug, Hash)]
pub struct DbUser {
    pub username: String,
    pub first_name: String,
    pub last_name: String,
    pub password: String,
    pub is_new: bool,
}

impl DbUser {
    /// The row as it was read from the table: it is not new.
    pub fn from_row(
        username: String,
        first_name: String,
        last_name: String,
        password: String,
    ) -> (row: Self)
        ensures
            row.username@ == username@,
            row.first_name@ == first_name@,
            row.last_name@ == last_name@,
            row.password@ == password@,
            !row.fresh(),
    {
        DbUser { username, first_name, last_name, password, is_new: false }
    }

    /// The user of this row, as four texts.
    pub fn into_raw(self) -> (raw: RawUser)
        ensures
            raw.username@ == self.username@,
            raw.first_name@ == self.first_name@,
            raw.last_name@ == self.last_name@,
            raw.password@ == self.password@,
    {
        RawUser::new(self.username, self.first_name, self.last_name, self.password)
    }
}

impl DatabaseRepr for DbUser {
    open spec fn fresh(&self) -> bool {
        self.is_new
    }

    fn is_new(&self) -> (new: bool) {
        self.is_new
    }
}

/// A book, as a row: its group, genre and author are the keys of their rows.
#[derive(Clone, Debug)]
pub struct DbBook {
    pub id: i32,
    pub group: i32,
    pub title: String,
    pub desc: String,
    pub rating: i16,
    pub is_favorite: bool,
    pub genre: Option<i32>,
    pub author: i32,
    pub is_new: bool,
}

impl DbBook {
    /// The row as it was read from the table: it is not new.
    pub fn from_row(
        id: i32,
        group: i32,
        title: String,
        desc: String,
        rating: i16,
        is_favorite: bool,
        genre: Option<i32>,
        author: i32,
    ) -> (row: Self)
        ensures
            row.id == id,
            row.group == group,
            row.title@ == title@,
            row.desc@ == desc@,
            row.rating == rating,
            row.is_favorite == is_favorite,
            row.genre == genre,
            row.author == author,
            !row.fresh(),
    {
        DbBook { id, group, title, desc, rating, is_favorite, genre, author, is_new: false }
    }
}

impl DatabaseRepr for DbBook {
    open spec fn fresh(&self) -> bool {
        self.is_new
    }

    fn is_new(&self) -> (new: bool) {
        self.is_new
    }
}

/// A book with its author, where the author is known.
#[derive(Clone, Debug)]
pub struct Book {
    pub id: i32,
    pub title: String,
    pub description: String,
    pub rating: i16,
    pub is_favorite: bool,
    pub author: Option<Arc<Author>>,
}

impl Book {
    /// A book of which the author is not known.
    pub fn new(
        id: i32,
        title: String,
        description: String,
        rating: i16,
        is_favorite: bool,
    ) -> (book: Self)
        ensures
            book.id == id,
            book.title@ == title@,
            book.description@ == description@,
            book.rating == rating,
            book.is_favorite == is_favorite,
            book.author is None,
    {
        Book { id, title, description, rating, is_favorite, author: None }
    }

    /// The book of the row `value`, of which the author is not known yet.
    pub open spec fn of_row(value: DbBook) -> Book {
        Book {
            id: value.id,
            title: value.title,
            description: value.desc,
            rating: value.rating,
            is_favorite: value.is_favorite,
            author: None,
        }
    }
}

impl From<DbBook> for Book {
    fn from(value: DbBook) -> (book: Self) {
        Book {
            id: value.id,
            title: value.title,
            description: value.desc,
            rating: value.rating,
            is_favorite: value.is_favorite,
            author: None,
        }
    }
}

impl vstd::std_specs::convert::FromSpecImpl<DbBook> for Book {
    open spec fn obeys_from_spec() -> bool {
        true
    }

    open spec fn from_spec(value: DbBook) -> Self {
        Book::of_row(value)
    }
}

/// Sorts `values` into those to insert, which are new, and those to update,
/// which are not, each in the order of `values`.
pub fn split_for_update_insert<V: DatabaseRepr>(values: &Vec<V>) -> (lists: (Vec<&V>, Vec<&V>))
    ensures
        lists.0@.map_values(|value: &V| *value) == values@.filter(|value: V| value.fresh()),
        lists.1@.map_values(|value: &V| *value) == values@.filter(|value: V| !value.fresh()),
{
    let mut insert: Vec<&V> = Vec::new();
    let mut update: Vec<&V> = Vec::new();
    let mut i: usize = 0;
    proof {
        assert(values@.take(0) =~= Seq::<V>::empty());
        assert(insert@.map_values(|value: &V| *value) =~= Seq::<V>::empty());
        assert(update@.map_values(|value: &V| *value) =~= Seq::<V>::empty());
    }
    while i < values.len()
        invariant
            i <= values@.len(),
            insert@.map_values(|value: &V| *value) == values@.take(i as int).filter(
                |value: V| value.fresh(),
            ),
            update@.map_values(|value: &V| *value) == values@.take(i as int).filter(
                |value: V| !value.fresh(),
            ),
        decreases values@.len() - i,
    {
        let ghost inserted = insert@;
        let ghost updated = update@;
        proof {
            reveal(Seq::filter);
            assert(values@.take(i + 1).drop_last() =~= values@.take(i as int));
            assert(values@.take(i + 1).last() == values@[i as int]);
        }
        let reference = &values[i];
        if reference.is_new() {
            insert.push(reference);
            assert(insert@.map_values(|value: &V| *value) =~= inserted.map_values(
                |value: &V| *value,
            ).push(values@[i as int]));
        } else {
            update.push(reference);
            assert(update@.map_values(|value: &V| *value) =~= updated.map_values(
                |value: &V| *value,
            ).push(values@[i as int]));
        }
        i = i + 1;
    }
    assert(values@.take(i as int) =~= values@);
    (insert, update)
}

} // verus!
