//! Everything that the database holds, loaded at once and bound together.

use vstd::prelude::*;
use std::sync::{Arc, RwLock};
use crate::book_org::arc_wrap;
use crate::io::{Author, Book, DbBook, DbGroup, DbUser, Genre};
use crate::lock::{OptionRwProvider, ProtectedAccess, RwProvider};
use crate::outside::rwlock_new;
use crate::usr::User;

verus! {

/// The rows of all tables, as they were read.
pub struct LoadedContext {
    pub books: Vec<DbBook>,
    pub groups: Vec<DbGroup>,
    pub users: Vec<DbUser>,
    pub genres: Vec<Genre>,
    pub authors: Vec<Author>,
}

/// What the program works on: the books with their authors, the users whose
/// password is a hash, and the groups, genres and authors to share.
pub struct ActiveContext {
    pub books: Vec<Book>,
    pub groups: Vec<Arc<DbGroup>>,
    pub users: Vec<User>,
    pub genres: Vec<Arc<Genre>>,
    pub authors: Vec<Arc<Author>>,
}

/// Where in `authors` the first author with the key `id` stands; the length
/// of `authors` where there is none.
pub open spec fn author_place(authors: Seq<Author>, id: i32) -> int
    decreases authors.len(),
{
    if authors.len() == 0 {
        0
    } else if author_place(authors.drop_last(), id) < authors.len() - 1 {
        author_place(authors.drop_last(), id)
    } else if authors.last().id == id {
        authors.len() - 1
    } else {
        authors.len() as int
    }
}

/// `author_place` finds the first author with the key, and none before it.
pub proof fn lemma_author_place(authors: Seq<Author>, id: i32)
    ensures
        0 <= author_place(authors, id) <= authors.len(),
        author_place(authors, id) < authors.len() ==> authors[author_place(authors, id)].id == id,
        forall|i: int| 0 <= i < author_place(authors, id) ==> authors[i].id != id,
    decreases authors.len(),
{
    if authors.len() > 0 {
        lemma_author_place(authors.drop_last(), id);
        let before = author_place(authors.drop_last(), id);
        assert forall|i: int| 0 <= i < author_place(authors, id) implies authors[i].id != id by {
            if i < authors.len() - 1 {
                assert(authors.drop_last()[i] == authors[i]);
            }
        }
        if before < authors.len() - 1 {
            assert(authors.drop_last()[before] == authors[before]);
        }
    }
}

/// Whether `book` is the book of `row`, bound to the first of `authors`
/// that has the key which the row names, or to none where none has it.
pub open spec fn bound_to(book: Book, row: DbBook, authors: Seq<Author>) -> bool {
    &&& book.id == row.id
    &&& book.title == row.title
    &&& book.description == row.desc
    &&& book.rating == row.rating
    &&& book.is_favorite == row.is_favorite
    &&& book.author is Some <==> author_place(authors, row.author) < authors.len()
    &&& book.author is Some ==> *book.author->0 == authors[author_place(authors, row.author)]
}

/// Whether `user` is the user that `row` describes.
pub open spec fn user_of(user: User, row: DbUser) -> bool {
    &&& user.name() == row.username@
    &&& user.first() == row.first_name@
    &&& user.last() == row.last_name@
}

/// Whether `user` is the user that one of the first `upto` of `rows`
/// describes.
pub open spec fn from_rows(user: User, rows: Seq<DbUser>, upto: int) -> bool {
    exists|k: int| 0 <= k < upto && k < rows.len() && user_of(user, #[trigger] rows[k])
}

/// The first of `authors` with the key `id`, if there is one.
fn find_author(authors: &Vec<Arc<Author>>, id: i32) -> (found: Option<Arc<Author>>)
    ensures
        found is Some <==> author_place(authors@.map_values(|a: Arc<Author>| *a), id)
            < authors@.len(),
        found is Some ==> *found->0 == authors@[author_place(
            authors@.map_values(|a: Arc<Author>| *a),
            id,
        )],
{
    let ghost plain = authors@.map_values(|a: Arc<Author>| *a);
    let mut i: usize = 0;
    proof {
        assert(plain.take(0) =~= Seq::<Author>::empty());
    }
    while i < authors.len()
        invariant
            plain == authors@.map_values(|a: Arc<Author>| *a),
            i <= authors@.len(),
            author_place(plain.take(i as int), id) == i,
        decreases authors@.len() - i,
    {
        proof {
            assert(plain.take(i + 1).drop_last() =~= plain.take(i as int));
            assert(plain[i as int] == *authors@[i as int]);
            lemma_author_place(plain, id);
            lemma_author_place(plain.take(i as int), id);
        }
        if authors[i].id == id {
            proof {
                let place = author_place(plain, id);
                if place < i {
                    assert(plain.take(i as int)[place] == plain[place]);
                }
                assert(place == i);
            }
            return Some(Arc::clone(&authors[i]));
        }
        i = i + 1;
    }
    assert(plain.take(i as int) =~= plain);
    None
}

/// Binds what was loaded together: each book gets the first author with
/// the key that its row names; a user whose password is no bcrypt hash is
/// left out; groups, genres and authors are put behind shared pointers.
/// All lists keep the order in which the rows came.
pub fn activate_context(loaded: LoadedContext) -> (active: ActiveContext)
    ensures
        active.authors@.map_values(|a: Arc<Author>| *a) == loaded.authors@,
        active.groups@.map_values(|g: Arc<DbGroup>| *g) == loaded.groups@,
        active.genres@.map_values(|g: Arc<Genre>| *g) == loaded.genres@,
        active.books@.len() == loaded.books@.len(),
        forall|i: int|
            0 <= i < loaded.books@.len() ==> bound_to(
                #[trigger] active.books@[i],
                loaded.books@[i],
                loaded.authors@,
            ),
        active.users@.len() <= loaded.users@.len(),
        forall|j: int|
            0 <= j < active.users@.len() ==> from_rows(
                #[trigger] active.users@[j],
                loaded.users@,
                loaded.users@.len() as int,
            ),
{
    let LoadedContext { books: rows, groups, users: user_rows, genres, authors } = loaded;
    let ghost plain = authors@;
    let authors = arc_wrap(authors);
    assert(authors@.map_values(|a: Arc<Author>| *a) =~= plain);
    let groups_before = Ghost(groups@);
    let groups = arc_wrap(groups);
    assert(groups@.map_values(|g: Arc<DbGroup>| *g) =~= groups_before@);
    let genres_before = Ghost(genres@);
    let genres = arc_wrap(genres);
    assert(genres@.map_values(|g: Arc<Genre>| *g) =~= genres_before@);

    let mut books: Vec<Book> = Vec::new();
    let ghost all_rows = rows@;
    for row in iter: rows
        invariant
            iter.seq() == all_rows,
            authors@.map_values(|a: Arc<Author>| *a) == plain,
            books@.len() == iter.index(),
            forall|i: int|
                0 <= i < books@.len() ==> bound_to(#[trigger] books@[i], all_rows[i], plain),
    {
        let ghost had = books@;
        let author = find_author(&authors, row.author);
        proof {
            lemma_author_place(plain, row.author);
            if author is Some {
                assert(plain[author_place(plain, row.author)] == *authors@[author_place(
                    plain,
                    row.author,
                )]);
            }
        }
        let mut book = Book::from(row);
        book.author = author;
        assert(bound_to(book, row, plain));
        books.push(book);
        assert forall|i: int| 0 <= i < books@.len() implies bound_to(
            #[trigger] books@[i],
            all_rows[i],
            plain,
        ) by {
            if i < had.len() {
                assert(books@[i] == had[i]);
            }
        }
    }

    let mut users: Vec<User> = Vec::new();
    let ghost all_users = user_rows@;
    for row in iter: user_rows
        invariant
            iter.seq() == all_users,
            users@.len() <= iter.index(),
            forall|j: int|
                0 <= j < users@.len() ==> from_rows(
                    #[trigger] users@[j],
                    all_users,
                    iter.index() as int,
                ),
    {
        let ghost k = iter.index() as int;
        let ghost had = users@;
        assert forall|j: int| 0 <= j < had.len() implies from_rows(
            #[trigger] had[j],
            all_users,
            k + 1,
        ) by {
            let at = choose|at: int|
                0 <= at < k && at < all_users.len() && user_of(had[j], #[trigger] all_users[at]);
            assert(user_of(had[j], all_users[at]));
        }
        match User::from_raw(row.into_raw()) {
            Ok(user) => {
                users.push(user);
                assert forall|j: int| 0 <= j < users@.len() implies from_rows(
                    #[trigger] users@[j],
                    all_users,
                    k + 1,
                ) by {
                    if j < had.len() {
                        assert(users@[j] == had[j]);
                    } else {
                        assert(user_of(users@[j], all_users[k]));
                    }
                }
            },
            Err(_) => {},
        }
    }

    ActiveContext { books, groups, users, genres, authors }
}

/// What the program works on, shared between threads behind a lock; nothing
/// while it is not loaded.
pub struct ContextProvider {
    data: Arc<RwLock<Option<ActiveContext>>>,
}

impl Default for ContextProvider {
    fn default() -> Self {
        ContextProvider { data: Arc::new(rwlock_new(None)) }
    }
}

impl ContextProvider {
    /// The lock that the threads share.
    pub closed spec fn shared(&self) -> Arc<RwLock<Option<ActiveContext>>> {
        self.data
    }
}

impl RwProvider for ContextProvider {
    type Data = Option<ActiveContext>;

    /// Leads to the lock of this provider.
    fn access_raw(&self) -> (access: ProtectedAccess<'_, Arc<RwLock<Self::Data>>>)
        ensures
            *access.data() == self.shared(),
    {
        ProtectedAccess::new(&self.data)
    }
}

impl OptionRwProvider<ActiveContext> for ContextProvider {

}

} // verus!
