//! What books are sorted by: groups, genres and authors.

use vstd::prelude::*;
use std::sync::Arc;
use vstd::std_specs::convert::TryIntoSpec;
use crate::book::BookRating;

verus! {

/// The age that a genre is meant for.
#[derive(Clone, Copy, Debug, PartialEq, Eq, Hash, Structural)]
pub enum AgeGroup {
    Child,
    Teenager,
    YoungAdult,
    Adult,
}

impl AgeGroup {
    /// The name of the age group.
    pub open spec fn name(self) -> Seq<char> {
        match self {
            AgeGroup::Child => "Child"@,
            AgeGroup::Teenager => "Teenager"@,
            AgeGroup::YoungAdult => "Young Adult"@,
            AgeGroup::Adult => "Adult"@,
        }
    }

    /// The name of the age group, as a string.
    pub fn to_string(&self) -> (text: String)
        ensures
            text@ == self.name(),
    {
        match self {
            AgeGroup::Child => "Child".to_owned(),
            AgeGroup::Teenager => "Teenager".to_owned(),
            AgeGroup::YoungAdult => "Young Adult".to_owned(),
            AgeGroup::Adult => "Adult".to_owned(),
        }
    }
}

/// A group of books.
#[derive(Clone, Debug, Hash)]
pub struct BookGroup {
    pub name: String,
    pub desc: String,
}

/// A genre.
#[derive(Clone, Debug, Hash)]
pub struct Genre {
    pub name: String,
    pub desc: String,
    pub age_group: AgeGroup,
}

/// A genre as the database holds it.
#[derive(Clone, Debug, Hash)]
pub struct RawGenre {
    pub name: String,
    pub desc: String,
    pub age_group: i8,
}

/// An author.
#[derive(Clone, Debug, Hash)]
pub struct Author {
    pub id: u32,
    pub first_name: String,
    pub last_name: String,
    pub rating: BookRating,
    pub comment: String,
}

/// An author as the database holds it: the rating is a number.
#[derive(Clone, Debug, Hash)]
pub struct RawAuthor {
    pub id: u32,
    pub first_name: String,
    pub last_name: String,
    pub rating: i8,
    pub comment: String,
}

impl Author {
    /// Whether this author is the one that `raw` describes.
    pub open spec fn describes(self, raw: RawAuthor) -> bool {
        &&& self.id == raw.id
        &&& self.first_name@ == raw.first_name@
        &&& self.last_name@ == raw.last_name@
        &&& self.rating.stars() == raw.rating
        &&& self.comment@ == raw.comment@
    }

    /// The author that `raw` describes, if its rating is one to five stars.
    pub open spec fn of_raw(raw: RawAuthor) -> Option<Author> {
        match BookRating::of_stars(raw.rating) {
            Some(rating) => Some(
                Author {
                    id: raw.id,
                    first_name: raw.first_name,
                    last_name: raw.last_name,
                    rating,
                    comment: raw.comment,
                },
            ),
            None => None,
        }
    }

    /// This author as the database holds it.
    pub open spec fn raw(self) -> RawAuthor {
        RawAuthor {
            id: self.id,
            first_name: self.first_name,
            last_name: self.last_name,
            rating: self.rating.stars(),
            comment: self.comment,
        }
    }

    /// Going from an author to the database and back gives the author.
    pub proof fn lemma_raw_round_trip(author: Author)
        ensures
            Author::of_raw(author.raw()) == Some(author),
            author.describes(author.raw()),
    {
    }

    /// The author that `raw` describes; none where its rating is not one to
    /// five stars.
    pub fn from_raw(raw: RawAuthor) -> (author: Option<Author>)
        ensures
            author == Author::of_raw(raw),
            author is Some <==> 1 <= raw.rating <= 5,
            author is Some ==> author->0.describes(raw),
    {
        match BookRating::from_number(raw.rating) {
            Some(rating) => Some(
                Author {
                    id: raw.id,
                    first_name: raw.first_name,
                    last_name: raw.last_name,
                    rating,
                    comment: raw.comment,
                },
            ),
            None => None,
        }
    }

    /// The author as the database holds it.
    pub fn into_raw(self) -> (raw: RawAuthor)
        ensures
            raw == self.raw(),
            self.describes(raw),
    {
        RawAuthor {
            id: self.id,
            first_name: self.first_name,
            last_name: self.last_name,
            rating: self.rating.number(),
            comment: self.comment,
        }
    }
}

impl TryFrom<RawAuthor> for Author {
    type Error = ();

    fn try_from(value: RawAuthor) -> (result: Result<Self, Self::Error>) {
        match Author::from_raw(value) {
            Some(author) => Ok(author),
            None => Err(()),
        }
    }
}

impl vstd::std_specs::convert::TryFromSpecImpl<RawAuthor> for Author {
    open spec fn obeys_try_from_spec() -> bool {
        true
    }

    open spec fn try_from_spec(value: RawAuthor) -> Result<Self, Self::Error> {
        match Author::of_raw(value) {
            Some(author) => Ok(author),
            None => Err(()),
        }
    }
}

impl From<Author> for RawAuthor {
    fn from(value: Author) -> (raw: Self) {
        value.into_raw()
    }
}

impl vstd::std_specs::convert::FromSpecImpl<Author> for RawAuthor {
    open spec fn obeys_from_spec() -> bool {
        true
    }

    open spec fn from_spec(value: Author) -> Self {
        value.raw()
    }
}

/// The values of `values` that convert, converted, in their order.
pub open spec fn converted<T: TryInto<V>, V>(values: Seq<T>) -> Seq<V>
    decreases values.len(),
{
    if values.len() == 0 {
        Seq::empty()
    } else {
        match values.last().try_into_spec() {
            Ok(value) => converted::<T, V>(values.drop_last()).push(value),
            Err(_) => converted::<T, V>(values.drop_last()),
        }
    }
}

/// The errors of the values of `values` that do not convert, in their order.
pub open spec fn refused<T: TryInto<V>, V>(values: Seq<T>) -> Seq<<T as TryInto<V>>::Error>
    decreases values.len(),
{
    if values.len() == 0 {
        Seq::empty()
    } else {
        match values.last().try_into_spec() {
            Ok(_) => refused::<T, V>(values.drop_last()),
            Err(error) => refused::<T, V>(values.drop_last()).push(error),
        }
    }
}

/// Converts each of `values`: what converts goes to the first list, the
/// errors of the rest go to the second, each in the order of `values`.
pub fn parse_raw<T, V>(values: Vec<T>) -> (lists: (Vec<V>, Vec<<T as TryInto<V>>::Error>))
    where T: TryInto<V>
    ensures
        lists.0@.len() + lists.1@.len() == values@.len(),
        T::obeys_try_into_spec() ==> lists.0@ == converted::<T, V>(values@) && lists.1@
            == refused::<T, V>(values@),
{
    let mut result: Vec<V> = Vec::new();
    let mut errors: Vec<<T as TryInto<V>>::Error> = Vec::new();
    let ghost all = values@;
    proof {
        assert(all.take(0) =~= Seq::<T>::empty());
    }
    for value in iter: values
        invariant
            iter.seq() == all,
            result@.len() + errors@.len() == iter.index(),
            T::obeys_try_into_spec() ==> result@ == converted::<T, V>(
                all.take(iter.index() as int),
            ) && errors@ == refused::<T, V>(all.take(iter.index() as int)),
    {
        proof {
            let done = iter.index() as int;
            assert(all.take(done + 1).drop_last() =~= all.take(done));
            assert(all.take(done + 1).last() == value);
        }
        match value.try_into() {
            Ok(converted) => result.push(converted),
            Err(error) => errors.push(error),
        }
    }
    assert(all.take(all.len() as int) =~= all);
    (result, errors)
}

/// Puts each of `vals` behind a shared pointer, in their order.
pub fn arc_wrap<T>(vals: Vec<T>) -> (shared: Vec<Arc<T>>)
    ensures
        shared@.len() == vals@.len(),
        forall|i: int| 0 <= i < vals@.len() ==> *shared@[i] == vals@[i],
{
    let mut shared: Vec<Arc<T>> = Vec::new();
    let ghost all = vals@;
    for value in iter: vals
        invariant
            iter.seq() == all,
            shared@.len() == iter.index(),
            forall|i: int| 0 <= i < shared@.len() ==> *shared@[i] == all[i],
    {
        shared.push(Arc::new(value));
    }
    shared
}

} // verus!
