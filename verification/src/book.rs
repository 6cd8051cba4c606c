//! Books as the database holds them, and their ratings.

use vstd::prelude::*;

verus! {

/// A rating of one to five stars.
#[derive(Clone, Copy, Debug, PartialEq, Eq, Hash, Structural)]
pub enum BookRating {
    One,
    Two,
    Three,
    Four,
    Five,
}

impl BookRating {
    /// The number of stars.
    pub open spec fn stars(self) -> i8 {
        match self {
            BookRating::One => 1,
            BookRating::Two => 2,
            BookRating::Three => 3,
            BookRating::Four => 4,
            BookRating::Five => 5,
        }
    }

    /// The rating of `value` stars, if there is one.
    pub open spec fn of_stars(value: i8) -> Option<BookRating> {
        if value == 1 {
            Some(BookRating::One)
        } else if value == 2 {
            Some(BookRating::Two)
        } else if value == 3 {
            Some(BookRating::Three)
        } else if value == 4 {
            Some(BookRating::Four)
        } else if value == 5 {
            Some(BookRating::Five)
        } else {
            None
        }
    }

    /// The rating in words: `One star`, `Two stars` and so on.
    pub open spec fn words(self) -> Seq<char> {
        match self {
            BookRating::One => "One star"@,
            BookRating::Two => "Two stars"@,
            BookRating::Three => "Three stars"@,
            BookRating::Four => "Four stars"@,
            BookRating::Five => "Five stars"@,
        }
    }

    /// The number of stars.
    pub fn number(self) -> (stars: i8)
        ensures
            stars == self.stars(),
            1 <= stars <= 5,
    {
        match self {
            BookRating::One => 1,
            BookRating::Two => 2,
            BookRating::Three => 3,
            BookRating::Four => 4,
            BookRating::Five => 5,
        }
    }

    /// The rating of `value` stars; none where `value` is not one to five.
    pub fn from_number(value: i8) -> (rating: Option<BookRating>)
        ensures
            rating == BookRating::of_stars(value),
            rating is Some <==> 1 <= value <= 5,
            rating is Some ==> rating->0.stars() == value,
    {
        match value {
            1 => Some(BookRating::One),
            2 => Some(BookRating::Two),
            3 => Some(BookRating::Three),
            4 => Some(BookRating::Four),
            5 => Some(BookRating::Five),
            _ => None,
        }
    }

    /// The rating in words, as a string.
    pub fn to_string(&self) -> (text: String)
        ensures
            text@ == self.words(),
    {
        match self {
            BookRating::One => "One star".to_owned(),
            BookRating::Two => "Two stars".to_owned(),
            BookRating::Three => "Three stars".to_owned(),
            BookRating::Four => "Four stars".to_owned(),
            BookRating::Five => "Five stars".to_owned(),
        }
    }

    /// Going from a rating to its stars and back gives the rating.
    pub proof fn lemma_stars_round_trip(rating: BookRating)
        ensures
            BookRating::of_stars(rating.stars()) == Some(rating),
    {
    }
}

impl TryFrom<i8> for BookRating {
    type Error = ();

    fn try_from(value: i8) -> (result: Result<Self, Self::Error>) {
        match BookRating::from_number(value) {
            Some(rating) => Ok(rating),
            None => Err(()),
        }
    }
}

impl vstd::std_specs::convert::TryFromSpecImpl<i8> for BookRating {
    open spec fn obeys_try_from_spec() -> bool {
        true
    }

    open spec fn try_from_spec(value: i8) -> Result<Self, Self::Error> {
        match BookRating::of_stars(value) {
            Some(rating) => Ok(rating),
            None => Err(()),
        }
    }
}

impl From<BookRating> for i8 {
    fn from(value: BookRating) -> (stars: i8) {
        value.number()
    }
}

impl vstd::std_specs::convert::FromSpecImpl<BookRating> for i8 {
    open spec fn obeys_from_spec() -> bool {
        true
    }

    open spec fn from_spec(value: BookRating) -> i8 {
        value.stars()
    }
}

/// A book as the database holds it.
#[derive(Clone, Debug, Hash)]
pub struct RawBook {
    id: u32,
    title: String,
    description: String,
    rating: i8,
    is_favorite: bool,
}

/// A book as the database holds it, with its texts borrowed.
#[derive(Clone, Copy, Debug, Hash)]
pub struct RefRawBook<'a> {
    id: u32,
    title: &'a str,
    description: &'a str,
    rating: i8,
    is_favorite: bool,
}

/// What a raw book holds, as plain values.
pub struct RawBookView {
    pub id: u32,
    pub title: Seq<char>,
    pub description: Seq<char>,
    pub rating: i8,
    pub is_favorite: bool,
}

impl View for RawBook {
    type V = RawBookView;

    closed spec fn view(&self) -> RawBookView {
        RawBookView {
            id: self.id,
            title: self.title@,
            description: self.description@,
            rating: self.rating,
            is_favorite: self.is_favorite,
        }
    }
}

impl<'a> View for RefRawBook<'a> {
    type V = RawBookView;

    closed spec fn view(&self) -> RawBookView {
        RawBookView {
            id: self.id,
            title: self.title@,
            description: self.description@,
            rating: self.rating,
            is_favorite: self.is_favorite,
        }
    }
}

impl RawBook {
    /// The raw book of the given values.
    pub fn new(
        id: u32,
        title: String,
        description: String,
        rating: i8,
        is_favorite: bool,
    ) -> (book: Self)
        ensures
            book@ == (RawBookView {
                id,
                title: title@,
                description: description@,
                rating,
                is_favorite,
            }),
    {
        RawBook { id, title, description, rating, is_favorite }
    }

    /// The same book, with its texts borrowed.
    pub fn as_ref(&self) -> (book: RefRawBook<'_>)
        ensures
            book@ == self@,
    {
        RefRawBook {
            id: self.id,
            title: self.title.as_str(),
            description: self.description.as_str(),
            rating: self.rating,
            is_favorite: self.is_favorite,
        }
    }
}

impl<'a> RefRawBook<'a> {
    /// The same book, with texts of its own.
    pub fn to_owned(&self) -> (book: RawBook)
        ensures
            book@ == self@,
    {
        RawBook {
            id: self.id,
            title: self.title.to_owned(),
            description: self.description.to_owned(),
            rating: self.rating,
            is_favorite: self.is_favorite,
        }
    }
}

} // verus!
