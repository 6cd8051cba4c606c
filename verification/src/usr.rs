//! Users: their names, and the hash of their password.

use vstd::prelude::*;
use crate::outside::{hash_parts_of, hash_parts_salt, hash_parts_text, hash_password};

verus! {

/// The name that a user signs in with.
#[derive(Clone, Debug, Hash)]
pub struct Username {
    val: String,
}

impl View for Username {
    type V = Seq<char>;

    closed spec fn view(&self) -> Seq<char> {
        self.val@
    }
}

impl Username {
    /// The name as text.
    pub fn as_str(&self) -> (text: &str)
        ensures
            text@ == self@,
    {
        self.val.as_str()
    }

    /// The name as a string of its own.
    pub fn to_string(&self) -> (text: String)
        ensures
            text@ == self@,
    {
        self.val.clone()
    }

    /// A copy of the name.
    pub fn clone_name(&self) -> (name: Username)
        ensures
            name@ == self@,
    {
        Username { val: self.val.clone() }
    }

    /// Whether the name is `text`.
    pub fn is(&self, text: &str) -> (same: bool)
        ensures
            same == (self@ == text@),
    {
        crate::text::same_text(self.val.as_str(), text)
    }
}

impl PartialEq for Username {
    fn eq(&self, other: &Self) -> (same: bool) {
        self.val == other.val
    }
}

impl vstd::std_specs::cmp::PartialEqSpecImpl for Username {
    open spec fn obeys_eq_spec() -> bool {
        true
    }

    open spec fn eq_spec(&self, other: &Self) -> bool {
        self@ == other@
    }
}

impl Eq for Username {

}

impl PartialEq<str> for Username {
    fn eq(&self, other: &str) -> (same: bool) {
        crate::text::same_text(self.val.as_str(), other)
    }
}

impl vstd::std_specs::cmp::PartialEqSpecImpl<str> for Username {
    open spec fn obeys_eq_spec() -> bool {
        true
    }

    open spec fn eq_spec(&self, other: &str) -> bool {
        self@ == other@
    }
}

impl core::ops::Deref for Username {
    type Target = str;

    fn deref(&self) -> (text: &str)
        ensures
            text@ == self@,
    {
        self.val.as_str()
    }
}

impl From<String> for Username {
    fn from(value: String) -> (name: Self) {
        Username { val: value }
    }
}

impl vstd::std_specs::convert::FromSpecImpl<String> for Username {
    open spec fn obeys_from_spec() -> bool {
        true
    }

    closed spec fn from_spec(value: String) -> Self {
        Username { val: value }
    }
}

impl std::str::FromStr for Username {
    type Err = ();

    /// The name that is the text `s`: every text is a name.
    fn from_str(s: &str) -> (name: Result<Self, Self::Err>)
        ensures
            name is Ok,
            name->Ok_0@ == s@,
    {
        Ok(Username { val: s.to_owned() })
    }
}

/// A user as the database holds it: four texts, the last the bcrypt hash of
/// the password.
#[derive(Clone, Debug, Hash)]
pub struct RawUser {
    pub username: String,
    pub first_name: String,
    pub last_name: String,
    pub password: String,
}

impl RawUser {
    pub fn new(
        username: String,
        first_name: String,
        last_name: String,
        password: String,
    ) -> (raw: Self)
        ensures
            raw.username@ == username@,
            raw.first_name@ == first_name@,
            raw.last_name@ == last_name@,
            raw.password@ == password@,
    {
        RawUser { username, first_name, last_name, password }
    }
}

impl PartialEq for RawUser {
    fn eq(&self, other: &Self) -> (same: bool) {
        self.username == other.username && self.first_name == other.first_name && self.last_name
            == other.last_name && self.password == other.password
    }
}

impl vstd::std_specs::cmp::PartialEqSpecImpl for RawUser {
    open spec fn obeys_eq_spec() -> bool {
        true
    }

    open spec fn eq_spec(&self, other: &Self) -> bool {
        &&& self.username@ == other.username@
        &&& self.first_name@ == other.first_name@
        &&& self.last_name@ == other.last_name@
        &&& self.password@ == other.password@
    }
}

impl Eq for RawUser {

}

/// A user: the name to sign in with, the names of the person, and the hash
/// of the password.
#[derive(Debug)]
pub struct User {
    username: Username,
    first_name: String,
    last_name: String,
    hash_parts: bcrypt::HashParts,
}

impl User {
    /// The name that the user signs in with.
    pub closed spec fn name(&self) -> Seq<char> {
        self.username@
    }

    /// The first name of the person.
    pub closed spec fn first(&self) -> Seq<char> {
        self.first_name@
    }

    /// The last name of the person.
    pub closed spec fn last(&self) -> Seq<char> {
        self.last_name@
    }

    /// The hash of the password.
    pub closed spec fn hash(&self) -> bcrypt::HashParts {
        self.hash_parts
    }

    pub fn new(
        username: Username,
        first_name: String,
        last_name: String,
        hash_parts: bcrypt::HashParts,
    ) -> (user: Self)
        ensures
            user.name() == username@,
            user.first() == first_name@,
            user.last() == last_name@,
            user.hash() == hash_parts,
    {
        User { username, first_name, last_name, hash_parts }
    }

    pub fn username(&self) -> (username: &Username)
        ensures
            username@ == self.name(),
    {
        &self.username
    }

    pub fn set_username(&mut self, new: Username)
        ensures
            final(self).name() == new@,
            final(self).first() == old(self).first(),
            final(self).last() == old(self).last(),
            final(self).hash() == old(self).hash(),
    {
        self.username = new
    }

    /// The first and the last name of the person.
    pub fn get_names(&self) -> (names: (&str, &str))
        ensures
            names.0@ == self.first(),
            names.1@ == self.last(),
    {
        (self.first_name.as_str(), self.last_name.as_str())
    }

    /// The hash of the password, as one text.
    pub fn password(&self) -> String {
        hash_parts_text(&self.hash_parts)
    }

    /// Puts the hash of the password `new` in place of the old one; on an
    /// error the user keeps the old one.
    pub fn compute_password(&mut self, new: String) -> (result: Result<(), bcrypt::BcryptError>)
        ensures
            final(self).name() == old(self).name(),
            final(self).first() == old(self).first(),
            final(self).last() == old(self).last(),
            result is Err ==> final(self).hash() == old(self).hash(),
    {
        self.take_hash(hash_password(new))
    }

    /// Takes what hashing a password gave: a hash goes in place of the old
    /// one; an error is handed on and the user keeps the old hash.
    pub fn take_hash(
        &mut self,
        hashed: Result<bcrypt::HashParts, bcrypt::BcryptError>,
    ) -> (result: Result<(), bcrypt::BcryptError>)
        ensures
            final(self).name() == old(self).name(),
            final(self).first() == old(self).first(),
            final(self).last() == old(self).last(),
            match hashed {
                Ok(parts) => result is Ok && final(self).hash() == parts,
                Err(error) => result == Err::<(), bcrypt::BcryptError>(error) && final(self).hash() == old(self).hash(),
            },
    {
        match hashed {
            Ok(parts) => {
                self.hash_parts = parts;
                Ok(())
            },
            Err(error) => Err(error),
        }
    }

    /// The salt of the hash of the password.
    pub fn salt(&self) -> String {
        hash_parts_salt(&self.hash_parts)
    }

    /// The user that `raw` describes, with the hash that `parsed` took
    /// apart; the error where `parsed` is one.
    pub fn with_hash(
        raw: RawUser,
        parsed: Result<bcrypt::HashParts, bcrypt::BcryptError>,
    ) -> (result: Result<User, bcrypt::BcryptError>)
        ensures
            match parsed {
                Ok(parts) => result is Ok && result->Ok_0.name() == raw.username@
                    && result->Ok_0.first() == raw.first_name@ && result->Ok_0.last()
                    == raw.last_name@ && result->Ok_0.hash() == parts,
                Err(error) => result == Err::<User, bcrypt::BcryptError>(error),
            },
    {
        match parsed {
            Ok(hash_parts) => Ok(
                User {
                    username: Username { val: raw.username },
                    first_name: raw.first_name,
                    last_name: raw.last_name,
                    hash_parts,
                },
            ),
            Err(error) => Err(error),
        }
    }

    /// The user that `raw` describes; an error where its password is not a
    /// bcrypt hash.
    pub fn from_raw(raw: RawUser) -> (result: Result<User, bcrypt::BcryptError>)
        ensures
            result is Ok ==> result->Ok_0.name() == raw.username@ && result->Ok_0.first()
                == raw.first_name@ && result->Ok_0.last() == raw.last_name@,
    {
        let parsed = hash_parts_of(raw.password.as_str());
        User::with_hash(raw, parsed)
    }

    /// The user as the database holds it.
    pub fn into_raw(self) -> (raw: RawUser)
        ensures
            raw.username@ == self.name(),
            raw.first_name@ == self.first(),
            raw.last_name@ == self.last(),
    {
        let password = hash_parts_text(&self.hash_parts);
        RawUser {
            username: self.username.val,
            first_name: self.first_name,
            last_name: self.last_name,
            password,
        }
    }
}

impl TryFrom<RawUser> for User {
    type Error = bcrypt::BcryptError;

    /// The user that `value` describes; an error where its password is not
    /// a bcrypt hash.
    fn try_from(value: RawUser) -> (result: Result<Self, Self::Error>)
        ensures
            result is Ok ==> result->Ok_0.name() == value.username@ && result->Ok_0.first()
                == value.first_name@ && result->Ok_0.last() == value.last_name@,
    {
        User::from_raw(value)
    }
}

impl vstd::std_specs::convert::TryFromSpecImpl<RawUser> for User {
    /// Whether a text is a bcrypt hash is not known here, so `try_from` has
    /// no meaning in contracts.
    open spec fn obeys_try_from_spec() -> bool {
        false
    }

    open spec fn try_from_spec(value: RawUser) -> Result<Self, Self::Error> {
        arbitrary()
    }
}

impl From<User> for RawUser {
    fn from(value: User) -> (raw: Self) {
        value.into_raw()
    }
}

impl vstd::std_specs::convert::FromSpecImpl<User> for RawUser {
    /// The text of a hash is not known here, so `from` has no meaning in
    /// contracts.
    open spec fn obeys_from_spec() -> bool {
        false
    }

    open spec fn from_spec(value: User) -> Self {
        arbitrary()
    }
}

} // verus!
