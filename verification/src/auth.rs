//! Sessions: who is signed in, with which token, and which tokens have
//! expired.

use vstd::prelude::*;
use std::sync::{Arc, Mutex, RwLock};
use crate::lock::{MutexProvider, MutexProviderAccess, ProtectedAccess};
use crate::outside::{
    poisoned_guard, read_target, rwlock_clear_poison, rwlock_read, rwlock_write, mutex_new,
    rwlock_new, write_target_mut,
};
use crate::usr::{User, Username};

verus! {

/// A token that shows that a user has signed in. The protocol carries it as
/// text and reads nothing into it.
#[derive(Clone, Debug, Hash)]
pub struct JWT {
    val: String,
}

impl View for JWT {
    type V = Seq<char>;

    closed spec fn view(&self) -> Seq<char> {
        self.val@
    }
}

impl JWT {
    /// The token as text.
    pub fn as_str(&self) -> (text: &str)
        ensures
            text@ == self@,
    {
        self.val.as_str()
    }

    /// The token as a string of its own.
    pub fn to_string(&self) -> (text: String)
        ensures
            text@ == self@,
    {
        self.val.clone()
    }

    /// Whether the token is `text`.
    pub fn is(&self, text: &str) -> (same: bool)
        ensures
            same == (self@ == text@),
    {
        crate::text::same_text(self.val.as_str(), text)
    }
}

impl PartialEq for JWT {
    fn eq(&self, other: &Self) -> (same: bool) {
        self.val == other.val
    }
}

impl vstd::std_specs::cmp::PartialEqSpecImpl for JWT {
    open spec fn obeys_eq_spec() -> bool {
        true
    }

    open spec fn eq_spec(&self, other: &Self) -> bool {
        self@ == other@
    }
}

impl Eq for JWT {

}

impl PartialEq<str> for JWT {
    fn eq(&self, other: &str) -> (same: bool) {
        crate::text::same_text(self.val.as_str(), other)
    }
}

impl vstd::std_specs::cmp::PartialEqSpecImpl<str> for JWT {
    open spec fn obeys_eq_spec() -> bool {
        true
    }

    open spec fn eq_spec(&self, other: &str) -> bool {
        self@ == other@
    }
}

impl core::ops::Deref for JWT {
    type Target = str;

    fn deref(&self) -> (text: &str)
        ensures
            text@ == self@,
    {
        self.val.as_str()
    }
}

impl From<String> for JWT {
    fn from(value: String) -> (token: Self) {
        JWT { val: value }
    }
}

impl vstd::std_specs::convert::FromSpecImpl<String> for JWT {
    open spec fn obeys_from_spec() -> bool {
        true
    }

    closed spec fn from_spec(value: String) -> Self {
        JWT { val: value }
    }
}

impl std::str::FromStr for JWT {
    type Err = ();

    /// The token that is the text `s`: every text is a token.
    fn from_str(s: &str) -> (token: Result<Self, Self::Err>)
        ensures
            token is Ok,
            token->Ok_0@ == s@,
    {
        Ok(JWT { val: s.to_owned() })
    }
}

/// A set of tokens.
#[derive(Debug)]
pub struct TokenSet {
    tokens: Vec<JWT>,
}

impl View for TokenSet {
    type V = Set<Seq<char>>;

    /// The texts of the tokens in the set.
    closed spec fn view(&self) -> Set<Seq<char>> {
        self.tokens@.map_values(|token: JWT| token@).to_set()
    }
}

impl TokenSet {
    /// The empty set.
    pub fn new() -> (set: Self)
        ensures
            set@ == Set::<Seq<char>>::empty(),
    {
        let set = TokenSet { tokens: Vec::new() };
        assert(set@ =~= Set::<Seq<char>>::empty());
        set
    }

    /// Whether `token` is in the set.
    pub fn contains(&self, token: &JWT) -> (found: bool)
        ensures
            found == self@.contains(token@),
    {
        let ghost texts = self.tokens@.map_values(|token: JWT| token@);
        let mut i: usize = 0;
        while i < self.tokens.len()
            invariant
                texts == self.tokens@.map_values(|token: JWT| token@),
                i <= self.tokens@.len(),
                forall|k: int| 0 <= k < i ==> texts[k] != token@,
            decreases self.tokens@.len() - i,
        {
            if self.tokens[i].is(token.as_str()) {
                assert(texts[i as int] == token@);
                assert(texts.contains(token@));
                return true;
            }
            i = i + 1;
        }
        assert(!texts.contains(token@));
        false
    }

    /// Puts `token` into the set; true where it was not in it.
    pub fn insert(&mut self, token: JWT) -> (added: bool)
        ensures
            final(self)@ == old(self)@.insert(token@),
            added == !old(self)@.contains(token@),
    {
        if self.contains(&token) {
            assert(self@ =~= self@.insert(token@));
            false
        } else {
            let ghost before = self.tokens@.map_values(|token: JWT| token@);
            self.tokens.push(token);
            proof {
                let after = self.tokens@.map_values(|token: JWT| token@);
                assert(after =~= before.push(token@));
                assert forall|text: Seq<char>| after.contains(text) <==> before.contains(text)
                    || text == token@ by {
                    if after.contains(text) {
                        let k = choose|k: int| 0 <= k < after.len() && after[k] == text;
                        if k < before.len() {
                            assert(before[k] == text);
                        }
                    }
                    if before.contains(text) {
                        let k = choose|k: int| 0 <= k < before.len() && before[k] == text;
                        assert(after[k] == text);
                    }
                    if text == token@ {
                        assert(after[before.len() as int] == text);
                    }
                }
                assert(self@ =~= old(self)@.insert(token@));
            }
            true
        }
    }
}

/// The tokens that have expired, shared between threads behind a lock. What
/// the set holds at a given moment depends on the other threads: nothing is
/// stated of it.
pub struct ExpiredTokens {
    data: Arc<RwLock<TokenSet>>,
}

impl Default for ExpiredTokens {
    fn default() -> Self {
        ExpiredTokens { data: Arc::new(rwlock_new(TokenSet::new())) }
    }
}

impl ExpiredTokens {
    /// Forgets every token, and clears a poisoning of the lock.
    pub fn reset(&self) {
        let mut guard = match rwlock_write(&self.data) {
            Ok(guard) => guard,
            Err(poisoned) => poisoned_guard(poisoned),
        };
        *write_target_mut(&mut guard) = TokenSet::new();
        drop_guard(guard);
        rwlock_clear_poison(&self.data);
    }

    /// Whether `token` has expired. Where the lock is poisoned, the set is
    /// reset and the answer is no.
    pub fn is_expired(&self, token: &JWT) -> bool {
        match rwlock_read(&self.data) {
            Ok(guard) => read_target(&guard).contains(token),
            Err(_) => {
                self.reset();
                false
            },
        }
    }

    /// Takes `token` as expired. Where the lock is poisoned, the set is
    /// reset instead.
    pub fn register_expired(&self, token: JWT) {
        match rwlock_write(&self.data) {
            Ok(mut guard) => {
                write_target_mut(&mut guard).insert(token);
            },
            Err(_) => {
                self.reset();
            },
        }
    }
}

/// Lets go of a guard, and so of its lock.
fn drop_guard<T>(guard: std::sync::RwLockWriteGuard<'_, T>) {
}

/// A user and the token they are signed in with, if they are.
#[derive(Debug)]
pub struct Session {
    target: User,
    jwt: Option<JWT>,
    is_new: bool,
}

impl Session {
    /// The user of this session.
    pub closed spec fn user(&self) -> User {
        self.target
    }

    /// The token of this session, if the user is signed in.
    pub closed spec fn token(&self) -> Option<Seq<char>> {
        match self.jwt {
            Some(jwt) => Some(jwt@),
            None => None,
        }
    }

    /// Whether the user was created in this run.
    pub closed spec fn fresh(&self) -> bool {
        self.is_new
    }

    /// The session of a user who is not signed in and not new.
    pub closed spec fn signed_out(user: User) -> Session {
        Session { target: user, jwt: None, is_new: false }
    }

    /// This session with the token `jwt`.
    pub closed spec fn with_token(self, jwt: JWT) -> Session {
        Session { target: self.target, jwt: Some(jwt), is_new: self.is_new }
    }

    pub fn new(user: User, jwt: Option<JWT>, is_new: bool) -> (session: Self)
        ensures
            session.user() == user,
            session.token() == match jwt {
                Some(token) => Some(token@),
                None => None,
            },
            session.fresh() == is_new,
    {
        Session { target: user, jwt, is_new }
    }

    /// The user of this session.
    pub fn target(&self) -> (user: &User)
        ensures
            *user == self.user(),
    {
        &self.target
    }

    /// Whether the user was created in this run.
    pub fn is_new(&self) -> (fresh: bool)
        ensures
            fresh == self.fresh(),
    {
        self.is_new
    }

    pub fn get_auth(&self) -> (jwt: Option<&JWT>)
        ensures
            jwt is Some <==> self.token() is Some,
            jwt is Some ==> jwt->0@ == self.token()->0,
    {
        self.jwt.as_ref()
    }

    /// Signs the user in with `new`; the token they had expires.
    pub fn set_auth(&mut self, new: JWT, expired: &ExpiredTokens)
        ensures
            *final(self) == old(self).with_token(new),
            final(self).user() == old(self).user(),
            final(self).fresh() == old(self).fresh(),
            final(self).token() == Some(new@),
    {
        self.expire_auth(expired);
        self.jwt = Some(new);
    }

    /// Signs the user out; the token they had expires.
    pub fn expire_auth(&mut self, expired: &ExpiredTokens)
        ensures
            final(self).user() == old(self).user(),
            final(self).fresh() == old(self).fresh(),
            final(self).token() is None,
    {
        match self.jwt.take() {
            Some(jwt) => expired.register_expired(jwt),
            None => {},
        }
    }

    pub fn is_authenticated(&self) -> (signed_in: bool)
        ensures
            signed_in == self.token() is Some,
    {
        self.jwt.is_some()
    }

    /// Whether the user is signed in with `jwt`.
    pub fn holds(&self, jwt: &JWT) -> (holds: bool)
        ensures
            holds == (self.token() == Some(jwt@)),
    {
        match &self.jwt {
            Some(own) => *own == *jwt,
            None => false,
        }
    }
}

impl From<User> for Session {
    fn from(value: User) -> (session: Self) {
        Session { target: value, jwt: None, is_new: false }
    }
}

impl vstd::std_specs::convert::FromSpecImpl<User> for Session {
    open spec fn obeys_from_spec() -> bool {
        true
    }

    open spec fn from_spec(value: User) -> Self {
        Session::signed_out(value)
    }
}

/// Where in `names` the name `name` stands first; the length of `names`
/// where it does not stand there.
pub open spec fn place_of(names: Seq<Seq<char>>, name: Seq<char>) -> int
    decreases names.len(),
{
    if names.len() == 0 {
        0
    } else if place_of(names.drop_last(), name) < names.len() - 1 {
        place_of(names.drop_last(), name)
    } else if names.last() == name {
        names.len() - 1
    } else {
        names.len() as int
    }
}

/// Sessions by the names of their users: `names[i]` is the name under which
/// `sessions[i]` is kept.
pub struct SessionTable {
    pub names: Seq<Seq<char>>,
    pub sessions: Seq<Session>,
}

impl SessionTable {
    /// Whether each session has its name, and no name stands twice.
    pub open spec fn well_formed(self) -> bool {
        self.names.len() == self.sessions.len() && self.names.no_duplicates()
    }

    /// Whether a session is kept under `name`.
    pub open spec fn has(self, name: Seq<char>) -> bool {
        place_of(self.names, name) < self.names.len()
    }

    /// The session that is kept under `name`.
    pub open spec fn at(self, name: Seq<char>) -> Session
        recommends
            self.has(name),
    {
        self.sessions[place_of(self.names, name)]
    }

    /// This table with `session` kept under `name`: in place of the session
    /// that was kept under it, or at the end where there was none.
    pub open spec fn put(self, name: Seq<char>, session: Session) -> SessionTable {
        if self.has(name) {
            SessionTable {
                names: self.names,
                sessions: self.sessions.update(place_of(self.names, name), session),
            }
        } else {
            SessionTable { names: self.names.push(name), sessions: self.sessions.push(session) }
        }
    }

    /// This table with a signed-out session put in for each of `users`, in
    /// their order, under the name of the user.
    pub open spec fn put_all(self, users: Seq<User>) -> SessionTable
        decreases users.len(),
    {
        if users.len() == 0 {
            self
        } else {
            self.put_all(users.drop_last()).put(
                users.last().name(),
                Session::signed_out(users.last()),
            )
        }
    }
}

/// `place_of` finds the first place of the name, and none before it.
pub proof fn lemma_place_of(names: Seq<Seq<char>>, name: Seq<char>)
    ensures
        0 <= place_of(names, name) <= names.len(),
        place_of(names, name) < names.len() ==> names[place_of(names, name)] == name,
        forall|i: int| 0 <= i < place_of(names, name) ==> names[i] != name,
    decreases names.len(),
{
    if names.len() > 0 {
        lemma_place_of(names.drop_last(), name);
        let before = place_of(names.drop_last(), name);
        assert forall|i: int| 0 <= i < place_of(names, name) implies names[i] != name by {
            if i < names.len() - 1 {
                assert(names.drop_last()[i] == names[i]);
            }
        }
        if before < names.len() - 1 {
            assert(names.drop_last()[before] == names[before]);
        }
    }
}

/// Putting a session in keeps the table well formed, and the session is then
/// the one kept under its name.
pub proof fn lemma_put(table: SessionTable, name: Seq<char>, session: Session)
    requires
        table.well_formed(),
    ensures
        table.put(name, session).well_formed(),
        table.put(name, session).has(name),
        table.put(name, session).at(name) == session,
{
    lemma_place_of(table.names, name);
    let after = table.put(name, session);
    lemma_place_of(after.names, name);
    if !table.has(name) {
        assert forall|i: int, j: int|
            0 <= i < after.names.len() && 0 <= j < after.names.len() && i != j implies after.names[i]
            != after.names[j] by {
            if i < table.names.len() && j < table.names.len() {
                assert(table.names[i] != table.names[j]);
            }
        }
        assert(after.names[table.names.len() as int] == name);
    }
    let place = place_of(after.names, name);
    if table.has(name) {
        assert(after.names[place_of(table.names, name)] == name);
    }
    assert(place < after.names.len());
    assert(after.names[place] == name);
}

/// The first place of a name in the leading part of `names` is its first
/// place in the whole.
pub proof fn lemma_first_place_stays(names: Seq<Seq<char>>, name: Seq<char>, i: int)
    requires
        0 <= i < names.len(),
        place_of(names.take(i), name) == i,
        names[i] == name,
    ensures
        place_of(names, name) == i,
{
    lemma_place_of(names, name);
    lemma_place_of(names.take(i), name);
    let place = place_of(names, name);
    if place < i {
        assert(names.take(i)[place] == names[place]);
    }
}

/// The sessions of all users, each kept under the name that its user had
/// when the session was put in.
#[derive(Debug)]
pub struct UserSessions {
    names: Vec<Username>,
    data: Vec<Session>,
}

impl Default for UserSessions {
    fn default() -> (sessions: Self)
        ensures
            sessions.well_formed(),
            sessions.table().names == Seq::<Seq<char>>::empty(),
            sessions.table().sessions == Seq::<Session>::empty(),
    {
        let sessions = UserSessions { names: Vec::new(), data: Vec::new() };
        assert(sessions.table().names =~= Seq::<Seq<char>>::empty());
        sessions
    }
}

impl UserSessions {
    /// The sessions and the names that they are kept under.
    pub closed spec fn table(&self) -> SessionTable {
        SessionTable { names: self.names@.map_values(|name: Username| name@), sessions: self.data@ }
    }

    /// The invariant: each session has its name, and no name stands twice.
    pub open spec fn well_formed(&self) -> bool {
        self.table().well_formed()
    }

    /// Where the session of `name` is kept.
    fn find(&self, name: &Username) -> (place: usize)
        ensures
            place == place_of(self.table().names, name@),
            place <= self.table().names.len(),
    {
        let ghost names = self.table().names;
        let mut i: usize = 0;
        while i < self.names.len()
            invariant
                names == self.table().names,
                names.len() == self.names@.len(),
                i <= names.len(),
                place_of(names.take(i as int), name@) == i,
            decreases names.len() - i,
        {
            proof {
                assert(names.take(i + 1).drop_last() =~= names.take(i as int));
                assert(names[i as int] == self.names@[i as int]@);
            }
            if self.names[i].is(name.as_str()) {
                proof {
                    lemma_first_place_stays(names, name@, i as int);
                }
                return i;
            }
            i = i + 1;
        }
        assert(names.take(i as int) =~= names);
        i
    }

    /// Keeps `session` under `name`: in place of the session that was kept
    /// under it, or at the end where there was none.
    fn put_session(&mut self, name: Username, session: Session)
        requires
            old(self).well_formed(),
        ensures
            final(self).well_formed(),
            final(self).table() == old(self).table().put(name@, session),
    {
        proof {
            lemma_put(self.table(), name@, session);
        }
        let place = self.find(&name);
        if place < self.data.len() {
            self.data[place] = session;
            assert(self.table().sessions =~= old(self).table().sessions.update(place as int, session));
        } else {
            self.names.push(name);
            self.data.push(session);
            assert(self.table().names =~= old(self).table().names.push(name@));
        }
    }

    /// Puts a signed-out session in for each of `data`; a user who has a
    /// session gets a new one all the same.
    pub fn fill(&mut self, data: Vec<User>)
        requires
            old(self).well_formed(),
        ensures
            final(self).well_formed(),
            final(self).table() == old(self).table().put_all(data@),
    {
        let ghost all = data@;
        proof {
            assert(all.take(0) =~= Seq::<User>::empty());
        }
        for user in iter: data
            invariant
                self.well_formed(),
                iter.seq() == all,
                self.table() == old(self).table().put_all(all.take(iter.index() as int)),
        {
            proof {
                let done = iter.index() as int;
                assert(all.take(done + 1).drop_last() =~= all.take(done));
                assert(all.take(done + 1).last() == user);
            }
            let name = user.username().clone_name();
            self.put_session(name, Session::from(user));
        }
        assert(all.take(all.len() as int) =~= all);
    }

    /// Signs the user `target` in with `jwt`; false, with nothing changed,
    /// where no session is kept under that name.
    pub fn register_authentication(
        &mut self,
        jwt: JWT,
        target: &Username,
        expired: &ExpiredTokens,
    ) -> (found: bool)
        requires
            old(self).well_formed(),
        ensures
            final(self).well_formed(),
            found == old(self).table().has(target@),
            !found ==> final(self).table() == old(self).table(),
            found ==> final(self).table() == old(self).table().put(
                target@,
                old(self).table().at(target@).with_token(jwt),
            ),
    {
        let place = self.find(target);
        if place < self.data.len() {
            let ghost before = self.data@;
            self.data[place].set_auth(jwt, expired);
            assert(self.data@ =~= before.update(place as int, before[place as int].with_token(jwt)));
            true
        } else {
            false
        }
    }

    /// Signs `user` in with `jwt`: with the session kept under their name,
    /// where there is one, else with a session of a new user.
    pub fn register_new_user(&mut self, user: User, jwt: JWT, expired: &ExpiredTokens)
        requires
            old(self).well_formed(),
        ensures
            final(self).well_formed(),
            old(self).table().has(user.name()) ==> final(self).table() == old(self).table().put(
                user.name(),
                old(self).table().at(user.name()).with_token(jwt),
            ),
            !old(self).table().has(user.name()) ==> ({
                &&& final(self).table().names == old(self).table().names.push(user.name())
                &&& final(self).table().sessions.drop_last() == old(self).table().sessions
                &&& final(self).table().sessions.last().user() == user
                &&& final(self).table().sessions.last().token() == Some(jwt@)
                &&& final(self).table().sessions.last().fresh()
            }),
    {
        let place = self.find(user.username());
        let ghost before = self.data@;
        if place < self.data.len() {
            self.data[place].set_auth(jwt, expired);
            assert(self.data@ =~= before.update(place as int, before[place as int].with_token(jwt)));
        } else {
            let name = user.username().clone_name();
            let session = Session::new(user, Some(jwt), true);
            proof {
                lemma_put(self.table(), name@, session);
            }
            self.names.push(name);
            self.data.push(session);
            assert(self.table().names =~= old(self).table().names.push(name@));
            assert(self.data@.drop_last() =~= before);
        }
    }

    /// The users that were created in this run, in the order of their
    /// sessions.
    pub fn get_new_users(&self) -> (users: Vec<&User>)
        ensures
            users@.map_values(|user: &User| *user) == self.table().sessions.filter(
                |session: Session| session.fresh(),
            ).map_values(|session: Session| session.user()),
    {
        let mut users: Vec<&User> = Vec::new();
        let mut i: usize = 0;
        proof {
            assert(self.data@.take(0) =~= Seq::<Session>::empty());
            assert(users@.map_values(|user: &User| *user) =~= Seq::<User>::empty());
        }
        while i < self.data.len()
            invariant
                i <= self.data@.len(),
                users@.map_values(|user: &User| *user) == self.data@.take(i as int).filter(
                    |session: Session| session.fresh(),
                ).map_values(|session: Session| session.user()),
            decreases self.data@.len() - i,
        {
            let ghost seen = self.data@.take(i as int);
            let ghost had = users@;
            proof {
                reveal(Seq::filter);
                assert(self.data@.take(i + 1).drop_last() =~= seen);
                assert(self.data@.take(i + 1).last() == self.data@[i as int]);
            }
            if self.data[i].is_new() {
                users.push(self.data[i].target());
                assert(users@.map_values(|user: &User| *user) =~= had.map_values(
                    |user: &User| *user,
                ).push(self.data@[i as int].user()));
                assert(seen.filter(|session: Session| session.fresh()).push(
                    self.data@[i as int],
                ).map_values(|session: Session| session.user()) =~= seen.filter(
                    |session: Session| session.fresh(),
                ).map_values(|session: Session| session.user()).push(
                    self.data@[i as int].user(),
                ));
            }
            i = i + 1;
        }
        assert(self.data@.take(i as int) =~= self.data@);
        users
    }

    /// Where the first session stands whose user is signed in with `jwt`;
    /// the number of sessions where there is none.
    fn find_auth(&self, jwt: &JWT) -> (place: usize)
        ensures
            place <= self.table().sessions.len(),
            place < self.table().sessions.len() ==> self.table().sessions[place as int].token()
                == Some(jwt@),
            forall|k: int| 0 <= k < place ==> self.table().sessions[k].token() != Some(jwt@),
    {
        let mut i: usize = 0;
        while i < self.data.len()
            invariant
                i <= self.data@.len(),
                forall|k: int| 0 <= k < i ==> self.data@[k].token() != Some(jwt@),
            decreases self.data@.len() - i,
        {
            if self.data[i].holds(jwt) {
                return i;
            }
            i = i + 1;
        }
        i
    }

    /// The first session whose user is signed in with `jwt`, if there is
    /// one.
    pub fn get_user_by_auth(&self, jwt: &JWT) -> (session: Option<&Session>)
        ensures
            session is Some ==> session->0.token() == Some(jwt@)
                && self.table().sessions.contains(*session->0),
            session is None ==> forall|i: int|
                0 <= i < self.table().sessions.len() ==> self.table().sessions[i].token() != Some(
                    jwt@,
                ),
    {
        let place = self.find_auth(jwt);
        if place < self.data.len() {
            assert(self.data@[place as int] == self.data[place as int]);
            Some(&self.data[place])
        } else {
            None
        }
    }

    /// The first session whose user is signed in with `jwt`, if there is
    /// one, to be changed in place.
    pub fn get_user_by_auth_mut(&mut self, jwt: &JWT) -> (session: Option<&mut Session>)
        requires
            old(self).well_formed(),
        ensures
            final(self).well_formed(),
            final(self).table().names == old(self).table().names,
            session is None ==> final(self).table() == old(self).table() && forall|i: int|
                0 <= i < old(self).table().sessions.len() ==> old(self).table().sessions[i].token()
                    != Some(jwt@),
            session is Some ==> session->0.token() == Some(jwt@) && exists|i: int|
                0 <= i < old(self).table().sessions.len() && *session->0 == old(self).table().sessions[i] && final(self).table().sessions == old(self).table().sessions.update(i, *final(session->0)),
    {
        let place = self.find_auth(jwt);
        if place < self.data.len() {
            Some(&mut self.data[place])
        } else {
            None
        }
    }

    /// The session kept under `username`, if there is one.
    pub fn get_user_by_username(&self, username: &Username) -> (session: Option<&Session>)
        requires
            self.well_formed(),
        ensures
            session is Some <==> self.table().has(username@),
            session is Some ==> *session->0 == self.table().at(username@),
    {
        let place = self.find(username);
        if place < self.data.len() {
            Some(&self.data[place])
        } else {
            None
        }
    }

    /// The session kept under `username`, if there is one, to be changed in
    /// place.
    pub fn get_user_by_username_mut(
        &mut self,
        username: &Username,
    ) -> (session: Option<&mut Session>)
        requires
            old(self).well_formed(),
        ensures
            final(self).well_formed(),
            session is Some <==> old(self).table().has(username@),
            session is None ==> final(self).table() == old(self).table(),
            session is Some ==> *session->0 == old(self).table().at(username@) && final(self).table() == old(self).table().put(username@, *final(session->0)),
    {
        let place = self.find(username);
        if place < self.data.len() {
            Some(&mut self.data[place])
        } else {
            None
        }
    }
}

/// The sessions of all users, shared between threads behind a mutex.
pub struct SessionProvider {
    data: Arc<Mutex<UserSessions>>,
}

impl Default for SessionProvider {
    fn default() -> Self {
        SessionProvider { data: Arc::new(mutex_new(UserSessions::default())) }
    }
}

impl SessionProvider {
    /// The lock that the threads share.
    pub closed spec fn shared(&self) -> Arc<Mutex<UserSessions>> {
        self.data
    }
}

impl MutexProvider for SessionProvider {
    type Data = UserSessions;

    /// Leads to the lock of this provider.
    fn access_raw(&self) -> (access: ProtectedAccess<'_, Arc<Mutex<Self::Data>>>)
        ensures
            *access.data() == self.shared(),
    {
        ProtectedAccess::new(&self.data)
    }
}

impl MutexProviderAccess for SessionProvider {

}

} // verus!
