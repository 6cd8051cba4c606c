use backend::auth::{ExpiredTokens, Session, SessionProvider, TokenSet, UserSessions, JWT};
use backend::lock::{MutexProvider, MutexProviderAccess};
use backend::usr::{RawUser, User, Username};

const HASH: &str = "$2y$12$L6Bc/AlTQHyd9liGgGEZyOFLPHNgyxeEPfgYfBCVxJ7JIlwxyVU3u";
const OTHER_HASH: &str = "$2b$04$L6Bc/AlTQHyd9liGgGEZyOFLPHNgyxeEPfgYfBCVxJ7JIlwxyVU3u";

fn user(name: &str) -> User {
    let raw = RawUser::new(
        name.to_string(),
        format!("{name}-first"),
        format!("{name}-last"),
        HASH.to_string(),
    );
    User::from_raw(raw).unwrap()
}

fn jwt(text: &str) -> JWT {
    JWT::from(text.to_string())
}

fn name(text: &str) -> Username {
    Username::from(text.to_string())
}

#[test]
fn tokens_are_text() {
    let token = jwt("abc.def");
    assert_eq!(token.as_str(), "abc.def");
    assert_eq!(token.to_string(), "abc.def");
    assert!(token.is("abc.def"));
    assert!(token == *"abc.def");
    assert!(token != *"abc");
    assert_eq!(token.len(), 7);
    assert!(token.starts_with("abc"));
    assert!(!token.is("abc"));
    assert_eq!(token, "abc.def".parse::<JWT>().unwrap());
    assert_ne!(token, jwt("abc.deg"));
    assert_eq!(token.clone(), token);
}

#[test]
fn expired_tokens_are_remembered() {
    let expired = ExpiredTokens::default();
    assert!(!expired.is_expired(&jwt("a")));
    expired.register_expired(jwt("a"));
    expired.register_expired(jwt("b"));
    expired.register_expired(jwt("a"));
    assert!(expired.is_expired(&jwt("a")));
    assert!(expired.is_expired(&jwt("b")));
    assert!(!expired.is_expired(&jwt("c")));
    expired.reset();
    assert!(!expired.is_expired(&jwt("a")));
    assert!(!expired.is_expired(&jwt("b")));
}

#[test]
fn session_signs_in_and_out() {
    let expired = ExpiredTokens::default();
    let mut session = Session::from(user("ann"));
    assert!(!session.is_authenticated());
    assert!(!session.is_new());
    assert_eq!(session.get_auth(), None);
    assert_eq!(session.target().username().as_str(), "ann");

    session.set_auth(jwt("t1"), &expired);
    assert!(session.is_authenticated());
    assert_eq!(session.get_auth(), Some(&jwt("t1")));
    assert!(session.holds(&jwt("t1")));
    assert!(!session.holds(&jwt("t2")));
    assert!(!expired.is_expired(&jwt("t1")));

    session.set_auth(jwt("t2"), &expired);
    assert_eq!(session.get_auth(), Some(&jwt("t2")));
    assert!(expired.is_expired(&jwt("t1")));
    assert!(!expired.is_expired(&jwt("t2")));

    session.expire_auth(&expired);
    assert!(!session.is_authenticated());
    assert!(expired.is_expired(&jwt("t2")));
    session.expire_auth(&expired);
    assert!(!session.is_authenticated());

    let fresh = Session::new(user("bob"), Some(jwt("t3")), true);
    assert!(fresh.is_new());
    assert!(fresh.is_authenticated());
}

#[test]
fn sessions_hold_one_session_for_each_user() {
    let expired = ExpiredTokens::default();
    let mut sessions = UserSessions::default();
    sessions.fill(vec![user("ann"), user("bob"), user("ann")]);
    assert!(sessions.get_user_by_username(&name("ann")).is_some());
    assert!(sessions.get_user_by_username(&name("bob")).is_some());
    assert!(sessions.get_user_by_username(&name("cy")).is_none());
    assert!(sessions.get_new_users().is_empty());

    assert!(sessions.register_authentication(jwt("a1"), &name("ann"), &expired));
    assert!(!sessions.register_authentication(jwt("c1"), &name("cy"), &expired));
    assert_eq!(
        sessions.get_user_by_auth(&jwt("a1")).unwrap().target().username().as_str(),
        "ann"
    );
    assert!(sessions.get_user_by_auth(&jwt("c1")).is_none());
    assert!(!sessions.get_user_by_username(&name("bob")).unwrap().is_authenticated());

    sessions.register_new_user(user("cy"), jwt("c2"), &expired);
    sessions.register_new_user(user("ann"), jwt("a2"), &expired);
    sessions.register_new_user(user("dee"), jwt("d1"), &expired);
    assert!(expired.is_expired(&jwt("a1")));
    assert!(sessions.get_user_by_auth(&jwt("a1")).is_none());
    assert_eq!(
        sessions.get_user_by_auth(&jwt("a2")).unwrap().target().username().as_str(),
        "ann"
    );
    let new_users: Vec<&str> =
        sessions.get_new_users().iter().map(|user| user.username().as_str()).collect();
    assert_eq!(new_users, vec!["cy", "dee"]);
    assert!(!sessions.get_user_by_username(&name("ann")).unwrap().is_new());
    assert!(sessions.get_user_by_username(&name("cy")).unwrap().is_new());

    let session = sessions.get_user_by_username_mut(&name("bob")).unwrap();
    session.set_auth(jwt("b1"), &expired);
    assert!(sessions.get_user_by_username_mut(&name("zed")).is_none());
    assert!(sessions.get_user_by_auth_mut(&jwt("zz")).is_none());
    let session = sessions.get_user_by_auth_mut(&jwt("b1")).unwrap();
    assert_eq!(session.target().username().as_str(), "bob");
    session.expire_auth(&expired);
    assert!(expired.is_expired(&jwt("b1")));
    assert!(sessions.get_user_by_auth(&jwt("b1")).is_none());
    assert!(!sessions.get_user_by_username(&name("bob")).unwrap().is_authenticated());

    // filling again signs a user out and makes them an old user
    sessions.fill(vec![user("cy")]);
    assert!(!sessions.get_user_by_username(&name("cy")).unwrap().is_authenticated());
    let new_users: Vec<&str> =
        sessions.get_new_users().iter().map(|user| user.username().as_str()).collect();
    assert_eq!(new_users, vec!["dee"]);
}

#[test]
fn session_provider_shares_the_sessions() {
    let provider = SessionProvider::default();
    assert!(!provider.is_poisoned());
    {
        let mut guard = provider.access();
        guard.access_mut().unwrap().fill(vec![user("ann")]);
    }
    {
        let guard = provider.access();
        assert!(guard.access().unwrap().get_user_by_username(&name("ann")).is_some());
    }
    provider.set_to_default();
    let guard = provider.access();
    assert!(guard.access().unwrap().get_user_by_username(&name("ann")).is_none());
}

#[test]
fn users_and_their_hashes() {
    let mut ann = user("ann");
    assert_eq!(ann.username().as_str(), "ann");
    assert_eq!(ann.username().to_string(), "ann");
    assert!(ann.username().is("ann"));
    assert!(*ann.username() == *"ann");
    assert_eq!(ann.username().to_uppercase(), "ANN");
    assert_eq!(ann.get_names(), ("ann-first", "ann-last"));
    assert_eq!(ann.password(), HASH);
    assert_eq!(ann.salt(), "L6Bc/AlTQHyd9liGgGEZyO");
    ann.set_username(name("anna"));
    assert_eq!(ann.username(), &name("anna"));
    assert_eq!("anna".parse::<Username>().unwrap(), name("anna"));

    let raw: RawUser = ann.into();
    assert_eq!(
        raw,
        RawUser::new("anna".into(), "ann-first".into(), "ann-last".into(), HASH.into())
    );
    let back = User::try_from(raw.clone()).unwrap();
    assert_eq!(back.into_raw(), raw);

    let other = User::from_raw(RawUser::new("o".into(), "f".into(), "l".into(), OTHER_HASH.into()));
    // the hash is written back with the one prefix the crate writes
    assert_eq!(
        other.unwrap().password(),
        "$2y$04$L6Bc/AlTQHyd9liGgGEZyOFLPHNgyxeEPfgYfBCVxJ7JIlwxyVU3u"
    );
}

#[test]
fn a_password_that_is_no_hash_is_refused() {
    for password in ["", "secret", "$2y$12$short", "$9z$12$L6Bc/AlTQHyd9liGgGEZyOFLPHNgyxeEPfgYfBCVxJ7JIlwxyVU3u"] {
        let raw = RawUser::new("u".into(), "f".into(), "l".into(), password.into());
        assert!(User::from_raw(raw.clone()).is_err());
        assert!(User::try_from(raw).is_err());
    }
}

#[test]
fn compute_password_replaces_the_hash() {
    let parts: bcrypt::HashParts = OTHER_HASH.parse().unwrap();
    let mut ann = User::new(name("ann"), "f".into(), "l".into(), parts);
    let before = ann.password();
    assert!(ann.compute_password("hunter2".to_string()).is_ok());
    let after = ann.password();
    assert_ne!(before, after);
    assert!(bcrypt::verify("hunter2", &after).unwrap());
    assert!(!bcrypt::verify("hunter3", &after).unwrap());
    assert_eq!(ann.get_names(), ("f", "l"));
}

#[test]
fn token_set_holds_each_token_once() {
    let mut set = TokenSet::new();
    assert!(!set.contains(&jwt("a")));
    assert!(set.insert(jwt("a")));
    assert!(set.insert(jwt("b")));
    assert!(!set.insert(jwt("a")));
    assert!(set.contains(&jwt("a")));
    assert!(set.contains(&jwt("b")));
    assert!(!set.contains(&jwt("c")));
    assert!(!set.contains(&jwt("")));
}

#[test]
fn take_hash_keeps_the_old_hash_on_an_error() {
    let mut ann = user("ann");
    let before = ann.password();
    let error = "no hash".parse::<bcrypt::HashParts>().unwrap_err();
    assert!(ann.take_hash(Err(error)).is_err());
    assert_eq!(ann.password(), before);
    let parts: bcrypt::HashParts = OTHER_HASH.parse().unwrap();
    assert!(ann.take_hash(Ok(parts)).is_ok());
    assert_ne!(ann.password(), before);
    assert_eq!(ann.get_names(), ("ann-first", "ann-last"));
}
