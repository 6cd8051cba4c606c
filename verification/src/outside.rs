//! Types and functions from outside this crate that the rest builds on.
//! Nothing here is proved: each contract says what the rest takes on trust.

use vstd::prelude::*;
use vstd::utf8::{decode_utf8, valid_utf8};

verus! {

/// `String::push` of std appends one character to the string.
pub assume_specification[ String::push ](text: &mut String, c: char)
    ensures
        final(text)@ == old(text)@.push(c),
;

/// `String::push_str` of std appends the characters of `more` to the string.
pub assume_specification[ String::push_str ](text: &mut String, more: &str)
    ensures
        final(text)@ == old(text)@ + more@,
;

/// `std::string::FromUtf8Error`: why bytes are not the UTF-8 form of a text.
/// Nothing is known of what it holds.
#[verifier::external_type_specification]
#[verifier::external_body]
pub struct ExFromUtf8Error(std::string::FromUtf8Error);

/// `String::from_utf8` of std. It succeeds exactly on bytes that are valid
/// UTF-8, and then gives the text that the bytes encode.
#[verifier::external_body]
pub(crate) fn text_from_utf8(bytes: Vec<u8>) -> (text: Result<String, std::string::FromUtf8Error>)
    ensures
        text is Ok <==> valid_utf8(bytes@),
        text is Ok ==> text->Ok_0@ == decode_utf8(bytes@),
{
    String::from_utf8(bytes)
}

/// Whether `char::is_numeric` of std holds of `c`: whether Unicode puts the
/// character in one of its categories of numbers.
pub uninterp spec fn numeric_char(c: char) -> bool;

/// `char::is_numeric` of std. The ten digits `0` to `9` are numeric; what
/// else is, Unicode decides.
#[verifier::external_body]
pub(crate) fn char_is_numeric(c: char) -> (numeric: bool)
    ensures
        numeric == numeric_char(c),
        ('0' <= c && c <= '9') ==> numeric,
{
    c.is_numeric()
}

/// `format!` of std with `{:?}`: the text that the `Debug` impl of `T` gives
/// for `value`. That text is for `T` to choose: nothing is claimed of it.
#[verifier::external_body]
pub(crate) fn debug_text<T: core::fmt::Debug>(value: &T) -> String {
    format!("{:?}", value)
}

/// `std::io::Error`: why a read or a write on a stream failed. Nothing is
/// known of what it holds.
#[verifier::external_type_specification]
#[verifier::external_body]
pub struct ExIoError(std::io::Error);

/// `std::sync::RwLock`: a read-write lock around a value. Nothing is known
/// of what it holds: other threads may change it at any time.
#[verifier::external_type_specification]
#[verifier::external_body]
#[verifier::reject_recursive_types(T)]
pub struct ExRwLock<T: ?Sized>(std::sync::RwLock<T>);

/// `std::sync::Mutex`: a mutex around a value. Nothing is known of what it
/// holds: other threads may change it at any time.
#[verifier::external_type_specification]
#[verifier::external_body]
#[verifier::reject_recursive_types(T)]
pub struct ExMutex<T: ?Sized>(std::sync::Mutex<T>);

/// `std::sync::RwLockReadGuard`: the guard of a read lock that was taken.
/// Nothing is known of what it guards.
#[verifier::external_type_specification]
#[verifier::external_body]
#[verifier::reject_recursive_types(T)]
pub struct ExRwLockReadGuard<'a, T: ?Sized>(std::sync::RwLockReadGuard<'a, T>);

/// `std::sync::RwLockWriteGuard`: the guard of a write lock that was taken.
/// Nothing is known of what it guards.
#[verifier::external_type_specification]
#[verifier::external_body]
#[verifier::reject_recursive_types(T)]
pub struct ExRwLockWriteGuard<'a, T: ?Sized + 'a>(std::sync::RwLockWriteGuard<'a, T>);

/// `std::sync::MutexGuard`: the guard of a mutex that was locked. Nothing is
/// known of what it guards.
#[verifier::external_type_specification]
#[verifier::external_body]
#[verifier::reject_recursive_types(T)]
pub struct ExMutexGuard<'a, T: ?Sized + 'a>(std::sync::MutexGuard<'a, T>);

/// `std::sync::PoisonError` of std: the error of taking a lock that a
/// panicking thread left behind. It holds the guard all the same.
#[verifier::external_type_specification]
#[verifier::external_body]
#[verifier::reject_recursive_types(G)]
pub struct ExStdPoisonError<G>(std::sync::PoisonError<G>);

/// `RwLock::new` of std: a read-write lock around `value`. Nothing is known
/// of what a lock holds later.
#[verifier::external_body]
pub(crate) fn rwlock_new<T>(value: T) -> std::sync::RwLock<T> {
    std::sync::RwLock::new(value)
}

/// `RwLock::read`: waits for the read lock. Which of the two comes back
/// depends on the other threads: nothing is claimed of it. A thread that
/// holds the lock already must not call it: std may then panic or wait for
/// ever.
#[verifier::external_body]
pub(crate) fn rwlock_read<'a, T>(
    lock: &'a std::sync::Arc<std::sync::RwLock<T>>,
) -> Result<std::sync::RwLockReadGuard<'a, T>, std::sync::PoisonError<std::sync::RwLockReadGuard<'a, T>>> {
    lock.read()
}

/// `RwLock::write`: waits for the write lock. Which of the two comes back
/// depends on the other threads: nothing is claimed of it. A thread that
/// holds the lock already must not call it: std may then panic or wait for
/// ever.
#[verifier::external_body]
pub(crate) fn rwlock_write<'a, T>(
    lock: &'a std::sync::Arc<std::sync::RwLock<T>>,
) -> Result<std::sync::RwLockWriteGuard<'a, T>, std::sync::PoisonError<std::sync::RwLockWriteGuard<'a, T>>> {
    lock.write()
}

/// `RwLock::is_poisoned`: whether the lock is poisoned at this moment.
#[verifier::external_body]
pub(crate) fn rwlock_is_poisoned<T>(lock: &std::sync::Arc<std::sync::RwLock<T>>) -> bool {
    lock.is_poisoned()
}

/// `RwLock::clear_poison`: takes the poisoning from the lock.
#[verifier::external_body]
pub(crate) fn rwlock_clear_poison<T>(lock: &std::sync::Arc<std::sync::RwLock<T>>) {
    lock.clear_poison()
}

/// `deref` on a `RwLockReadGuard`: the value behind the lock. Nothing is
/// claimed of it.
#[verifier::external_body]
pub(crate) fn read_target<'b, 'a, T>(guard: &'b std::sync::RwLockReadGuard<'a, T>) -> &'b T {
    guard
}

/// `deref_mut` on a `RwLockWriteGuard`: the value behind the lock, to be
/// changed in place. Nothing is claimed of it.
#[verifier::external_body]
pub(crate) fn write_target_mut<'b, 'a, T>(
    guard: &'b mut std::sync::RwLockWriteGuard<'a, T>,
) -> &'b mut T {
    guard
}

/// `Mutex::new` of std: a mutex around `value`. Nothing is known of what a
/// mutex holds later.
#[verifier::external_body]
pub(crate) fn mutex_new<T>(value: T) -> std::sync::Mutex<T> {
    std::sync::Mutex::new(value)
}

/// `Mutex::lock`: waits for the mutex. Which of the two comes back depends
/// on the other threads: nothing is claimed of it. A thread that holds the
/// mutex already must not call it: std may then panic or wait for ever.
#[verifier::external_body]
pub(crate) fn mutex_lock<'a, T>(
    lock: &'a std::sync::Arc<std::sync::Mutex<T>>,
) -> Result<std::sync::MutexGuard<'a, T>, std::sync::PoisonError<std::sync::MutexGuard<'a, T>>> {
    lock.lock()
}

/// `Mutex::is_poisoned`: whether the mutex is poisoned at this moment.
#[verifier::external_body]
pub(crate) fn mutex_is_poisoned<T>(lock: &std::sync::Arc<std::sync::Mutex<T>>) -> bool {
    lock.is_poisoned()
}

/// `Mutex::clear_poison`: takes the poisoning from the mutex.
#[verifier::external_body]
pub(crate) fn mutex_clear_poison<T>(lock: &std::sync::Arc<std::sync::Mutex<T>>) {
    lock.clear_poison()
}

/// `deref` on a `MutexGuard`: the value behind the mutex. Nothing is claimed
/// of it.
#[verifier::external_body]
pub(crate) fn mutex_target<'b, 'a, T>(guard: &'b std::sync::MutexGuard<'a, T>) -> &'b T {
    guard
}

/// `deref_mut` on a `MutexGuard`: the value behind the mutex, to be changed
/// in place. Nothing is claimed of it.
#[verifier::external_body]
pub(crate) fn mutex_target_mut<'b, 'a, T>(
    guard: &'b mut std::sync::MutexGuard<'a, T>,
) -> &'b mut T {
    guard
}

/// `PoisonError::into_inner` of std: the guard that the error holds.
#[verifier::external_body]
pub(crate) fn poisoned_guard<G>(poisoned: std::sync::PoisonError<G>) -> G {
    poisoned.into_inner()
}

/// `serde_json::Error`: why a value could not be written as JSON, or why a
/// text could not be read as the JSON of a value. Nothing is known of what
/// it holds.
#[verifier::external_type_specification]
#[verifier::external_body]
pub struct ExJsonError(serde_json::Error);

/// `chrono::Local::now`, shown as text: the time of this machine at the
/// moment of the call. It differs from call to call: nothing is claimed of it.
#[verifier::external_body]
pub(crate) fn local_time_text() -> String {
    chrono::Local::now().to_string()
}

/// `bcrypt::HashParts`: a bcrypt hash, taken apart into cost, salt and
/// hash. Nothing is known of what it holds.
#[verifier::external_type_specification]
#[verifier::external_body]
pub struct ExHashParts(bcrypt::HashParts);

/// `bcrypt::BcryptError`: why a password could not be hashed, or why a text
/// is not a bcrypt hash. Nothing is known of what it holds.
#[verifier::external_type_specification]
#[verifier::external_body]
pub struct ExBcryptError(bcrypt::BcryptError);

/// `from_str` on `bcrypt::HashParts`: takes a bcrypt hash apart. Which texts
/// are hashes the crate decides: nothing is claimed of the result.
#[verifier::external_body]
pub(crate) fn hash_parts_of(text: &str) -> Result<bcrypt::HashParts, bcrypt::BcryptError> {
    text.parse()
}

/// `to_string` on `bcrypt::HashParts`: the hash as one text. Nothing is
/// claimed of it.
#[verifier::external_body]
pub(crate) fn hash_parts_text(parts: &bcrypt::HashParts) -> String {
    parts.to_string()
}

/// `bcrypt::HashParts::get_salt`: the salt of the hash. Nothing is claimed
/// of it.
#[verifier::external_body]
pub(crate) fn hash_parts_salt(parts: &bcrypt::HashParts) -> String {
    parts.get_salt()
}

/// `bcrypt::hash_with_result` at `bcrypt::DEFAULT_COST`: hashes a password
/// with a salt drawn at random, so that two calls on one password differ.
/// Nothing is claimed of the result.
#[verifier::external_body]
pub(crate) fn hash_password(password: String) -> Result<bcrypt::HashParts, bcrypt::BcryptError> {
    bcrypt::hash_with_result(password, bcrypt::DEFAULT_COST)
}

} // verus!
