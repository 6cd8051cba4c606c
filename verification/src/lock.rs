//! Guards around the locks of std, and providers of values behind such
//! locks. A guard holds what taking a lock gave: the guard of the lock, or
//! the report of its poisoning.

use vstd::prelude::*;
use std::sync::{Arc, Mutex, RwLock, RwLockReadGuard, RwLockWriteGuard};
use crate::error::PoisonError;
use crate::outside::{
    debug_text, mutex_clear_poison, mutex_is_poisoned, mutex_lock, mutex_target,
    mutex_target_mut, poisoned_guard, read_target, rwlock_clear_poison, rwlock_is_poisoned,
    rwlock_read, rwlock_write, write_target_mut,
};

verus! {

/// What taking a read lock gave: the guard, or the report of the poisoning.
#[verifier::reject_recursive_types(T)]
pub struct ReadGuard<'a, T> {
    inner: Result<RwLockReadGuard<'a, T>, PoisonError>,
}

impl<'a, T> ReadGuard<'a, T> {
    /// What this guard holds.
    pub closed spec fn inner(&self) -> Result<RwLockReadGuard<'a, T>, PoisonError> {
        self.inner
    }

    /// The guard that holds `inner`.
    pub closed spec fn holding(inner: Result<RwLockReadGuard<'a, T>, PoisonError>) -> Self {
        ReadGuard { inner }
    }

    /// The guard that holds `inner`.
    pub(crate) fn wrap(inner: Result<RwLockReadGuard<'a, T>, PoisonError>) -> (guard: Self)
        ensures
            guard == Self::holding(inner),
    {
        ReadGuard { inner }
    }

    /// The value behind the lock, where the lock was taken.
    pub fn access(&self) -> (value: Option<&T>)
        ensures
            value is Some <==> self.inner() is Ok,
    {
        match &self.inner {
            Ok(guard) => Some(read_target(guard)),
            Err(_) => None,
        }
    }

    /// The report of the poisoning, where the lock was poisoned.
    pub fn access_error(&self) -> (error: Option<&PoisonError>)
        ensures
            error == match self.inner() {
                Ok(_) => None::<&PoisonError>,
                Err(e) => Some(&e),
            },
    {
        match &self.inner {
            Ok(_) => None,
            Err(error) => Some(error),
        }
    }

    /// What this guard holds, by reference.
    pub fn as_ref(&self) -> (held: Result<&RwLockReadGuard<'a, T>, &PoisonError>)
        ensures
            held == match self.inner() {
                Ok(guard) => Ok::<&RwLockReadGuard<'a, T>, &PoisonError>(&guard),
                Err(error) => Err(&error),
            },
    {
        match &self.inner {
            Ok(guard) => Ok(guard),
            Err(error) => Err(error),
        }
    }

    /// The value behind the lock, or the report of the poisoning.
    pub fn as_deref(&self) -> (held: Result<&T, &PoisonError>)
        ensures
            held is Ok <==> self.inner() is Ok,
            held matches Err(error) ==> *error == self.inner()->Err_0,
    {
        match &self.inner {
            Ok(guard) => Ok(read_target(guard)),
            Err(error) => Err(error),
        }
    }

    /// Whether the lock was taken.
    pub fn is_ok(&self) -> (ok: bool)
        ensures
            ok == self.inner() is Ok,
    {
        self.inner.is_ok()
    }

    /// Whether the lock was poisoned.
    pub fn is_err(&self) -> (err: bool)
        ensures
            err == self.inner() is Err,
    {
        self.inner.is_err()
    }

    /// The report of the poisoning, where the lock was poisoned.
    pub fn take_err(self) -> (error: Option<PoisonError>)
        ensures
            error == match self.inner() {
                Ok(_) => None::<PoisonError>,
                Err(e) => Some(e),
            },
    {
        match self.inner {
            Ok(_) => None,
            Err(error) => Some(error),
        }
    }

    /// The guard of the lock, where the lock was taken.
    pub fn take_lock(self) -> (guard: Option<RwLockReadGuard<'a, T>>)
        ensures
            guard == match self.inner() {
                Ok(g) => Some(g),
                Err(_) => None::<RwLockReadGuard<'a, T>>,
            },
    {
        match self.inner {
            Ok(guard) => Some(guard),
            Err(_) => None,
        }
    }

    /// What this guard holds.
    pub fn take(self) -> (held: Result<RwLockReadGuard<'a, T>, PoisonError>)
        ensures
            held == self.inner(),
    {
        self.inner
    }

    /// The text of the value behind the lock; `(Poisioned)` where the lock
    /// was poisoned.
    pub fn to_string(&self) -> (text: String)
        where T: core::fmt::Display
        ensures
            self.inner() is Err ==> text@ == "(Poisioned)"@,
    {
        match self.as_deref() {
            Ok(value) => value.to_string(),
            Err(_) => "(Poisioned)".to_owned(),
        }
    }

    /// The text of the value behind the lock as `Debug` shows it; where the
    /// lock was poisoned, the report of the poisoning.
    pub fn to_debug_string(&self) -> (text: String)
        where T: core::fmt::Debug
        ensures
            self.inner() is Err ==> text@ == "(Poisoned: '"@ + self.inner()->Err_0.report() + "')"@,
    {
        match self.as_deref() {
            Ok(value) => debug_text(&value),
            Err(error) => {
                let mut text = "(Poisoned: '".to_owned();
                text.push_str(error.to_string().as_str());
                text.push_str("')");
                text
            },
        }
    }
}

impl<'a, T> From<RwLockReadGuard<'a, T>> for ReadGuard<'a, T> {
    fn from(value: RwLockReadGuard<'a, T>) -> (guard: Self) {
        ReadGuard { inner: Ok(value) }
    }
}

impl<'a, T> vstd::std_specs::convert::FromSpecImpl<RwLockReadGuard<'a, T>> for ReadGuard<'a, T> {
    open spec fn obeys_from_spec() -> bool {
        true
    }

    open spec fn from_spec(value: RwLockReadGuard<'a, T>) -> Self {
        Self::holding(Ok(value))
    }
}

impl<'a, T> From<PoisonError> for ReadGuard<'a, T> {
    fn from(value: PoisonError) -> (guard: Self) {
        ReadGuard { inner: Err(value) }
    }
}

impl<'a, T> vstd::std_specs::convert::FromSpecImpl<PoisonError> for ReadGuard<'a, T> {
    open spec fn obeys_from_spec() -> bool {
        true
    }

    open spec fn from_spec(value: PoisonError) -> Self {
        Self::holding(Err(value))
    }
}

impl<'a, T> From<Result<RwLockReadGuard<'a, T>, PoisonError>> for ReadGuard<'a, T> {
    fn from(value: Result<RwLockReadGuard<'a, T>, PoisonError>) -> (guard: Self) {
        ReadGuard { inner: value }
    }
}

impl<'a, T> vstd::std_specs::convert::FromSpecImpl<Result<RwLockReadGuard<'a, T>, PoisonError>> for ReadGuard<'a, T> {
    open spec fn obeys_from_spec() -> bool {
        true
    }

    open spec fn from_spec(value: Result<RwLockReadGuard<'a, T>, PoisonError>) -> Self {
        Self::holding(value)
    }
}

impl<'a, T: PartialEq> PartialEq for ReadGuard<'a, T> {
    /// Whether both locks were taken and hold equal values.
    fn eq(&self, other: &Self) -> (same: bool)
        ensures
            same ==> self.inner() is Ok && other.inner() is Ok,
    {
        match (self.as_deref(), other.as_deref()) {
            (Ok(a), Ok(b)) => *a == *b,
            _ => false,
        }
    }
}

impl<'a, T: PartialEq> vstd::std_specs::cmp::PartialEqSpecImpl for ReadGuard<'a, T> {
    /// Nothing is known of the values behind the locks, so `==` on guards
    /// has no meaning in contracts.
    open spec fn obeys_eq_spec() -> bool {
        false
    }

    open spec fn eq_spec(&self, other: &Self) -> bool {
        false
    }
}

impl<'a, T: PartialEq> PartialEq<T> for ReadGuard<'a, T> {
    /// Whether the lock was taken and holds a value equal to `other`.
    fn eq(&self, other: &T) -> (same: bool)
        ensures
            same ==> self.inner() is Ok,
    {
        match self.as_deref() {
            Ok(value) => *value == *other,
            Err(_) => false,
        }
    }
}

impl<'a, T: PartialEq> vstd::std_specs::cmp::PartialEqSpecImpl<T> for ReadGuard<'a, T> {
    /// Nothing is known of the value behind the lock, so `==` with a guard
    /// has no meaning in contracts.
    open spec fn obeys_eq_spec() -> bool {
        false
    }

    open spec fn eq_spec(&self, other: &T) -> bool {
        false
    }
}

/// What taking a write lock gave: the guard, or the report of the poisoning.
#[verifier::reject_recursive_types(T)]
pub struct WriteGuard<'a, T> {
    inner: Result<RwLockWriteGuard<'a, T>, PoisonError>,
}

impl<'a, T> WriteGuard<'a, T> {
    /// What this guard holds.
    pub closed spec fn inner(&self) -> Result<RwLockWriteGuard<'a, T>, PoisonError> {
        self.inner
    }

    /// The guard that holds `inner`.
    pub closed spec fn holding(inner: Result<RwLockWriteGuard<'a, T>, PoisonError>) -> Self {
        WriteGuard { inner }
    }

    /// The guard that holds `inner`.
    pub(crate) fn wrap(inner: Result<RwLockWriteGuard<'a, T>, PoisonError>) -> (guard: Self)
        ensures
            guard == Self::holding(inner),
    {
        WriteGuard { inner }
    }

    /// The value behind the lock, to be changed in place, where the lock
    /// was taken.
    pub fn access(&mut self) -> (value: Option<&mut T>)
        ensures
            value is Some <==> old(self).inner() is Ok,
            final(self).inner() is Ok <==> old(self).inner() is Ok,
            old(self).inner() is Err ==> final(self).inner() == old(self).inner(),
    {
        match &mut self.inner {
            Ok(guard) => Some(write_target_mut(guard)),
            Err(_) => None,
        }
    }

    /// The report of the poisoning, where the lock was poisoned.
    pub fn access_error(&self) -> (error: Option<&PoisonError>)
        ensures
            error == match self.inner() {
                Ok(_) => None::<&PoisonError>,
                Err(e) => Some(&e),
            },
    {
        match &self.inner {
            Ok(_) => None,
            Err(error) => Some(error),
        }
    }

    /// What this guard holds, by reference, to be changed in place.
    pub fn as_ref(&mut self) -> (held: Result<&mut RwLockWriteGuard<'a, T>, &mut PoisonError>)
        ensures
            held is Ok <==> old(self).inner() is Ok,
            held matches Ok(guard) ==> *guard == old(self).inner()->Ok_0 && final(self).inner()
                == Ok::<RwLockWriteGuard<'a, T>, PoisonError>(*final(guard)),
            held matches Err(error) ==> *error == old(self).inner()->Err_0 && final(self).inner()
                == Err::<RwLockWriteGuard<'a, T>, PoisonError>(*final(error)),
    {
        match &mut self.inner {
            Ok(guard) => Ok(guard),
            Err(error) => Err(error),
        }
    }

    /// The value behind the lock, or the report of the poisoning, each to
    /// be changed in place.
    pub fn as_deref(&mut self) -> (held: Result<&mut T, &mut PoisonError>)
        ensures
            held is Ok <==> old(self).inner() is Ok,
            final(self).inner() is Ok <==> old(self).inner() is Ok,
            held matches Err(error) ==> *error == old(self).inner()->Err_0 && final(self).inner()
                == Err::<RwLockWriteGuard<'a, T>, PoisonError>(*final(error)),
    {
        match &mut self.inner {
            Ok(guard) => Ok(write_target_mut(guard)),
            Err(error) => Err(error),
        }
    }

    /// Whether the lock was taken.
    pub fn is_ok(&self) -> (ok: bool)
        ensures
            ok == self.inner() is Ok,
    {
        self.inner.is_ok()
    }

    /// Whether the lock was poisoned.
    pub fn is_err(&self) -> (err: bool)
        ensures
            err == self.inner() is Err,
    {
        self.inner.is_err()
    }

    /// The report of the poisoning, where the lock was poisoned.
    pub fn take_err(self) -> (error: Option<PoisonError>)
        ensures
            error == match self.inner() {
                Ok(_) => None::<PoisonError>,
                Err(e) => Some(e),
            },
    {
        match self.inner {
            Ok(_) => None,
            Err(error) => Some(error),
        }
    }

    /// The guard of the lock, where the lock was taken.
    pub fn take_lock(self) -> (guard: Option<RwLockWriteGuard<'a, T>>)
        ensures
            guard == match self.inner() {
                Ok(g) => Some(g),
                Err(_) => None::<RwLockWriteGuard<'a, T>>,
            },
    {
        match self.inner {
            Ok(guard) => Some(guard),
            Err(_) => None,
        }
    }

    /// What this guard holds.
    pub fn take(self) -> (held: Result<RwLockWriteGuard<'a, T>, PoisonError>)
        ensures
            held == self.inner(),
    {
        self.inner
    }
}

impl<'a, T> From<RwLockWriteGuard<'a, T>> for WriteGuard<'a, T> {
    fn from(value: RwLockWriteGuard<'a, T>) -> (guard: Self) {
        WriteGuard { inner: Ok(value) }
    }
}

impl<'a, T> vstd::std_specs::convert::FromSpecImpl<RwLockWriteGuard<'a, T>> for WriteGuard<'a, T> {
    open spec fn obeys_from_spec() -> bool {
        true
    }

    open spec fn from_spec(value: RwLockWriteGuard<'a, T>) -> Self {
        Self::holding(Ok(value))
    }
}

impl<'a, T> From<PoisonError> for WriteGuard<'a, T> {
    fn from(value: PoisonError) -> (guard: Self) {
        WriteGuard { inner: Err(value) }
    }
}

impl<'a, T> vstd::std_specs::convert::FromSpecImpl<PoisonError> for WriteGuard<'a, T> {
    open spec fn obeys_from_spec() -> bool {
        true
    }

    open spec fn from_spec(value: PoisonError) -> Self {
        Self::holding(Err(value))
    }
}

impl<'a, T> From<Result<RwLockWriteGuard<'a, T>, PoisonError>> for WriteGuard<'a, T> {
    fn from(value: Result<RwLockWriteGuard<'a, T>, PoisonError>) -> (guard: Self) {
        WriteGuard { inner: value }
    }
}

impl<'a, T> vstd::std_specs::convert::FromSpecImpl<Result<RwLockWriteGuard<'a, T>, PoisonError>> for WriteGuard<'a, T> {
    open spec fn obeys_from_spec() -> bool {
        true
    }

    open spec fn from_spec(value: Result<RwLockWriteGuard<'a, T>, PoisonError>) -> Self {
        Self::holding(value)
    }
}

/// What locking a mutex gave: the guard, or the report of the poisoning.
#[verifier::reject_recursive_types(T)]
pub struct MutexGuard<'a, T> {
    inner: Result<std::sync::MutexGuard<'a, T>, PoisonError>,
}

impl<'a, T> MutexGuard<'a, T> {
    /// What this guard holds.
    pub closed spec fn inner(&self) -> Result<std::sync::MutexGuard<'a, T>, PoisonError> {
        self.inner
    }

    /// The guard that holds `inner`.
    pub closed spec fn holding(inner: Result<std::sync::MutexGuard<'a, T>, PoisonError>) -> Self {
        MutexGuard { inner }
    }

    /// The guard that holds `inner`.
    pub(crate) fn wrap(inner: Result<std::sync::MutexGuard<'a, T>, PoisonError>) -> (guard: Self)
        ensures
            guard == Self::holding(inner),
    {
        MutexGuard { inner }
    }

    /// The value behind the lock, where the lock was taken.
    pub fn access(&self) -> (value: Option<&T>)
        ensures
            value is Some <==> self.inner() is Ok,
    {
        match &self.inner {
            Ok(guard) => Some(mutex_target(guard)),
            Err(_) => None,
        }
    }

    /// The value behind the lock, to be changed in place, where the lock
    /// was taken.
    pub fn access_mut(&mut self) -> (value: Option<&mut T>)
        ensures
            value is Some <==> old(self).inner() is Ok,
            final(self).inner() is Ok <==> old(self).inner() is Ok,
            old(self).inner() is Err ==> final(self).inner() == old(self).inner(),
    {
        match &mut self.inner {
            Ok(guard) => Some(mutex_target_mut(guard)),
            Err(_) => None,
        }
    }

    /// The report of the poisoning, where the lock was poisoned.
    pub fn access_error(&self) -> (error: Option<&PoisonError>)
        ensures
            error == match self.inner() {
                Ok(_) => None::<&PoisonError>,
                Err(e) => Some(&e),
            },
    {
        match &self.inner {
            Ok(_) => None,
            Err(error) => Some(error),
        }
    }

    /// What this guard holds, by reference.
    pub fn as_ref(&self) -> (held: Result<&std::sync::MutexGuard<'a, T>, &PoisonError>)
        ensures
            held == match self.inner() {
                Ok(guard) => Ok::<&std::sync::MutexGuard<'a, T>, &PoisonError>(&guard),
                Err(error) => Err(&error),
            },
    {
        match &self.inner {
            Ok(guard) => Ok(guard),
            Err(error) => Err(error),
        }
    }

    /// What this guard holds, by reference, to be changed in place.
    pub fn as_mut(&mut self) -> (held: Result<&mut std::sync::MutexGuard<'a, T>, &mut PoisonError>)
        ensures
            held is Ok <==> old(self).inner() is Ok,
            held matches Ok(guard) ==> *guard == old(self).inner()->Ok_0 && final(self).inner()
                == Ok::<std::sync::MutexGuard<'a, T>, PoisonError>(*final(guard)),
            held matches Err(error) ==> *error == old(self).inner()->Err_0 && final(self).inner()
                == Err::<std::sync::MutexGuard<'a, T>, PoisonError>(*final(error)),
    {
        match &mut self.inner {
            Ok(guard) => Ok(guard),
            Err(error) => Err(error),
        }
    }

    /// The value behind the lock, or the report of the poisoning.
    pub fn as_deref(&self) -> (held: Result<&T, &PoisonError>)
        ensures
            held is Ok <==> self.inner() is Ok,
            held matches Err(error) ==> *error == self.inner()->Err_0,
    {
        match &self.inner {
            Ok(guard) => Ok(mutex_target(guard)),
            Err(error) => Err(error),
        }
    }

    /// The value behind the lock, or the report of the poisoning, each to
    /// be changed in place.
    pub fn as_deref_mut(&mut self) -> (held: Result<&mut T, &mut PoisonError>)
        ensures
            held is Ok <==> old(self).inner() is Ok,
            final(self).inner() is Ok <==> old(self).inner() is Ok,
            held matches Err(error) ==> *error == old(self).inner()->Err_0 && final(self).inner()
                == Err::<std::sync::MutexGuard<'a, T>, PoisonError>(*final(error)),
    {
        match &mut self.inner {
            Ok(guard) => Ok(mutex_target_mut(guard)),
            Err(error) => Err(error),
        }
    }

    /// Whether the lock was taken.
    pub fn is_ok(&self) -> (ok: bool)
        ensures
            ok == self.inner() is Ok,
    {
        self.inner.is_ok()
    }

    /// Whether the lock was poisoned.
    pub fn is_err(&self) -> (err: bool)
        ensures
            err == self.inner() is Err,
    {
        self.inner.is_err()
    }

    /// The report of the poisoning, where the lock was poisoned.
    pub fn take_err(self) -> (error: Option<PoisonError>)
        ensures
            error == match self.inner() {
                Ok(_) => None::<PoisonError>,
                Err(e) => Some(e),
            },
    {
        match self.inner {
            Ok(_) => None,
            Err(error) => Some(error),
        }
    }

    /// The guard of the lock, where the lock was taken.
    pub fn take_lock(self) -> (guard: Option<std::sync::MutexGuard<'a, T>>)
        ensures
            guard == match self.inner() {
                Ok(g) => Some(g),
                Err(_) => None::<std::sync::MutexGuard<'a, T>>,
            },
    {
        match self.inner {
            Ok(guard) => Some(guard),
            Err(_) => None,
        }
    }

    /// What this guard holds.
    pub fn take(self) -> (held: Result<std::sync::MutexGuard<'a, T>, PoisonError>)
        ensures
            held == self.inner(),
    {
        self.inner
    }

    /// The text of the value behind the lock; `(Poisoned)` where the lock
    /// was poisoned.
    pub fn to_string(&self) -> (text: String)
        where T: core::fmt::Display
        ensures
            self.inner() is Err ==> text@ == "(Poisoned)"@,
    {
        match self.as_deref() {
            Ok(value) => value.to_string(),
            Err(_) => "(Poisoned)".to_owned(),
        }
    }

    /// The text of the value behind the lock as `Debug` shows it; where the
    /// lock was poisoned, the report of the poisoning.
    pub fn to_debug_string(&self) -> (text: String)
        where T: core::fmt::Debug
        ensures
            self.inner() is Err ==> text@ == "(Poisoned: '"@ + self.inner()->Err_0.report() + "')"@,
    {
        match self.as_deref() {
            Ok(value) => debug_text(&value),
            Err(error) => {
                let mut text = "(Poisoned: '".to_owned();
                text.push_str(error.to_string().as_str());
                text.push_str("')");
                text
            },
        }
    }
}

impl<'a, T> From<std::sync::MutexGuard<'a, T>> for MutexGuard<'a, T> {
    fn from(value: std::sync::MutexGuard<'a, T>) -> (guard: Self) {
        MutexGuard { inner: Ok(value) }
    }
}

impl<'a, T> vstd::std_specs::convert::FromSpecImpl<std::sync::MutexGuard<'a, T>> for MutexGuard<'a, T> {
    open spec fn obeys_from_spec() -> bool {
        true
    }

    open spec fn from_spec(value: std::sync::MutexGuard<'a, T>) -> Self {
        Self::holding(Ok(value))
    }
}

impl<'a, T> From<PoisonError> for MutexGuard<'a, T> {
    fn from(value: PoisonError) -> (guard: Self) {
        MutexGuard { inner: Err(value) }
    }
}

impl<'a, T> vstd::std_specs::convert::FromSpecImpl<PoisonError> for MutexGuard<'a, T> {
    open spec fn obeys_from_spec() -> bool {
        true
    }

    open spec fn from_spec(value: PoisonError) -> Self {
        Self::holding(Err(value))
    }
}

impl<'a, T> From<Result<std::sync::MutexGuard<'a, T>, PoisonError>> for MutexGuard<'a, T> {
    fn from(value: Result<std::sync::MutexGuard<'a, T>, PoisonError>) -> (guard: Self) {
        MutexGuard { inner: value }
    }
}

impl<'a, T> vstd::std_specs::convert::FromSpecImpl<Result<std::sync::MutexGuard<'a, T>, PoisonError>> for MutexGuard<'a, T> {
    open spec fn obeys_from_spec() -> bool {
        true
    }

    open spec fn from_spec(value: Result<std::sync::MutexGuard<'a, T>, PoisonError>) -> Self {
        Self::holding(value)
    }
}

impl<'a, T: PartialEq> PartialEq for MutexGuard<'a, T> {
    /// Whether both locks were taken and hold equal values.
    fn eq(&self, other: &Self) -> (same: bool)
        ensures
            same ==> self.inner() is Ok && other.inner() is Ok,
    {
        match (self.as_deref(), other.as_deref()) {
            (Ok(a), Ok(b)) => *a == *b,
            _ => false,
        }
    }
}

impl<'a, T: PartialEq> vstd::std_specs::cmp::PartialEqSpecImpl for MutexGuard<'a, T> {
    /// Nothing is known of the values behind the locks, so `==` on guards
    /// has no meaning in contracts.
    open spec fn obeys_eq_spec() -> bool {
        false
    }

    open spec fn eq_spec(&self, other: &Self) -> bool {
        false
    }
}

impl<'a, T: PartialEq> PartialEq<T> for MutexGuard<'a, T> {
    /// Whether the lock was taken and holds a value equal to `other`.
    fn eq(&self, other: &T) -> (same: bool)
        ensures
            same ==> self.inner() is Ok,
    {
        match self.as_deref() {
            Ok(value) => *value == *other,
            Err(_) => false,
        }
    }
}

impl<'a, T: PartialEq> vstd::std_specs::cmp::PartialEqSpecImpl<T> for MutexGuard<'a, T> {
    /// Nothing is known of the value behind the lock, so `==` with a guard
    /// has no meaning in contracts.
    open spec fn obeys_eq_spec() -> bool {
        false
    }

    open spec fn eq_spec(&self, other: &T) -> bool {
        false
    }
}

/// What taking a read lock on a value that may be absent gave.
#[verifier::reject_recursive_types(T)]
pub struct OptionReadGuard<'a, T> {
    inner: ReadGuard<'a, Option<T>>,
}

impl<'a, T> OptionReadGuard<'a, T> {
    /// What this guard holds.
    pub closed spec fn inner(&self) -> Result<RwLockReadGuard<'a, Option<T>>, PoisonError> {
        self.inner.inner()
    }

    /// The guard that holds `inner`.
    pub closed spec fn holding(inner: Result<RwLockReadGuard<'a, Option<T>>, PoisonError>) -> Self {
        OptionReadGuard { inner: ReadGuard::holding(inner) }
    }

    /// The guard that holds `inner`.
    pub(crate) fn wrap(inner: Result<RwLockReadGuard<'a, Option<T>>, PoisonError>) -> (guard: Self)
        ensures
            guard == Self::holding(inner),
    {
        OptionReadGuard { inner: ReadGuard::wrap(inner) }
    }

    /// The value behind the lock, where the lock was taken and holds one.
    pub fn access(&self) -> (value: Option<&T>)
        ensures
            value is Some ==> self.inner() is Ok,
    {
        match self.inner.access() {
            Some(slot) => slot.as_ref(),
            None => None,
        }
    }

    /// The report of the poisoning, where the lock was poisoned.
    pub fn access_error(&self) -> (error: Option<&PoisonError>)
        ensures
            error == match self.inner() {
                Ok(_) => None::<&PoisonError>,
                Err(e) => Some(&e),
            },
    {
        self.inner.access_error()
    }

    /// What this guard holds, by reference.
    pub fn as_ref(&self) -> (held: Result<&RwLockReadGuard<'a, Option<T>>, &PoisonError>)
        ensures
            held == match self.inner() {
                Ok(guard) => Ok::<&RwLockReadGuard<'a, Option<T>>, &PoisonError>(&guard),
                Err(error) => Err(&error),
            },
    {
        self.inner.as_ref()
    }

    /// The value behind the lock, if it holds one, or the report of the
    /// poisoning.
    pub fn as_deref(&self) -> (held: Result<Option<&T>, &PoisonError>)
        ensures
            held is Ok <==> self.inner() is Ok,
            held matches Err(error) ==> *error == self.inner()->Err_0,
    {
        match self.inner.as_deref() {
            Ok(slot) => Ok(slot.as_ref()),
            Err(error) => Err(error),
        }
    }

    /// Whether the lock was taken.
    pub fn is_ok(&self) -> (ok: bool)
        ensures
            ok == self.inner() is Ok,
    {
        self.inner.is_ok()
    }

    /// Whether the lock was poisoned.
    pub fn is_err(&self) -> (err: bool)
        ensures
            err == self.inner() is Err,
    {
        self.inner.is_err()
    }

    /// The report of the poisoning, where the lock was poisoned.
    pub fn take_err(self) -> (error: Option<PoisonError>)
        ensures
            error == match self.inner() {
                Ok(_) => None::<PoisonError>,
                Err(e) => Some(e),
            },
    {
        self.inner.take_err()
    }

    /// The guard of the lock, where the lock was taken.
    pub fn take_lock(self) -> (guard: Option<RwLockReadGuard<'a, Option<T>>>)
        ensures
            guard == match self.inner() {
                Ok(g) => Some(g),
                Err(_) => None::<RwLockReadGuard<'a, Option<T>>>,
            },
    {
        self.inner.take_lock()
    }

    /// What this guard holds.
    pub fn take(self) -> (held: Result<RwLockReadGuard<'a, Option<T>>, PoisonError>)
        ensures
            held == self.inner(),
    {
        self.inner.take()
    }

    /// The text of the value behind the lock; `(Poisioned)` where the lock
    /// was poisoned.
    pub fn to_string(&self) -> (text: String)
        where T: core::fmt::Display + core::fmt::Debug
        ensures
            self.inner() is Err ==> text@ == "(Poisioned)"@,
    {
        match self.as_deref() {
            Ok(value) => debug_text(&value),
            Err(_) => "(Poisioned)".to_owned(),
        }
    }

    /// The text of the value behind the lock as `Debug` shows it; where the
    /// lock was poisoned, the report of the poisoning.
    pub fn to_debug_string(&self) -> (text: String)
        where T: core::fmt::Debug
        ensures
            self.inner() is Err ==> text@ == "(Poisoned: '"@ + self.inner()->Err_0.report() + "'"@,
    {
        match self.as_deref() {
            Ok(value) => debug_text(&value),
            Err(error) => {
                let mut text = "(Poisoned: '".to_owned();
                text.push_str(error.to_string().as_str());
                text.push_str("'");
                text
            },
        }
    }
}

impl<'a, T> From<RwLockReadGuard<'a, Option<T>>> for OptionReadGuard<'a, T> {
    fn from(value: RwLockReadGuard<'a, Option<T>>) -> (guard: Self) {
        OptionReadGuard { inner: ReadGuard { inner: Ok(value) } }
    }
}

impl<'a, T> vstd::std_specs::convert::FromSpecImpl<RwLockReadGuard<'a, Option<T>>> for OptionReadGuard<'a, T> {
    open spec fn obeys_from_spec() -> bool {
        true
    }

    open spec fn from_spec(value: RwLockReadGuard<'a, Option<T>>) -> Self {
        Self::holding(Ok(value))
    }
}

impl<'a, T> From<PoisonError> for OptionReadGuard<'a, T> {
    fn from(value: PoisonError) -> (guard: Self) {
        OptionReadGuard { inner: ReadGuard { inner: Err(value) } }
    }
}

impl<'a, T> vstd::std_specs::convert::FromSpecImpl<PoisonError> for OptionReadGuard<'a, T> {
    open spec fn obeys_from_spec() -> bool {
        true
    }

    open spec fn from_spec(value: PoisonError) -> Self {
        Self::holding(Err(value))
    }
}

impl<'a, T> From<Result<RwLockReadGuard<'a, Option<T>>, PoisonError>> for OptionReadGuard<'a, T> {
    fn from(value: Result<RwLockReadGuard<'a, Option<T>>, PoisonError>) -> (guard: Self) {
        OptionReadGuard { inner: ReadGuard { inner: value } }
    }
}

impl<'a, T> vstd::std_specs::convert::FromSpecImpl<Result<RwLockReadGuard<'a, Option<T>>, PoisonError>> for OptionReadGuard<'a, T> {
    open spec fn obeys_from_spec() -> bool {
        true
    }

    open spec fn from_spec(value: Result<RwLockReadGuard<'a, Option<T>>, PoisonError>) -> Self {
        Self::holding(value)
    }
}

impl<'a, T: PartialEq> PartialEq for OptionReadGuard<'a, T> {
    /// Whether both locks were taken and hold equal values.
    fn eq(&self, other: &Self) -> (same: bool)
        ensures
            same ==> self.inner() is Ok && other.inner() is Ok,
    {
        match (self.as_deref(), other.as_deref()) {
            (Ok(Some(a)), Ok(Some(b))) => *a == *b,
            (Ok(None), Ok(None)) => true,
            _ => false,
        }
    }
}

impl<'a, T: PartialEq> vstd::std_specs::cmp::PartialEqSpecImpl for OptionReadGuard<'a, T> {
    /// Nothing is known of the values behind the locks, so `==` on guards
    /// has no meaning in contracts.
    open spec fn obeys_eq_spec() -> bool {
        false
    }

    open spec fn eq_spec(&self, other: &Self) -> bool {
        false
    }
}

impl<'a, T: PartialEq> PartialEq<T> for OptionReadGuard<'a, T> {
    /// Whether the lock was taken and holds a value equal to `other`.
    fn eq(&self, other: &T) -> (same: bool)
        ensures
            same ==> self.inner() is Ok,
    {
        match self.as_deref() {
            Ok(Some(value)) => *value == *other,
            _ => false,
        }
    }
}

impl<'a, T: PartialEq> vstd::std_specs::cmp::PartialEqSpecImpl<T> for OptionReadGuard<'a, T> {
    /// Nothing is known of the value behind the lock, so `==` with a guard
    /// has no meaning in contracts.
    open spec fn obeys_eq_spec() -> bool {
        false
    }

    open spec fn eq_spec(&self, other: &T) -> bool {
        false
    }
}

/// What taking a write lock on a value that may be absent gave.
#[verifier::reject_recursive_types(T)]
pub struct OptionWriteGuard<'a, T> {
    inner: WriteGuard<'a, Option<T>>,
}

impl<'a, T> OptionWriteGuard<'a, T> {
    /// What this guard holds.
    pub closed spec fn inner(&self) -> Result<RwLockWriteGuard<'a, Option<T>>, PoisonError> {
        self.inner.inner()
    }

    /// The guard that holds `inner`.
    pub closed spec fn holding(inner: Result<RwLockWriteGuard<'a, Option<T>>, PoisonError>) -> Self {
        OptionWriteGuard { inner: WriteGuard::holding(inner) }
    }

    /// The guard that holds `inner`.
    pub(crate) fn wrap(inner: Result<RwLockWriteGuard<'a, Option<T>>, PoisonError>) -> (guard: Self)
        ensures
            guard == Self::holding(inner),
    {
        OptionWriteGuard { inner: WriteGuard::wrap(inner) }
    }

    /// The value behind the lock, to be changed in place, where the lock
    /// was taken and holds one.
    pub fn access(&mut self) -> (value: Option<&mut T>)
        ensures
            value is Some ==> old(self).inner() is Ok,
            final(self).inner() is Ok <==> old(self).inner() is Ok,
            old(self).inner() is Err ==> final(self).inner() == old(self).inner(),
    {
        match self.inner.access() {
            Some(slot) => slot.as_mut(),
            None => None,
        }
    }

    /// The report of the poisoning, where the lock was poisoned.
    pub fn access_error(&self) -> (error: Option<&PoisonError>)
        ensures
            error == match self.inner() {
                Ok(_) => None::<&PoisonError>,
                Err(e) => Some(&e),
            },
    {
        self.inner.access_error()
    }

    /// What this guard holds, by reference, to be changed in place.
    pub fn as_ref(&mut self) -> (held: Result<&mut RwLockWriteGuard<'a, Option<T>>, &mut PoisonError>)
        ensures
            held is Ok <==> old(self).inner() is Ok,
            held matches Ok(guard) ==> *guard == old(self).inner()->Ok_0 && final(self).inner()
                == Ok::<RwLockWriteGuard<'a, Option<T>>, PoisonError>(*final(guard)),
            held matches Err(error) ==> *error == old(self).inner()->Err_0 && final(self).inner()
                == Err::<RwLockWriteGuard<'a, Option<T>>, PoisonError>(*final(error)),
    {
        self.inner.as_ref()
    }

    /// The value behind the lock, if it holds one, or the report of the
    /// poisoning, each to be changed in place.
    pub fn as_deref(&mut self) -> (held: Result<Option<&mut T>, &mut PoisonError>)
        ensures
            held is Ok <==> old(self).inner() is Ok,
            final(self).inner() is Ok <==> old(self).inner() is Ok,
            held matches Err(error) ==> *error == old(self).inner()->Err_0 && final(self).inner()
                == Err::<RwLockWriteGuard<'a, Option<T>>, PoisonError>(*final(error)),
    {
        match self.inner.as_deref() {
            Ok(slot) => Ok(slot.as_mut()),
            Err(error) => Err(error),
        }
    }

    /// Whether the lock was taken.
    pub fn is_ok(&self) -> (ok: bool)
        ensures
            ok == self.inner() is Ok,
    {
        self.inner.is_ok()
    }

    /// Whether the lock was poisoned.
    pub fn is_err(&self) -> (err: bool)
        ensures
            err == self.inner() is Err,
    {
        self.inner.is_err()
    }

    /// The report of the poisoning, where the lock was poisoned.
    pub fn take_err(self) -> (error: Option<PoisonError>)
        ensures
            error == match self.inner() {
                Ok(_) => None::<PoisonError>,
                Err(e) => Some(e),
            },
    {
        self.inner.take_err()
    }

    /// The guard of the lock, where the lock was taken.
    pub fn take_lock(self) -> (guard: Option<RwLockWriteGuard<'a, Option<T>>>)
        ensures
            guard == match self.inner() {
                Ok(g) => Some(g),
                Err(_) => None::<RwLockWriteGuard<'a, Option<T>>>,
            },
    {
        self.inner.take_lock()
    }

    /// What this guard holds.
    pub fn take(self) -> (held: Result<RwLockWriteGuard<'a, Option<T>>, PoisonError>)
        ensures
            held == self.inner(),
    {
        self.inner.take()
    }
}

impl<'a, T> From<RwLockWriteGuard<'a, Option<T>>> for OptionWriteGuard<'a, T> {
    fn from(value: RwLockWriteGuard<'a, Option<T>>) -> (guard: Self) {
        OptionWriteGuard { inner: WriteGuard { inner: Ok(value) } }
    }
}

impl<'a, T> vstd::std_specs::convert::FromSpecImpl<RwLockWriteGuard<'a, Option<T>>> for OptionWriteGuard<'a, T> {
    open spec fn obeys_from_spec() -> bool {
        true
    }

    open spec fn from_spec(value: RwLockWriteGuard<'a, Option<T>>) -> Self {
        Self::holding(Ok(value))
    }
}

impl<'a, T> From<PoisonError> for OptionWriteGuard<'a, T> {
    fn from(value: PoisonError) -> (guard: Self) {
        OptionWriteGuard { inner: WriteGuard { inner: Err(value) } }
    }
}

impl<'a, T> vstd::std_specs::convert::FromSpecImpl<PoisonError> for OptionWriteGuard<'a, T> {
    open spec fn obeys_from_spec() -> bool {
        true
    }

    open spec fn from_spec(value: PoisonError) -> Self {
        Self::holding(Err(value))
    }
}

impl<'a, T> From<Result<RwLockWriteGuard<'a, Option<T>>, PoisonError>> for OptionWriteGuard<'a, T> {
    fn from(value: Result<RwLockWriteGuard<'a, Option<T>>, PoisonError>) -> (guard: Self) {
        OptionWriteGuard { inner: WriteGuard { inner: value } }
    }
}

impl<'a, T> vstd::std_specs::convert::FromSpecImpl<Result<RwLockWriteGuard<'a, Option<T>>, PoisonError>> for OptionWriteGuard<'a, T> {
    open spec fn obeys_from_spec() -> bool {
        true
    }

    open spec fn from_spec(value: Result<RwLockWriteGuard<'a, Option<T>>, PoisonError>) -> Self {
        Self::holding(value)
    }
}

/// What locking a mutex on a value that may be absent gave.
#[verifier::reject_recursive_types(T)]
pub struct OptionMutexGuard<'a, T> {
    inner: MutexGuard<'a, Option<T>>,
}

impl<'a, T> OptionMutexGuard<'a, T> {
    /// What this guard holds.
    pub closed spec fn inner(&self) -> Result<std::sync::MutexGuard<'a, Option<T>>, PoisonError> {
        self.inner.inner()
    }

    /// The guard that holds `inner`.
    pub closed spec fn holding(inner: Result<std::sync::MutexGuard<'a, Option<T>>, PoisonError>) -> Self {
        OptionMutexGuard { inner: MutexGuard::holding(inner) }
    }

    /// The guard that holds `inner`.
    pub(crate) fn wrap(inner: Result<std::sync::MutexGuard<'a, Option<T>>, PoisonError>) -> (guard: Self)
        ensures
            guard == Self::holding(inner),
    {
        OptionMutexGuard { inner: MutexGuard::wrap(inner) }
    }

    /// The value behind the lock, where the lock was taken and holds one.
    pub fn access(&self) -> (value: Option<&T>)
        ensures
            value is Some ==> self.inner() is Ok,
    {
        match self.inner.access() {
            Some(slot) => slot.as_ref(),
            None => None,
        }
    }

    /// The value behind the lock, to be changed in place, where the lock
    /// was taken and holds one.
    pub fn access_mut(&mut self) -> (value: Option<&mut T>)
        ensures
            value is Some ==> old(self).inner() is Ok,
            final(self).inner() is Ok <==> old(self).inner() is Ok,
            old(self).inner() is Err ==> final(self).inner() == old(self).inner(),
    {
        match self.inner.access_mut() {
            Some(slot) => slot.as_mut(),
            None => None,
        }
    }

    /// The report of the poisoning, where the lock was poisoned.
    pub fn access_error(&self) -> (error: Option<&PoisonError>)
        ensures
            error == match self.inner() {
                Ok(_) => None::<&PoisonError>,
                Err(e) => Some(&e),
            },
    {
        self.inner.access_error()
    }

    /// What this guard holds, by reference.
    pub fn as_ref(&self) -> (held: Result<&std::sync::MutexGuard<'a, Option<T>>, &PoisonError>)
        ensures
            held == match self.inner() {
                Ok(guard) => Ok::<&std::sync::MutexGuard<'a, Option<T>>, &PoisonError>(&guard),
                Err(error) => Err(&error),
            },
    {
        self.inner.as_ref()
    }

    /// What this guard holds, by reference, to be changed in place.
    pub fn as_mut(&mut self) -> (held: Result<&mut std::sync::MutexGuard<'a, Option<T>>, &mut PoisonError>)
        ensures
            held is Ok <==> old(self).inner() is Ok,
            held matches Ok(guard) ==> *guard == old(self).inner()->Ok_0 && final(self).inner()
                == Ok::<std::sync::MutexGuard<'a, Option<T>>, PoisonError>(*final(guard)),
            held matches Err(error) ==> *error == old(self).inner()->Err_0 && final(self).inner()
                == Err::<std::sync::MutexGuard<'a, Option<T>>, PoisonError>(*final(error)),
    {
        self.inner.as_mut()
    }

    /// The value behind the lock, if it holds one, or the report of the
    /// poisoning.
    pub fn as_deref(&self) -> (held: Result<Option<&T>, &PoisonError>)
        ensures
            held is Ok <==> self.inner() is Ok,
            held matches Err(error) ==> *error == self.inner()->Err_0,
    {
        match self.inner.as_deref() {
            Ok(slot) => Ok(slot.as_ref()),
            Err(error) => Err(error),
        }
    }

    /// The value behind the lock, if it holds one, or the report of the
    /// poisoning, each to be changed in place.
    pub fn as_deref_mut(&mut self) -> (held: Result<Option<&mut T>, &mut PoisonError>)
        ensures
            held is Ok <==> old(self).inner() is Ok,
            final(self).inner() is Ok <==> old(self).inner() is Ok,
            held matches Err(error) ==> *error == old(self).inner()->Err_0 && final(self).inner()
                == Err::<std::sync::MutexGuard<'a, Option<T>>, PoisonError>(*final(error)),
    {
        match self.inner.as_deref_mut() {
            Ok(slot) => Ok(slot.as_mut()),
            Err(error) => Err(error),
        }
    }

    /// The report of the poisoning, where the lock was poisoned.
    pub fn take_err(self) -> (error: Option<PoisonError>)
        ensures
            error == match self.inner() {
                Ok(_) => None::<PoisonError>,
                Err(e) => Some(e),
            },
    {
        self.inner.take_err()
    }

    /// The guard of the lock, where the lock was taken.
    pub fn take_lock(self) -> (guard: Option<std::sync::MutexGuard<'a, Option<T>>>)
        ensures
            guard == match self.inner() {
                Ok(g) => Some(g),
                Err(_) => None::<std::sync::MutexGuard<'a, Option<T>>>,
            },
    {
        self.inner.take_lock()
    }

    /// What this guard holds.
    pub fn take(self) -> (held: Result<std::sync::MutexGuard<'a, Option<T>>, PoisonError>)
        ensures
            held == self.inner(),
    {
        self.inner.take()
    }

    /// The text of the value behind the lock; `(Poisioned)` where the lock
    /// was poisoned.
    pub fn to_string(&self) -> (text: String)
        where T: core::fmt::Display + core::fmt::Debug
        ensures
            self.inner() is Err ==> text@ == "(Poisioned)"@,
    {
        match self.as_deref() {
            Ok(value) => debug_text(&value),
            Err(_) => "(Poisioned)".to_owned(),
        }
    }

    /// The text of the value behind the lock as `Debug` shows it;
    /// `(Poisoned)` where the lock was poisoned.
    pub fn to_debug_string(&self) -> (text: String)
        where T: core::fmt::Debug
        ensures
            self.inner() is Err ==> text@ == "(Poisoned)"@,
    {
        match self.as_deref() {
            Ok(value) => debug_text(&value),
            Err(_) => "(Poisoned)".to_owned(),
        }
    }
}

impl<'a, T> From<std::sync::MutexGuard<'a, Option<T>>> for OptionMutexGuard<'a, T> {
    fn from(value: std::sync::MutexGuard<'a, Option<T>>) -> (guard: Self) {
        OptionMutexGuard { inner: MutexGuard { inner: Ok(value) } }
    }
}

impl<'a, T> vstd::std_specs::convert::FromSpecImpl<std::sync::MutexGuard<'a, Option<T>>> for OptionMutexGuard<'a, T> {
    open spec fn obeys_from_spec() -> bool {
        true
    }

    open spec fn from_spec(value: std::sync::MutexGuard<'a, Option<T>>) -> Self {
        Self::holding(Ok(value))
    }
}

impl<'a, T> From<PoisonError> for OptionMutexGuard<'a, T> {
    fn from(value: PoisonError) -> (guard: Self) {
        OptionMutexGuard { inner: MutexGuard { inner: Err(value) } }
    }
}

impl<'a, T> vstd::std_specs::convert::FromSpecImpl<PoisonError> for OptionMutexGuard<'a, T> {
    open spec fn obeys_from_spec() -> bool {
        true
    }

    open spec fn from_spec(value: PoisonError) -> Self {
        Self::holding(Err(value))
    }
}

impl<'a, T> From<Result<std::sync::MutexGuard<'a, Option<T>>, PoisonError>> for OptionMutexGuard<'a, T> {
    fn from(value: Result<std::sync::MutexGuard<'a, Option<T>>, PoisonError>) -> (guard: Self) {
        OptionMutexGuard { inner: MutexGuard { inner: value } }
    }
}

impl<'a, T> vstd::std_specs::convert::FromSpecImpl<Result<std::sync::MutexGuard<'a, Option<T>>, PoisonError>> for OptionMutexGuard<'a, T> {
    open spec fn obeys_from_spec() -> bool {
        true
    }

    open spec fn from_spec(value: Result<std::sync::MutexGuard<'a, Option<T>>, PoisonError>) -> Self {
        Self::holding(value)
    }
}

impl<'a, T: PartialEq> PartialEq for OptionMutexGuard<'a, T> {
    /// Whether both locks were taken and hold equal values.
    fn eq(&self, other: &Self) -> (same: bool)
        ensures
            same ==> self.inner() is Ok && other.inner() is Ok,
    {
        match (self.as_deref(), other.as_deref()) {
            (Ok(Some(a)), Ok(Some(b))) => *a == *b,
            (Ok(None), Ok(None)) => true,
            _ => false,
        }
    }
}

impl<'a, T: PartialEq> vstd::std_specs::cmp::PartialEqSpecImpl for OptionMutexGuard<'a, T> {
    /// Nothing is known of the values behind the locks, so `==` on guards
    /// has no meaning in contracts.
    open spec fn obeys_eq_spec() -> bool {
        false
    }

    open spec fn eq_spec(&self, other: &Self) -> bool {
        false
    }
}

impl<'a, T: PartialEq> PartialEq<T> for OptionMutexGuard<'a, T> {
    /// Whether the lock was taken and holds a value equal to `other`.
    fn eq(&self, other: &T) -> (same: bool)
        ensures
            same ==> self.inner() is Ok,
    {
        match self.as_deref() {
            Ok(Some(value)) => *value == *other,
            _ => false,
        }
    }
}

impl<'a, T: PartialEq> vstd::std_specs::cmp::PartialEqSpecImpl<T> for OptionMutexGuard<'a, T> {
    /// Nothing is known of the value behind the lock, so `==` with a guard
    /// has no meaning in contracts.
    open spec fn obeys_eq_spec() -> bool {
        false
    }

    open spec fn eq_spec(&self, other: &T) -> bool {
        false
    }
}

/// A reference to a value of type `T` that only this module reads. Providers
/// hand their lock out in it.
pub struct ProtectedAccess<'a, T> {
    data: &'a T,
}

impl<'a, T> ProtectedAccess<'a, T> {
    /// The value that is referred to.
    pub closed spec fn data(&self) -> &'a T {
        self.data
    }

    pub fn new(data: &'a T) -> (access: Self)
        ensures
            access.data() == data,
    {
        ProtectedAccess { data }
    }

    fn take(&self) -> (data: &'a T)
        ensures
            data == self.data(),
    {
        self.data
    }
}

/// A holder of some data behind a read-write lock.
pub trait RwProvider {
    type Data;

    /// The lock, for the traits over this one.
    fn access_raw(&self) -> ProtectedAccess<'_, Arc<RwLock<Self::Data>>>;
}

/// Reading and writing what a `RwProvider` holds. What comes of a lock
/// depends on the threads that share it: nothing is stated of it.
pub trait RwProviderAccess: RwProvider {
    /// Stores `value`, whether or not the lock was poisoned, and clears the
    /// poisoning.
    fn pass(&self, value: Self::Data) {
        let arc = self.access_raw().take();
        let mut guard = match rwlock_write(arc) {
            Ok(guard) => guard,
            Err(poisoned) => poisoned_guard(poisoned),
        };
        *write_target_mut(&mut guard) = value;
        rwlock_clear_poison(arc);
    }

    /// Stores the default value of the data, as `pass` does.
    fn set_to_default(&self)
        where Self::Data: Default
    {
        self.pass(Self::Data::default())
    }

    /// Whether the lock is poisoned.
    fn is_poisoned(&self) -> bool {
        rwlock_is_poisoned(self.access_raw().take())
    }

    /// Takes the read lock. Which of the two the guard holds the other
    /// threads decide; after a poisoning it holds what the poisoning
    /// displays.
    fn access(&self) -> (guard: ReadGuard<'_, Self::Data>)
        ensures
            guard.inner() is Err ==> exists|poisoned: std::sync::PoisonError<
                RwLockReadGuard<'_, Self::Data>,
            >| #[trigger] guard.inner()->Err_0.shows(poisoned),
    {
        match rwlock_read(self.access_raw().take()) {
            Ok(guard) => ReadGuard::wrap(Ok(guard)),
            Err(poisoned) => {
                let error = PoisonError::new(poisoned);
                let guard = ReadGuard::wrap(Err(error));
                assert(guard.inner() == Err::<RwLockReadGuard<'_, Self::Data>, PoisonError>(error));
                assert(guard.inner()->Err_0.shows(poisoned));
                guard
            },
        }
    }

    /// Takes the write lock. Which of the two the guard holds the other threads decide;
    /// after a poisoning it holds what the poisoning displays.
    fn access_mut(&self) -> (guard: WriteGuard<'_, Self::Data>)
        ensures
            guard.inner() is Err ==> exists|poisoned: std::sync::PoisonError<
                RwLockWriteGuard<'_, Self::Data>,
            >| #[trigger] guard.inner()->Err_0.shows(poisoned),
    {
        match rwlock_write(self.access_raw().take()) {
            Ok(guard) => WriteGuard::wrap(Ok(guard)),
            Err(poisoned) => {
                let error = PoisonError::new(poisoned);
                let guard = WriteGuard::wrap(Err(error));
                assert(guard.inner() == Err::<RwLockWriteGuard<'_, Self::Data>, PoisonError>(error));
                assert(guard.inner()->Err_0.shows(poisoned));
                guard
            },
        }
    }
}

/// Reading and writing what a `RwProvider` of an optional value holds. What
/// comes of a lock depends on the threads that share it: nothing is stated
/// of it.
pub trait OptionRwProvider<T>: RwProvider<Data = Option<T>> {
    /// Stores `value`, whether or not the lock was poisoned, and clears the
    /// poisoning.
    fn pass(&self, value: T) {
        let arc = self.access_raw().take();
        let mut guard = match rwlock_write(arc) {
            Ok(guard) => guard,
            Err(poisoned) => poisoned_guard(poisoned),
        };
        *write_target_mut(&mut guard) = Some(value);
        rwlock_clear_poison(arc);
    }

    /// Stores the default value of `T`, as `pass` does.
    fn set_to_default(&self)
        where T: Default
    {
        self.pass(T::default())
    }

    /// Whether the lock is poisoned.
    fn is_poisoned(&self) -> bool {
        rwlock_is_poisoned(self.access_raw().take())
    }

    /// Empties the holder; after a poisoning also clears it.
    fn reset(&self) {
        let raw = self.access_raw().take();
        match rwlock_write(raw) {
            Ok(mut guard) => {
                *write_target_mut(&mut guard) = None;
            },
            Err(poisoned) => {
                let mut guard = poisoned_guard(poisoned);
                *write_target_mut(&mut guard) = None;
                rwlock_clear_poison(raw);
            },
        }
    }

    /// Whether the holder holds a value; false where the lock is poisoned.
    fn is_open(&self) -> bool {
        match rwlock_read(self.access_raw().take()) {
            Ok(guard) => read_target(&guard).is_some(),
            Err(_) => false,
        }
    }

    /// Takes the read lock. Which of the two the guard holds the other threads decide;
    /// after a poisoning it holds what the poisoning displays.
    fn access(&self) -> (guard: OptionReadGuard<'_, T>)
        ensures
            guard.inner() is Err ==> exists|poisoned: std::sync::PoisonError<
                RwLockReadGuard<'_, Option<T>>,
            >| #[trigger] guard.inner()->Err_0.shows(poisoned),
    {
        match rwlock_read(self.access_raw().take()) {
            Ok(guard) => OptionReadGuard::wrap(Ok(guard)),
            Err(poisoned) => {
                let error = PoisonError::new(poisoned);
                let guard = OptionReadGuard::wrap(Err(error));
                assert(guard.inner() == Err::<RwLockReadGuard<'_, Option<T>>, PoisonError>(error));
                assert(guard.inner()->Err_0.shows(poisoned));
                guard
            },
        }
    }

    /// Takes the write lock. Which of the two the guard holds the other threads decide;
    /// after a poisoning it holds what the poisoning displays.
    fn access_mut(&self) -> (guard: OptionWriteGuard<'_, T>)
        ensures
            guard.inner() is Err ==> exists|poisoned: std::sync::PoisonError<
                RwLockWriteGuard<'_, Option<T>>,
            >| #[trigger] guard.inner()->Err_0.shows(poisoned),
    {
        match rwlock_write(self.access_raw().take()) {
            Ok(guard) => OptionWriteGuard::wrap(Ok(guard)),
            Err(poisoned) => {
                let error = PoisonError::new(poisoned);
                let guard = OptionWriteGuard::wrap(Err(error));
                assert(guard.inner() == Err::<RwLockWriteGuard<'_, Option<T>>, PoisonError>(error));
                assert(guard.inner()->Err_0.shows(poisoned));
                guard
            },
        }
    }
}

/// A holder of some data behind a mutex.
pub trait MutexProvider {
    type Data;

    /// The mutex, for the traits over this one.
    fn access_raw(&self) -> ProtectedAccess<'_, Arc<Mutex<Self::Data>>>;

    /// Whether the mutex is poisoned.
    fn is_poisoned(&self) -> bool {
        mutex_is_poisoned(self.access_raw().take())
    }
}

/// Reading and writing what a `MutexProvider` holds. What comes of a lock
/// depends on the threads that share it: nothing is stated of it.
pub trait MutexProviderAccess: MutexProvider {
    /// Stores `value`, whether or not the mutex was poisoned, and clears the
    /// poisoning.
    fn pass(&self, value: Self::Data) {
        let arc = self.access_raw().take();
        let mut guard = match mutex_lock(arc) {
            Ok(guard) => guard,
            Err(poisoned) => poisoned_guard(poisoned),
        };
        *mutex_target_mut(&mut guard) = value;
        mutex_clear_poison(arc);
    }

    /// Stores the default value of the data, as `pass` does.
    fn set_to_default(&self)
        where Self::Data: Default
    {
        self.pass(Self::Data::default())
    }

    /// Locks the mutex. Which of the two the guard holds the other threads decide;
    /// after a poisoning it holds what the poisoning displays.
    fn access(&self) -> (guard: MutexGuard<'_, Self::Data>)
        ensures
            guard.inner() is Err ==> exists|poisoned: std::sync::PoisonError<
                std::sync::MutexGuard<'_, Self::Data>,
            >| #[trigger] guard.inner()->Err_0.shows(poisoned),
    {
        match mutex_lock(self.access_raw().take()) {
            Ok(guard) => MutexGuard::wrap(Ok(guard)),
            Err(poisoned) => {
                let error = PoisonError::new(poisoned);
                let guard = MutexGuard::wrap(Err(error));
                assert(guard.inner() == Err::<std::sync::MutexGuard<'_, Self::Data>, PoisonError>(error));
                assert(guard.inner()->Err_0.shows(poisoned));
                guard
            },
        }
    }
}

/// Reading and writing what a `MutexProvider` of an optional value holds.
/// What comes of a lock depends on the threads that share it: nothing is
/// stated of it.
pub trait OptionMutexProvider<T>: MutexProvider<Data = Option<T>> {
    /// Stores `value`, whether or not the mutex was poisoned, and clears the
    /// poisoning.
    fn pass(&self, value: T) {
        let arc = self.access_raw().take();
        let mut guard = match mutex_lock(arc) {
            Ok(guard) => guard,
            Err(poisoned) => poisoned_guard(poisoned),
        };
        *mutex_target_mut(&mut guard) = Some(value);
        mutex_clear_poison(arc);
    }

    /// Stores the default value of `T`, as `pass` does.
    fn set_to_default(&self)
        where T: Default
    {
        self.pass(T::default())
    }

    /// Empties the holder; after a poisoning also clears it.
    fn reset(&self) {
        let raw = self.access_raw().take();
        match mutex_lock(raw) {
            Ok(mut guard) => {
                *mutex_target_mut(&mut guard) = None;
            },
            Err(poisoned) => {
                let mut guard = poisoned_guard(poisoned);
                *mutex_target_mut(&mut guard) = None;
                mutex_clear_poison(raw);
            },
        }
    }

    /// Whether the holder holds a value; false where the mutex is poisoned.
    fn is_open(&self) -> bool {
        match mutex_lock(self.access_raw().take()) {
            Ok(guard) => mutex_target(&guard).is_some(),
            Err(_) => false,
        }
    }

    /// Locks the mutex. Which of the two the guard holds the other threads decide;
    /// after a poisoning it holds what the poisoning displays.
    fn access(&self) -> (guard: OptionMutexGuard<'_, T>)
        ensures
            guard.inner() is Err ==> exists|poisoned: std::sync::PoisonError<
                std::sync::MutexGuard<'_, Option<T>>,
            >| #[trigger] guard.inner()->Err_0.shows(poisoned),
    {
        match mutex_lock(self.access_raw().take()) {
            Ok(guard) => OptionMutexGuard::wrap(Ok(guard)),
            Err(poisoned) => {
                let error = PoisonError::new(poisoned);
                let guard = OptionMutexGuard::wrap(Err(error));
                assert(guard.inner() == Err::<std::sync::MutexGuard<'_, Option<T>>, PoisonError>(error));
                assert(guard.inner()->Err_0.shows(poisoned));
                guard
            },
        }
    }
}

} // verus!
