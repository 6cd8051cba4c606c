use backend::error::PoisonError;
use backend::lock::{
    MutexGuard, MutexProvider, MutexProviderAccess, OptionMutexGuard, OptionReadGuard,
    OptionRwProvider, OptionWriteGuard, ProtectedAccess, ReadGuard, RwProvider,
    RwProviderAccess, WriteGuard,
};
use std::sync::{Arc, Mutex, RwLock};

fn poison(text: &str) -> PoisonError {
    PoisonError::from_text(text.to_string())
}

struct Counter {
    data: Arc<RwLock<u32>>,
}

impl RwProvider for Counter {
    type Data = u32;

    fn access_raw(&self) -> ProtectedAccess<'_, Arc<RwLock<u32>>> {
        ProtectedAccess::new(&self.data)
    }
}

impl RwProviderAccess for Counter {}

struct Slot {
    data: Arc<RwLock<Option<String>>>,
}

impl RwProvider for Slot {
    type Data = Option<String>;

    fn access_raw(&self) -> ProtectedAccess<'_, Arc<RwLock<Option<String>>>> {
        ProtectedAccess::new(&self.data)
    }
}

impl OptionRwProvider<String> for Slot {}

struct Tally {
    data: Arc<Mutex<i64>>,
}

impl MutexProvider for Tally {
    type Data = i64;

    fn access_raw(&self) -> ProtectedAccess<'_, Arc<Mutex<i64>>> {
        ProtectedAccess::new(&self.data)
    }
}

impl MutexProviderAccess for Tally {}

#[test]
fn read_guard_of_a_taken_lock() {
    let lock = RwLock::new(7);
    let guard = ReadGuard::from(lock.read().unwrap());
    assert!(guard.is_ok());
    assert!(!guard.is_err());
    assert_eq!(guard.access(), Some(&7));
    assert!(guard.access_error().is_none());
    assert_eq!(**guard.as_ref().unwrap(), 7);
    assert_eq!(guard.as_deref().unwrap(), &7);
    assert_eq!(guard.to_string(), "7");
    assert_eq!(guard.to_debug_string(), "7");
    assert!(guard == 7);
    assert!(guard != 8);
    let other = ReadGuard::from(lock.read().unwrap());
    assert!(guard == other);
    assert_eq!(*other.take().unwrap(), 7);
    assert_eq!(*guard.take_lock().unwrap(), 7);
    let guard = ReadGuard::from(lock.read().unwrap());
    assert!(guard.take_err().is_none());
}

#[test]
fn read_guard_of_a_poisoned_lock() {
    let guard: ReadGuard<'_, i32> = ReadGuard::from(poison("gone"));
    assert!(!guard.is_ok());
    assert!(guard.is_err());
    assert_eq!(guard.access(), None);
    assert_eq!(guard.access_error().unwrap().to_string(), "poisoned due to 'gone'");
    assert!(guard.as_ref().is_err());
    assert!(guard.as_deref().unwrap_err() == &poison("gone"));
    assert_eq!(guard.to_string(), "(Poisioned)");
    assert_eq!(guard.to_debug_string(), "(Poisoned: 'poisoned due to 'gone'')");
    assert!(guard != 7);
    let same: ReadGuard<'_, i32> = ReadGuard::from(Err(poison("gone")));
    assert!(guard != same);
    assert!(same.take().is_err());
    let again: ReadGuard<'_, i32> = ReadGuard::from(poison("gone"));
    assert!(again.take_lock().is_none());
    assert!(guard.take_err().unwrap() == poison("gone"));
}

#[test]
fn write_guard_changes_the_value() {
    let lock = RwLock::new(vec![1]);
    {
        let mut guard = WriteGuard::from(lock.write().unwrap());
        assert!(guard.is_ok());
        guard.access().unwrap().push(2);
        guard.as_deref().unwrap().push(3);
        guard.as_ref().unwrap().push(4);
        assert!(guard.access_error().is_none());
        assert!(guard.take_err().is_none());
    }
    assert_eq!(*lock.read().unwrap(), vec![1, 2, 3, 4]);
    {
        let guard = WriteGuard::from(Ok(lock.write().unwrap()));
        let mut inner = guard.take().unwrap();
        inner.clear();
    }
    {
        let guard = WriteGuard::from(lock.write().unwrap());
        guard.take_lock().unwrap().push(9);
    }
    assert_eq!(*lock.read().unwrap(), vec![9]);

    let mut bad: WriteGuard<'_, u8> = WriteGuard::from(poison("w"));
    assert!(bad.is_err());
    assert!(!bad.is_ok());
    assert!(bad.access().is_none());
    assert!(bad.as_deref().is_err());
    assert!(bad.as_ref().is_err());
    assert_eq!(bad.access_error().unwrap().to_string(), "poisoned due to 'w'");
    assert!(bad.take_err().unwrap() == poison("w"));
}

#[test]
fn mutex_guard_reads_and_writes() {
    let lock = Mutex::new(String::from("a"));
    {
        let mut guard = MutexGuard::from(lock.lock().unwrap());
        assert!(guard.is_ok() && !guard.is_err());
        assert_eq!(guard.access().unwrap(), "a");
        guard.access_mut().unwrap().push('b');
        guard.as_deref_mut().unwrap().push('c');
        guard.as_mut().unwrap().push('d');
        assert_eq!(guard.as_deref().unwrap(), "abcd");
        assert_eq!(guard.as_ref().unwrap().as_str(), "abcd");
        assert_eq!(guard.to_string(), "abcd");
        assert!(guard == String::from("abcd"));
        assert!(guard != String::from("abc"));
        assert_eq!(guard.to_debug_string(), "\"abcd\"");
        assert!(guard.access_error().is_none());
        assert!(guard.take_lock().is_some());
    }
    {
        let guard = MutexGuard::from(Ok(lock.lock().unwrap()));
        assert_eq!(*guard.take().unwrap(), "abcd");
    }
    let mut bad: MutexGuard<'_, String> = MutexGuard::from(poison("m"));
    assert!(bad.is_err());
    assert!(bad.access().is_none());
    assert!(bad.access_mut().is_none());
    assert!(bad.as_mut().is_err());
    assert!(bad.as_deref_mut().is_err());
    assert_eq!(bad.to_string(), "(Poisoned)");
    assert_eq!(bad.to_debug_string(), "(Poisoned: 'poisoned due to 'm'')");
    assert!(bad != MutexGuard::from(poison("m")));
    assert!(bad.take_err().unwrap() == poison("m"));
}

#[test]
fn option_read_guard_sees_through_the_option() {
    let full = RwLock::new(Some(5));
    let empty: RwLock<Option<i32>> = RwLock::new(None);
    let guard = OptionReadGuard::from(full.read().unwrap());
    assert!(guard.is_ok() && !guard.is_err());
    assert_eq!(guard.access(), Some(&5));
    assert_eq!(guard.as_deref().unwrap(), Some(&5));
    assert_eq!(**guard.as_ref().unwrap(), Some(5));
    assert_eq!(guard.to_string(), "Some(5)");
    assert!(guard == 5);
    assert!(guard != 6);
    assert_eq!(guard.to_debug_string(), "Some(5)");
    assert!(guard == OptionReadGuard::from(full.read().unwrap()));
    let none = OptionReadGuard::from(empty.read().unwrap());
    assert!(none.is_ok());
    assert_eq!(none.access(), None);
    assert_eq!(none.as_deref().unwrap(), None);
    assert!(none != 5);
    assert!(none != guard);
    assert!(none == OptionReadGuard::from(Ok(empty.read().unwrap())));
    assert!(none.take_err().is_none());
    assert_eq!(*guard.take_lock().unwrap(), Some(5));

    let bad: OptionReadGuard<'_, i32> = OptionReadGuard::from(poison("o"));
    assert!(bad.is_err());
    assert_eq!(bad.access(), None);
    assert!(bad.as_deref().is_err());
    assert_eq!(bad.access_error().unwrap().to_string(), "poisoned due to 'o'");
    assert_eq!(bad.to_string(), "(Poisioned)");
    assert_eq!(bad.to_debug_string(), "(Poisoned: 'poisoned due to 'o''");
    assert!(bad.take().is_err());
}

#[test]
fn option_write_guard_changes_through_the_option() {
    let lock = RwLock::new(Some(1));
    {
        let mut guard = OptionWriteGuard::from(lock.write().unwrap());
        assert!(guard.is_ok() && !guard.is_err());
        *guard.access().unwrap() += 1;
        *guard.as_deref().unwrap().unwrap() += 1;
        assert!(guard.access_error().is_none());
        **guard.as_ref().unwrap() = Some(10);
    }
    assert_eq!(*lock.read().unwrap(), Some(10));
    {
        let guard = OptionWriteGuard::from(Ok(lock.write().unwrap()));
        *guard.take().unwrap() = None;
    }
    {
        let mut guard = OptionWriteGuard::from(lock.write().unwrap());
        assert!(guard.access().is_none());
        assert!(guard.as_deref().unwrap().is_none());
        assert!(guard.take_lock().is_some());
    }
    let mut bad: OptionWriteGuard<'_, i32> = OptionWriteGuard::from(poison("ow"));
    assert!(bad.is_err());
    assert!(bad.access().is_none());
    assert!(bad.as_deref().is_err());
    assert!(bad.as_ref().is_err());
    assert!(bad.take_err().unwrap() == poison("ow"));
}

#[test]
fn option_mutex_guard_reads_and_writes() {
    let lock = Mutex::new(Some(String::from("x")));
    {
        let mut guard = OptionMutexGuard::from(lock.lock().unwrap());
        assert_eq!(guard.access().unwrap(), "x");
        guard.access_mut().unwrap().push('y');
        guard.as_deref_mut().unwrap().unwrap().push('z');
        assert_eq!(guard.as_deref().unwrap().unwrap(), "xyz");
        assert!(guard.as_ref().is_ok());
        assert_eq!(guard.to_string(), "Some(\"xyz\")");
        assert!(guard == String::from("xyz"));
        assert_eq!(guard.to_debug_string(), "Some(\"xyz\")");
        **guard.as_mut().unwrap() = None;
        assert!(guard.access().is_none());
        assert!(guard.access_error().is_none());
        assert!(guard.take_err().is_none());
    }
    {
        let guard = OptionMutexGuard::from(Ok(lock.lock().unwrap()));
        assert!(guard.take().unwrap().is_none());
    }
    {
        let guard = OptionMutexGuard::from(lock.lock().unwrap());
        assert!(guard != OptionMutexGuard::from(poison("x")));
        assert!(guard.take_lock().is_some());
    }
    let mut bad: OptionMutexGuard<'_, u8> = OptionMutexGuard::from(poison("om"));
    assert!(bad.access().is_none());
    assert!(bad.access_mut().is_none());
    assert!(bad.as_mut().is_err());
    assert!(bad.as_deref().is_err());
    assert!(bad.as_deref_mut().is_err());
    assert_eq!(bad.to_string(), "(Poisioned)");
    assert_eq!(bad.to_debug_string(), "(Poisoned)");
    assert_eq!(bad.access_error().unwrap().to_string(), "poisoned due to 'om'");
    assert!(bad.take_err().unwrap() == poison("om"));
}

#[test]
fn rw_provider_passes_values() {
    let counter = Counter { data: Arc::new(RwLock::new(1)) };
    assert!(!counter.is_poisoned());
    assert_eq!(counter.access().access(), Some(&1));
    counter.pass(5);
    assert_eq!(counter.access().access(), Some(&5));
    *counter.access_mut().access().unwrap() += 1;
    assert_eq!(counter.access().access(), Some(&6));
    counter.set_to_default();
    assert_eq!(counter.access().access(), Some(&0));
}

#[test]
fn option_rw_provider_opens_and_resets() {
    let slot = Slot { data: Arc::new(RwLock::new(None)) };
    assert!(!slot.is_open());
    assert!(!slot.is_poisoned());
    assert!(slot.access().access().is_none());
    slot.pass("a".to_string());
    assert!(slot.is_open());
    assert_eq!(slot.access().access().unwrap(), "a");
    slot.access_mut().access().unwrap().push('b');
    assert_eq!(slot.access().access().unwrap(), "ab");
    slot.set_to_default();
    assert_eq!(slot.access().access().unwrap(), "");
    slot.reset();
    assert!(!slot.is_open());
}

#[test]
fn mutex_provider_passes_values() {
    let tally = Tally { data: Arc::new(Mutex::new(-1)) };
    assert!(!tally.is_poisoned());
    assert_eq!(tally.access().access(), Some(&-1));
    tally.pass(40);
    *tally.access().access_mut().unwrap() += 2;
    assert_eq!(tally.access().access(), Some(&42));
    tally.set_to_default();
    assert_eq!(tally.access().access(), Some(&0));
}
