use std::sync::Arc;

use remote_connections::locks::RemoteProjectOpenLocks;

type Locks = RemoteProjectOpenLocks<String, Vec<String>>;

fn paths(path: &str) -> Vec<String> {
    vec![path.to_string()]
}

#[test]
fn an_owned_lock_is_handed_out_again() {
    let mut locks = Locks::default();
    let first = locks.lock("host".to_string(), paths("/project"));
    let second = locks.lock("host".to_string(), paths("/project"));
    assert!(Arc::ptr_eq(&first, &second));
    assert_eq!(locks.len(), 1);
}

#[test]
fn projects_do_not_share_a_lock() {
    let mut locks = Locks::default();
    let first = locks.lock("host".to_string(), paths("/project"));
    let elsewhere = locks.lock("other".to_string(), paths("/project"));
    let beside = locks.lock("host".to_string(), paths("/other"));
    assert!(!Arc::ptr_eq(&first, &elsewhere));
    assert!(!Arc::ptr_eq(&first, &beside));
    assert!(!Arc::ptr_eq(&elsewhere, &beside));
    assert_eq!(locks.len(), 3);
    let again = locks.lock("host".to_string(), paths("/project"));
    assert!(Arc::ptr_eq(&first, &again));
}

#[test]
fn a_lock_that_nobody_owns_is_forgotten() {
    let mut locks = Locks::default();
    drop(locks.lock("host".to_string(), paths("/project")));
    assert_eq!(locks.len(), 1);
    let kept = locks.lock("host".to_string(), paths("/other"));
    assert_eq!(locks.len(), 1);
    let new = locks.lock("host".to_string(), paths("/project"));
    assert_eq!(locks.len(), 2);
    assert!(!Arc::ptr_eq(&kept, &new));
}

#[test]
fn a_handed_out_lock_is_free_and_excludes() {
    let mut locks = Locks::default();
    let first = locks.lock("host".to_string(), paths("/project"));
    let second = locks.lock("host".to_string(), paths("/project"));
    let guard = first.try_lock();
    assert!(guard.is_some());
    assert!(second.try_lock().is_none());
    drop(guard);
    assert!(second.try_lock().is_some());
}

#[test]
fn the_counts_tell_which_locks_to_keep() {
    let mut locks = Locks::default();
    let _first = locks.lock("host".to_string(), paths("/a"));
    let second = locks.lock("host".to_string(), paths("/b"));
    let _third = locks.lock("host".to_string(), paths("/c"));
    locks.retain_live(&vec![0, 2, 0]);
    assert_eq!(locks.len(), 1);
    let owned = vec![second.clone()];
    assert!(locks.held(&"host".to_string(), &paths("/a"), &owned).is_none());
    let held = locks.held(&"host".to_string(), &paths("/b"), &owned).unwrap();
    assert!(Arc::ptr_eq(&held, &second));
    assert!(locks.held(&"host".to_string(), &paths("/c"), &owned).is_none());
}

#[test]
fn a_lock_that_is_not_held_is_replaced() {
    let mut locks = Locks::default();
    let first = locks.lock("host".to_string(), paths("/project"));
    let second = locks.grant("host".to_string(), paths("/project"), None);
    assert!(!Arc::ptr_eq(&first, &second));
    assert_eq!(locks.len(), 1);
    let third = locks.grant("host".to_string(), paths("/project"), Some(second.clone()));
    assert!(Arc::ptr_eq(&second, &third));
}

#[derive(Clone, Debug)]
struct AnyCase(String);

impl PartialEq for AnyCase {
    fn eq(&self, other: &Self) -> bool {
        self.0.eq_ignore_ascii_case(&other.0)
    }
}

#[test]
fn equal_keys_share_a_lock() {
    let mut locks: RemoteProjectOpenLocks<AnyCase, u64> = RemoteProjectOpenLocks::default();
    let first = locks.lock(AnyCase("host".to_string()), 1);
    let second = locks.lock(AnyCase("HOST".to_string()), 1);
    let third = locks.lock(AnyCase("HOST".to_string()), 2);
    assert!(Arc::ptr_eq(&first, &second));
    assert!(!Arc::ptr_eq(&first, &third));
    assert_eq!(locks.len(), 2);
}

#[test]
fn the_table_keeps_only_weak_references() {
    let mut locks = Locks::default();
    let a = locks.lock("host".to_string(), paths("/project"));
    assert_eq!(Arc::strong_count(&a), 1);
    let b = locks.lock("host".to_string(), paths("/project"));
    let c = locks.lock("host".to_string(), paths("/other"));
    assert!(Arc::ptr_eq(&a, &b));
    assert!(!Arc::ptr_eq(&a, &c));
    assert_eq!(Arc::strong_count(&a), 2);
    assert_eq!(Arc::strong_count(&c), 1);
    assert!(a.try_lock().is_some());
    assert!(c.try_lock().is_some());
}

#[test]
fn an_entry_without_an_owner_is_removed() {
    let mut locks = Locks::default();
    drop(locks.lock("host".to_string(), paths("/a")));
    let b = locks.lock("host".to_string(), paths("/b"));
    assert_eq!(locks.len(), 1);
    assert_eq!(Arc::strong_count(&b), 1);
    assert!(b.try_lock().is_some());
    assert!(locks.held(&"host".to_string(), &paths("/a"), &vec![]).is_none());
}

#[test]
fn an_owned_lock_is_shared_whatever_calls_are_in_between() {
    let mut locks = Locks::default();
    let owned = vec![locks.lock("host".to_string(), paths("/project"))];
    for path in ["/a", "/b", "/c"] {
        let other = locks.lock_beside("host".to_string(), paths(path), &owned);
        assert!(!Arc::ptr_eq(&owned[0], &other));
        assert_eq!(locks.len(), 2);
    }
    let again = locks.lock_beside("host".to_string(), paths("/project"), &owned);
    assert!(Arc::ptr_eq(&owned[0], &again));
    assert_eq!(locks.len(), 1);
}

#[test]
fn a_lock_whose_last_owner_is_gone_is_not_held() {
    let mut locks = Locks::default();
    let first = locks.lock("host".to_string(), paths("/project"));
    assert!(locks.held(&"host".to_string(), &paths("/project"), &vec![]).is_some());
    drop(first);
    assert!(locks.held(&"host".to_string(), &paths("/project"), &vec![]).is_none());
}
