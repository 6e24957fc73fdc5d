use evented::evented::Evented;
use evented::evented::RawHandle;
use evented::interests::Interests;
use evented::registry::IoError;
use evented::registry::Registry;
use evented::token::Token;

#[test]
fn register_then_deregister_allows_fresh_register() {
    let mut registry = Registry::new(8);
    let handle = RawHandle { raw: 1 };

    assert_eq!(handle.register(&mut registry, Token(5), Interests::readable()), Ok(()));
    assert_eq!(handle.deregister(&mut registry), Ok(()));
    assert!(!registry.is_registered(1));

    // Same token and interests again.
    assert_eq!(handle.register(&mut registry, Token(5), Interests::readable()), Ok(()));
    assert_eq!(handle.deregister(&mut registry), Ok(()));

    // Different token and interests.
    assert_eq!(handle.register(&mut registry, Token(9), Interests::writable()), Ok(()));
    let entry = registry.registration(1).unwrap();
    assert_eq!(entry.token, Token(9));
    assert!(entry.interests.is_writable());
}

#[test]
fn reregister_before_register_fails_without_side_effect() {
    let mut registry = Registry::new(8);
    let handle = RawHandle { raw: 2 };

    let result = handle.reregister(&mut registry, Token(1), Interests::readable());
    assert_eq!(result, Err(IoError::NotRegistered));
    assert!(!registry.is_registered(2));
    assert_eq!(registry.len(), 0);
}

#[test]
fn register_twice_fails_with_already_registered() {
    let mut registry = Registry::new(8);
    let handle = RawHandle { raw: 3 };

    assert_eq!(handle.register(&mut registry, Token(4), Interests::readable()), Ok(()));
    let second = handle.register(&mut registry, Token(6), Interests::writable());
    assert_eq!(second, Err(IoError::AlreadyRegistered));

    // No second independent association: still one entry, under the first token.
    assert_eq!(registry.len(), 1);
    let entry = registry.registration(3).unwrap();
    assert_eq!(entry.token, Token(4));
    assert!(entry.interests.is_readable());
    assert!(!entry.interests.is_writable());
}

#[test]
fn deregister_twice_fails_with_not_registered() {
    let mut registry = Registry::new(8);
    let handle = RawHandle { raw: 4 };

    assert_eq!(handle.register(&mut registry, Token(2), Interests::readable()), Ok(()));
    assert_eq!(handle.deregister(&mut registry), Ok(()));
    assert_eq!(handle.deregister(&mut registry), Err(IoError::NotRegistered));
    assert_eq!(registry.len(), 0);
}

#[test]
fn register_reregister_deregister_scenario() {
    let mut registry = Registry::new(8);
    let resource_a = RawHandle { raw: 10 };

    assert_eq!(resource_a.register(&mut registry, Token(5), Interests::readable()), Ok(()));

    let both = Interests::readable().add(Interests::writable());
    assert_eq!(resource_a.reregister(&mut registry, Token(7), both), Ok(()));

    // Readiness events for A now report Token(7), under both conditions.
    let entry = registry.registration(10).unwrap();
    assert_eq!(entry.token, Token(7));
    assert!(entry.interests.is_readable());
    assert!(entry.interests.is_writable());

    assert_eq!(resource_a.deregister(&mut registry), Ok(()));

    let late = resource_a.reregister(&mut registry, Token(7), Interests::readable());
    assert_eq!(late, Err(IoError::NotRegistered));
}

#[test]
fn register_fails_when_registry_is_exhausted() {
    let mut registry = Registry::new(1);
    let first = RawHandle { raw: 20 };
    let second = RawHandle { raw: 21 };

    assert_eq!(first.register(&mut registry, Token(1), Interests::readable()), Ok(()));
    let refused = second.register(&mut registry, Token(2), Interests::readable());
    assert_eq!(refused, Err(IoError::Exhausted));
    assert!(!registry.is_registered(21));

    // A registry with no slots at all refuses the very first registration.
    let mut empty = Registry::new(0);
    let result = first.register(&mut empty, Token(1), Interests::readable());
    assert_eq!(result, Err(IoError::Exhausted));
}

#[test]
fn independent_resources_keep_independent_registrations() {
    let mut registry = Registry::new(8);
    let a = RawHandle { raw: 30 };
    let b = RawHandle { raw: 31 };

    assert_eq!(a.register(&mut registry, Token(1), Interests::readable()), Ok(()));
    assert_eq!(b.register(&mut registry, Token(2), Interests::writable()), Ok(()));
    assert_eq!(registry.len(), 2);

    assert_eq!(a.deregister(&mut registry), Ok(()));
    assert!(!registry.is_registered(30));
    assert!(registry.is_registered(31));
    assert_eq!(registry.registration(31).unwrap().token, Token(2));
}

#[test]
fn registration_lookup_reports_absence() {
    let registry = Registry::new(8);
    assert_eq!(registry.registration(99), None);
    assert!(!registry.is_registered(99));
}
