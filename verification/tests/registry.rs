use std::cell::RefCell;

use plugin_tls::Identifier;
use plugin_tls::LocalKey;
use plugin_tls::Registry;
use plugin_tls::reset;

#[test]
fn new_registry_is_empty() {
    let reg: Registry<u32> = Registry::new();
    assert_eq!(reg.entry_count(), 0);
    assert!(!reg.contains(&Identifier::new("X", "u32", "tests")));
}

#[test]
fn identifier_concatenates_most_specific_first() {
    let id = Identifier::new("COUNTER", "u32", "crate::module");
    assert_eq!(id.as_text(), "COUNTERu32crate::module");
    let again = Identifier::new("COUNTER", "u32", "crate::module");
    assert!(id == again);
    let other = Identifier::new("COUNTER", "u64", "crate::module");
    assert!(id != other);
    let wrapped = Identifier::from_text(String::from("COUNTERu32crate::module"));
    assert!(id == wrapped);
    assert!(id.clone() == id);
}

#[test]
fn first_access_initializes() {
    let mut reg: Registry<u32> = Registry::new();
    let id = Identifier::new("N", "u32", "tests");
    let runs = RefCell::new(0);
    let slot = reg.get_or_init(&id, || {
        *runs.borrow_mut() += 1;
        41
    });
    assert_eq!(*runs.borrow(), 1);
    assert_eq!(slot, 0);
    assert_eq!(*reg.read(slot), 41);
    assert!(reg.contains(&id));
    assert_eq!(reg.entry_count(), 1);
}

#[test]
fn distinct_identifiers_independent() {
    let mut reg: Registry<RefCell<i32>> = Registry::new();
    let k1 = Identifier::new("A", "i32", "tests");
    let k2 = Identifier::new("B", "i32", "tests");
    let s1 = reg.get_or_init(&k1, || RefCell::new(10));
    let s2 = reg.get_or_init(&k2, || RefCell::new(20));
    assert_ne!(s1, s2);
    *reg.read(s1).borrow_mut() = 77;
    assert_eq!(*reg.read(s2).borrow(), 20);
    *reg.read(s2).borrow_mut() = 88;
    assert_eq!(*reg.read(s1).borrow(), 77);
}

#[test]
fn repeated_access_idempotent() {
    let mut reg: Registry<u32> = Registry::new();
    let id = Identifier::new("ONCE", "u32", "tests");
    let runs = RefCell::new(0);
    let init = || {
        *runs.borrow_mut() += 1;
        5
    };
    let first = reg.get_or_init(&id, init);
    let second = reg.get_or_init(&id, init);
    let third = reg.get_or_init(&id, init);
    assert_eq!(*runs.borrow(), 1);
    assert_eq!(first, second);
    assert_eq!(second, third);
    assert_eq!(*reg.read(third), 5);
}

#[test]
fn thread_isolation() {
    // One registry per thread: values initialized on thread A are not
    // visible on thread B, which runs its own initialization.
    let mut reg_a: Registry<i32> = Registry::new();
    let mut reg_b: Registry<i32> = Registry::new();
    let id = Identifier::new("LOCAL", "i32", "tests");
    let runs = RefCell::new(0);
    let init = || {
        *runs.borrow_mut() += 1;
        *runs.borrow()
    };
    let sa = reg_a.get_or_init(&id, init);
    assert!(!reg_b.contains(&id));
    let sb = reg_b.get_or_init(&id, init);
    assert_eq!(*runs.borrow(), 2);
    assert_eq!(*reg_a.read(sa), 1);
    assert_eq!(*reg_b.read(sb), 2);
}

#[test]
fn static_sharing() {
    // One process-wide registry: a static initialized by one thread is
    // observed by every other thread without re-initialization.
    let mut statics: Registry<i32> = Registry::new();
    let id = Identifier::new("SHARED", "i32", "tests");
    let first_ran = RefCell::new(false);
    let s1 = statics.get_or_init(&id, || {
        *first_ran.borrow_mut() = true;
        123
    });
    let second_ran = RefCell::new(false);
    let s2 = statics.get_or_init(&id, || {
        *second_ran.borrow_mut() = true;
        456
    });
    assert!(*first_ran.borrow());
    assert!(!*second_ran.borrow());
    assert_eq!(s1, s2);
    assert_eq!(*statics.read(s2), 123);
}

#[test]
fn concurrent_first_access_race() {
    // The static registry's lock serializes racing first accesses; however
    // many arrive, exactly one initializer runs and every access observes
    // the value it stored.
    let mut statics: Registry<i32> = Registry::new();
    let id = Identifier::new("RACE", "i32", "tests");
    let runs = RefCell::new(0);
    let mut observed = Vec::new();
    let mut candidate: i32 = 0;
    while candidate < 5 {
        let init = || {
            *runs.borrow_mut() += 1;
            candidate + 100
        };
        let slot = statics.get_or_init(&id, init);
        observed.push(*statics.read(slot));
        candidate += 1;
    }
    assert_eq!(*runs.borrow(), 1);
    assert_eq!(observed, vec![100, 100, 100, 100, 100]);
}

#[test]
fn reset_reruns_initializer() {
    let mut tls: Registry<i32> = Registry::new();
    let mut statics: Registry<i32> = Registry::new();
    let id = Identifier::new("R", "i32", "tests");
    let runs = RefCell::new(0);
    let init = || {
        *runs.borrow_mut() += 1;
        *runs.borrow()
    };
    let s1 = tls.get_or_init(&id, init);
    let s2 = statics.get_or_init(&id, init);
    assert_eq!(*tls.read(s1), 1);
    assert_eq!(*statics.read(s2), 2);
    reset(&mut tls, &mut statics);
    assert_eq!(tls.entry_count(), 0);
    assert_eq!(statics.entry_count(), 0);
    assert!(!tls.contains(&id));
    let s3 = tls.get_or_init(&id, init);
    let s4 = statics.get_or_init(&id, init);
    assert_eq!(*runs.borrow(), 4);
    assert_eq!(*tls.read(s3), 3);
    assert_eq!(*statics.read(s4), 4);
}

#[test]
fn host_and_plugin_share_static_list() {
    // Two images declare the same static list by identical declarations.
    // The declarations yield equal identifiers, so against the shared
    // static registry both observe one growing list, never two.
    let mut statics: Registry<RefCell<Vec<i32>>> = Registry::new();
    let host_key = LocalKey::new(
        Identifier::new("EVENTS", "Vec<i32>", "shared::decl"),
        || RefCell::new(Vec::new()),
    );
    let plugin_key = LocalKey::new(
        Identifier::new("EVENTS", "Vec<i32>", "shared::decl"),
        || RefCell::new(Vec::new()),
    );
    host_key.with(&mut statics, |list: &RefCell<Vec<i32>>| {
        list.borrow_mut().push(1);
    });
    plugin_key.with(&mut statics, |list: &RefCell<Vec<i32>>| {
        list.borrow_mut().push(2);
    });
    let from_host = host_key.with(&mut statics, |list: &RefCell<Vec<i32>>| list.borrow().clone());
    let from_plugin =
        plugin_key.with(&mut statics, |list: &RefCell<Vec<i32>>| list.borrow().clone());
    assert_eq!(from_host, vec![1, 2]);
    assert_eq!(from_plugin, vec![1, 2]);
    assert_eq!(statics.entry_count(), 1);
}

#[test]
fn thread_local_counters_independent() {
    // A thread-local initializer records an increasing global counter; each
    // thread's value starts at what the initializer returned on that
    // thread's own first access, untouched by the other thread's count.
    let counter = RefCell::new(0);
    let key = LocalKey::new(Identifier::new("SEQ", "i32", "tests"), || {
        *counter.borrow_mut() += 1;
        *counter.borrow()
    });
    let mut t1: Registry<i32> = Registry::new();
    let mut t2: Registry<i32> = Registry::new();
    let seen_t1 = key.with(&mut t1, |v: &i32| *v);
    let seen_t2 = key.with(&mut t2, |v: &i32| *v);
    assert_eq!(seen_t1, 1);
    assert_eq!(seen_t2, 2);
    let again_t1 = key.with(&mut t1, |v: &i32| *v);
    let again_t2 = key.with(&mut t2, |v: &i32| *v);
    assert_eq!(again_t1, 1);
    assert_eq!(again_t2, 2);
}
