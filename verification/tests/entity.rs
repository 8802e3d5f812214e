use shipyard::Entities;
use shipyard::Key;

#[test]
fn key() {
    let mut key = Key::new(0);
    assert_eq!(key.index(), 0);
    assert_eq!(key.version(), 0);
    key.set_index(701);
    assert_eq!(key.index(), 701);
    assert_eq!(key.version(), 0);
    key.bump_version().unwrap();
    key.bump_version().unwrap();
    key.bump_version().unwrap();
    assert_eq!(key.index(), 701);
    assert_eq!(key.version(), 3);
    key.set_index(554);
    assert_eq!(key.index(), 554);
    assert_eq!(key.version(), 3);
}

#[test]
fn entities() {
    let mut entities = Entities::default();

    let key00 = entities.generate();
    let key10 = entities.generate();

    assert_eq!(key00.index(), 0);
    assert_eq!(key00.version(), 0);
    assert_eq!(key10.index(), 1);
    assert_eq!(key10.version(), 0);

    assert!(entities.view_mut().delete_key(key00));
    assert!(!entities.view_mut().delete_key(key00));
    let key01 = entities.generate();

    assert_eq!(key01.index(), 0);
    assert_eq!(key01.version(), 1);

    assert!(entities.view_mut().delete_key(key10));
    assert!(entities.view_mut().delete_key(key01));
    let key11 = entities.generate();
    let key02 = entities.generate();

    assert_eq!(key11.index(), 1);
    assert_eq!(key11.version(), 1);
    assert_eq!(key02.index(), 0);
    assert_eq!(key02.version(), 2);

    let last_key = Key::from_bits(!(!0 >> 15));
    entities.advance(key02, last_key);
    assert!(entities.view_mut().delete_key(last_key));
    assert_eq!(entities.list(), None);
    let dead = entities.generate();
    assert_eq!(dead.index(), 2);
    assert_eq!(dead.version(), 0);
}

#[test]
fn pack_then_unpack_gives_the_parts_back() {
    let cases: [(usize, usize); 5] =
        [(0, 0), (1, 0), (0, 1), (701, 3), (0xFFFF_FFFF_FFFF, 0xFFFF)];
    for (index, version) in cases {
        let key = Key::pack(index, version);
        assert_eq!(key.index(), index);
        assert_eq!(key.version(), version);
        assert_eq!(Key::from_bits(key.bits()), key);
    }
}

#[test]
fn pack_puts_the_version_above_the_index() {
    let key = Key::pack(5, 2);
    assert_eq!(key.bits(), (2 << 48) | 5);
    assert_eq!(Key::from_bits(0xFFFE_0000_0000_002A).index(), 42);
    assert_eq!(Key::from_bits(0xFFFE_0000_0000_002A).version(), 0xFFFE);
}

#[test]
fn bump_version_stops_before_the_reserved_version() {
    let mut key = Key::pack(9, 0xFFFD);
    assert_eq!(key.bump_version(), Ok(()));
    assert_eq!(key.version(), 0xFFFE);
    assert_eq!(key.index(), 9);
    assert_eq!(key.bump_version(), Err(()));
    assert_eq!(key.version(), 0xFFFE);
    assert_eq!(key.index(), 9);
    assert!(!key.is_dead());
    assert!(Key::pack(9, 0xFFFF).is_dead());
}

#[test]
fn generation_counts_the_cycles() {
    let mut entities = Entities::new();
    let mut key = entities.generate();
    for n in 1..=100usize {
        let stale = key;
        assert!(entities.delete_key(stale));
        key = entities.generate();
        assert_eq!(key.index(), 0);
        assert_eq!(key.version(), n);
        assert_ne!(key, stale);
        assert!(!entities.is_alive(stale));
        assert!(entities.is_alive(key));
    }
    assert_eq!(entities.len(), 1);
}

#[test]
fn removed_slots_come_back_oldest_first() {
    let mut entities = Entities::new();
    let a = entities.generate();
    let b = entities.generate();
    let c = entities.generate();
    assert!(entities.delete_key(a));
    assert!(entities.delete_key(b));
    assert_eq!(entities.list(), Some((1, 0)));
    let first = entities.generate();
    let second = entities.generate();
    assert_eq!((first.index(), first.version()), (0, 1));
    assert_eq!((second.index(), second.version()), (1, 1));
    assert!(entities.is_alive(c));
    assert_eq!(entities.list(), None);
    let fresh = entities.generate();
    assert_eq!((fresh.index(), fresh.version()), (3, 0));
}

#[test]
fn a_dead_slot_is_never_issued_again() {
    let mut entities = Entities::new();
    let first = entities.generate();
    let last = Key::pack(0, 0xFFFE);
    assert!(entities.advance(first, last));
    assert!(!entities.is_alive(first));
    assert!(entities.is_alive(last));
    assert!(entities.delete_key(last));
    assert!(!entities.delete_key(last));
    assert!(!entities.is_alive(last));
    assert!(!entities.is_alive(Key::pack(0, 0xFFFF)));
    assert!(!entities.delete_key(Key::pack(0, 0xFFFF)));
    assert_eq!(entities.list(), None);
    for n in 1..10usize {
        let key = entities.generate();
        assert_eq!(key.index(), n);
        assert_eq!(key.version(), 0);
    }
}

#[test]
fn handles_that_were_never_issued_are_not_alive() {
    let mut entities = Entities::new();
    assert!(!entities.is_alive(Key::new(0)));
    assert!(!entities.delete_key(Key::new(0)));
    let a = entities.generate();
    let b = entities.generate();
    assert!(entities.delete_key(a));
    assert!(entities.delete_key(b));
    // The slots wait at version 1; nobody holds a handle to them yet.
    assert!(!entities.is_alive(Key::pack(0, 1)));
    assert!(!entities.is_alive(Key::pack(1, 1)));
    assert!(!entities.delete_key(Key::pack(1, 1)));
    assert!(!entities.delete_key(Key::pack(0, 1)));
    assert!(!entities.is_alive(Key::pack(2, 0)));
    assert_eq!(entities.list(), Some((1, 0)));
    assert_eq!(entities.generate(), Key::pack(0, 1));
    assert_eq!(entities.generate(), Key::pack(1, 1));
}

#[test]
fn advance_refuses_what_would_break_the_order_of_versions() {
    let mut entities = Entities::new();
    let key = entities.generate();
    assert!(entities.advance(key, Key::pack(0, 7)));
    let key = Key::pack(0, 7);
    assert!(!entities.advance(key, Key::pack(0, 6)));
    assert!(!entities.advance(key, Key::pack(1, 8)));
    assert!(!entities.advance(key, Key::pack(0, 0xFFFF)));
    assert!(!entities.advance(Key::pack(0, 3), Key::pack(0, 9)));
    assert!(entities.is_alive(key));
    assert!(entities.advance(key, key));
    assert!(entities.can_generate());
}
