use shipyard::Entities;
use shipyard::Flag;
use shipyard::Key;
use shipyard::SparseSet;
use shipyard::UnknownStorage;

fn entries(set: &SparseSet<u32>) -> Vec<(Key, u32)> {
    let mut found = Vec::new();
    let mut iter = set.iter().with_id();
    while let Some((key, value)) = iter.next() {
        found.push((key, *value));
    }
    found
}

#[test]
fn insert_then_get() {
    let mut set: SparseSet<u32> = SparseSet::new();
    assert!(set.is_empty());
    let a = Key::new(4);
    let b = Key::new(0);
    set.insert(a, 40);
    set.insert(b, 10);
    assert_eq!(set.len(), 2);
    assert_eq!(set.get(a), Some(&40));
    assert_eq!(set.get(b), Some(&10));
    assert_eq!(set.index_of(a), Some(0));
    assert_eq!(set.index_of(b), Some(1));
    assert_eq!(set.get(Key::new(1)), None);
    assert_eq!(set.get(Key::new(9)), None);
    assert!(set.contains(a));
    assert!(!set.contains(Key::pack(4, 1)));
    assert_eq!(set.get(Key::pack(4, 1)), None);
}

#[test]
fn insert_over_an_entry_replaces_the_value_in_place() {
    let mut set: SparseSet<u32> = SparseSet::new();
    let a = Key::new(2);
    set.insert(Key::new(0), 1);
    set.insert(a, 2);
    set.insert(a, 3);
    assert_eq!(set.len(), 2);
    assert_eq!(entries(&set), vec![(Key::new(0), 1), (a, 3)]);
    // Another version of the handle finds the entry by its index: the value
    // is replaced and the entry keeps its handle.
    set.insert(Key::pack(2, 5), 4);
    assert_eq!(entries(&set), vec![(Key::new(0), 1), (a, 4)]);
    assert_eq!(set.get(Key::pack(2, 5)), None);
}

#[test]
fn remove_moves_the_last_entry_into_the_gap() {
    let mut set: SparseSet<u32> = SparseSet::new();
    let keys = [Key::new(7), Key::new(3), Key::new(5), Key::new(1)];
    for (n, key) in keys.iter().enumerate() {
        set.insert(*key, n as u32);
    }
    assert_eq!(set.remove(keys[1]), Some(1));
    assert_eq!(entries(&set), vec![(keys[0], 0), (keys[3], 3), (keys[2], 2)]);
    assert_eq!(set.index_of(keys[3]), Some(1));
    assert_eq!(set.index_of(keys[1]), None);
    assert_eq!(set.get(keys[3]), Some(&3));
    assert_eq!(set.remove(keys[1]), None);
    assert_eq!(set.len(), 3);
    // Removing the last entry moves nothing.
    assert_eq!(set.remove(keys[2]), Some(2));
    assert_eq!(entries(&set), vec![(keys[0], 0), (keys[3], 3)]);
    assert_eq!(set.remove(keys[0]), Some(0));
    assert_eq!(set.remove(keys[3]), Some(3));
    assert!(set.is_empty());
    assert_eq!(set.remove(keys[3]), None);
}

#[test]
fn sparse_and_dense_agree_after_every_operation() {
    let mut set: SparseSet<u32> = SparseSet::new();
    let mut expected: Vec<(Key, u32)> = Vec::new();
    let mut seed: u32 = 12345;
    for _ in 0..500 {
        seed = seed.wrapping_mul(1664525).wrapping_add(1013904223);
        let key = Key::new(((seed >> 8) % 16) as usize);
        if seed % 3 == 0 {
            let removed = set.remove(key);
            let at = expected.iter().position(|(k, _)| *k == key);
            assert_eq!(removed, at.map(|p| expected[p].1));
            if let Some(p) = at {
                expected.swap_remove(p);
            }
        } else {
            set.insert(key, seed);
            match expected.iter().position(|(k, _)| *k == key) {
                Some(p) => expected[p].1 = seed,
                None => expected.push((key, seed)),
            }
        }
        assert_eq!(entries(&set), expected);
        assert_eq!(set.len(), expected.len());
        for (p, (key, value)) in expected.iter().enumerate() {
            assert_eq!(set.index_of(*key), Some(p));
            assert_eq!(set.key_at(p), *key);
            assert_eq!(set.value_at(p), value);
            assert_eq!(set.get(*key), Some(value));
        }
    }
}

#[test]
fn get_mut_writes_and_sets_no_flag() {
    let mut set: SparseSet<u32> = SparseSet::new();
    set.track_modification();
    let key = Key::new(1);
    set.insert(key, 5);
    set.clear_flags();
    *set.get_mut(key).unwrap() = 6;
    assert_eq!(set.get(key), Some(&6));
    assert_eq!(set.flag_of(key), Some(Flag::Clean));
    assert!(set.get_mut(Key::new(2)).is_none());
}

#[test]
fn flags_follow_insertions_and_overwrites() {
    let mut set: SparseSet<u32> = SparseSet::new();
    assert!(!set.is_tracking_modification());
    let a = Key::new(0);
    set.insert(a, 1);
    assert_eq!(set.flag_of(a), Some(Flag::Clean));
    set.track_modification();
    assert!(set.is_tracking_modification());
    let b = Key::new(1);
    set.insert(b, 2);
    assert_eq!(set.flag_of(b), Some(Flag::Inserted));
    assert_eq!(set.flag_of(Key::new(2)), None);
    set.insert(b, 3);
    assert_eq!(set.flag_of(b), Some(Flag::Inserted));
    set.insert(a, 4);
    assert_eq!(set.flag_of(a), Some(Flag::Modified));
    set.clear_flags();
    assert_eq!(set.flag_of(a), Some(Flag::Clean));
    assert_eq!(set.flag_of(b), Some(Flag::Clean));
    assert_eq!(Flag::Clean.touched(true), Flag::Modified);
    assert_eq!(Flag::Clean.touched(false), Flag::Clean);
    assert_eq!(Flag::Inserted.touched(true), Flag::Inserted);
    assert_eq!(Flag::Modified.touched(true), Flag::Modified);
}

#[test]
fn flags_move_with_their_entries() {
    let mut set: SparseSet<u32> = SparseSet::new();
    set.track_modification();
    let a = Key::new(0);
    let b = Key::new(1);
    set.insert(a, 1);
    set.clear_flags();
    set.insert(b, 2);
    assert_eq!(set.remove(a), Some(1));
    assert_eq!(set.flag_of(b), Some(Flag::Inserted));
    assert_eq!(set.index_of(b), Some(0));
}

#[test]
fn iteration_is_lazy_and_starts_anew() {
    let mut set: SparseSet<u32> = SparseSet::new();
    set.insert(Key::new(2), 20);
    set.insert(Key::new(0), 0);
    let mut iter = set.iter();
    assert_eq!(iter.next(), Some(&20));
    let mut rest = iter.with_id();
    assert_eq!(rest.next(), Some((Key::new(0), &0)));
    assert_eq!(rest.next(), None);
    assert_eq!(rest.next(), None);
    let mut again = set.iter();
    assert_eq!(again.next(), Some(&20));
    assert_eq!(again.next(), Some(&0));
    assert_eq!(again.next(), None);
    let empty: SparseSet<u32> = SparseSet::new();
    assert_eq!(empty.iter().next(), None);
}

#[test]
fn deleting_an_entity_takes_its_components_along() {
    let mut entities = Entities::new();
    let mut storages: (SparseSet<usize>, SparseSet<u32>) = (SparseSet::new(), SparseSet::new());
    let entity1 = entities.generate();
    let entity2 = entities.generate();
    storages.0.insert(entity1, 0);
    storages.1.insert(entity1, 1);
    storages.0.insert(entity2, 2);
    storages.1.insert(entity2, 3);

    assert!(entities.delete(&mut storages, entity1));

    assert_eq!(storages.0.get(entity1), None);
    assert_eq!(storages.1.get(entity1), None);
    assert_eq!(storages.0.get(entity2), Some(&2));
    assert_eq!(storages.1.get(entity2), Some(&3));
    assert!(!entities.is_alive(entity1));

    // A stale handle deletes nothing, here or in the storages.
    let reborn = entities.generate();
    assert_eq!(reborn.index(), entity1.index());
    storages.1.insert(reborn, 9);
    assert!(!entities.delete(&mut storages, entity1));
    assert_eq!(storages.1.get(reborn), Some(&9));
    assert!(entities.is_alive(reborn));
}

#[test]
fn a_storage_forgets_an_entity_it_never_had() {
    let mut set: SparseSet<u32> = SparseSet::new();
    set.insert(Key::new(1), 1);
    UnknownStorage::delete(&mut set, Key::new(0));
    UnknownStorage::delete(&mut set, Key::new(5));
    assert_eq!(set.len(), 1);
    UnknownStorage::delete(&mut set, Key::new(1));
    assert!(set.is_empty());
}
