use shipyard::Entities;
use shipyard::Key;
use shipyard::SparseSet;

#[test]
fn every_marked_entity_goes_with_its_components() {
    let mut entities = Entities::new();
    let mut marks: SparseSet<()> = SparseSet::new();
    let mut storages: (SparseSet<u8>, SparseSet<u16>, SparseSet<u32>) =
        (SparseSet::new(), SparseSet::new(), SparseSet::new());
    let keys: Vec<Key> = (0..6).map(|_| entities.generate()).collect();
    for (n, key) in keys.iter().enumerate() {
        storages.0.insert(*key, n as u8);
        if n % 2 == 0 {
            storages.1.insert(*key, n as u16);
        }
        if n % 3 == 0 {
            storages.2.insert(*key, n as u32);
        }
    }
    marks.insert(keys[1], ());
    marks.insert(keys[3], ());
    marks.insert(keys[4], ());

    entities.delete_any(&mut marks, &mut storages);

    assert!(marks.is_empty());
    for (n, key) in keys.iter().enumerate() {
        let gone = n == 1 || n == 3 || n == 4;
        assert_eq!(entities.is_alive(*key), !gone);
        assert_eq!(storages.0.get(*key).copied(), if gone { None } else { Some(n as u8) });
        assert_eq!(storages.1.contains(*key), !gone && n % 2 == 0);
        assert_eq!(storages.2.contains(*key), !gone && n % 3 == 0);
    }
    // The slots come back in the order of the deletions: from the last
    // mark to the first.
    assert_eq!(entities.generate(), Key::pack(4, 1));
    assert_eq!(entities.generate(), Key::pack(3, 1));
    assert_eq!(entities.generate(), Key::pack(1, 1));
    assert_eq!(entities.generate(), Key::pack(6, 0));
}

#[test]
fn a_stale_mark_deletes_nothing_but_itself() {
    let mut entities = Entities::new();
    let mut marks: SparseSet<()> = SparseSet::new();
    let mut storages: (SparseSet<u8>,) = (SparseSet::new(),);
    let old = entities.generate();
    assert!(entities.delete_key(old));
    let new = entities.generate();
    storages.0.insert(new, 7);
    marks.insert(old, ());
    entities.delete_any(&mut marks, &mut storages);
    assert!(marks.is_empty());
    assert!(entities.is_alive(new));
    assert_eq!(storages.0.get(new), Some(&7));
    entities.delete_any(&mut marks, &mut storages);
    assert!(entities.is_alive(new));
}
