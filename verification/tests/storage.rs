use shipyard::Entities;
use shipyard::SparseSet;
use shipyard::UnknownStorage;

#[test]
fn nested_pairs_are_purged_throughout() {
    let mut entities = Entities::new();
    let mut storages: (SparseSet<u8>, (SparseSet<u16>, SparseSet<u32>)) =
        (SparseSet::new(), (SparseSet::new(), SparseSet::new()));
    let a = entities.generate();
    let b = entities.generate();
    storages.0.insert(a, 1);
    (storages.1).0.insert(a, 2);
    (storages.1).1.insert(a, 3);
    (storages.1).1.insert(b, 4);
    assert!(entities.delete(&mut storages, a));
    assert!(storages.0.is_empty());
    assert!((storages.1).0.is_empty());
    assert_eq!((storages.1).1.len(), 1);
    assert_eq!((storages.1).1.get(b), Some(&4));
}
