use shipyard::error::MissingComponent;
use shipyard::Flag;
use shipyard::Get;
use shipyard::Key;
use shipyard::SparseSet;
use shipyard::TypeId;
use shipyard::ViewMut;
use shipyard::ViewRef;

#[test]
fn get_through_shared_views() {
    let mut usizes: SparseSet<usize> = SparseSet::new();
    let mut u32s: SparseSet<u32> = SparseSet::new();
    let entity = Key::new(0);
    usizes.insert(entity, 0);
    u32s.insert(entity, 1);
    let usizes = ViewRef(&usizes);
    let u32s = ViewRef(&u32s);
    assert_eq!((&usizes, &u32s).get(entity), Ok((&0, &1)));
    assert_eq!((&usizes, &u32s).fast_get(entity), Ok((&0, &1)));
    assert_eq!((&usizes).get(entity), Ok(&0));
    assert_eq!((&u32s,).get(entity), Ok((&1,)));
}

#[test]
fn get_names_the_entity_and_the_type_that_is_missing() {
    let mut usizes: SparseSet<usize> = SparseSet::named("usize");
    let u32s: SparseSet<u32> = SparseSet::named("u32");
    assert_eq!(usizes.name(), "usize");
    assert_eq!(u32s.type_id(), TypeId::of::<u32>());
    let entity = Key::new(3);
    usizes.insert(entity, 7);
    let usizes = ViewRef(&usizes);
    let u32s = ViewRef(&u32s);
    assert_eq!(
        (&u32s).get(entity),
        Err(MissingComponent { id: entity, type_id: TypeId::of::<u32>(), name: "u32" })
    );
    assert_eq!(
        (&usizes).fast_get(Key::new(4)),
        Err(MissingComponent { id: Key::new(4), type_id: TypeId::of::<usize>(), name: "usize" })
    );
    // A handle of another version of the same slot owns nothing.
    assert_eq!(
        (&usizes).get(Key::pack(3, 1)),
        Err(MissingComponent { id: Key::pack(3, 1), type_id: TypeId::of::<usize>(), name: "usize" })
    );
}

#[test]
fn a_tuple_fails_with_the_first_missing_component() {
    let mut usizes: SparseSet<usize> = SparseSet::named("usize");
    let u32s: SparseSet<u32> = SparseSet::named("u32");
    let u64s: SparseSet<u64> = SparseSet::named("u64");
    let entity = Key::new(0);
    usizes.insert(entity, 7);
    let usizes = ViewRef(&usizes);
    let u32s = ViewRef(&u32s);
    let u64s = ViewRef(&u64s);
    // First present, second absent: the error names the second type.
    assert_eq!(
        (&usizes, &u32s).get(entity),
        Err(MissingComponent { id: entity, type_id: TypeId::of::<u32>(), name: "u32" })
    );
    assert_eq!(
        (&usizes, &u32s).fast_get(entity),
        Err(MissingComponent { id: entity, type_id: TypeId::of::<u32>(), name: "u32" })
    );
    // Both absent: the error names the first of them.
    assert_eq!(
        (&u64s, &u32s).get(entity),
        Err(MissingComponent { id: entity, type_id: TypeId::of::<u64>(), name: "u64" })
    );
    assert_eq!(
        (&usizes, &u32s, &u64s).get(entity),
        Err(MissingComponent { id: entity, type_id: TypeId::of::<u32>(), name: "u32" })
    );
}

#[test]
fn tuples_of_ten_views() {
    let mut set: SparseSet<u8> = SparseSet::new();
    let entity = Key::new(1);
    set.insert(entity, 9);
    let v = ViewRef(&set);
    let found = (&v, &v, &v, &v, &v, &v, &v, &v, &v, &v).get(entity);
    assert_eq!(found, Ok((&9, &9, &9, &9, &9, &9, &9, &9, &9, &9)));
    let empty: SparseSet<i8> = SparseSet::new();
    let e = ViewRef(&empty);
    let found = (&v, &v, &v, &v, &v, &v, &v, &v, &v, &e).fast_get(entity);
    assert_eq!(found, Err(MissingComponent { id: entity, type_id: TypeId::of::<i8>(), name: "" }));
}

#[test]
fn exclusive_views_read_and_write() {
    let mut usizes: SparseSet<usize> = SparseSet::new();
    let mut u32s: SparseSet<u32> = SparseSet::new();
    let entity = Key::new(0);
    usizes.insert(entity, 0);
    u32s.insert(entity, 1);
    {
        let mut usizes = ViewMut(&mut usizes);
        let u32s = ViewRef(&u32s);
        assert_eq!((&usizes).get(entity), Ok(&0));
        let (a, b) = (&mut usizes, &u32s).fast_get(entity).unwrap();
        *a += *b as usize + 4;
        assert_eq!((&usizes, &u32s).get(entity), Ok((&5, &1)));
        let (mut a, _) = (&mut usizes, &u32s).get(entity).unwrap();
        *a.get_mut() = 6;
        assert!((&mut usizes).get(Key::new(1)).is_err());
        assert!((&mut usizes).fast_get(Key::new(1)).is_err());
    }
    assert_eq!(usizes.get(entity), Some(&6));
    assert_eq!(usizes.flag_of(entity), Some(Flag::Clean));
}

#[test]
fn the_first_write_through_get_is_flagged_once() {
    let mut set: SparseSet<u32> = SparseSet::new();
    set.track_modification();
    let entity = Key::new(2);
    set.insert(entity, 1);
    set.clear_flags();
    {
        let mut view = ViewMut(&mut set);
        // Reading through the access leaves the flag clean.
        let access = (&mut view).get(entity).unwrap();
        assert!(access.flag.is_some());
        assert_eq!(*access.get(), 1);
    }
    assert_eq!(set.flag_of(entity), Some(Flag::Clean));
    {
        let mut view = ViewMut(&mut set);
        let mut access = (&mut view).get(entity).unwrap();
        *access.get_mut() = 2;
        assert!(access.flag.is_none());
        *access.get_mut() = 3;
    }
    assert_eq!(set.flag_of(entity), Some(Flag::Modified));
    assert_eq!(set.get(entity), Some(&3));
    {
        let mut view = ViewMut(&mut set);
        // The second access in the epoch has nothing left to flag.
        let mut access = (&mut view).get(entity).unwrap();
        assert!(access.flag.is_none());
        *access.get_mut() = 4;
    }
    assert_eq!(set.flag_of(entity), Some(Flag::Modified));
    set.clear_flags();
    assert_eq!(set.flag_of(entity), Some(Flag::Clean));
}

#[test]
fn fast_get_never_flags() {
    let mut set: SparseSet<u32> = SparseSet::new();
    set.track_modification();
    let entity = Key::new(2);
    set.insert(entity, 1);
    set.clear_flags();
    {
        let mut view = ViewMut(&mut set);
        *(&mut view).fast_get(entity).unwrap() = 8;
        *(&mut view).fast_get(entity).unwrap() = 9;
    }
    assert_eq!(set.get(entity), Some(&9));
    assert_eq!(set.flag_of(entity), Some(Flag::Clean));
}

#[test]
fn an_inserted_slot_is_not_flagged_as_modified() {
    let mut set: SparseSet<u32> = SparseSet::new();
    set.track_modification();
    let entity = Key::new(0);
    set.insert(entity, 1);
    {
        let mut view = ViewMut(&mut set);
        let mut access = (&mut view).get(entity).unwrap();
        assert!(access.flag.is_none());
        *access.get_mut() = 2;
    }
    assert_eq!(set.flag_of(entity), Some(Flag::Inserted));
}

#[test]
fn an_untracked_storage_hands_out_no_flag() {
    let mut set: SparseSet<u32> = SparseSet::new();
    let entity = Key::new(0);
    set.insert(entity, 1);
    let mut access = set.get_tracked(entity).unwrap();
    assert!(access.flag.is_none());
    *access.get_mut() = 2;
    assert_eq!(set.flag_of(entity), Some(Flag::Clean));
    assert!(set.get_tracked(Key::new(1)).is_none());
}

#[test]
fn a_storage_keeps_its_name() {
    let mut set: SparseSet<u32> = SparseSet::named("speed");
    let unnamed: SparseSet<u32> = SparseSet::new();
    assert_eq!(unnamed.name(), "");
    set.track_modification();
    set.insert(Key::new(1), 1);
    set.insert(Key::new(2), 2);
    set.remove(Key::new(1));
    set.clear_flags();
    assert_eq!(set.name(), "speed");
    assert_eq!(
        set.missing(Key::new(1)),
        MissingComponent { id: Key::new(1), type_id: TypeId::of::<u32>(), name: "speed" }
    );
    let mut view = ViewMut(&mut set);
    assert_eq!((&mut view).fast_get(Key::new(1)).unwrap_err().name, "speed");
    assert_eq!((&mut view).get(Key::new(1)).err().map(|e| e.name), Some("speed"));
}
