use core::hash::Hasher;
use shipyard::type_id::hasher::TypeIdHasher;
use shipyard::TypeId;

#[test]
fn the_same_type_gives_the_same_identifier() {
    assert_eq!(TypeId::of::<u32>(), TypeId::of::<u32>());
    assert_eq!(TypeId::of::<str>(), TypeId::of_val("text"));
    assert_eq!(TypeId::of::<Vec<u8>>(), TypeId::of_val(&Vec::<u8>::new()));
    assert_eq!(TypeId::from(core::any::TypeId::of::<u32>()), TypeId::of::<u32>());
    assert_eq!(TypeId::from(&core::any::TypeId::of::<u32>()), TypeId::of::<u32>());
}

#[test]
fn different_types_give_different_identifiers() {
    let ids = [
        TypeId::of::<u8>(),
        TypeId::of::<u16>(),
        TypeId::of::<u32>(),
        TypeId::of::<u64>(),
        TypeId::of::<usize>(),
        TypeId::of::<i8>(),
        TypeId::of::<String>(),
        TypeId::of::<str>(),
        TypeId::of::<Vec<u8>>(),
        TypeId::of::<(u8, u8)>(),
    ];
    for (i, a) in ids.iter().enumerate() {
        for (j, b) in ids.iter().enumerate() {
            assert_eq!(a == b, i == j);
            assert_eq!(a.cmp(b) == core::cmp::Ordering::Equal, i == j);
        }
    }
}

#[test]
fn identifiers_compare_with_native_ones() {
    let native = core::any::TypeId::of::<u32>();
    assert!(TypeId::of::<u32>() == native);
    assert!(native == TypeId::of::<u32>());
    assert!(TypeId::of::<u64>() != native);
    assert!(native != TypeId::of::<u64>());
    assert!(TypeId::of::<u32>().is(&native));
    assert!(!TypeId::of::<u8>().is(&native));
}

#[test]
fn an_identifier_is_the_low_half_of_the_hash() {
    assert_eq!(TypeId::from_hash(0).bits(), 0);
    assert_eq!(TypeId::from_hash(0x1234_5678_9ABC_DEF0).bits(), 0x9ABC_DEF0);
    assert_eq!(TypeId::from_hash(0xFFFF_FFFF_0000_0001).bits(), 1);
    assert_eq!(TypeId::from_hash(u64::MAX).bits(), u32::MAX);
    assert_eq!(TypeId::from_bits(77).bits(), 77);
    assert_eq!(TypeId::from_bits(77), TypeId::from_hash(77 + (1 << 32)));
}

#[test]
fn identifiers_are_ordered_by_their_bits() {
    assert!(TypeId::from_bits(1) < TypeId::from_bits(2));
    assert!(TypeId::from_bits(2) > TypeId::from_bits(1));
    assert!(TypeId::from_bits(3) <= TypeId::from_bits(3));
}

#[test]
fn the_hasher_keeps_the_last_word() {
    let mut hasher = TypeIdHasher::new();
    assert_eq!(hasher.digest(), 0);
    hasher.put_word(0xDEAD_BEEF);
    assert_eq!(hasher.digest(), 0xDEAD_BEEF);
    hasher.put_bytes(&[0x01, 0x02, 0x03]);
    assert_eq!(hasher.digest(), 0x03_02_01);
    hasher.put_bytes(&[]);
    assert_eq!(hasher.digest(), 0);
    hasher.put_bytes(&[1, 2, 3, 4, 5, 6, 7, 8, 9]);
    assert_eq!(hasher.digest(), 0x08_07_06_05_04_03_02_01);
    hasher.write_u64(42);
    assert_eq!(hasher.finish(), 42);
    hasher.write(&7u64.to_le_bytes());
    assert_eq!(hasher.finish(), 7);
}

#[test]
fn an_identifier_is_told_from_a_hash_by_its_low_half() {
    let id = TypeId::from_bits(0x9ABC_DEF0);
    assert!(id.is_hash(0x9ABC_DEF0));
    assert!(id.is_hash(0x1234_5678_9ABC_DEF0));
    assert!(!id.is_hash(0x9ABC_DEF0_1234_5678));
    assert!(!id.is_hash(0x9ABC_DEF1));
    assert!(TypeId::from_bits(0).is_hash(1 << 32));
    assert!(!TypeId::from_bits(0).is_hash(1));
}
