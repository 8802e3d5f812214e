use shipyard::borrow::conflict;
use shipyard::error::Borrow;
use shipyard::BorrowState;
use shipyard::Mutability;
use shipyard::TypeId;
use shipyard::TypeInfo;

#[test]
fn a_second_exclusive_borrow_fails() {
    let mut state = BorrowState::new();
    assert_eq!(state.try_borrow_mut(), Ok(()));
    assert!(state.is_writing());
    assert_eq!(state.try_borrow_mut(), Err(Borrow::Unique));
    assert!(state.is_writing());
    assert_eq!(state.readers(), 0);
}

#[test]
fn a_shared_borrow_beside_an_exclusive_one_fails() {
    let mut state = BorrowState::new();
    assert_eq!(state.try_borrow_mut(), Ok(()));
    assert_eq!(state.try_borrow(), Err(Borrow::Shared));
    assert_eq!(state.readers(), 0);
    assert!(state.release_mut());
    assert_eq!(state.try_borrow(), Ok(()));
}

#[test]
fn shared_borrows_stand_beside_each_other() {
    let mut state = BorrowState::new();
    assert_eq!(state.try_borrow(), Ok(()));
    assert_eq!(state.try_borrow(), Ok(()));
    assert_eq!(state.readers(), 2);
    assert_eq!(state.try_borrow_mut(), Err(Borrow::Unique));
    assert!(!state.is_writing());
    assert!(state.release());
    assert_eq!(state.try_borrow_mut(), Err(Borrow::Unique));
    assert!(state.release());
    assert!(!state.release());
    assert_eq!(state.try_borrow_mut(), Ok(()));
}

#[test]
fn releasing_what_is_not_out_changes_nothing() {
    let mut state = BorrowState::new();
    assert!(!state.release());
    assert!(!state.release_mut());
    assert_eq!(state.readers(), 0);
    assert!(!state.is_writing());
    assert_eq!(state.try_borrow(), Ok(()));
    assert!(!state.release_mut());
    assert_eq!(state.readers(), 1);
}

fn reads<T: 'static>() -> TypeInfo {
    TypeInfo { storage: TypeId::of::<T>(), mutability: Mutability::Shared }
}

fn writes<T: 'static>() -> TypeInfo {
    TypeInfo { storage: TypeId::of::<T>(), mutability: Mutability::Exclusive }
}

#[test]
fn units_conflict_on_a_storage_that_one_of_them_writes() {
    assert!(!conflict(&vec![reads::<u32>()], &vec![reads::<u32>()]));
    assert!(conflict(&vec![reads::<u32>()], &vec![writes::<u32>()]));
    assert!(conflict(&vec![writes::<u32>()], &vec![reads::<u32>()]));
    assert!(conflict(&vec![writes::<u32>()], &vec![writes::<u32>()]));
    assert!(!conflict(&vec![writes::<u32>()], &vec![writes::<u64>()]));
    assert!(!conflict(&vec![], &vec![writes::<u64>()]));
    assert!(!conflict(&vec![writes::<u64>()], &vec![]));
    assert!(!conflict(
        &vec![reads::<u8>(), writes::<u16>(), reads::<u32>()],
        &vec![reads::<u32>(), writes::<u64>(), reads::<u8>()]
    ));
    assert!(conflict(
        &vec![reads::<u8>(), writes::<u16>(), reads::<u32>()],
        &vec![reads::<u64>(), reads::<i8>(), reads::<u16>()]
    ));
    assert!(reads::<u8>().clashes(writes::<u8>()));
    assert!(!reads::<u8>().clashes(reads::<u8>()));
    assert!(!writes::<u8>().clashes(writes::<i8>()));
}
