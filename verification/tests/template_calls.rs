use pallets::system::{DispatchError, RawOrigin};
use pallets::template::{Error, Event, Pallet};

#[test]
fn do_something_stores_the_number_and_records_the_signer() {
    let mut p = Pallet::new();
    assert_eq!(p.do_something(RawOrigin::Signed(1), 42), Ok(()));
    assert_eq!(p.something(), Some(42));
    assert_eq!(p.events, vec![Event::SomethingStored(42, 1)]);
}

#[test]
fn do_something_needs_a_signed_origin() {
    let mut p = Pallet::new();
    assert_eq!(p.do_something(RawOrigin::Root, 42), Err(DispatchError::BadOrigin));
    assert_eq!(p.do_something(RawOrigin::Unsigned, 42), Err(DispatchError::BadOrigin));
    assert_eq!(p.something(), None);
    assert!(p.events.is_empty());
}

#[test]
fn cause_error_without_a_stored_number_fails() {
    let mut p = Pallet::new();
    assert_eq!(p.cause_error(RawOrigin::Signed(1)), Err(DispatchError::Template(Error::NoneValue)));
    assert_eq!(p.something(), None);
}

#[test]
fn cause_error_increments_the_stored_number() {
    let mut p = Pallet::new();
    p.do_something(RawOrigin::Signed(1), 7).unwrap();
    assert_eq!(p.cause_error(RawOrigin::Signed(2)), Ok(()));
    assert_eq!(p.something(), Some(8));
    assert_eq!(p.events.len(), 1);
}

#[test]
fn cause_error_at_the_largest_number_overflows() {
    let mut p = Pallet::new();
    p.do_something(RawOrigin::Signed(1), u32::MAX).unwrap();
    assert_eq!(
        p.cause_error(RawOrigin::Signed(1)),
        Err(DispatchError::Template(Error::StorageOverflow))
    );
    assert_eq!(p.something(), Some(u32::MAX));
}

#[test]
fn cause_error_needs_a_signed_origin() {
    let mut p = Pallet::new();
    p.do_something(RawOrigin::Signed(1), 3).unwrap();
    assert_eq!(p.cause_error(RawOrigin::Root), Err(DispatchError::BadOrigin));
    assert_eq!(p.something(), Some(3));
}
