use club_registry::{AlreadyExists, ClubStore, Error, Event, MembershipStore, Pallet};

#[test]
fn second_create_by_another_account_keeps_owner() {
    let mut p = Pallet::new();
    assert_eq!(p.create_club(7, 42), Ok(Event::ClubCreated(42, 7)));
    assert_eq!(p.create_club(8, 42), Err(Error::ClubAlreadyCreated));
    assert_eq!(p.club_owner(42), Some(7));
}

#[test]
fn events_carry_club_then_account() {
    let mut p = Pallet::new();
    assert_eq!(p.create_club(3, 10), Ok(Event::ClubCreated(10, 3)));
    assert_eq!(p.add_member(3, 5, 10), Ok(Event::MemberAdded(10, 5)));
    assert_eq!(p.remove_member(3, 5, 10), Ok(Event::MemberRemoved(10, 5)));
}

#[test]
fn missing_club_reported_before_ownership() {
    let mut p = Pallet::new();
    assert_eq!(p.add_member(9, 1, 3), Err(Error::NoSuchClub));
    assert_eq!(p.remove_member(9, 1, 3), Err(Error::NoSuchClub));
    assert!(p.create_club(1, 1).is_ok());
    assert_eq!(p.add_member(9, 1, 2), Err(Error::NoSuchClub));
    assert_eq!(p.membership(1, 2), None);
}

#[test]
fn non_owner_rejected_in_every_membership_state() {
    let mut p = Pallet::new();
    assert!(p.create_club(1, 1).is_ok());
    assert_eq!(p.add_member(2, 4, 1), Err(Error::NotClubOwner));
    assert_eq!(p.membership(4, 1), None);
    assert!(p.add_member(1, 4, 1).is_ok());
    assert_eq!(p.remove_member(2, 4, 1), Err(Error::NotClubOwner));
    assert_eq!(p.membership(4, 1), Some(1));
    // The membership check comes before the ownership check.
    assert_eq!(p.add_member(2, 4, 1), Err(Error::MemberAlreadyAdded));
    assert_eq!(p.remove_member(2, 5, 1), Err(Error::NoSuchMember));
}

#[test]
fn add_then_remove_restores_state() {
    let mut p = Pallet::new();
    assert!(p.create_club(1, 6).is_ok());
    assert!(p.add_member(1, 2, 6).is_ok());
    assert_eq!(p.membership(3, 6), None);
    assert!(p.add_member(1, 3, 6).is_ok());
    assert_eq!(p.membership(3, 6), Some(1));
    assert!(p.remove_member(1, 3, 6).is_ok());
    assert_eq!(p.membership(3, 6), None);
    assert_eq!(p.membership(2, 6), Some(1));
    assert_eq!(p.remove_member(1, 3, 6), Err(Error::NoSuchMember));
}

#[test]
fn memberships_are_per_club() {
    let mut p = Pallet::new();
    assert!(p.create_club(1, 1).is_ok());
    assert!(p.create_club(2, 2).is_ok());
    assert!(p.add_member(1, 9, 1).is_ok());
    assert_eq!(p.membership(9, 2), None);
    assert!(p.add_member(2, 9, 2).is_ok());
    assert_eq!(p.membership(9, 2), Some(2));
    assert!(p.remove_member(1, 9, 1).is_ok());
    assert_eq!(p.membership(9, 1), None);
    assert_eq!(p.membership(9, 2), Some(2));
}

#[test]
fn largest_ids_do_not_collide() {
    let mut p = Pallet::new();
    assert!(p.create_club(u64::MAX, u64::MAX).is_ok());
    assert!(p.create_club(0, 0).is_ok());
    assert!(p.add_member(u64::MAX, u64::MAX, u64::MAX).is_ok());
    assert!(p.add_member(0, 0, 0).is_ok());
    assert_eq!(p.membership(u64::MAX, 0), None);
    assert_eq!(p.membership(0, u64::MAX), None);
    assert_eq!(p.membership(u64::MAX, u64::MAX), Some(u64::MAX));
    assert_eq!(p.membership(0, 0), Some(0));
}

#[test]
fn club_store_insert_does_not_overwrite() {
    let mut s = ClubStore::new();
    assert!(!s.contains(5));
    assert_eq!(s.owner_of(5), None);
    assert_eq!(s.insert(5, 1), Ok(()));
    assert_eq!(s.insert(5, 2), Err(AlreadyExists));
    assert!(s.contains(5));
    assert_eq!(s.owner_of(5), Some(1));
}

#[test]
fn membership_store_insert_get_remove() {
    let mut s = MembershipStore::new();
    assert!(!s.contains(1, 2));
    s.insert(1, 2, 3);
    assert!(s.contains(1, 2));
    assert!(!s.contains(2, 1));
    assert_eq!(s.get(1, 2), Some(3));
    s.remove(1, 2);
    assert!(!s.contains(1, 2));
    assert_eq!(s.get(1, 2), None);
}
