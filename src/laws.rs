use crate::pallet::{Error, Event, RegistryState};
use crate::store::AccountId;
use vstd::prelude::*;

verus! {

/// Creating a fresh club succeeds; creating it again, by anyone, fails with
/// `ClubAlreadyCreated` and leaves the registry as the first call left it.
pub proof fn law_create_club_twice(
    s: RegistryState,
    caller: AccountId,
    again: AccountId,
    club: u64,
)
    requires
        !s.clubs.contains_key(club),
    ensures
        s.create_club(caller, club).1 == Ok::<Event, Error>(Event::ClubCreated(club, caller)),
        s.create_club(caller, club).0.create_club(again, club) == (
            s.create_club(caller, club).0,
            Err::<Event, Error>(Error::ClubAlreadyCreated),
        ),
{
}

/// Adding a member succeeds only on a club that exists and only for its
/// owner; the same call made again fails with `MemberAlreadyAdded` and
/// changes nothing.
pub proof fn law_add_member_once(s: RegistryState, caller: AccountId, member: AccountId, club: u64)
    ensures
        s.add_member(caller, member, club).1 is Ok ==> s.clubs.contains_key(club)
            && s.clubs[club] == caller,
        s.add_member(caller, member, club).1 is Ok ==> s.add_member(caller, member, club).0.add_member(
            caller,
            member,
            club,
        ) == (s.add_member(caller, member, club).0, Err::<Event, Error>(Error::MemberAlreadyAdded)),
{
}

/// A caller who does not own the club can neither add nor remove a member:
/// the call fails and changes nothing, whatever the membership state. Where
/// the membership check passes, the failure is `NotClubOwner`.
pub proof fn law_only_owner_changes_members(
    s: RegistryState,
    caller: AccountId,
    member: AccountId,
    club: u64,
)
    requires
        s.clubs.contains_key(club),
        caller != s.clubs[club],
    ensures
        s.add_member(caller, member, club).1 is Err,
        s.add_member(caller, member, club).0 == s,
        s.remove_member(caller, member, club).1 is Err,
        s.remove_member(caller, member, club).0 == s,
        !s.members.contains_key((member, club)) ==> s.add_member(caller, member, club).1 == Err::<
            Event,
            Error,
        >(Error::NotClubOwner),
        s.members.contains_key((member, club)) ==> s.remove_member(caller, member, club).1 == Err::<
            Event,
            Error,
        >(Error::NotClubOwner),
{
}

/// On a club that does not exist, adding or removing a member fails with
/// `NoSuchClub`, whoever calls.
pub proof fn law_missing_club_first(
    s: RegistryState,
    caller: AccountId,
    member: AccountId,
    club: u64,
)
    requires
        !s.clubs.contains_key(club),
    ensures
        s.add_member(caller, member, club) == (s, Err::<Event, Error>(Error::NoSuchClub)),
        s.remove_member(caller, member, club) == (s, Err::<Event, Error>(Error::NoSuchClub)),
{
}

/// Removing a member that the owner has just added restores the registry
/// as it was before the addition; removing it once more fails with
/// `NoSuchMember`.
pub proof fn law_add_then_remove(s: RegistryState, owner: AccountId, member: AccountId, club: u64)
    requires
        s.add_member(owner, member, club).1 is Ok,
    ensures
        s.add_member(owner, member, club).0.remove_member(owner, member, club) == (
            s,
            Ok::<Event, Error>(Event::MemberRemoved(club, member)),
        ),
        s.remove_member(owner, member, club) == (s, Err::<Event, Error>(Error::NoSuchMember)),
{
    let s1 = s.add_member(owner, member, club).0;
    assert(s1.remove_member(owner, member, club).0.members =~= s.members);
    assert(s1.remove_member(owner, member, club).0.clubs =~= s.clubs);
}

} // verus!
