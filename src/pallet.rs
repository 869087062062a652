use crate::store::{AccountId, AlreadyExists, ClubStore, MembershipStore};
use vstd::prelude::*;

verus! {

/// Why an operation was rejected. A rejected operation changes nothing.
#[derive(Debug, Clone, Copy, PartialEq, Eq, Structural)]
pub enum Error {
    /// The club id is already taken.
    ClubAlreadyCreated,
    /// The account already belongs to the club.
    MemberAlreadyAdded,
    /// The account does not belong to the club.
    NoSuchMember,
    /// The caller does not own the club.
    NotClubOwner,
    /// No club has this id.
    NoSuchClub,
}

/// What a successful operation reports to observers.
#[derive(Debug, Clone, Copy, PartialEq, Eq, Structural)]
pub enum Event {
    /// A club was created: the club and its owner.
    ClubCreated(u64, AccountId),
    /// The owner added a member: the club and the member.
    MemberAdded(u64, AccountId),
    /// The owner removed a member: the club and the member.
    MemberRemoved(u64, AccountId),
}

/// The registry as a mathematical value: who owns each club, and who
/// authorised each membership `(member, club)`.
pub ghost struct RegistryState {
    pub clubs: Map<u64, AccountId>,
    pub members: Map<(AccountId, u64), AccountId>,
}

impl RegistryState {
    /// Every membership names a club that exists, and was authorised by
    /// that club's owner.
    pub open spec fn wf(self) -> bool {
        forall|k: (AccountId, u64)| #[trigger]
            self.members.contains_key(k) ==> self.clubs.contains_key(k.1) && self.members[k]
                == self.clubs[k.1]
    }

    /// The outcome of `caller` creating `club`.
    pub open spec fn create_club(self, caller: AccountId, club: u64) -> (RegistryState, Result<
        Event,
        Error,
    >) {
        if self.clubs.contains_key(club) {
            (self, Err(Error::ClubAlreadyCreated))
        } else {
            (
                RegistryState { clubs: self.clubs.insert(club, caller), ..self },
                Ok(Event::ClubCreated(club, caller)),
            )
        }
    }

    /// The outcome of `caller` adding `member` to `club`. The checks come in
    /// this order: the club exists, the member is new, the caller owns it.
    pub open spec fn add_member(self, caller: AccountId, member: AccountId, club: u64) -> (
        RegistryState,
        Result<Event, Error>,
    ) {
        if !self.clubs.contains_key(club) {
            (self, Err(Error::NoSuchClub))
        } else if self.members.contains_key((member, club)) {
            (self, Err(Error::MemberAlreadyAdded))
        } else if caller != self.clubs[club] {
            (self, Err(Error::NotClubOwner))
        } else {
            (
                RegistryState { members: self.members.insert((member, club), caller), ..self },
                Ok(Event::MemberAdded(club, member)),
            )
        }
    }

    /// The outcome of `caller` removing `member` from `club`. The checks come
    /// in this order: the club exists, the member belongs to it, the caller
    /// owns it.
    pub open spec fn remove_member(self, caller: AccountId, member: AccountId, club: u64) -> (
        RegistryState,
        Result<Event, Error>,
    ) {
        if !self.clubs.contains_key(club) {
            (self, Err(Error::NoSuchClub))
        } else if !self.members.contains_key((member, club)) {
            (self, Err(Error::NoSuchMember))
        } else if caller != self.clubs[club] {
            (self, Err(Error::NotClubOwner))
        } else {
            (
                RegistryState { members: self.members.remove((member, club)), ..self },
                Ok(Event::MemberRemoved(club, member)),
            )
        }
    }
}

/// The membership registry: the club store, the membership store, and the
/// three operations that alone change them.
pub struct Pallet {
    clubs: ClubStore,
    members: MembershipStore,
}

impl View for Pallet {
    type V = RegistryState;

    closed spec fn view(&self) -> RegistryState {
        RegistryState { clubs: self.clubs@, members: self.members@ }
    }
}

impl Pallet {
    /// A registry with no club and no membership.
    pub fn new() -> (p: Self)
        ensures
            p@.clubs == Map::<u64, AccountId>::empty(),
            p@.members == Map::<(AccountId, u64), AccountId>::empty(),
            p@.wf(),
    {
        Pallet { clubs: ClubStore::new(), members: MembershipStore::new() }
    }

    /// The owner of `club`; the registry's invariant guarantees there is one
    /// for every club that exists.
    fn owner_of_existing(&self, club: u64) -> (r: AccountId)
        requires
            self@.clubs.contains_key(club),
        ensures
            r == self@.clubs[club],
    {
        match self.clubs.owner_of(club) {
            Some(owner) => owner,
            None => vstd::pervasive::unreached(),
        }
    }

    /// The owner of `club`, if the club exists.
    pub fn club_owner(&self, club: u64) -> (r: Option<AccountId>)
        ensures
            r == (if self@.clubs.contains_key(club) {
                Some(self@.clubs[club])
            } else {
                None::<AccountId>
            }),
    {
        self.clubs.owner_of(club)
    }

    /// The account that authorised `member` in `club`, if it is a member.
    pub fn membership(&self, member: AccountId, club: u64) -> (r: Option<AccountId>)
        ensures
            r == (if self@.members.contains_key((member, club)) {
                Some(self@.members[(member, club)])
            } else {
                None::<AccountId>
            }),
    {
        self.members.get(member, club)
    }

    /// `caller` creates the club `club` and becomes its owner; fails with
    /// `ClubAlreadyCreated` if the id is taken.
    pub fn create_club(&mut self, caller: AccountId, club: u64) -> (r: Result<Event, Error>)
        requires
            old(self)@.wf(),
        ensures
            (final(self)@, r) == old(self)@.create_club(caller, club),
            final(self)@.wf(),
    {
        match self.clubs.insert(club, caller) {
            Ok(()) => {
                assert(forall|k: (AccountId, u64)| #[trigger]
                    old(self)@.members.contains_key(k) ==> k.1 != club);
                Ok(Event::ClubCreated(club, caller))
            },
            Err(AlreadyExists) => Err(Error::ClubAlreadyCreated),
        }
    }

    /// `caller` adds `member` to `club`. Fails with `NoSuchClub`, else
    /// `MemberAlreadyAdded`, else `NotClubOwner`, checked in that order.
    pub fn add_member(&mut self, caller: AccountId, member: AccountId, club: u64) -> (r: Result<
        Event,
        Error,
    >)
        requires
            old(self)@.wf(),
        ensures
            (final(self)@, r) == old(self)@.add_member(caller, member, club),
            final(self)@.wf(),
    {
        if !self.clubs.contains(club) {
            return Err(Error::NoSuchClub);
        }
        if self.members.contains(member, club) {
            return Err(Error::MemberAlreadyAdded);
        }
        let owner = self.owner_of_existing(club);
        if caller != owner {
            return Err(Error::NotClubOwner);
        }
        self.members.insert(member, club, caller);
        Ok(Event::MemberAdded(club, member))
    }

    /// `caller` removes `member` from `club`. Fails with `NoSuchClub`, else
    /// `NoSuchMember`, else `NotClubOwner`, checked in that order.
    pub fn remove_member(&mut self, caller: AccountId, member: AccountId, club: u64) -> (r: Result<
        Event,
        Error,
    >)
        requires
            old(self)@.wf(),
        ensures
            (final(self)@, r) == old(self)@.remove_member(caller, member, club),
            final(self)@.wf(),
    {
        if !self.clubs.contains(club) {
            return Err(Error::NoSuchClub);
        }
        if !self.members.contains(member, club) {
            return Err(Error::NoSuchMember);
        }
        let owner = self.owner_of_existing(club);
        if caller != owner {
            return Err(Error::NotClubOwner);
        }
        self.members.remove(member, club);
        Ok(Event::MemberRemoved(club, member))
    }
}

} // verus!
