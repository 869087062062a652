use std::collections::HashMap;
use vstd::prelude::*;

verus! {

broadcast use vstd::std_specs::hash::group_hash_axioms;

/// An account, as the host identifies it: compared for equality, never read.
pub type AccountId = u64;

/// The width of the club-id half of a membership key.
pub open spec fn club_id_span() -> int {
    0x1_0000_0000_0000_0000
}

/// The single key under which the membership `(member, club)` is filed.
pub open spec fn membership_key(member: AccountId, club: u64) -> int {
    member as int * club_id_span() + club as int
}

/// Two different pairs are filed under two different keys.
pub proof fn lemma_membership_key_injective(m1: AccountId, c1: u64, m2: AccountId, c2: u64)
    ensures
        membership_key(m1, c1) == membership_key(m2, c2) ==> m1 == m2 && c1 == c2,
{
}

fn pack_membership_key(member: AccountId, club: u64) -> (k: u128)
    ensures
        k as int == membership_key(member, club),
{
    (member as u128) * 0x1_0000_0000_0000_0000u128 + (club as u128)
}

/// The club id given to `ClubStore::insert` is already taken.
#[derive(Debug, Clone, Copy, PartialEq, Eq, Structural)]
pub struct AlreadyExists;

/// Maps each club to the account that owns it. Clubs are never removed.
pub struct ClubStore {
    owners: HashMap<u64, AccountId>,
}

impl View for ClubStore {
    type V = Map<u64, AccountId>;

    closed spec fn view(&self) -> Map<u64, AccountId> {
        self.owners@
    }
}

impl ClubStore {
    /// A store that holds no club.
    pub fn new() -> (s: Self)
        ensures
            s@ == Map::<u64, AccountId>::empty(),
    {
        ClubStore { owners: HashMap::new() }
    }

    /// Whether `club` has been created.
    pub fn contains(&self, club: u64) -> (r: bool)
        ensures
            r == self@.contains_key(club),
    {
        self.owners.contains_key(&club)
    }

    /// The owner of `club`, if the club exists.
    pub fn owner_of(&self, club: u64) -> (r: Option<AccountId>)
        ensures
            r == (if self@.contains_key(club) {
                Some(self@[club])
            } else {
                None::<AccountId>
            }),
    {
        match self.owners.get(&club) {
            Some(o) => Some(*o),
            None => None,
        }
    }

    /// Records `owner` as the owner of a new club `club`; a club that already
    /// exists keeps its owner and the call fails.
    pub fn insert(&mut self, club: u64, owner: AccountId) -> (r: Result<(), AlreadyExists>)
        ensures
            r is Err <==> old(self)@.contains_key(club),
            r is Err ==> final(self)@ == old(self)@,
            r is Ok ==> final(self)@ == old(self)@.insert(club, owner),
    {
        if self.owners.contains_key(&club) {
            Err(AlreadyExists)
        } else {
            self.owners.insert(club, owner);
            Ok(())
        }
    }
}

/// Maps each membership `(member, club)` to the account that authorised it.
pub struct MembershipStore {
    entries: HashMap<u128, AccountId>,
}

impl View for MembershipStore {
    type V = Map<(AccountId, u64), AccountId>;

    closed spec fn view(&self) -> Map<(AccountId, u64), AccountId> {
        Map::new(
            |k: (AccountId, u64)| self.entries@.contains_key(membership_key(k.0, k.1) as u128),
            |k: (AccountId, u64)| self.entries@[membership_key(k.0, k.1) as u128],
        )
    }
}

impl MembershipStore {
    /// A store that holds no membership.
    pub fn new() -> (s: Self)
        ensures
            s@ == Map::<(AccountId, u64), AccountId>::empty(),
    {
        let s = MembershipStore { entries: HashMap::new() };
        assert(s@ =~= Map::<(AccountId, u64), AccountId>::empty());
        s
    }

    /// Whether `member` belongs to `club`.
    pub fn contains(&self, member: AccountId, club: u64) -> (r: bool)
        ensures
            r == self@.contains_key((member, club)),
    {
        let k = pack_membership_key(member, club);
        self.entries.contains_key(&k)
    }

    /// The account that authorised the membership `(member, club)`, if any.
    pub fn get(&self, member: AccountId, club: u64) -> (r: Option<AccountId>)
        ensures
            r == (if self@.contains_key((member, club)) {
                Some(self@[(member, club)])
            } else {
                None::<AccountId>
            }),
    {
        let k = pack_membership_key(member, club);
        match self.entries.get(&k) {
            Some(a) => Some(*a),
            None => None,
        }
    }

    /// Records the membership `(member, club)`, authorised by `authorizer`.
    pub fn insert(&mut self, member: AccountId, club: u64, authorizer: AccountId)
        ensures
            final(self)@ == old(self)@.insert((member, club), authorizer),
    {
        let k = pack_membership_key(member, club);
        self.entries.insert(k, authorizer);
        assert forall|p: (AccountId, u64)| #![auto]
            membership_key(p.0, p.1) as u128 == k implies p == (member, club) by {
            lemma_membership_key_injective(p.0, p.1, member, club);
        }
        assert(final(self)@ =~= old(self)@.insert((member, club), authorizer));
    }

    /// Drops the membership `(member, club)`, if there is one.
    pub fn remove(&mut self, member: AccountId, club: u64)
        ensures
            final(self)@ == old(self)@.remove((member, club)),
    {
        let k = pack_membership_key(member, club);
        self.entries.remove(&k);
        assert forall|p: (AccountId, u64)| #![auto]
            membership_key(p.0, p.1) as u128 == k implies p == (member, club) by {
            lemma_membership_key_injective(p.0, p.1, member, club);
        }
        assert(final(self)@ =~= old(self)@.remove((member, club)));
    }
}

} // verus!
