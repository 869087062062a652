//! A registry of clubs and their members: each club has one owner, fixed when
//! it is created, and only that owner may add or remove the club's members.

mod laws;
mod pallet;
mod store;

pub use pallet::{Error, Event, Pallet, RegistryState};
pub use store::{AccountId, AlreadyExists, ClubStore, MembershipStore};
pub use laws::{
    law_add_member_once, law_add_then_remove, law_create_club_twice,
    law_missing_club_first, law_only_owner_changes_members,
};
