use vstd::prelude::*;

use crate::keys::PublicKey;

verus! {

/// The most admin identities the protocol configuration may hold.
pub const MAX_ADMINS: usize = 5;

/// Global protocol configuration: the fixed, small admin list, written once
/// at initialization and never mutated afterwards.
#[derive(Debug)]
pub struct ProtocolState {
    pub admins: Vec<PublicKey>,
    pub is_paused: bool,
}

/// An admin account, confirmed by one of the identities pre-listed in the
/// protocol state.
#[derive(Debug)]
pub struct Admin {
    pub first_name: String,
    pub last_name: String,
    pub id_number: String,
    pub authority: PublicKey,
}

/// A registrar: an official who records titles and authorizes settlements.
/// Created inactive by an admin; becomes active only when the matching
/// authority confirms it, and never transitions again.
#[derive(Debug)]
pub struct Registrar {
    pub first_name: String,
    pub last_name: String,
    pub id_number: String,
    pub authority: PublicKey,
    pub added_by: PublicKey,
    pub is_active: bool,
}

/// An identity record for a land owner or buyer.
#[derive(Debug)]
pub struct User {
    pub first_name: String,
    pub last_name: String,
    pub id_number: String,
    pub phone_number: String,
    pub authority: PublicKey,
}

impl User {
    /// An exact copy, for the snapshots embedded in deeds, listings and
    /// agreements.
    pub fn duplicate(&self) -> (r: User)
        ensures
            r == *self,
    {
        let r = User {
            first_name: self.first_name.clone(),
            last_name: self.last_name.clone(),
            id_number: self.id_number.clone(),
            phone_number: self.phone_number.clone(),
            authority: self.authority,
        };
        r
    }
}

/// Marks an id number as claimed, so that no second user record can carry
/// it. Keyed by the id number itself.
#[derive(Debug)]
pub struct IdNumberClaim {
    pub id_number: String,
    pub person: PublicKey,
}

/// A land parcel. `authority` is the key currently empowered to authorize
/// transfers: normally the owner, but re-pointed to an escrow record while
/// a sale is in progress. `acreage` is held in hundredths of an acre.
#[derive(Debug)]
pub struct TitleDeed {
    pub owner: User,
    pub authority: PublicKey,
    pub title_number: String,
    pub location: String,
    pub acreage: u64,
    pub district_land_registry: String,
    pub registration_date: i64,
    pub registry_mapsheet_number: u64,
    pub is_for_sale: bool,
}

/// A sale listing: a snapshot of the deed reference, the seller and the
/// asked price. Keyed by seller authority and deed address.
#[derive(Debug)]
pub struct TitleForSale {
    pub title_deed: PublicKey,
    pub seller: User,
    pub sale_price: u64,
    pub listed_at: i64,
}

/// The search index entry for a title number, created lazily on the first
/// search. `searched_by` records the most recent searcher and is
/// overwritten by every later search.
#[derive(Debug)]
pub struct TitleNumberLookup {
    pub title_number: String,
    pub title_deed: PublicKey,
    pub searched_by: PublicKey,
}

/// A drafted sale agreement. It is unsigned until the named buyer sets
/// `buyer_confirmation`, and is consumed by escrow creation or removed by
/// cancellation.
#[derive(Debug)]
pub struct Agreement {
    pub seller: User,
    pub buyer: User,
    pub title_deed: PublicKey,
    pub price: u64,
    pub created_at: i64,
    pub drafted_by: PublicKey,
    pub buyer_confirmation: Option<PublicKey>,
    pub drafted_at: i64,
    pub buyer_confirmed_at: Option<i64>,
}

/// The uniqueness index enforcing one live agreement per title deed: keyed
/// by the deed address, pointing at the active agreement.
#[derive(Clone, Copy, PartialEq, Eq, Structural, Debug)]
pub struct AgreementIndex {
    pub title_deed: PublicKey,
    pub agreement: PublicKey,
}

/// The phases of a sale settlement. Custody of the title is taken first;
/// the matching payment follows; a registrar's authorization completes the
/// exchange. There is no transition out of the first two states other than
/// forward.
#[derive(Clone, Copy, PartialEq, Eq, Structural, Debug)]
pub enum EscrowState {
    TitleDeposited,
    PaymentDeposited,
    Completed,
}

/// An escrow: the neutral holder of title custody and payment while a sale
/// settles. Keyed by the agreement it settles.
#[derive(Clone, Copy, PartialEq, Eq, Structural, Debug)]
pub struct Escrow {
    pub agreement: PublicKey,
    pub title_deed: PublicKey,
    pub seller: PublicKey,
    pub buyer: PublicKey,
    pub state: EscrowState,
    pub created_at: i64,
    pub completed_at: Option<i64>,
    pub cancelled_at: Option<i64>,
}

/// The buyer's payment, held against an escrow until release. Keyed by the
/// escrow address.
#[derive(Clone, Copy, PartialEq, Eq, Structural, Debug)]
pub struct Deposit {
    pub escrow: PublicKey,
    pub amount: u64,
    pub deposited_by: PublicKey,
    pub deposited_at: i64,
}

} // verus!
