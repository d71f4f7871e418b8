use vstd::prelude::*;

use crate::keys::PublicKey;
use crate::records::{
    Admin, AgreementIndex, Deposit, Escrow, IdNumberClaim, Registrar, TitleDeed, TitleForSale,
    TitleNumberLookup, User,
};
use crate::records::Agreement;

verus! {

// ---------------------------------------------------------------------------
// Stored record shapes
//
// The substrate addresses every record deterministically from a logical key.
// Where other records refer to a record by its address, the stored shape
// carries that address explicitly; the remaining records are identified by
// key fields they already contain.
// ---------------------------------------------------------------------------

/// A user record together with its ledger address (the target of an id
/// number claim).
#[derive(Debug)]
pub struct UserRecord {
    pub address: PublicKey,
    pub user: User,
}

/// A title deed together with its ledger address and the owner key its
/// address was derived from at registration. The derivation key never
/// changes, even though the deed's `authority` does.
#[derive(Debug)]
pub struct TitleDeedRecord {
    pub address: PublicKey,
    pub created_for: PublicKey,
    pub deed: TitleDeed,
}

/// An agreement together with its ledger address (the target of the
/// agreement index and of escrows).
#[derive(Debug)]
pub struct AgreementRecord {
    pub address: PublicKey,
    pub agreement: Agreement,
}

/// An escrow together with its ledger address (the key that takes custody
/// of a deed's authority).
#[derive(Clone, Copy, PartialEq, Eq, Structural, Debug)]
pub struct EscrowRecord {
    pub address: PublicKey,
    pub escrow: Escrow,
}

/// A deposit record together with the funds it actually holds. The two
/// amounts coincide until settlement moves the funds to the seller.
#[derive(Clone, Copy, PartialEq, Eq, Structural, Debug)]
pub struct DepositRecord {
    pub deposit: Deposit,
    pub funds: u64,
}

/// The spendable funds a wallet key holds. A key without an entry holds
/// nothing.
#[derive(Clone, Copy, PartialEq, Eq, Structural, Debug)]
pub struct BalanceEntry {
    pub owner: PublicKey,
    pub amount: u64,
}

// ---------------------------------------------------------------------------
// Generic vector update
// ---------------------------------------------------------------------------

/// Replaces the element at `i`, leaving every other position unchanged.
pub fn replace_at<T>(v: &mut Vec<T>, i: usize, x: T)
    requires
        i < old(v)@.len(),
    ensures
        final(v)@ == old(v)@.update(i as int, x),
{
    v.remove(i);
    v.insert(i, x);
    proof {
        assert(v@ =~= old(v)@.update(i as int, x));
    }
}

// ---------------------------------------------------------------------------
// Admins (keyed by authority)
// ---------------------------------------------------------------------------

pub open spec fn has_admin(s: Seq<Admin>, k: PublicKey) -> bool {
    exists|i: int| 0 <= i < s.len() && s[i].authority == k
}

pub open spec fn admin_index(s: Seq<Admin>, k: PublicKey) -> int {
    choose|i: int| 0 <= i < s.len() && s[i].authority == k
}

pub open spec fn admin_at(s: Seq<Admin>, k: PublicKey) -> Admin {
    s[admin_index(s, k)]
}

pub open spec fn admins_unique(s: Seq<Admin>) -> bool {
    forall|i: int, j: int| 0 <= i < j < s.len() ==> s[i].authority != s[j].authority
}

pub proof fn lemma_admin_index(s: Seq<Admin>, k: PublicKey, i: int)
    requires
        admins_unique(s),
        0 <= i < s.len(),
        s[i].authority == k,
    ensures
        admin_index(s, k) == i,
{
    let j = admin_index(s, k);
    assert(0 <= j < s.len() && s[j].authority == k);
}

pub fn find_admin(v: &Vec<Admin>, k: PublicKey) -> (r: Option<usize>)
    ensures
        match r {
            Some(i) => i < v@.len() && v@[i as int].authority == k,
            None => !has_admin(v@, k),
        },
{
    let mut i: usize = 0;
    while i < v.len()
        invariant
            i <= v@.len(),
            forall|j: int| 0 <= j < i ==> v@[j].authority != k,
        decreases v@.len() - i,
    {
        if v[i].authority == k {
            return Some(i);
        }
        i = i + 1;
    }
    None
}

// ---------------------------------------------------------------------------
// Registrars (keyed by authority)
// ---------------------------------------------------------------------------

pub open spec fn has_registrar(s: Seq<Registrar>, k: PublicKey) -> bool {
    exists|i: int| 0 <= i < s.len() && s[i].authority == k
}

pub open spec fn registrar_index(s: Seq<Registrar>, k: PublicKey) -> int {
    choose|i: int| 0 <= i < s.len() && s[i].authority == k
}

pub open spec fn registrar_at(s: Seq<Registrar>, k: PublicKey) -> Registrar {
    s[registrar_index(s, k)]
}

pub open spec fn registrars_unique(s: Seq<Registrar>) -> bool {
    forall|i: int, j: int| 0 <= i < j < s.len() ==> s[i].authority != s[j].authority
}

pub proof fn lemma_registrar_index(s: Seq<Registrar>, k: PublicKey, i: int)
    requires
        registrars_unique(s),
        0 <= i < s.len(),
        s[i].authority == k,
    ensures
        registrar_index(s, k) == i,
{
    let j = registrar_index(s, k);
    assert(0 <= j < s.len() && s[j].authority == k);
}

pub fn find_registrar(v: &Vec<Registrar>, k: PublicKey) -> (r: Option<usize>)
    ensures
        match r {
            Some(i) => i < v@.len() && v@[i as int].authority == k,
            None => !has_registrar(v@, k),
        },
{
    let mut i: usize = 0;
    while i < v.len()
        invariant
            i <= v@.len(),
            forall|j: int| 0 <= j < i ==> v@[j].authority != k,
        decreases v@.len() - i,
    {
        if v[i].authority == k {
            return Some(i);
        }
        i = i + 1;
    }
    None
}

// ---------------------------------------------------------------------------
// Users (keyed by address; creation also checks the identity pair)
// ---------------------------------------------------------------------------

pub open spec fn has_user(s: Seq<UserRecord>, a: PublicKey) -> bool {
    exists|i: int| 0 <= i < s.len() && s[i].address == a
}

pub open spec fn user_index(s: Seq<UserRecord>, a: PublicKey) -> int {
    choose|i: int| 0 <= i < s.len() && s[i].address == a
}

pub open spec fn user_at(s: Seq<UserRecord>, a: PublicKey) -> UserRecord {
    s[user_index(s, a)]
}

pub open spec fn users_unique(s: Seq<UserRecord>) -> bool {
    forall|i: int, j: int| 0 <= i < j < s.len() ==> s[i].address != s[j].address
}

pub proof fn lemma_user_index(s: Seq<UserRecord>, a: PublicKey, i: int)
    requires
        users_unique(s),
        0 <= i < s.len(),
        s[i].address == a,
    ensures
        user_index(s, a) == i,
{
    let j = user_index(s, a);
    assert(0 <= j < s.len() && s[j].address == a);
}

pub fn find_user(v: &Vec<UserRecord>, a: PublicKey) -> (r: Option<usize>)
    ensures
        match r {
            Some(i) => i < v@.len() && v@[i as int].address == a,
            None => !has_user(v@, a),
        },
{
    let mut i: usize = 0;
    while i < v.len()
        invariant
            i <= v@.len(),
            forall|j: int| 0 <= j < i ==> v@[j].address != a,
        decreases v@.len() - i,
    {
        if v[i].address == a {
            return Some(i);
        }
        i = i + 1;
    }
    None
}

/// No two user records carry the same id number.
pub open spec fn user_ids_unique(s: Seq<UserRecord>) -> bool {
    forall|i: int, j: int|
        0 <= i < j < s.len() ==> s[i].user.id_number@ != s[j].user.id_number@
}

/// Every user record's id number is covered by a claim: the coupling that
/// makes id numbers globally unique, since claims are keyed by id number
/// and created together with the user record.
pub open spec fn user_ids_claimed(users: Seq<UserRecord>, claims: Seq<IdNumberClaim>) -> bool {
    forall|i: int| 0 <= i < users.len() ==> has_claim(claims, users[i].user.id_number@)
}

/// Whether some user record carries this id number under this authority:
/// the logical key a user record is created at.
pub open spec fn has_user_identity(s: Seq<UserRecord>, id: Seq<char>, k: PublicKey) -> bool {
    exists|i: int|
        0 <= i < s.len() && s[i].user.id_number@ == id && s[i].user.authority == k
}

pub fn find_user_identity(v: &Vec<UserRecord>, id: &String, k: PublicKey) -> (r: Option<usize>)
    ensures
        match r {
            Some(i) => i < v@.len() && v@[i as int].user.id_number@ == id@
                && v@[i as int].user.authority == k,
            None => !has_user_identity(v@, id@, k),
        },
{
    let mut i: usize = 0;
    while i < v.len()
        invariant
            i <= v@.len(),
            forall|j: int|
                0 <= j < i ==> !(v@[j].user.id_number@ == id@ && v@[j].user.authority == k),
        decreases v@.len() - i,
    {
        if v[i].user.id_number == *id && v[i].user.authority == k {
            return Some(i);
        }
        i = i + 1;
    }
    None
}

// ---------------------------------------------------------------------------
// Id number claims (keyed by id number)
// ---------------------------------------------------------------------------

pub open spec fn has_claim(s: Seq<IdNumberClaim>, id: Seq<char>) -> bool {
    exists|i: int| 0 <= i < s.len() && s[i].id_number@ == id
}

pub open spec fn claim_index(s: Seq<IdNumberClaim>, id: Seq<char>) -> int {
    choose|i: int| 0 <= i < s.len() && s[i].id_number@ == id
}

pub open spec fn claim_at(s: Seq<IdNumberClaim>, id: Seq<char>) -> IdNumberClaim {
    s[claim_index(s, id)]
}

pub open spec fn claims_unique(s: Seq<IdNumberClaim>) -> bool {
    forall|i: int, j: int| 0 <= i < j < s.len() ==> s[i].id_number@ != s[j].id_number@
}

pub fn find_claim(v: &Vec<IdNumberClaim>, id: &String) -> (r: Option<usize>)
    ensures
        match r {
            Some(i) => i < v@.len() && v@[i as int].id_number@ == id@,
            None => !has_claim(v@, id@),
        },
{
    let mut i: usize = 0;
    while i < v.len()
        invariant
            i <= v@.len(),
            forall|j: int| 0 <= j < i ==> v@[j].id_number@ != id@,
        decreases v@.len() - i,
    {
        if v[i].id_number == *id {
            return Some(i);
        }
        i = i + 1;
    }
    None
}

// ---------------------------------------------------------------------------
// Title deeds (keyed by address; created once per derivation key)
// ---------------------------------------------------------------------------

pub open spec fn has_deed(s: Seq<TitleDeedRecord>, a: PublicKey) -> bool {
    exists|i: int| 0 <= i < s.len() && s[i].address == a
}

pub open spec fn deed_index(s: Seq<TitleDeedRecord>, a: PublicKey) -> int {
    choose|i: int| 0 <= i < s.len() && s[i].address == a
}

pub open spec fn deed_at(s: Seq<TitleDeedRecord>, a: PublicKey) -> TitleDeedRecord {
    s[deed_index(s, a)]
}

pub open spec fn deeds_unique(s: Seq<TitleDeedRecord>) -> bool {
    forall|i: int, j: int|
        0 <= i < j < s.len() ==> s[i].address != s[j].address && s[i].created_for
            != s[j].created_for
}

pub proof fn lemma_deed_index(s: Seq<TitleDeedRecord>, a: PublicKey, i: int)
    requires
        deeds_unique(s),
        0 <= i < s.len(),
        s[i].address == a,
    ensures
        deed_index(s, a) == i,
{
    let j = deed_index(s, a);
    assert(0 <= j < s.len() && s[j].address == a);
}

pub fn find_deed(v: &Vec<TitleDeedRecord>, a: PublicKey) -> (r: Option<usize>)
    ensures
        match r {
            Some(i) => i < v@.len() && v@[i as int].address == a,
            None => !has_deed(v@, a),
        },
{
    let mut i: usize = 0;
    while i < v.len()
        invariant
            i <= v@.len(),
            forall|j: int| 0 <= j < i ==> v@[j].address != a,
        decreases v@.len() - i,
    {
        if v[i].address == a {
            return Some(i);
        }
        i = i + 1;
    }
    None
}

/// Whether a deed was already registered under this derivation key.
pub open spec fn has_deed_created_for(s: Seq<TitleDeedRecord>, k: PublicKey) -> bool {
    exists|i: int| 0 <= i < s.len() && s[i].created_for == k
}

pub fn find_deed_created_for(v: &Vec<TitleDeedRecord>, k: PublicKey) -> (r: Option<usize>)
    ensures
        match r {
            Some(i) => i < v@.len() && v@[i as int].created_for == k,
            None => !has_deed_created_for(v@, k),
        },
{
    let mut i: usize = 0;
    while i < v.len()
        invariant
            i <= v@.len(),
            forall|j: int| 0 <= j < i ==> v@[j].created_for != k,
        decreases v@.len() - i,
    {
        if v[i].created_for == k {
            return Some(i);
        }
        i = i + 1;
    }
    None
}

// ---------------------------------------------------------------------------
// Sale listings (keyed by seller authority and deed address)
// ---------------------------------------------------------------------------

pub open spec fn has_listing(s: Seq<TitleForSale>, seller: PublicKey, deed: PublicKey) -> bool {
    exists|i: int|
        0 <= i < s.len() && s[i].seller.authority == seller && s[i].title_deed == deed
}

pub open spec fn listing_index(s: Seq<TitleForSale>, seller: PublicKey, deed: PublicKey) -> int {
    choose|i: int|
        0 <= i < s.len() && s[i].seller.authority == seller && s[i].title_deed == deed
}

pub open spec fn listing_at(s: Seq<TitleForSale>, seller: PublicKey, deed: PublicKey) -> TitleForSale {
    s[listing_index(s, seller, deed)]
}

pub open spec fn listings_unique(s: Seq<TitleForSale>) -> bool {
    forall|i: int, j: int|
        0 <= i < j < s.len() ==> !(s[i].seller.authority == s[j].seller.authority
            && s[i].title_deed == s[j].title_deed)
}

pub proof fn lemma_listing_index(s: Seq<TitleForSale>, seller: PublicKey, deed: PublicKey, i: int)
    requires
        listings_unique(s),
        0 <= i < s.len(),
        s[i].seller.authority == seller,
        s[i].title_deed == deed,
    ensures
        listing_index(s, seller, deed) == i,
{
    let j = listing_index(s, seller, deed);
    assert(0 <= j < s.len() && s[j].seller.authority == seller && s[j].title_deed == deed);
}

pub fn find_listing(v: &Vec<TitleForSale>, seller: PublicKey, deed: PublicKey) -> (r: Option<
    usize,
>)
    ensures
        match r {
            Some(i) => i < v@.len() && v@[i as int].seller.authority == seller
                && v@[i as int].title_deed == deed,
            None => !has_listing(v@, seller, deed),
        },
{
    let mut i: usize = 0;
    while i < v.len()
        invariant
            i <= v@.len(),
            forall|j: int|
                0 <= j < i ==> !(v@[j].seller.authority == seller && v@[j].title_deed == deed),
        decreases v@.len() - i,
    {
        if v[i].seller.authority == seller && v[i].title_deed == deed {
            return Some(i);
        }
        i = i + 1;
    }
    None
}

// ---------------------------------------------------------------------------
// Title number lookups (keyed by title number)
// ---------------------------------------------------------------------------

pub open spec fn has_lookup(s: Seq<TitleNumberLookup>, n: Seq<char>) -> bool {
    exists|i: int| 0 <= i < s.len() && s[i].title_number@ == n
}

pub open spec fn lookup_index(s: Seq<TitleNumberLookup>, n: Seq<char>) -> int {
    choose|i: int| 0 <= i < s.len() && s[i].title_number@ == n
}

pub open spec fn lookup_at(s: Seq<TitleNumberLookup>, n: Seq<char>) -> TitleNumberLookup {
    s[lookup_index(s, n)]
}

pub open spec fn lookups_unique(s: Seq<TitleNumberLookup>) -> bool {
    forall|i: int, j: int| 0 <= i < j < s.len() ==> s[i].title_number@ != s[j].title_number@
}

pub proof fn lemma_lookup_index(s: Seq<TitleNumberLookup>, n: Seq<char>, i: int)
    requires
        lookups_unique(s),
        0 <= i < s.len(),
        s[i].title_number@ == n,
    ensures
        lookup_index(s, n) == i,
{
    let j = lookup_index(s, n);
    assert(0 <= j < s.len() && s[j].title_number@ == n);
}

pub fn find_lookup(v: &Vec<TitleNumberLookup>, n: &String) -> (r: Option<usize>)
    ensures
        match r {
            Some(i) => i < v@.len() && v@[i as int].title_number@ == n@,
            None => !has_lookup(v@, n@),
        },
{
    let mut i: usize = 0;
    while i < v.len()
        invariant
            i <= v@.len(),
            forall|j: int| 0 <= j < i ==> v@[j].title_number@ != n@,
        decreases v@.len() - i,
    {
        if v[i].title_number == *n {
            return Some(i);
        }
        i = i + 1;
    }
    None
}

// ---------------------------------------------------------------------------
// Agreements (keyed by address; created once per party/deed/price key)
// ---------------------------------------------------------------------------

pub open spec fn has_agreement(s: Seq<AgreementRecord>, a: PublicKey) -> bool {
    exists|i: int| 0 <= i < s.len() && s[i].address == a
}

pub open spec fn agreement_index(s: Seq<AgreementRecord>, a: PublicKey) -> int {
    choose|i: int| 0 <= i < s.len() && s[i].address == a
}

pub open spec fn agreement_at(s: Seq<AgreementRecord>, a: PublicKey) -> AgreementRecord {
    s[agreement_index(s, a)]
}

pub open spec fn agreements_unique(s: Seq<AgreementRecord>) -> bool {
    forall|i: int, j: int| 0 <= i < j < s.len() ==> s[i].address != s[j].address
}

pub proof fn lemma_agreement_index(s: Seq<AgreementRecord>, a: PublicKey, i: int)
    requires
        agreements_unique(s),
        0 <= i < s.len(),
        s[i].address == a,
    ensures
        agreement_index(s, a) == i,
{
    let j = agreement_index(s, a);
    assert(0 <= j < s.len() && s[j].address == a);
}

pub fn find_agreement(v: &Vec<AgreementRecord>, a: PublicKey) -> (r: Option<usize>)
    ensures
        match r {
            Some(i) => i < v@.len() && v@[i as int].address == a,
            None => !has_agreement(v@, a),
        },
{
    let mut i: usize = 0;
    while i < v.len()
        invariant
            i <= v@.len(),
            forall|j: int| 0 <= j < i ==> v@[j].address != a,
        decreases v@.len() - i,
    {
        if v[i].address == a {
            return Some(i);
        }
        i = i + 1;
    }
    None
}

/// Whether an agreement was already drafted at this logical creation key:
/// seller authority, buyer authority, deed address and price.
pub open spec fn has_agreement_by_parties(
    s: Seq<AgreementRecord>,
    seller: PublicKey,
    buyer: PublicKey,
    deed: PublicKey,
    price: u64,
) -> bool {
    exists|i: int|
        0 <= i < s.len() && s[i].agreement.seller.authority == seller
            && s[i].agreement.buyer.authority == buyer && s[i].agreement.title_deed == deed
            && s[i].agreement.price == price
}

pub fn find_agreement_by_parties(
    v: &Vec<AgreementRecord>,
    seller: PublicKey,
    buyer: PublicKey,
    deed: PublicKey,
    price: u64,
) -> (r: Option<usize>)
    ensures
        match r {
            Some(i) => i < v@.len() && v@[i as int].agreement.seller.authority == seller
                && v@[i as int].agreement.buyer.authority == buyer
                && v@[i as int].agreement.title_deed == deed
                && v@[i as int].agreement.price == price,
            None => !has_agreement_by_parties(v@, seller, buyer, deed, price),
        },
{
    let mut i: usize = 0;
    while i < v.len()
        invariant
            i <= v@.len(),
            forall|j: int|
                0 <= j < i ==> !(v@[j].agreement.seller.authority == seller
                    && v@[j].agreement.buyer.authority == buyer && v@[j].agreement.title_deed
                    == deed && v@[j].agreement.price == price),
        decreases v@.len() - i,
    {
        if v[i].agreement.seller.authority == seller && v[i].agreement.buyer.authority == buyer
            && v[i].agreement.title_deed == deed && v[i].agreement.price == price {
            return Some(i);
        }
        i = i + 1;
    }
    None
}

// ---------------------------------------------------------------------------
// Agreement indices (keyed by deed address)
// ---------------------------------------------------------------------------

pub open spec fn has_index_entry(s: Seq<AgreementIndex>, deed: PublicKey) -> bool {
    exists|i: int| 0 <= i < s.len() && s[i].title_deed == deed
}

pub open spec fn index_entry_index(s: Seq<AgreementIndex>, deed: PublicKey) -> int {
    choose|i: int| 0 <= i < s.len() && s[i].title_deed == deed
}

pub open spec fn index_entry_at(s: Seq<AgreementIndex>, deed: PublicKey) -> AgreementIndex {
    s[index_entry_index(s, deed)]
}

pub open spec fn index_entries_unique(s: Seq<AgreementIndex>) -> bool {
    forall|i: int, j: int| 0 <= i < j < s.len() ==> s[i].title_deed != s[j].title_deed
}

pub proof fn lemma_index_entry_index(s: Seq<AgreementIndex>, deed: PublicKey, i: int)
    requires
        index_entries_unique(s),
        0 <= i < s.len(),
        s[i].title_deed == deed,
    ensures
        index_entry_index(s, deed) == i,
{
    let j = index_entry_index(s, deed);
    assert(0 <= j < s.len() && s[j].title_deed == deed);
}

pub fn find_index_entry(v: &Vec<AgreementIndex>, deed: PublicKey) -> (r: Option<usize>)
    ensures
        match r {
            Some(i) => i < v@.len() && v@[i as int].title_deed == deed,
            None => !has_index_entry(v@, deed),
        },
{
    let mut i: usize = 0;
    while i < v.len()
        invariant
            i <= v@.len(),
            forall|j: int| 0 <= j < i ==> v@[j].title_deed != deed,
        decreases v@.len() - i,
    {
        if v[i].title_deed == deed {
            return Some(i);
        }
        i = i + 1;
    }
    None
}

// ---------------------------------------------------------------------------
// Escrows (keyed by address; created once per agreement)
// ---------------------------------------------------------------------------

pub open spec fn has_escrow(s: Seq<EscrowRecord>, a: PublicKey) -> bool {
    exists|i: int| 0 <= i < s.len() && s[i].address == a
}

pub open spec fn escrow_index(s: Seq<EscrowRecord>, a: PublicKey) -> int {
    choose|i: int| 0 <= i < s.len() && s[i].address == a
}

pub open spec fn escrow_at(s: Seq<EscrowRecord>, a: PublicKey) -> EscrowRecord {
    s[escrow_index(s, a)]
}

pub open spec fn escrows_unique(s: Seq<EscrowRecord>) -> bool {
    forall|i: int, j: int|
        0 <= i < j < s.len() ==> s[i].address != s[j].address && s[i].escrow.agreement
            != s[j].escrow.agreement
}

pub proof fn lemma_escrow_index(s: Seq<EscrowRecord>, a: PublicKey, i: int)
    requires
        escrows_unique(s),
        0 <= i < s.len(),
        s[i].address == a,
    ensures
        escrow_index(s, a) == i,
{
    let j = escrow_index(s, a);
    assert(0 <= j < s.len() && s[j].address == a);
}

pub fn find_escrow(v: &Vec<EscrowRecord>, a: PublicKey) -> (r: Option<usize>)
    ensures
        match r {
            Some(i) => i < v@.len() && v@[i as int].address == a,
            None => !has_escrow(v@, a),
        },
{
    let mut i: usize = 0;
    while i < v.len()
        invariant
            i <= v@.len(),
            forall|j: int| 0 <= j < i ==> v@[j].address != a,
        decreases v@.len() - i,
    {
        if v[i].address == a {
            return Some(i);
        }
        i = i + 1;
    }
    None
}

/// Whether an escrow was already created for this agreement.
pub open spec fn has_escrow_for_agreement(s: Seq<EscrowRecord>, agreement: PublicKey) -> bool {
    exists|i: int| 0 <= i < s.len() && s[i].escrow.agreement == agreement
}

pub fn find_escrow_for_agreement(v: &Vec<EscrowRecord>, agreement: PublicKey) -> (r: Option<
    usize,
>)
    ensures
        match r {
            Some(i) => i < v@.len() && v@[i as int].escrow.agreement == agreement,
            None => !has_escrow_for_agreement(v@, agreement),
        },
{
    let mut i: usize = 0;
    while i < v.len()
        invariant
            i <= v@.len(),
            forall|j: int| 0 <= j < i ==> v@[j].escrow.agreement != agreement,
        decreases v@.len() - i,
    {
        if v[i].escrow.agreement == agreement {
            return Some(i);
        }
        i = i + 1;
    }
    None
}

// ---------------------------------------------------------------------------
// Deposits (keyed by escrow address)
// ---------------------------------------------------------------------------

pub open spec fn has_deposit(s: Seq<DepositRecord>, escrow: PublicKey) -> bool {
    exists|i: int| 0 <= i < s.len() && s[i].deposit.escrow == escrow
}

pub open spec fn deposit_index(s: Seq<DepositRecord>, escrow: PublicKey) -> int {
    choose|i: int| 0 <= i < s.len() && s[i].deposit.escrow == escrow
}

pub open spec fn deposit_at(s: Seq<DepositRecord>, escrow: PublicKey) -> DepositRecord {
    s[deposit_index(s, escrow)]
}

pub open spec fn deposits_unique(s: Seq<DepositRecord>) -> bool {
    forall|i: int, j: int| 0 <= i < j < s.len() ==> s[i].deposit.escrow != s[j].deposit.escrow
}

pub proof fn lemma_deposit_index(s: Seq<DepositRecord>, escrow: PublicKey, i: int)
    requires
        deposits_unique(s),
        0 <= i < s.len(),
        s[i].deposit.escrow == escrow,
    ensures
        deposit_index(s, escrow) == i,
{
    let j = deposit_index(s, escrow);
    assert(0 <= j < s.len() && s[j].deposit.escrow == escrow);
}

pub fn find_deposit(v: &Vec<DepositRecord>, escrow: PublicKey) -> (r: Option<usize>)
    ensures
        match r {
            Some(i) => i < v@.len() && v@[i as int].deposit.escrow == escrow,
            None => !has_deposit(v@, escrow),
        },
{
    let mut i: usize = 0;
    while i < v.len()
        invariant
            i <= v@.len(),
            forall|j: int| 0 <= j < i ==> v@[j].deposit.escrow != escrow,
        decreases v@.len() - i,
    {
        if v[i].deposit.escrow == escrow {
            return Some(i);
        }
        i = i + 1;
    }
    None
}

// ---------------------------------------------------------------------------
// Wallet balances (keyed by owner)
// ---------------------------------------------------------------------------

pub open spec fn has_balance_entry(s: Seq<BalanceEntry>, k: PublicKey) -> bool {
    exists|i: int| 0 <= i < s.len() && s[i].owner == k
}

pub open spec fn balance_entry_index(s: Seq<BalanceEntry>, k: PublicKey) -> int {
    choose|i: int| 0 <= i < s.len() && s[i].owner == k
}

pub open spec fn balance_entries_unique(s: Seq<BalanceEntry>) -> bool {
    forall|i: int, j: int| 0 <= i < j < s.len() ==> s[i].owner != s[j].owner
}

/// The funds a wallet key holds: zero when it has no entry.
pub open spec fn balance_of(s: Seq<BalanceEntry>, k: PublicKey) -> u64 {
    if has_balance_entry(s, k) {
        s[balance_entry_index(s, k)].amount
    } else {
        0
    }
}

pub proof fn lemma_balance_entry_index(s: Seq<BalanceEntry>, k: PublicKey, i: int)
    requires
        balance_entries_unique(s),
        0 <= i < s.len(),
        s[i].owner == k,
    ensures
        balance_entry_index(s, k) == i,
        balance_of(s, k) == s[i].amount,
{
    let j = balance_entry_index(s, k);
    assert(0 <= j < s.len() && s[j].owner == k);
}

pub fn find_balance_entry(v: &Vec<BalanceEntry>, k: PublicKey) -> (r: Option<usize>)
    ensures
        match r {
            Some(i) => i < v@.len() && v@[i as int].owner == k,
            None => !has_balance_entry(v@, k),
        },
{
    let mut i: usize = 0;
    while i < v.len()
        invariant
            i <= v@.len(),
            forall|j: int| 0 <= j < i ==> v@[j].owner != k,
        decreases v@.len() - i,
    {
        if v[i].owner == k {
            return Some(i);
        }
        i = i + 1;
    }
    None
}

/// Membership in the fixed admin key list.
pub fn key_list_contains(v: &Vec<PublicKey>, k: PublicKey) -> (b: bool)
    ensures
        b == v@.contains(k),
{
    let mut i: usize = 0;
    while i < v.len()
        invariant
            i <= v@.len(),
            forall|j: int| 0 <= j < i ==> v@[j] != k,
        decreases v@.len() - i,
    {
        if v[i] == k {
            return true;
        }
        i = i + 1;
    }
    false
}

} // verus!
