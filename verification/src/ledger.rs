use vstd::prelude::*;

use crate::errors::ProtocolError;
use crate::keys::PublicKey;
use crate::records::{
    Admin, AgreementIndex, IdNumberClaim, ProtocolState, Registrar, TitleForSale,
    TitleNumberLookup,
};
use crate::store::{
    AgreementRecord, BalanceEntry, DepositRecord, EscrowRecord, TitleDeedRecord, UserRecord,
    admins_unique, agreements_unique, balance_entries_unique, balance_entry_index, balance_of,
    claims_unique, deeds_unique, deposits_unique, escrows_unique, find_balance_entry,
    has_balance_entry, index_entries_unique, lemma_balance_entry_index, listings_unique,
    lookups_unique, registrars_unique, replace_at, user_ids_claimed, user_ids_unique,
    users_unique,
};

verus! {

/// The credited form of a balance table: the wallet's entry raised by
/// `amount`, or a fresh entry when the wallet had none.
pub open spec fn credited(s: Seq<BalanceEntry>, k: PublicKey, amount: u64) -> Seq<BalanceEntry>
    recommends
        balance_of(s, k) + amount <= u64::MAX,
{
    if has_balance_entry(s, k) {
        s.update(
            balance_entry_index(s, k),
            BalanceEntry { owner: k, amount: (balance_of(s, k) + amount) as u64 },
        )
    } else {
        s.push(BalanceEntry { owner: k, amount })
    }
}

/// The debited form of a balance table: the wallet's entry lowered by
/// `amount`. A wallet without an entry can only be debited by nothing,
/// which leaves the table unchanged.
pub open spec fn debited(s: Seq<BalanceEntry>, k: PublicKey, amount: u64) -> Seq<BalanceEntry>
    recommends
        amount <= balance_of(s, k),
{
    if has_balance_entry(s, k) {
        s.update(
            balance_entry_index(s, k),
            BalanceEntry { owner: k, amount: (balance_of(s, k) - amount) as u64 },
        )
    } else {
        s
    }
}

pub proof fn lemma_credited_unique(s: Seq<BalanceEntry>, k: PublicKey, amount: u64)
    requires
        balance_entries_unique(s),
    ensures
        balance_entries_unique(credited(s, k, amount)),
        balance_of(s, k) + amount <= u64::MAX ==> balance_of(credited(s, k, amount), k)
            == balance_of(s, k) + amount,
{
    if has_balance_entry(s, k) {
        let i = balance_entry_index(s, k);
        assert(0 <= i < s.len() && s[i].owner == k);
        let t = credited(s, k, amount);
        assert(balance_entries_unique(t));
        lemma_balance_entry_index(t, k, i);
    } else {
        let t = credited(s, k, amount);
        assert(forall|i: int, j: int|
            0 <= i < j < t.len() ==> t[i].owner != t[j].owner) by {
            assert(forall|i: int| 0 <= i < s.len() ==> s[i].owner != k);
        }
        lemma_balance_entry_index(t, k, s.len() as int);
    }
}

pub proof fn lemma_debited_unique(s: Seq<BalanceEntry>, k: PublicKey, amount: u64)
    requires
        balance_entries_unique(s),
        amount <= balance_of(s, k),
    ensures
        balance_entries_unique(debited(s, k, amount)),
        balance_of(debited(s, k, amount), k) == balance_of(s, k) - amount,
{
    if has_balance_entry(s, k) {
        let i = balance_entry_index(s, k);
        assert(0 <= i < s.len() && s[i].owner == k);
        let t = debited(s, k, amount);
        assert(balance_entries_unique(t));
        lemma_balance_entry_index(t, k, i);
    }
}

/// Raises a wallet's entry by `amount`, creating the entry if absent.
pub(crate) fn credit_entry(v: &mut Vec<BalanceEntry>, owner: PublicKey, amount: u64)
    requires
        balance_entries_unique(old(v)@),
        balance_of(old(v)@, owner) + amount <= u64::MAX,
    ensures
        final(v)@ == credited(old(v)@, owner, amount),
{
    match find_balance_entry(v, owner) {
        Some(i) => {
            proof {
                lemma_balance_entry_index(v@, owner, i as int);
            }
            let entry = BalanceEntry { owner, amount: v[i].amount + amount };
            replace_at(v, i, entry);
        },
        None => {
            v.push(BalanceEntry { owner, amount });
        },
    }
}

/// Lowers a wallet's entry by `amount`.
pub(crate) fn debit_entry(v: &mut Vec<BalanceEntry>, owner: PublicKey, amount: u64)
    requires
        balance_entries_unique(old(v)@),
        amount <= balance_of(old(v)@, owner),
    ensures
        final(v)@ == debited(old(v)@, owner, amount),
{
    match find_balance_entry(v, owner) {
        Some(i) => {
            proof {
                lemma_balance_entry_index(v@, owner, i as int);
            }
            let entry = BalanceEntry { owner, amount: v[i].amount - amount };
            replace_at(v, i, entry);
        },
        None => {},
    }
}

/// The whole registry: every record class the protocol persists, each with
/// its uniqueness key, plus the counter from which fresh record addresses
/// are taken.
pub struct Ledger {
    /// The singleton configuration record; absent until initialization.
    pub protocol: Option<ProtocolState>,
    pub admins: Vec<Admin>,
    pub registrars: Vec<Registrar>,
    pub users: Vec<UserRecord>,
    pub id_claims: Vec<IdNumberClaim>,
    pub title_deeds: Vec<TitleDeedRecord>,
    pub listings: Vec<TitleForSale>,
    pub lookups: Vec<TitleNumberLookup>,
    pub agreements: Vec<AgreementRecord>,
    pub agreement_indices: Vec<AgreementIndex>,
    pub escrows: Vec<EscrowRecord>,
    pub deposits: Vec<DepositRecord>,
    pub balances: Vec<BalanceEntry>,
    /// The next derived record address; strictly above every address
    /// already handed out, so fresh records can never collide.
    pub next_address: u64,
}

impl Ledger {
    /// Well-formedness: every store keeps its logical key unique — the
    /// substrate's first-writer-wins rule — and every assigned address lies
    /// below the allocation counter.
    pub open spec fn wf(self) -> bool {
        &&& admins_unique(self.admins@)
        &&& registrars_unique(self.registrars@)
        &&& users_unique(self.users@)
        &&& user_ids_unique(self.users@)
        &&& user_ids_claimed(self.users@, self.id_claims@)
        &&& claims_unique(self.id_claims@)
        &&& deeds_unique(self.title_deeds@)
        &&& listings_unique(self.listings@)
        &&& lookups_unique(self.lookups@)
        &&& agreements_unique(self.agreements@)
        &&& index_entries_unique(self.agreement_indices@)
        &&& escrows_unique(self.escrows@)
        &&& deposits_unique(self.deposits@)
        &&& balance_entries_unique(self.balances@)
        &&& forall|i: int|
            0 <= i < self.users@.len() ==> self.users@[i].address.value < self.next_address
        &&& forall|i: int|
            0 <= i < self.title_deeds@.len() ==> self.title_deeds@[i].address.value
                < self.next_address
        &&& forall|i: int|
            0 <= i < self.agreements@.len() ==> self.agreements@[i].address.value
                < self.next_address
        &&& forall|i: int|
            0 <= i < self.escrows@.len() ==> self.escrows@[i].address.value < self.next_address
    }

    /// An empty registry with no records at all.
    pub fn new() -> (l: Ledger)
        ensures
            l.wf(),
            l.protocol is None,
            l.admins@.len() == 0,
            l.registrars@.len() == 0,
            l.users@.len() == 0,
            l.id_claims@.len() == 0,
            l.title_deeds@.len() == 0,
            l.listings@.len() == 0,
            l.lookups@.len() == 0,
            l.agreements@.len() == 0,
            l.agreement_indices@.len() == 0,
            l.escrows@.len() == 0,
            l.deposits@.len() == 0,
            l.balances@.len() == 0,
    {
        Ledger {
            protocol: None,
            admins: Vec::new(),
            registrars: Vec::new(),
            users: Vec::new(),
            id_claims: Vec::new(),
            title_deeds: Vec::new(),
            lookups: Vec::new(),
            listings: Vec::new(),
            agreements: Vec::new(),
            agreement_indices: Vec::new(),
            escrows: Vec::new(),
            deposits: Vec::new(),
            balances: Vec::new(),
            next_address: 1,
        }
    }

    /// The funds a wallet currently holds.
    pub fn balance_of(&self, owner: PublicKey) -> (amount: u64)
        requires
            self.wf(),
        ensures
            amount == balance_of(self.balances@, owner),
    {
        match find_balance_entry(&self.balances, owner) {
            Some(i) => {
                proof {
                    lemma_balance_entry_index(self.balances@, owner, i as int);
                }
                self.balances[i].amount
            },
            None => 0,
        }
    }

    /// Reads a title deed record by address.
    pub fn get_title_deed(&self, address: PublicKey) -> (r: Option<&TitleDeedRecord>)
        requires
            self.wf(),
        ensures
            match r {
                Some(rec) => crate::store::has_deed(self.title_deeds@, address) && *rec
                    == crate::store::deed_at(self.title_deeds@, address),
                None => !crate::store::has_deed(self.title_deeds@, address),
            },
    {
        match crate::store::find_deed(&self.title_deeds, address) {
            Some(i) => {
                proof {
                    crate::store::lemma_deed_index(self.title_deeds@, address, i as int);
                }
                Some(&self.title_deeds[i])
            },
            None => None,
        }
    }

    /// Reads an agreement record by address.
    pub fn get_agreement(&self, address: PublicKey) -> (r: Option<&AgreementRecord>)
        requires
            self.wf(),
        ensures
            match r {
                Some(rec) => crate::store::has_agreement(self.agreements@, address) && *rec
                    == crate::store::agreement_at(self.agreements@, address),
                None => !crate::store::has_agreement(self.agreements@, address),
            },
    {
        match crate::store::find_agreement(&self.agreements, address) {
            Some(i) => {
                proof {
                    crate::store::lemma_agreement_index(self.agreements@, address, i as int);
                }
                Some(&self.agreements[i])
            },
            None => None,
        }
    }

    /// Reads an escrow record by address.
    pub fn get_escrow(&self, address: PublicKey) -> (r: Option<&EscrowRecord>)
        requires
            self.wf(),
        ensures
            match r {
                Some(rec) => crate::store::has_escrow(self.escrows@, address) && *rec
                    == crate::store::escrow_at(self.escrows@, address),
                None => !crate::store::has_escrow(self.escrows@, address),
            },
    {
        match crate::store::find_escrow(&self.escrows, address) {
            Some(i) => {
                proof {
                    crate::store::lemma_escrow_index(self.escrows@, address, i as int);
                }
                Some(&self.escrows[i])
            },
            None => None,
        }
    }

    /// Reads the search index entry for a title number.
    pub fn get_lookup(&self, title_number: &String) -> (r: Option<&TitleNumberLookup>)
        requires
            self.wf(),
        ensures
            match r {
                Some(rec) => crate::store::has_lookup(self.lookups@, title_number@) && *rec
                    == crate::store::lookup_at(self.lookups@, title_number@),
                None => !crate::store::has_lookup(self.lookups@, title_number@),
            },
    {
        match crate::store::find_lookup(&self.lookups, title_number) {
            Some(i) => {
                proof {
                    crate::store::lemma_lookup_index(self.lookups@, title_number@, i as int);
                }
                Some(&self.lookups[i])
            },
            None => None,
        }
    }

    /// Credits a wallet from outside the protocol: the substrate's way of
    /// endowing a party with spendable funds. Fails only when the wallet
    /// would exceed the largest representable amount.
    pub fn fund_wallet(&mut self, owner: PublicKey, amount: u64) -> (r: Result<
        (),
        ProtocolError,
    >)
        requires
            old(self).wf(),
        ensures
            final(self).wf(),
            match r {
                Ok(()) => balance_of(old(self).balances@, owner) + amount <= u64::MAX
                    && final(self).balances@ == credited(old(self).balances@, owner, amount)
                    && *final(self) == Ledger {
                        balances: final(self).balances,
                        ..*old(self)
                    },
                Err(e) => e == ProtocolError::ArithmeticOverflow && balance_of(
                    old(self).balances@,
                    owner,
                ) + amount > u64::MAX && *final(self) == *old(self),
            },
    {
        let held: u64 = self.balance_of(owner);
        if amount > u64::MAX - held {
            return Err(ProtocolError::ArithmeticOverflow);
        }
        proof {
            lemma_credited_unique(self.balances@, owner, amount);
        }
        credit_entry(&mut self.balances, owner, amount);
        Ok(())
    }
}

} // verus!
