use vstd::prelude::*;

use crate::errors::ProtocolError;
use crate::keys::PublicKey;
use crate::ledger::Ledger;
use crate::records::{TitleDeed, TitleForSale, TitleNumberLookup};
use crate::store::{
    deed_at, deed_index, find_deed, find_deed_created_for, find_listing, find_lookup, find_user,
    find_registrar, has_deed, has_deed_created_for, has_listing, has_lookup, has_registrar,
    has_user, lemma_deed_index, lemma_lookup_index, lemma_registrar_index, lemma_user_index,
    lookup_at, lookup_index, registrar_at, user_at, TitleDeedRecord,
};

verus! {

impl Ledger {
    /// The error `assign_title_deed_to_owner` reports, or `None`: the
    /// caller must be an existing, active registrar; no deed may have been
    /// registered under the new owner key before; and the owner's identity
    /// record must exist.
    pub open spec fn assign_title_deed_outcome(
        self,
        authority: PublicKey,
        new_owner_address: PublicKey,
        owner: PublicKey,
    ) -> Option<ProtocolError> {
        if !has_registrar(self.registrars@, authority) {
            Some(ProtocolError::AccountNotFound)
        } else if !registrar_at(self.registrars@, authority).is_active {
            Some(ProtocolError::InvalidRegistrar)
        } else if has_deed_created_for(self.title_deeds@, new_owner_address) {
            Some(ProtocolError::AccountAlreadyInUse)
        } else if !has_user(self.users@, owner) {
            Some(ProtocolError::AccountNotFound)
        } else if self.next_address == u64::MAX {
            Some(ProtocolError::ArithmeticOverflow)
        } else {
            None
        }
    }

    /// A registrar records a land parcel: the deed's descriptive fields,
    /// its owner snapshot, and the owner key as the transfer authority.
    /// The deed starts unlisted. Returns the new deed's address.
    pub fn assign_title_deed_to_owner(
        &mut self,
        authority: PublicKey,
        new_owner_address: PublicKey,
        owner: PublicKey,
        title_number: String,
        location: String,
        acreage: u64,
        district_land_registry: String,
        registry_mapsheet_number: u64,
        now: i64,
    ) -> (r: Result<PublicKey, ProtocolError>)
        requires
            old(self).wf(),
        ensures
            final(self).wf(),
            match r {
                Ok(address) => {
                    &&& old(self).assign_title_deed_outcome(authority, new_owner_address, owner)
                        is None
                    &&& address == (PublicKey { value: old(self).next_address })
                    &&& final(self).title_deeds@ == old(self).title_deeds@.push(
                        (TitleDeedRecord {
                            address,
                            created_for: new_owner_address,
                            deed: TitleDeed {
                                owner: user_at(old(self).users@, owner).user,
                                authority: new_owner_address,
                                title_number,
                                location,
                                acreage,
                                district_land_registry,
                                registration_date: now,
                                registry_mapsheet_number,
                                is_for_sale: false,
                            },
                        }),
                    )
                    &&& final(self).next_address == old(self).next_address + 1
                    &&& *final(self) == (Ledger {
                        title_deeds: final(self).title_deeds,
                        next_address: final(self).next_address,
                        ..*old(self)
                    })
                },
                Err(e) => {
                    &&& Some(e) == old(self).assign_title_deed_outcome(
                        authority,
                        new_owner_address,
                        owner,
                    )
                    &&& *final(self) == *old(self)
                },
            },
    {
        let ri: usize = match find_registrar(&self.registrars, authority) {
            Some(i) => i,
            None => {
                return Err(ProtocolError::AccountNotFound);
            },
        };
        proof {
            lemma_registrar_index(self.registrars@, authority, ri as int);
        }
        if !self.registrars[ri].is_active {
            return Err(ProtocolError::InvalidRegistrar);
        }
        if find_deed_created_for(&self.title_deeds, new_owner_address).is_some() {
            return Err(ProtocolError::AccountAlreadyInUse);
        }
        let oi: usize = match find_user(&self.users, owner) {
            Some(i) => i,
            None => {
                return Err(ProtocolError::AccountNotFound);
            },
        };
        proof {
            lemma_user_index(self.users@, owner, oi as int);
        }
        if self.next_address == u64::MAX {
            return Err(ProtocolError::ArithmeticOverflow);
        }
        let address = PublicKey { value: self.next_address };
        self.next_address = self.next_address + 1;
        let deed = TitleDeed {
            owner: self.users[oi].user.duplicate(),
            authority: new_owner_address,
            title_number,
            location,
            acreage,
            district_land_registry,
            registration_date: now,
            registry_mapsheet_number,
            is_for_sale: false,
        };
        self.title_deeds.push(TitleDeedRecord { address, created_for: new_owner_address, deed });
        Ok(address)
    }

    /// The error `mark_title_for_sale` reports, or `None`: the deed must
    /// exist, the caller must hold its transfer authority and be its
    /// recorded owner, the seller record must exist and belong to the
    /// caller, and no listing for this seller and deed may exist yet.
    pub open spec fn mark_title_for_sale_outcome(
        self,
        authority: PublicKey,
        title_deed: PublicKey,
        seller: PublicKey,
    ) -> Option<ProtocolError> {
        if !has_deed(self.title_deeds@, title_deed) {
            Some(ProtocolError::AccountNotFound)
        } else if deed_at(self.title_deeds@, title_deed).deed.authority != authority {
            Some(ProtocolError::Unauthorized)
        } else if deed_at(self.title_deeds@, title_deed).deed.owner.authority != authority {
            Some(ProtocolError::Unauthorized)
        } else if !has_user(self.users@, seller) {
            Some(ProtocolError::AccountNotFound)
        } else if user_at(self.users@, seller).user.authority != authority {
            Some(ProtocolError::Unauthorized)
        } else if has_listing(self.listings@, authority, title_deed) {
            Some(ProtocolError::AccountAlreadyInUse)
        } else {
            None
        }
    }

    /// The owner lists a deed for sale: the deed is flagged and a listing
    /// snapshot with the asked price is created, keyed by seller and deed.
    pub fn mark_title_for_sale(
        &mut self,
        authority: PublicKey,
        title_deed: PublicKey,
        seller: PublicKey,
        price: u64,
        now: i64,
    ) -> (r: Result<(), ProtocolError>)
        requires
            old(self).wf(),
        ensures
            final(self).wf(),
            match r {
                Ok(()) => {
                    &&& old(self).mark_title_for_sale_outcome(authority, title_deed, seller)
                        is None
                    &&& final(self).title_deeds@ == old(self).title_deeds@.update(
                        deed_index(old(self).title_deeds@, title_deed),
                        (TitleDeedRecord {
                            deed: TitleDeed {
                                is_for_sale: true,
                                ..deed_at(old(self).title_deeds@, title_deed).deed
                            },
                            ..deed_at(old(self).title_deeds@, title_deed)
                        }),
                    )
                    &&& final(self).listings@ == old(self).listings@.push(
                        (TitleForSale {
                            title_deed,
                            seller: user_at(old(self).users@, seller).user,
                            sale_price: price,
                            listed_at: now,
                        }),
                    )
                    &&& *final(self) == (Ledger {
                        title_deeds: final(self).title_deeds,
                        listings: final(self).listings,
                        ..*old(self)
                    })
                },
                Err(e) => {
                    &&& Some(e) == old(self).mark_title_for_sale_outcome(
                        authority,
                        title_deed,
                        seller,
                    )
                    &&& *final(self) == *old(self)
                },
            },
    {
        let di: usize = match find_deed(&self.title_deeds, title_deed) {
            Some(i) => i,
            None => {
                return Err(ProtocolError::AccountNotFound);
            },
        };
        proof {
            lemma_deed_index(self.title_deeds@, title_deed, di as int);
        }
        if self.title_deeds[di].deed.authority != authority {
            return Err(ProtocolError::Unauthorized);
        }
        if self.title_deeds[di].deed.owner.authority != authority {
            return Err(ProtocolError::Unauthorized);
        }
        let si: usize = match find_user(&self.users, seller) {
            Some(i) => i,
            None => {
                return Err(ProtocolError::AccountNotFound);
            },
        };
        proof {
            lemma_user_index(self.users@, seller, si as int);
        }
        if self.users[si].user.authority != authority {
            return Err(ProtocolError::Unauthorized);
        }
        if find_listing(&self.listings, authority, title_deed).is_some() {
            return Err(ProtocolError::AccountAlreadyInUse);
        }
        let seller_snapshot = self.users[si].user.duplicate();
        let mut rec = self.title_deeds.remove(di);
        rec.deed.is_for_sale = true;
        self.title_deeds.insert(di, rec);
        proof {
            assert(self.title_deeds@ =~= old(self).title_deeds@.update(
                di as int,
                TitleDeedRecord {
                    deed: TitleDeed {
                        is_for_sale: true,
                        ..deed_at(old(self).title_deeds@, title_deed).deed
                    },
                    ..deed_at(old(self).title_deeds@, title_deed)
                },
            ));
        }
        self.listings.push(
            TitleForSale { title_deed, seller: seller_snapshot, sale_price: price, listed_at: now },
        );
        Ok(())
    }

    /// The error `search_title_deed_by_number` reports, or `None`: the
    /// deed must exist, its recorded title number must equal the searched
    /// one, and the searcher's identity record must exist and belong to
    /// the caller.
    pub open spec fn search_title_outcome(
        self,
        authority: PublicKey,
        title_deed: PublicKey,
        title_number: Seq<char>,
        searched_by: PublicKey,
    ) -> Option<ProtocolError> {
        if !has_deed(self.title_deeds@, title_deed) {
            Some(ProtocolError::AccountNotFound)
        } else if deed_at(self.title_deeds@, title_deed).deed.title_number@ != title_number {
            Some(ProtocolError::TitleAuthorityMismatch)
        } else if !has_user(self.users@, searched_by) {
            Some(ProtocolError::AccountNotFound)
        } else if user_at(self.users@, searched_by).user.authority != authority {
            Some(ProtocolError::Unauthorized)
        } else {
            None
        }
    }

    /// A buyer searches a deed by its title number. The lookup record for
    /// the number is created lazily on the first search; every search
    /// overwrites `searched_by` with the caller, so only the most recent
    /// searcher stays recorded. Performing this search is what later
    /// entitles the caller to be named as buyer in an agreement.
    pub fn search_title_deed_by_number(
        &mut self,
        authority: PublicKey,
        title_deed: PublicKey,
        title_number: String,
        searched_by: PublicKey,
    ) -> (r: Result<(), ProtocolError>)
        requires
            old(self).wf(),
        ensures
            final(self).wf(),
            match r {
                Ok(()) => {
                    &&& old(self).search_title_outcome(
                        authority,
                        title_deed,
                        title_number@,
                        searched_by,
                    ) is None
                    &&& if has_lookup(old(self).lookups@, title_number@) {
                        final(self).lookups@ == old(self).lookups@.update(
                            lookup_index(old(self).lookups@, title_number@),
                            (TitleNumberLookup {
                                searched_by: authority,
                                ..lookup_at(old(self).lookups@, title_number@)
                            }),
                        )
                    } else {
                        final(self).lookups@ == old(self).lookups@.push(
                            (TitleNumberLookup {
                                title_number,
                                title_deed,
                                searched_by: authority,
                            }),
                        )
                    }
                    &&& *final(self) == (Ledger { lookups: final(self).lookups, ..*old(self) })
                },
                Err(e) => {
                    &&& Some(e) == old(self).search_title_outcome(
                        authority,
                        title_deed,
                        title_number@,
                        searched_by,
                    )
                    &&& *final(self) == *old(self)
                },
            },
    {
        let di: usize = match find_deed(&self.title_deeds, title_deed) {
            Some(i) => i,
            None => {
                return Err(ProtocolError::AccountNotFound);
            },
        };
        proof {
            lemma_deed_index(self.title_deeds@, title_deed, di as int);
        }
        if !(self.title_deeds[di].deed.title_number == title_number) {
            return Err(ProtocolError::TitleAuthorityMismatch);
        }
        let ui: usize = match find_user(&self.users, searched_by) {
            Some(i) => i,
            None => {
                return Err(ProtocolError::AccountNotFound);
            },
        };
        proof {
            lemma_user_index(self.users@, searched_by, ui as int);
        }
        if self.users[ui].user.authority != authority {
            return Err(ProtocolError::Unauthorized);
        }
        match find_lookup(&self.lookups, &title_number) {
            Some(li) => {
                proof {
                    lemma_lookup_index(self.lookups@, title_number@, li as int);
                }
                let mut entry = self.lookups.remove(li);
                entry.searched_by = authority;
                self.lookups.insert(li, entry);
                proof {
                    assert(self.lookups@ =~= old(self).lookups@.update(
                        li as int,
                        TitleNumberLookup {
                            searched_by: authority,
                            ..lookup_at(old(self).lookups@, title_number@)
                        },
                    ));
                }
            },
            None => {
                self.lookups.push(
                    TitleNumberLookup { title_number, title_deed, searched_by: authority },
                );
            },
        }
        Ok(())
    }
}

} // verus!
