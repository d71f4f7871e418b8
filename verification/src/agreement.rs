use vstd::prelude::*;

use crate::errors::ProtocolError;
use crate::keys::{empty_key, PublicKey};
use crate::ledger::Ledger;
use crate::records::{Agreement, AgreementIndex};
use crate::store::{
    agreement_at, agreement_index, deed_at, find_agreement, find_agreement_by_parties, find_deed,
    find_index_entry, find_listing, find_lookup, find_user, has_agreement,
    has_agreement_by_parties, has_deed, has_index_entry, has_listing, has_lookup, has_user,
    index_entry_at, index_entry_index, lemma_agreement_index, lemma_deed_index,
    lemma_index_entry_index, lemma_listing_index, lemma_lookup_index, lemma_user_index,
    listing_at, lookup_at, user_at, AgreementRecord,
};

verus! {

impl Ledger {
    /// The error `make_agreement` reports, or `None`. Drafting requires:
    /// the caller holding the deed's transfer authority; the search
    /// index binding this deed; a live listing by the caller; matching
    /// seller identity; the intended buyer having performed the most
    /// recent search; and — decisively — no live agreement being indexed
    /// for this deed yet.
    pub open spec fn make_agreement_outcome(
        self,
        authority: PublicKey,
        title_deed: PublicKey,
        seller: PublicKey,
        buyer: PublicKey,
        price: u64,
    ) -> Option<ProtocolError> {
        if !has_deed(self.title_deeds@, title_deed) {
            Some(ProtocolError::AccountNotFound)
        } else if deed_at(self.title_deeds@, title_deed).deed.authority != authority {
            Some(ProtocolError::Unauthorized)
        } else if !has_lookup(
            self.lookups@,
            deed_at(self.title_deeds@, title_deed).deed.title_number@,
        ) {
            Some(ProtocolError::AccountNotFound)
        } else if lookup_at(
            self.lookups@,
            deed_at(self.title_deeds@, title_deed).deed.title_number@,
        ).title_deed != title_deed {
            Some(ProtocolError::TitleNotMarkedForSale)
        } else if !has_listing(self.listings@, authority, title_deed) {
            Some(ProtocolError::AccountNotFound)
        } else if !has_user(self.users@, seller) {
            Some(ProtocolError::AccountNotFound)
        } else if user_at(self.users@, seller).user.authority != authority {
            Some(ProtocolError::Unauthorized)
        } else if listing_at(self.listings@, authority, title_deed).seller.authority
            != authority {
            Some(ProtocolError::Unauthorized)
        } else if !has_user(self.users@, buyer) {
            Some(ProtocolError::AccountNotFound)
        } else if has_agreement_by_parties(
            self.agreements@,
            authority,
            user_at(self.users@, buyer).user.authority,
            title_deed,
            price,
        ) {
            Some(ProtocolError::AccountAlreadyInUse)
        } else if lookup_at(
            self.lookups@,
            deed_at(self.title_deeds@, title_deed).deed.title_number@,
        ).searched_by == empty_key() {
            Some(ProtocolError::Unauthorized)
        } else if lookup_at(
            self.lookups@,
            deed_at(self.title_deeds@, title_deed).deed.title_number@,
        ).searched_by != user_at(self.users@, buyer).user.authority {
            Some(ProtocolError::Unauthorized)
        } else if has_index_entry(self.agreement_indices@, title_deed) && index_entry_at(
            self.agreement_indices@,
            title_deed,
        ).agreement != empty_key() {
            Some(ProtocolError::AgreementAlreadyExists)
        } else if self.next_address == u64::MAX {
            Some(ProtocolError::ArithmeticOverflow)
        } else {
            None
        }
    }

    /// The seller drafts a sale agreement naming a buyer and a price. The
    /// agreement index for the deed is created or re-pointed at the new
    /// agreement; because the index keeps at most one live agreement per
    /// deed, a second draft fails while the first is indexed. Returns the
    /// new agreement's address.
    pub fn make_agreement(
        &mut self,
        authority: PublicKey,
        title_deed: PublicKey,
        seller: PublicKey,
        buyer: PublicKey,
        price: u64,
        now: i64,
    ) -> (r: Result<PublicKey, ProtocolError>)
        requires
            old(self).wf(),
        ensures
            final(self).wf(),
            match r {
                Ok(address) => {
                    &&& old(self).make_agreement_outcome(
                        authority,
                        title_deed,
                        seller,
                        buyer,
                        price,
                    ) is None
                    &&& address == (PublicKey { value: old(self).next_address })
                    &&& final(self).agreements@ == old(self).agreements@.push(
                        (AgreementRecord {
                            address,
                            agreement: Agreement {
                                seller: user_at(old(self).users@, seller).user,
                                buyer: user_at(old(self).users@, buyer).user,
                                title_deed,
                                price,
                                created_at: now,
                                drafted_by: authority,
                                buyer_confirmation: None,
                                drafted_at: now,
                                buyer_confirmed_at: None,
                            },
                        }),
                    )
                    &&& if has_index_entry(old(self).agreement_indices@, title_deed) {
                        final(self).agreement_indices@ == old(self).agreement_indices@.update(
                            index_entry_index(old(self).agreement_indices@, title_deed),
                            (AgreementIndex { title_deed, agreement: address }),
                        )
                    } else {
                        final(self).agreement_indices@ == old(self).agreement_indices@.push(
                            (AgreementIndex { title_deed, agreement: address }),
                        )
                    }
                    &&& final(self).next_address == old(self).next_address + 1
                    &&& *final(self) == (Ledger {
                        agreements: final(self).agreements,
                        agreement_indices: final(self).agreement_indices,
                        next_address: final(self).next_address,
                        ..*old(self)
                    })
                },
                Err(e) => {
                    &&& Some(e) == old(self).make_agreement_outcome(
                        authority,
                        title_deed,
                        seller,
                        buyer,
                        price,
                    )
                    &&& *final(self) == *old(self)
                },
            },
    {
        let di: usize = match find_deed(&self.title_deeds, title_deed) {
            Some(i) => i,
            None => {
                return Err(ProtocolError::AccountNotFound);
            },
        };
        proof {
            lemma_deed_index(self.title_deeds@, title_deed, di as int);
        }
        if self.title_deeds[di].deed.authority != authority {
            return Err(ProtocolError::Unauthorized);
        }
        let li: usize = match find_lookup(&self.lookups, &self.title_deeds[di].deed.title_number) {
            Some(i) => i,
            None => {
                return Err(ProtocolError::AccountNotFound);
            },
        };
        proof {
            lemma_lookup_index(
                self.lookups@,
                self.title_deeds@[di as int].deed.title_number@,
                li as int,
            );
        }
        if self.lookups[li].title_deed != title_deed {
            return Err(ProtocolError::TitleNotMarkedForSale);
        }
        let pi: usize = match find_listing(&self.listings, authority, title_deed) {
            Some(i) => i,
            None => {
                return Err(ProtocolError::AccountNotFound);
            },
        };
        proof {
            lemma_listing_index(self.listings@, authority, title_deed, pi as int);
        }
        let si: usize = match find_user(&self.users, seller) {
            Some(i) => i,
            None => {
                return Err(ProtocolError::AccountNotFound);
            },
        };
        proof {
            lemma_user_index(self.users@, seller, si as int);
        }
        if self.users[si].user.authority != authority {
            return Err(ProtocolError::Unauthorized);
        }
        if self.listings[pi].seller.authority != authority {
            return Err(ProtocolError::Unauthorized);
        }
        let bi: usize = match find_user(&self.users, buyer) {
            Some(i) => i,
            None => {
                return Err(ProtocolError::AccountNotFound);
            },
        };
        proof {
            lemma_user_index(self.users@, buyer, bi as int);
        }
        let buyer_authority = self.users[bi].user.authority;
        if find_agreement_by_parties(
            &self.agreements,
            authority,
            buyer_authority,
            title_deed,
            price,
        ).is_some() {
            return Err(ProtocolError::AccountAlreadyInUse);
        }
        if self.lookups[li].searched_by.is_empty() {
            return Err(ProtocolError::Unauthorized);
        }
        if self.lookups[li].searched_by != buyer_authority {
            return Err(ProtocolError::Unauthorized);
        }
        let index_slot = find_index_entry(&self.agreement_indices, title_deed);
        if let Some(ii) = index_slot {
            proof {
                lemma_index_entry_index(self.agreement_indices@, title_deed, ii as int);
            }
            if !self.agreement_indices[ii].agreement.is_empty() {
                return Err(ProtocolError::AgreementAlreadyExists);
            }
        }
        if self.next_address == u64::MAX {
            return Err(ProtocolError::ArithmeticOverflow);
        }
        let address = PublicKey { value: self.next_address };
        self.next_address = self.next_address + 1;
        let agreement = Agreement {
            seller: self.users[si].user.duplicate(),
            buyer: self.users[bi].user.duplicate(),
            title_deed,
            price,
            created_at: now,
            drafted_by: authority,
            buyer_confirmation: None,
            drafted_at: now,
            buyer_confirmed_at: None,
        };
        self.agreements.push(AgreementRecord { address, agreement });
        match index_slot {
            Some(ii) => {
                let entry = AgreementIndex { title_deed, agreement: address };
                crate::store::replace_at(&mut self.agreement_indices, ii, entry);
            },
            None => {
                self.agreement_indices.push(AgreementIndex { title_deed, agreement: address });
            },
        }
        Ok(address)
    }

    /// The error `sign_agreement` reports, or `None`: the agreement and
    /// deed must exist, the deed must be the one the agreement covers, the
    /// caller must be the buyer named in the agreement, and the price must
    /// match the drafted one.
    pub open spec fn sign_agreement_outcome(
        self,
        authority: PublicKey,
        agreement: PublicKey,
        title_deed: PublicKey,
        price: u64,
    ) -> Option<ProtocolError> {
        if !has_agreement(self.agreements@, agreement) {
            Some(ProtocolError::AccountNotFound)
        } else if !has_deed(self.title_deeds@, title_deed) {
            Some(ProtocolError::AccountNotFound)
        } else if agreement_at(self.agreements@, agreement).agreement.title_deed != title_deed {
            Some(ProtocolError::InvalidTitleDeed)
        } else if agreement_at(self.agreements@, agreement).agreement.buyer.authority
            != authority {
            Some(ProtocolError::Unauthorized)
        } else if agreement_at(self.agreements@, agreement).agreement.price != price {
            Some(ProtocolError::InvalidTitleDeed)
        } else {
            None
        }
    }

    /// The named buyer signs the agreement: the buyer confirmation and its
    /// timestamp are recorded. Nobody but the buyer named in the agreement
    /// can sign it.
    pub fn sign_agreement(
        &mut self,
        authority: PublicKey,
        agreement: PublicKey,
        title_deed: PublicKey,
        price: u64,
        now: i64,
    ) -> (r: Result<(), ProtocolError>)
        requires
            old(self).wf(),
        ensures
            final(self).wf(),
            match r {
                Ok(()) => {
                    &&& old(self).sign_agreement_outcome(authority, agreement, title_deed, price)
                        is None
                    &&& final(self).agreements@ == old(self).agreements@.update(
                        agreement_index(old(self).agreements@, agreement),
                        (AgreementRecord {
                            agreement: Agreement {
                                buyer_confirmation: Some(authority),
                                buyer_confirmed_at: Some(now),
                                ..agreement_at(old(self).agreements@, agreement).agreement
                            },
                            ..agreement_at(old(self).agreements@, agreement)
                        }),
                    )
                    &&& *final(self) == (Ledger {
                        agreements: final(self).agreements,
                        ..*old(self)
                    })
                },
                Err(e) => {
                    &&& Some(e) == old(self).sign_agreement_outcome(
                        authority,
                        agreement,
                        title_deed,
                        price,
                    )
                    &&& *final(self) == *old(self)
                },
            },
    {
        let ai: usize = match find_agreement(&self.agreements, agreement) {
            Some(i) => i,
            None => {
                return Err(ProtocolError::AccountNotFound);
            },
        };
        proof {
            lemma_agreement_index(self.agreements@, agreement, ai as int);
        }
        if find_deed(&self.title_deeds, title_deed).is_none() {
            return Err(ProtocolError::AccountNotFound);
        }
        if self.agreements[ai].agreement.title_deed != title_deed {
            return Err(ProtocolError::InvalidTitleDeed);
        }
        if self.agreements[ai].agreement.buyer.authority != authority {
            return Err(ProtocolError::Unauthorized);
        }
        if self.agreements[ai].agreement.price != price {
            return Err(ProtocolError::InvalidTitleDeed);
        }
        let mut rec = self.agreements.remove(ai);
        rec.agreement.buyer_confirmation = Some(authority);
        rec.agreement.buyer_confirmed_at = Some(now);
        self.agreements.insert(ai, rec);
        proof {
            assert(self.agreements@ =~= old(self).agreements@.update(
                ai as int,
                AgreementRecord {
                    agreement: Agreement {
                        buyer_confirmation: Some(authority),
                        buyer_confirmed_at: Some(now),
                        ..agreement_at(old(self).agreements@, agreement).agreement
                    },
                    ..agreement_at(old(self).agreements@, agreement)
                },
            ));
        }
        Ok(())
    }

    /// The error `cancel_agreement` reports, or `None`: the agreement and
    /// its index entry must exist, and the caller must be the named seller
    /// or the named buyer.
    pub open spec fn cancel_agreement_outcome(self, authority: PublicKey, agreement: PublicKey) -> Option<
        ProtocolError,
    > {
        if !has_agreement(self.agreements@, agreement) {
            Some(ProtocolError::AccountNotFound)
        } else if !has_index_entry(
            self.agreement_indices@,
            agreement_at(self.agreements@, agreement).agreement.title_deed,
        ) {
            Some(ProtocolError::AccountNotFound)
        } else if agreement_at(self.agreements@, agreement).agreement.seller.authority != authority
            && agreement_at(self.agreements@, agreement).agreement.buyer.authority != authority {
            Some(ProtocolError::Unauthorized)
        } else {
            None
        }
    }

    /// Either named party withdraws: the agreement record and the index
    /// entry for its deed are both reclaimed, so a fresh draft on the same
    /// deed becomes possible again.
    pub fn cancel_agreement(&mut self, authority: PublicKey, agreement: PublicKey) -> (r: Result<
        (),
        ProtocolError,
    >)
        requires
            old(self).wf(),
        ensures
            final(self).wf(),
            match r {
                Ok(()) => {
                    &&& old(self).cancel_agreement_outcome(authority, agreement) is None
                    &&& final(self).agreements@ == old(self).agreements@.remove(
                        agreement_index(old(self).agreements@, agreement),
                    )
                    &&& final(self).agreement_indices@ == old(self).agreement_indices@.remove(
                        index_entry_index(
                            old(self).agreement_indices@,
                            agreement_at(old(self).agreements@, agreement).agreement.title_deed,
                        ),
                    )
                    &&& *final(self) == (Ledger {
                        agreements: final(self).agreements,
                        agreement_indices: final(self).agreement_indices,
                        ..*old(self)
                    })
                },
                Err(e) => {
                    &&& Some(e) == old(self).cancel_agreement_outcome(authority, agreement)
                    &&& *final(self) == *old(self)
                },
            },
    {
        let ai: usize = match find_agreement(&self.agreements, agreement) {
            Some(i) => i,
            None => {
                return Err(ProtocolError::AccountNotFound);
            },
        };
        proof {
            lemma_agreement_index(self.agreements@, agreement, ai as int);
        }
        let ii: usize = match find_index_entry(
            &self.agreement_indices,
            self.agreements[ai].agreement.title_deed,
        ) {
            Some(i) => i,
            None => {
                return Err(ProtocolError::AccountNotFound);
            },
        };
        proof {
            lemma_index_entry_index(
                self.agreement_indices@,
                self.agreements@[ai as int].agreement.title_deed,
                ii as int,
            );
        }
        if self.agreements[ai].agreement.seller.authority != authority
            && self.agreements[ai].agreement.buyer.authority != authority {
            return Err(ProtocolError::Unauthorized);
        }
        self.agreements.remove(ai);
        self.agreement_indices.remove(ii);
        Ok(())
    }
}

} // verus!
