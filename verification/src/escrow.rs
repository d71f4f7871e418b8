use vstd::prelude::*;

use crate::errors::ProtocolError;
use crate::keys::PublicKey;
use crate::ledger::{credit_entry, credited, debit_entry, debited, Ledger};
use crate::records::{Deposit, Escrow, EscrowState, TitleDeed};
use crate::store::{
    agreement_at, balance_of, deed_at, deed_index, deposit_at, deposit_index, escrow_at,
    escrow_index, find_agreement, find_deed, find_deposit, find_escrow, find_escrow_for_agreement,
    find_listing, find_lookup, find_registrar, find_user, has_agreement,
    has_deed, has_deposit, has_escrow, has_escrow_for_agreement, has_listing, has_lookup,
    has_registrar, has_user, lemma_agreement_index, lemma_deed_index,
    lemma_deposit_index, lemma_escrow_index, lemma_lookup_index, lemma_registrar_index,
    lemma_user_index, lookup_at, registrar_at, user_at, DepositRecord, EscrowRecord,
    TitleDeedRecord,
};

verus! {

impl Ledger {
    /// The registrar credential check: the caller's registrar record must
    /// exist and be active. Both failures report `InvalidRegistrar`: a
    /// caller presenting a record that is not theirs learns nothing more
    /// than that the credential was refused.
    pub open spec fn is_registrar_outcome(self, authority: PublicKey) -> Option<ProtocolError> {
        if !has_registrar(self.registrars@, authority) {
            Some(ProtocolError::InvalidRegistrar)
        } else if !registrar_at(self.registrars@, authority).is_active {
            Some(ProtocolError::InvalidRegistrar)
        } else {
            None
        }
    }

    /// Whether the caller is a matching, active registrar.
    pub fn is_registrar(&self, authority: PublicKey) -> (r: Result<(), ProtocolError>)
        requires
            self.wf(),
        ensures
            match r {
                Ok(()) => self.is_registrar_outcome(authority) is None,
                Err(e) => Some(e) == self.is_registrar_outcome(authority),
            },
    {
        let ri: usize = match find_registrar(&self.registrars, authority) {
            Some(i) => i,
            None => {
                return Err(ProtocolError::InvalidRegistrar);
            },
        };
        proof {
            lemma_registrar_index(self.registrars@, authority, ri as int);
        }
        if !self.registrars[ri].is_active {
            return Err(ProtocolError::InvalidRegistrar);
        }
        Ok(())
    }

    /// The error `create_escrow` reports, or `None`: the deed must exist
    /// and be under the caller's authority; the agreement must still exist
    /// (a cancelled agreement was reclaimed); the named parties must match
    /// the agreement, with the caller as seller; no escrow may exist for
    /// this agreement yet; the deed must be the one the agreement covers;
    /// and the buyer must have signed.
    pub open spec fn create_escrow_outcome(
        self,
        authority: PublicKey,
        agreement: PublicKey,
        title_deed: PublicKey,
        seller: PublicKey,
        buyer: PublicKey,
    ) -> Option<ProtocolError> {
        if !has_deed(self.title_deeds@, title_deed) {
            Some(ProtocolError::AccountNotFound)
        } else if deed_at(self.title_deeds@, title_deed).deed.authority != authority {
            Some(ProtocolError::Unauthorized)
        } else if !has_agreement(self.agreements@, agreement) {
            Some(ProtocolError::AgreementAlreadyCancelled)
        } else if !has_user(self.users@, seller) {
            Some(ProtocolError::AccountNotFound)
        } else if !has_user(self.users@, buyer) {
            Some(ProtocolError::AccountNotFound)
        } else if agreement_at(self.agreements@, agreement).agreement.buyer.authority != user_at(
            self.users@,
            buyer,
        ).user.authority {
            Some(ProtocolError::Unauthorized)
        } else if has_escrow_for_agreement(self.escrows@, agreement) {
            Some(ProtocolError::AccountAlreadyInUse)
        } else if !(agreement_at(self.agreements@, agreement).agreement.seller.authority
            == authority && agreement_at(self.agreements@, agreement).agreement.seller.authority
            == user_at(self.users@, seller).user.authority) {
            Some(ProtocolError::InvalidSeller)
        } else if agreement_at(self.agreements@, agreement).agreement.title_deed != title_deed {
            Some(ProtocolError::InvalidTitleDeed)
        } else if agreement_at(self.agreements@, agreement).agreement.buyer_confirmation is None {
            Some(ProtocolError::AgreementNotSignedByBuyer)
        } else if self.next_address == u64::MAX {
            Some(ProtocolError::ArithmeticOverflow)
        } else {
            None
        }
    }

    /// The seller moves the title into escrow: a new escrow record takes
    /// custody of the deed's transfer authority, and the sale enters the
    /// `TitleDeposited` state. Returns the escrow's address.
    pub fn create_escrow(
        &mut self,
        authority: PublicKey,
        agreement: PublicKey,
        title_deed: PublicKey,
        seller: PublicKey,
        buyer: PublicKey,
        now: i64,
    ) -> (r: Result<PublicKey, ProtocolError>)
        requires
            old(self).wf(),
        ensures
            final(self).wf(),
            match r {
                Ok(address) => {
                    &&& old(self).create_escrow_outcome(
                        authority,
                        agreement,
                        title_deed,
                        seller,
                        buyer,
                    ) is None
                    &&& address == (PublicKey { value: old(self).next_address })
                    &&& final(self).escrows@ == old(self).escrows@.push(
                        (EscrowRecord {
                            address,
                            escrow: Escrow {
                                agreement,
                                title_deed,
                                seller: user_at(old(self).users@, seller).user.authority,
                                buyer: user_at(old(self).users@, buyer).user.authority,
                                state: EscrowState::TitleDeposited,
                                created_at: now,
                                completed_at: None,
                                cancelled_at: None,
                            },
                        }),
                    )
                    &&& final(self).title_deeds@ == old(self).title_deeds@.update(
                        deed_index(old(self).title_deeds@, title_deed),
                        (TitleDeedRecord {
                            deed: TitleDeed {
                                authority: address,
                                ..deed_at(old(self).title_deeds@, title_deed).deed
                            },
                            ..deed_at(old(self).title_deeds@, title_deed)
                        }),
                    )
                    &&& final(self).next_address == old(self).next_address + 1
                    &&& *final(self) == (Ledger {
                        escrows: final(self).escrows,
                        title_deeds: final(self).title_deeds,
                        next_address: final(self).next_address,
                        ..*old(self)
                    })
                },
                Err(e) => {
                    &&& Some(e) == old(self).create_escrow_outcome(
                        authority,
                        agreement,
                        title_deed,
                        seller,
                        buyer,
                    )
                    &&& *final(self) == *old(self)
                },
            },
    {
        let di: usize = match find_deed(&self.title_deeds, title_deed) {
            Some(i) => i,
            None => {
                return Err(ProtocolError::AccountNotFound);
            },
        };
        proof {
            lemma_deed_index(self.title_deeds@, title_deed, di as int);
        }
        if self.title_deeds[di].deed.authority != authority {
            return Err(ProtocolError::Unauthorized);
        }
        let ai: usize = match find_agreement(&self.agreements, agreement) {
            Some(i) => i,
            None => {
                return Err(ProtocolError::AgreementAlreadyCancelled);
            },
        };
        proof {
            lemma_agreement_index(self.agreements@, agreement, ai as int);
        }
        let si: usize = match find_user(&self.users, seller) {
            Some(i) => i,
            None => {
                return Err(ProtocolError::AccountNotFound);
            },
        };
        proof {
            lemma_user_index(self.users@, seller, si as int);
        }
        let bi: usize = match find_user(&self.users, buyer) {
            Some(i) => i,
            None => {
                return Err(ProtocolError::AccountNotFound);
            },
        };
        proof {
            lemma_user_index(self.users@, buyer, bi as int);
        }
        if self.agreements[ai].agreement.buyer.authority != self.users[bi].user.authority {
            return Err(ProtocolError::Unauthorized);
        }
        if find_escrow_for_agreement(&self.escrows, agreement).is_some() {
            return Err(ProtocolError::AccountAlreadyInUse);
        }
        if !(self.agreements[ai].agreement.seller.authority == authority
            && self.agreements[ai].agreement.seller.authority == self.users[si].user.authority) {
            return Err(ProtocolError::InvalidSeller);
        }
        if self.agreements[ai].agreement.title_deed != title_deed {
            return Err(ProtocolError::InvalidTitleDeed);
        }
        if self.agreements[ai].agreement.buyer_confirmation.is_none() {
            return Err(ProtocolError::AgreementNotSignedByBuyer);
        }
        if self.next_address == u64::MAX {
            return Err(ProtocolError::ArithmeticOverflow);
        }
        let address = PublicKey { value: self.next_address };
        self.next_address = self.next_address + 1;
        let escrow = Escrow {
            agreement,
            title_deed,
            seller: self.users[si].user.authority,
            buyer: self.users[bi].user.authority,
            state: EscrowState::TitleDeposited,
            created_at: now,
            completed_at: None,
            cancelled_at: None,
        };
        self.escrows.push(EscrowRecord { address, escrow });
        let mut rec = self.title_deeds.remove(di);
        rec.deed.authority = address;
        self.title_deeds.insert(di, rec);
        proof {
            assert(self.title_deeds@ =~= old(self).title_deeds@.update(
                di as int,
                TitleDeedRecord {
                    deed: TitleDeed {
                        authority: address,
                        ..deed_at(old(self).title_deeds@, title_deed).deed
                    },
                    ..deed_at(old(self).title_deeds@, title_deed)
                },
            ));
        }
        Ok(address)
    }

    /// The error `deposit_payment_to_escrow` reports, or `None`: the buyer
    /// record must exist and belong to the caller; the escrow must exist
    /// and name the caller as buyer; the escrow's agreement must still
    /// exist; no deposit may exist yet; the escrow must be waiting in
    /// `TitleDeposited`; the amount must equal the agreed price exactly;
    /// and the caller's wallet must hold it.
    pub open spec fn deposit_payment_outcome(
        self,
        authority: PublicKey,
        escrow: PublicKey,
        buyer: PublicKey,
        amount: u64,
    ) -> Option<ProtocolError> {
        if !has_user(self.users@, buyer) {
            Some(ProtocolError::AccountNotFound)
        } else if authority != user_at(self.users@, buyer).user.authority {
            Some(ProtocolError::Unauthorized)
        } else if !has_escrow(self.escrows@, escrow) {
            Some(ProtocolError::AccountNotFound)
        } else if escrow_at(self.escrows@, escrow).escrow.buyer != authority {
            Some(ProtocolError::Unauthorized)
        } else if !has_agreement(
            self.agreements@,
            escrow_at(self.escrows@, escrow).escrow.agreement,
        ) {
            Some(ProtocolError::AccountNotFound)
        } else if has_deposit(self.deposits@, escrow) {
            Some(ProtocolError::AccountAlreadyInUse)
        } else if escrow_at(self.escrows@, escrow).escrow.state != EscrowState::TitleDeposited {
            Some(ProtocolError::EscrowNotReadyForPayment)
        } else if amount != agreement_at(
            self.agreements@,
            escrow_at(self.escrows@, escrow).escrow.agreement,
        ).agreement.price {
            Some(ProtocolError::PaymentAmountMismatch)
        } else if balance_of(self.balances@, authority) < amount {
            Some(ProtocolError::InsufficientFunds)
        } else {
            None
        }
    }

    /// The buyer pays the agreed price into escrow: a deposit record takes
    /// the funds out of the buyer's wallet and the escrow advances to
    /// `PaymentDeposited`. This happens at most once per escrow.
    pub fn deposit_payment_to_escrow(
        &mut self,
        authority: PublicKey,
        escrow: PublicKey,
        buyer: PublicKey,
        amount: u64,
        now: i64,
    ) -> (r: Result<(), ProtocolError>)
        requires
            old(self).wf(),
        ensures
            final(self).wf(),
            match r {
                Ok(()) => {
                    &&& old(self).deposit_payment_outcome(authority, escrow, buyer, amount)
                        is None
                    &&& final(self).deposits@ == old(self).deposits@.push(
                        (DepositRecord {
                            deposit: Deposit {
                                escrow,
                                amount,
                                deposited_by: authority,
                                deposited_at: now,
                            },
                            funds: amount,
                        }),
                    )
                    &&& final(self).balances@ == debited(old(self).balances@, authority, amount)
                    &&& final(self).escrows@ == old(self).escrows@.update(
                        escrow_index(old(self).escrows@, escrow),
                        (EscrowRecord {
                            escrow: Escrow {
                                state: EscrowState::PaymentDeposited,
                                ..escrow_at(old(self).escrows@, escrow).escrow
                            },
                            ..escrow_at(old(self).escrows@, escrow)
                        }),
                    )
                    &&& *final(self) == (Ledger {
                        deposits: final(self).deposits,
                        balances: final(self).balances,
                        escrows: final(self).escrows,
                        ..*old(self)
                    })
                },
                Err(e) => {
                    &&& Some(e) == old(self).deposit_payment_outcome(
                        authority,
                        escrow,
                        buyer,
                        amount,
                    )
                    &&& *final(self) == *old(self)
                },
            },
    {
        let bi: usize = match find_user(&self.users, buyer) {
            Some(i) => i,
            None => {
                return Err(ProtocolError::AccountNotFound);
            },
        };
        proof {
            lemma_user_index(self.users@, buyer, bi as int);
        }
        if authority != self.users[bi].user.authority {
            return Err(ProtocolError::Unauthorized);
        }
        let ei: usize = match find_escrow(&self.escrows, escrow) {
            Some(i) => i,
            None => {
                return Err(ProtocolError::AccountNotFound);
            },
        };
        proof {
            lemma_escrow_index(self.escrows@, escrow, ei as int);
        }
        if self.escrows[ei].escrow.buyer != authority {
            return Err(ProtocolError::Unauthorized);
        }
        let ai: usize = match find_agreement(&self.agreements, self.escrows[ei].escrow.agreement) {
            Some(i) => i,
            None => {
                return Err(ProtocolError::AccountNotFound);
            },
        };
        proof {
            lemma_agreement_index(
                self.agreements@,
                self.escrows@[ei as int].escrow.agreement,
                ai as int,
            );
        }
        if find_deposit(&self.deposits, escrow).is_some() {
            return Err(ProtocolError::AccountAlreadyInUse);
        }
        if !(self.escrows[ei].escrow.state == EscrowState::TitleDeposited) {
            return Err(ProtocolError::EscrowNotReadyForPayment);
        }
        if amount != self.agreements[ai].agreement.price {
            return Err(ProtocolError::PaymentAmountMismatch);
        }
        if self.balance_of(authority) < amount {
            return Err(ProtocolError::InsufficientFunds);
        }
        proof {
            crate::ledger::lemma_debited_unique(self.balances@, authority, amount);
        }
        debit_entry(&mut self.balances, authority, amount);
        self.deposits.push(
            DepositRecord {
                deposit: Deposit { escrow, amount, deposited_by: authority, deposited_at: now },
                funds: amount,
            },
        );
        let mut rec = self.escrows.remove(ei);
        rec.escrow.state = EscrowState::PaymentDeposited;
        self.escrows.insert(ei, rec);
        proof {
            assert(self.escrows@ =~= old(self).escrows@.update(
                ei as int,
                EscrowRecord {
                    escrow: Escrow {
                        state: EscrowState::PaymentDeposited,
                        ..escrow_at(old(self).escrows@, escrow).escrow
                    },
                    ..escrow_at(old(self).escrows@, escrow)
                },
            ));
        }
        Ok(())
    }

    /// The error `authorize_escrow` reports, or `None`. A registrar with
    /// no stake in the sale re-validates every upstream fact before
    /// releasing both sides: active registrar; escrow waiting in
    /// `PaymentDeposited` with its deposit, deed, agreement and parties
    /// present; the deed owned by the named seller; the agreement naming
    /// the buyer; a matching listing; the buyer recorded as the most
    /// recent searcher; a signed agreement; the payout wallet belonging to
    /// the seller; and a transfer that neither drains the deposit below
    /// zero nor overflows the seller's wallet.
    pub open spec fn authorize_escrow_outcome(
        self,
        authority: PublicKey,
        escrow: PublicKey,
        seller: PublicKey,
        buyer: PublicKey,
        seller_authority: PublicKey,
    ) -> Option<ProtocolError> {
        if !has_registrar(self.registrars@, authority) {
            Some(ProtocolError::AccountNotFound)
        } else if !has_escrow(self.escrows@, escrow) {
            Some(ProtocolError::AccountNotFound)
        } else if escrow_at(self.escrows@, escrow).escrow.state != EscrowState::PaymentDeposited {
            Some(ProtocolError::EscrowNotReadyForPayment)
        } else if !has_deposit(self.deposits@, escrow) {
            Some(ProtocolError::AccountNotFound)
        } else if !has_deed(self.title_deeds@, escrow_at(self.escrows@, escrow).escrow.title_deed) {
            Some(ProtocolError::AccountNotFound)
        } else if !has_agreement(
            self.agreements@,
            escrow_at(self.escrows@, escrow).escrow.agreement,
        ) {
            Some(ProtocolError::AccountNotFound)
        } else if !has_user(self.users@, seller) {
            Some(ProtocolError::AccountNotFound)
        } else if !has_user(self.users@, buyer) {
            Some(ProtocolError::AccountNotFound)
        } else if !registrar_at(self.registrars@, authority).is_active {
            Some(ProtocolError::InvalidRegistrar)
        } else {
            self.authorize_checks_outcome(escrow, seller, buyer, seller_authority)
        }
    }

    /// The field re-validation part of settlement, reached once every
    /// involved record exists and the escrow is in `PaymentDeposited`.
    pub open spec fn authorize_checks_outcome(
        self,
        escrow: PublicKey,
        seller: PublicKey,
        buyer: PublicKey,
        seller_authority: PublicKey,
    ) -> Option<ProtocolError> {
        let esc = escrow_at(self.escrows@, escrow).escrow;
        let deed = deed_at(self.title_deeds@, esc.title_deed).deed;
        let agr = agreement_at(self.agreements@, esc.agreement).agreement;
        let seller_user = user_at(self.users@, seller).user;
        let buyer_user = user_at(self.users@, buyer).user;
        let dep = deposit_at(self.deposits@, escrow);
        if deed.owner.authority != seller_user.authority {
            Some(ProtocolError::Unauthorized)
        } else if agr.buyer.authority != buyer_user.authority {
            Some(ProtocolError::Unauthorized)
        } else if !has_listing(self.listings@, seller_user.authority, esc.title_deed) {
            Some(ProtocolError::TitleNotMarkedForSale)
        } else if !has_lookup(self.lookups@, deed.title_number@) {
            Some(ProtocolError::AccountNotFound)
        } else if lookup_at(self.lookups@, deed.title_number@).searched_by
            != buyer_user.authority {
            Some(ProtocolError::Unauthorized)
        } else if agr.buyer_confirmation is None {
            Some(ProtocolError::AgreementNotSignedByBuyer)
        } else if seller_authority != seller_user.authority {
            Some(ProtocolError::Unauthorized)
        } else if dep.funds < dep.deposit.amount {
            Some(ProtocolError::ArithmeticUnderflow)
        } else if balance_of(self.balances@, seller_authority) + dep.deposit.amount > u64::MAX {
            Some(ProtocolError::ArithmeticOverflow)
        } else {
            None
        }
    }

    /// A registrar completes the settlement atomically: the deposited
    /// amount moves from the deposit record to the seller's wallet, the
    /// deed's owner and authority become the buyer, the sale flag is
    /// cleared, and the escrow is `Completed`. A completed escrow can
    /// never be authorized again.
    pub fn authorize_escrow(
        &mut self,
        authority: PublicKey,
        escrow: PublicKey,
        seller: PublicKey,
        buyer: PublicKey,
        seller_authority: PublicKey,
        now: i64,
    ) -> (r: Result<(), ProtocolError>)
        requires
            old(self).wf(),
        ensures
            final(self).wf(),
            match r {
                Ok(()) => {
                    &&& old(self).authorize_escrow_outcome(
                        authority,
                        escrow,
                        seller,
                        buyer,
                        seller_authority,
                    ) is None
                    &&& final(self).title_deeds@ == old(self).title_deeds@.update(
                        deed_index(
                            old(self).title_deeds@,
                            escrow_at(old(self).escrows@, escrow).escrow.title_deed,
                        ),
                        (TitleDeedRecord {
                            deed: TitleDeed {
                                authority: user_at(old(self).users@, buyer).user.authority,
                                owner: user_at(old(self).users@, buyer).user,
                                is_for_sale: false,
                                ..deed_at(
                                    old(self).title_deeds@,
                                    escrow_at(old(self).escrows@, escrow).escrow.title_deed,
                                ).deed
                            },
                            ..deed_at(
                                old(self).title_deeds@,
                                escrow_at(old(self).escrows@, escrow).escrow.title_deed,
                            )
                        }),
                    )
                    &&& final(self).deposits@ == old(self).deposits@.update(
                        deposit_index(old(self).deposits@, escrow),
                        (DepositRecord {
                            funds: (deposit_at(old(self).deposits@, escrow).funds - deposit_at(
                                old(self).deposits@,
                                escrow,
                            ).deposit.amount) as u64,
                            ..deposit_at(old(self).deposits@, escrow)
                        }),
                    )
                    &&& final(self).balances@ == credited(
                        old(self).balances@,
                        seller_authority,
                        deposit_at(old(self).deposits@, escrow).deposit.amount,
                    )
                    &&& final(self).escrows@ == old(self).escrows@.update(
                        escrow_index(old(self).escrows@, escrow),
                        (EscrowRecord {
                            escrow: Escrow {
                                state: EscrowState::Completed,
                                completed_at: Some(now),
                                ..escrow_at(old(self).escrows@, escrow).escrow
                            },
                            ..escrow_at(old(self).escrows@, escrow)
                        }),
                    )
                    &&& *final(self) == (Ledger {
                        title_deeds: final(self).title_deeds,
                        deposits: final(self).deposits,
                        balances: final(self).balances,
                        escrows: final(self).escrows,
                        ..*old(self)
                    })
                },
                Err(e) => {
                    &&& Some(e) == old(self).authorize_escrow_outcome(
                        authority,
                        escrow,
                        seller,
                        buyer,
                        seller_authority,
                    )
                    &&& *final(self) == *old(self)
                },
            },
    {
        let ri: usize = match find_registrar(&self.registrars, authority) {
            Some(i) => i,
            None => {
                return Err(ProtocolError::AccountNotFound);
            },
        };
        proof {
            lemma_registrar_index(self.registrars@, authority, ri as int);
        }
        let ei: usize = match find_escrow(&self.escrows, escrow) {
            Some(i) => i,
            None => {
                return Err(ProtocolError::AccountNotFound);
            },
        };
        proof {
            lemma_escrow_index(self.escrows@, escrow, ei as int);
        }
        if !(self.escrows[ei].escrow.state == EscrowState::PaymentDeposited) {
            return Err(ProtocolError::EscrowNotReadyForPayment);
        }
        let pi: usize = match find_deposit(&self.deposits, escrow) {
            Some(i) => i,
            None => {
                return Err(ProtocolError::AccountNotFound);
            },
        };
        proof {
            lemma_deposit_index(self.deposits@, escrow, pi as int);
        }
        let deed_address = self.escrows[ei].escrow.title_deed;
        let di: usize = match find_deed(&self.title_deeds, deed_address) {
            Some(i) => i,
            None => {
                return Err(ProtocolError::AccountNotFound);
            },
        };
        proof {
            lemma_deed_index(self.title_deeds@, deed_address, di as int);
        }
        let ai: usize = match find_agreement(&self.agreements, self.escrows[ei].escrow.agreement) {
            Some(i) => i,
            None => {
                return Err(ProtocolError::AccountNotFound);
            },
        };
        proof {
            lemma_agreement_index(
                self.agreements@,
                self.escrows@[ei as int].escrow.agreement,
                ai as int,
            );
        }
        let si: usize = match find_user(&self.users, seller) {
            Some(i) => i,
            None => {
                return Err(ProtocolError::AccountNotFound);
            },
        };
        proof {
            lemma_user_index(self.users@, seller, si as int);
        }
        let bi: usize = match find_user(&self.users, buyer) {
            Some(i) => i,
            None => {
                return Err(ProtocolError::AccountNotFound);
            },
        };
        proof {
            lemma_user_index(self.users@, buyer, bi as int);
        }
        if !self.registrars[ri].is_active {
            return Err(ProtocolError::InvalidRegistrar);
        }
        if self.title_deeds[di].deed.owner.authority != self.users[si].user.authority {
            return Err(ProtocolError::Unauthorized);
        }
        if self.agreements[ai].agreement.buyer.authority != self.users[bi].user.authority {
            return Err(ProtocolError::Unauthorized);
        }
        if find_listing(&self.listings, self.users[si].user.authority, deed_address).is_none() {
            return Err(ProtocolError::TitleNotMarkedForSale);
        }
        let li: usize = match find_lookup(
            &self.lookups,
            &self.title_deeds[di].deed.title_number,
        ) {
            Some(i) => i,
            None => {
                return Err(ProtocolError::AccountNotFound);
            },
        };
        proof {
            lemma_lookup_index(
                self.lookups@,
                self.title_deeds@[di as int].deed.title_number@,
                li as int,
            );
        }
        if self.lookups[li].searched_by != self.users[bi].user.authority {
            return Err(ProtocolError::Unauthorized);
        }
        if self.agreements[ai].agreement.buyer_confirmation.is_none() {
            return Err(ProtocolError::AgreementNotSignedByBuyer);
        }
        if seller_authority != self.users[si].user.authority {
            return Err(ProtocolError::Unauthorized);
        }
        let transfer_amount = self.deposits[pi].deposit.amount;
        if self.deposits[pi].funds < transfer_amount {
            return Err(ProtocolError::ArithmeticUnderflow);
        }
        let seller_held = self.balance_of(seller_authority);
        if transfer_amount > u64::MAX - seller_held {
            return Err(ProtocolError::ArithmeticOverflow);
        }
        // Every check has passed: apply the whole settlement.
        let buyer_snapshot = self.users[bi].user.duplicate();
        let buyer_key = self.users[bi].user.authority;
        let mut deed_rec = self.title_deeds.remove(di);
        deed_rec.deed.authority = buyer_key;
        deed_rec.deed.owner = buyer_snapshot;
        deed_rec.deed.is_for_sale = false;
        self.title_deeds.insert(di, deed_rec);
        proof {
            assert(self.title_deeds@ =~= old(self).title_deeds@.update(
                di as int,
                TitleDeedRecord {
                    deed: TitleDeed {
                        authority: user_at(old(self).users@, buyer).user.authority,
                        owner: user_at(old(self).users@, buyer).user,
                        is_for_sale: false,
                        ..deed_at(old(self).title_deeds@, deed_address).deed
                    },
                    ..deed_at(old(self).title_deeds@, deed_address)
                },
            ));
        }
        let mut dep_rec = self.deposits[pi];
        dep_rec.funds = dep_rec.funds - transfer_amount;
        crate::store::replace_at(&mut self.deposits, pi, dep_rec);
        proof {
            crate::ledger::lemma_credited_unique(self.balances@, seller_authority, transfer_amount);
        }
        credit_entry(&mut self.balances, seller_authority, transfer_amount);
        let mut esc_rec = self.escrows[ei];
        esc_rec.escrow.state = EscrowState::Completed;
        esc_rec.escrow.completed_at = Some(now);
        crate::store::replace_at(&mut self.escrows, ei, esc_rec);
        Ok(())
    }
}

} // verus!
