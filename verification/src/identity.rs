use vstd::prelude::*;

use crate::errors::ProtocolError;
use crate::keys::PublicKey;
use crate::ledger::Ledger;
use crate::records::{Admin, IdNumberClaim, ProtocolState, Registrar, User, MAX_ADMINS};
use crate::store::{
    find_admin, find_claim, find_registrar, find_user_identity, has_admin, has_claim,
    has_registrar, has_user_identity, key_list_contains, lemma_registrar_index, registrar_at,
    registrar_index, UserRecord,
};

verus! {

impl Ledger {
    /// The error `initialize` reports, or `None` where it succeeds: the
    /// protocol record must not exist yet, and the admin list must contain
    /// the payer, hold at most `MAX_ADMINS` entries and not be empty.
    pub open spec fn initialize_outcome(self, payer: PublicKey, admins: Seq<PublicKey>) -> Option<
        ProtocolError,
    > {
        if self.protocol is Some {
            Some(ProtocolError::AccountAlreadyInUse)
        } else if !admins.contains(payer) {
            Some(ProtocolError::InvalidAdmin)
        } else if admins.len() > MAX_ADMINS as int {
            Some(ProtocolError::InvalidAdmin)
        } else if admins.len() == 0 {
            Some(ProtocolError::InvalidAdmin)
        } else {
            None
        }
    }

    /// Writes the singleton protocol configuration: the fixed admin list.
    /// First-writer-wins: a second initialization fails.
    pub fn initialize(&mut self, payer: PublicKey, admins: Vec<PublicKey>) -> (r: Result<
        (),
        ProtocolError,
    >)
        requires
            old(self).wf(),
        ensures
            final(self).wf(),
            match r {
                Ok(()) => {
                    &&& old(self).initialize_outcome(payer, admins@) is None
                    &&& final(self).protocol matches Some(p)
                    &&& p.admins@ == admins@
                    &&& !p.is_paused
                    &&& *final(self) == (Ledger { protocol: final(self).protocol, ..*old(self) })
                },
                Err(e) => {
                    &&& Some(e) == old(self).initialize_outcome(payer, admins@)
                    &&& *final(self) == *old(self)
                },
            },
    {
        if self.protocol.is_some() {
            return Err(ProtocolError::AccountAlreadyInUse);
        }
        if !key_list_contains(&admins, payer) {
            return Err(ProtocolError::InvalidAdmin);
        }
        if admins.len() > MAX_ADMINS {
            return Err(ProtocolError::InvalidAdmin);
        }
        if admins.len() == 0 {
            return Err(ProtocolError::InvalidAdmin);
        }
        self.protocol = Some(ProtocolState { admins, is_paused: false });
        Ok(())
    }

    /// The error `confirm_admin_account` reports, or `None`: the admin
    /// record must not exist yet, the protocol must be initialized, and the
    /// caller must be one of the configured admin keys.
    pub open spec fn confirm_admin_outcome(self, authority: PublicKey) -> Option<ProtocolError> {
        if has_admin(self.admins@, authority) {
            Some(ProtocolError::AccountAlreadyInUse)
        } else if self.protocol is None {
            Some(ProtocolError::AccountNotFound)
        } else if !self.protocol->0.admins@.contains(authority) {
            Some(ProtocolError::InvalidAdmin)
        } else {
            None
        }
    }

    /// Creates the caller's own admin record, provided the caller is one of
    /// the identities pre-listed in the protocol state. One admin cannot
    /// confirm an account for another: the record is keyed by the caller.
    pub fn confirm_admin_account(&mut self, authority: PublicKey) -> (r: Result<
        (),
        ProtocolError,
    >)
        requires
            old(self).wf(),
        ensures
            final(self).wf(),
            match r {
                Ok(()) => {
                    &&& old(self).confirm_admin_outcome(authority) is None
                    &&& final(self).admins@.len() == old(self).admins@.len() + 1
                    &&& final(self).admins@.drop_last() == old(self).admins@
                    &&& final(self).admins@.last().authority == authority
                    &&& final(self).admins@.last().first_name@.len() == 0
                    &&& final(self).admins@.last().last_name@.len() == 0
                    &&& final(self).admins@.last().id_number@.len() == 0
                    &&& *final(self) == (Ledger { admins: final(self).admins, ..*old(self) })
                },
                Err(e) => {
                    &&& Some(e) == old(self).confirm_admin_outcome(authority)
                    &&& *final(self) == *old(self)
                },
            },
    {
        if find_admin(&self.admins, authority).is_some() {
            return Err(ProtocolError::AccountAlreadyInUse);
        }
        let listed: bool = match &self.protocol {
            Some(p) => key_list_contains(&p.admins, authority),
            None => {
                return Err(ProtocolError::AccountNotFound);
            },
        };
        if !listed {
            return Err(ProtocolError::InvalidAdmin);
        }
        let admin = Admin {
            first_name: String::new(),
            last_name: String::new(),
            id_number: String::new(),
            authority,
        };
        self.admins.push(admin);
        Ok(())
    }

    /// The error `add_registrar` reports, or `None`: no registrar record
    /// may exist for the new key, the protocol must be initialized, and the
    /// caller must be a configured admin.
    pub open spec fn add_registrar_outcome(self, authority: PublicKey, address: PublicKey) -> Option<
        ProtocolError,
    > {
        if has_registrar(self.registrars@, address) {
            Some(ProtocolError::RegistrarAlreadyExists)
        } else if self.protocol is None {
            Some(ProtocolError::AccountNotFound)
        } else if !self.protocol->0.admins@.contains(authority) {
            Some(ProtocolError::InvalidAdmin)
        } else {
            None
        }
    }

    /// An admin registers a new registrar identity. The record starts
    /// inactive and waits for the named key to confirm it.
    pub fn add_registrar(
        &mut self,
        authority: PublicKey,
        address: PublicKey,
        first_name: String,
        last_name: String,
        id_number: String,
    ) -> (r: Result<(), ProtocolError>)
        requires
            old(self).wf(),
        ensures
            final(self).wf(),
            match r {
                Ok(()) => {
                    &&& old(self).add_registrar_outcome(authority, address) is None
                    &&& final(self).registrars@ == old(self).registrars@.push(
                        (Registrar {
                            first_name,
                            last_name,
                            id_number,
                            authority: address,
                            added_by: authority,
                            is_active: false,
                        }),
                    )
                    &&& *final(self) == (Ledger { registrars: final(self).registrars, ..*old(self) })
                },
                Err(e) => {
                    &&& Some(e) == old(self).add_registrar_outcome(authority, address)
                    &&& *final(self) == *old(self)
                },
            },
    {
        if find_registrar(&self.registrars, address).is_some() {
            return Err(ProtocolError::RegistrarAlreadyExists);
        }
        let listed: bool = match &self.protocol {
            Some(p) => key_list_contains(&p.admins, authority),
            None => {
                return Err(ProtocolError::AccountNotFound);
            },
        };
        if !listed {
            return Err(ProtocolError::InvalidAdmin);
        }
        let registrar = Registrar {
            first_name,
            last_name,
            id_number,
            authority: address,
            added_by: authority,
            is_active: false,
        };
        self.registrars.push(registrar);
        Ok(())
    }

    /// The error `confirm_registrar_account` reports, or `None`: the
    /// caller's registrar record must exist, must not be active yet, and
    /// the protocol must be initialized.
    pub open spec fn confirm_registrar_outcome(self, authority: PublicKey) -> Option<
        ProtocolError,
    > {
        if !has_registrar(self.registrars@, authority) {
            Some(ProtocolError::AccountNotFound)
        } else if registrar_at(self.registrars@, authority).is_active {
            Some(ProtocolError::RegistrarAlreadyConfirmed)
        } else if self.protocol is None {
            Some(ProtocolError::AccountNotFound)
        } else {
            None
        }
    }

    /// Self-service activation: the registrar named by an admin confirms
    /// their own record. Activation is terminal — confirming twice fails.
    pub fn confirm_registrar_account(&mut self, authority: PublicKey) -> (r: Result<
        (),
        ProtocolError,
    >)
        requires
            old(self).wf(),
        ensures
            final(self).wf(),
            match r {
                Ok(()) => old(self).confirm_registrar_outcome(authority) is None && final(self).registrars@ == old(self).registrars@.update(
                    registrar_index(old(self).registrars@, authority),
                    (Registrar {
                        is_active: true,
                        ..registrar_at(old(self).registrars@, authority)
                    }),
                ) && *final(self) == (Ledger { registrars: final(self).registrars, ..*old(self) }),
                Err(e) => Some(e) == old(self).confirm_registrar_outcome(authority) && *final(self)
                    == *old(self),
            },
    {
        let i: usize = match find_registrar(&self.registrars, authority) {
            Some(i) => i,
            None => {
                return Err(ProtocolError::AccountNotFound);
            },
        };
        proof {
            lemma_registrar_index(self.registrars@, authority, i as int);
        }
        if self.registrars[i].is_active {
            return Err(ProtocolError::RegistrarAlreadyConfirmed);
        }
        if self.protocol.is_none() {
            return Err(ProtocolError::AccountNotFound);
        }
        let mut rec = self.registrars.remove(i);
        rec.is_active = true;
        self.registrars.insert(i, rec);
        proof {
            assert(self.registrars@ =~= old(self).registrars@.update(
                i as int,
                Registrar { is_active: true, ..registrar_at(old(self).registrars@, authority) },
            ));
        }
        Ok(())
    }

    /// The error `create_user_account` reports, or `None`: neither the
    /// user's own record key (id number under this authority) nor the
    /// global id number claim may be occupied.
    pub open spec fn create_user_outcome(self, authority: PublicKey, id_number: Seq<char>) -> Option<
        ProtocolError,
    > {
        if has_user_identity(self.users@, id_number, authority) {
            Some(ProtocolError::AccountAlreadyInUse)
        } else if has_claim(self.id_claims@, id_number) {
            Some(ProtocolError::DuplicateIdNumber)
        } else if self.next_address == u64::MAX {
            Some(ProtocolError::ArithmeticOverflow)
        } else {
            None
        }
    }

    /// Creates an identity record together with its id number claim. The
    /// two are created atomically; an id number already claimed by anyone
    /// makes the whole operation fail, which keeps id numbers globally
    /// unique.
    pub fn create_user_account(
        &mut self,
        authority: PublicKey,
        first_name: String,
        last_name: String,
        id_number: String,
        phone_number: String,
    ) -> (r: Result<PublicKey, ProtocolError>)
        requires
            old(self).wf(),
        ensures
            final(self).wf(),
            match r {
                Ok(address) => old(self).create_user_outcome(authority, id_number@) is None
                    && address == (PublicKey { value: old(self).next_address }) && final(self).users@ == old(self).users@.push(
                    (UserRecord {
                        address,
                        user: User { first_name, last_name, id_number, phone_number, authority },
                    }),
                ) && final(self).id_claims@ == old(self).id_claims@.push(
                    (IdNumberClaim { id_number, person: address }),
                ) && final(self).next_address == old(self).next_address + 1 && *final(self)
                    == (Ledger {
                    users: final(self).users,
                    id_claims: final(self).id_claims,
                    next_address: final(self).next_address,
                    ..*old(self)
                }),
                Err(e) => Some(e) == old(self).create_user_outcome(authority, id_number@)
                    && *final(self) == *old(self),
            },
    {
        if find_user_identity(&self.users, &id_number, authority).is_some() {
            return Err(ProtocolError::AccountAlreadyInUse);
        }
        if find_claim(&self.id_claims, &id_number).is_some() {
            return Err(ProtocolError::DuplicateIdNumber);
        }
        if self.next_address == u64::MAX {
            return Err(ProtocolError::ArithmeticOverflow);
        }
        let address = PublicKey { value: self.next_address };
        self.next_address = self.next_address + 1;
        let claim = IdNumberClaim { id_number: id_number.clone(), person: address };
        let user = User { first_name, last_name, id_number, phone_number, authority };
        self.users.push(UserRecord { address, user });
        self.id_claims.push(claim);
        proof {
            let users0 = old(self).users@;
            let claims0 = old(self).id_claims@;
            let users1 = self.users@;
            let claims1 = self.id_claims@;
            assert forall|i: int, j: int|
                0 <= i < j < users1.len() implies users1[i].user.id_number@
                != users1[j].user.id_number@ by {
                if j == users0.len() {
                    // The new id number carries no claim yet, while every
                    // prior user's id number does.
                    assert(has_claim(claims0, users0[i].user.id_number@));
                }
            }
            assert forall|i: int|
                0 <= i < users1.len() implies has_claim(claims1, users1[i].user.id_number@) by {
                if i < users0.len() {
                    let k = choose|k: int|
                        0 <= k < claims0.len() && claims0[k].id_number@
                            == users0[i].user.id_number@;
                    assert(claims1[k].id_number@ == users1[i].user.id_number@);
                } else {
                    assert(claims1[claims0.len() as int].id_number@
                        == users1[i].user.id_number@);
                }
            }
        }
        Ok(address)
    }
}

} // verus!
