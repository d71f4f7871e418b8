use vstd::prelude::*;

verus! {

/// The typed failures an operation can surface. Every precondition check is
/// local and immediate: a failing operation commits nothing and reports
/// exactly one of these.
///
/// The variants fall into five kinds: authorization (the caller is not the
/// required role or party), duplicates (a record address is already
/// occupied), failed preconditions (wrong escrow state, unsigned agreement,
/// missing search, mismatched amounts), missing records, and arithmetic
/// overflow or underflow during a value transfer.
#[derive(Clone, Copy, PartialEq, Eq, Structural, Debug)]
pub enum ProtocolError {
    /// The caller is not one of the admins fixed in the protocol state.
    InvalidAdmin,
    /// A registrar record for this key already exists.
    RegistrarAlreadyExists,
    /// The registrar record was already activated.
    RegistrarAlreadyConfirmed,
    /// The caller is not a matching, active registrar.
    InvalidRegistrar,
    /// The id number is already claimed by some person.
    DuplicateIdNumber,
    /// The caller is not the party entitled to perform this action.
    Unauthorized,
    /// The title deed does not match the record it was checked against.
    TitleAuthorityMismatch,
    /// The title deed has no live sale listing that matches.
    TitleNotMarkedForSale,
    /// A live agreement is already indexed for this title deed.
    AgreementAlreadyExists,
    /// The signer is not the buyer named in the agreement.
    InvalidBuyerAuthority,
    /// The agreement record was reclaimed by a cancellation.
    AgreementAlreadyCancelled,
    /// The agreement carries no buyer confirmation yet.
    AgreementNotSignedByBuyer,
    /// The seller handed in does not match the agreement.
    InvalidSeller,
    /// The buyer handed in does not match the agreement.
    InvalidBuyer,
    /// The title deed handed in does not match the agreement.
    InvalidTitleDeed,
    /// The agreement handed in does not match the escrow.
    InvalidAgreement,
    /// The escrow is not in the state this step requires.
    EscrowNotReadyForPayment,
    /// The deposited amount does not equal the agreed price.
    PaymentAmountMismatch,
    /// A referenced record does not exist on the ledger.
    AccountNotFound,
    /// A record with this logical key was already created; the substrate's
    /// first-writer-wins rule refuses a second creation.
    AccountAlreadyInUse,
    /// The paying wallet does not hold the transferred amount.
    InsufficientFunds,
    /// A balance would exceed the largest representable amount.
    ArithmeticOverflow,
    /// A balance would fall below zero.
    ArithmeticUnderflow,
}

} // verus!
