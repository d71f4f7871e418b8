use landlocked::errors::ProtocolError;
use landlocked::keys::PublicKey;
use landlocked::ledger::Ledger;
use landlocked::records::EscrowState;

const ADMIN: u64 = 1;
const REGISTRAR: u64 = 2;
const SELLER: u64 = 10;
const BUYER: u64 = 20;
const OTHER: u64 = 30;
const PRICE: u64 = 1000;

fn key(v: u64) -> PublicKey {
    PublicKey::new(v)
}

/// A ledger with an initialized protocol, a confirmed admin and an active
/// registrar.
fn ledger_with_registrar() -> Ledger {
    let mut ledger = Ledger::new();
    ledger.initialize(key(ADMIN), vec![key(ADMIN)]).unwrap();
    ledger.confirm_admin_account(key(ADMIN)).unwrap();
    ledger
        .add_registrar(
            key(ADMIN),
            key(REGISTRAR),
            "Rhoda".to_string(),
            "Wanjiru".to_string(),
            "REG-001".to_string(),
        )
        .unwrap();
    ledger.confirm_registrar_account(key(REGISTRAR)).unwrap();
    ledger
}

struct Parties {
    seller_user: PublicKey,
    buyer_user: PublicKey,
    deed: PublicKey,
}

/// Registers seller and buyer identities and a listed deed "T-001" owned
/// by the seller, searched by nobody yet.
fn listed_deed(ledger: &mut Ledger) -> Parties {
    let seller_user = ledger
        .create_user_account(
            key(SELLER),
            "Amani".to_string(),
            "Odhiambo".to_string(),
            "ID-100".to_string(),
            "0700000001".to_string(),
        )
        .unwrap();
    let buyer_user = ledger
        .create_user_account(
            key(BUYER),
            "Baraka".to_string(),
            "Mutiso".to_string(),
            "ID-200".to_string(),
            "0700000002".to_string(),
        )
        .unwrap();
    let deed = ledger
        .assign_title_deed_to_owner(
            key(REGISTRAR),
            key(SELLER),
            seller_user,
            "T-001".to_string(),
            "Nairobi".to_string(),
            250,
            "Nairobi Lands Office".to_string(),
            77,
            100,
        )
        .unwrap();
    ledger
        .mark_title_for_sale(key(SELLER), deed, seller_user, PRICE, 110)
        .unwrap();
    Parties { seller_user, buyer_user, deed }
}

/// Runs the flow up to a signed agreement: search by the buyer, draft by
/// the seller, signature by the buyer. Returns the agreement address.
fn signed_agreement(ledger: &mut Ledger, p: &Parties) -> PublicKey {
    ledger
        .search_title_deed_by_number(key(BUYER), p.deed, "T-001".to_string(), p.buyer_user)
        .unwrap();
    let agreement = ledger
        .make_agreement(key(SELLER), p.deed, p.seller_user, p.buyer_user, PRICE, 120)
        .unwrap();
    ledger
        .sign_agreement(key(BUYER), agreement, p.deed, PRICE, 130)
        .unwrap();
    agreement
}

#[test]
fn end_to_end_settlement() {
    let mut ledger = ledger_with_registrar();
    let p = listed_deed(&mut ledger);

    let deed_rec = ledger.get_title_deed(p.deed).unwrap();
    assert!(deed_rec.deed.is_for_sale);
    assert_eq!(deed_rec.deed.authority, key(SELLER));
    assert_eq!(deed_rec.deed.owner.authority, key(SELLER));
    assert_eq!(deed_rec.deed.title_number, "T-001");

    // The buyer searches: the lookup records them as latest searcher.
    ledger
        .search_title_deed_by_number(key(BUYER), p.deed, "T-001".to_string(), p.buyer_user)
        .unwrap();
    let lookup = ledger.get_lookup(&"T-001".to_string()).unwrap();
    assert_eq!(lookup.searched_by, key(BUYER));
    assert_eq!(lookup.title_deed, p.deed);

    // The seller drafts; the buyer signs.
    let agreement = ledger
        .make_agreement(key(SELLER), p.deed, p.seller_user, p.buyer_user, PRICE, 120)
        .unwrap();
    let agr = ledger.get_agreement(agreement).unwrap();
    assert_eq!(agr.agreement.price, PRICE);
    assert_eq!(agr.agreement.buyer_confirmation, None);
    ledger
        .sign_agreement(key(BUYER), agreement, p.deed, PRICE, 130)
        .unwrap();
    let agr = ledger.get_agreement(agreement).unwrap();
    assert_eq!(agr.agreement.buyer_confirmation, Some(key(BUYER)));
    assert_eq!(agr.agreement.buyer_confirmed_at, Some(130));

    // The seller moves the title into escrow: custody leaves the seller.
    let escrow = ledger
        .create_escrow(key(SELLER), agreement, p.deed, p.seller_user, p.buyer_user, 140)
        .unwrap();
    let deed_rec = ledger.get_title_deed(p.deed).unwrap();
    assert_eq!(deed_rec.deed.authority, escrow);
    let esc = ledger.get_escrow(escrow).unwrap();
    assert_eq!(esc.escrow.state, EscrowState::TitleDeposited);

    // The buyer deposits the exact price: funds leave the buyer's wallet.
    ledger.fund_wallet(key(BUYER), PRICE).unwrap();
    ledger
        .deposit_payment_to_escrow(key(BUYER), escrow, p.buyer_user, PRICE, 150)
        .unwrap();
    assert_eq!(ledger.balance_of(key(BUYER)), 0);
    let esc = ledger.get_escrow(escrow).unwrap();
    assert_eq!(esc.escrow.state, EscrowState::PaymentDeposited);

    // The registrar authorizes: funds reach the seller, the deed's owner
    // and authority become the buyer, the sale flag is cleared.
    ledger
        .authorize_escrow(key(REGISTRAR), escrow, p.seller_user, p.buyer_user, key(SELLER), 160)
        .unwrap();
    assert_eq!(ledger.balance_of(key(SELLER)), PRICE);
    assert_eq!(ledger.balance_of(key(BUYER)), 0);
    let deed_rec = ledger.get_title_deed(p.deed).unwrap();
    assert_eq!(deed_rec.deed.authority, key(BUYER));
    assert_eq!(deed_rec.deed.owner.authority, key(BUYER));
    assert_eq!(deed_rec.deed.owner.first_name, "Baraka");
    assert!(!deed_rec.deed.is_for_sale);
    let esc = ledger.get_escrow(escrow).unwrap();
    assert_eq!(esc.escrow.state, EscrowState::Completed);
    assert_eq!(esc.escrow.completed_at, Some(160));
}

#[test]
fn second_draft_while_first_indexed_fails() {
    let mut ledger = ledger_with_registrar();
    let p = listed_deed(&mut ledger);
    ledger
        .search_title_deed_by_number(key(BUYER), p.deed, "T-001".to_string(), p.buyer_user)
        .unwrap();
    ledger
        .make_agreement(key(SELLER), p.deed, p.seller_user, p.buyer_user, PRICE, 120)
        .unwrap();
    // A second draft on the same deed, even at another price, is refused
    // while the first agreement is indexed.
    let second = ledger.make_agreement(key(SELLER), p.deed, p.seller_user, p.buyer_user, 900, 121);
    assert_eq!(second, Err(ProtocolError::AgreementAlreadyExists));
}

#[test]
fn cancelled_agreement_frees_the_title() {
    let mut ledger = ledger_with_registrar();
    let p = listed_deed(&mut ledger);
    ledger
        .search_title_deed_by_number(key(BUYER), p.deed, "T-001".to_string(), p.buyer_user)
        .unwrap();
    let agreement = ledger
        .make_agreement(key(SELLER), p.deed, p.seller_user, p.buyer_user, PRICE, 120)
        .unwrap();
    ledger.cancel_agreement(key(BUYER), agreement).unwrap();
    // The index entry went away with the agreement: a fresh draft works.
    let again = ledger.make_agreement(key(SELLER), p.deed, p.seller_user, p.buyer_user, PRICE, 125);
    assert!(again.is_ok());
}

#[test]
fn cancel_by_stranger_fails() {
    let mut ledger = ledger_with_registrar();
    let p = listed_deed(&mut ledger);
    let agreement = signed_agreement(&mut ledger, &p);
    let res = ledger.cancel_agreement(key(OTHER), agreement);
    assert_eq!(res, Err(ProtocolError::Unauthorized));
}

#[test]
fn cancelled_agreement_cannot_enter_escrow() {
    let mut ledger = ledger_with_registrar();
    let p = listed_deed(&mut ledger);
    let agreement = signed_agreement(&mut ledger, &p);
    ledger.cancel_agreement(key(SELLER), agreement).unwrap();
    let res = ledger.create_escrow(key(SELLER), agreement, p.deed, p.seller_user, p.buyer_user, 140);
    assert_eq!(res, Err(ProtocolError::AgreementAlreadyCancelled));
}

#[test]
fn sign_by_non_buyer_fails() {
    let mut ledger = ledger_with_registrar();
    let p = listed_deed(&mut ledger);
    ledger
        .search_title_deed_by_number(key(BUYER), p.deed, "T-001".to_string(), p.buyer_user)
        .unwrap();
    let agreement = ledger
        .make_agreement(key(SELLER), p.deed, p.seller_user, p.buyer_user, PRICE, 120)
        .unwrap();
    let res = ledger.sign_agreement(key(OTHER), agreement, p.deed, PRICE, 130);
    assert_eq!(res, Err(ProtocolError::Unauthorized));
    // The seller cannot sign in the buyer's place either.
    let res = ledger.sign_agreement(key(SELLER), agreement, p.deed, PRICE, 130);
    assert_eq!(res, Err(ProtocolError::Unauthorized));
}

#[test]
fn sign_with_wrong_price_fails() {
    let mut ledger = ledger_with_registrar();
    let p = listed_deed(&mut ledger);
    ledger
        .search_title_deed_by_number(key(BUYER), p.deed, "T-001".to_string(), p.buyer_user)
        .unwrap();
    let agreement = ledger
        .make_agreement(key(SELLER), p.deed, p.seller_user, p.buyer_user, PRICE, 120)
        .unwrap();
    let res = ledger.sign_agreement(key(BUYER), agreement, p.deed, PRICE + 1, 130);
    assert_eq!(res, Err(ProtocolError::InvalidTitleDeed));
}

#[test]
fn escrow_requires_signed_agreement() {
    let mut ledger = ledger_with_registrar();
    let p = listed_deed(&mut ledger);
    ledger
        .search_title_deed_by_number(key(BUYER), p.deed, "T-001".to_string(), p.buyer_user)
        .unwrap();
    let agreement = ledger
        .make_agreement(key(SELLER), p.deed, p.seller_user, p.buyer_user, PRICE, 120)
        .unwrap();
    let res = ledger.create_escrow(key(SELLER), agreement, p.deed, p.seller_user, p.buyer_user, 140);
    assert_eq!(res, Err(ProtocolError::AgreementNotSignedByBuyer));
}

#[test]
fn escrow_by_non_seller_fails() {
    let mut ledger = ledger_with_registrar();
    let p = listed_deed(&mut ledger);
    let agreement = signed_agreement(&mut ledger, &p);
    // The buyer does not hold the deed's authority.
    let res = ledger.create_escrow(key(BUYER), agreement, p.deed, p.seller_user, p.buyer_user, 140);
    assert_eq!(res, Err(ProtocolError::Unauthorized));
}

#[test]
fn escrow_with_wrong_seller_record_fails() {
    let mut ledger = ledger_with_registrar();
    let p = listed_deed(&mut ledger);
    let agreement = signed_agreement(&mut ledger, &p);
    let other_user = ledger
        .create_user_account(
            key(OTHER),
            "Chausiku".to_string(),
            "Njeri".to_string(),
            "ID-300".to_string(),
            "0700000003".to_string(),
        )
        .unwrap();
    // The caller holds the deed but hands in someone else's identity
    // record as seller.
    let res = ledger.create_escrow(key(SELLER), agreement, p.deed, other_user, p.buyer_user, 140);
    assert_eq!(res, Err(ProtocolError::InvalidSeller));
}

#[test]
fn escrow_takes_custody_of_the_deed() {
    let mut ledger = ledger_with_registrar();
    let p = listed_deed(&mut ledger);
    let agreement = signed_agreement(&mut ledger, &p);
    let escrow = ledger
        .create_escrow(key(SELLER), agreement, p.deed, p.seller_user, p.buyer_user, 140)
        .unwrap();
    assert_eq!(ledger.get_title_deed(p.deed).unwrap().deed.authority, escrow);
    // With custody gone, the seller can neither escrow the deed again nor
    // list it.
    let res = ledger.create_escrow(key(SELLER), agreement, p.deed, p.seller_user, p.buyer_user, 141);
    assert_eq!(res, Err(ProtocolError::Unauthorized));
    let res = ledger.mark_title_for_sale(key(SELLER), p.deed, p.seller_user, PRICE, 142);
    assert_eq!(res, Err(ProtocolError::Unauthorized));
}

#[test]
fn deposit_wrong_amount_fails() {
    let mut ledger = ledger_with_registrar();
    let p = listed_deed(&mut ledger);
    let agreement = signed_agreement(&mut ledger, &p);
    let escrow = ledger
        .create_escrow(key(SELLER), agreement, p.deed, p.seller_user, p.buyer_user, 140)
        .unwrap();
    ledger.fund_wallet(key(BUYER), 2 * PRICE).unwrap();
    let res = ledger.deposit_payment_to_escrow(key(BUYER), escrow, p.buyer_user, PRICE - 1, 150);
    assert_eq!(res, Err(ProtocolError::PaymentAmountMismatch));
    let res = ledger.deposit_payment_to_escrow(key(BUYER), escrow, p.buyer_user, PRICE + 1, 150);
    assert_eq!(res, Err(ProtocolError::PaymentAmountMismatch));
    // The escrow still waits for its payment.
    let esc = ledger.get_escrow(escrow).unwrap();
    assert_eq!(esc.escrow.state, EscrowState::TitleDeposited);
}

#[test]
fn deposit_twice_fails() {
    let mut ledger = ledger_with_registrar();
    let p = listed_deed(&mut ledger);
    let agreement = signed_agreement(&mut ledger, &p);
    let escrow = ledger
        .create_escrow(key(SELLER), agreement, p.deed, p.seller_user, p.buyer_user, 140)
        .unwrap();
    ledger.fund_wallet(key(BUYER), 2 * PRICE).unwrap();
    ledger
        .deposit_payment_to_escrow(key(BUYER), escrow, p.buyer_user, PRICE, 150)
        .unwrap();
    let res = ledger.deposit_payment_to_escrow(key(BUYER), escrow, p.buyer_user, PRICE, 151);
    assert_eq!(res, Err(ProtocolError::AccountAlreadyInUse));
    // Only the first deposit took funds.
    assert_eq!(ledger.balance_of(key(BUYER)), PRICE);
}

#[test]
fn deposit_without_funds_fails() {
    let mut ledger = ledger_with_registrar();
    let p = listed_deed(&mut ledger);
    let agreement = signed_agreement(&mut ledger, &p);
    let escrow = ledger
        .create_escrow(key(SELLER), agreement, p.deed, p.seller_user, p.buyer_user, 140)
        .unwrap();
    ledger.fund_wallet(key(BUYER), PRICE - 1).unwrap();
    let res = ledger.deposit_payment_to_escrow(key(BUYER), escrow, p.buyer_user, PRICE, 150);
    assert_eq!(res, Err(ProtocolError::InsufficientFunds));
    assert_eq!(ledger.balance_of(key(BUYER)), PRICE - 1);
}

#[test]
fn deposit_by_non_buyer_fails() {
    let mut ledger = ledger_with_registrar();
    let p = listed_deed(&mut ledger);
    let agreement = signed_agreement(&mut ledger, &p);
    let escrow = ledger
        .create_escrow(key(SELLER), agreement, p.deed, p.seller_user, p.buyer_user, 140)
        .unwrap();
    ledger.fund_wallet(key(SELLER), PRICE).unwrap();
    let res = ledger.deposit_payment_to_escrow(key(SELLER), escrow, p.seller_user, PRICE, 150);
    assert_eq!(res, Err(ProtocolError::Unauthorized));
}

#[test]
fn authorize_twice_fails() {
    let mut ledger = ledger_with_registrar();
    let p = listed_deed(&mut ledger);
    let agreement = signed_agreement(&mut ledger, &p);
    let escrow = ledger
        .create_escrow(key(SELLER), agreement, p.deed, p.seller_user, p.buyer_user, 140)
        .unwrap();
    ledger.fund_wallet(key(BUYER), PRICE).unwrap();
    ledger
        .deposit_payment_to_escrow(key(BUYER), escrow, p.buyer_user, PRICE, 150)
        .unwrap();
    ledger
        .authorize_escrow(key(REGISTRAR), escrow, p.seller_user, p.buyer_user, key(SELLER), 160)
        .unwrap();
    // The escrow is completed: settling it again is impossible.
    let res = ledger.authorize_escrow(
        key(REGISTRAR),
        escrow,
        p.seller_user,
        p.buyer_user,
        key(SELLER),
        161,
    );
    assert_eq!(res, Err(ProtocolError::EscrowNotReadyForPayment));
    // And the funds moved only once.
    assert_eq!(ledger.balance_of(key(SELLER)), PRICE);
}

#[test]
fn authorize_before_payment_fails() {
    let mut ledger = ledger_with_registrar();
    let p = listed_deed(&mut ledger);
    let agreement = signed_agreement(&mut ledger, &p);
    let escrow = ledger
        .create_escrow(key(SELLER), agreement, p.deed, p.seller_user, p.buyer_user, 140)
        .unwrap();
    let res = ledger.authorize_escrow(
        key(REGISTRAR),
        escrow,
        p.seller_user,
        p.buyer_user,
        key(SELLER),
        160,
    );
    assert_eq!(res, Err(ProtocolError::EscrowNotReadyForPayment));
}

#[test]
fn authorize_by_non_registrar_fails() {
    let mut ledger = ledger_with_registrar();
    let p = listed_deed(&mut ledger);
    let agreement = signed_agreement(&mut ledger, &p);
    let escrow = ledger
        .create_escrow(key(SELLER), agreement, p.deed, p.seller_user, p.buyer_user, 140)
        .unwrap();
    ledger.fund_wallet(key(BUYER), PRICE).unwrap();
    ledger
        .deposit_payment_to_escrow(key(BUYER), escrow, p.buyer_user, PRICE, 150)
        .unwrap();
    let res = ledger.authorize_escrow(key(OTHER), escrow, p.seller_user, p.buyer_user, key(SELLER), 160);
    assert_eq!(res, Err(ProtocolError::AccountNotFound));
}

#[test]
fn draft_without_any_search_fails() {
    let mut ledger = ledger_with_registrar();
    let p = listed_deed(&mut ledger);
    // Nobody searched: the lookup record does not exist yet.
    let res = ledger.make_agreement(key(SELLER), p.deed, p.seller_user, p.buyer_user, PRICE, 120);
    assert_eq!(res, Err(ProtocolError::AccountNotFound));
}

#[test]
fn draft_naming_buyer_who_did_not_search_fails() {
    let mut ledger = ledger_with_registrar();
    let p = listed_deed(&mut ledger);
    let other_user = ledger
        .create_user_account(
            key(OTHER),
            "Chausiku".to_string(),
            "Njeri".to_string(),
            "ID-300".to_string(),
            "0700000003".to_string(),
        )
        .unwrap();
    // Someone else searched last, so the intended buyer is not the
    // recorded searcher.
    ledger
        .search_title_deed_by_number(key(OTHER), p.deed, "T-001".to_string(), other_user)
        .unwrap();
    let res = ledger.make_agreement(key(SELLER), p.deed, p.seller_user, p.buyer_user, PRICE, 120);
    assert_eq!(res, Err(ProtocolError::Unauthorized));
}

#[test]
fn later_search_overwrites_the_searcher() {
    let mut ledger = ledger_with_registrar();
    let p = listed_deed(&mut ledger);
    let other_user = ledger
        .create_user_account(
            key(OTHER),
            "Chausiku".to_string(),
            "Njeri".to_string(),
            "ID-300".to_string(),
            "0700000003".to_string(),
        )
        .unwrap();
    ledger
        .search_title_deed_by_number(key(BUYER), p.deed, "T-001".to_string(), p.buyer_user)
        .unwrap();
    ledger
        .search_title_deed_by_number(key(OTHER), p.deed, "T-001".to_string(), other_user)
        .unwrap();
    // Last search wins: the first buyer is no longer the recorded searcher.
    assert_eq!(ledger.get_lookup(&"T-001".to_string()).unwrap().searched_by, key(OTHER));
    let res = ledger.make_agreement(key(SELLER), p.deed, p.seller_user, p.buyer_user, PRICE, 120);
    assert_eq!(res, Err(ProtocolError::Unauthorized));
}

#[test]
fn search_with_wrong_title_number_fails() {
    let mut ledger = ledger_with_registrar();
    let p = listed_deed(&mut ledger);
    let res =
        ledger.search_title_deed_by_number(key(BUYER), p.deed, "T-999".to_string(), p.buyer_user);
    assert_eq!(res, Err(ProtocolError::TitleAuthorityMismatch));
}

#[test]
fn draft_on_deed_not_bound_to_lookup_fails() {
    let mut ledger = ledger_with_registrar();
    let p = listed_deed(&mut ledger);
    // A second parcel is registered under the same title number for
    // another owner, and that owner lists it.
    let other_user = ledger
        .create_user_account(
            key(OTHER),
            "Chausiku".to_string(),
            "Njeri".to_string(),
            "ID-300".to_string(),
            "0700000003".to_string(),
        )
        .unwrap();
    let second_deed = ledger
        .assign_title_deed_to_owner(
            key(REGISTRAR),
            key(OTHER),
            other_user,
            "T-001".to_string(),
            "Mombasa".to_string(),
            400,
            "Mombasa Lands Office".to_string(),
            78,
            100,
        )
        .unwrap();
    ledger
        .mark_title_for_sale(key(OTHER), second_deed, other_user, PRICE, 110)
        .unwrap();
    // The first search bound the lookup to the first deed; drafting on
    // the second deed under the same number is refused.
    ledger
        .search_title_deed_by_number(key(BUYER), p.deed, "T-001".to_string(), p.buyer_user)
        .unwrap();
    let res = ledger.make_agreement(key(OTHER), second_deed, other_user, p.buyer_user, PRICE, 120);
    assert_eq!(res, Err(ProtocolError::TitleNotMarkedForSale));
}

#[test]
fn initialize_rules() {
    let mut ledger = Ledger::new();
    // The payer must appear in the admin list.
    let res = ledger.initialize(key(ADMIN), vec![key(OTHER)]);
    assert_eq!(res, Err(ProtocolError::InvalidAdmin));
    // The list may not be empty.
    let res = ledger.initialize(key(ADMIN), vec![]);
    assert_eq!(res, Err(ProtocolError::InvalidAdmin));
    // The list may not exceed five entries.
    let res = ledger.initialize(
        key(ADMIN),
        vec![key(1), key(2), key(3), key(4), key(5), key(6)],
    );
    assert_eq!(res, Err(ProtocolError::InvalidAdmin));
    // A proper list works once and only once.
    ledger.initialize(key(ADMIN), vec![key(ADMIN)]).unwrap();
    let res = ledger.initialize(key(ADMIN), vec![key(ADMIN)]);
    assert_eq!(res, Err(ProtocolError::AccountAlreadyInUse));
}

#[test]
fn admin_confirmation_rules() {
    let mut ledger = Ledger::new();
    ledger.initialize(key(ADMIN), vec![key(ADMIN)]).unwrap();
    // Only a listed identity can confirm an admin account.
    let res = ledger.confirm_admin_account(key(OTHER));
    assert_eq!(res, Err(ProtocolError::InvalidAdmin));
    ledger.confirm_admin_account(key(ADMIN)).unwrap();
    let res = ledger.confirm_admin_account(key(ADMIN));
    assert_eq!(res, Err(ProtocolError::AccountAlreadyInUse));
}

#[test]
fn registrar_lifecycle_rules() {
    let mut ledger = Ledger::new();
    ledger.initialize(key(ADMIN), vec![key(ADMIN)]).unwrap();
    // Only an admin may add a registrar.
    let res = ledger.add_registrar(
        key(OTHER),
        key(REGISTRAR),
        "Rhoda".to_string(),
        "Wanjiru".to_string(),
        "REG-001".to_string(),
    );
    assert_eq!(res, Err(ProtocolError::InvalidAdmin));
    ledger
        .add_registrar(
            key(ADMIN),
            key(REGISTRAR),
            "Rhoda".to_string(),
            "Wanjiru".to_string(),
            "REG-001".to_string(),
        )
        .unwrap();
    // The same registrar key cannot be added twice.
    let res = ledger.add_registrar(
        key(ADMIN),
        key(REGISTRAR),
        "Rhoda".to_string(),
        "Wanjiru".to_string(),
        "REG-001".to_string(),
    );
    assert_eq!(res, Err(ProtocolError::RegistrarAlreadyExists));
    // A fresh registrar record is inactive.
    assert_eq!(ledger.is_registrar(key(REGISTRAR)), Err(ProtocolError::InvalidRegistrar));
    // Confirmation needs an existing record.
    let res = ledger.confirm_registrar_account(key(OTHER));
    assert_eq!(res, Err(ProtocolError::AccountNotFound));
    ledger.confirm_registrar_account(key(REGISTRAR)).unwrap();
    assert_eq!(ledger.is_registrar(key(REGISTRAR)), Ok(()));
    // Activation is terminal: confirming twice fails.
    let res = ledger.confirm_registrar_account(key(REGISTRAR));
    assert_eq!(res, Err(ProtocolError::RegistrarAlreadyConfirmed));
}

#[test]
fn inactive_registrar_cannot_assign_titles() {
    let mut ledger = Ledger::new();
    ledger.initialize(key(ADMIN), vec![key(ADMIN)]).unwrap();
    ledger
        .add_registrar(
            key(ADMIN),
            key(REGISTRAR),
            "Rhoda".to_string(),
            "Wanjiru".to_string(),
            "REG-001".to_string(),
        )
        .unwrap();
    let owner = ledger
        .create_user_account(
            key(SELLER),
            "Amani".to_string(),
            "Odhiambo".to_string(),
            "ID-100".to_string(),
            "0700000001".to_string(),
        )
        .unwrap();
    let res = ledger.assign_title_deed_to_owner(
        key(REGISTRAR),
        key(SELLER),
        owner,
        "T-001".to_string(),
        "Nairobi".to_string(),
        250,
        "Nairobi Lands Office".to_string(),
        77,
        100,
    );
    assert_eq!(res, Err(ProtocolError::InvalidRegistrar));
}

#[test]
fn one_deed_per_owner_key() {
    let mut ledger = ledger_with_registrar();
    let p = listed_deed(&mut ledger);
    // The deed address derives from the owner key: registering a second
    // deed for the same key is refused by first-writer-wins.
    let res = ledger.assign_title_deed_to_owner(
        key(REGISTRAR),
        key(SELLER),
        p.seller_user,
        "T-002".to_string(),
        "Kisumu".to_string(),
        120,
        "Kisumu Lands Office".to_string(),
        79,
        101,
    );
    assert_eq!(res, Err(ProtocolError::AccountAlreadyInUse));
}

#[test]
fn duplicate_id_number_is_refused() {
    let mut ledger = ledger_with_registrar();
    ledger
        .create_user_account(
            key(SELLER),
            "Amani".to_string(),
            "Odhiambo".to_string(),
            "ID-100".to_string(),
            "0700000001".to_string(),
        )
        .unwrap();
    // Another identity claiming the same id number is refused.
    let res = ledger.create_user_account(
        key(OTHER),
        "Chausiku".to_string(),
        "Njeri".to_string(),
        "ID-100".to_string(),
        "0700000003".to_string(),
    );
    assert_eq!(res, Err(ProtocolError::DuplicateIdNumber));
    // So is the very same identity record a second time.
    let res = ledger.create_user_account(
        key(SELLER),
        "Amani".to_string(),
        "Odhiambo".to_string(),
        "ID-100".to_string(),
        "0700000001".to_string(),
    );
    assert_eq!(res, Err(ProtocolError::AccountAlreadyInUse));
}

#[test]
fn mark_for_sale_rules() {
    let mut ledger = ledger_with_registrar();
    let seller_user = ledger
        .create_user_account(
            key(SELLER),
            "Amani".to_string(),
            "Odhiambo".to_string(),
            "ID-100".to_string(),
            "0700000001".to_string(),
        )
        .unwrap();
    let deed = ledger
        .assign_title_deed_to_owner(
            key(REGISTRAR),
            key(SELLER),
            seller_user,
            "T-001".to_string(),
            "Nairobi".to_string(),
            250,
            "Nairobi Lands Office".to_string(),
            77,
            100,
        )
        .unwrap();
    // Only the deed's authority can list it.
    let res = ledger.mark_title_for_sale(key(OTHER), deed, seller_user, PRICE, 110);
    assert_eq!(res, Err(ProtocolError::Unauthorized));
    ledger
        .mark_title_for_sale(key(SELLER), deed, seller_user, PRICE, 110)
        .unwrap();
    // One listing per seller and deed.
    let res = ledger.mark_title_for_sale(key(SELLER), deed, seller_user, PRICE, 111);
    assert_eq!(res, Err(ProtocolError::AccountAlreadyInUse));
}

#[test]
fn wallet_overflow_is_refused() {
    let mut ledger = Ledger::new();
    ledger.fund_wallet(key(BUYER), u64::MAX).unwrap();
    let res = ledger.fund_wallet(key(BUYER), 1);
    assert_eq!(res, Err(ProtocolError::ArithmeticOverflow));
    assert_eq!(ledger.balance_of(key(BUYER)), u64::MAX);
}
