use vstd::prelude::*;

use crate::errors::ProtocolError;
use crate::keys::{empty_key, PublicKey};
use crate::ledger::{credited, debited, Ledger};
use crate::store::{
    agreement_at, balance_entries_unique, balance_entry_index, balance_of, deposit_at,
    deposit_index, escrow_at, has_agreement, has_balance_entry, has_deed, has_escrow,
    has_index_entry, index_entry_at, lemma_balance_entry_index, BalanceEntry, DepositRecord,
};
use crate::records::EscrowState;

verus! {

// ---------------------------------------------------------------------------
// Conservation of funds
// ---------------------------------------------------------------------------

/// All funds held in wallets.
pub open spec fn sum_balances(s: Seq<BalanceEntry>) -> int
    decreases s.len(),
{
    if s.len() == 0 {
        0
    } else {
        sum_balances(s.drop_last()) + s.last().amount
    }
}

/// All funds held by deposits.
pub open spec fn sum_deposit_funds(s: Seq<DepositRecord>) -> int
    decreases s.len(),
{
    if s.len() == 0 {
        0
    } else {
        sum_deposit_funds(s.drop_last()) + s.last().funds
    }
}

/// Everything in circulation: wallet balances plus what deposits hold.
pub open spec fn total_funds(l: Ledger) -> int {
    sum_balances(l.balances@) + sum_deposit_funds(l.deposits@)
}

proof fn lemma_sum_balances_push(s: Seq<BalanceEntry>, x: BalanceEntry)
    ensures
        sum_balances(s.push(x)) == sum_balances(s) + x.amount,
{
    assert(s.push(x).drop_last() =~= s);
}

proof fn lemma_sum_balances_update(s: Seq<BalanceEntry>, i: int, x: BalanceEntry)
    requires
        0 <= i < s.len(),
    ensures
        sum_balances(s.update(i, x)) == sum_balances(s) - s[i].amount + x.amount,
    decreases s.len(),
{
    if i == s.len() - 1 {
        assert(s.update(i, x).drop_last() =~= s.drop_last());
    } else {
        assert(s.update(i, x).drop_last() =~= s.drop_last().update(i, x));
        lemma_sum_balances_update(s.drop_last(), i, x);
    }
}

proof fn lemma_sum_deposit_funds_push(s: Seq<DepositRecord>, x: DepositRecord)
    ensures
        sum_deposit_funds(s.push(x)) == sum_deposit_funds(s) + x.funds,
{
    assert(s.push(x).drop_last() =~= s);
}

proof fn lemma_sum_deposit_funds_update(s: Seq<DepositRecord>, i: int, x: DepositRecord)
    requires
        0 <= i < s.len(),
    ensures
        sum_deposit_funds(s.update(i, x)) == sum_deposit_funds(s) - s[i].funds + x.funds,
    decreases s.len(),
{
    if i == s.len() - 1 {
        assert(s.update(i, x).drop_last() =~= s.drop_last());
    } else {
        assert(s.update(i, x).drop_last() =~= s.drop_last().update(i, x));
        lemma_sum_deposit_funds_update(s.drop_last(), i, x);
    }
}

/// Debiting a wallet takes exactly the debited amount out of the total.
pub proof fn lemma_debited_sum(s: Seq<BalanceEntry>, k: PublicKey, amount: u64)
    requires
        balance_entries_unique(s),
        amount <= balance_of(s, k),
    ensures
        sum_balances(debited(s, k, amount)) == sum_balances(s) - amount,
{
    if has_balance_entry(s, k) {
        let i = balance_entry_index(s, k);
        assert(0 <= i < s.len() && s[i].owner == k);
        lemma_balance_entry_index(s, k, i);
        lemma_sum_balances_update(
            s,
            i,
            BalanceEntry { owner: k, amount: (balance_of(s, k) - amount) as u64 },
        );
    }
}

/// Crediting a wallet adds exactly the credited amount to the total.
pub proof fn lemma_credited_sum(s: Seq<BalanceEntry>, k: PublicKey, amount: u64)
    requires
        balance_entries_unique(s),
        balance_of(s, k) + amount <= u64::MAX,
    ensures
        sum_balances(credited(s, k, amount)) == sum_balances(s) + amount,
{
    if has_balance_entry(s, k) {
        let i = balance_entry_index(s, k);
        assert(0 <= i < s.len() && s[i].owner == k);
        lemma_balance_entry_index(s, k, i);
        lemma_sum_balances_update(
            s,
            i,
            BalanceEntry { owner: k, amount: (balance_of(s, k) + amount) as u64 },
        );
    } else {
        lemma_sum_balances_push(s, BalanceEntry { owner: k, amount });
    }
}

/// A successful deposit moves funds, it neither creates nor destroys
/// them: the buyer's wallet loses exactly what the new deposit record
/// holds, so the funds in circulation stay the same. The hypotheses are
/// what `deposit_payment_to_escrow` ensures of its caller's ledger.
pub proof fn lemma_deposit_preserves_total_funds(
    pre: Ledger,
    post: Ledger,
    buyer_wallet: PublicKey,
    rec: DepositRecord,
)
    requires
        pre.wf(),
        rec.funds <= balance_of(pre.balances@, buyer_wallet),
        post.balances@ == debited(pre.balances@, buyer_wallet, rec.funds),
        post.deposits@ == pre.deposits@.push(rec),
    ensures
        total_funds(post) == total_funds(pre),
{
    lemma_debited_sum(pre.balances@, buyer_wallet, rec.funds);
    lemma_sum_deposit_funds_push(pre.deposits@, rec);
}

/// A successful settlement moves funds, it neither creates nor destroys
/// them: the deposit hands over exactly its recorded amount and the
/// seller's wallet gains the same, so the funds in circulation stay the
/// same. The hypotheses are what `authorize_escrow` ensures of its
/// caller's ledger.
pub proof fn lemma_settlement_preserves_total_funds(
    pre: Ledger,
    post: Ledger,
    escrow: PublicKey,
    seller_wallet: PublicKey,
)
    requires
        pre.wf(),
        crate::store::has_deposit(pre.deposits@, escrow),
        deposit_at(pre.deposits@, escrow).deposit.amount <= deposit_at(
            pre.deposits@,
            escrow,
        ).funds,
        balance_of(pre.balances@, seller_wallet) + deposit_at(
            pre.deposits@,
            escrow,
        ).deposit.amount <= u64::MAX,
        post.balances@ == credited(
            pre.balances@,
            seller_wallet,
            deposit_at(pre.deposits@, escrow).deposit.amount,
        ),
        post.deposits@ == pre.deposits@.update(
            deposit_index(pre.deposits@, escrow),
            (DepositRecord {
                funds: (deposit_at(pre.deposits@, escrow).funds - deposit_at(
                    pre.deposits@,
                    escrow,
                ).deposit.amount) as u64,
                ..deposit_at(pre.deposits@, escrow)
            }),
        ),
    ensures
        total_funds(post) == total_funds(pre),
{
    let amount = deposit_at(pre.deposits@, escrow).deposit.amount;
    let i = deposit_index(pre.deposits@, escrow);
    assert(0 <= i < pre.deposits@.len() && pre.deposits@[i].deposit.escrow == escrow);
    lemma_credited_sum(pre.balances@, seller_wallet, amount);
    lemma_sum_deposit_funds_update(
        pre.deposits@,
        i,
        DepositRecord {
            funds: (deposit_at(pre.deposits@, escrow).funds - amount) as u64,
            ..deposit_at(pre.deposits@, escrow)
        },
    );
}

/// At most one agreement index entry exists per title deed: two entries
/// for the same deed are the same entry. The index is therefore a
/// function from deed to live agreement, and at most one agreement can be
/// indexed for a title at any time.
pub proof fn lemma_one_index_entry_per_title(l: Ledger, i: int, j: int)
    requires
        l.wf(),
        0 <= i < l.agreement_indices@.len(),
        0 <= j < l.agreement_indices@.len(),
        l.agreement_indices@[i].title_deed == l.agreement_indices@[j].title_deed,
    ensures
        i == j,
{
    if i < j {
        assert(l.agreement_indices@[i].title_deed != l.agreement_indices@[j].title_deed);
    }
    if j < i {
        assert(l.agreement_indices@[j].title_deed != l.agreement_indices@[i].title_deed);
    }
}

/// While a live agreement is indexed for a deed, no draft on that deed
/// can succeed — whoever tries, whatever buyer and price they name.
pub proof fn lemma_no_second_agreement(
    l: Ledger,
    authority: PublicKey,
    title_deed: PublicKey,
    seller: PublicKey,
    buyer: PublicKey,
    price: u64,
)
    requires
        l.wf(),
        has_index_entry(l.agreement_indices@, title_deed),
        index_entry_at(l.agreement_indices@, title_deed).agreement != empty_key(),
    ensures
        l.make_agreement_outcome(authority, title_deed, seller, buyer, price) is Some,
{
}

/// Only the buyer named in an agreement can sign it. Any other caller
/// fails; when the caller presents the agreement's own deed, the failure
/// is precisely an authorization error.
pub proof fn lemma_only_buyer_can_sign(
    l: Ledger,
    authority: PublicKey,
    agreement: PublicKey,
    title_deed: PublicKey,
    price: u64,
)
    requires
        l.wf(),
        has_agreement(l.agreements@, agreement),
        agreement_at(l.agreements@, agreement).agreement.buyer.authority != authority,
    ensures
        l.sign_agreement_outcome(authority, agreement, title_deed, price) is Some,
        has_deed(l.title_deeds@, title_deed) && agreement_at(
            l.agreements@,
            agreement,
        ).agreement.title_deed == title_deed ==> l.sign_agreement_outcome(
            authority,
            agreement,
            title_deed,
            price,
        ) == Some(ProtocolError::Unauthorized),
{
}

/// An escrow can only be created for a signed agreement: while the
/// agreement carries no buyer confirmation, escrow creation fails.
pub proof fn lemma_escrow_requires_signature(
    l: Ledger,
    authority: PublicKey,
    agreement: PublicKey,
    title_deed: PublicKey,
    seller: PublicKey,
    buyer: PublicKey,
)
    requires
        l.wf(),
        has_agreement(l.agreements@, agreement),
        agreement_at(l.agreements@, agreement).agreement.buyer_confirmation is None,
    ensures
        l.create_escrow_outcome(authority, agreement, title_deed, seller, buyer) is Some,
{
}

/// A payment can enter an escrow only while the escrow waits in
/// `TitleDeposited`. In particular an escrow that already received its
/// payment, or completed, can never accept another one.
pub proof fn lemma_deposit_only_when_title_deposited(
    l: Ledger,
    authority: PublicKey,
    escrow: PublicKey,
    buyer: PublicKey,
    amount: u64,
)
    requires
        l.wf(),
        has_escrow(l.escrows@, escrow),
        escrow_at(l.escrows@, escrow).escrow.state != EscrowState::TitleDeposited,
    ensures
        l.deposit_payment_outcome(authority, escrow, buyer, amount) is Some,
{
}

/// A deposit must match the agreed price exactly: any other amount fails,
/// whatever else holds.
pub proof fn lemma_deposit_requires_exact_price(
    l: Ledger,
    authority: PublicKey,
    escrow: PublicKey,
    buyer: PublicKey,
    amount: u64,
)
    requires
        l.wf(),
        has_escrow(l.escrows@, escrow),
        has_agreement(l.agreements@, escrow_at(l.escrows@, escrow).escrow.agreement),
        amount != agreement_at(
            l.agreements@,
            escrow_at(l.escrows@, escrow).escrow.agreement,
        ).agreement.price,
    ensures
        l.deposit_payment_outcome(authority, escrow, buyer, amount) is Some,
{
}

/// Settlement fires at most once per escrow: it requires the
/// `PaymentDeposited` state, and a successful settlement leaves the
/// escrow `Completed`, so authorizing the same escrow a second time
/// fails — by design there is no way back.
pub proof fn lemma_settlement_single_shot(
    l: Ledger,
    authority: PublicKey,
    escrow: PublicKey,
    seller: PublicKey,
    buyer: PublicKey,
    seller_authority: PublicKey,
)
    requires
        l.wf(),
        has_escrow(l.escrows@, escrow),
        escrow_at(l.escrows@, escrow).escrow.state != EscrowState::PaymentDeposited,
    ensures
        l.authorize_escrow_outcome(authority, escrow, seller, buyer, seller_authority) is Some,
{
}

/// At most one escrow exists per agreement: two escrow records for the
/// same agreement are the same record, so a sale cannot be settled along
/// two different escrows.
pub proof fn lemma_one_escrow_per_agreement(l: Ledger, i: int, j: int)
    requires
        l.wf(),
        0 <= i < l.escrows@.len(),
        0 <= j < l.escrows@.len(),
        l.escrows@[i].escrow.agreement == l.escrows@[j].escrow.agreement,
    ensures
        i == j,
{
    if i < j {
        assert(l.escrows@[i].escrow.agreement != l.escrows@[j].escrow.agreement);
    }
    if j < i {
        assert(l.escrows@[j].escrow.agreement != l.escrows@[i].escrow.agreement);
    }
}

/// Id numbers are globally unique: two user records carrying the same id
/// number are the same record. The claim records, created atomically with
/// each user, enforce this.
pub proof fn lemma_id_numbers_globally_unique(l: Ledger, i: int, j: int)
    requires
        l.wf(),
        0 <= i < l.users@.len(),
        0 <= j < l.users@.len(),
        l.users@[i].user.id_number@ == l.users@[j].user.id_number@,
    ensures
        i == j,
{
    if i < j {
        assert(l.users@[i].user.id_number@ != l.users@[j].user.id_number@);
    }
    if j < i {
        assert(l.users@[j].user.id_number@ != l.users@[i].user.id_number@);
    }
}

/// An unlisted deed cannot be settled: settlement demands a listing by
/// the very seller the deed records as owner.
pub proof fn lemma_settlement_requires_listing(
    l: Ledger,
    authority: PublicKey,
    escrow: PublicKey,
    seller: PublicKey,
    buyer: PublicKey,
    seller_authority: PublicKey,
)
    requires
        l.wf(),
        has_escrow(l.escrows@, escrow),
        has_deed(l.title_deeds@, escrow_at(l.escrows@, escrow).escrow.title_deed),
        !crate::store::has_listing(
            l.listings@,
            crate::store::user_at(l.users@, seller).user.authority,
            escrow_at(l.escrows@, escrow).escrow.title_deed,
        ),
    ensures
        l.authorize_escrow_outcome(authority, escrow, seller, buyer, seller_authority) is Some,
{
}

} // verus!
