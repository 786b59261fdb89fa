//! A snapshot of the accounts that one operation touches, and the checked
//! balance movement that terminal transitions perform on it.
use vstd::prelude::*;

use crate::error::EscrowError;

verus! {

/// One account as the ledger hands it to an operation: its address, whether
/// it signed the invocation, its balance and its stored bytes.
#[derive(Debug, Clone, PartialEq, Eq)]
pub struct AccountState {
    pub key: [u8; 32],
    pub is_signer: bool,
    pub lamports: u64,
    pub data: Vec<u8>,
}

/// Model of an account.
pub struct AccountView {
    pub key: Seq<u8>,
    pub is_signer: bool,
    pub lamports: u64,
    pub data: Seq<u8>,
}

impl View for AccountState {
    type V = AccountView;

    open spec fn view(&self) -> AccountView {
        AccountView {
            key: self.key@,
            is_signer: self.is_signer,
            lamports: self.lamports,
            data: self.data@,
        }
    }
}

/// Every address in a snapshot model is 32 bytes long, as it is for every
/// snapshot of `AccountState`s.
pub open spec fn keys_wf(a: Seq<AccountView>) -> bool {
    forall|i: int| 0 <= i < a.len() ==> #[trigger] a[i].key.len() == 32
}

pub open spec fn ledger(a: Seq<AccountState>) -> Seq<AccountView> {
    a.map_values(|x: AccountState| x@)
}

/// Sum of the balances of all accounts in a snapshot.
pub open spec fn total_lamports(a: Seq<AccountView>) -> int
    decreases a.len(),
{
    if a.len() == 0 {
        0
    } else {
        total_lamports(a.drop_last()) + a.last().lamports
    }
}

/// What an operation did to a snapshot, measured against its model: success
/// leaves the model's accounts, failure leaves every account untouched.
pub open spec fn applied(
    r: Result<(), EscrowError>,
    before: Seq<AccountView>,
    after: Seq<AccountView>,
    model: Result<Seq<AccountView>, EscrowError>,
) -> bool {
    match model {
        Ok(next) => r is Ok && after == next,
        Err(e) => r == Err::<(), EscrowError>(e) && after == before,
    }
}

pub open spec fn with_lamports(v: AccountView, lamports: u64) -> AccountView {
    AccountView { lamports, ..v }
}

/// Moving `amount` from account `from` to account `to`: `ArithmeticFault`
/// when the credit overflows or the debit exceeds the balance.
pub open spec fn move_model(a: Seq<AccountView>, from: int, to: int, amount: u64) -> Result<
    Seq<AccountView>,
    EscrowError,
> {
    if a[to].lamports + amount > u64::MAX || a[from].lamports < amount {
        Err(EscrowError::ArithmeticFault)
    } else {
        Ok(
            a.update(from, with_lamports(a[from], (a[from].lamports - amount) as u64)).update(
                to,
                with_lamports(a[to], (a[to].lamports + amount) as u64),
            ),
        )
    }
}

/// Replacing one account changes the total by the change of its balance.
pub proof fn lemma_total_update(a: Seq<AccountView>, i: int, v: AccountView)
    requires
        0 <= i < a.len(),
    ensures
        total_lamports(a.update(i, v)) == total_lamports(a) - a[i].lamports + v.lamports,
    decreases a.len(),
{
    let b = a.update(i, v);
    if i == a.len() - 1 {
        assert(b.drop_last() =~= a.drop_last());
    } else {
        lemma_total_update(a.drop_last(), i, v);
        assert(b.drop_last() =~= a.drop_last().update(i, v));
    }
}

/// A balance movement neither creates nor destroys funds.
pub proof fn lemma_move_conserves(a: Seq<AccountView>, from: int, to: int, amount: u64)
    requires
        0 <= from < a.len(),
        0 <= to < a.len(),
        from != to,
        move_model(a, from, to, amount) is Ok,
    ensures
        total_lamports(move_model(a, from, to, amount)->Ok_0) == total_lamports(a),
{
    let a1 = a.update(from, with_lamports(a[from], (a[from].lamports - amount) as u64));
    lemma_total_update(a, from, with_lamports(a[from], (a[from].lamports - amount) as u64));
    lemma_total_update(a1, to, with_lamports(a[to], (a[to].lamports + amount) as u64));
}

/// Debits `from` and credits `to` by `amount` as one step, with checked
/// arithmetic on both legs; on failure no balance changes.
pub fn move_balance(accounts: &mut Vec<AccountState>, from: usize, to: usize, amount: u64) -> (r:
    Result<(), EscrowError>)
    requires
        from < old(accounts)@.len(),
        to < old(accounts)@.len(),
        from != to,
    ensures
        applied(
            r,
            ledger(old(accounts)@),
            ledger(final(accounts)@),
            move_model(ledger(old(accounts)@), from as int, to as int, amount),
        ),
{
    let credited = match accounts[to].lamports.checked_add(amount) {
        Some(v) => v,
        None => return Err(EscrowError::ArithmeticFault),
    };
    let debited = match accounts[from].lamports.checked_sub(amount) {
        Some(v) => v,
        None => return Err(EscrowError::ArithmeticFault),
    };
    let ghost a = ledger(accounts@);
    accounts[from].lamports = debited;
    accounts[to].lamports = credited;
    assert(ledger(accounts@) =~= move_model(a, from as int, to as int, amount)->Ok_0);
    Ok(())
}

/// The accounts at positions `sel` of the ledger `w`, in that order.
pub open spec fn select(w: Seq<AccountView>, sel: Seq<int>) -> Seq<AccountView> {
    sel.map_values(|i: int| w[i])
}

/// Positions that lie in a ledger of `n` accounts and name no account twice.
pub open spec fn distinct_positions(sel: Seq<int>, n: int) -> bool {
    &&& forall|i: int| 0 <= i < sel.len() ==> 0 <= #[trigger] sel[i] < n
    &&& forall|i: int, j: int| 0 <= i < j < sel.len() ==> sel[i] != sel[j]
}

/// The ledger `w` with the accounts at positions `sel` replaced by `v`.
pub open spec fn write_back(w: Seq<AccountView>, sel: Seq<int>, v: Seq<AccountView>) -> Seq<
    AccountView,
>
    decreases sel.len(),
{
    if sel.len() == 0 || v.len() == 0 {
        w
    } else {
        write_back(w, sel.drop_last(), v.drop_last()).update(sel.last(), v.last())
    }
}

/// Writing back a snapshot changes the ledger's total by what the snapshot's
/// total changed.
pub proof fn lemma_write_back_total(w: Seq<AccountView>, sel: Seq<int>, v: Seq<AccountView>)
    requires
        distinct_positions(sel, w.len() as int),
        v.len() == sel.len(),
    ensures
        write_back(w, sel, v).len() == w.len(),
        forall|j: int| 0 <= j < w.len() && !sel.contains(j) ==> #[trigger] write_back(w, sel, v)[j] == w[j],
        forall|i: int| 0 <= i < sel.len() ==> #[trigger] write_back(w, sel, v)[sel[i]] == v[i],
        total_lamports(write_back(w, sel, v)) == total_lamports(w) - total_lamports(select(w, sel))
            + total_lamports(v),
    decreases sel.len(),
{
    if sel.len() == 0 {
        assert(select(w, sel) =~= Seq::<AccountView>::empty());
        assert(v =~= Seq::<AccountView>::empty());
    } else {
        let s0 = sel.drop_last();
        let v0 = v.drop_last();
        lemma_write_back_total(w, s0, v0);
        let prev = write_back(w, s0, v0);
        let last = sel.last();
        assert(!s0.contains(last)) by {
            if s0.contains(last) {
                let i = choose|i: int| 0 <= i < s0.len() && s0[i] == last;
                assert(sel[i] == sel[sel.len() - 1]);
            }
        }
        assert(prev[last] == w[last]);
        lemma_total_update(prev, last, v.last());
        assert(select(w, sel).drop_last() =~= select(w, s0));
        assert forall|j: int| 0 <= j < w.len() && !sel.contains(j) implies #[trigger] write_back(
            w,
            sel,
            v,
        )[j] == w[j] by {
            if s0.contains(j) {
                let i = choose|i: int| 0 <= i < s0.len() && s0[i] == j;
                assert(sel[i] == j);
            }
        }
        assert forall|i: int| 0 <= i < sel.len() implies #[trigger] write_back(w, sel, v)[sel[i]]
            == v[i] by {
            if i < sel.len() - 1 {
                assert(s0[i] == sel[i]);
                assert(v0[i] == v[i]);
                assert(sel[i] != last);
            }
        }
    }
}

} // verus!
