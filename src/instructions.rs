//! The operation handlers. Each takes the snapshot of the accounts that the
//! operation names, in a fixed order, and either applies the operation to it
//! as a whole or leaves it untouched and reports why.
use vstd::prelude::*;

use crate::error::EscrowError;
use crate::ledger::{applied, ledger, move_balance, move_model, AccountState, AccountView};
use crate::machine::{
    allowed_from, authorized, may_act, result_status, timed_out, timeout_reached, transition,
    Operation, Role,
};
use crate::record::{
    decode_model, encode_model, read_pubkey, read_u64, u64_at, with_state_bytes, EscrowRecord,
    RecordModel, Status, ESCROW_SIZE, FLAG_BUYER_ACCEPTED, FLAG_BUYER_DISPUTED,
    FLAG_SELLER_DELIVERED, FLAG_SELLER_DISPUTED, OFF_FLAGS, OFF_STATUS,
};

verus! {

/// The account `v` with the record's status and flag bytes rewritten.
pub open spec fn with_state(v: AccountView, s: Status, flags: u8) -> AccountView {
    AccountView { data: with_state_bytes(v.data, s, flags), ..v }
}

/// Whether the party with address `k` holds a role on record `m` that may
/// perform `op` now.
pub open spec fn acting_allowed(op: Operation, k: Seq<u8>, m: RecordModel, elapsed: bool) -> bool {
    ||| (k == m.buyer && may_act(op, Role::Buyer, m.status, elapsed))
    ||| (k == m.seller && may_act(op, Role::Seller, m.status, elapsed))
    ||| (k == m.arbitrator && may_act(op, Role::Arbitrator, m.status, elapsed))
}

fn keys_equal(a: &[u8; 32], b: &[u8; 32]) -> (r: bool)
    ensures
        r == (a@ == b@),
{
    let mut i: usize = 0;
    while i < 32
        invariant
            0 <= i <= 32,
            a@.len() == 32,
            b@.len() == 32,
            forall|j: int| 0 <= j < i ==> a@[j] == b@[j],
        decreases 32 - i,
    {
        if a[i] != b[i] {
            assert(a@[i as int] != b@[i as int]);
            return false;
        }
        i = i + 1;
    }
    assert(a@ =~= b@);
    true
}

/// The roles that the party with address `k` holds on `rec`, tried in turn.
fn acting_may(op: Operation, k: &[u8; 32], rec: &EscrowRecord, elapsed: bool) -> (r: bool)
    ensures
        r == acting_allowed(op, k@, rec@, elapsed),
{
    (keys_equal(k, &rec.buyer) && authorized(op, Role::Buyer, rec.status, elapsed)) || (
    keys_equal(k, &rec.seller) && authorized(op, Role::Seller, rec.status, elapsed)) || (
    keys_equal(k, &rec.arbitrator) && authorized(op, Role::Arbitrator, rec.status, elapsed))
}

fn set_state(accounts: &mut Vec<AccountState>, i: usize, s: Status, flags: u8)
    requires
        i < ledger(old(accounts)@).len(),
        ledger(old(accounts)@)[i as int].data.len() >= ESCROW_SIZE,
    ensures
        ledger(final(accounts)@) == ledger(old(accounts)@).update(
            i as int,
            with_state(ledger(old(accounts)@)[i as int], s, flags),
        ),
{
    let ghost a = ledger(accounts@);
    assert(a[i as int] == accounts@[i as int]@);
    accounts[i].data[OFF_STATUS] = s.to_byte();
    accounts[i].data[OFF_FLAGS] = flags;
    assert(ledger(accounts@) =~= a.update(i as int, with_state(a[i as int], s, flags)));
}

// ---------------------------------------------------------------------------
// MarkDelivered: accounts [seller, escrow]
// ---------------------------------------------------------------------------

pub open spec fn mark_delivered_model(a: Seq<AccountView>) -> Result<Seq<AccountView>, EscrowError> {
    if a.len() < 2 {
        Err(EscrowError::MalformedInput)
    } else if !a[0].is_signer {
        Err(EscrowError::MissingAuthorization)
    } else {
        match decode_model(a[1].data) {
            None => Err(EscrowError::InvalidRecord),
            Some(m) => if !allowed_from(Operation::MarkDelivered, m.status) {
                Err(EscrowError::InvalidState)
            } else if a[0].key != m.seller {
                Err(EscrowError::InvalidRecord)
            } else {
                Ok(
                    a.update(
                        1,
                        with_state(
                            a[1],
                            result_status(Operation::MarkDelivered, 0),
                            m.flags | FLAG_SELLER_DELIVERED,
                        ),
                    ),
                )
            },
        }
    }
}

/// The seller declares the goods delivered.
pub struct MarkDelivered;

impl MarkDelivered {
    pub fn process(accounts: &mut Vec<AccountState>) -> (r: Result<(), EscrowError>)
        ensures
            applied(
                r,
                ledger(old(accounts)@),
                ledger(final(accounts)@),
                mark_delivered_model(ledger(old(accounts)@)),
            ),
    {
        if accounts.len() < 2 {
            return Err(EscrowError::MalformedInput);
        }
        if !accounts[0].is_signer {
            return Err(EscrowError::MissingAuthorization);
        }
        let rec = EscrowRecord::decode(accounts[1].data.as_slice())?;
        let next = transition(Operation::MarkDelivered, rec.status, 0)?;
        if !keys_equal(&accounts[0].key, &rec.seller) {
            return Err(EscrowError::InvalidRecord);
        }
        set_state(accounts, 1, next, rec.flags | FLAG_SELLER_DELIVERED);
        Ok(())
    }
}

// ---------------------------------------------------------------------------
// Dispute: accounts [authority, escrow]
// ---------------------------------------------------------------------------

pub open spec fn dispute_flag(k: Seq<u8>, m: RecordModel) -> u8 {
    if k == m.buyer {
        FLAG_BUYER_DISPUTED
    } else {
        FLAG_SELLER_DISPUTED
    }
}

pub open spec fn dispute_model(a: Seq<AccountView>) -> Result<Seq<AccountView>, EscrowError> {
    if a.len() < 2 {
        Err(EscrowError::MalformedInput)
    } else if !a[0].is_signer {
        Err(EscrowError::MissingAuthorization)
    } else {
        match decode_model(a[1].data) {
            None => Err(EscrowError::InvalidRecord),
            Some(m) => if !allowed_from(Operation::Dispute, m.status) {
                Err(EscrowError::InvalidState)
            } else if !acting_allowed(Operation::Dispute, a[0].key, m, false) {
                Err(EscrowError::MissingAuthorization)
            } else {
                Ok(
                    a.update(
                        1,
                        with_state(
                            a[1],
                            result_status(Operation::Dispute, 0),
                            m.flags | dispute_flag(a[0].key, m),
                        ),
                    ),
                )
            },
        }
    }
}

/// Buyer or seller halts normal progress; the flag records which one.
pub struct Dispute;

impl Dispute {
    pub fn process(accounts: &mut Vec<AccountState>) -> (r: Result<(), EscrowError>)
        ensures
            applied(
                r,
                ledger(old(accounts)@),
                ledger(final(accounts)@),
                dispute_model(ledger(old(accounts)@)),
            ),
    {
        if accounts.len() < 2 {
            return Err(EscrowError::MalformedInput);
        }
        if !accounts[0].is_signer {
            return Err(EscrowError::MissingAuthorization);
        }
        let rec = EscrowRecord::decode(accounts[1].data.as_slice())?;
        let next = transition(Operation::Dispute, rec.status, 0)?;
        if !acting_may(Operation::Dispute, &accounts[0].key, &rec, false) {
            return Err(EscrowError::MissingAuthorization);
        }
        let flag = if keys_equal(&accounts[0].key, &rec.buyer) {
            FLAG_BUYER_DISPUTED
        } else {
            FLAG_SELLER_DISPUTED
        };
        set_state(accounts, 1, next, rec.flags | flag);
        Ok(())
    }
}

// ---------------------------------------------------------------------------
// AcceptDelivery and Release: accounts [buyer, seller, escrow]
// ---------------------------------------------------------------------------

/// Buyer-signed payout to the seller, shared by AcceptDelivery (which also
/// sets `flag`) and Release.
pub open spec fn payout_model(a: Seq<AccountView>, op: Operation, flag: u8) -> Result<
    Seq<AccountView>,
    EscrowError,
> {
    if a.len() < 3 {
        Err(EscrowError::MalformedInput)
    } else if !a[0].is_signer {
        Err(EscrowError::MissingAuthorization)
    } else {
        match decode_model(a[2].data) {
            None => Err(EscrowError::InvalidRecord),
            Some(m) => if !allowed_from(op, m.status) {
                Err(EscrowError::InvalidState)
            } else if a[0].key != m.buyer || a[1].key != m.seller {
                Err(EscrowError::InvalidRecord)
            } else {
                match move_model(a, 2, 1, m.amount) {
                    Err(e) => Err(e),
                    Ok(b) => Ok(b.update(2, with_state(b[2], result_status(op, 0), m.flags | flag))),
                }
            },
        }
    }
}

pub open spec fn accept_delivery_model(a: Seq<AccountView>) -> Result<Seq<AccountView>, EscrowError> {
    payout_model(a, Operation::AcceptDelivery, FLAG_BUYER_ACCEPTED)
}

pub open spec fn release_model(a: Seq<AccountView>) -> Result<Seq<AccountView>, EscrowError> {
    payout_model(a, Operation::Release, 0)
}

fn payout(accounts: &mut Vec<AccountState>, op: Operation, flag: u8) -> (r: Result<(), EscrowError>)
    ensures
        applied(
            r,
            ledger(old(accounts)@),
            ledger(final(accounts)@),
            payout_model(ledger(old(accounts)@), op, flag),
        ),
{
    if accounts.len() < 3 {
        return Err(EscrowError::MalformedInput);
    }
    if !accounts[0].is_signer {
        return Err(EscrowError::MissingAuthorization);
    }
    let rec = EscrowRecord::decode(accounts[2].data.as_slice())?;
    let next = transition(op, rec.status, 0)?;
    if !keys_equal(&accounts[0].key, &rec.buyer) || !keys_equal(&accounts[1].key, &rec.seller) {
        return Err(EscrowError::InvalidRecord);
    }
    move_balance(accounts, 2, 1, rec.amount)?;
    set_state(accounts, 2, next, rec.flags | flag);
    Ok(())
}

/// The buyer accepts the delivery: funds go to the seller.
pub struct AcceptDelivery;

impl AcceptDelivery {
    pub fn process(accounts: &mut Vec<AccountState>) -> (r: Result<(), EscrowError>)
        ensures
            applied(
                r,
                ledger(old(accounts)@),
                ledger(final(accounts)@),
                accept_delivery_model(ledger(old(accounts)@)),
            ),
    {
        payout(accounts, Operation::AcceptDelivery, FLAG_BUYER_ACCEPTED)
    }
}

/// The buyer releases the funds to the seller without a delivery claim.
pub struct ReleaseV2;

impl ReleaseV2 {
    pub fn process(accounts: &mut Vec<AccountState>) -> (r: Result<(), EscrowError>)
        ensures
            applied(
                r,
                ledger(old(accounts)@),
                ledger(final(accounts)@),
                release_model(ledger(old(accounts)@)),
            ),
    {
        payout(accounts, Operation::Release, 0)
    }
}

// ---------------------------------------------------------------------------
// Refund: accounts [authority, buyer, seller, escrow]
// ---------------------------------------------------------------------------

pub open spec fn refund_model(a: Seq<AccountView>, now: u64) -> Result<Seq<AccountView>, EscrowError> {
    if a.len() < 4 {
        Err(EscrowError::MalformedInput)
    } else if !a[0].is_signer {
        Err(EscrowError::MissingAuthorization)
    } else {
        match decode_model(a[3].data) {
            None => Err(EscrowError::InvalidRecord),
            Some(m) => if !allowed_from(Operation::Refund, m.status) {
                Err(EscrowError::InvalidState)
            } else if a[1].key != m.buyer || a[2].key != m.seller {
                Err(EscrowError::InvalidRecord)
            } else if !acting_allowed(
                Operation::Refund,
                a[0].key,
                m,
                timed_out(m.created_at, m.timeout_seconds, now),
            ) {
                Err(EscrowError::MissingAuthorization)
            } else {
                match move_model(a, 3, 1, m.amount) {
                    Err(e) => Err(e),
                    Ok(b) => Ok(
                        b.update(3, with_state(b[3], result_status(Operation::Refund, 0), m.flags)),
                    ),
                }
            },
        }
    }
}

/// Timeout boundary of a buyer's refund from Delivered: refused one second
/// before `created_at + timeout_seconds`, carried out at that second (given
/// balances that the movement fits).
pub proof fn lemma_refund_timeout_boundary(a: Seq<AccountView>)
    requires
        a.len() >= 4,
        a[0].is_signer,
        decode_model(a[3].data) matches Some(m) && {
            &&& m.status == Status::Delivered
            &&& a[0].key == m.buyer
            &&& m.buyer != m.seller
            &&& m.buyer != m.arbitrator
            &&& a[1].key == m.buyer
            &&& a[2].key == m.seller
            &&& m.timeout_seconds > 0
            &&& m.created_at + m.timeout_seconds <= u64::MAX
            &&& a[3].lamports >= m.amount
            &&& a[1].lamports + m.amount <= u64::MAX
        },
    ensures
        ({
            let m = decode_model(a[3].data)->Some_0;
            let deadline = (m.created_at + m.timeout_seconds) as u64;
            &&& refund_model(a, (deadline - 1) as u64) == Err::<Seq<AccountView>, EscrowError>(
                EscrowError::MissingAuthorization,
            )
            &&& refund_model(a, deadline) is Ok
        }),
{
}

/// Funds return to the buyer: the seller may always refund, the buyer once
/// the timeout has elapsed or while the record is still Active, the
/// arbitrator while it is Disputed. `now` is the ledger's current time.
pub struct RefundV2;

impl RefundV2 {
    pub fn process(accounts: &mut Vec<AccountState>, now: u64) -> (r: Result<(), EscrowError>)
        ensures
            applied(
                r,
                ledger(old(accounts)@),
                ledger(final(accounts)@),
                refund_model(ledger(old(accounts)@), now),
            ),
    {
        if accounts.len() < 4 {
            return Err(EscrowError::MalformedInput);
        }
        if !accounts[0].is_signer {
            return Err(EscrowError::MissingAuthorization);
        }
        let rec = EscrowRecord::decode(accounts[3].data.as_slice())?;
        let next = transition(Operation::Refund, rec.status, 0)?;
        if !keys_equal(&accounts[1].key, &rec.buyer) || !keys_equal(&accounts[2].key, &rec.seller) {
            return Err(EscrowError::InvalidRecord);
        }
        let elapsed = timeout_reached(rec.created_at, rec.timeout_seconds, now);
        if !acting_may(Operation::Refund, &accounts[0].key, &rec, elapsed) {
            return Err(EscrowError::MissingAuthorization);
        }
        move_balance(accounts, 3, 1, rec.amount)?;
        set_state(accounts, 3, next, rec.flags);
        Ok(())
    }
}

// ---------------------------------------------------------------------------
// Arbitrate: accounts [arbitrator, buyer, seller, escrow], payload [decision]
// ---------------------------------------------------------------------------

/// The all-zero address, which marks a record without an arbitrator.
pub open spec fn zero_key() -> Seq<u8> {
    Seq::new(32, |i: int| 0u8)
}

/// The account that an arbitration decision pays: the buyer (index 1) on a
/// zero decision, else the seller (index 2).
pub open spec fn arbitration_payee(decision: u8) -> int {
    if decision == 0 {
        1
    } else {
        2
    }
}

pub open spec fn arbitrate_model(a: Seq<AccountView>, payload: Seq<u8>) -> Result<
    Seq<AccountView>,
    EscrowError,
> {
    if a.len() < 4 {
        Err(EscrowError::MalformedInput)
    } else if !a[0].is_signer {
        Err(EscrowError::MissingAuthorization)
    } else if payload.len() == 0 {
        Err(EscrowError::MalformedInput)
    } else {
        match decode_model(a[3].data) {
            None => Err(EscrowError::InvalidRecord),
            Some(m) => if !allowed_from(Operation::Arbitrate, m.status) {
                Err(EscrowError::InvalidState)
            } else if m.arbitrator == zero_key() {
                Err(EscrowError::MissingAuthorization)
            } else if a[0].key != m.arbitrator || a[1].key != m.buyer || a[2].key != m.seller {
                Err(EscrowError::InvalidRecord)
            } else {
                match move_model(a, 3, arbitration_payee(payload[0]), m.amount) {
                    Err(e) => Err(e),
                    Ok(b) => Ok(
                        b.update(
                            3,
                            with_state(b[3], result_status(Operation::Arbitrate, payload[0]), m.flags),
                        ),
                    ),
                }
            },
        }
    }
}

fn is_zero_key(k: &[u8; 32]) -> (r: bool)
    ensures
        r == (k@ == zero_key()),
{
    let mut i: usize = 0;
    while i < 32
        invariant
            0 <= i <= 32,
            k@.len() == 32,
            forall|j: int| 0 <= j < i ==> k@[j] == 0,
        decreases 32 - i,
    {
        if k[i] != 0 {
            assert(k@[i as int] != zero_key()[i as int]);
            return false;
        }
        i = i + 1;
    }
    assert(k@ =~= zero_key());
    true
}

/// The arbitrator settles a dispute: a zero decision byte refunds the buyer,
/// any other releases to the seller.
pub struct Arbitrate;

impl Arbitrate {
    pub fn process(accounts: &mut Vec<AccountState>, payload: &[u8]) -> (r: Result<(), EscrowError>)
        ensures
            applied(
                r,
                ledger(old(accounts)@),
                ledger(final(accounts)@),
                arbitrate_model(ledger(old(accounts)@), payload@),
            ),
    {
        if accounts.len() < 4 {
            return Err(EscrowError::MalformedInput);
        }
        if !accounts[0].is_signer {
            return Err(EscrowError::MissingAuthorization);
        }
        if payload.len() == 0 {
            return Err(EscrowError::MalformedInput);
        }
        let decision = payload[0];
        let rec = EscrowRecord::decode(accounts[3].data.as_slice())?;
        let next = transition(Operation::Arbitrate, rec.status, decision)?;
        if is_zero_key(&rec.arbitrator) {
            return Err(EscrowError::MissingAuthorization);
        }
        if !keys_equal(&accounts[0].key, &rec.arbitrator) || !keys_equal(&accounts[1].key, &rec.buyer)
            || !keys_equal(&accounts[2].key, &rec.seller) {
            return Err(EscrowError::InvalidRecord);
        }
        let payee: usize = if decision == 0 {
            1
        } else {
            2
        };
        move_balance(accounts, 3, payee, rec.amount)?;
        set_state(accounts, 3, next, rec.flags);
        Ok(())
    }
}

// ---------------------------------------------------------------------------
// CreateEscrowV2: accounts [buyer, seller, arbitrator, escrow, system program],
// payload amount(8) + seed(8) + timeout(8) + terms hash(32)
// ---------------------------------------------------------------------------

/// Length of the Create payload.
pub const CREATE_PAYLOAD_LEN: usize = 56;

/// The record that Create stores.
pub open spec fn created_record(a: Seq<AccountView>, payload: Seq<u8>, now: u64, bump: u8) -> RecordModel {
    RecordModel {
        buyer: a[0].key,
        seller: a[1].key,
        arbitrator: a[2].key,
        mint: zero_key(),
        amount: u64_at(payload, 0),
        created_at: now,
        timeout_seconds: u64_at(payload, 16),
        terms_hash: payload.subrange(24, 56),
        status: result_status(Operation::Create, 0),
        flags: 0,
        bump,
    }
}

/// The checks of Create that come before the record's address is compared.
pub open spec fn create_ready(a: Seq<AccountView>, payload: Seq<u8>) -> bool {
    &&& a.len() >= 5
    &&& payload.len() >= CREATE_PAYLOAD_LEN
    &&& a[0].is_signer
    &&& u64_at(payload, 0) != 0
}

/// Create, given the address and bump that the ledger derives for the
/// record from (buyer, seller, seed). The escrow account must not hold data
/// yet; the buyer funds it with `amount`.
pub open spec fn create_model(
    a: Seq<AccountView>,
    payload: Seq<u8>,
    now: u64,
    address: Seq<u8>,
    bump: u8,
) -> Result<Seq<AccountView>, EscrowError> {
    if a.len() < 5 {
        Err(EscrowError::MalformedInput)
    } else if payload.len() < CREATE_PAYLOAD_LEN {
        Err(EscrowError::MalformedInput)
    } else if !a[0].is_signer {
        Err(EscrowError::MissingAuthorization)
    } else if u64_at(payload, 0) == 0 {
        Err(EscrowError::MalformedInput)
    } else if a[3].key != address {
        Err(EscrowError::InvalidRecord)
    } else if a[3].data.len() != 0 {
        Err(EscrowError::InvalidState)
    } else {
        match move_model(a, 0, 3, u64_at(payload, 0)) {
            Err(e) => Err(e),
            Ok(b) => Ok(
                b.update(
                    3,
                    AccountView {
                        data: encode_model(created_record(a, payload, now, bump)),
                        ..b[3]
                    },
                ),
            ),
        }
    }
}

/// The address and bump that the ledger derives for an escrow record from
/// the seeds ("escrow", buyer, seller, seed in 8 little-endian bytes).
pub uninterp spec fn escrow_address(
    buyer: Seq<u8>,
    seller: Seq<u8>,
    seed: u64,
    program_id: Seq<u8>,
) -> (Seq<u8>, u8);

/// Relies on pinocchio::pubkey::try_find_program_address, which returns the
/// program-derived address and bump for these seeds under `program_id`, or
/// None where no bump is viable or the runtime offers no derivation.
#[verifier::external_body]
fn derive_escrow(buyer: &[u8; 32], seller: &[u8; 32], seed: u64, program_id: &[u8; 32]) -> (r:
    Option<([u8; 32], u8)>)
    ensures
        r matches Some((k, b)) ==> (k@, b) == escrow_address(buyer@, seller@, seed, program_id@),
{
    let seed_bytes = seed.to_le_bytes();
    pinocchio::pubkey::try_find_program_address(
        &[b"escrow".as_slice(), buyer.as_slice(), seller.as_slice(), seed_bytes.as_slice()],
        program_id,
    )
}

/// The buyer creates and funds a record.
pub struct CreateEscrowV2;

impl CreateEscrowV2 {
    /// Create at the address that the ledger derived, `address` with `bump`.
    pub fn process_with_address(
        accounts: &mut Vec<AccountState>,
        payload: &[u8],
        now: u64,
        address: &[u8; 32],
        bump: u8,
    ) -> (r: Result<(), EscrowError>)
        ensures
            applied(
                r,
                ledger(old(accounts)@),
                ledger(final(accounts)@),
                create_model(ledger(old(accounts)@), payload@, now, address@, bump),
            ),
    {
        if accounts.len() < 5 {
            return Err(EscrowError::MalformedInput);
        }
        if payload.len() < CREATE_PAYLOAD_LEN {
            return Err(EscrowError::MalformedInput);
        }
        if !accounts[0].is_signer {
            return Err(EscrowError::MissingAuthorization);
        }
        let amount = read_u64(payload, 0);
        if amount == 0 {
            return Err(EscrowError::MalformedInput);
        }
        if !keys_equal(&accounts[3].key, address) {
            return Err(EscrowError::InvalidRecord);
        }
        if accounts[3].data.len() != 0 {
            return Err(EscrowError::InvalidState);
        }
        let rec = EscrowRecord {
            buyer: accounts[0].key,
            seller: accounts[1].key,
            arbitrator: accounts[2].key,
            mint: [0u8; 32],
            amount,
            created_at: now,
            timeout_seconds: read_u64(payload, 16),
            terms_hash: read_pubkey(payload, 24),
            status: Status::Active,
            flags: 0,
            bump,
        };
        assert(rec.mint@ =~= zero_key());
        assert(rec@ == created_record(ledger(accounts@), payload@, now, bump));
        let data = rec.encode();
        move_balance(accounts, 0, 3, amount)?;
        let ghost b = ledger(accounts@);
        assert(b.len() == accounts@.len() && b[3] == accounts@[3]@);
        accounts[3].data = data;
        assert(ledger(accounts@) =~= b.update(3, AccountView { data: data@, ..b[3] }));
        Ok(())
    }

    /// Create at the address derived through the ledger from the buyer, the
    /// seller and the payload's seed; `LedgerUnavailable` (with nothing
    /// changed) where the derivation cannot be made.
    pub fn process(
        program_id: &[u8; 32],
        accounts: &mut Vec<AccountState>,
        payload: &[u8],
        now: u64,
    ) -> (r: Result<(), EscrowError>)
        ensures
            ({
                let a = ledger(old(accounts)@);
                let derived = escrow_address(a[0].key, a[1].key, u64_at(payload@, 8), program_id@);
                ||| applied(r, a, ledger(final(accounts)@), create_model(a, payload@, now, derived.0, derived.1))
                ||| (create_ready(a, payload@) && r == Err::<(), EscrowError>(
                    EscrowError::LedgerUnavailable,
                ) && final(accounts)@ == old(accounts)@)
            }),
    {
        if accounts.len() < 5 {
            return Err(EscrowError::MalformedInput);
        }
        if payload.len() < CREATE_PAYLOAD_LEN {
            return Err(EscrowError::MalformedInput);
        }
        if !accounts[0].is_signer {
            return Err(EscrowError::MissingAuthorization);
        }
        if read_u64(payload, 0) == 0 {
            return Err(EscrowError::MalformedInput);
        }
        match derive_escrow(&accounts[0].key, &accounts[1].key, read_u64(payload, 8), program_id) {
            None => Err(EscrowError::LedgerUnavailable),
            Some((address, bump)) => Self::process_with_address(accounts, payload, now, &address, bump),
        }
    }
}

} // verus!
