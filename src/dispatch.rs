//! Routing of an opcode and payload to its handler, and the laws that hold
//! of every operation.
use vstd::prelude::*;
use vstd::slice::slice_subrange;

use crate::error::EscrowError;
use crate::instructions::{
    accept_delivery_model, arbitrate_model, create_model, created_record, create_ready, dispute_flag,
    dispute_model, escrow_address, mark_delivered_model, refund_model, release_model,
    AcceptDelivery, Arbitrate, CreateEscrowV2, Dispute, MarkDelivered, RefundV2, ReleaseV2,
};
use crate::ledger::{
    applied, distinct_positions, keys_wf, ledger, lemma_move_conserves, lemma_total_update,
    lemma_write_back_total, move_model, select, total_lamports, write_back, AccountState,
    AccountView,
};
use crate::machine::{
    is_edge, lemma_table_follows_edges, result_status, Operation, IX_ACCEPT_DELIVERY,
    IX_ARBITRATE, IX_CREATE_ESCROW, IX_DISPUTE, IX_MARK_DELIVERED, IX_REFUND, IX_RELEASE,
};
use crate::record::{
    decode_model, lemma_decode_encode, lemma_decode_with_state, u64_at, RecordModel, Status, FLAG_BUYER_ACCEPTED,
    FLAG_SELLER_DELIVERED,
};

verus! {

/// What one invocation does to the snapshot: `ix` is the opcode byte
/// followed by the operation's payload, `now` the ledger's time.
pub open spec fn instruction_model(
    a: Seq<AccountView>,
    ix: Seq<u8>,
    now: u64,
    program_id: Seq<u8>,
) -> Result<Seq<AccountView>, EscrowError> {
    if ix.len() == 0 {
        Err(EscrowError::MalformedInput)
    } else {
        let p = ix.subrange(1, ix.len() as int);
        if ix[0] == IX_CREATE_ESCROW {
            let d = escrow_address(a[0].key, a[1].key, u64_at(p, 8), program_id);
            create_model(a, p, now, d.0, d.1)
        } else if ix[0] == IX_MARK_DELIVERED {
            mark_delivered_model(a)
        } else if ix[0] == IX_ACCEPT_DELIVERY {
            accept_delivery_model(a)
        } else if ix[0] == IX_RELEASE {
            release_model(a)
        } else if ix[0] == IX_REFUND {
            refund_model(a, now)
        } else if ix[0] == IX_DISPUTE {
            dispute_model(a)
        } else if ix[0] == IX_ARBITRATE {
            arbitrate_model(a, p)
        } else {
            Err(EscrowError::MalformedInput)
        }
    }
}

/// Decodes the opcode, routes to its handler and applies the operation to
/// the snapshot as a whole, or reports why it was refused and changes
/// nothing. Only Create can also fail with `LedgerUnavailable`, when the
/// ledger cannot derive the record's address.
pub fn process_instruction(
    program_id: &[u8; 32],
    accounts: &mut Vec<AccountState>,
    instruction_data: &[u8],
    now: u64,
) -> (r: Result<(), EscrowError>)
    ensures
        ({
            let a = ledger(old(accounts)@);
            let ix = instruction_data@;
            ||| applied(r, a, ledger(final(accounts)@), instruction_model(a, ix, now, program_id@))
            ||| (ix.len() > 0 && ix[0] == IX_CREATE_ESCROW && create_ready(
                a,
                ix.subrange(1, ix.len() as int),
            ) && r == Err::<(), EscrowError>(EscrowError::LedgerUnavailable) && final(accounts)@
                == old(accounts)@)
        }),
{
    if instruction_data.len() == 0 {
        return Err(EscrowError::MalformedInput);
    }
    let opcode = instruction_data[0];
    let payload = slice_subrange(instruction_data, 1, instruction_data.len());
    if opcode == IX_CREATE_ESCROW {
        CreateEscrowV2::process(program_id, accounts, payload, now)
    } else if opcode == IX_MARK_DELIVERED {
        MarkDelivered::process(accounts)
    } else if opcode == IX_ACCEPT_DELIVERY {
        AcceptDelivery::process(accounts)
    } else if opcode == IX_RELEASE {
        ReleaseV2::process(accounts)
    } else if opcode == IX_REFUND {
        RefundV2::process(accounts, now)
    } else if opcode == IX_DISPUTE {
        Dispute::process(accounts)
    } else if opcode == IX_ARBITRATE {
        Arbitrate::process(accounts, payload)
    } else {
        Err(EscrowError::MalformedInput)
    }
}

/// Position of the escrow record's account among an operation's accounts.
pub open spec fn escrow_index(opcode: u8) -> int {
    if opcode == IX_MARK_DELIVERED || opcode == IX_DISPUTE {
        1
    } else if opcode == IX_ACCEPT_DELIVERY || opcode == IX_RELEASE {
        2
    } else {
        3
    }
}

/// Conservation: an operation that succeeds leaves the sum of the balances
/// of the accounts it was handed exactly as it found it.
pub proof fn lemma_operation_conserves(
    a: Seq<AccountView>,
    ix: Seq<u8>,
    now: u64,
    program_id: Seq<u8>,
)
    requires
        instruction_model(a, ix, now, program_id) is Ok,
    ensures
        instruction_model(a, ix, now, program_id)->Ok_0.len() == a.len(),
        total_lamports(instruction_model(a, ix, now, program_id)->Ok_0) == total_lamports(a),
{
    let b = instruction_model(a, ix, now, program_id)->Ok_0;
    let p = ix.subrange(1, ix.len() as int);
    let op = ix[0];
    if op == IX_CREATE_ESCROW {
        let d = escrow_address(a[0].key, a[1].key, u64_at(p, 8), program_id);
        let m = move_model(a, 0, 3, u64_at(p, 0));
        lemma_move_conserves(a, 0, 3, u64_at(p, 0));
        let c = m->Ok_0;
        lemma_total_update(c, 3, b[3]);
        assert(b == c.update(3, b[3]));
    } else if op == IX_MARK_DELIVERED || op == IX_DISPUTE {
        lemma_total_update(a, 1, b[1]);
        assert(b == a.update(1, b[1]));
    } else if op == IX_ACCEPT_DELIVERY || op == IX_RELEASE {
        let m = decode_model(a[2].data).unwrap();
        lemma_move_conserves(a, 2, 1, m.amount);
        let c = move_model(a, 2, 1, m.amount)->Ok_0;
        lemma_total_update(c, 2, b[2]);
        assert(b == c.update(2, b[2]));
    } else {
        let m = decode_model(a[3].data).unwrap();
        let to: int = if op == IX_REFUND || p[0] == 0 {
            1
        } else {
            2
        };
        lemma_move_conserves(a, 3, to, m.amount);
        let c = move_model(a, 3, to, m.amount)->Ok_0;
        lemma_total_update(c, 3, b[3]);
        assert(b == c.update(3, b[3]));
    }
}

proof fn lemma_flags_grow(f: u8, x: u8)
    ensures
        (f | x) & f == f,
{
    assert((f | x) & f == f) by (bit_vector);
}

/// Monotonic lattice: an operation that succeeds on an existing record moves
/// its status along one edge of the lattice, keeps every field but status
/// and flags, and only ever adds flags.
pub proof fn lemma_operation_follows_lattice(
    a: Seq<AccountView>,
    ix: Seq<u8>,
    now: u64,
    program_id: Seq<u8>,
)
    requires
        ix.len() > 0,
        ix[0] != IX_CREATE_ESCROW,
        instruction_model(a, ix, now, program_id) is Ok,
    ensures
        ({
            let k = escrow_index(ix[0]);
            let b = instruction_model(a, ix, now, program_id)->Ok_0;
            &&& decode_model(a[k].data) is Some
            &&& decode_model(b[k].data) is Some
            &&& is_edge(decode_model(a[k].data)->Some_0.status, decode_model(b[k].data)->Some_0.status)
            &&& decode_model(b[k].data)->Some_0 == RecordModel {
                status: decode_model(b[k].data)->Some_0.status,
                flags: decode_model(b[k].data)->Some_0.flags,
                ..decode_model(a[k].data)->Some_0
            }
            &&& decode_model(b[k].data)->Some_0.flags & decode_model(a[k].data)->Some_0.flags
                == decode_model(a[k].data)->Some_0.flags
            &&& b.len() == a.len()
            &&& forall|i: int| 0 <= i < a.len() && i != k ==> #[trigger] b[i].data == a[i].data
        }),
{
    let op = ix[0];
    let p = ix.subrange(1, ix.len() as int);
    let k = escrow_index(op);
    let m = decode_model(a[k].data).unwrap();
    if op == IX_MARK_DELIVERED {
        lemma_table_follows_edges(Operation::MarkDelivered, m.status, 0);
        lemma_decode_with_state(a[k].data, Status::Delivered, m.flags | FLAG_SELLER_DELIVERED);
        lemma_flags_grow(m.flags, FLAG_SELLER_DELIVERED);
    } else if op == IX_DISPUTE {
        let f = dispute_flag(a[0].key, m);
        lemma_table_follows_edges(Operation::Dispute, m.status, 0);
        lemma_decode_with_state(a[k].data, Status::Disputed, m.flags | f);
        lemma_flags_grow(m.flags, f);
    } else if op == IX_ACCEPT_DELIVERY {
        lemma_table_follows_edges(Operation::AcceptDelivery, m.status, 0);
        lemma_decode_with_state(a[k].data, Status::Released, m.flags | FLAG_BUYER_ACCEPTED);
        lemma_flags_grow(m.flags, FLAG_BUYER_ACCEPTED);
    } else if op == IX_RELEASE {
        lemma_table_follows_edges(Operation::Release, m.status, 0);
        lemma_decode_with_state(a[k].data, Status::Released, m.flags | 0);
        lemma_flags_grow(m.flags, 0);
    } else if op == IX_REFUND {
        lemma_table_follows_edges(Operation::Refund, m.status, 0);
        lemma_decode_with_state(a[k].data, Status::Refunded, m.flags);
        lemma_flags_grow(m.flags, 0);
        assert(m.flags | 0 == m.flags) by (bit_vector);
    } else {
        let s = result_status(Operation::Arbitrate, p[0]);
        lemma_table_follows_edges(Operation::Arbitrate, m.status, p[0]);
        lemma_decode_with_state(a[k].data, s, m.flags);
        lemma_flags_grow(m.flags, 0);
        assert(m.flags | 0 == m.flags) by (bit_vector);
    }
}

/// A terminal record is immutable: every operation on it fails, and once
/// the acting party has signed and the payload is complete, it fails with
/// `InvalidState`.
pub proof fn lemma_terminal_is_final(a: Seq<AccountView>, ix: Seq<u8>, now: u64, program_id: Seq<u8>)
    requires
        ix.len() > 0,
        ix[0] != IX_CREATE_ESCROW,
        a.len() > escrow_index(ix[0]),
        decode_model(a[escrow_index(ix[0])].data) matches Some(m) && m.status.is_terminal(),
    ensures
        instruction_model(a, ix, now, program_id) is Err,
        a[0].is_signer && ix[0] <= IX_ARBITRATE && (ix[0] == IX_ARBITRATE ==> ix.len() >= 2)
            ==> instruction_model(a, ix, now, program_id) == Err::<Seq<AccountView>, EscrowError>(
            EscrowError::InvalidState,
        ),
{
}

/// One invocation against a whole ledger: the positions of the accounts it
/// names, in the operation's order, its opcode and payload, and the time.
pub struct Invocation {
    pub accounts: Seq<int>,
    pub ix: Seq<u8>,
    pub now: u64,
}

/// The ledger after one invocation: the named accounts are handed to the
/// operation as a snapshot and written back when it succeeds; a refused
/// invocation, or one that names an account twice or one outside the
/// ledger, leaves the ledger as it was.
pub open spec fn invoke(w: Seq<AccountView>, inv: Invocation, program_id: Seq<u8>) -> Seq<
    AccountView,
> {
    if distinct_positions(inv.accounts, w.len() as int) {
        match instruction_model(select(w, inv.accounts), inv.ix, inv.now, program_id) {
            Ok(b) => write_back(w, inv.accounts, b),
            Err(_) => w,
        }
    } else {
        w
    }
}

/// The ledger after a sequence of invocations, one after the other.
pub open spec fn run(w: Seq<AccountView>, invs: Seq<Invocation>, program_id: Seq<u8>) -> Seq<
    AccountView,
>
    decreases invs.len(),
{
    if invs.len() == 0 {
        w
    } else {
        run(invoke(w, invs[0], program_id), invs.drop_first(), program_id)
    }
}

/// Conservation over any sequence of operations: the sum of all balances in
/// the ledger (custodial, buyers', sellers' and everyone else's) never changes.
pub proof fn lemma_run_conserves(w: Seq<AccountView>, invs: Seq<Invocation>, program_id: Seq<u8>)
    ensures
        run(w, invs, program_id).len() == w.len(),
        total_lamports(run(w, invs, program_id)) == total_lamports(w),
    decreases invs.len(),
{
    if invs.len() > 0 {
        let inv = invs[0];
        if distinct_positions(inv.accounts, w.len() as int) {
            let sub = select(w, inv.accounts);
            if instruction_model(sub, inv.ix, inv.now, program_id) is Ok {
                lemma_operation_conserves(sub, inv.ix, inv.now, program_id);
                lemma_write_back_total(
                    w,
                    inv.accounts,
                    instruction_model(sub, inv.ix, inv.now, program_id)->Ok_0,
                );
            }
        }
        lemma_run_conserves(invoke(w, inv, program_id), invs.drop_first(), program_id);
    }
}

/// Create touches the data of no account but the new record's, and only
/// when that account held none.
pub proof fn lemma_create_fills_empty(a: Seq<AccountView>, ix: Seq<u8>, now: u64, program_id: Seq<u8>)
    requires
        ix.len() > 0,
        ix[0] == IX_CREATE_ESCROW,
        instruction_model(a, ix, now, program_id) is Ok,
    ensures
        a.len() > 3,
        a[3].data.len() == 0,
        ({
            let b = instruction_model(a, ix, now, program_id)->Ok_0;
            &&& b.len() == a.len()
            &&& forall|i: int| 0 <= i < a.len() && i != 3 ==> #[trigger] b[i].data == a[i].data
        }),
{
}

/// The record at one position, before and after, moved along the lattice:
/// same or an edge further, every field but status and flags kept, flags
/// only added. A position that held no record may have gained one.
pub open spec fn record_evolves(before: Option<RecordModel>, after: Option<RecordModel>) -> bool {
    match before {
        None => true,
        Some(m) => match after {
            None => false,
            Some(n) => {
                &&& (n.status == m.status || is_edge(m.status, n.status))
                &&& n == RecordModel { status: n.status, flags: n.flags, ..m }
                &&& n.flags & m.flags == m.flags
            },
        },
    }
}

proof fn lemma_record_evolves_refl(x: Option<RecordModel>)
    ensures
        record_evolves(x, x),
{
    if let Some(m) = x {
        let f = m.flags;
        assert(f & f == f) by (bit_vector);
    }
}

proof fn lemma_record_evolves_trans(
    x: Option<RecordModel>,
    y: Option<RecordModel>,
    z: Option<RecordModel>,
)
    requires
        record_evolves(x, y),
        record_evolves(y, z),
    ensures
        record_evolves(x, z),
{
    if let Some(m) = x {
        let n = y.unwrap();
        let o = z.unwrap();
        let (a, b, c) = (m.flags, n.flags, o.flags);
        assert(b & a == a && c & b == b ==> c & a == a) by (bit_vector);
    }
}

/// One invocation moves every record of the ledger along the lattice.
pub proof fn lemma_invoke_follows_lattice(
    w: Seq<AccountView>,
    inv: Invocation,
    program_id: Seq<u8>,
    e: int,
)
    requires
        0 <= e < w.len(),
    ensures
        invoke(w, inv, program_id).len() == w.len(),
        record_evolves(decode_model(w[e].data), decode_model(invoke(w, inv, program_id)[e].data)),
{
    let sel = inv.accounts;
    lemma_record_evolves_refl(decode_model(w[e].data));
    if distinct_positions(sel, w.len() as int) {
        let sub = select(w, sel);
        let res = instruction_model(sub, inv.ix, inv.now, program_id);
        if res is Ok {
            let b = res->Ok_0;
            lemma_operation_conserves(sub, inv.ix, inv.now, program_id);
            lemma_write_back_total(w, sel, b);
            if sel.contains(e) {
                let j = choose|j: int| 0 <= j < sel.len() && sel[j] == e;
                assert(write_back(w, sel, b)[sel[j]] == b[j]);
                assert(sub[j] == w[e]);
                if inv.ix[0] == IX_CREATE_ESCROW {
                    lemma_create_fills_empty(sub, inv.ix, inv.now, program_id);
                    if j != 3 {
                        assert(b[j].data == sub[j].data);
                    }
                } else {
                    lemma_operation_follows_lattice(sub, inv.ix, inv.now, program_id);
                    if j != escrow_index(inv.ix[0]) {
                        assert(b[j].data == sub[j].data);
                    }
                }
            }
        }
    }
}

/// Monotonic lattice over any sequence of operations: every record of the
/// ledger only ever moves along the lattice's edges, keeps every field but
/// status and flags, and only gains flags.
pub proof fn lemma_run_follows_lattice(
    w: Seq<AccountView>,
    invs: Seq<Invocation>,
    program_id: Seq<u8>,
    e: int,
)
    requires
        0 <= e < w.len(),
    ensures
        record_evolves(decode_model(w[e].data), decode_model(run(w, invs, program_id)[e].data)),
    decreases invs.len(),
{
    if invs.len() == 0 {
        lemma_record_evolves_refl(decode_model(w[e].data));
    } else {
        let w1 = invoke(w, invs[0], program_id);
        lemma_invoke_follows_lattice(w, invs[0], program_id, e);
        lemma_run_follows_lattice(w1, invs.drop_first(), program_id, e);
        lemma_record_evolves_trans(
            decode_model(w[e].data),
            decode_model(w1[e].data),
            decode_model(run(w, invs, program_id)[e].data),
        );
    }
}

/// Custody: a record whose account holds exactly its amount keeps holding it
/// through every non-terminal step and holds nothing after a terminal one;
/// Create leaves a fresh (empty) account holding exactly the amount.
pub proof fn lemma_custody(a: Seq<AccountView>, ix: Seq<u8>, now: u64, program_id: Seq<u8>)
    requires
        keys_wf(a),
        ix.len() > 0,
        instruction_model(a, ix, now, program_id) is Ok,
    ensures
        ({
            let b = instruction_model(a, ix, now, program_id)->Ok_0;
            let k = escrow_index(ix[0]);
            &&& ix[0] == IX_CREATE_ESCROW && a[3].lamports == 0 ==> b[3].lamports
                == decode_model(b[3].data)->Some_0.amount && decode_model(b[3].data)->Some_0.status
                == Status::Active
            &&& ix[0] != IX_CREATE_ESCROW && a[k].lamports == decode_model(a[k].data)->Some_0.amount
                ==> if decode_model(b[k].data)->Some_0.status.is_terminal() {
                b[k].lamports == 0
            } else {
                b[k].lamports == decode_model(b[k].data)->Some_0.amount
            }
        }),
{
    let p = ix.subrange(1, ix.len() as int);
    if ix[0] == IX_CREATE_ESCROW {
        let d = escrow_address(a[0].key, a[1].key, u64_at(p, 8), program_id);
        let m = created_record(a, p, now, d.1);
        assert(a[0].key.len() == 32 && a[1].key.len() == 32 && a[2].key.len() == 32);
        lemma_decode_encode(m);
    } else {
        lemma_operation_follows_lattice(a, ix, now, program_id);
    }
}

} // verus!
