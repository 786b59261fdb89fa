//! A verified escrow engine: a buyer deposits funds under the control of a
//! record, and fixed rules decide when they move to the seller, return to the
//! buyer, or are settled by an arbitrator.
//!
//! The engine works on a snapshot of the accounts that an operation names
//! (`AccountState`): it either applies the whole operation to the snapshot or
//! leaves it untouched and reports an `EscrowError`. Loading the snapshot from
//! the ledger and committing it back is the host's part.
//!
//! - `record`: the record and its fixed 195-byte layout.
//! - `machine`: the status lattice and the authorization table.
//! - `ledger`: account snapshots and the checked balance movement.
//! - `instructions`: one handler per operation, each with an exact model.
//! - `dispatch`: opcode routing and the laws that hold of every operation.
use vstd::prelude::*;

pub mod dispatch;
pub mod error;
pub mod instructions;
pub mod ledger;
pub mod machine;
pub mod record;

pub use dispatch::process_instruction;
pub use error::EscrowError;
pub use instructions::{
    AcceptDelivery, Arbitrate, CreateEscrowV2, Dispute, MarkDelivered, RefundV2, ReleaseV2,
    CREATE_PAYLOAD_LEN,
};
pub use ledger::{move_balance, AccountState};
pub use machine::{
    authorized, timeout_reached, transition, Operation, Role, IX_ACCEPT_DELIVERY, IX_ARBITRATE,
    IX_CREATE_ESCROW, IX_DISPUTE, IX_MARK_DELIVERED, IX_REFUND, IX_RELEASE,
};
pub use record::{
    read_pubkey, read_u64, write_u64, EscrowRecord, Status, ESCROW_DISC, ESCROW_SIZE,
    FLAG_BUYER_ACCEPTED, FLAG_BUYER_DISPUTED, FLAG_SELLER_DELIVERED, FLAG_SELLER_DISPUTED,
    OFF_AMOUNT, OFF_ARBITRATOR, OFF_BUMP, OFF_BUYER, OFF_CREATED_AT, OFF_DISC, OFF_FLAGS, OFF_MINT,
    OFF_SELLER, OFF_STATUS, OFF_TERMS_HASH, OFF_TIMEOUT, STATUS_ACCEPTED, STATUS_ACTIVE,
    STATUS_DELIVERED, STATUS_DISPUTED, STATUS_REFUNDED, STATUS_RELEASED,
};

verus! {

} // verus!
