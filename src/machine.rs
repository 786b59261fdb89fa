//! The transition table and the authorization rules of the escrow engine.
use vstd::prelude::*;

use crate::error::EscrowError;
use crate::record::Status;

verus! {

pub const IX_CREATE_ESCROW: u8 = 0;
pub const IX_MARK_DELIVERED: u8 = 1;
pub const IX_ACCEPT_DELIVERY: u8 = 2;
pub const IX_RELEASE: u8 = 3;
pub const IX_REFUND: u8 = 4;
pub const IX_DISPUTE: u8 = 5;
pub const IX_ARBITRATE: u8 = 6;

/// The seven operations on a record.
#[derive(Debug, Clone, Copy, PartialEq, Eq, Structural)]
pub enum Operation {
    Create,
    MarkDelivered,
    AcceptDelivery,
    Release,
    Dispute,
    Refund,
    Arbitrate,
}

/// The party on whose behalf an operation is submitted.
#[derive(Debug, Clone, Copy, PartialEq, Eq, Structural)]
pub enum Role {
    Buyer,
    Seller,
    Arbitrator,
}

/// The statuses from which an operation may start.
pub open spec fn allowed_from(op: Operation, s: Status) -> bool {
    match op {
        Operation::Create => false,
        Operation::MarkDelivered => s == Status::Active,
        Operation::AcceptDelivery => s == Status::Delivered,
        Operation::Release => s == Status::Active || s == Status::Delivered,
        Operation::Dispute => s == Status::Active || s == Status::Delivered,
        Operation::Refund => s == Status::Active || s == Status::Delivered || s
            == Status::Disputed,
        Operation::Arbitrate => s == Status::Disputed,
    }
}

/// The status an operation leaves; for Arbitrate a zero decision refunds and
/// any other releases.
pub open spec fn result_status(op: Operation, decision: u8) -> Status {
    match op {
        Operation::Create => Status::Active,
        Operation::MarkDelivered => Status::Delivered,
        Operation::AcceptDelivery => Status::Released,
        Operation::Release => Status::Released,
        Operation::Dispute => Status::Disputed,
        Operation::Refund => Status::Refunded,
        Operation::Arbitrate => if decision == 0 {
            Status::Refunded
        } else {
            Status::Released
        },
    }
}

/// The directed edges of the status lattice.
pub open spec fn is_edge(from: Status, to: Status) -> bool {
    match from {
        Status::Active => to == Status::Delivered || to == Status::Released || to
            == Status::Disputed || to == Status::Refunded,
        Status::Delivered => to == Status::Released || to == Status::Disputed || to
            == Status::Refunded,
        Status::Disputed => to == Status::Released || to == Status::Refunded,
        _ => false,
    }
}

/// Every step of the table follows an edge, and no edge leaves a terminal status.
pub proof fn lemma_table_follows_edges(op: Operation, from: Status, decision: u8)
    ensures
        allowed_from(op, from) ==> is_edge(from, result_status(op, decision)),
        from.is_terminal() ==> !allowed_from(op, from),
{
}

/// The status after `op`, or `InvalidState` when `op` may not start from `from`.
pub fn transition(op: Operation, from: Status, decision: u8) -> (r: Result<Status, EscrowError>)
    ensures
        allowed_from(op, from) ==> r == Ok::<Status, EscrowError>(result_status(op, decision)),
        !allowed_from(op, from) ==> r == Err::<Status, EscrowError>(EscrowError::InvalidState),
{
    let allowed = match op {
        Operation::Create => false,
        Operation::MarkDelivered => from == Status::Active,
        Operation::AcceptDelivery => from == Status::Delivered,
        Operation::Release => from == Status::Active || from == Status::Delivered,
        Operation::Dispute => from == Status::Active || from == Status::Delivered,
        Operation::Refund => from == Status::Active || from == Status::Delivered || from
            == Status::Disputed,
        Operation::Arbitrate => from == Status::Disputed,
    };
    if !allowed {
        return Err(EscrowError::InvalidState);
    }
    Ok(
        match op {
            Operation::Create => Status::Active,
            Operation::MarkDelivered => Status::Delivered,
            Operation::AcceptDelivery => Status::Released,
            Operation::Release => Status::Released,
            Operation::Dispute => Status::Disputed,
            Operation::Refund => Status::Refunded,
            Operation::Arbitrate => if decision == 0 {
                Status::Refunded
            } else {
                Status::Released
            },
        },
    )
}

/// The timeout window has elapsed: enabled, and `now >= created_at + timeout_seconds`.
pub open spec fn timed_out(created_at: u64, timeout_seconds: u64, now: u64) -> bool {
    timeout_seconds > 0 && now >= created_at + timeout_seconds
}

pub fn timeout_reached(created_at: u64, timeout_seconds: u64, now: u64) -> (r: bool)
    ensures
        r == timed_out(created_at, timeout_seconds, now),
{
    timeout_seconds > 0 && now >= created_at && now - created_at >= timeout_seconds
}

/// Whether a party in `role` may perform `op` on a record in status `s`
/// (the status itself being one that `op` may start from).
pub open spec fn may_act(op: Operation, role: Role, s: Status, timeout_elapsed: bool) -> bool {
    match op {
        Operation::Create => role == Role::Buyer,
        Operation::MarkDelivered => role == Role::Seller,
        Operation::AcceptDelivery => role == Role::Buyer,
        Operation::Release => role == Role::Buyer,
        Operation::Dispute => role == Role::Buyer || role == Role::Seller,
        Operation::Refund => match role {
            Role::Seller => true,
            Role::Buyer => timeout_elapsed || s == Status::Active,
            Role::Arbitrator => s == Status::Disputed,
        },
        Operation::Arbitrate => role == Role::Arbitrator,
    }
}

pub fn authorized(op: Operation, role: Role, s: Status, timeout_elapsed: bool) -> (r: bool)
    ensures
        r == may_act(op, role, s, timeout_elapsed),
{
    match op {
        Operation::Create => role == Role::Buyer,
        Operation::MarkDelivered => role == Role::Seller,
        Operation::AcceptDelivery => role == Role::Buyer,
        Operation::Release => role == Role::Buyer,
        Operation::Dispute => role == Role::Buyer || role == Role::Seller,
        Operation::Refund => match role {
            Role::Seller => true,
            Role::Buyer => timeout_elapsed || s == Status::Active,
            Role::Arbitrator => s == Status::Disputed,
        },
        Operation::Arbitrate => role == Role::Arbitrator,
    }
}

/// A buyer's refund from Delivered is refused one second before the window
/// closes and permitted at the second it closes.
pub proof fn lemma_timeout_boundary(created_at: u64, timeout_seconds: u64)
    requires
        timeout_seconds > 0,
        created_at + timeout_seconds <= u64::MAX,
    ensures
        !may_act(
            Operation::Refund,
            Role::Buyer,
            Status::Delivered,
            timed_out(created_at, timeout_seconds, (created_at + timeout_seconds - 1) as u64),
        ),
        may_act(
            Operation::Refund,
            Role::Buyer,
            Status::Delivered,
            timed_out(created_at, timeout_seconds, (created_at + timeout_seconds) as u64),
        ),
{
}

} // verus!
