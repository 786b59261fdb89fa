//! The record layout, status and flag values, payload shapes and the
//! timeout rule of the escrow engine.

use pact_escrow::{
    read_pubkey, read_u64, timeout_reached, transition, write_u64, EscrowRecord, Operation,
    Status, ESCROW_DISC, ESCROW_SIZE, FLAG_BUYER_ACCEPTED, FLAG_BUYER_DISPUTED,
    FLAG_SELLER_DELIVERED, FLAG_SELLER_DISPUTED, IX_ACCEPT_DELIVERY, IX_ARBITRATE, IX_DISPUTE,
    IX_MARK_DELIVERED, IX_REFUND, IX_RELEASE, OFF_AMOUNT, OFF_ARBITRATOR, OFF_BUMP, OFF_BUYER,
    OFF_CREATED_AT, OFF_DISC, OFF_FLAGS, OFF_MINT, OFF_SELLER, OFF_STATUS, OFF_TERMS_HASH,
    OFF_TIMEOUT, STATUS_ACCEPTED, STATUS_ACTIVE, STATUS_DELIVERED, STATUS_DISPUTED,
    STATUS_REFUNDED, STATUS_RELEASED,
};

#[test]
fn test_escrow_v2_size() {
    let expected = 8 + 32 + 32 + 32 + 32 + 8 + 8 + 8 + 32 + 1 + 1 + 1;
    assert_eq!(expected, ESCROW_SIZE);
}

#[test]
fn test_escrow_v2_layout() {
    let mut data = vec![0u8; ESCROW_SIZE];

    write_u64(&mut data, OFF_DISC, ESCROW_DISC);
    let buyer = [1u8; 32];
    data[OFF_BUYER..OFF_BUYER + 32].copy_from_slice(&buyer);
    let seller = [2u8; 32];
    data[OFF_SELLER..OFF_SELLER + 32].copy_from_slice(&seller);
    let arbitrator = [3u8; 32];
    data[OFF_ARBITRATOR..OFF_ARBITRATOR + 32].copy_from_slice(&arbitrator);
    data[OFF_MINT..OFF_MINT + 32].copy_from_slice(&[0u8; 32]);
    let amount: u64 = 1_000_000_000;
    write_u64(&mut data, OFF_AMOUNT, amount);
    let created_at: u64 = 1707544800;
    write_u64(&mut data, OFF_CREATED_AT, created_at);
    let timeout: u64 = 259200;
    write_u64(&mut data, OFF_TIMEOUT, timeout);
    let terms_hash = [0xABu8; 32];
    data[OFF_TERMS_HASH..OFF_TERMS_HASH + 32].copy_from_slice(&terms_hash);
    data[OFF_STATUS] = STATUS_ACTIVE;
    data[OFF_FLAGS] = 0;
    data[OFF_BUMP] = 255;

    assert_eq!(read_u64(&data, OFF_DISC), ESCROW_DISC);
    assert_eq!(read_pubkey(&data, OFF_BUYER), buyer);
    assert_eq!(read_pubkey(&data, OFF_SELLER), seller);
    assert_eq!(read_pubkey(&data, OFF_ARBITRATOR), arbitrator);
    assert_eq!(read_u64(&data, OFF_AMOUNT), amount);
    assert_eq!(read_u64(&data, OFF_CREATED_AT), created_at);
    assert_eq!(read_u64(&data, OFF_TIMEOUT), timeout);
    assert_eq!(read_pubkey(&data, OFF_TERMS_HASH), terms_hash);
    assert_eq!(data[OFF_STATUS], STATUS_ACTIVE);
    assert_eq!(data[OFF_FLAGS], 0);
    assert_eq!(data[OFF_BUMP], 255);

    let rec = EscrowRecord::decode(&data).unwrap();
    assert_eq!(rec.buyer, buyer);
    assert_eq!(rec.seller, seller);
    assert_eq!(rec.arbitrator, arbitrator);
    assert_eq!(rec.mint, [0u8; 32]);
    assert_eq!(rec.amount, amount);
    assert_eq!(rec.created_at, created_at);
    assert_eq!(rec.timeout_seconds, timeout);
    assert_eq!(rec.terms_hash, terms_hash);
    assert_eq!(rec.status, Status::Active);
    assert_eq!(rec.flags, 0);
    assert_eq!(rec.bump, 255);
    assert_eq!(rec.encode(), data);
}

#[test]
fn test_status_values() {
    assert_eq!(STATUS_ACTIVE, 0);
    assert_eq!(STATUS_DELIVERED, 1);
    assert_eq!(STATUS_ACCEPTED, 2);
    assert_eq!(STATUS_DISPUTED, 3);
    assert_eq!(STATUS_RELEASED, 4);
    assert_eq!(STATUS_REFUNDED, 5);

    let statuses = [
        STATUS_ACTIVE,
        STATUS_DELIVERED,
        STATUS_ACCEPTED,
        STATUS_DISPUTED,
        STATUS_RELEASED,
        STATUS_REFUNDED,
    ];
    for i in 0..statuses.len() {
        for j in (i + 1)..statuses.len() {
            assert_ne!(statuses[i], statuses[j]);
        }
    }
    for b in statuses {
        assert_eq!(Status::from_byte(b).unwrap().to_byte(), b);
    }
    assert_eq!(Status::from_byte(6), None);
}

#[test]
fn test_flag_bits() {
    assert_eq!(FLAG_SELLER_DELIVERED, 0b0001);
    assert_eq!(FLAG_BUYER_ACCEPTED, 0b0010);
    assert_eq!(FLAG_BUYER_DISPUTED, 0b0100);
    assert_eq!(FLAG_SELLER_DISPUTED, 0b1000);

    let combined = FLAG_SELLER_DELIVERED | FLAG_BUYER_DISPUTED;
    assert_eq!(combined, 0b0101);

    assert!(combined & FLAG_SELLER_DELIVERED != 0);
    assert!(combined & FLAG_BUYER_DISPUTED != 0);
    assert!(combined & FLAG_BUYER_ACCEPTED == 0);
    assert!(combined & FLAG_SELLER_DISPUTED == 0);
}

#[test]
fn test_create_escrow_instruction_data() {
    let discriminator: u8 = 0;
    let amount: u64 = 100_000_000;
    let seed: u64 = 1234567890;
    let timeout: u64 = 259200;
    let terms_hash = [0xABu8; 32];

    let mut data = vec![0u8; 57];
    data[0] = discriminator;
    write_u64(&mut data, 1, amount);
    write_u64(&mut data, 9, seed);
    write_u64(&mut data, 17, timeout);
    data[25..57].copy_from_slice(&terms_hash);

    assert_eq!(data[0], 0);
    assert_eq!(read_u64(&data, 1), amount);
    assert_eq!(read_u64(&data, 9), seed);
    assert_eq!(read_u64(&data, 17), timeout);
    assert_eq!(read_pubkey(&data, 25), terms_hash);
}

#[test]
fn test_single_byte_instructions() {
    assert_eq!(IX_MARK_DELIVERED, 1);
    assert_eq!(IX_ACCEPT_DELIVERY, 2);
    assert_eq!(IX_RELEASE, 3);
    assert_eq!(IX_REFUND, 4);
    assert_eq!(IX_DISPUTE, 5);
}

#[test]
fn test_arbitrate_instruction_data() {
    let refund_data = vec![IX_ARBITRATE, 0];
    let release_data = vec![IX_ARBITRATE, 1];

    assert_eq!(refund_data[0], 6);
    assert_eq!(refund_data[1], 0);
    assert_eq!(release_data[0], 6);
    assert_eq!(release_data[1], 1);
}

#[test]
fn test_timeout_default() {
    let three_days_seconds: u64 = 3 * 24 * 60 * 60;
    assert_eq!(three_days_seconds, 259200);
}

#[test]
fn test_timeout_logic() {
    let created_at: u64 = 1707544800;
    let timeout_seconds: u64 = 259200;

    let now_early = created_at + 1000;
    assert!(!timeout_reached(created_at, timeout_seconds, now_early));

    let now_almost = created_at + timeout_seconds - 1;
    assert!(!timeout_reached(created_at, timeout_seconds, now_almost));

    let now_exact = created_at + timeout_seconds;
    assert!(timeout_reached(created_at, timeout_seconds, now_exact));

    let now_after = created_at + timeout_seconds + 1000;
    assert!(timeout_reached(created_at, timeout_seconds, now_after));
}

#[test]
fn test_no_timeout() {
    let timeout_seconds: u64 = 0;
    assert_eq!(timeout_seconds, 0);
    assert!(!timeout_reached(0, timeout_seconds, u64::MAX));
    assert!(!timeout_reached(1707544800, timeout_seconds, 1707544800));
}

#[test]
fn test_state_transitions_from_active() {
    let from = Status::Active;
    assert_eq!(transition(Operation::MarkDelivered, from, 0), Ok(Status::Delivered));
    assert_eq!(transition(Operation::Dispute, from, 0), Ok(Status::Disputed));
    assert_eq!(transition(Operation::Release, from, 0), Ok(Status::Released));
    assert_eq!(transition(Operation::Refund, from, 0), Ok(Status::Refunded));

    let valid_to = [STATUS_DELIVERED, STATUS_DISPUTED, STATUS_RELEASED, STATUS_REFUNDED];
    for to in valid_to {
        assert!(to != from.to_byte());
        assert!(to <= STATUS_REFUNDED);
    }
}

#[test]
fn test_state_transitions_from_delivered() {
    let from = Status::Delivered;
    assert_eq!(transition(Operation::Dispute, from, 0), Ok(Status::Disputed));
    assert_eq!(transition(Operation::AcceptDelivery, from, 0), Ok(Status::Released));
    assert_eq!(transition(Operation::Release, from, 0), Ok(Status::Released));

    let valid_to = [STATUS_DISPUTED, STATUS_RELEASED];
    for to in valid_to {
        assert!(to > from.to_byte());
    }
}

#[test]
fn test_state_transitions_from_disputed() {
    let from = Status::Disputed;
    assert_eq!(transition(Operation::Arbitrate, from, 1), Ok(Status::Released));
    assert_eq!(transition(Operation::Arbitrate, from, 0), Ok(Status::Refunded));

    let valid_to = [STATUS_RELEASED, STATUS_REFUNDED];
    for to in valid_to {
        assert!(to > from.to_byte());
    }
}

#[test]
fn test_terminal_states() {
    assert_eq!(STATUS_RELEASED, 4);
    assert_eq!(STATUS_REFUNDED, 5);
    assert!(Status::Released.terminal());
    assert!(Status::Refunded.terminal());
}

#[test]
fn test_pda_seeds_structure() {
    let prefix = b"escrow";
    let buyer = [1u8; 32];
    let seller = [2u8; 32];
    let seed: u64 = 12345;
    let seed_bytes = seed.to_le_bytes();

    assert_eq!(prefix, b"escrow");
    assert_eq!(buyer.len(), 32);
    assert_eq!(seller.len(), 32);
    assert_eq!(seed_bytes.len(), 8);

    let total = prefix.len() + buyer.len() + seller.len() + seed_bytes.len();
    assert_eq!(total, 6 + 32 + 32 + 8);
}

#[test]
fn test_discriminator_ascii() {
    let mut bytes = vec![0u8; 8];
    write_u64(&mut bytes, 0, ESCROW_DISC);

    let s: String = bytes.iter().rev().map(|&b| b as char).collect();
    assert_eq!(s, "PACTESCR");
}
