//! The escrow record and its fixed 195-byte little-endian layout.
use vstd::bytes::{
    lemma_auto_spec_u64_to_from_le_bytes, spec_u64_from_le_bytes, spec_u64_to_le_bytes,
    u64_from_le_bytes, u64_to_le_bytes,
};
use vstd::prelude::*;
use vstd::slice::slice_subrange;

use crate::error::EscrowError;

verus! {

/// Type tag at the head of every record: "PACTESCR" read as a little-endian u64.
pub const ESCROW_DISC: u64 = 0x5041435445534352;

/// Size of an encoded record in bytes.
pub const ESCROW_SIZE: usize = 195;

pub const STATUS_ACTIVE: u8 = 0;
pub const STATUS_DELIVERED: u8 = 1;
pub const STATUS_ACCEPTED: u8 = 2;
pub const STATUS_DISPUTED: u8 = 3;
pub const STATUS_RELEASED: u8 = 4;
pub const STATUS_REFUNDED: u8 = 5;

pub const FLAG_SELLER_DELIVERED: u8 = 1;
pub const FLAG_BUYER_ACCEPTED: u8 = 2;
pub const FLAG_BUYER_DISPUTED: u8 = 4;
pub const FLAG_SELLER_DISPUTED: u8 = 8;

pub const OFF_DISC: usize = 0;
pub const OFF_BUYER: usize = 8;
pub const OFF_SELLER: usize = 40;
pub const OFF_ARBITRATOR: usize = 72;
pub const OFF_MINT: usize = 104;
pub const OFF_AMOUNT: usize = 136;
pub const OFF_CREATED_AT: usize = 144;
pub const OFF_TIMEOUT: usize = 152;
pub const OFF_TERMS_HASH: usize = 160;
pub const OFF_STATUS: usize = 192;
pub const OFF_FLAGS: usize = 193;
pub const OFF_BUMP: usize = 194;

/// Lifecycle status of a record. `Accepted` is reserved: no operation sets it.
#[derive(Debug, Clone, Copy, PartialEq, Eq, Structural)]
pub enum Status {
    Active,
    Delivered,
    Accepted,
    Disputed,
    Released,
    Refunded,
}

pub open spec fn status_from_byte(b: u8) -> Option<Status> {
    if b == STATUS_ACTIVE {
        Some(Status::Active)
    } else if b == STATUS_DELIVERED {
        Some(Status::Delivered)
    } else if b == STATUS_ACCEPTED {
        Some(Status::Accepted)
    } else if b == STATUS_DISPUTED {
        Some(Status::Disputed)
    } else if b == STATUS_RELEASED {
        Some(Status::Released)
    } else if b == STATUS_REFUNDED {
        Some(Status::Refunded)
    } else {
        None
    }
}

impl Status {
    pub open spec fn byte(self) -> u8 {
        match self {
            Status::Active => STATUS_ACTIVE,
            Status::Delivered => STATUS_DELIVERED,
            Status::Accepted => STATUS_ACCEPTED,
            Status::Disputed => STATUS_DISPUTED,
            Status::Released => STATUS_RELEASED,
            Status::Refunded => STATUS_REFUNDED,
        }
    }

    /// Released and Refunded end a record's life.
    pub open spec fn is_terminal(self) -> bool {
        self == Status::Released || self == Status::Refunded
    }

    pub fn to_byte(self) -> (r: u8)
        ensures
            r == self.byte(),
            status_from_byte(r) == Some(self),
    {
        match self {
            Status::Active => STATUS_ACTIVE,
            Status::Delivered => STATUS_DELIVERED,
            Status::Accepted => STATUS_ACCEPTED,
            Status::Disputed => STATUS_DISPUTED,
            Status::Released => STATUS_RELEASED,
            Status::Refunded => STATUS_REFUNDED,
        }
    }

    pub fn from_byte(b: u8) -> (r: Option<Status>)
        ensures
            r == status_from_byte(b),
            r matches Some(s) ==> s.byte() == b,
    {
        if b == STATUS_ACTIVE {
            Some(Status::Active)
        } else if b == STATUS_DELIVERED {
            Some(Status::Delivered)
        } else if b == STATUS_ACCEPTED {
            Some(Status::Accepted)
        } else if b == STATUS_DISPUTED {
            Some(Status::Disputed)
        } else if b == STATUS_RELEASED {
            Some(Status::Released)
        } else if b == STATUS_REFUNDED {
            Some(Status::Refunded)
        } else {
            None
        }
    }

    pub fn terminal(self) -> (r: bool)
        ensures
            r == self.is_terminal(),
    {
        matches!(self, Status::Released | Status::Refunded)
    }
}

/// An escrow record in memory.
#[derive(Debug, Clone, Copy, PartialEq, Eq)]
pub struct EscrowRecord {
    pub buyer: [u8; 32],
    pub seller: [u8; 32],
    /// All zero when the record has no arbitrator.
    pub arbitrator: [u8; 32],
    /// Asset identifier; all zero for the native currency.
    pub mint: [u8; 32],
    pub amount: u64,
    pub created_at: u64,
    /// Zero disables the timeout.
    pub timeout_seconds: u64,
    /// Opaque commitment to the terms, never interpreted.
    pub terms_hash: [u8; 32],
    pub status: Status,
    /// Write-once audit bits, see the `FLAG_` constants.
    pub flags: u8,
    /// Nonce that regenerates the record's own address.
    pub bump: u8,
}

/// Mathematical model of a record: addresses and hashes as byte sequences.
pub struct RecordModel {
    pub buyer: Seq<u8>,
    pub seller: Seq<u8>,
    pub arbitrator: Seq<u8>,
    pub mint: Seq<u8>,
    pub amount: u64,
    pub created_at: u64,
    pub timeout_seconds: u64,
    pub terms_hash: Seq<u8>,
    pub status: Status,
    pub flags: u8,
    pub bump: u8,
}

impl RecordModel {
    /// Every address and the terms commitment are 32 bytes long.
    pub open spec fn wf(self) -> bool {
        &&& self.buyer.len() == 32
        &&& self.seller.len() == 32
        &&& self.arbitrator.len() == 32
        &&& self.mint.len() == 32
        &&& self.terms_hash.len() == 32
    }
}

impl View for EscrowRecord {
    type V = RecordModel;

    open spec fn view(&self) -> RecordModel {
        RecordModel {
            buyer: self.buyer@,
            seller: self.seller@,
            arbitrator: self.arbitrator@,
            mint: self.mint@,
            amount: self.amount,
            created_at: self.created_at,
            timeout_seconds: self.timeout_seconds,
            terms_hash: self.terms_hash@,
            status: self.status,
            flags: self.flags,
            bump: self.bump,
        }
    }
}

/// The bytes of a record, field after field in layout order.
pub open spec fn encode_model(m: RecordModel) -> Seq<u8> {
    spec_u64_to_le_bytes(ESCROW_DISC) + m.buyer + m.seller + m.arbitrator + m.mint
        + spec_u64_to_le_bytes(m.amount) + spec_u64_to_le_bytes(m.created_at)
        + spec_u64_to_le_bytes(m.timeout_seconds) + m.terms_hash + seq![
        m.status.byte(),
        m.flags,
        m.bump,
    ]
}

pub open spec fn u64_at(d: Seq<u8>, off: int) -> u64 {
    spec_u64_from_le_bytes(d.subrange(off, off + 8))
}

/// A buffer holds a record when it is long enough, starts with the type tag
/// and carries a known status byte.
pub open spec fn holds_record(d: Seq<u8>) -> bool {
    &&& d.len() >= ESCROW_SIZE
    &&& u64_at(d, OFF_DISC as int) == ESCROW_DISC
    &&& status_from_byte(d[OFF_STATUS as int]) is Some
}

/// The record that the first 195 bytes of a buffer hold, if any.
pub open spec fn decode_model(d: Seq<u8>) -> Option<RecordModel> {
    if holds_record(d) {
        Some(
            RecordModel {
                buyer: d.subrange(8, 40),
                seller: d.subrange(40, 72),
                arbitrator: d.subrange(72, 104),
                mint: d.subrange(104, 136),
                amount: u64_at(d, 136),
                created_at: u64_at(d, 144),
                timeout_seconds: u64_at(d, 152),
                terms_hash: d.subrange(160, 192),
                status: status_from_byte(d[192]).unwrap(),
                flags: d[193],
                bump: d[194],
            },
        )
    } else {
        None
    }
}

/// Decoding what was encoded gives back every field.
pub proof fn lemma_decode_encode(m: RecordModel)
    requires
        m.wf(),
    ensures
        encode_model(m).len() == ESCROW_SIZE,
        decode_model(encode_model(m)) == Some(m),
{
    lemma_auto_spec_u64_to_from_le_bytes();
    let e = encode_model(m);
    assert(e.subrange(0, 8) =~= spec_u64_to_le_bytes(ESCROW_DISC));
    assert(e.subrange(8, 40) =~= m.buyer);
    assert(e.subrange(40, 72) =~= m.seller);
    assert(e.subrange(72, 104) =~= m.arbitrator);
    assert(e.subrange(104, 136) =~= m.mint);
    assert(e.subrange(136, 144) =~= spec_u64_to_le_bytes(m.amount));
    assert(e.subrange(144, 152) =~= spec_u64_to_le_bytes(m.created_at));
    assert(e.subrange(152, 160) =~= spec_u64_to_le_bytes(m.timeout_seconds));
    assert(e.subrange(160, 192) =~= m.terms_hash);
    assert(e[192] == m.status.byte());
    assert(status_from_byte(m.status.byte()) == Some(m.status));
    let d = decode_model(e).unwrap();
    assert(d == m);
}

/// The buffer `d` with new status and flag bytes.
pub open spec fn with_state_bytes(d: Seq<u8>, s: Status, flags: u8) -> Seq<u8> {
    d.update(OFF_STATUS as int, s.byte()).update(OFF_FLAGS as int, flags)
}

/// Rewriting the status and flag bytes of a stored record changes those two
/// fields and no other.
pub proof fn lemma_decode_with_state(d: Seq<u8>, s: Status, flags: u8)
    requires
        decode_model(d) is Some,
    ensures
        decode_model(with_state_bytes(d, s, flags)) == Some(
            RecordModel { status: s, flags, ..decode_model(d).unwrap() },
        ),
{
    let e = with_state_bytes(d, s, flags);
    assert(e.subrange(0, 8) =~= d.subrange(0, 8));
    assert(e.subrange(8, 40) =~= d.subrange(8, 40));
    assert(e.subrange(40, 72) =~= d.subrange(40, 72));
    assert(e.subrange(72, 104) =~= d.subrange(72, 104));
    assert(e.subrange(104, 136) =~= d.subrange(104, 136));
    assert(e.subrange(136, 144) =~= d.subrange(136, 144));
    assert(e.subrange(144, 152) =~= d.subrange(144, 152));
    assert(e.subrange(152, 160) =~= d.subrange(152, 160));
    assert(e.subrange(160, 192) =~= d.subrange(160, 192));
    assert(status_from_byte(s.byte()) == Some(s));
}

/// Reads the little-endian u64 at `offset`.
pub fn read_u64(data: &[u8], offset: usize) -> (r: u64)
    requires
        offset + 8 <= data@.len(),
    ensures
        r == u64_at(data@, offset as int),
{
    let n = data.len();
    u64_from_le_bytes(slice_subrange(data, offset, offset + 8))
}

/// Writes `val` as eight little-endian bytes at `offset`, leaving the rest.
pub fn write_u64(data: &mut [u8], offset: usize, val: u64)
    requires
        offset + 8 <= old(data)@.len(),
    ensures
        final(data)@ == old(data)@.subrange(0, offset as int) + spec_u64_to_le_bytes(val)
            + old(data)@.subrange(offset + 8, old(data)@.len() as int),
{
    let n = data.len();
    let bytes = u64_to_le_bytes(val);
    let ghost start = data@;
    let mut i: usize = 0;
    while i < 8
        invariant
            0 <= i <= 8,
            offset + 8 <= start.len(),
            start.len() == n,
            bytes@ == spec_u64_to_le_bytes(val),
            bytes@.len() == 8,
            data@.len() == start.len(),
            forall|j: int| 0 <= j < offset || offset + i <= j < start.len() ==> data@[j] == start[j],
            forall|j: int| offset <= j < offset + i ==> data@[j] == bytes@[j - offset],
        decreases 8 - i,
    {
        data[offset + i] = bytes[i];
        i = i + 1;
    }
    assert(data@ =~= start.subrange(0, offset as int) + spec_u64_to_le_bytes(val) + start.subrange(
        offset + 8,
        start.len() as int,
    ));
}

/// Reads the 32-byte address at `offset`.
pub fn read_pubkey(data: &[u8], offset: usize) -> (r: [u8; 32])
    requires
        offset + 32 <= data@.len(),
    ensures
        r@ == data@.subrange(offset as int, offset + 32),
{
    let n = data.len();
    let mut pk = [0u8; 32];
    let mut i: usize = 0;
    while i < 32
        invariant
            0 <= i <= 32,
            offset + 32 <= data@.len(),
            data@.len() == n,
            pk@.len() == 32,
            forall|j: int| 0 <= j < i ==> pk@[j] == data@[offset + j],
        decreases 32 - i,
    {
        pk[i] = data[offset + i];
        i = i + 1;
    }
    assert(pk@ =~= data@.subrange(offset as int, offset + 32));
    pk
}

fn push_bytes(v: &mut Vec<u8>, s: &[u8])
    ensures
        final(v)@ == old(v)@ + s@,
{
    let ghost start = v@;
    let mut i: usize = 0;
    while i < s.len()
        invariant
            0 <= i <= s@.len(),
            v@ == start + s@.subrange(0, i as int),
        decreases s@.len() - i,
    {
        v.push(s[i]);
        i = i + 1;
        assert(v@ =~= start + s@.subrange(0, i as int));
    }
    assert(s@.subrange(0, s@.len() as int) =~= s@);
}

impl EscrowRecord {
    /// The 195 bytes that store this record.
    pub fn encode(&self) -> (r: Vec<u8>)
        ensures
            r@ == encode_model(self@),
            r@.len() == ESCROW_SIZE,
            decode_model(r@) == Some(self@),
    {
        let mut out: Vec<u8> = Vec::new();
        push_bytes(&mut out, u64_to_le_bytes(ESCROW_DISC).as_slice());
        push_bytes(&mut out, &self.buyer);
        push_bytes(&mut out, &self.seller);
        push_bytes(&mut out, &self.arbitrator);
        push_bytes(&mut out, &self.mint);
        push_bytes(&mut out, u64_to_le_bytes(self.amount).as_slice());
        push_bytes(&mut out, u64_to_le_bytes(self.created_at).as_slice());
        push_bytes(&mut out, u64_to_le_bytes(self.timeout_seconds).as_slice());
        push_bytes(&mut out, &self.terms_hash);
        out.push(self.status.to_byte());
        out.push(self.flags);
        out.push(self.bump);
        proof {
            lemma_decode_encode(self@);
        }
        assert(out@ =~= encode_model(self@));
        out
    }

    /// The record that `data` holds; `InvalidRecord` when it is shorter than
    /// 195 bytes, carries another type tag or an unknown status byte.
    pub fn decode(data: &[u8]) -> (r: Result<EscrowRecord, EscrowError>)
        ensures
            match decode_model(data@) {
                Some(m) => r matches Ok(rec) && rec@ == m,
                None => r == Err::<EscrowRecord, EscrowError>(EscrowError::InvalidRecord),
            },
    {
        if data.len() < ESCROW_SIZE {
            return Err(EscrowError::InvalidRecord);
        }
        if read_u64(data, OFF_DISC) != ESCROW_DISC {
            return Err(EscrowError::InvalidRecord);
        }
        let status = match Status::from_byte(data[OFF_STATUS]) {
            Some(s) => s,
            None => return Err(EscrowError::InvalidRecord),
        };
        Ok(
            EscrowRecord {
                buyer: read_pubkey(data, OFF_BUYER),
                seller: read_pubkey(data, OFF_SELLER),
                arbitrator: read_pubkey(data, OFF_ARBITRATOR),
                mint: read_pubkey(data, OFF_MINT),
                amount: read_u64(data, OFF_AMOUNT),
                created_at: read_u64(data, OFF_CREATED_AT),
                timeout_seconds: read_u64(data, OFF_TIMEOUT),
                terms_hash: read_pubkey(data, OFF_TERMS_HASH),
                status,
                flags: data[OFF_FLAGS],
                bump: data[OFF_BUMP],
            },
        )
    }
}

} // verus!
