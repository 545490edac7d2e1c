//! The escrow record: the one persistent entity of the protocol, and its
//! fixed binary layout.
//!
//! Layout, 121 bytes, integers little-endian:
//! `is_initialized(1) | initializer(32) | temp_token_account(32) |
//! initializer_receiving_account(32) | expected_amount(8) | unlock_time(8) |
//! timeout(8)`.

use vstd::prelude::*;
use vstd::bytes::*;
use vstd::slice::*;
use solana_program::program_error::ProgramError;
use crate::address::{Address, ADDRESS_LEN};

verus! {

/// A point in ledger time, in seconds.
pub type Timestamp = i64;

/// Size of a stored record in bytes.
pub const RECORD_LEN: usize = 121;

/// The terms of one swap and the accounts that hold its custody.
#[derive(Debug, Copy, Clone, PartialEq, Eq)]
pub struct EscrowRecord {
    /// Tells an open record from storage that was never written or was erased.
    pub is_initialized: bool,
    /// The party that opened the swap; alone entitled to cancel it or to
    /// reset its window.
    pub initializer: Address,
    /// The account, held by the program, with the initializer's deposit.
    pub temp_token_account: Address,
    /// Where the counter-asset lands when the swap completes.
    pub initializer_receiving_account: Address,
    /// The quantity of the counter-asset that the initializer asks for.
    pub expected_amount: u64,
    /// The earliest time at which an exchange may succeed.
    pub unlock_time: Timestamp,
    /// The latest time at which an exchange may succeed.
    pub timeout: Timestamp,
}

/// The 64 bits that a timestamp is stored as.
pub open spec fn spec_timestamp_bits(t: Timestamp) -> u64 {
    t as u64
}

/// The timestamp that 64 stored bits stand for.
pub open spec fn spec_timestamp_of_bits(bits: u64) -> Timestamp {
    bits as i64
}

/// Storing a timestamp and reading it back changes nothing, in either direction.
pub proof fn lemma_timestamp_bits(t: Timestamp, bits: u64)
    ensures
        spec_timestamp_of_bits(spec_timestamp_bits(t)) == t,
        spec_timestamp_bits(spec_timestamp_of_bits(bits)) == bits,
{
    assert((t as u64) as i64 == t) by (bit_vector);
    assert((bits as i64) as u64 == bits) by (bit_vector);
}

/// Whether `bytes` is the stored form of a well-formed record: 121 bytes, a
/// flag byte of 0 or 1, and, where the flag is 1, an unlock time before the
/// timeout.
pub open spec fn spec_valid_record_bytes(bytes: Seq<u8>) -> bool {
    &&& bytes.len() == RECORD_LEN
    &&& bytes[0] <= 1
    &&& bytes[0] == 1 ==> spec_timestamp_of_bits(spec_u64_from_le_bytes(bytes.subrange(105, 113)))
        < spec_timestamp_of_bits(spec_u64_from_le_bytes(bytes.subrange(113, 121)))
}

impl EscrowRecord {
    /// The invariant of a record: an open record has a non-empty window.
    pub open spec fn wf(self) -> bool {
        self.is_initialized ==> self.unlock_time < self.timeout
    }

    /// The record that erased storage holds: not open, every field zero.
    pub open spec fn spec_closed() -> EscrowRecord {
        EscrowRecord {
            is_initialized: false,
            initializer: Address::spec_zero(),
            temp_token_account: Address::spec_zero(),
            initializer_receiving_account: Address::spec_zero(),
            expected_amount: 0,
            unlock_time: 0,
            timeout: 0,
        }
    }

    /// The stored form of this record.
    pub open spec fn spec_pack(self) -> Seq<u8> {
        seq![if self.is_initialized { 1u8 } else { 0u8 }] + self.initializer@
            + self.temp_token_account@ + self.initializer_receiving_account@
            + spec_u64_to_le_bytes(self.expected_amount) + spec_u64_to_le_bytes(
            spec_timestamp_bits(self.unlock_time),
        ) + spec_u64_to_le_bytes(spec_timestamp_bits(self.timeout))
    }

    /// The erased record.
    pub fn closed() -> (r: EscrowRecord)
        ensures
            r == EscrowRecord::spec_closed(),
            r.wf(),
    {
        EscrowRecord {
            is_initialized: false,
            initializer: Address::zero(),
            temp_token_account: Address::zero(),
            initializer_receiving_account: Address::zero(),
            expected_amount: 0,
            unlock_time: 0,
            timeout: 0,
        }
    }

    /// Whether the record is open.
    pub fn is_open(&self) -> (b: bool)
        ensures
            b == self.is_initialized,
    {
        self.is_initialized
    }

    /// Writes the record in its stored form.
    pub fn pack(&self) -> (buf: Vec<u8>)
        ensures
            buf@ == self.spec_pack(),
            buf@.len() == RECORD_LEN,
    {
        let mut buf: Vec<u8> = Vec::with_capacity(RECORD_LEN);
        buf.push(if self.is_initialized { 1u8 } else { 0u8 });
        self.initializer.append_to(&mut buf);
        self.temp_token_account.append_to(&mut buf);
        self.initializer_receiving_account.append_to(&mut buf);
        let mut amount = u64_to_le_bytes(self.expected_amount);
        buf.append(&mut amount);
        let mut unlock = u64_to_le_bytes(self.unlock_time as u64);
        buf.append(&mut unlock);
        let mut timeout = u64_to_le_bytes(self.timeout as u64);
        buf.append(&mut timeout);
        proof {
            assert(buf@ =~= self.spec_pack());
        }
        buf
    }

    /// Reads a record from its stored form.
    ///
    /// Succeeds exactly on the stored forms of well-formed records, and then
    /// returns the record that `bytes` is the stored form of. Everything
    /// else is `InvalidAccountData`.
    pub fn unpack(bytes: &[u8]) -> (r: Result<EscrowRecord, ProgramError>)
        ensures
            r is Ok <==> spec_valid_record_bytes(bytes@),
            r matches Ok(record) ==> record.spec_pack() == bytes@ && record.wf(),
            r matches Err(e) ==> e == ProgramError::InvalidAccountData,
    {
        if bytes.len() != RECORD_LEN {
            return Err(ProgramError::InvalidAccountData);
        }
        let flag = bytes[0];
        if flag > 1 {
            return Err(ProgramError::InvalidAccountData);
        }
        let initializer = Address::from_slice(slice_subrange(bytes, 1, 33));
        let temp_token_account = Address::from_slice(slice_subrange(bytes, 33, 65));
        let initializer_receiving_account = Address::from_slice(slice_subrange(bytes, 65, 97));
        let expected_amount = u64_from_le_bytes(slice_subrange(bytes, 97, 105));
        let unlock_time = u64_from_le_bytes(slice_subrange(bytes, 105, 113)) as i64;
        let timeout = u64_from_le_bytes(slice_subrange(bytes, 113, 121)) as i64;
        if flag == 1 && unlock_time >= timeout {
            return Err(ProgramError::InvalidAccountData);
        }
        match (initializer, temp_token_account, initializer_receiving_account) {
            (Some(initializer), Some(temp_token_account), Some(initializer_receiving_account)) => {
                let record = EscrowRecord {
                    is_initialized: flag == 1,
                    initializer,
                    temp_token_account,
                    initializer_receiving_account,
                    expected_amount,
                    unlock_time,
                    timeout,
                };
                proof {
                    lemma_auto_spec_u64_to_from_le_bytes();
                    lemma_timestamp_bits(0, spec_u64_from_le_bytes(bytes@.subrange(105, 113)));
                    lemma_timestamp_bits(0, spec_u64_from_le_bytes(bytes@.subrange(113, 121)));
                    assert(record.spec_pack() =~= bytes@);
                }
                Ok(record)
            },
            _ => Err(ProgramError::InvalidAccountData),
        }
    }
}

/// The stored form of a record is 121 bytes long, begins with the flag, and
/// holds each field at its fixed place.
pub proof fn lemma_pack_layout(record: EscrowRecord)
    ensures
        record.spec_pack().len() == RECORD_LEN,
        record.spec_pack()[0] == (if record.is_initialized { 1u8 } else { 0u8 }),
        record.spec_pack().subrange(1, 33) == record.initializer@,
        record.spec_pack().subrange(33, 65) == record.temp_token_account@,
        record.spec_pack().subrange(65, 97) == record.initializer_receiving_account@,
        record.spec_pack().subrange(97, 105) == spec_u64_to_le_bytes(record.expected_amount),
        record.spec_pack().subrange(105, 113) == spec_u64_to_le_bytes(
            spec_timestamp_bits(record.unlock_time),
        ),
        record.spec_pack().subrange(113, 121) == spec_u64_to_le_bytes(
            spec_timestamp_bits(record.timeout),
        ),
{
    lemma_auto_spec_u64_to_from_le_bytes();
    let bytes = record.spec_pack();
    assert(bytes.subrange(1, 33) =~= record.initializer@);
    assert(bytes.subrange(33, 65) =~= record.temp_token_account@);
    assert(bytes.subrange(65, 97) =~= record.initializer_receiving_account@);
    assert(bytes.subrange(97, 105) =~= spec_u64_to_le_bytes(record.expected_amount));
    assert(bytes.subrange(105, 113) =~= spec_u64_to_le_bytes(
        spec_timestamp_bits(record.unlock_time),
    ));
    assert(bytes.subrange(113, 121) =~= spec_u64_to_le_bytes(spec_timestamp_bits(record.timeout)));
}

/// Two records with the same stored form are the same record.
pub proof fn lemma_pack_injective(a: EscrowRecord, b: EscrowRecord)
    requires
        a.spec_pack() == b.spec_pack(),
    ensures
        a == b,
{
    lemma_pack_layout(a);
    lemma_pack_layout(b);
    lemma_auto_spec_u64_to_from_le_bytes();
    lemma_timestamp_bits(a.unlock_time, 0);
    lemma_timestamp_bits(a.timeout, 0);
    lemma_timestamp_bits(b.unlock_time, 0);
    lemma_timestamp_bits(b.timeout, 0);
    crate::address::lemma_address_by_bytes(a.initializer, b.initializer);
    crate::address::lemma_address_by_bytes(a.temp_token_account, b.temp_token_account);
    crate::address::lemma_address_by_bytes(
        a.initializer_receiving_account,
        b.initializer_receiving_account,
    );
    assert(spec_u64_from_le_bytes(spec_u64_to_le_bytes(a.expected_amount)) == a.expected_amount);
    assert(spec_u64_from_le_bytes(spec_u64_to_le_bytes(b.expected_amount)) == b.expected_amount);
    assert(spec_u64_from_le_bytes(spec_u64_to_le_bytes(spec_timestamp_bits(a.unlock_time)))
        == spec_timestamp_bits(a.unlock_time));
    assert(spec_u64_from_le_bytes(spec_u64_to_le_bytes(spec_timestamp_bits(b.unlock_time)))
        == spec_timestamp_bits(b.unlock_time));
    assert(spec_u64_from_le_bytes(spec_u64_to_le_bytes(spec_timestamp_bits(a.timeout)))
        == spec_timestamp_bits(a.timeout));
    assert(spec_u64_from_le_bytes(spec_u64_to_le_bytes(spec_timestamp_bits(b.timeout)))
        == spec_timestamp_bits(b.timeout));
}

/// The stored form of a well-formed record is valid, so `unpack` accepts it;
/// by `lemma_pack_injective` it then returns that record.
pub proof fn lemma_pack_valid(record: EscrowRecord)
    requires
        record.wf(),
    ensures
        spec_valid_record_bytes(record.spec_pack()),
{
    lemma_pack_layout(record);
    lemma_auto_spec_u64_to_from_le_bytes();
    lemma_timestamp_bits(record.unlock_time, 0);
    lemma_timestamp_bits(record.timeout, 0);
}

/// Erased storage, 121 zero bytes, is the stored form of the erased record.
pub proof fn lemma_closed_is_zeroed()
    ensures
        EscrowRecord::spec_closed().wf(),
        EscrowRecord::spec_closed().spec_pack() == Seq::new(RECORD_LEN as nat, |i: int| 0u8),
        spec_valid_record_bytes(Seq::new(RECORD_LEN as nat, |i: int| 0u8)),
{
    let closed = EscrowRecord::spec_closed();
    lemma_pack_layout(closed);
    lemma_pack_valid(closed);
    let zero = Address::spec_zero();
    assert(forall|i: int| 0 <= i < ADDRESS_LEN ==> zero@[i] == 0);
    spec_u64_to_le_bytes_to_open(0);
    assert(0u64 & 0xff == 0 && (0u64 >> 8) & 0xff == 0 && (0u64 >> 16) & 0xff == 0 && (0u64 >> 24)
        & 0xff == 0 && (0u64 >> 32) & 0xff == 0 && (0u64 >> 40) & 0xff == 0 && (0u64 >> 48) & 0xff
        == 0 && (0u64 >> 56) & 0xff == 0) by (bit_vector);
    assert(forall|i: int| 0 <= i < 8 ==> spec_u64_to_le_bytes(0)[i] == 0);
    assert(closed.spec_pack() =~= Seq::new(RECORD_LEN as nat, |i: int| 0u8));
}

} // verus!
