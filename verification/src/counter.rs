use vstd::prelude::*;

use crate::account::Account;
use crate::address::Address;
use crate::error::ProcError;

verus! {

/// The width of the counter record in a counter-bearing account's data.
pub const COUNTER_SIZE: usize = 4;

/// The counter stored in a 4-byte record, little-endian.
pub open spec fn spec_counter_of(data: Seq<u8>) -> u32
    recommends
        data.len() == COUNTER_SIZE,
{
    (data[0] as u32) | ((data[1] as u32) << 8) | ((data[2] as u32) << 16) | ((data[3] as u32)
        << 24)
}

/// The 4-byte little-endian record of a counter value.
pub open spec fn spec_counter_bytes(v: u32) -> Seq<u8> {
    seq![(v & 0xff) as u8, ((v >> 8) & 0xff) as u8, ((v >> 16) & 0xff) as u8, ((v >> 24) & 0xff) as u8]
}

/// The counter after one successful call: one more, wrapping at the record's
/// 32-bit width.
pub open spec fn spec_next_counter(v: u32) -> u32 {
    if v == 0xffff_ffff {
        0
    } else {
        (v + 1) as u32
    }
}

/// Re-reading an encoded counter yields the value that was encoded.
pub proof fn lemma_counter_round_trip(v: u32)
    ensures
        spec_counter_of(spec_counter_bytes(v)) == v,
{
    let b0 = (v & 0xff) as u8;
    let b1 = ((v >> 8) & 0xff) as u8;
    let b2 = ((v >> 16) & 0xff) as u8;
    let b3 = ((v >> 24) & 0xff) as u8;
    assert((b0 as u32) | ((b1 as u32) << 8) | ((b2 as u32) << 16) | ((b3 as u32) << 24) == v)
        by (bit_vector)
        requires
            b0 == (v & 0xff) as u8,
            b1 == ((v >> 8) & 0xff) as u8,
            b2 == ((v >> 16) & 0xff) as u8,
            b3 == ((v >> 24) & 0xff) as u8,
    ;
}

/// Decodes the counter from an account's data. A record of any other width
/// cannot be decoded and fails the call.
pub fn read_counter(data: &Vec<u8>) -> (r: Result<u32, ProcError>)
    ensures
        data@.len() == COUNTER_SIZE ==> r == Ok::<u32, ProcError>(spec_counter_of(data@)),
        data@.len() != COUNTER_SIZE ==> r == Err::<u32, ProcError>(ProcError::SerializationError),
{
    if data.len() != COUNTER_SIZE {
        return Err(ProcError::SerializationError);
    }
    let v = (data[0] as u32) | ((data[1] as u32) << 8) | ((data[2] as u32) << 16) | ((data[3]
        as u32) << 24);
    Ok(v)
}

/// Encodes a counter value as its 4-byte record.
fn counter_bytes(v: u32) -> (r: Vec<u8>)
    ensures
        r@ == spec_counter_bytes(v),
{
    let mut out: Vec<u8> = Vec::new();
    out.push((v & 0xff) as u8);
    out.push(((v >> 8) & 0xff) as u8);
    out.push(((v >> 16) & 0xff) as u8);
    out.push(((v >> 24) & 0xff) as u8);
    proof {
        assert(out@ =~= spec_counter_bytes(v));
    }
    out
}

/// Increments the counter stored in the target account by exactly one, in
/// place. Before mutating, verifies that the account's recorded owner is the
/// running program; on any failure the account is left unchanged.
pub fn update_counter(program_id: &Address, account: &mut Account) -> (r: Result<(), ProcError>)
    ensures
        old(account).owner != *program_id ==> r == Err::<(), ProcError>(
            ProcError::AuthorizationError,
        ) && *final(account) == *old(account),
        old(account).owner == *program_id && old(account).data@.len() != COUNTER_SIZE ==> r == Err::<
            (),
            ProcError,
        >(ProcError::SerializationError) && *final(account) == *old(account),
        old(account).owner == *program_id && old(account).data@.len() == COUNTER_SIZE ==> {
            &&& r == Ok::<(), ProcError>(())
            &&& final(account).key == old(account).key
            &&& final(account).owner == old(account).owner
            &&& final(account).data@ == spec_counter_bytes(
                spec_next_counter(spec_counter_of(old(account).data@)),
            )
            &&& spec_counter_of(final(account).data@) == spec_next_counter(
                spec_counter_of(old(account).data@),
            )
        },
{
    if account.owner != *program_id {
        return Err(ProcError::AuthorizationError);
    }
    let v = match read_counter(&account.data) {
        Ok(v) => v,
        Err(e) => {
            return Err(e);
        },
    };
    let next: u32 = if v == 0xffff_ffff {
        0
    } else {
        v + 1
    };
    account.data = counter_bytes(next);
    proof {
        lemma_counter_round_trip(next);
    }
    Ok(())
}

/// Two successful calls advance the counter by exactly two: updating a valid
/// record once and then reading it back yields one more than the start, and a
/// second update yields one more again, each wrapping at the record's width.
pub proof fn lemma_counter_two_updates(data: Seq<u8>)
    requires
        data.len() == COUNTER_SIZE,
    ensures
        spec_counter_of(spec_counter_bytes(spec_next_counter(spec_counter_of(data))))
            == spec_next_counter(spec_counter_of(data)),
        spec_counter_of(
            spec_counter_bytes(
                spec_next_counter(
                    spec_counter_of(spec_counter_bytes(spec_next_counter(spec_counter_of(data)))),
                ),
            ),
        ) == spec_next_counter(spec_next_counter(spec_counter_of(data))),
{
    lemma_counter_round_trip(spec_next_counter(spec_counter_of(data)));
    lemma_counter_round_trip(spec_next_counter(spec_next_counter(spec_counter_of(data))));
}

} // verus!
