//! Guest addresses and snapshots of guest memory.

use vstd::prelude::*;

verus! {

/// The address that a guest's 32-bit result stands for: the same 32 bits read
/// as an unsigned number.
pub open spec fn guest_address(value: i32) -> int {
    if value >= 0 {
        value as int
    } else {
        value + 0x1_0000_0000
    }
}

/// The address that is recorded after a run: that of the value on success,
/// none after a failure.
pub open spec fn recorded_address<E>(outcome: Result<i32, E>) -> Option<usize> {
    match outcome {
        Ok(value) => Some(guest_address(value) as usize),
        Err(_) => None,
    }
}

/// The address that is reported for a recorded one: `0` stands for none.
pub open spec fn reported_address(recorded: Option<usize>) -> usize {
    match recorded {
        Some(address) => address,
        None => 0,
    }
}

/// How many bytes a snapshot copies: as many as fit and as many as there are.
pub open spec fn snapshot_len(buffer_len: int, memory_len: int) -> int {
    if buffer_len <= memory_len {
        buffer_len
    } else {
        memory_len
    }
}

/// What a buffer holds after a snapshot of `memory`: the start of the memory,
/// then what the buffer held before.
pub open spec fn snapshot(buffer: Seq<u8>, memory: Seq<u8>) -> Seq<u8> {
    let n = snapshot_len(buffer.len() as int, memory.len() as int);
    memory.subrange(0, n) + buffer.subrange(n, buffer.len() as int)
}

/// Reads a guest's 32-bit result as an unsigned address.
pub fn address_of(value: i32) -> (address: usize)
    ensures
        address == guest_address(value),
        address <= u32::MAX,
{
    if value >= 0 {
        value as usize
    } else {
        let wide: i64 = value as i64 + 0x1_0000_0000i64;
        let low: u32 = wide as u32;
        low as usize
    }
}

/// The address to record after a run with the given outcome.
pub fn address_after_run<E>(outcome: &Result<i32, E>) -> (recorded: Option<usize>)
    ensures
        recorded == recorded_address(*outcome),
{
    match outcome {
        Ok(value) => Some(address_of(*value)),
        Err(_) => None,
    }
}

/// The address to report for a recorded one.
pub fn address_or_zero(recorded: Option<usize>) -> (address: usize)
    ensures
        address == reported_address(recorded),
{
    match recorded {
        Some(address) => address,
        None => 0,
    }
}

/// Copies the start of `memory` into the start of `buffer` and returns the
/// number of bytes copied. Nothing past the end of either is read or written,
/// and the rest of `buffer` keeps what it held.
pub fn copy_prefix(buffer: &mut [u8], memory: &[u8]) -> (copied: usize)
    ensures
        copied == snapshot_len(old(buffer)@.len() as int, memory@.len() as int),
        final(buffer)@ == snapshot(old(buffer)@, memory@),
{
    let n: usize = if buffer.len() <= memory.len() {
        buffer.len()
    } else {
        memory.len()
    };
    let mut i: usize = 0;
    while i < n
        invariant
            i <= n,
            n <= memory@.len(),
            n <= buffer@.len(),
            buffer@.len() == old(buffer)@.len(),
            forall|k: int| 0 <= k < i ==> buffer@[k] == memory@[k],
            forall|k: int| i <= k < buffer@.len() ==> buffer@[k] == old(buffer)@[k],
        decreases n - i,
    {
        buffer[i] = memory[i];
        i = i + 1;
    }
    assert(buffer@ =~= snapshot(old(buffer)@, memory@));
    n
}

/// After a run and a snapshot the reported address is that of the guest's
/// result where the run succeeded, and `0` where it failed.
pub proof fn lemma_reported_after_run<E>(outcome: Result<i32, E>)
    ensures
        outcome matches Ok(value) ==> reported_address(recorded_address(outcome))
            == guest_address(value),
        outcome is Err ==> reported_address(recorded_address(outcome)) == 0,
{
}

/// A snapshot has the buffer's length, holds the memory's bytes in its first
/// `snapshot_len` places and the buffer's old bytes in all others, and
/// `snapshot_len` exceeds neither length.
pub proof fn lemma_snapshot_bounds(buffer: Seq<u8>, memory: Seq<u8>)
    ensures
        snapshot_len(buffer.len() as int, memory.len() as int) <= buffer.len(),
        snapshot_len(buffer.len() as int, memory.len() as int) <= memory.len(),
        snapshot(buffer, memory).len() == buffer.len(),
        forall|k: int|
            0 <= k < snapshot_len(buffer.len() as int, memory.len() as int) ==> snapshot(
                buffer,
                memory,
            )[k] == memory[k],
        forall|k: int|
            snapshot_len(buffer.len() as int, memory.len() as int) <= k < buffer.len()
                ==> snapshot(buffer, memory)[k] == buffer[k],
{
}

} // verus!
