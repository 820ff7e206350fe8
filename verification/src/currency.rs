//! Time and currency units, and the storage deposit formula.
use vstd::prelude::*;

verus! {

/// Balance of an account.
pub type Balance = u128;

/// An index to a block.
pub type BlockNumber = u32;

/// Index of a transaction in the chain.
pub type Nonce = u32;

/// The average expected block time that the chain targets, in milliseconds.
pub const MILLISECS_PER_BLOCK: u64 = 6000;

/// The slot duration used by block authoring; equal to the block time.
pub const SLOT_DURATION: u64 = MILLISECS_PER_BLOCK;

/// Number of blocks in one minute.
pub const MINUTES: BlockNumber = 60_000 / (MILLISECS_PER_BLOCK as BlockNumber);

/// Number of blocks in one hour.
pub const HOURS: BlockNumber = MINUTES * 60;

/// Number of blocks in one day.
pub const DAYS: BlockNumber = HOURS * 24;

/// The smallest named unit of balance used by the runtime.
pub const MILLICENTS: Balance = 1_000_000_000;

/// One cent: a thousand millicents.
pub const CENTS: Balance = 1_000 * MILLICENTS;

/// One dollar: a hundred cents.
pub const DOLLARS: Balance = 100 * CENTS;

/// The existential deposit of an account.
pub const EXISTENTIAL_DEPOSIT: u128 = 500;

/// The deposit charged for `items` storage items holding `bytes` bytes:
/// fifteen cents per item and six cents per byte.
pub open spec fn spec_deposit(items: int, bytes: int) -> int {
    items * 15 * CENTS + bytes * 6 * CENTS
}

/// Computes the storage deposit for `items` items taking `bytes` bytes.
/// It is exact for every input: the result always fits in a `Balance`.
pub fn deposit(items: u32, bytes: u32) -> (r: Balance)
    ensures
        r == spec_deposit(items as int, bytes as int),
{
    proof {
        lemma_deposit_fits(items as int, bytes as int);
    }
    items as Balance * 15 * CENTS + (bytes as Balance) * 6 * CENTS
}

/// For item and byte counts that fit in a `u32`, every partial sum of the
/// deposit formula fits in a `Balance`.
proof fn lemma_deposit_fits(items: int, bytes: int)
    requires
        0 <= items <= u32::MAX,
        0 <= bytes <= u32::MAX,
    ensures
        0 <= items * 15 <= u32::MAX * 15,
        0 <= items * 15 * CENTS <= u32::MAX * 15 * CENTS,
        0 <= bytes * 6 <= u32::MAX * 6,
        0 <= bytes * 6 * CENTS <= u32::MAX * 6 * CENTS,
        spec_deposit(items, bytes) <= u128::MAX,
{
    assert(0 <= items * 15 * 1_000_000_000_000 <= u32::MAX * 15 * 1_000_000_000_000) by (nonlinear_arith)
        requires 0 <= items <= u32::MAX;
    assert(0 <= bytes * 6 * 1_000_000_000_000 <= u32::MAX * 6 * 1_000_000_000_000) by (nonlinear_arith)
        requires 0 <= bytes <= u32::MAX;
}

/// The deposit is additive: storing two batches costs the sum of what each
/// costs alone.
pub proof fn lemma_deposit_additive(items1: int, bytes1: int, items2: int, bytes2: int)
    ensures
        spec_deposit(items1 + items2, bytes1 + bytes2) == spec_deposit(items1, bytes1)
            + spec_deposit(items2, bytes2),
{
    assert(spec_deposit(items1 + items2, bytes1 + bytes2) == spec_deposit(items1, bytes1)
        + spec_deposit(items2, bytes2)) by (nonlinear_arith);
}

/// The deposit grows with the number of items and with the number of bytes.
pub proof fn lemma_deposit_monotonic(items1: int, bytes1: int, items2: int, bytes2: int)
    requires
        items1 <= items2,
        bytes1 <= bytes2,
    ensures
        spec_deposit(items1, bytes1) <= spec_deposit(items2, bytes2),
{
    assert(spec_deposit(items1, bytes1) <= spec_deposit(items2, bytes2)) by (nonlinear_arith)
        requires
            items1 <= items2,
            bytes1 <= bytes2,
    ;
}

} // verus!
