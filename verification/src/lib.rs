//! A crowdfunding program for SPL tokens: a maker opens a fundraiser for a
//! target amount of one mint, contributors send tokens to a vault owned by
//! the fundraiser, the maker collects the vault once the target is met, and
//! contributors take their tokens back once the fundraiser has ended short
//! of its target.
//!
//! This crate holds the program's logic over plain values: the byte layout
//! of its accounts and instruction data, and for each instruction the
//! checks it makes and the effects it asks the runtime to carry out.
use vstd::prelude::*;

pub mod account;
pub mod consts;
pub mod error;
pub mod instruction;
pub mod state;

verus! {

/// The program's address.
pub const ID: [u8; 32] = [
    93, 253, 159, 137, 76, 9, 30, 116, 86, 83, 85, 26, 220, 152, 101, 235,
    1, 53, 156, 178, 147, 79, 189, 15, 52, 88, 176, 86, 170, 251, 67, 114,
];

/// Returns `true` if the given address is the program's address.
pub fn check_id(id: &[u8; 32]) -> (r: bool)
    ensures
        r == (*id == ID),
{
    let mut i: usize = 0;
    while i < 32
        invariant
            0 <= i <= 32,
            forall|j: int| 0 <= j < i ==> id[j] == ID[j],
        decreases 32 - i,
    {
        if id[i] != ID[i] {
            return false;
        }
        i = i + 1;
    }
    assert(*id =~= ID);
    true
}

/// Returns the program's address.
pub fn id() -> (r: [u8; 32])
    ensures
        r == ID,
{
    ID
}

} // verus!
