//! The account that records what one contributor has given to a fundraiser.
use super::utils::{push_range, ByteLayout, DataLEN, Initialized};
use vstd::bytes::*;
use vstd::prelude::*;

verus! {

/// What one contributor has given to a fundraiser.
///
/// Layout: the initialization flag in byte 0, then seven bytes of padding,
/// then the amount as a little-endian `u64` in bytes 8 to 16.
#[derive(Debug, Clone, Copy, PartialEq, Eq, Structural)]
pub struct Contribute {
    pub is_initialized: bool,
    pub amount: u64,
}

impl View for Contribute {
    type V = Contribute;

    open spec fn view(&self) -> Contribute {
        *self
    }
}

impl Contribute {
    /// The number of bytes a value takes.
    pub proof fn lemma_len()
        ensures
            Self::LEN == 16,
    {
    }
}

impl DataLEN for Contribute {
    const LEN: usize = 16;
}

impl Initialized for Contribute {
    open spec fn spec_is_initialized(v: Contribute) -> bool {
        v.is_initialized
    }

    fn is_initialized(&self) -> (r: bool) {
        self.is_initialized
    }
}

/// The byte that stores a flag.
pub open spec fn flag_byte(b: bool) -> u8 {
    if b {
        1u8
    } else {
        0u8
    }
}

impl ByteLayout for Contribute {
    open spec fn spec_decode(bytes: Seq<u8>) -> Contribute {
        Contribute {
            is_initialized: bytes[0] != 0,
            amount: spec_u64_from_le_bytes(bytes.subrange(8, 16)),
        }
    }

    open spec fn spec_write(v: Contribute, old: Seq<u8>) -> Seq<u8> {
        seq![flag_byte(v.is_initialized)] + old.subrange(1, 8) + spec_u64_to_le_bytes(v.amount)
    }

    proof fn lemma_write_decode(v: Contribute, old: Seq<u8>) {
        lemma_auto_spec_u64_to_from_le_bytes();
        let w = Self::spec_write(v@, old);
        assert(w.subrange(8, 16) =~= spec_u64_to_le_bytes(v.amount));
    }

    fn decode(bytes: &[u8]) -> (r: Contribute) {
        let amount = u64_from_le_bytes(&bytes[8..16]);
        Contribute { is_initialized: bytes[0] != 0, amount }
    }

    fn write_to(&self, bytes: &mut Vec<u8>) {
        let mut out: Vec<u8> = Vec::new();
        out.push(if self.is_initialized { 1u8 } else { 0u8 });
        push_range(&mut out, bytes.as_slice(), 1, 8);
        let mut amount = u64_to_le_bytes(self.amount);
        out.append(&mut amount);
        assert(out@ =~= Self::spec_write(self@, bytes@));
        *bytes = out;
    }
}

impl Default for Contribute {
    fn default() -> (r: Contribute)
        ensures
            r == (Contribute { is_initialized: false, amount: 0 }),
    {
        Contribute { is_initialized: false, amount: 0 }
    }
}

impl Contribute {
    /// The seed of the address of a contributor's account.
    pub const SEED: &'static str = "contribute";

    /// Marks the record initialized and sets the amount given.
    pub fn initialize(&mut self, amount: u64)
        ensures
            final(self).is_initialized,
            final(self).amount == amount,
    {
        self.is_initialized = true;
        self.amount = amount;
    }
}

} // verus!
