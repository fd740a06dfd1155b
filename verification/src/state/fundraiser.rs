//! The account that holds the state of one fundraiser.
use super::contribute::flag_byte;
use super::utils::{push_range, ByteLayout, DataLEN, Initialized};
use vstd::bytes::*;
use vstd::prelude::*;

verus! {

/// The state of one fundraiser.
///
/// Layout (104 bytes): the initialization flag in byte 0, the maker's
/// address in bytes 1 to 33, the mint's address in bytes 33 to 65, seven
/// bytes of padding, then little-endian the amount to raise in bytes 72 to
/// 80, the amount raised so far in bytes 80 to 88, the start time in bytes
/// 88 to 96, then the duration in days in byte 96, the address bump in
/// byte 97, and six bytes of padding.
#[derive(Debug, Clone, Copy, PartialEq, Eq)]
pub struct Fundraiser {
    pub is_initialized: bool,
    /// The person who started the fundraiser.
    pub maker: [u8; 32],
    /// The mint the maker wants to receive.
    pub mint_to_raise: [u8; 32],
    /// The target amount.
    pub amount_to_raise: u64,
    /// The total amount given so far.
    pub current_amount: u64,
    /// When the fundraiser started, in seconds since the Unix epoch.
    pub time_started: i64,
    /// How long the fundraiser collects contributions, in days.
    pub duration: u8,
    /// The bump of the fundraiser's program-derived address.
    pub bump: u8,
}

/// The state of a fundraiser, with addresses as sequences of bytes.
pub struct FundraiserView {
    pub is_initialized: bool,
    pub maker: Seq<u8>,
    pub mint_to_raise: Seq<u8>,
    pub amount_to_raise: u64,
    pub current_amount: u64,
    pub time_started: i64,
    pub duration: u8,
    pub bump: u8,
}

impl View for Fundraiser {
    type V = FundraiserView;

    open spec fn view(&self) -> FundraiserView {
        FundraiserView {
            is_initialized: self.is_initialized,
            maker: self.maker@,
            mint_to_raise: self.mint_to_raise@,
            amount_to_raise: self.amount_to_raise,
            current_amount: self.current_amount,
            time_started: self.time_started,
            duration: self.duration,
            bump: self.bump,
        }
    }
}

impl Fundraiser {
    /// The number of bytes a value takes.
    pub proof fn lemma_len()
        ensures
            Self::LEN == 104,
    {
    }
}

impl DataLEN for Fundraiser {
    const LEN: usize = 104;
}

impl Initialized for Fundraiser {
    open spec fn spec_is_initialized(v: FundraiserView) -> bool {
        v.is_initialized
    }

    fn is_initialized(&self) -> (r: bool) {
        self.is_initialized
    }
}

/// Reads 32 bytes starting at `start` as an address.
pub(crate) fn read_key(bytes: &[u8], start: usize) -> (r: [u8; 32])
    requires
        start + 32 <= bytes@.len(),
    ensures
        r@ == bytes@.subrange(start as int, start + 32),
{
    let mut k = [0u8; 32];
    let n = bytes.len();
    let mut i: usize = 0;
    while i < 32
        invariant
            0 <= i <= 32,
            n == bytes@.len(),
            start + 32 <= bytes@.len(),
            forall|j: int| 0 <= j < i ==> k[j] == bytes@[start + j],
        decreases 32 - i,
    {
        k[i] = bytes[start + i];
        i = i + 1;
    }
    assert(k@ =~= bytes@.subrange(start as int, start + 32));
    k
}

proof fn lemma_i64_u64_roundtrip(t: i64)
    ensures
        ((t as u64) as i64) == t,
{
    assert(((t as u64) as i64) == t) by (bit_vector);
}

/// Writing a fundraiser's state over 104 bytes and reading it back gives
/// the state.
pub proof fn lemma_fundraiser_write_decode(v: FundraiserView, old: Seq<u8>)
    requires
        v.maker.len() == 32,
        v.mint_to_raise.len() == 32,
        old.len() == Fundraiser::LEN,
    ensures
        Fundraiser::spec_write(v, old).len() == Fundraiser::LEN,
        Fundraiser::spec_decode(Fundraiser::spec_write(v, old)) == v,
{
    lemma_auto_spec_u64_to_from_le_bytes();
    lemma_i64_u64_roundtrip(v.time_started);
    let w = Fundraiser::spec_write(v, old);
    assert(w.subrange(1, 33) =~= v.maker);
    assert(w.subrange(33, 65) =~= v.mint_to_raise);
    assert(w.subrange(72, 80) =~= spec_u64_to_le_bytes(v.amount_to_raise));
    assert(w.subrange(80, 88) =~= spec_u64_to_le_bytes(v.current_amount));
    assert(w.subrange(88, 96) =~= spec_u64_to_le_bytes(v.time_started as u64));
}

impl ByteLayout for Fundraiser {
    open spec fn spec_decode(bytes: Seq<u8>) -> FundraiserView {
        FundraiserView {
            is_initialized: bytes[0] != 0,
            maker: bytes.subrange(1, 33),
            mint_to_raise: bytes.subrange(33, 65),
            amount_to_raise: spec_u64_from_le_bytes(bytes.subrange(72, 80)),
            current_amount: spec_u64_from_le_bytes(bytes.subrange(80, 88)),
            time_started: spec_u64_from_le_bytes(bytes.subrange(88, 96)) as i64,
            duration: bytes[96],
            bump: bytes[97],
        }
    }

    open spec fn spec_write(v: FundraiserView, old: Seq<u8>) -> Seq<u8> {
        seq![flag_byte(v.is_initialized)] + v.maker + v.mint_to_raise + old.subrange(65, 72)
            + spec_u64_to_le_bytes(v.amount_to_raise) + spec_u64_to_le_bytes(v.current_amount)
            + spec_u64_to_le_bytes(v.time_started as u64) + seq![v.duration, v.bump]
            + old.subrange(98, 104)
    }

    proof fn lemma_write_decode(v: Fundraiser, old: Seq<u8>) {
        lemma_fundraiser_write_decode(v@, old);
    }

    fn decode(bytes: &[u8]) -> (r: Fundraiser) {
        let maker = read_key(bytes, 1);
        let mint_to_raise = read_key(bytes, 33);
        let amount_to_raise = u64_from_le_bytes(&bytes[72..80]);
        let current_amount = u64_from_le_bytes(&bytes[80..88]);
        let time_started = u64_from_le_bytes(&bytes[88..96]) as i64;
        Fundraiser {
            is_initialized: bytes[0] != 0,
            maker,
            mint_to_raise,
            amount_to_raise,
            current_amount,
            time_started,
            duration: bytes[96],
            bump: bytes[97],
        }
    }

    fn write_to(&self, bytes: &mut Vec<u8>) {
        let mut out: Vec<u8> = Vec::new();
        out.push(if self.is_initialized { 1u8 } else { 0u8 });
        push_range(&mut out, self.maker.as_slice(), 0, 32);
        push_range(&mut out, self.mint_to_raise.as_slice(), 0, 32);
        push_range(&mut out, bytes.as_slice(), 65, 72);
        let mut amount_to_raise = u64_to_le_bytes(self.amount_to_raise);
        out.append(&mut amount_to_raise);
        let mut current_amount = u64_to_le_bytes(self.current_amount);
        out.append(&mut current_amount);
        let mut time_started = u64_to_le_bytes(self.time_started as u64);
        out.append(&mut time_started);
        out.push(self.duration);
        out.push(self.bump);
        push_range(&mut out, bytes.as_slice(), 98, 104);
        assert(self.maker@.subrange(0, 32) =~= self.maker@);
        assert(self.mint_to_raise@.subrange(0, 32) =~= self.mint_to_raise@);
        assert(out@ =~= Self::spec_write(self@, bytes@));
        *bytes = out;
    }
}

impl Default for Fundraiser {
    fn default() -> (r: Fundraiser)
        ensures
            !r.is_initialized,
            r.maker@ == Seq::new(32, |i: int| 0u8),
            r.mint_to_raise@ == Seq::new(32, |i: int| 0u8),
            r.amount_to_raise == 0,
            r.current_amount == 0,
            r.time_started == 0,
            r.duration == 0,
            r.bump == 0,
    {
        let r = Fundraiser {
            is_initialized: false,
            maker: [0u8; 32],
            mint_to_raise: [0u8; 32],
            amount_to_raise: 0,
            current_amount: 0,
            time_started: 0,
            duration: 0,
            bump: 0,
        };
        assert(r.maker@ =~= Seq::new(32, |i: int| 0u8));
        assert(r.mint_to_raise@ =~= Seq::new(32, |i: int| 0u8));
        r
    }
}

impl Fundraiser {
    /// The seed of the address of a fundraiser's account.
    pub const SEED: &'static str = "fundraiser";

    /// Sets up a new fundraiser with nothing raised yet.
    pub fn initialize(
        &mut self,
        maker: [u8; 32],
        mint_to_raise: [u8; 32],
        amount_to_raise: u64,
        duration: u8,
        bump: u8,
        time_started: i64,
    )
        ensures
            final(self).is_initialized,
            final(self).maker == maker,
            final(self).mint_to_raise == mint_to_raise,
            final(self).amount_to_raise == amount_to_raise,
            final(self).current_amount == 0,
            final(self).time_started == time_started,
            final(self).duration == duration,
            final(self).bump == bump,
    {
        self.is_initialized = true;
        self.maker = maker;
        self.mint_to_raise = mint_to_raise;
        self.amount_to_raise = amount_to_raise;
        self.current_amount = 0;
        self.time_started = time_started;
        self.duration = duration;
        self.bump = bump;
    }
}

} // verus!
