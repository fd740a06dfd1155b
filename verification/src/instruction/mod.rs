//! The program's instructions: decoding them, and the rules each follows.
use crate::consts::SECONDS_TO_DAYS;
use crate::error::ProcessError;
use vstd::prelude::*;

pub mod check;
pub mod contribute;
pub mod initialize;
pub mod refund;

pub use check::process_check;
pub use contribute::{ContributeInstructionData, ContributePlan};
pub use initialize::{InitializeInstructionData, InitializePlan};
pub use refund::process_refund;


verus! {

/// The instructions, by the first byte of the instruction data.
#[derive(Clone, Copy, Debug, PartialEq, Eq, Structural)]
pub enum FundraiserInsruction {
    /// Byte 0: open a fundraiser.
    Initialize,
    /// Byte 1: give tokens to a fundraiser.
    Contribute,
    /// Byte 2: the maker collects a fundraiser that met its target.
    CheckContribution,
    /// Byte 3: a contributor takes back what they gave to a fundraiser that
    /// ended short of its target.
    RefundAndClose,
}

/// The instruction that a first byte names, if any.
pub open spec fn spec_instruction_of(value: u8) -> Option<FundraiserInsruction> {
    if value == 0 {
        Some(FundraiserInsruction::Initialize)
    } else if value == 1 {
        Some(FundraiserInsruction::Contribute)
    } else if value == 2 {
        Some(FundraiserInsruction::CheckContribution)
    } else if value == 3 {
        Some(FundraiserInsruction::RefundAndClose)
    } else {
        None
    }
}

/// The first byte that names an instruction.
pub open spec fn spec_tag(ix: FundraiserInsruction) -> u8 {
    match ix {
        FundraiserInsruction::Initialize => 0,
        FundraiserInsruction::Contribute => 1,
        FundraiserInsruction::CheckContribution => 2,
        FundraiserInsruction::RefundAndClose => 3,
    }
}

impl FundraiserInsruction {
    /// The instruction that the byte names; any byte above 3 names none.
    pub fn try_from(value: &u8) -> (r: Result<FundraiserInsruction, ProcessError>)
        ensures
            match spec_instruction_of(*value) {
                Some(ix) => r == Ok::<FundraiserInsruction, ProcessError>(ix),
                None => r == Err::<FundraiserInsruction, ProcessError>(
                    ProcessError::InvalidInstructionData,
                ),
            },
    {
        match *value {
            0 => Ok(FundraiserInsruction::Initialize),
            1 => Ok(FundraiserInsruction::Contribute),
            2 => Ok(FundraiserInsruction::CheckContribution),
            3 => Ok(FundraiserInsruction::RefundAndClose),
            _ => Err(ProcessError::InvalidInstructionData),
        }
    }

    /// The byte that names this instruction.
    pub fn tag(&self) -> (r: u8)
        ensures
            r == spec_tag(*self),
    {
        match self {
            FundraiserInsruction::Initialize => 0,
            FundraiserInsruction::Contribute => 1,
            FundraiserInsruction::CheckContribution => 2,
            FundraiserInsruction::RefundAndClose => 3,
        }
    }
}

/// The instruction that instruction data names by its first byte, and the
/// rest of the data, which belongs to that instruction.
pub fn decode_instruction(instruction_data: &[u8]) -> (r: Result<
    (FundraiserInsruction, &[u8]),
    ProcessError,
>)
    ensures
        instruction_data@.len() == 0 ==> r is Err && r->Err_0 == ProcessError::InvalidInstructionData,
        instruction_data@.len() > 0 ==> match spec_instruction_of(instruction_data@[0]) {
            Some(ix) => r is Ok && r->Ok_0.0 == ix && r->Ok_0.1@ == instruction_data@.subrange(
                1,
                instruction_data@.len() as int,
            ),
            None => r is Err && r->Err_0 == ProcessError::InvalidInstructionData,
        },
{
    if instruction_data.len() == 0 {
        return Err(ProcessError::InvalidInstructionData);
    }
    let ix = FundraiserInsruction::try_from(&instruction_data[0])?;
    let rest = &instruction_data[1..instruction_data.len()];
    Ok((ix, rest))
}

/// Each instruction's byte names it, and only the four bytes 0 to 3 name
/// an instruction.
pub proof fn law_instruction_tags(ix: FundraiserInsruction, value: u8)
    ensures
        spec_instruction_of(spec_tag(ix)) == Some(ix),
        spec_instruction_of(value) is Some <==> value < 4,
        spec_instruction_of(value) matches Some(j) ==> spec_tag(j) == value,
{
}

/// Division rounding toward zero, as Rust divides signed integers.
pub open spec fn trunc_div(a: int, b: int) -> int {
    if a >= 0 {
        a / b
    } else {
        -((-a) / b)
    }
}

/// The whole days from the start to `now`, rounded toward zero.
pub open spec fn spec_elapsed_days(now: i64, time_started: i64) -> int {
    trunc_div(now - time_started, SECONDS_TO_DAYS as int)
}

/// The whole days from the start to `now`, rounded toward zero (negative
/// before the start).
pub fn elapsed_days(now: i64, time_started: i64) -> (r: i64)
    ensures
        r == spec_elapsed_days(now, time_started),
{
    let diff: i128 = now as i128 - time_started as i128;
    let days: i128 = diff / (SECONDS_TO_DAYS as i128);
    assert(-0x1_0000_0000_0000_0000 <= diff <= 0x1_0000_0000_0000_0000);
    assert(-0x1_0000_0000_0000 <= days <= 0x1_0000_0000_0000) by (nonlinear_arith)
        requires
            -0x1_0000_0000_0000_0000 <= diff <= 0x1_0000_0000_0000_0000,
            days == trunc_div(diff as int, 86400),
    {
    }
    days as i64
}

/// Whether, as far as time goes, a fundraiser of `duration` days started
/// at `time_started` still accepts contributions at `now`: no more whole
/// days than its duration have passed.
pub open spec fn spec_accepts_contributions(duration: u8, now: i64, time_started: i64) -> bool {
    spec_elapsed_days(now, time_started) <= duration as int
}

/// Whether, as far as time goes, a fundraiser of `duration` days started
/// at `time_started` has ended at `now`, so that contributors may take
/// their tokens back: at least its duration in whole days has passed.
pub open spec fn spec_allows_refunds(duration: u8, now: i64, time_started: i64) -> bool {
    spec_elapsed_days(now, time_started) >= duration as int
}

/// At every time a fundraiser either accepts contributions or allows
/// refunds, and it does both only on the day its duration runs out.
pub proof fn law_time_windows(duration: u8, now: i64, time_started: i64)
    ensures
        spec_accepts_contributions(duration, now, time_started) || spec_allows_refunds(
            duration,
            now,
            time_started,
        ),
        (spec_accepts_contributions(duration, now, time_started) && spec_allows_refunds(
            duration,
            now,
            time_started,
        )) <==> duration as int == spec_elapsed_days(now, time_started),
{
}

/// The bytes of the seed "fundraiser".
pub open spec fn fundraiser_seed() -> Seq<u8> {
    seq![102u8, 117u8, 110u8, 100u8, 114u8, 97u8, 105u8, 115u8, 101u8, 114u8]
}

/// The bytes of the seed "contribute".
pub open spec fn contribute_seed() -> Seq<u8> {
    seq![99u8, 111u8, 110u8, 116u8, 114u8, 105u8, 98u8, 117u8, 116u8, 101u8]
}

/// The seeds of a fundraiser's address: "fundraiser", the maker, the bump.
pub open spec fn spec_fundraiser_seeds(maker: Seq<u8>, bump: u8) -> Seq<Seq<u8>> {
    seq![fundraiser_seed(), maker, seq![bump]]
}

/// The seeds of a contributor's account address: "contribute", the
/// fundraiser, the contributor, the bump.
pub open spec fn spec_contributor_seeds(fundraiser: Seq<u8>, contributor: Seq<u8>, bump: u8) -> Seq<Seq<u8>> {
    seq![contribute_seed(), fundraiser, contributor, seq![bump]]
}

/// Whether two addresses are the same.
pub fn same_key(a: &[u8; 32], b: &[u8; 32]) -> (r: bool)
    ensures
        r == (*a == *b),
{
    let mut i: usize = 0;
    while i < 32
        invariant
            0 <= i <= 32,
            forall|j: int| 0 <= j < i ==> a[j] == b[j],
        decreases 32 - i,
    {
        if a[i] != b[i] {
            return false;
        }
        i = i + 1;
    }
    assert(*a =~= *b);
    true
}

/// The address as a vector of bytes.
pub(crate) fn key_bytes(key: &[u8; 32]) -> (r: Vec<u8>)
    ensures
        r@ == key@,
{
    let r = vstd::slice::slice_to_vec(key.as_slice());
    r
}

/// The seeds with which a fundraiser signs for its address.
pub fn fundraiser_signer_seeds(maker: &[u8; 32], bump: u8) -> (r: Vec<Vec<u8>>)
    ensures
        crate::account::seeds_view(r) == spec_fundraiser_seeds(maker@, bump),
{
    let seed: Vec<u8> = vec![102u8, 117u8, 110u8, 100u8, 114u8, 97u8, 105u8, 115u8, 101u8, 114u8];
    let bump_seed: Vec<u8> = vec![bump];
    let mut r: Vec<Vec<u8>> = Vec::new();
    r.push(seed);
    r.push(key_bytes(maker));
    r.push(bump_seed);
    assert(r@[0]@ =~= fundraiser_seed());
    assert(r@[2]@ =~= seq![bump]);
    assert(crate::account::seeds_view(r) =~= spec_fundraiser_seeds(maker@, bump));
    r
}

/// The seeds with which a contributor's account signs for its address.
pub fn contributor_signer_seeds(fundraiser: &[u8; 32], contributor: &[u8; 32], bump: u8) -> (r: Vec<
    Vec<u8>,
>)
    ensures
        crate::account::seeds_view(r) == spec_contributor_seeds(fundraiser@, contributor@, bump),
{
    let seed: Vec<u8> = vec![99u8, 111u8, 110u8, 116u8, 114u8, 105u8, 98u8, 117u8, 116u8, 101u8];
    let bump_seed: Vec<u8> = vec![bump];
    let mut r: Vec<Vec<u8>> = Vec::new();
    r.push(seed);
    r.push(key_bytes(fundraiser));
    r.push(key_bytes(contributor));
    r.push(bump_seed);
    assert(r@[0]@ =~= contribute_seed());
    assert(r@[3]@ =~= seq![bump]);
    assert(crate::account::seeds_view(r) =~= spec_contributor_seeds(fundraiser@, contributor@, bump));
    r
}

/// The first byte of instruction data names the instructions in this
/// order: 0 opens a fundraiser, 1 contributes, 2 collects, 3 refunds; no
/// other byte names one.
pub proof fn law_instruction_bytes(value: u8)
    ensures
        spec_instruction_of(0) == Some(FundraiserInsruction::Initialize),
        spec_instruction_of(1) == Some(FundraiserInsruction::Contribute),
        spec_instruction_of(2) == Some(FundraiserInsruction::CheckContribution),
        spec_instruction_of(3) == Some(FundraiserInsruction::RefundAndClose),
        value >= 4 ==> spec_instruction_of(value) is None,
{
}

} // verus!
