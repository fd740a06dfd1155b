//! Opening a fundraiser.
//!
//! Accounts: the maker (signer), the mint to raise, the fundraiser's
//! account (empty, at the address the maker and the bump derive), the vault
//! (a token account that the fundraiser owns), the system program, the
//! token program.
use super::check::spec_check_status;
use super::{fundraiser_signer_seeds, spec_accepts_contributions, spec_fundraiser_seeds, trunc_div};
use crate::consts::SECONDS_TO_DAYS;
use crate::error::FundraiserError;
use crate::state::fundraiser::lemma_fundraiser_write_decode;
use crate::account::{effects_view, AccountSnapshot, Effect, EffectView};
use crate::error::ProcessError;
use crate::state::utils::{load_acc_mut_unchecked, load_ix_data, spec_load_acc, ByteLayout, DataLEN};
use crate::state::{Fundraiser, FundraiserView};
use vstd::bytes::*;
use vstd::prelude::*;

verus! {

/// The data of an Initialize instruction (10 bytes): the amount to raise
/// as a little-endian `u64`, then the duration in days, then the bump of
/// the fundraiser's address.
#[derive(Clone, Copy, Debug, PartialEq, Eq, Structural)]
pub struct InitializeInstructionData {
    pub amount: u64,
    pub duration: u8,
    pub bump: u8,
}

impl View for InitializeInstructionData {
    type V = InitializeInstructionData;

    open spec fn view(&self) -> InitializeInstructionData {
        *self
    }
}

impl InitializeInstructionData {
    /// The number of bytes a value takes.
    pub proof fn lemma_len()
        ensures
            Self::LEN == 10,
    {
    }
}

impl Default for InitializeInstructionData {
    fn default() -> (r: InitializeInstructionData)
        ensures
            r == (InitializeInstructionData { amount: 0, duration: 0, bump: 0 }),
    {
        InitializeInstructionData { amount: 0, duration: 0, bump: 0 }
    }
}

impl DataLEN for InitializeInstructionData {
    const LEN: usize = 10;
}

impl ByteLayout for InitializeInstructionData {
    open spec fn spec_decode(bytes: Seq<u8>) -> InitializeInstructionData {
        InitializeInstructionData {
            amount: spec_u64_from_le_bytes(bytes.subrange(0, 8)),
            duration: bytes[8],
            bump: bytes[9],
        }
    }

    open spec fn spec_write(v: InitializeInstructionData, old: Seq<u8>) -> Seq<u8> {
        spec_u64_to_le_bytes(v.amount) + seq![v.duration, v.bump]
    }

    proof fn lemma_write_decode(v: InitializeInstructionData, old: Seq<u8>) {
        lemma_auto_spec_u64_to_from_le_bytes();
        let w = Self::spec_write(v@, old);
        assert(w.subrange(0, 8) =~= spec_u64_to_le_bytes(v.amount));
    }

    fn decode(bytes: &[u8]) -> (r: InitializeInstructionData) {
        let amount = u64_from_le_bytes(&bytes[0..8]);
        InitializeInstructionData { amount, duration: bytes[8], bump: bytes[9] }
    }

    fn write_to(&self, bytes: &mut Vec<u8>) {
        let mut out = u64_to_le_bytes(self.amount);
        out.push(self.duration);
        out.push(self.bump);
        assert(out@ =~= Self::spec_write(self@, bytes@));
        *bytes = out;
    }
}

/// What the first part of Initialize decided: the instruction data, and
/// the creation of the fundraiser's account.
#[derive(Debug, Clone)]
pub struct InitializePlan {
    pub ix: InitializeInstructionData,
    pub create: Effect,
}

/// Whether the vault belongs to the fundraiser wherever the instruction
/// reaches that check (the program stops there otherwise).
pub open spec fn spec_initialize_vault_ok(accounts: Seq<AccountSnapshot>) -> bool {
    (accounts.len() >= 6 && accounts[0].is_signer && accounts[2].data@.len() == 0) ==> match accounts[3].token_account {
        Ok(t) => t.owner == accounts[2].key,
        Err(_) => true,
    }
}

/// Whether the vault belongs to the fundraiser wherever Initialize reaches
/// that check; where it does not, the program stops.
pub fn initialize_vault_ok(accounts: &[AccountSnapshot]) -> (r: bool)
    ensures
        r == spec_initialize_vault_ok(accounts@),
{
    if accounts.len() >= 6 && accounts[0].is_signer && accounts[2].data.len() == 0 {
        match &accounts[3].token_account {
            Ok(t) => super::same_key(&t.owner, &accounts[2].key),
            Err(_) => true,
        }
    } else {
        true
    }
}

/// Which check, if any, refuses the first part of Initialize, in the order
/// the program makes them.
pub open spec fn spec_initialize_begin_status(
    accounts: Seq<AccountSnapshot>,
    data: Seq<u8>,
    rent_exempt_lamports: Result<u64, u64>,
) -> Result<(), ProcessError> {
    if accounts.len() < 6 {
        Err(ProcessError::InvalidAccountData)
    } else if !accounts[0].is_signer {
        Err(ProcessError::MissingRequiredSignature)
    } else if accounts[2].data@.len() != 0 {
        Err(ProcessError::AccountAlreadyInitialized)
    } else if accounts[3].token_account is Err {
        Err(ProcessError::Runtime(accounts[3].token_account->Err_0))
    } else if rent_exempt_lamports is Err {
        Err(ProcessError::Runtime(rent_exempt_lamports->Err_0))
    } else if data.len() != InitializeInstructionData::LEN {
        Err(ProcessError::InvalidInstructionData)
    } else {
        Ok(())
    }
}

/// The first part of Initialize: checks the accounts and the instruction
/// data, and asks for the fundraiser's account to be created, paid by the
/// maker, with the rent-exempt balance, owned by this program, signed for
/// with the fundraiser's seeds.
///
/// `rent_exempt_lamports` is the rent-exempt balance for the fundraiser's
/// size as the rent sysvar gives it, or the runtime's error code.
pub fn initialize_begin(
    accounts: &[AccountSnapshot],
    instruction_data: &[u8],
    rent_exempt_lamports: Result<u64, u64>,
) -> (r: Result<InitializePlan, ProcessError>)
    requires
        spec_initialize_vault_ok(accounts@),
    ensures
        match r {
            Ok(plan) => {
                &&& spec_initialize_begin_status(accounts@, instruction_data@, rent_exempt_lamports)
                    == Ok::<(), ProcessError>(())
                &&& plan.ix == InitializeInstructionData::spec_decode(instruction_data@)
                &&& rent_exempt_lamports matches Ok(lamports) && plan.create@ == EffectView::CreateAccount {
                    from: 0,
                    to: 2,
                    lamports,
                    space: Fundraiser::LEN as u64,
                    owner: crate::ID@,
                    seeds: spec_fundraiser_seeds(accounts@[0].key@, plan.ix.bump),
                }
            },
            Err(e) => spec_initialize_begin_status(accounts@, instruction_data@, rent_exempt_lamports)
                == Err::<(), ProcessError>(e),
        },
{
    if accounts.len() < 6 {
        return Err(ProcessError::InvalidAccountData);
    }
    let maker = &accounts[0];
    let fundraiser = &accounts[2];
    let vault = &accounts[3];
    if !maker.is_signer {
        return Err(ProcessError::MissingRequiredSignature);
    }
    if fundraiser.data.len() != 0 {
        return Err(ProcessError::AccountAlreadyInitialized);
    }
    match &vault.token_account {
        Err(code) => {
            return Err(ProcessError::Runtime(*code));
        },
        Ok(_) => {},
    }
    let lamports = match rent_exempt_lamports {
        Err(code) => {
            return Err(ProcessError::Runtime(code));
        },
        Ok(l) => l,
    };
    let ix = load_ix_data::<InitializeInstructionData>(instruction_data)?;
    let seeds = fundraiser_signer_seeds(&maker.key, ix.bump);
    let create = Effect::CreateAccount {
        from: 0,
        to: 2,
        lamports,
        space: Fundraiser::LEN as u64,
        owner: crate::ID,
        seeds,
    };
    Ok(InitializePlan { ix, create })
}

/// The state of a fundraiser just opened by `maker` for `mint` at `now`.
pub open spec fn spec_opened_fundraiser(
    maker: Seq<u8>,
    mint: Seq<u8>,
    ix: InitializeInstructionData,
    now: i64,
) -> FundraiserView {
    FundraiserView {
        is_initialized: true,
        maker,
        mint_to_raise: mint,
        amount_to_raise: ix.amount,
        current_amount: 0,
        time_started: now,
        duration: ix.duration,
        bump: ix.bump,
    }
}

/// The second part of Initialize, once the fundraiser's account exists:
/// records the maker, the mint, the target, the duration, the bump and the
/// start time in it, with nothing raised yet.
///
/// `now` is the clock sysvar's Unix time, or the runtime's error code.
pub fn initialize_finish(
    accounts: &[AccountSnapshot],
    plan: &InitializePlan,
    now: Result<i64, u64>,
) -> (r: Result<Vec<Effect>, ProcessError>)
    requires
        accounts@.len() >= 6,
    ensures
        accounts@[2].data@.len() != Fundraiser::LEN ==> r == Err::<Vec<Effect>, ProcessError>(
            ProcessError::InvalidAccountData,
        ),
        accounts@[2].data@.len() == Fundraiser::LEN ==> match now {
            Err(code) => r == Err::<Vec<Effect>, ProcessError>(ProcessError::Runtime(code)),
            Ok(t) => {
                let opened = spec_opened_fundraiser(accounts@[0].key@, accounts@[1].key@, plan.ix, t);
                let data = Fundraiser::spec_write(opened, accounts@[2].data@);
                &&& r is Ok
                &&& effects_view(r->Ok_0) == seq![EffectView::WriteData { account: 2, data }]
                &&& spec_load_acc::<Fundraiser>(data) == Ok::<FundraiserView, ProcessError>(opened)
                &&& spec_load_acc::<Fundraiser>(data) is Ok
                &&& spec_load_acc::<Fundraiser>(data)->Ok_0.is_initialized
                &&& spec_load_acc::<Fundraiser>(data)->Ok_0.maker == accounts@[0].key@
                &&& spec_load_acc::<Fundraiser>(data)->Ok_0.mint_to_raise == accounts@[1].key@
                &&& spec_load_acc::<Fundraiser>(data)->Ok_0.amount_to_raise == plan.ix.amount
                &&& spec_load_acc::<Fundraiser>(data)->Ok_0.current_amount == 0
                &&& spec_load_acc::<Fundraiser>(data)->Ok_0.time_started == t
                &&& spec_load_acc::<Fundraiser>(data)->Ok_0.duration == plan.ix.duration
                &&& spec_load_acc::<Fundraiser>(data)->Ok_0.bump == plan.ix.bump
            },
        },
{
    let fundraiser_acc = &accounts[2];
    let mut fundraiser_state = load_acc_mut_unchecked::<Fundraiser>(fundraiser_acc.data.as_slice())?;
    let time_started = match now {
        Err(code) => {
            return Err(ProcessError::Runtime(code));
        },
        Ok(t) => t,
    };
    fundraiser_state.initialize(
        accounts[0].key,
        accounts[1].key,
        plan.ix.amount,
        plan.ix.duration,
        plan.ix.bump,
        time_started,
    );
    let mut data = vstd::slice::slice_to_vec(fundraiser_acc.data.as_slice());
    fundraiser_state.write_to(&mut data);
    proof {
        Fundraiser::lemma_write_decode(fundraiser_state, fundraiser_acc.data@);
    }
    let mut effects: Vec<Effect> = Vec::new();
    effects.push(Effect::WriteData { account: 2, data });
    assert(effects_view(effects) =~= seq![effects@[0]@]);
    Ok(effects)
}

/// A fundraiser just opened has raised nothing, accepts contributions at
/// the moment it starts, and cannot be collected while its target is above
/// zero.
pub proof fn law_opened_fundraiser(
    maker: Seq<u8>,
    mint: Seq<u8>,
    ix: InitializeInstructionData,
    t: i64,
    old: Seq<u8>,
    check_accounts: Seq<AccountSnapshot>,
)
    requires
        maker.len() == 32,
        mint.len() == 32,
        old.len() == Fundraiser::LEN,
        check_accounts.len() >= 7,
        check_accounts[0].is_signer,
        check_accounts[2].data@ == Fundraiser::spec_write(spec_opened_fundraiser(maker, mint, ix, t), old),
        ix.amount > 0,
    ensures
        spec_opened_fundraiser(maker, mint, ix, t).current_amount == 0,
        spec_accepts_contributions(ix.duration, t, t),
        spec_check_status(check_accounts) == Err::<(), ProcessError>(
            ProcessError::Fundraiser(FundraiserError::TargetNotMet),
        ),
{
    lemma_fundraiser_write_decode(spec_opened_fundraiser(maker, mint, ix, t), old);
    assert(trunc_div(t - t, SECONDS_TO_DAYS as int) == 0);
}

/// Once Initialize has written a fundraiser's account, a second
/// Initialize on it is refused as already initialized, whatever its
/// instruction data and rent.
pub proof fn law_reinitialize_refused(
    maker: Seq<u8>,
    mint: Seq<u8>,
    ix: InitializeInstructionData,
    t: i64,
    old: Seq<u8>,
    accounts: Seq<AccountSnapshot>,
    data: Seq<u8>,
    rent_exempt_lamports: Result<u64, u64>,
)
    requires
        maker.len() == 32,
        mint.len() == 32,
        old.len() == Fundraiser::LEN,
        accounts.len() >= 6,
        accounts[0].is_signer,
        accounts[2].data@ == Fundraiser::spec_write(spec_opened_fundraiser(maker, mint, ix, t), old),
    ensures
        spec_initialize_begin_status(accounts, data, rent_exempt_lamports) == Err::<(), ProcessError>(
            ProcessError::AccountAlreadyInitialized,
        ),
{
    lemma_fundraiser_write_decode(spec_opened_fundraiser(maker, mint, ix, t), old);
}

/// Initialize reads only its first six accounts: two account lists that
/// agree on them get the same answer from the first part, and the second
/// part writes the same fundraiser state over the same bytes.
pub proof fn law_initialize_ignores_extra_accounts(
    a: Seq<AccountSnapshot>,
    b: Seq<AccountSnapshot>,
    data: Seq<u8>,
    rent_exempt_lamports: Result<u64, u64>,
    ix: InitializeInstructionData,
    t: i64,
)
    requires
        a.len() >= 6,
        b.len() >= 6,
        forall|i: int| 0 <= i < 6 ==> #[trigger] a[i] == b[i],
    ensures
        spec_initialize_begin_status(a, data, rent_exempt_lamports) == spec_initialize_begin_status(
            b,
            data,
            rent_exempt_lamports,
        ),
        spec_fundraiser_seeds(a[0].key@, ix.bump) == spec_fundraiser_seeds(b[0].key@, ix.bump),
        Fundraiser::spec_write(spec_opened_fundraiser(a[0].key@, a[1].key@, ix, t), a[2].data@)
            == Fundraiser::spec_write(spec_opened_fundraiser(b[0].key@, b[1].key@, ix, t), b[2].data@),
{
    assert(a[0] == b[0]);
    assert(a[1] == b[1]);
    assert(a[2] == b[2]);
    assert(a[3] == b[3]);
}

/// A fundraiser opened by Initialize, read back, holds the instruction's
/// terms unchanged: the target, the duration and the bump as given, the
/// maker and the mint, the start time, and nothing raised.
pub proof fn law_opened_records_terms(
    maker: Seq<u8>,
    mint: Seq<u8>,
    ix: InitializeInstructionData,
    t: i64,
    old: Seq<u8>,
)
    requires
        maker.len() == 32,
        mint.len() == 32,
        old.len() == Fundraiser::LEN,
    ensures
        ({
            let g = Fundraiser::spec_decode(
                Fundraiser::spec_write(spec_opened_fundraiser(maker, mint, ix, t), old),
            );
            &&& g.is_initialized
            &&& g.maker == maker
            &&& g.mint_to_raise == mint
            &&& g.amount_to_raise == ix.amount
            &&& g.current_amount == 0
            &&& g.time_started == t
            &&& g.duration == ix.duration
            &&& g.bump == ix.bump
        }),
{
    lemma_fundraiser_write_decode(spec_opened_fundraiser(maker, mint, ix, t), old);
}

/// The first part of Initialize goes ahead only when at least six accounts
/// are named, the maker signs, the fundraiser's account is empty, the
/// vault reads as a token account, the rent is known and the instruction
/// data is ten bytes long.
pub proof fn law_initialize_begin_gate(
    accounts: Seq<AccountSnapshot>,
    data: Seq<u8>,
    rent_exempt_lamports: Result<u64, u64>,
)
    ensures
        spec_initialize_begin_status(accounts, data, rent_exempt_lamports) is Ok <==> (accounts.len()
            >= 6 && accounts[0].is_signer && accounts[2].data@.len() == 0
            && accounts[3].token_account is Ok && rent_exempt_lamports is Ok && data.len() == 10),
{
    InitializeInstructionData::lemma_len();
}

} // verus!
