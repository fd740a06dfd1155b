//! Giving tokens to a fundraiser.
//!
//! Accounts: the contributor (signer), the mint to raise, the fundraiser's
//! account, the contributor's record account, the contributor's token
//! account, the vault, the token program, the system program.
use super::{
    contributor_signer_seeds, elapsed_days, same_key, spec_accepts_contributions,
    spec_contributor_seeds,
};
use crate::account::{effects_view, spec_books_balance, AccountSnapshot, Effect, EffectView};
use crate::consts::{MAX_CONTRIBUTION_PERCENTAGE, PERCENTAGE_SCALER};
use crate::error::{FundraiserError, ProcessError};
use crate::state::utils::{
    load_acc_mut, load_acc_mut_unchecked, load_ix_data, spec_load_acc, spec_load_acc_unchecked,
    ByteLayout, DataLEN,
};
use crate::state::{Contribute, Fundraiser, FundraiserView};
use vstd::bytes::*;
use vstd::prelude::*;

verus! {

/// The data of a Contribute instruction (10 bytes): the amount as a
/// little-endian `u64`, then the bump of the fundraiser's address, then the
/// bump of the contributor's record address.
#[derive(Clone, Copy, Debug, PartialEq, Eq, Structural)]
pub struct ContributeInstructionData {
    pub amount: u64,
    pub fundraiser_bump: u8,
    pub contributor_bump: u8,
}

impl View for ContributeInstructionData {
    type V = ContributeInstructionData;

    open spec fn view(&self) -> ContributeInstructionData {
        *self
    }
}

impl ContributeInstructionData {
    /// The number of bytes a value takes.
    pub proof fn lemma_len()
        ensures
            Self::LEN == 10,
    {
    }
}

impl Default for ContributeInstructionData {
    fn default() -> (r: ContributeInstructionData)
        ensures
            r == (ContributeInstructionData { amount: 0, fundraiser_bump: 0, contributor_bump: 0 }),
    {
        ContributeInstructionData { amount: 0, fundraiser_bump: 0, contributor_bump: 0 }
    }
}

impl DataLEN for ContributeInstructionData {
    const LEN: usize = 10;
}

impl ByteLayout for ContributeInstructionData {
    open spec fn spec_decode(bytes: Seq<u8>) -> ContributeInstructionData {
        ContributeInstructionData {
            amount: spec_u64_from_le_bytes(bytes.subrange(0, 8)),
            fundraiser_bump: bytes[8],
            contributor_bump: bytes[9],
        }
    }

    open spec fn spec_write(v: ContributeInstructionData, old: Seq<u8>) -> Seq<u8> {
        spec_u64_to_le_bytes(v.amount) + seq![v.fundraiser_bump, v.contributor_bump]
    }

    proof fn lemma_write_decode(v: ContributeInstructionData, old: Seq<u8>) {
        lemma_auto_spec_u64_to_from_le_bytes();
        let w = Self::spec_write(v@, old);
        assert(w.subrange(0, 8) =~= spec_u64_to_le_bytes(v.amount));
    }

    fn decode(bytes: &[u8]) -> (r: ContributeInstructionData) {
        let amount = u64_from_le_bytes(&bytes[0..8]);
        ContributeInstructionData { amount, fundraiser_bump: bytes[8], contributor_bump: bytes[9] }
    }

    fn write_to(&self, bytes: &mut Vec<u8>) {
        let mut out = u64_to_le_bytes(self.amount);
        out.push(self.fundraiser_bump);
        out.push(self.contributor_bump);
        assert(out@ =~= Self::spec_write(self@, bytes@));
        *bytes = out;
    }
}

/// The largest contribution a fundraiser accepts: ten percent of its
/// target, rounded down.
pub open spec fn spec_max_contribution(amount_to_raise: u64) -> int {
    (amount_to_raise * MAX_CONTRIBUTION_PERCENTAGE) / (PERCENTAGE_SCALER as int)
}

/// The largest contribution a fundraiser with this target accepts.
pub fn max_contribution(amount_to_raise: u64) -> (r: u64)
    requires
        amount_to_raise * MAX_CONTRIBUTION_PERCENTAGE <= u64::MAX,
    ensures
        r == spec_max_contribution(amount_to_raise),
{
    (amount_to_raise * MAX_CONTRIBUTION_PERCENTAGE) / PERCENTAGE_SCALER
}

/// What the first part of Contribute decided: the instruction data, and
/// the creation of the contributor's record account if it has none yet.
#[derive(Debug, Clone)]
pub struct ContributePlan {
    pub ix: ContributeInstructionData,
    pub create: Option<Effect>,
}

/// Whether the contributor's record must be created: its account is empty
/// or not owned by this program.
pub open spec fn spec_needs_record(record: AccountSnapshot) -> bool {
    record.data@.len() == 0 || record.owner != crate::ID
}

/// Whether the vault belongs to the fundraiser and the contributor's token
/// account to the contributor, wherever the instruction reaches those
/// checks (the program stops there otherwise).
pub open spec fn spec_contribute_owners_ok(accounts: Seq<AccountSnapshot>) -> bool {
    (accounts.len() == 8 && accounts[0].is_signer) ==> match accounts[5].token_account {
        Ok(vault) => vault.owner == accounts[2].key && match accounts[4].token_account {
            Ok(ata) => ata.owner == accounts[0].key,
            Err(_) => true,
        },
        Err(_) => true,
    }
}

/// Whether the token accounts belong where Contribute checks they do;
/// where they do not, the program stops.
pub fn contribute_owners_ok(accounts: &[AccountSnapshot]) -> (r: bool)
    ensures
        r == spec_contribute_owners_ok(accounts@),
{
    if accounts.len() == 8 && accounts[0].is_signer {
        match &accounts[5].token_account {
            Ok(vault) => {
                if !same_key(&vault.owner, &accounts[2].key) {
                    return false;
                }
                match &accounts[4].token_account {
                    Ok(ata) => same_key(&ata.owner, &accounts[0].key),
                    Err(_) => true,
                }
            },
            Err(_) => true,
        }
    } else {
        true
    }
}

/// Which check, if any, refuses the first part of Contribute, in the order
/// the program makes them.
pub open spec fn spec_contribute_begin_status(
    accounts: Seq<AccountSnapshot>,
    data: Seq<u8>,
    rent_exempt_lamports: Result<u64, u64>,
) -> Result<(), ProcessError> {
    if accounts.len() != 8 {
        Err(ProcessError::InvalidAccountData)
    } else if !accounts[0].is_signer {
        Err(ProcessError::MissingRequiredSignature)
    } else if accounts[5].token_account is Err {
        Err(ProcessError::Runtime(accounts[5].token_account->Err_0))
    } else if accounts[4].token_account is Err {
        Err(ProcessError::Runtime(accounts[4].token_account->Err_0))
    } else if data.len() != ContributeInstructionData::LEN {
        Err(ProcessError::InvalidInstructionData)
    } else if spec_needs_record(accounts[3]) && rent_exempt_lamports is Err {
        Err(ProcessError::Runtime(rent_exempt_lamports->Err_0))
    } else {
        Ok(())
    }
}

/// The first part of Contribute: checks the accounts and the instruction
/// data, and, if the contributor has no record yet, asks for it to be
/// created, paid by the contributor, with the rent-exempt balance, owned by
/// this program, signed for with the record's seeds.
///
/// `rent_exempt_lamports` is the rent-exempt balance for a record's size as
/// the rent sysvar gives it, or the runtime's error code; it is only read
/// when a record is created.
pub fn contribute_begin(
    accounts: &[AccountSnapshot],
    instruction_data: &[u8],
    rent_exempt_lamports: Result<u64, u64>,
) -> (r: Result<ContributePlan, ProcessError>)
    requires
        spec_contribute_owners_ok(accounts@),
    ensures
        match r {
            Ok(plan) => {
                &&& spec_contribute_begin_status(accounts@, instruction_data@, rent_exempt_lamports)
                    == Ok::<(), ProcessError>(())
                &&& plan.ix == ContributeInstructionData::spec_decode(instruction_data@)
                &&& plan.create is Some <==> spec_needs_record(accounts@[3])
                &&& plan.create is Some <==> (accounts@[3].data@.len() == 0 || accounts@[3].owner
                    != crate::ID)
                &&& plan.create matches Some(c) ==> (rent_exempt_lamports matches Ok(lamports)
                    && c@ == EffectView::CreateAccount {
                    from: 0,
                    to: 3,
                    lamports,
                    space: Contribute::LEN as u64,
                    owner: crate::ID@,
                    seeds: spec_contributor_seeds(
                        accounts@[2].key@,
                        accounts@[0].key@,
                        plan.ix.contributor_bump,
                    ),
                })
            },
            Err(e) => spec_contribute_begin_status(accounts@, instruction_data@, rent_exempt_lamports)
                == Err::<(), ProcessError>(e),
        },
{
    if accounts.len() != 8 {
        return Err(ProcessError::InvalidAccountData);
    }
    let contributor = &accounts[0];
    let fundraiser = &accounts[2];
    let record = &accounts[3];
    if !contributor.is_signer {
        return Err(ProcessError::MissingRequiredSignature);
    }
    match &accounts[5].token_account {
        Err(code) => {
            return Err(ProcessError::Runtime(*code));
        },
        Ok(_) => {},
    }
    match &accounts[4].token_account {
        Err(code) => {
            return Err(ProcessError::Runtime(*code));
        },
        Ok(_) => {},
    }
    let ix = load_ix_data::<ContributeInstructionData>(instruction_data)?;
    if record.data.len() == 0 || !crate::check_id(&record.owner) {
        let lamports = match rent_exempt_lamports {
            Err(code) => {
                return Err(ProcessError::Runtime(code));
            },
            Ok(l) => l,
        };
        let seeds = contributor_signer_seeds(&fundraiser.key, &contributor.key, ix.contributor_bump);
        let create = Effect::CreateAccount {
            from: 0,
            to: 3,
            lamports,
            space: Contribute::LEN as u64,
            owner: crate::ID,
            seeds,
        };
        Ok(ContributePlan { ix, create: Some(create) })
    } else {
        Ok(ContributePlan { ix, create: None })
    }
}

/// The contributor's record data the rest of Contribute reads: a record
/// just created is first initialized, with nothing given yet.
pub open spec fn spec_record_data(accounts: Seq<AccountSnapshot>, plan: ContributePlan) -> Result<
    Seq<u8>,
    ProcessError,
> {
    if plan.create is Some {
        match spec_load_acc_unchecked::<Contribute>(accounts[3].data@) {
            Ok(c) => Ok(
                Contribute::spec_write(
                    Contribute { is_initialized: true, amount: 0 },
                    accounts[3].data@,
                ),
            ),
            Err(e) => Err(e),
        }
    } else {
        Ok(accounts[3].data@)
    }
}

/// What the second part of Contribute reads before it applies the rules:
/// the fundraiser, the contributor's record, the mint's decimals and the
/// record's data; or the first error on the way.
pub open spec fn spec_contribute_loads(accounts: Seq<AccountSnapshot>, plan: ContributePlan) -> Result<
    (FundraiserView, Contribute, u8, Seq<u8>),
    ProcessError,
> {
    match spec_record_data(accounts, plan) {
        Err(e) => Err(e),
        Ok(record) => match accounts[1].mint {
            Err(code) => Err(ProcessError::Runtime(code)),
            Ok(mint) => match spec_load_acc::<Fundraiser>(accounts[2].data@) {
                Err(e) => Err(e),
                Ok(f) => match spec_load_acc::<Contribute>(record) {
                    Err(e) => Err(e),
                    Ok(c) => Ok((f, c, mint.decimals, record)),
                },
            },
        },
    }
}

/// Reads what the second part of Contribute needs: the fundraiser, the
/// contributor's record (initialized with the amount given if it was just
/// created), the mint's decimals, and the record's data.
pub fn contribute_load(accounts: &[AccountSnapshot], plan: &ContributePlan) -> (r: Result<
    (Fundraiser, Contribute, u8, Vec<u8>),
    ProcessError,
>)
    requires
        accounts@.len() == 8,
    ensures
        match r {
            Ok((f, c, decimals, record)) => spec_contribute_loads(accounts@, *plan) == Ok::<
                (FundraiserView, Contribute, u8, Seq<u8>),
                ProcessError,
            >((f@, c, decimals, record@)),
            Err(e) => spec_contribute_loads(accounts@, *plan) == Err::<
                (FundraiserView, Contribute, u8, Seq<u8>),
                ProcessError,
            >(e),
        },
{
    let record_acc = &accounts[3];
    let record: Vec<u8> = match &plan.create {
        Some(_) => {
            let mut c = load_acc_mut_unchecked::<Contribute>(record_acc.data.as_slice())?;
            c.initialize(0);
            let mut d = vstd::slice::slice_to_vec(record_acc.data.as_slice());
            c.write_to(&mut d);
            d
        },
        None => vstd::slice::slice_to_vec(record_acc.data.as_slice()),
    };
    let decimals = match &accounts[1].mint {
        Err(code) => {
            return Err(ProcessError::Runtime(*code));
        },
        Ok(m) => m.decimals,
    };
    let fundraiser_state = load_acc_mut::<Fundraiser>(accounts[2].data.as_slice())?;
    let contributor_state = load_acc_mut::<Contribute>(record.as_slice())?;
    Ok((fundraiser_state, contributor_state, decimals, record))
}

/// Which rule, if any, refuses a contribution of `amount` by a contributor
/// with record `c` to fundraiser `f` at time `now`, in the order the
/// program checks them.
pub open spec fn spec_contribution_status(
    f: FundraiserView,
    c: Contribute,
    amount: u64,
    now: Result<i64, u64>,
) -> Result<(), ProcessError> {
    let max = spec_max_contribution(f.amount_to_raise);
    if amount > max {
        Err(ProcessError::Fundraiser(FundraiserError::ContributionTooBig))
    } else if c.amount + amount > max {
        Err(ProcessError::Fundraiser(FundraiserError::MaximumContributionsReached))
    } else {
        match now {
            Err(code) => Err(ProcessError::Runtime(code)),
            Ok(t) => if !spec_accepts_contributions(f.duration, t, f.time_started) {
                Err(ProcessError::Fundraiser(FundraiserError::FundraiserEnded))
            } else {
                Ok(())
            },
        }
    }
}

/// Whether the program's arithmetic stays in range on the way to its
/// decision about this contribution (it stops where it would not).
pub open spec fn spec_contribution_in_range(
    f: FundraiserView,
    c: Contribute,
    amount: u64,
    now: Result<i64, u64>,
) -> bool {
    let max = spec_max_contribution(f.amount_to_raise);
    &&& f.amount_to_raise * MAX_CONTRIBUTION_PERCENTAGE <= u64::MAX
    &&& (c.amount + amount <= max) ==> match now {
        Ok(t) => spec_accepts_contributions(f.duration, t, f.time_started) ==> f.current_amount
            + amount <= u64::MAX,
        Err(_) => true,
    }
}

/// Whether the program's arithmetic stays in range on the way to its
/// decision about this contribution; where it does not, the program stops.
pub fn contribution_in_range(f: &Fundraiser, c: &Contribute, amount: u64, now: Result<i64, u64>) -> (r:
    bool)
    ensures
        r == spec_contribution_in_range(f@, *c, amount, now),
{
    if f.amount_to_raise > u64::MAX / MAX_CONTRIBUTION_PERCENTAGE {
        return false;
    }
    let max = max_contribution(f.amount_to_raise);
    if amount > max || c.amount > max - amount {
        return true;
    }
    match now {
        Err(_) => true,
        Ok(t) => {
            if elapsed_days(t, f.time_started) <= f.duration as i64 {
                f.current_amount <= u64::MAX - amount
            } else {
                true
            }
        },
    }
}

/// The record after a contribution of `amount`.
pub open spec fn spec_record_after(c: Contribute, amount: u64) -> Contribute {
    Contribute { is_initialized: c.is_initialized, amount: (c.amount + amount) as u64 }
}

/// The fundraiser after a contribution of `amount`.
pub open spec fn spec_fundraiser_after(f: FundraiserView, amount: u64) -> FundraiserView {
    FundraiserView { current_amount: (f.current_amount + amount) as u64, ..f }
}

/// The effects of an accepted contribution: the tokens move from the
/// contributor's token account to the vault, then the record and the
/// fundraiser each count the amount.
pub open spec fn spec_contribution_effects(
    accounts: Seq<AccountSnapshot>,
    f: FundraiserView,
    c: Contribute,
    decimals: u8,
    record: Seq<u8>,
    amount: u64,
) -> Seq<EffectView> {
    seq![
        EffectView::TransferChecked {
            from: 4,
            to: 5,
            authority: 0,
            mint: 1,
            amount,
            decimals,
            seeds: Seq::<Seq<u8>>::empty(),
        },
        EffectView::WriteData { account: 3, data: Contribute::spec_write(spec_record_after(c, amount), record) },
        EffectView::WriteData {
            account: 2,
            data: Fundraiser::spec_write(spec_fundraiser_after(f, amount), accounts[2].data@),
        },
    ]
}

/// The rules of a contribution, once the fundraiser and the record are
/// read: a contribution may be at most ten percent of the target; what a
/// contributor has given, this contribution included, may be at most that
/// cap too; and no more whole days than the fundraiser's duration may have
/// passed since its start.
/// When they allow it, the tokens move to the vault and the record and the
/// fundraiser count the amount.
///
/// `now` is the clock sysvar's Unix time, or the runtime's error code.
pub fn contribute_apply(
    accounts: &[AccountSnapshot],
    plan: &ContributePlan,
    fundraiser_state: Fundraiser,
    contributor_state: Contribute,
    decimals: u8,
    record: Vec<u8>,
    now: Result<i64, u64>,
) -> (r: Result<Vec<Effect>, ProcessError>)
    requires
        accounts@.len() == 8,
        fundraiser_state.is_initialized,
        contributor_state.is_initialized,
        accounts@[2].data@.len() == Fundraiser::LEN,
        record@.len() == Contribute::LEN,
        spec_contribution_in_range(fundraiser_state@, contributor_state, plan.ix.amount, now),
    ensures
        match r {
            Ok(effects) => {
                &&& spec_contribution_status(fundraiser_state@, contributor_state, plan.ix.amount, now)
                    == Ok::<(), ProcessError>(())
                &&& effects_view(effects) == spec_contribution_effects(
                    accounts@,
                    fundraiser_state@,
                    contributor_state,
                    decimals,
                    record@,
                    plan.ix.amount,
                )
            },
            Err(e) => spec_contribution_status(fundraiser_state@, contributor_state, plan.ix.amount, now)
                == Err::<(), ProcessError>(e),
        },
{
    let amount = plan.ix.amount;
    let max = max_contribution(fundraiser_state.amount_to_raise);
    if amount > max {
        return Err(ProcessError::Fundraiser(FundraiserError::ContributionTooBig));
    }
    if contributor_state.amount > max - amount {
        return Err(ProcessError::Fundraiser(FundraiserError::MaximumContributionsReached));
    }
    let current_time = match now {
        Err(code) => {
            return Err(ProcessError::Runtime(code));
        },
        Ok(t) => t,
    };
    if elapsed_days(current_time, fundraiser_state.time_started) > fundraiser_state.duration as i64 {
        return Err(ProcessError::Fundraiser(FundraiserError::FundraiserEnded));
    }
    let mut contributor_state = contributor_state;
    let mut fundraiser_state = fundraiser_state;
    let ghost c0 = contributor_state;
    let ghost f0 = fundraiser_state@;
    contributor_state.amount = contributor_state.amount + amount;
    fundraiser_state.current_amount = fundraiser_state.current_amount + amount;
    let mut record_data = record;
    contributor_state.write_to(&mut record_data);
    let mut fundraiser_data = vstd::slice::slice_to_vec(accounts[2].data.as_slice());
    fundraiser_state.write_to(&mut fundraiser_data);
    let no_seeds: Vec<Vec<u8>> = Vec::new();
    assert(crate::account::seeds_view(no_seeds) =~= Seq::<Seq<u8>>::empty());
    let mut effects: Vec<Effect> = Vec::new();
    effects.push(
        Effect::TransferChecked {
            from: 4,
            to: 5,
            authority: 0,
            mint: 1,
            amount,
            decimals,
            seeds: no_seeds,
        },
    );
    effects.push(Effect::WriteData { account: 3, data: record_data });
    effects.push(Effect::WriteData { account: 2, data: fundraiser_data });
    assert(fundraiser_state@ == spec_fundraiser_after(f0, amount));
    assert(effects_view(effects) =~= spec_contribution_effects(
        accounts@,
        f0,
        c0,
        decimals,
        record@,
        amount,
    ));
    Ok(effects)
}

/// An accepted contribution is at most ten percent of the target, and so
/// is what the contributor has given in all, this contribution included.
pub proof fn law_contribution_cap(f: FundraiserView, c: Contribute, amount: u64, now: Result<i64, u64>)
    requires
        spec_contribution_status(f, c, amount, now) == Ok::<(), ProcessError>(()),
    ensures
        amount <= (f.amount_to_raise * 10) / 100,
        c.amount + amount <= (f.amount_to_raise * 10) / 100,
{
}

/// A contribution that would take what the contributor has given above the
/// cap is refused, whatever the time.
pub proof fn law_cap_exceeded_refused(
    f: FundraiserView,
    c: Contribute,
    amount: u64,
    now: Result<i64, u64>,
)
    requires
        amount <= (f.amount_to_raise * 10) / 100,
        c.amount + amount > (f.amount_to_raise * 10) / 100,
    ensures
        spec_contribution_status(f, c, amount, now) == Err::<(), ProcessError>(
            ProcessError::Fundraiser(FundraiserError::MaximumContributionsReached),
        ),
{
}

/// An accepted contribution moves exactly the amount given, and the
/// fundraiser's account and the contributor's record, read back, each count
/// it once, everything else in them unchanged.
pub proof fn law_contribution_counted(
    accounts: Seq<AccountSnapshot>,
    f: FundraiserView,
    c: Contribute,
    decimals: u8,
    record: Seq<u8>,
    amount: u64,
)
    requires
        accounts.len() == 8,
        accounts[2].data@.len() == Fundraiser::LEN,
        record.len() == Contribute::LEN,
        f.maker.len() == 32,
        f.mint_to_raise.len() == 32,
        f.current_amount + amount <= u64::MAX,
        c.amount + amount <= u64::MAX,
    ensures
        ({
            let e = spec_contribution_effects(accounts, f, c, decimals, record, amount);
            &&& e[0] matches EffectView::TransferChecked { amount: moved, from, to, .. } && moved
                == amount && from == 4 && to == 5
            &&& e[1] matches EffectView::WriteData { account, data } && account == 3
                && Contribute::spec_decode(data).is_initialized == c.is_initialized
                && Contribute::spec_decode(data).amount == c.amount + amount
            &&& e[2] matches EffectView::WriteData { account, data } && account == 2 && ({
                let g = Fundraiser::spec_decode(data);
                &&& g.is_initialized == f.is_initialized
                &&& g.maker == f.maker
                &&& g.mint_to_raise == f.mint_to_raise
                &&& g.amount_to_raise == f.amount_to_raise
                &&& g.current_amount == f.current_amount + amount
                &&& g.time_started == f.time_started
                &&& g.duration == f.duration
                &&& g.bump == f.bump
            })
        }),
{
    let after = spec_record_after(c, amount);
    Contribute::lemma_write_decode(after, record);
    crate::state::fundraiser::lemma_fundraiser_write_decode(
        spec_fundraiser_after(f, amount),
        accounts[2].data@,
    );
}

/// A record created by a contribution starts initialized with nothing
/// given, so that after the contribution it holds exactly the amount given.
pub proof fn law_new_record_starts_empty(accounts: Seq<AccountSnapshot>, plan: ContributePlan)
    requires
        plan.create is Some,
        spec_contribute_loads(accounts, plan) is Ok,
    ensures
        ({
            let (f, c, decimals, record) = spec_contribute_loads(accounts, plan)->Ok_0;
            &&& c == (Contribute { is_initialized: true, amount: 0 })
            &&& spec_record_after(c, plan.ix.amount).amount == plan.ix.amount
        }),
{
    let fresh = Contribute { is_initialized: true, amount: 0 };
    Contribute::lemma_write_decode(fresh, accounts[3].data@);
}

/// An accepted contribution keeps the books balanced: if the vault held
/// what the fundraiser counted and what the records added up to, it still
/// does once the tokens have moved and both accounts are written.
pub proof fn law_contribution_keeps_books(
    accounts: Seq<AccountSnapshot>,
    f: FundraiserView,
    c: Contribute,
    decimals: u8,
    record: Seq<u8>,
    amount: u64,
    vault: int,
    other_records: int,
)
    requires
        accounts.len() == 8,
        accounts[2].data@.len() == Fundraiser::LEN,
        record.len() == Contribute::LEN,
        f.maker.len() == 32,
        f.mint_to_raise.len() == 32,
        f.current_amount + amount <= u64::MAX,
        c.amount + amount <= u64::MAX,
        spec_books_balance(vault, f.current_amount as int, other_records + c.amount),
    ensures
        ({
            let e = spec_contribution_effects(accounts, f, c, decimals, record, amount);
            spec_books_balance(
                vault + e[0]->TransferChecked_amount,
                Fundraiser::spec_decode(e[2]->WriteData_data).current_amount as int,
                other_records + Contribute::spec_decode(e[1]->WriteData_data).amount,
            )
        }),
{
    law_contribution_counted(accounts, f, c, decimals, record, amount);
}

/// Two contributions within both caps, made with a readable clock, differ
/// only by time: one is accepted exactly when no more whole days than the
/// fundraiser's duration have passed since its start (days rounded toward
/// zero), and refused as ended otherwise.
pub proof fn law_contribution_deadline(f: FundraiserView, c: Contribute, amount: u64, t: i64)
    requires
        c.amount + amount <= (f.amount_to_raise * 10) / 100,
    ensures
        ({
            let d = t - f.time_started;
            let days = if d >= 0 {
                d / 86400
            } else {
                -((-d) / 86400)
            };
            &&& days <= f.duration ==> spec_contribution_status(f, c, amount, Ok(t)) == Ok::<
                (),
                ProcessError,
            >(())
            &&& days > f.duration ==> spec_contribution_status(f, c, amount, Ok(t)) == Err::<
                (),
                ProcessError,
            >(ProcessError::Fundraiser(FundraiserError::FundraiserEnded))
        }),
{
}

/// A contribution above ten percent of the target is refused as too big,
/// whatever the record and the time.
pub proof fn law_contribution_too_big(f: FundraiserView, c: Contribute, amount: u64, now: Result<i64, u64>)
    requires
        amount > (f.amount_to_raise * 10) / 100,
    ensures
        spec_contribution_status(f, c, amount, now) == Err::<(), ProcessError>(
            ProcessError::Fundraiser(FundraiserError::ContributionTooBig),
        ),
{
}

/// The first part of Contribute goes ahead only when exactly eight
/// accounts are named, the contributor signs, the vault and the
/// contributor's token account read as token accounts, the instruction
/// data is ten bytes long, and, when a record must be created, the rent is
/// known.
pub proof fn law_contribute_begin_gate(
    accounts: Seq<AccountSnapshot>,
    data: Seq<u8>,
    rent_exempt_lamports: Result<u64, u64>,
)
    ensures
        spec_contribute_begin_status(accounts, data, rent_exempt_lamports) is Ok <==> (accounts.len()
            == 8 && accounts[0].is_signer && accounts[5].token_account is Ok
            && accounts[4].token_account is Ok && data.len() == 10 && ((accounts[3].data@.len()
            == 0 || accounts[3].owner != crate::ID) ==> rent_exempt_lamports is Ok)),
{
    ContributeInstructionData::lemma_len();
}

/// A contribution asks for the contributor's record to be created exactly
/// when the record's account is empty or not owned by this program.
pub proof fn law_record_created_when_missing(record: AccountSnapshot)
    ensures
        spec_needs_record(record) <==> (record.data@.len() == 0 || record.owner != crate::ID),
{
}

/// An accepted contribution is a plain transfer, signed by the
/// contributor, of exactly the amount given, from the contributor's token
/// account to the vault, in the mint's decimals.
pub proof fn law_contribution_transfer(
    accounts: Seq<AccountSnapshot>,
    f: FundraiserView,
    c: Contribute,
    decimals: u8,
    record: Seq<u8>,
    amount: u64,
)
    ensures
        ({
            let e = spec_contribution_effects(accounts, f, c, decimals, record, amount);
            &&& e.len() == 3
            &&& e[0] is TransferChecked
            &&& e[0]->TransferChecked_from == 4
            &&& e[0]->TransferChecked_to == 5
            &&& e[0]->TransferChecked_authority == 0
            &&& e[0]->TransferChecked_mint == 1
            &&& e[0]->TransferChecked_amount == amount
            &&& e[0]->TransferChecked_decimals == decimals
            &&& e[0]->TransferChecked_seeds.len() == 0
        }),
{
}

} // verus!
