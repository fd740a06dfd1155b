//! A contributor taking back what they gave to a fundraiser that ended
//! short of its target.
//!
//! Accounts: the contributor (signer), the maker, the mint to raise, the
//! fundraiser's account, the contributor's record account, the
//! contributor's token account, the vault, the token program, the system
//! program.
use super::{
    elapsed_days, fundraiser_signer_seeds, same_key, spec_allows_refunds, spec_fundraiser_seeds,
};
use super::check::spec_check_status;
use crate::account::{effects_view, spec_books_balance, AccountSnapshot, Effect, EffectView};
use crate::error::{FundraiserError, ProcessError};
use crate::state::utils::{load_acc_mut, spec_load_acc, ByteLayout, DataLEN};
use crate::state::{Contribute, Fundraiser, FundraiserView};
use vstd::prelude::*;

verus! {

/// What Refund reads of the fundraiser and the contributor's record, or
/// the first error on the way.
pub open spec fn spec_refund_loads(accounts: Seq<AccountSnapshot>) -> Result<
    (FundraiserView, Contribute),
    ProcessError,
> {
    match spec_load_acc::<Fundraiser>(accounts[3].data@) {
        Err(e) => Err(e),
        Ok(f) => match spec_load_acc::<Contribute>(accounts[4].data@) {
            Err(e) => Err(e),
            Ok(c) => Ok((f, c)),
        },
    }
}

/// Whether the vault belongs to the fundraiser wherever Refund reaches
/// that check (the program stops there otherwise).
pub open spec fn spec_refund_vault_ok(accounts: Seq<AccountSnapshot>) -> bool {
    (accounts.len() >= 9 && accounts[0].is_signer) ==> match accounts[6].token_account {
        Err(_) => true,
        Ok(vault) => vault.owner == accounts[3].key,
    }
}

/// Which check, if any, refuses Refund, in the order the program makes
/// them.
pub open spec fn spec_refund_status(accounts: Seq<AccountSnapshot>, now: Result<i64, u64>) -> Result<
    (),
    ProcessError,
> {
    if accounts.len() < 9 {
        Err(ProcessError::MissingRequiredSignature)
    } else if !accounts[0].is_signer {
        Err(ProcessError::MissingRequiredSignature)
    } else {
        match accounts[6].token_account {
            Err(code) => Err(ProcessError::Runtime(code)),
            Ok(vault) => match spec_refund_loads(accounts) {
                Err(e) => Err(e),
                Ok((f, c)) => match now {
                    Err(code) => Err(ProcessError::Runtime(code)),
                    Ok(t) => if !spec_allows_refunds(f.duration, t, f.time_started) {
                        Err(ProcessError::Fundraiser(FundraiserError::FundraiserNotEnded))
                    } else if vault.amount >= f.amount_to_raise {
                        Err(ProcessError::Fundraiser(FundraiserError::TargetMet))
                    } else {
                        match accounts[2].mint {
                            Err(code) => Err(ProcessError::Runtime(code)),
                            Ok(_) => Ok(()),
                        }
                    },
                },
            },
        }
    }
}

/// The fundraiser after `amount` is given back: the total currently donated
/// drops by the amount (to zero, if it counted less).
pub open spec fn spec_fundraiser_after_refund(f: FundraiserView, amount: u64) -> FundraiserView {
    FundraiserView {
        current_amount: if f.current_amount >= amount {
            (f.current_amount - amount) as u64
        } else {
            0
        },
        ..f
    }
}

/// The effects of a refund: the contributor's recorded amount moves from
/// the vault back to the contributor's token account, the fundraiser
/// signing; the fundraiser stops counting that amount; and the
/// contributor's record is closed to the contributor.
pub open spec fn spec_refund_effects(
    accounts: Seq<AccountSnapshot>,
    f: FundraiserView,
    c: Contribute,
    decimals: u8,
) -> Seq<EffectView> {
    seq![
        EffectView::TransferChecked {
            from: 6,
            to: 5,
            authority: 3,
            mint: 2,
            amount: c.amount,
            decimals,
            seeds: spec_fundraiser_seeds(accounts[1].key@, f.bump),
        },
        EffectView::WriteData {
            account: 3,
            data: Fundraiser::spec_write(spec_fundraiser_after_refund(f, c.amount), accounts[3].data@),
        },
        EffectView::CloseAccount { account: 4, destination: 0 },
    ]
}

/// Whether the vault belongs to the fundraiser wherever Refund checks it;
/// where it does not, the program stops.
pub fn refund_vault_ok(accounts: &[AccountSnapshot]) -> (r: bool)
    ensures
        r == spec_refund_vault_ok(accounts@),
{
    if !(accounts.len() >= 9 && accounts[0].is_signer) {
        return true;
    }
    match &accounts[6].token_account {
        Err(_) => true,
        Ok(vault) => same_key(&vault.owner, &accounts[3].key),
    }
}

/// Refund: once at least the fundraiser's duration in whole days has passed
/// since its start and its vault holds less than the target, a contributor
/// takes back the amount their record holds, the fundraiser stops counting
/// it, and the record is closed with its lamports going to the contributor.
///
/// `now` is the clock sysvar's Unix time, or the runtime's error code.
pub fn process_refund(
    accounts: &[AccountSnapshot],
    _instruction_data: &[u8],
    now: Result<i64, u64>,
) -> (r: Result<Vec<Effect>, ProcessError>)
    requires
        spec_refund_vault_ok(accounts@),
    ensures
        match r {
            Ok(effects) => {
                &&& spec_refund_status(accounts@, now) == Ok::<(), ProcessError>(())
                &&& spec_refund_loads(accounts@) matches Ok((f, c)) && accounts@[2].mint matches Ok(m)
                    && effects_view(effects) == spec_refund_effects(accounts@, f, c, m.decimals)
            },
            Err(e) => spec_refund_status(accounts@, now) == Err::<(), ProcessError>(e),
        },
{
    if accounts.len() < 9 {
        return Err(ProcessError::MissingRequiredSignature);
    }
    let contributor = &accounts[0];
    let maker = &accounts[1];
    if !contributor.is_signer {
        return Err(ProcessError::MissingRequiredSignature);
    }
    let vault_amount = match &accounts[6].token_account {
        Err(code) => {
            return Err(ProcessError::Runtime(*code));
        },
        Ok(vault) => vault.amount,
    };
    let fundraiser_state = load_acc_mut::<Fundraiser>(accounts[3].data.as_slice())?;
    let contributor_state = load_acc_mut::<Contribute>(accounts[4].data.as_slice())?;
    let current_time = match now {
        Err(code) => {
            return Err(ProcessError::Runtime(code));
        },
        Ok(t) => t,
    };
    if elapsed_days(current_time, fundraiser_state.time_started) < fundraiser_state.duration as i64 {
        return Err(ProcessError::Fundraiser(FundraiserError::FundraiserNotEnded));
    }
    if vault_amount >= fundraiser_state.amount_to_raise {
        return Err(ProcessError::Fundraiser(FundraiserError::TargetMet));
    }
    let decimals = match &accounts[2].mint {
        Err(code) => {
            return Err(ProcessError::Runtime(*code));
        },
        Ok(m) => m.decimals,
    };
    let seeds = fundraiser_signer_seeds(&maker.key, fundraiser_state.bump);
    let ghost f0 = fundraiser_state@;
    let mut fundraiser_after = fundraiser_state;
    fundraiser_after.current_amount = if fundraiser_state.current_amount >= contributor_state.amount {
        fundraiser_state.current_amount - contributor_state.amount
    } else {
        0
    };
    assert(fundraiser_after@ == spec_fundraiser_after_refund(f0, contributor_state.amount));
    let mut fundraiser_data = vstd::slice::slice_to_vec(accounts[3].data.as_slice());
    fundraiser_after.write_to(&mut fundraiser_data);
    let mut effects: Vec<Effect> = Vec::new();
    effects.push(
        Effect::TransferChecked {
            from: 6,
            to: 5,
            authority: 3,
            mint: 2,
            amount: contributor_state.amount,
            decimals,
            seeds,
        },
    );
    effects.push(Effect::WriteData { account: 3, data: fundraiser_data });
    effects.push(Effect::CloseAccount { account: 4, destination: 0 });
    assert(effects_view(effects) =~= spec_refund_effects(
        accounts@,
        fundraiser_state@,
        contributor_state,
        decimals,
    ));
    Ok(effects)
}

/// A refund gives back exactly what the contributor's record holds, and
/// the fundraiser, read back, counts that much less, everything else in it
/// unchanged.
pub proof fn law_refund_uncounted(accounts: Seq<AccountSnapshot>, f: FundraiserView, c: Contribute, decimals: u8)
    requires
        accounts.len() >= 9,
        accounts[3].data@.len() == Fundraiser::LEN,
        f.maker.len() == 32,
        f.mint_to_raise.len() == 32,
        c.amount <= f.current_amount,
    ensures
        ({
            let e = spec_refund_effects(accounts, f, c, decimals);
            &&& e[0] matches EffectView::TransferChecked { amount: moved, from, to, .. } && moved
                == c.amount && from == 6 && to == 5
            &&& e[1] matches EffectView::WriteData { account, data } && account == 3 && ({
                let g = Fundraiser::spec_decode(data);
                &&& g.is_initialized == f.is_initialized
                &&& g.maker == f.maker
                &&& g.mint_to_raise == f.mint_to_raise
                &&& g.amount_to_raise == f.amount_to_raise
                &&& g.current_amount == f.current_amount - c.amount
                &&& g.time_started == f.time_started
                &&& g.duration == f.duration
                &&& g.bump == f.bump
            })
            &&& e[2] == EffectView::CloseAccount { account: 4, destination: 0 }
        }),
{
    crate::state::fundraiser::lemma_fundraiser_write_decode(
        spec_fundraiser_after_refund(f, c.amount),
        accounts[3].data@,
    );
}

/// While the vault holds exactly the amount a fundraiser has counted, the
/// maker's collection and a contributor's refund are never both allowed:
/// the first needs the target met, the second needs it missed.
pub proof fn law_check_and_refund_exclusive(
    check_accounts: Seq<AccountSnapshot>,
    refund_accounts: Seq<AccountSnapshot>,
    now: Result<i64, u64>,
)
    requires
        check_accounts.len() >= 7,
        refund_accounts.len() >= 9,
        check_accounts[2].data@ == refund_accounts[3].data@,
        refund_accounts[6].token_account matches Ok(vault) && (spec_load_acc::<Fundraiser>(
            check_accounts[2].data@,
        ) matches Ok(f) && vault.amount == f.current_amount),
    ensures
        !(spec_check_status(check_accounts) is Ok && spec_refund_status(refund_accounts, now) is Ok),
{
}

/// A refund keeps the books balanced: if the vault held what the
/// fundraiser counted and what the records added up to, it still does once
/// the tokens have gone back, the fundraiser is written and the record is
/// closed.
pub proof fn law_refund_keeps_books(
    accounts: Seq<AccountSnapshot>,
    f: FundraiserView,
    c: Contribute,
    decimals: u8,
    vault: int,
    other_records: int,
)
    requires
        accounts.len() >= 9,
        accounts[3].data@.len() == Fundraiser::LEN,
        f.maker.len() == 32,
        f.mint_to_raise.len() == 32,
        other_records >= 0,
        spec_books_balance(vault, f.current_amount as int, other_records + c.amount),
    ensures
        ({
            let e = spec_refund_effects(accounts, f, c, decimals);
            &&& e[2] == EffectView::CloseAccount { account: 4, destination: 0 }
            &&& spec_books_balance(
                vault - e[0]->TransferChecked_amount,
                Fundraiser::spec_decode(e[1]->WriteData_data).current_amount as int,
                other_records,
            )
        }),
{
    law_refund_uncounted(accounts, f, c, decimals);
}

/// Refund's clock rule: once the earlier checks pass, a refund while fewer
/// whole days than the fundraiser's duration have passed since its start
/// (days rounded toward zero) is refused as not ended; an accepted refund
/// comes only after at least the duration in whole days, with the vault
/// short of the target.
pub proof fn law_refund_deadline(accounts: Seq<AccountSnapshot>, t: i64)
    requires
        accounts.len() >= 9,
        accounts[0].is_signer,
        accounts[6].token_account is Ok,
        spec_refund_loads(accounts) is Ok,
    ensures
        ({
            let f = spec_refund_loads(accounts)->Ok_0.0;
            let vault = accounts[6].token_account->Ok_0;
            let d = t - f.time_started;
            let days = if d >= 0 {
                d / 86400
            } else {
                -((-d) / 86400)
            };
            &&& days < f.duration ==> spec_refund_status(accounts, Ok(t)) == Err::<(), ProcessError>(
                ProcessError::Fundraiser(FundraiserError::FundraiserNotEnded),
            )
            &&& spec_refund_status(accounts, Ok(t)) is Ok ==> days >= f.duration && vault.amount
                < f.amount_to_raise
        }),
{
}

/// An accepted refund gives back what the contributor's record holds, from
/// the vault to the contributor's token account, the fundraiser signing.
pub proof fn law_refund_gives_back_record(
    accounts: Seq<AccountSnapshot>,
    f: FundraiserView,
    c: Contribute,
    decimals: u8,
)
    ensures
        ({
            let e = spec_refund_effects(accounts, f, c, decimals);
            &&& e.len() == 3
            &&& e[0] is TransferChecked
            &&& e[0]->TransferChecked_from == 6
            &&& e[0]->TransferChecked_to == 5
            &&& e[0]->TransferChecked_authority == 3
            &&& e[0]->TransferChecked_amount == c.amount
        }),
{
}

/// A refund goes ahead only when at least nine accounts are named, the
/// contributor signs, the vault reads as a token account, the fundraiser
/// and the record load initialized, the clock is readable and the mint
/// reads as a mint.
pub proof fn law_refund_gate(accounts: Seq<AccountSnapshot>, now: Result<i64, u64>)
    ensures
        spec_refund_status(accounts, now) is Ok ==> (accounts.len() >= 9 && accounts[0].is_signer
            && accounts[6].token_account is Ok && spec_load_acc::<Fundraiser>(accounts[3].data@) is Ok
            && spec_load_acc::<Contribute>(accounts[4].data@) is Ok && now is Ok
            && accounts[2].mint is Ok),
{
}

} // verus!
