//! The maker collecting a fundraiser that met its target.
//!
//! Accounts: the maker (signer), the mint to raise, the fundraiser's
//! account, the vault, the maker's token account, the token program, the
//! system program.
use super::{fundraiser_signer_seeds, spec_fundraiser_seeds};
use crate::account::{effects_view, AccountSnapshot, Effect, EffectView};
use crate::error::{FundraiserError, ProcessError};
use crate::state::utils::{load_acc, spec_load_acc};
use crate::state::{Fundraiser, FundraiserView};
use vstd::prelude::*;

verus! {

/// Which check, if any, refuses Check, in the order the program makes them.
pub open spec fn spec_check_status(accounts: Seq<AccountSnapshot>) -> Result<(), ProcessError> {
    if accounts.len() < 7 {
        Err(ProcessError::InvalidAccountData)
    } else if !accounts[0].is_signer {
        Err(ProcessError::MissingRequiredSignature)
    } else {
        match spec_load_acc::<Fundraiser>(accounts[2].data@) {
            Err(e) => Err(e),
            Ok(f) => if f.current_amount < f.amount_to_raise {
                Err(ProcessError::Fundraiser(FundraiserError::TargetNotMet))
            } else {
                match accounts[1].mint {
                    Err(code) => Err(ProcessError::Runtime(code)),
                    Ok(_) => Ok(()),
                }
            },
        }
    }
}

/// The effects of collecting fundraiser `f`: the raised amount moves from
/// the vault to the maker's token account, the vault is closed to the
/// maker, and the fundraiser's account is closed to the maker; the
/// fundraiser signs for all three.
pub open spec fn spec_check_effects(maker: Seq<u8>, f: FundraiserView, decimals: u8) -> Seq<EffectView> {
    let seeds = spec_fundraiser_seeds(maker, f.bump);
    seq![
        EffectView::TransferChecked {
            from: 3,
            to: 4,
            authority: 2,
            mint: 1,
            amount: f.current_amount,
            decimals,
            seeds,
        },
        EffectView::CloseTokenAccount { account: 3, destination: 0, authority: 2, seeds },
        EffectView::CloseAccount { account: 2, destination: 0 },
    ]
}

/// Check: once a fundraiser has raised at least its target, the maker
/// takes everything raised, and the vault and the fundraiser's account are
/// closed with their lamports going to the maker.
pub fn process_check(accounts: &[AccountSnapshot], _instruction_data: &[u8]) -> (r: Result<Vec<Effect>, ProcessError>)
    ensures
        match r {
            Ok(effects) => {
                &&& spec_check_status(accounts@) == Ok::<(), ProcessError>(())
                &&& spec_load_acc::<Fundraiser>(accounts@[2].data@) matches Ok(f)
                    && accounts@[1].mint matches Ok(m)
                    && effects_view(effects) == spec_check_effects(accounts@[0].key@, f, m.decimals)
                    && f.current_amount >= f.amount_to_raise && effects@.len() == 3
                    && (effects_view(effects)[0] is TransferChecked)
                    && effects_view(effects)[0]->TransferChecked_amount == f.current_amount
            },
            Err(e) => spec_check_status(accounts@) == Err::<(), ProcessError>(e),
        },
{
    if accounts.len() < 7 {
        return Err(ProcessError::InvalidAccountData);
    }
    let maker = &accounts[0];
    if !maker.is_signer {
        return Err(ProcessError::MissingRequiredSignature);
    }
    let fundraiser_state = load_acc::<Fundraiser>(accounts[2].data.as_slice())?;
    if fundraiser_state.current_amount < fundraiser_state.amount_to_raise {
        return Err(ProcessError::Fundraiser(FundraiserError::TargetNotMet));
    }
    let decimals = match &accounts[1].mint {
        Err(code) => {
            return Err(ProcessError::Runtime(*code));
        },
        Ok(m) => m.decimals,
    };
    let transfer_seeds = fundraiser_signer_seeds(&maker.key, fundraiser_state.bump);
    let close_seeds = fundraiser_signer_seeds(&maker.key, fundraiser_state.bump);
    let mut effects: Vec<Effect> = Vec::new();
    effects.push(
        Effect::TransferChecked {
            from: 3,
            to: 4,
            authority: 2,
            mint: 1,
            amount: fundraiser_state.current_amount,
            decimals,
            seeds: transfer_seeds,
        },
    );
    effects.push(
        Effect::CloseTokenAccount { account: 3, destination: 0, authority: 2, seeds: close_seeds },
    );
    effects.push(Effect::CloseAccount { account: 2, destination: 0 });
    assert(effects_view(effects) =~= spec_check_effects(
        maker.key@,
        fundraiser_state@,
        decimals,
    ));
    Ok(effects)
}

/// Collecting moves everything the fundraiser counts, not just its target:
/// the whole current amount goes from the vault to the maker's token
/// account, then the vault is closed to the maker, then the fundraiser's
/// account; and collecting is allowed only once the target is reached.
pub proof fn law_check_moves_everything_raised(
    accounts: Seq<AccountSnapshot>,
    f: FundraiserView,
    decimals: u8,
)
    ensures
        ({
            let e = spec_check_effects(accounts[0].key@, f, decimals);
            &&& e.len() == 3
            &&& e[0] is TransferChecked
            &&& e[0]->TransferChecked_from == 3
            &&& e[0]->TransferChecked_to == 4
            &&& e[0]->TransferChecked_authority == 2
            &&& e[0]->TransferChecked_amount == f.current_amount
            &&& e[0]->TransferChecked_decimals == decimals
            &&& e[1] is CloseTokenAccount
            &&& e[1]->CloseTokenAccount_account == 3
            &&& e[1]->CloseTokenAccount_destination == 0
            &&& e[2] == EffectView::CloseAccount { account: 2, destination: 0 }
        }),
        ({
            spec_check_status(accounts) is Ok ==> {
                &&& spec_load_acc::<Fundraiser>(accounts[2].data@) is Ok
                &&& spec_load_acc::<Fundraiser>(accounts[2].data@)->Ok_0.current_amount
                    >= spec_load_acc::<Fundraiser>(accounts[2].data@)->Ok_0.amount_to_raise
            }
        }),
{
}

/// Collecting goes ahead only when at least seven accounts are named, the
/// maker signs, the fundraiser loads initialized, it has raised at least its
/// target, and the mint reads as a mint.
pub proof fn law_check_gate(accounts: Seq<AccountSnapshot>)
    ensures
        spec_check_status(accounts) is Ok <==> (accounts.len() >= 7 && accounts[0].is_signer
            && spec_load_acc::<Fundraiser>(accounts[2].data@) is Ok && spec_load_acc::<Fundraiser>(
            accounts[2].data@,
        )->Ok_0.current_amount >= spec_load_acc::<Fundraiser>(accounts[2].data@)->Ok_0.amount_to_raise
            && accounts[1].mint is Ok),
{
}

} // verus!
