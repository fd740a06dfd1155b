//! What the program reads of the accounts an instruction names, and the
//! effects it asks the runtime to carry out on them.
use vstd::prelude::*;

verus! {

/// What a token account holds, as the token program's layout gives it.
#[derive(Debug, Clone, Copy, PartialEq, Eq)]
pub struct TokenAccountView {
    pub mint: [u8; 32],
    pub owner: [u8; 32],
    pub amount: u64,
}

/// What a mint holds that the program reads.
#[derive(Debug, Clone, Copy, PartialEq, Eq, Structural)]
pub struct MintView {
    pub decimals: u8,
}

/// An account as the program sees it when an instruction starts, or after
/// an effect has been carried out.
///
/// `token_account` and `mint` are the account read as a token account and
/// as a mint, or the runtime's error code for why it cannot be read so.
#[derive(Debug)]
pub struct AccountSnapshot {
    pub key: [u8; 32],
    pub owner: [u8; 32],
    pub is_signer: bool,
    pub lamports: u64,
    pub data: Vec<u8>,
    pub token_account: Result<TokenAccountView, u64>,
    pub mint: Result<MintView, u64>,
}

/// An effect that the program asks the runtime to carry out. Accounts are
/// named by their position in the instruction's account list; `seeds` are
/// the seeds with which the program signs for its own address (none for a
/// plain call).
#[derive(Debug, Clone, PartialEq, Eq)]
pub enum Effect {
    /// The system program creates the account `to`, paid by `from`, with
    /// `space` zero bytes of data, owned by `owner`.
    CreateAccount {
        from: usize,
        to: usize,
        lamports: u64,
        space: u64,
        owner: [u8; 32],
        seeds: Vec<Vec<u8>>,
    },
    /// The token program moves `amount` tokens of `mint` from `from` to `to`.
    TransferChecked {
        from: usize,
        to: usize,
        authority: usize,
        mint: usize,
        amount: u64,
        decimals: u8,
        seeds: Vec<Vec<u8>>,
    },
    /// The token program closes the token account `account`, sending its
    /// lamports to `destination`.
    CloseTokenAccount { account: usize, destination: usize, authority: usize, seeds: Vec<Vec<u8>> },
    /// The program replaces the data of its account `account` with `data`.
    WriteData { account: usize, data: Vec<u8> },
    /// The program moves all lamports of its account `account` to
    /// `destination` and closes `account`.
    CloseAccount { account: usize, destination: usize },
}

/// An effect, with addresses, data and seeds as sequences of bytes.
pub enum EffectView {
    CreateAccount {
        from: usize,
        to: usize,
        lamports: u64,
        space: u64,
        owner: Seq<u8>,
        seeds: Seq<Seq<u8>>,
    },
    TransferChecked {
        from: usize,
        to: usize,
        authority: usize,
        mint: usize,
        amount: u64,
        decimals: u8,
        seeds: Seq<Seq<u8>>,
    },
    CloseTokenAccount { account: usize, destination: usize, authority: usize, seeds: Seq<Seq<u8>> },
    WriteData { account: usize, data: Seq<u8> },
    CloseAccount { account: usize, destination: usize },
}

impl View for Effect {
    type V = EffectView;

    open spec fn view(&self) -> EffectView {
        match self {
            Effect::CreateAccount { from, to, lamports, space, owner, seeds } => EffectView::CreateAccount {
                from: *from,
                to: *to,
                lamports: *lamports,
                space: *space,
                owner: owner@,
                seeds: seeds_view(*seeds),
            },
            Effect::TransferChecked { from, to, authority, mint, amount, decimals, seeds } => EffectView::TransferChecked {
                from: *from,
                to: *to,
                authority: *authority,
                mint: *mint,
                amount: *amount,
                decimals: *decimals,
                seeds: seeds_view(*seeds),
            },
            Effect::CloseTokenAccount { account, destination, authority, seeds } => EffectView::CloseTokenAccount {
                account: *account,
                destination: *destination,
                authority: *authority,
                seeds: seeds_view(*seeds),
            },
            Effect::WriteData { account, data } => EffectView::WriteData { account: *account, data: data@ },
            Effect::CloseAccount { account, destination } => EffectView::CloseAccount {
                account: *account,
                destination: *destination,
            },
        }
    }
}

/// A list of effects, each by its view.
pub open spec fn effects_view(effects: Vec<Effect>) -> Seq<EffectView> {
    effects@.map_values(|e: Effect| e@)
}

/// The seeds of an effect, each by its bytes.
pub open spec fn seeds_view(seeds: Vec<Vec<u8>>) -> Seq<Seq<u8>> {
    seeds@.map_values(|s: Vec<u8>| s@)
}

/// The balances after all lamports of `source` move to `destination`.
pub open spec fn spec_close_balances(destination: u64, source: u64) -> (int, int) {
    (destination + source, 0)
}

/// The balances of the destination and of the closed account after the
/// program closes one of its accounts: the destination receives all the
/// closed account's lamports, and the closed account keeps none.
pub fn close_account_balances(destination: u64, source: u64) -> (r: (u64, u64))
    requires
        destination + source <= u64::MAX,
    ensures
        (r.0 as int, r.1 as int) == spec_close_balances(destination, source),
{
    (destination + source, 0)
}

/// Closing an account moves lamports and creates none: the two balances
/// add up to the same total before and after.
pub proof fn law_close_conserves_lamports(destination: u64, source: u64)
    requires
        destination + source <= u64::MAX,
    ensures
        spec_close_balances(destination, source).0 + spec_close_balances(destination, source).1
            == destination + source,
        spec_close_balances(destination, source).1 == 0,
{
}

/// The books of a fundraiser balance: its vault holds what it counts as
/// donated, and that is what the contributors' records add up to.
pub open spec fn spec_books_balance(vault: int, counted: int, records_total: int) -> bool {
    vault == counted && counted == records_total
}

} // verus!
