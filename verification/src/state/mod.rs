//! The accounts that the program owns, and how they are stored.
pub mod contribute;
pub mod fundraiser;
pub mod utils;

pub use contribute::Contribute;
pub use fundraiser::{Fundraiser, FundraiserView};
pub use utils::{
    load_acc, load_acc_mut, load_acc_mut_unchecked, load_acc_unchecked, load_ix_data, to_bytes,
    ByteLayout, DataLEN, Initialized,
};
