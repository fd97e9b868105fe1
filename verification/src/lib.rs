//! An escrow for two-party asset swaps.
//!
//! A maker deposits an asset (a native balance or a token balance) into custody
//! that only the swap program controls, names the asset wanted in return, and
//! may later cancel the offer and take the deposit back.
//!
//! The program decides; it moves nothing by itself. Each operation validates
//! the accounts it is shown and answers with the ordered requests that a
//! value-transfer service has to carry out. [`Ledger`] is a small in-memory
//! service of that kind, against which the life cycle of an offer is stated
//! and proved.

pub mod address;
pub mod instruction;
pub mod laws;
pub mod ledger;
pub mod lifecycle;
pub mod pda;
pub mod state;
pub mod swap;

pub use address::Address;
pub use instruction::{Authority, Instruction};
pub use ledger::Ledger;
pub use pda::{
    create_program_address, find_escrow_address, find_escrow_token_address,
    find_program_address,
};
pub use state::{Account, AccountData, AccountInfo, Asset, ErrorCode, Escrow, TokenAccount};
pub use swap::{
    cancel_swap, create_swap_from_sol, create_swap_from_token, decide_cancel,
    decide_swap_from_sol, decide_swap_from_token, CancelSwap, Context, CreateSwapFromSol,
    CreateSwapFromToken, Found,
};
