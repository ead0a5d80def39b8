//! A two-party escrow: an initializer locks asset A in a custody account
//! whose authority is a program-derived address, and a taker who pays the
//! agreed amount of asset B receives the whole custody balance in one
//! atomic step.
pub mod pda;
pub mod states;
pub mod program;

pub use pda::Address;
pub use program::{finalizer, initialize, Finalizer, Initialize};
pub use states::{Escrow, EscrowError, Mint, TokenAccount};
