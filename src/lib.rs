//! A time-locked staking vault: participants stake value into a shared pool,
//! request to unstake (which starts a lock period), and withdraw what has
//! matured. The accounting is verified; moving custody value and reading the
//! clock are left to the host, which hands their outcomes in as plain values.
pub mod erc20_similar_tokens;
pub mod laws;
pub mod native_tokens;
pub mod state;
