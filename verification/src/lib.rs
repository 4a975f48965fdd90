//! A relayer for NEAR meta transactions: which delegate actions it forwards, how it meters the gas
//! of its users, and how it registers accounts.

pub mod account;
pub mod allowance;
pub mod config;
pub mod delegate;
pub mod gas;
pub mod laws;
pub mod payment;
pub mod registration;
pub mod relay;
pub mod request;
pub mod response;
pub mod text;
