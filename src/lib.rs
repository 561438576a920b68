//! Accounting and pricing core of a constant-product market maker between a
//! token reserve and a native-currency reserve, with a trade fee, per-user cost
//! basis tracking and a tax on sales that realize a loss.
pub mod errors;
pub mod math;
pub mod state;
pub mod position;
pub mod pool;
pub mod swap;
pub mod update_config;
