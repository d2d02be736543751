//! Triggered-order engine of a margin-trading account: conditional swap
//! records, their pricing gates, fee amounts, quantity clamps and layout.

pub mod fixed_point;
pub mod float_bits;
pub mod token_conditional_swap;
pub mod layout;
pub mod account_fetch;
