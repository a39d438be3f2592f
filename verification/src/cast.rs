//! Conversions between managed values and native values.
pub mod from_value;
pub mod call;
