//! A license-key gate: a fixed-format check on a candidate key, a blacklist,
//! and a byte-wise mixing accumulator that must reach a fixed target value.

pub mod validator;
pub mod session;
