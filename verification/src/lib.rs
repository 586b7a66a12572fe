//! Protocol limits: a windowed rate limiter for mutations and KYC submissions,
//! and size bounds on untrusted inputs.

pub mod errors;

pub mod limits;
pub mod rate_limiter;
pub mod input_bounds;
