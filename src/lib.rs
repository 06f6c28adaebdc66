//! A two-party escrow: a maker locks tokens of one mint in a vault and asks
//! for an amount of another mint; a taker settles the swap, or the maker
//! takes the deposit back. The library decides every operation and hands the
//! runtime the ordered list of effects that carry it out.
pub mod account;
pub mod address;
pub mod basics;
pub mod effect;
pub mod error;
pub mod lifecycle;
pub mod make;
pub mod processor;
pub mod refund;
pub mod state;
pub mod take;
