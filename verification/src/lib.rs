//! Distribution of native currency from one funding account to a batch of
//! recipient accounts on an EVM chain.
//!
//! The library holds every decision of a batch run and proves it with Verus:
//! how much each recipient is sent, whether the funder can pay for it, which
//! nonce each transaction carries and what is recorded for each recipient.
//! Talking to the chain endpoint is left to the caller, who performs the
//! [`protocol::Action`] that the [`batch::Batch`] asks for and hands the
//! reply back as a [`protocol::Event`].

pub mod constant;
pub mod error;
pub mod fees;
pub mod plan;
pub mod recipient;
pub mod transfer;
pub mod protocol;
pub mod laws;
pub mod report;
pub mod batch;
pub mod config;
