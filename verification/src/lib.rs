//! Disbursement handler: turns a list of recipients, each owed a mix of
//! native coins and token amounts, into an ordered batch of outbound
//! transfer instructions.

pub mod contract;
pub mod error;
pub mod msg;
pub mod state;
