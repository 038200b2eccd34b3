//! Verified building blocks for a fee-tip workflow against a Substrate-style
//! ledger node: a binary codec for an asset-denominated transaction tip, pure
//! builders for the chain calls the workflow submits, a submission state
//! machine, and the decision logic for fee estimation, fee conversion and a
//! tip-paid transfer.

pub mod compact;
pub mod location;
pub mod tip;
pub mod calls;
pub mod submission;
pub mod fees;
pub mod transfer;
pub mod workflow;
