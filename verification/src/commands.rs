//! Marker types for node-operator commands.
//!
//! The commands themselves submit governance transactions through the node's
//! own wallet and chain state; that work is host-side glue and lives in the
//! binary around this library.  The library keeps only the marker the host
//! dispatches on.

use vstd::prelude::*;

verus! {

/// Marker for the command that submits a proposal to upgrade the on-chain
/// virtual-machine configuration.  Executing the command is environment
/// work (wallet access, transaction submission) done by the host binary.
pub struct UpgradeVMConfigProposalCommand;

} // verus!
