//! What the registry tells the host after a change.

use crate::origin::AccountId;
use vstd::prelude::*;

verus! {

/// A change of the registry, deposited with the host when it has happened.
#[derive(Debug, Clone, Copy, PartialEq, Eq, Structural)]
pub enum Event {
    /// An account was authorized to deploy EVM contracts.
    DeployerAuthorized {
        /// The account that was authorized.
        deployer: AccountId,
    },
    /// An account's authorization was revoked.
    DeployerRevoked {
        /// The account that was revoked.
        deployer: AccountId,
    },
}

} // verus!
