//! Deployment control for an EVM host: a registry of the accounts that may
//! deploy contracts directly, changed only by the root origin, and the
//! admission rule that the EVM consults before it lets a deployment through.
//!
//! Every function is verified against a mathematical model: the registry is a
//! set of account ids, the event log a sequence of events.

pub mod deployment_control;
pub mod error;
pub mod event;
pub mod history;
pub mod origin;
pub mod pallet;

pub use deployment_control::{EnsureSudoCanDeploy, Rejected};
pub use error::{DeploymentValidationError, DispatchError, DispatchResult, Error};
pub use event::Event;
pub use origin::{ensure_root, ensure_signed, AccountId, BadOrigin, RawOrigin};
pub use pallet::{GenesisConfig, Pallet};
