//! What a refused call reports.

use crate::origin::BadOrigin;
use vstd::prelude::*;
use vstd::std_specs::convert::FromSpecImpl;

verus! {

/// Why the registry refused to change.
#[derive(Debug, Clone, Copy, PartialEq, Eq, Structural)]
pub enum Error {
    /// The account is already authorized.
    AlreadyAuthorized,
    /// The account is not authorized.
    NotAuthorized,
}

/// Why a dispatched call failed.
#[derive(Debug, Clone, Copy, PartialEq, Eq, Structural)]
pub enum DispatchError {
    /// The caller is not the root origin.
    BadOrigin,
    /// The registry refused the change.
    Module(Error),
}

/// The outcome of a dispatched call.
pub type DispatchResult = Result<(), DispatchError>;

impl From<BadOrigin> for DispatchError {
    fn from(bad: BadOrigin) -> (error: DispatchError) {
        DispatchError::BadOrigin
    }
}

impl FromSpecImpl<BadOrigin> for DispatchError {
    open spec fn obeys_from_spec() -> bool {
        true
    }

    open spec fn from_spec(bad: BadOrigin) -> DispatchError {
        DispatchError::BadOrigin
    }
}

impl From<Error> for DispatchError {
    fn from(refusal: Error) -> (error: DispatchError) {
        DispatchError::Module(refusal)
    }
}

impl FromSpecImpl<Error> for DispatchError {
    open spec fn obeys_from_spec() -> bool {
        true
    }

    open spec fn from_spec(refusal: Error) -> DispatchError {
        DispatchError::Module(refusal)
    }
}

/// The code under which transaction validation reports a refused deployment.
#[derive(Debug, Clone, Copy, PartialEq, Eq, Structural)]
pub enum DeploymentValidationError {
    /// The deployer is not authorized to deploy contracts.
    UnauthorizedDeployer,
}

impl From<DeploymentValidationError> for u8 {
    fn from(err: DeploymentValidationError) -> (code: u8) {
        match err {
            DeploymentValidationError::UnauthorizedDeployer => 0,
        }
    }
}

impl FromSpecImpl<DeploymentValidationError> for u8 {
    open spec fn obeys_from_spec() -> bool {
        true
    }

    open spec fn from_spec(err: DeploymentValidationError) -> u8 {
        0
    }
}

} // verus!
