//! Where a call comes from, as the host has authenticated it.

use vstd::prelude::*;

verus! {

/// An account of the host chain.
pub type AccountId = u64;

/// The origin of a call, already authenticated by the host.
#[derive(Debug, Clone, Copy, PartialEq, Eq, Structural)]
pub enum RawOrigin {
    /// The chain itself ordered the call: the highest privilege.
    Root,
    /// The call is signed by this account.
    Signed(AccountId),
    /// Nobody signed the call.
    Unsigned,
}

/// The origin does not have the privilege that the call asks for.
#[derive(Debug, Clone, Copy, PartialEq, Eq, Structural)]
pub struct BadOrigin;

/// Passes the root origin and no other.
pub fn ensure_root(origin: RawOrigin) -> (result: Result<(), BadOrigin>)
    ensures
        result == (if origin is Root { Ok::<(), BadOrigin>(()) } else { Err(BadOrigin) }),
{
    match origin {
        RawOrigin::Root => Ok(()),
        _ => Err(BadOrigin),
    }
}

/// Passes a signed origin and hands out the account that signed.
pub fn ensure_signed(origin: RawOrigin) -> (result: Result<AccountId, BadOrigin>)
    ensures
        result == (match origin {
            RawOrigin::Signed(who) => Ok::<AccountId, BadOrigin>(who),
            _ => Err(BadOrigin),
        }),
{
    match origin {
        RawOrigin::Signed(who) => Ok(who),
        _ => Err(BadOrigin),
    }
}

} // verus!
