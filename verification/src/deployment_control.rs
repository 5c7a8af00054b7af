//! The admission rule that the EVM consults before a direct deployment.

use crate::origin::{ensure_signed, AccountId, RawOrigin};
use crate::pallet::Pallet;
use sp_core::H160;
use vstd::prelude::*;

verus! {

/// An EVM address, `sp_core::H160`: twenty bytes that this crate carries to
/// the host's address mapping and never looks into.
#[verifier::external_type_specification]
#[verifier::external_body]
pub struct ExH160(sp_core::H160);

/// What a refused request gets back: its own origin, unchanged. Every
/// refusal looks the same to the caller, whatever the reason was.
pub type Rejected = RawOrigin;

/// What the admission rule answers for a deployment to the address of
/// `account_id`, requested by `origin`, when `deployers` are authorized:
/// the account, if it signed the request itself and is authorized; the
/// origin, handed back unchanged, in every other case.
pub open spec fn admission(
    deployers: Set<AccountId>,
    account_id: AccountId,
    origin: RawOrigin,
) -> Result<AccountId, Rejected> {
    if origin == RawOrigin::Signed(account_id) && deployers.contains(account_id) {
        Ok(account_id)
    } else {
        Err(origin)
    }
}

/// A deployment is admitted exactly when the account of the target address
/// signed the request itself and is authorized. So a request that another
/// account signed is refused whoever is authorized, and every refusal hands
/// back the origin and nothing else.
pub proof fn lemma_admits_only_the_authorized_signer(
    deployers: Set<AccountId>,
    account_id: AccountId,
    origin: RawOrigin,
)
    ensures
        admission(deployers, account_id, origin) is Ok <==> origin == RawOrigin::Signed(
            account_id,
        ) && deployers.contains(account_id),
        admission(deployers, account_id, origin) is Ok ==> admission(
            deployers,
            account_id,
            origin,
        ) == Ok::<AccountId, Rejected>(account_id),
        admission(deployers, account_id, origin) is Err ==> admission(
            deployers,
            account_id,
            origin,
        ) == Err::<AccountId, Rejected>(origin),
{
}

/// Lets only authorized deployers deploy contracts directly to the EVM.
///
/// The root origin decides who is authorized, through
/// `Pallet::authorize_deployer` and `Pallet::revoke_deployer`. Everybody
/// else has to deploy through a contract that is already on chain.
pub struct EnsureSudoCanDeploy;

impl EnsureSudoCanDeploy {
    /// Decides on a deployment to the address that the host maps to
    /// `account_id`.
    ///
    /// The request is admitted when `origin` is signed by `account_id`
    /// itself and `account_id` is an authorized deployer. A refusal hands
    /// the origin back and does not say which condition failed.
    pub fn try_account_origin(
        pallet: &Pallet,
        account_id: AccountId,
        origin: RawOrigin,
    ) -> (result: Result<AccountId, Rejected>)
        ensures
            result == admission(pallet@, account_id, origin),
    {
        let who = match ensure_signed(origin) {
            Ok(who) => who,
            Err(_) => {
                return Err(origin);
            },
        };
        if who != account_id {
            return Err(origin);
        }
        if pallet.is_authorized(&who) {
            return Ok(who);
        }
        Err(origin)
    }

    /// Decides on a deployment to `address`: maps the address to its
    /// account with the host's `mapping`, then decides as
    /// `try_account_origin` does.
    pub fn try_address_origin<M: Fn(H160) -> AccountId>(
        pallet: &Pallet,
        mapping: &M,
        address: &H160,
        origin: RawOrigin,
    ) -> (result: Result<AccountId, Rejected>)
        requires
            call_requires(*mapping, (*address,)),
        ensures
            exists|account_id: AccountId|
                call_ensures(*mapping, (*address,), account_id) && result == admission(
                    pallet@,
                    account_id,
                    origin,
                ),
    {
        let account_id = mapping(*address);
        Self::try_account_origin(pallet, account_id, origin)
    }
}

} // verus!
