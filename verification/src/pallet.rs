//! The registry of authorized deployers and the calls that change it.

use crate::error::{DispatchError, DispatchResult, Error};
use crate::event::Event;
use crate::origin::{ensure_root, AccountId, RawOrigin};
use std::collections::HashMap;
use vstd::prelude::*;

verus! {

broadcast use vstd::std_specs::hash::group_hash_axioms;

/// What `authorize_deployer` answers when `deployers` are authorized.
pub open spec fn authorize_result(
    deployers: Set<AccountId>,
    origin: RawOrigin,
    deployer: AccountId,
) -> DispatchResult {
    if !(origin is Root) {
        Err(DispatchError::BadOrigin)
    } else if deployers.contains(deployer) {
        Err(DispatchError::Module(Error::AlreadyAuthorized))
    } else {
        Ok(())
    }
}

/// Who is authorized after `authorize_deployer`.
pub open spec fn after_authorize(
    deployers: Set<AccountId>,
    origin: RawOrigin,
    deployer: AccountId,
) -> Set<AccountId> {
    if authorize_result(deployers, origin, deployer) is Ok {
        deployers.insert(deployer)
    } else {
        deployers
    }
}

/// The events that `authorize_deployer` deposits.
pub open spec fn authorize_events(
    deployers: Set<AccountId>,
    origin: RawOrigin,
    deployer: AccountId,
) -> Seq<Event> {
    if authorize_result(deployers, origin, deployer) is Ok {
        seq![Event::DeployerAuthorized { deployer }]
    } else {
        Seq::empty()
    }
}

/// What `revoke_deployer` answers when `deployers` are authorized.
pub open spec fn revoke_result(
    deployers: Set<AccountId>,
    origin: RawOrigin,
    deployer: AccountId,
) -> DispatchResult {
    if !(origin is Root) {
        Err(DispatchError::BadOrigin)
    } else if !deployers.contains(deployer) {
        Err(DispatchError::Module(Error::NotAuthorized))
    } else {
        Ok(())
    }
}

/// Who is authorized after `revoke_deployer`.
pub open spec fn after_revoke(
    deployers: Set<AccountId>,
    origin: RawOrigin,
    deployer: AccountId,
) -> Set<AccountId> {
    if revoke_result(deployers, origin, deployer) is Ok {
        deployers.remove(deployer)
    } else {
        deployers
    }
}

/// The events that `revoke_deployer` deposits.
pub open spec fn revoke_events(
    deployers: Set<AccountId>,
    origin: RawOrigin,
    deployer: AccountId,
) -> Seq<Event> {
    if revoke_result(deployers, origin, deployer) is Ok {
        seq![Event::DeployerRevoked { deployer }]
    } else {
        Seq::empty()
    }
}

/// The accounts that may deploy contracts directly to the EVM.
///
/// The registry is a map from account to a unit marker: an account is
/// authorized exactly when it has an entry. Its view is the set of the
/// authorized accounts.
#[derive(Debug, PartialEq, Eq)]
pub struct Pallet {
    authorized_deployers: HashMap<AccountId, ()>,
}

impl View for Pallet {
    type V = Set<AccountId>;

    closed spec fn view(&self) -> Set<AccountId> {
        self.authorized_deployers@.dom()
    }
}

impl Clone for Pallet {
    fn clone(&self) -> (copy: Self)
        ensures
            copy@ == self@,
    {
        Pallet { authorized_deployers: self.authorized_deployers.clone() }
    }
}

impl Pallet {
    /// A registry in which nobody is authorized.
    pub fn new() -> (pallet: Self)
        ensures
            pallet@ == Set::<AccountId>::empty(),
    {
        Pallet { authorized_deployers: HashMap::new() }
    }

    /// Authorizes `deployer` to deploy EVM contracts.
    ///
    /// Only the root origin may do so, and only for an account that is not
    /// authorized yet. On success the account enters the registry and one
    /// `DeployerAuthorized` event is deposited in `events`; on failure
    /// neither the registry nor `events` changes.
    pub fn authorize_deployer(
        &mut self,
        origin: RawOrigin,
        deployer: AccountId,
        events: &mut Vec<Event>,
    ) -> (result: DispatchResult)
        ensures
            result == authorize_result(old(self)@, origin, deployer),
            final(self)@ == after_authorize(old(self)@, origin, deployer),
            final(events)@ == old(events)@ + authorize_events(old(self)@, origin, deployer),
    {
        match ensure_root(origin) {
            Ok(()) => {},
            Err(bad_origin) => {
                return Err(DispatchError::from(bad_origin));
            },
        }
        if self.authorized_deployers.contains_key(&deployer) {
            return Err(DispatchError::from(Error::AlreadyAuthorized));
        }
        self.authorized_deployers.insert(deployer, ());
        Self::deposit_event(events, Event::DeployerAuthorized { deployer });
        Ok(())
    }

    /// Revokes the authorization of `deployer`.
    ///
    /// Only the root origin may do so, and only for an account that is
    /// authorized. On success the account leaves the registry and one
    /// `DeployerRevoked` event is deposited in `events`; on failure neither
    /// the registry nor `events` changes.
    pub fn revoke_deployer(
        &mut self,
        origin: RawOrigin,
        deployer: AccountId,
        events: &mut Vec<Event>,
    ) -> (result: DispatchResult)
        ensures
            result == revoke_result(old(self)@, origin, deployer),
            final(self)@ == after_revoke(old(self)@, origin, deployer),
            final(events)@ == old(events)@ + revoke_events(old(self)@, origin, deployer),
    {
        match ensure_root(origin) {
            Ok(()) => {},
            Err(bad_origin) => {
                return Err(DispatchError::from(bad_origin));
            },
        }
        if !self.authorized_deployers.contains_key(&deployer) {
            return Err(DispatchError::from(Error::NotAuthorized));
        }
        self.authorized_deployers.remove(&deployer);
        Self::deposit_event(events, Event::DeployerRevoked { deployer });
        Ok(())
    }

    /// Whether `account` is authorized to deploy EVM contracts.
    pub fn is_authorized(&self, account: &AccountId) -> (authorized: bool)
        ensures
            authorized == self@.contains(*account),
    {
        self.authorized_deployers.contains_key(account)
    }

    /// Appends `event` to the host's event log.
    fn deposit_event(events: &mut Vec<Event>, event: Event)
        ensures
            final(events)@ == old(events)@.push(event),
    {
        events.push(event);
    }
}

/// The deployers that are authorized when the chain starts.
#[derive(Debug)]
pub struct GenesisConfig {
    /// Initial list of authorized deployers.
    pub authorized_deployers: Vec<AccountId>,
}

impl Clone for GenesisConfig {
    fn clone(&self) -> (copy: Self)
        ensures
            copy.authorized_deployers@ == self.authorized_deployers@,
    {
        GenesisConfig { authorized_deployers: self.authorized_deployers.clone() }
    }
}

impl Default for GenesisConfig {
    fn default() -> (config: Self)
        ensures
            config.authorized_deployers@ == Seq::<AccountId>::empty(),
    {
        GenesisConfig { authorized_deployers: Vec::new() }
    }
}

impl GenesisConfig {
    /// Builds the registry of the first block: the listed accounts are
    /// authorized, each however often it is listed, and nobody else.
    pub fn build(&self) -> (pallet: Pallet)
        ensures
            pallet@ == self.authorized_deployers@.to_set(),
    {
        let mut pallet = Pallet::new();
        let mut i: usize = 0;
        assert(self.authorized_deployers@.take(0).to_set() =~= Set::<AccountId>::empty());
        while i < self.authorized_deployers.len()
            invariant
                i <= self.authorized_deployers.len(),
                pallet@ == self.authorized_deployers@.take(i as int).to_set(),
            decreases self.authorized_deployers.len() - i,
        {
            proof {
                let listed = self.authorized_deployers@;
                assert(listed.take(i + 1) =~= listed.take(i as int).push(listed[i as int]));
                listed.take(i as int).lemma_push_to_set_commute(listed[i as int]);
            }
            pallet.authorized_deployers.insert(self.authorized_deployers[i], ());
            i += 1;
        }
        assert(self.authorized_deployers@.take(i as int) =~= self.authorized_deployers@);
        pallet
    }
}

/// Authorizing an account twice in a row: whatever the first call found,
/// the account is authorized after it, the second call is refused with
/// `AlreadyAuthorized`, and the refused call leaves the registry as it was
/// and deposits nothing.
pub proof fn lemma_second_authorization_is_refused(deployers: Set<AccountId>, deployer: AccountId)
    ensures
        ({
            let first = after_authorize(deployers, RawOrigin::Root, deployer);
            &&& first.contains(deployer)
            &&& authorize_result(first, RawOrigin::Root, deployer) == Err::<(), DispatchError>(
                DispatchError::Module(Error::AlreadyAuthorized),
            )
            &&& after_authorize(first, RawOrigin::Root, deployer) == first
            &&& authorize_events(first, RawOrigin::Root, deployer) == Seq::<Event>::empty()
        }),
{
}

/// Revoking an account that is not authorized is refused with
/// `NotAuthorized`; the account stays unauthorized, the registry stays as it
/// was and nothing is deposited.
pub proof fn lemma_revoking_a_stranger_is_refused(deployers: Set<AccountId>, deployer: AccountId)
    requires
        !deployers.contains(deployer),
    ensures
        revoke_result(deployers, RawOrigin::Root, deployer) == Err::<(), DispatchError>(
            DispatchError::Module(Error::NotAuthorized),
        ),
        after_revoke(deployers, RawOrigin::Root, deployer) == deployers,
        !after_revoke(deployers, RawOrigin::Root, deployer).contains(deployer),
        revoke_events(deployers, RawOrigin::Root, deployer) == Seq::<Event>::empty(),
{
}

/// An account can be authorized, revoked and authorized again: each of the
/// three calls succeeds, the revocation brings back the registry from
/// before the first call, and nothing of the first authorization stands in
/// the way of the second.
pub proof fn lemma_authorize_revoke_cycle(deployers: Set<AccountId>, deployer: AccountId)
    requires
        !deployers.contains(deployer),
    ensures
        ({
            let authorized = after_authorize(deployers, RawOrigin::Root, deployer);
            let revoked = after_revoke(authorized, RawOrigin::Root, deployer);
            let again = after_authorize(revoked, RawOrigin::Root, deployer);
            &&& authorize_result(deployers, RawOrigin::Root, deployer) is Ok
            &&& authorized.contains(deployer)
            &&& revoke_result(authorized, RawOrigin::Root, deployer) is Ok
            &&& !revoked.contains(deployer)
            &&& revoked == deployers
            &&& authorize_result(revoked, RawOrigin::Root, deployer) is Ok
            &&& again.contains(deployer)
            &&& again == authorized
        }),
{
    assert(deployers.insert(deployer).remove(deployer) =~= deployers);
}

/// A call that succeeds deposits exactly one event, which names the call's
/// account; a call that fails deposits none and changes nobody's
/// authorization.
pub proof fn lemma_one_event_per_change(
    deployers: Set<AccountId>,
    origin: RawOrigin,
    deployer: AccountId,
)
    ensures
        authorize_result(deployers, origin, deployer) is Ok ==> authorize_events(
            deployers,
            origin,
            deployer,
        ) == seq![Event::DeployerAuthorized { deployer }],
        authorize_result(deployers, origin, deployer) is Err ==> authorize_events(
            deployers,
            origin,
            deployer,
        ).len() == 0 && after_authorize(deployers, origin, deployer) == deployers,
        revoke_result(deployers, origin, deployer) is Ok ==> revoke_events(
            deployers,
            origin,
            deployer,
        ) == seq![Event::DeployerRevoked { deployer }],
        revoke_result(deployers, origin, deployer) is Err ==> revoke_events(
            deployers,
            origin,
            deployer,
        ).len() == 0 && after_revoke(deployers, origin, deployer) == deployers,
{
}

/// Whoever is not the root origin gets `BadOrigin` from both calls, whatever
/// account the call names and whoever is authorized, and changes nothing.
pub proof fn lemma_only_root_changes_the_registry(
    deployers: Set<AccountId>,
    origin: RawOrigin,
    deployer: AccountId,
)
    requires
        !(origin is Root),
    ensures
        authorize_result(deployers, origin, deployer) == Err::<(), DispatchError>(
            DispatchError::BadOrigin,
        ),
        after_authorize(deployers, origin, deployer) == deployers,
        authorize_events(deployers, origin, deployer) == Seq::<Event>::empty(),
        revoke_result(deployers, origin, deployer) == Err::<(), DispatchError>(
            DispatchError::BadOrigin,
        ),
        after_revoke(deployers, origin, deployer) == deployers,
        revoke_events(deployers, origin, deployer) == Seq::<Event>::empty(),
{
}

} // verus!
