//! The registry over a whole history of calls: who is authorized after any
//! sequence of dispatched calls, and the invariant that ties membership to
//! the latest change.

use crate::error::DispatchResult;
use crate::event::Event;
use crate::origin::{AccountId, RawOrigin};
use crate::pallet::{
    after_authorize, after_revoke, authorize_events, authorize_result, revoke_events,
    revoke_result,
};
use vstd::prelude::*;

verus! {

/// A call that changes the registry, as a history records it.
#[derive(Debug, Clone, Copy, PartialEq, Eq, Structural)]
pub enum Call {
    /// `Pallet::authorize_deployer` for this account.
    AuthorizeDeployer { deployer: AccountId },
    /// `Pallet::revoke_deployer` for this account.
    RevokeDeployer { deployer: AccountId },
}

/// What `call` answers to `origin` when `deployers` are authorized.
pub open spec fn dispatch_result(
    deployers: Set<AccountId>,
    origin: RawOrigin,
    call: Call,
) -> DispatchResult {
    match call {
        Call::AuthorizeDeployer { deployer } => authorize_result(deployers, origin, deployer),
        Call::RevokeDeployer { deployer } => revoke_result(deployers, origin, deployer),
    }
}

/// Who is authorized after `origin` has dispatched `call`.
pub open spec fn after_dispatch(
    deployers: Set<AccountId>,
    origin: RawOrigin,
    call: Call,
) -> Set<AccountId> {
    match call {
        Call::AuthorizeDeployer { deployer } => after_authorize(deployers, origin, deployer),
        Call::RevokeDeployer { deployer } => after_revoke(deployers, origin, deployer),
    }
}

/// The events that `call` deposits when `origin` dispatches it.
pub open spec fn dispatch_events(
    deployers: Set<AccountId>,
    origin: RawOrigin,
    call: Call,
) -> Seq<Event> {
    match call {
        Call::AuthorizeDeployer { deployer } => authorize_events(deployers, origin, deployer),
        Call::RevokeDeployer { deployer } => revoke_events(deployers, origin, deployer),
    }
}

/// Who is authorized after the calls of `history`, dispatched in order on a
/// registry that started with `genesis`.
pub open spec fn deployers_after(
    genesis: Set<AccountId>,
    history: Seq<(RawOrigin, Call)>,
) -> Set<AccountId>
    decreases history.len(),
{
    if history.len() == 0 {
        genesis
    } else {
        after_dispatch(
            deployers_after(genesis, history.drop_last()),
            history.last().0,
            history.last().1,
        )
    }
}

/// The events that the calls of `history` deposit, in order, on a registry
/// that started with `genesis`.
pub open spec fn events_after(
    genesis: Set<AccountId>,
    history: Seq<(RawOrigin, Call)>,
) -> Seq<Event>
    decreases history.len(),
{
    if history.len() == 0 {
        Seq::empty()
    } else {
        events_after(genesis, history.drop_last()) + dispatch_events(
            deployers_after(genesis, history.drop_last()),
            history.last().0,
            history.last().1,
        )
    }
}

/// Who is authorized when the changes that `events` report are made to
/// `deployers`, in order.
pub open spec fn replay(deployers: Set<AccountId>, events: Seq<Event>) -> Set<AccountId>
    decreases events.len(),
{
    if events.len() == 0 {
        deployers
    } else {
        match events.last() {
            Event::DeployerAuthorized { deployer } => replay(deployers, events.drop_last()).insert(
                deployer,
            ),
            Event::DeployerRevoked { deployer } => replay(deployers, events.drop_last()).remove(
                deployer,
            ),
        }
    }
}

/// Call `k` of `history` changed the registry: it was dispatched and
/// succeeded.
pub open spec fn changes(genesis: Set<AccountId>, history: Seq<(RawOrigin, Call)>, k: int) -> bool {
    &&& 0 <= k < history.len()
    &&& dispatch_result(deployers_after(genesis, history.take(k)), history[k].0, history[k].1) is Ok
}

/// Call `k` of `history` authorized `who`: it asked for that and succeeded.
pub open spec fn authorizes(
    genesis: Set<AccountId>,
    history: Seq<(RawOrigin, Call)>,
    k: int,
    who: AccountId,
) -> bool {
    changes(genesis, history, k) && history[k].1 == Call::AuthorizeDeployer { deployer: who }
}

/// Call `k` of `history` revoked `who`: it asked for that and succeeded.
pub open spec fn revokes(
    genesis: Set<AccountId>,
    history: Seq<(RawOrigin, Call)>,
    k: int,
    who: AccountId,
) -> bool {
    changes(genesis, history, k) && history[k].1 == Call::RevokeDeployer { deployer: who }
}

/// The latest change that concerns `who` left it authorized: some call
/// authorized it and none revoked it afterwards, or it was authorized at
/// genesis and no call ever revoked it.
pub open spec fn standing(
    genesis: Set<AccountId>,
    history: Seq<(RawOrigin, Call)>,
    who: AccountId,
) -> bool {
    ||| exists|k: int|
        authorizes(genesis, history, k, who) && forall|j: int|
            k < j ==> !revokes(genesis, history, j, who)
    ||| genesis.contains(who) && forall|j: int| !revokes(genesis, history, j, who)
}

/// A call before the last one did what it did in the history without the
/// last call.
proof fn lemma_earlier_calls_stand(
    genesis: Set<AccountId>,
    history: Seq<(RawOrigin, Call)>,
    k: int,
)
    requires
        0 <= k < history.len() - 1,
    ensures
        history[k] == history.drop_last()[k],
        changes(genesis, history, k) == changes(genesis, history.drop_last(), k),
{
    assert(history.take(k) =~= history.drop_last().take(k));
}

/// Calls that are refused change nothing: after a history in which no call
/// succeeded, the registry is as it was at genesis.
pub proof fn lemma_refused_calls_change_nothing(
    genesis: Set<AccountId>,
    history: Seq<(RawOrigin, Call)>,
)
    requires
        forall|k: int| !changes(genesis, history, k),
    ensures
        deployers_after(genesis, history) == genesis,
    decreases history.len(),
{
    if history.len() > 0 {
        let prior = history.drop_last();
        let n = history.len() - 1;
        assert forall|k: int| !changes(genesis, prior, k) by {
            if 0 <= k < n {
                lemma_earlier_calls_stand(genesis, history, k);
            }
        }
        lemma_refused_calls_change_nothing(genesis, prior);
        assert(history.take(n) =~= prior);
        assert(!changes(genesis, history, n));
    }
}

/// The events are a faithful record of the registry: every change deposits
/// its event and nothing else does, so whoever makes the reported changes to
/// the registry of genesis, in order, arrives at the registry after the
/// history.
pub proof fn lemma_events_record_every_change(
    genesis: Set<AccountId>,
    history: Seq<(RawOrigin, Call)>,
)
    ensures
        replay(genesis, events_after(genesis, history)) == deployers_after(genesis, history),
    decreases history.len(),
{
    if history.len() > 0 {
        let prior = history.drop_last();
        let before = deployers_after(genesis, prior);
        let deposited = dispatch_events(before, history.last().0, history.last().1);
        lemma_events_record_every_change(genesis, prior);
        if deposited.len() == 0 {
            assert(events_after(genesis, history) =~= events_after(genesis, prior));
        } else {
            assert(events_after(genesis, history) =~= events_after(genesis, prior).push(
                deposited[0],
            ));
            assert(events_after(genesis, history).drop_last() =~= events_after(genesis, prior));
        }
    }
}

/// The invariant of the registry: after any history, an account is
/// authorized exactly when the latest change that concerns it was an
/// authorization, or, if no call ever changed it, when it was authorized at
/// genesis.
pub proof fn lemma_authorized_iff_standing(
    genesis: Set<AccountId>,
    history: Seq<(RawOrigin, Call)>,
    who: AccountId,
)
    ensures
        deployers_after(genesis, history).contains(who) <==> standing(genesis, history, who),
    decreases history.len(),
{
    if history.len() > 0 {
        let prior = history.drop_last();
        let n = history.len() - 1;
        lemma_authorized_iff_standing(genesis, prior, who);
        assert(history.take(n) =~= prior);
        assert forall|k: int| k != n implies authorizes(genesis, history, k, who) == authorizes(
            genesis,
            prior,
            k,
            who,
        ) && revokes(genesis, history, k, who) == revokes(genesis, prior, k, who) by {
            if 0 <= k < n {
                lemma_earlier_calls_stand(genesis, history, k);
            }
        }
        if authorizes(genesis, history, n, who) {
            assert(forall|j: int| n < j ==> !revokes(genesis, history, j, who));
        } else if revokes(genesis, history, n, who) {
            assert forall|k: int| authorizes(genesis, history, k, who) implies !(forall|j: int|
                k < j ==> !revokes(genesis, history, j, who)) by {
                assert(k < n);
            }
        } else {
            if standing(genesis, prior, who) {
                if genesis.contains(who) && forall|j: int| !revokes(genesis, prior, j, who) {
                    assert(forall|j: int| !revokes(genesis, history, j, who));
                } else {
                    let k = choose|k: int|
                        authorizes(genesis, prior, k, who) && forall|j: int|
                            k < j ==> !revokes(genesis, prior, j, who);
                    assert(authorizes(genesis, history, k, who));
                    assert(forall|j: int| k < j ==> !revokes(genesis, history, j, who));
                }
            }
            if standing(genesis, history, who) {
                if genesis.contains(who) && forall|j: int| !revokes(genesis, history, j, who) {
                    assert(forall|j: int| !revokes(genesis, prior, j, who));
                } else {
                    let k = choose|k: int|
                        authorizes(genesis, history, k, who) && forall|j: int|
                            k < j ==> !revokes(genesis, history, j, who);
                    assert(authorizes(genesis, prior, k, who));
                    assert(forall|j: int| k < j ==> !revokes(genesis, prior, j, who));
                }
            }
        }
    }
}

/// An account that is listed at genesis is authorized as long as no call
/// has changed the registry.
pub proof fn lemma_listed_at_genesis_is_authorized(
    listed: Seq<AccountId>,
    history: Seq<(RawOrigin, Call)>,
    who: AccountId,
)
    requires
        listed.contains(who),
        forall|k: int| !changes(listed.to_set(), history, k),
    ensures
        deployers_after(listed.to_set(), history).contains(who),
{
    lemma_refused_calls_change_nothing(listed.to_set(), history);
}

/// An account that is not listed at genesis, and that no call of the
/// history authorized, is not authorized after the history.
pub proof fn lemma_unlisted_and_never_authorized_is_unauthorized(
    listed: Seq<AccountId>,
    history: Seq<(RawOrigin, Call)>,
    who: AccountId,
)
    requires
        !listed.contains(who),
        forall|k: int| !authorizes(listed.to_set(), history, k, who),
    ensures
        !deployers_after(listed.to_set(), history).contains(who),
{
    lemma_authorized_iff_standing(listed.to_set(), history, who);
}

} // verus!
