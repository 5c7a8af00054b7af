use evm_deployment_control::{
    ensure_root, ensure_signed, BadOrigin, DeploymentValidationError, DispatchError, Error,
    Event, GenesisConfig, Pallet, RawOrigin,
};

#[test]
fn new_registry_authorizes_nobody() {
    let pallet = Pallet::new();
    assert!(!pallet.is_authorized(&0));
    assert!(!pallet.is_authorized(&1));
    assert!(!pallet.is_authorized(&u64::MAX));
}

#[test]
fn default_genesis_lists_nobody() {
    let config = GenesisConfig::default();
    assert!(config.authorized_deployers.is_empty());
    let pallet = config.build();
    assert_eq!(pallet, Pallet::new());
    assert!(!pallet.is_authorized(&1));
}

#[test]
fn genesis_authorizes_every_listed_account() {
    let listed = vec![7, 0, u64::MAX, 42];
    let pallet = GenesisConfig { authorized_deployers: listed.clone() }.build();
    for who in &listed {
        assert!(pallet.is_authorized(who));
    }
}

#[test]
fn genesis_authorizes_nobody_else() {
    let pallet = GenesisConfig { authorized_deployers: vec![7, 0, 42] }.build();
    for who in [1u64, 6, 8, 41, 43, u64::MAX] {
        assert!(!pallet.is_authorized(&who));
    }
}

#[test]
fn duplicates_at_genesis_count_once() {
    let twice = GenesisConfig { authorized_deployers: vec![5, 9, 5, 5, 9] }.build();
    let once = GenesisConfig { authorized_deployers: vec![9, 5] }.build();
    assert_eq!(twice, once);

    // One revocation is enough, however often the account was listed.
    let mut pallet = twice;
    let mut events = Vec::new();
    assert_eq!(pallet.revoke_deployer(RawOrigin::Root, 5, &mut events), Ok(()));
    assert!(!pallet.is_authorized(&5));
    assert!(pallet.is_authorized(&9));
}

#[test]
fn unlisted_account_stays_unauthorized_while_others_change() {
    let mut pallet = GenesisConfig { authorized_deployers: vec![1, 2] }.build();
    let mut events = Vec::new();
    assert_eq!(pallet.authorize_deployer(RawOrigin::Root, 3, &mut events), Ok(()));
    assert_eq!(pallet.revoke_deployer(RawOrigin::Root, 1, &mut events), Ok(()));
    assert_eq!(
        pallet.authorize_deployer(RawOrigin::Signed(8), 8, &mut events),
        Err(DispatchError::BadOrigin)
    );
    assert_eq!(
        pallet.revoke_deployer(RawOrigin::Root, 8, &mut events),
        Err(DispatchError::Module(Error::NotAuthorized))
    );
    assert!(!pallet.is_authorized(&8));
}

#[test]
fn second_authorization_is_refused() {
    let mut pallet = Pallet::new();
    let mut events = Vec::new();
    assert_eq!(pallet.authorize_deployer(RawOrigin::Root, 4, &mut events), Ok(()));
    assert!(pallet.is_authorized(&4));
    let after_first = pallet.clone();

    assert_eq!(
        pallet.authorize_deployer(RawOrigin::Root, 4, &mut events),
        Err(DispatchError::Module(Error::AlreadyAuthorized))
    );
    assert!(pallet.is_authorized(&4));
    assert_eq!(pallet, after_first);
    assert_eq!(events, vec![Event::DeployerAuthorized { deployer: 4 }]);
}

#[test]
fn revoking_a_stranger_is_refused() {
    let mut pallet = Pallet::new();
    let mut events = Vec::new();
    assert_eq!(
        pallet.revoke_deployer(RawOrigin::Root, 4, &mut events),
        Err(DispatchError::Module(Error::NotAuthorized))
    );
    assert!(!pallet.is_authorized(&4));
    assert_eq!(pallet, Pallet::new());
    assert!(events.is_empty());
}

#[test]
fn second_revocation_is_refused() {
    let mut pallet = GenesisConfig { authorized_deployers: vec![4] }.build();
    let mut events = Vec::new();
    assert_eq!(pallet.revoke_deployer(RawOrigin::Root, 4, &mut events), Ok(()));
    assert_eq!(
        pallet.revoke_deployer(RawOrigin::Root, 4, &mut events),
        Err(DispatchError::Module(Error::NotAuthorized))
    );
    assert_eq!(events, vec![Event::DeployerRevoked { deployer: 4 }]);
}

#[test]
fn cycle_restores_the_registry() {
    let start = GenesisConfig { authorized_deployers: vec![1, 2] }.build();
    let mut pallet = start.clone();
    let mut events = Vec::new();

    assert_eq!(pallet.authorize_deployer(RawOrigin::Root, 10, &mut events), Ok(()));
    let authorized = pallet.clone();
    assert_ne!(authorized, start);

    assert_eq!(pallet.revoke_deployer(RawOrigin::Root, 10, &mut events), Ok(()));
    assert_eq!(pallet, start);

    assert_eq!(pallet.authorize_deployer(RawOrigin::Root, 10, &mut events), Ok(()));
    assert_eq!(pallet, authorized);
}

#[test]
fn every_change_deposits_one_event_in_order() {
    let mut pallet = Pallet::new();
    let mut events = Vec::new();

    assert_eq!(pallet.authorize_deployer(RawOrigin::Root, 3, &mut events), Ok(()));
    assert_eq!(events.len(), 1);
    assert_eq!(pallet.authorize_deployer(RawOrigin::Root, 4, &mut events), Ok(()));
    assert_eq!(events.len(), 2);
    assert_eq!(pallet.revoke_deployer(RawOrigin::Root, 3, &mut events), Ok(()));
    assert_eq!(events.len(), 3);

    assert_eq!(
        events,
        vec![
            Event::DeployerAuthorized { deployer: 3 },
            Event::DeployerAuthorized { deployer: 4 },
            Event::DeployerRevoked { deployer: 3 },
        ]
    );
}

#[test]
fn refused_calls_deposit_nothing() {
    let mut pallet = GenesisConfig { authorized_deployers: vec![1] }.build();
    let mut events = vec![Event::DeployerAuthorized { deployer: 1 }];
    let logged = events.clone();

    assert!(pallet.authorize_deployer(RawOrigin::Root, 1, &mut events).is_err());
    assert_eq!(events, logged);
    assert!(pallet.revoke_deployer(RawOrigin::Root, 2, &mut events).is_err());
    assert_eq!(events, logged);
    assert!(pallet.authorize_deployer(RawOrigin::Signed(1), 2, &mut events).is_err());
    assert_eq!(events, logged);
    assert!(pallet.revoke_deployer(RawOrigin::Unsigned, 1, &mut events).is_err());
    assert_eq!(events, logged);
}

#[test]
fn events_are_appended_to_what_the_log_holds() {
    let mut pallet = Pallet::new();
    let mut events = vec![Event::DeployerRevoked { deployer: 77 }];
    assert_eq!(pallet.authorize_deployer(RawOrigin::Root, 5, &mut events), Ok(()));
    assert_eq!(
        events,
        vec![Event::DeployerRevoked { deployer: 77 }, Event::DeployerAuthorized { deployer: 5 }]
    );
}

#[test]
fn bad_origin_whatever_the_target() {
    let start = GenesisConfig { authorized_deployers: vec![1, 2] }.build();
    for origin in [RawOrigin::Signed(1), RawOrigin::Signed(3), RawOrigin::Unsigned] {
        // 1 is authorized, 3 is not: the origin is refused before that matters.
        for target in [1u64, 3] {
            let mut pallet = start.clone();
            let mut events = Vec::new();
            assert_eq!(
                pallet.authorize_deployer(origin, target, &mut events),
                Err(DispatchError::BadOrigin)
            );
            assert_eq!(
                pallet.revoke_deployer(origin, target, &mut events),
                Err(DispatchError::BadOrigin)
            );
            assert_eq!(pallet, start);
            assert!(events.is_empty());
        }
    }
}

#[test]
fn an_authorized_deployer_is_not_root() {
    let mut pallet = GenesisConfig { authorized_deployers: vec![1] }.build();
    let mut events = Vec::new();
    assert_eq!(
        pallet.authorize_deployer(RawOrigin::Signed(1), 2, &mut events),
        Err(DispatchError::BadOrigin)
    );
    assert_eq!(
        pallet.revoke_deployer(RawOrigin::Signed(1), 1, &mut events),
        Err(DispatchError::BadOrigin)
    );
    assert!(pallet.is_authorized(&1));
    assert!(!pallet.is_authorized(&2));
}

#[test]
fn clone_is_independent() {
    let mut pallet = GenesisConfig { authorized_deployers: vec![1] }.build();
    let copy = pallet.clone();
    let mut events = Vec::new();
    assert_eq!(pallet.revoke_deployer(RawOrigin::Root, 1, &mut events), Ok(()));
    assert!(!pallet.is_authorized(&1));
    assert!(copy.is_authorized(&1));
}

#[test]
fn ensure_root_passes_root_only() {
    assert_eq!(ensure_root(RawOrigin::Root), Ok(()));
    assert_eq!(ensure_root(RawOrigin::Signed(1)), Err(BadOrigin));
    assert_eq!(ensure_root(RawOrigin::Unsigned), Err(BadOrigin));
}

#[test]
fn ensure_signed_hands_out_the_signer() {
    assert_eq!(ensure_signed(RawOrigin::Signed(9)), Ok(9));
    assert_eq!(ensure_signed(RawOrigin::Signed(0)), Ok(0));
    assert_eq!(ensure_signed(RawOrigin::Root), Err(BadOrigin));
    assert_eq!(ensure_signed(RawOrigin::Unsigned), Err(BadOrigin));
}

#[test]
fn errors_convert_into_dispatch_errors() {
    assert_eq!(DispatchError::from(BadOrigin), DispatchError::BadOrigin);
    assert_eq!(
        DispatchError::from(Error::AlreadyAuthorized),
        DispatchError::Module(Error::AlreadyAuthorized)
    );
    assert_eq!(
        DispatchError::from(Error::NotAuthorized),
        DispatchError::Module(Error::NotAuthorized)
    );
    assert_ne!(
        DispatchError::from(Error::NotAuthorized),
        DispatchError::from(Error::AlreadyAuthorized)
    );
}

#[test]
fn unauthorized_deployer_has_code_zero() {
    assert_eq!(u8::from(DeploymentValidationError::UnauthorizedDeployer), 0);
    let code: u8 = DeploymentValidationError::UnauthorizedDeployer.into();
    assert_eq!(code, 0);
}
