use ipc_server::provision::{
    recovery_for, BindFailure, ProvisionAction, ProvisionError, ProvisionEvent, Provisioner,
    Recovery,
};

#[test]
fn first_action_is_bind() {
    let state = Provisioner::new();
    assert_eq!(state, Provisioner::Binding);
    assert_eq!(state.pending(), ProvisionAction::Bind);
    assert!(!state.is_settled());
}

#[test]
fn bind_that_succeeds_at_once_finishes() {
    let state = Provisioner::new().on(ProvisionEvent::BindSucceeded);
    assert_eq!(state, Provisioner::Bound);
    assert_eq!(state.pending(), ProvisionAction::Finish);
    assert!(state.is_settled());
}

#[test]
fn recovery_for_each_failure() {
    assert_eq!(recovery_for(BindFailure::NotFound), Some(Recovery::CreateDirectories));
    assert_eq!(recovery_for(BindFailure::AddrInUse), Some(Recovery::RemoveEndpoint));
    assert_eq!(recovery_for(BindFailure::Other), None);
}

#[test]
fn stale_endpoint_is_removed_and_rebound_once() {
    let mut binds = 0;
    let mut removals = 0;
    let mut state = Provisioner::new();
    let outcomes = [
        ProvisionEvent::BindFailed(BindFailure::AddrInUse),
        ProvisionEvent::RecoverySucceeded,
        ProvisionEvent::BindSucceeded,
    ];
    for outcome in outcomes {
        match state.pending() {
            ProvisionAction::Bind => binds += 1,
            ProvisionAction::Recover(Recovery::RemoveEndpoint) => removals += 1,
            other => panic!("unexpected action {:?}", other),
        }
        state = state.on(outcome);
    }
    assert_eq!(state, Provisioner::Bound);
    assert_eq!(state.pending(), ProvisionAction::Finish);
    assert_eq!(binds, 2);
    assert_eq!(removals, 1);
}

#[test]
fn missing_directory_is_created_and_bound_once() {
    let state = Provisioner::new();
    assert_eq!(state.pending(), ProvisionAction::Bind);
    let state = state.on(ProvisionEvent::BindFailed(BindFailure::NotFound));
    assert_eq!(state, Provisioner::Recovering(Recovery::CreateDirectories));
    assert_eq!(state.pending(), ProvisionAction::Recover(Recovery::CreateDirectories));
    let state = state.on(ProvisionEvent::RecoverySucceeded);
    assert_eq!(state, Provisioner::Rebinding(Recovery::CreateDirectories));
    assert_eq!(state.pending(), ProvisionAction::Bind);
    let state = state.on(ProvisionEvent::BindSucceeded);
    assert_eq!(state, Provisioner::Bound);
}

#[test]
fn other_bind_failure_is_fatal() {
    let state = Provisioner::new().on(ProvisionEvent::BindFailed(BindFailure::Other));
    assert_eq!(state, Provisioner::Failed(ProvisionError::Unrecoverable));
    assert_eq!(state.pending(), ProvisionAction::Abort(ProvisionError::Unrecoverable));
    assert!(state.is_settled());
}

#[test]
fn failed_recovery_is_fatal() {
    let state = Provisioner::new()
        .on(ProvisionEvent::BindFailed(BindFailure::NotFound))
        .on(ProvisionEvent::RecoveryFailed);
    assert_eq!(
        state,
        Provisioner::Failed(ProvisionError::RecoveryFailed(Recovery::CreateDirectories))
    );
    let state = Provisioner::new()
        .on(ProvisionEvent::BindFailed(BindFailure::AddrInUse))
        .on(ProvisionEvent::RecoveryFailed);
    assert_eq!(
        state,
        Provisioner::Failed(ProvisionError::RecoveryFailed(Recovery::RemoveEndpoint))
    );
}

#[test]
fn second_bind_failure_is_fatal_whatever_its_cause() {
    for first in [BindFailure::NotFound, BindFailure::AddrInUse] {
        for second in [BindFailure::NotFound, BindFailure::AddrInUse, BindFailure::Other] {
            let state = Provisioner::new()
                .on(ProvisionEvent::BindFailed(first))
                .on(ProvisionEvent::RecoverySucceeded)
                .on(ProvisionEvent::BindFailed(second));
            let recovery = recovery_for(first).unwrap();
            assert_eq!(state, Provisioner::Failed(ProvisionError::RetryFailed(recovery)));
            assert_eq!(
                state.pending(),
                ProvisionAction::Abort(ProvisionError::RetryFailed(recovery))
            );
        }
    }
}

#[test]
fn outcome_out_of_turn_is_fatal() {
    let state = Provisioner::new().on(ProvisionEvent::RecoverySucceeded);
    assert_eq!(state, Provisioner::Failed(ProvisionError::OutOfTurn));
    let state = Provisioner::new().on(ProvisionEvent::RecoveryFailed);
    assert_eq!(state, Provisioner::Failed(ProvisionError::OutOfTurn));
    let state = Provisioner::Recovering(Recovery::RemoveEndpoint).on(ProvisionEvent::BindSucceeded);
    assert_eq!(state, Provisioner::Failed(ProvisionError::OutOfTurn));
    let state = Provisioner::Rebinding(Recovery::RemoveEndpoint).on(ProvisionEvent::RecoveryFailed);
    assert_eq!(state, Provisioner::Failed(ProvisionError::OutOfTurn));
}

#[test]
fn settled_provisioner_stays_as_it_is() {
    let events = [
        ProvisionEvent::BindSucceeded,
        ProvisionEvent::BindFailed(BindFailure::Other),
        ProvisionEvent::RecoverySucceeded,
        ProvisionEvent::RecoveryFailed,
    ];
    for event in events {
        assert_eq!(Provisioner::Bound.on(event), Provisioner::Bound);
        let failed = Provisioner::Failed(ProvisionError::Unrecoverable);
        assert_eq!(failed.on(event), failed);
    }
}

#[test]
fn every_course_of_three_events_settles_with_at_most_two_binds() {
    let events = [
        ProvisionEvent::BindSucceeded,
        ProvisionEvent::BindFailed(BindFailure::NotFound),
        ProvisionEvent::BindFailed(BindFailure::AddrInUse),
        ProvisionEvent::BindFailed(BindFailure::Other),
        ProvisionEvent::RecoverySucceeded,
        ProvisionEvent::RecoveryFailed,
    ];
    for first in events {
        for second in events {
            for third in events {
                let mut state = Provisioner::new();
                let mut binds = 0;
                for event in [first, second, third] {
                    if state.pending() == ProvisionAction::Bind {
                        binds += 1;
                    }
                    state = state.on(event);
                }
                assert!(state.is_settled());
                assert!(binds <= 2);
                let recovered = matches!(first, ProvisionEvent::BindFailed(BindFailure::NotFound))
                    || matches!(first, ProvisionEvent::BindFailed(BindFailure::AddrInUse));
                let with_listener = first == ProvisionEvent::BindSucceeded
                    || (recovered
                        && second == ProvisionEvent::RecoverySucceeded
                        && third == ProvisionEvent::BindSucceeded);
                assert_eq!(state == Provisioner::Bound, with_listener);
            }
        }
    }
}
