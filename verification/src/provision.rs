//! Acquiring the listening endpoint, with bounded recovery.
//!
//! A bind can be obstructed in two ways that the server repairs by itself: a
//! directory on the way to the endpoint is missing, or the endpoint's path is
//! still occupied by an entry that a listener left behind. Each repair is
//! followed by exactly one more bind. Everything else ends provisioning.
//!
//! The [`Provisioner`] holds where provisioning stands. Its driver carries out
//! [`Provisioner::pending`], reports the outcome to [`Provisioner::on`], and
//! goes on with the state that comes back, until that state is settled.

use vstd::prelude::*;

verus! {

/// Why a bind failed, as far as the provisioner tells causes apart.
#[derive(Debug, Clone, Copy, PartialEq, Eq, Structural)]
pub enum BindFailure {
    /// A directory on the way to the endpoint does not exist.
    NotFound,
    /// The endpoint's path is occupied.
    AddrInUse,
    /// Any other cause.
    Other,
}

/// A repair of the filesystem that makes a second bind worth trying.
#[derive(Debug, Clone, Copy, PartialEq, Eq, Structural)]
pub enum Recovery {
    /// Create every missing directory above the endpoint.
    CreateDirectories,
    /// Remove the entry at the endpoint's path, taken to be stale.
    RemoveEndpoint,
}

/// Why provisioning ended without a listener.
#[derive(Debug, Clone, Copy, PartialEq, Eq, Structural)]
pub enum ProvisionError {
    /// The first bind failed for a cause that has no repair.
    Unrecoverable,
    /// The repair itself failed.
    RecoveryFailed(Recovery),
    /// The bind that followed the repair failed too.
    RetryFailed(Recovery),
    /// The driver reported an outcome of something it was not asked to do.
    OutOfTurn,
}

/// What the driver reports.
#[derive(Debug, Clone, Copy, PartialEq, Eq, Structural)]
pub enum ProvisionEvent {
    BindSucceeded,
    BindFailed(BindFailure),
    RecoverySucceeded,
    RecoveryFailed,
}

/// What the driver is asked to do.
#[derive(Debug, Clone, Copy, PartialEq, Eq, Structural)]
pub enum ProvisionAction {
    /// Bind a listener at the endpoint.
    Bind,
    /// Repair the filesystem.
    Recover(Recovery),
    /// Nothing more: the listener of the last bind is the server's.
    Finish,
    /// Nothing more: give up with this error.
    Abort(ProvisionError),
}

/// Where provisioning stands.
#[derive(Debug, Clone, Copy, PartialEq, Eq, Structural)]
pub enum Provisioner {
    /// The first bind is under way.
    Binding,
    /// The first bind failed and this repair is under way.
    Recovering(Recovery),
    /// The repair is done and the second bind is under way.
    Rebinding(Recovery),
    /// A bind succeeded.
    Bound,
    /// Provisioning failed.
    Failed(ProvisionError),
}

/// The repair that answers a failed first bind, if there is one.
pub open spec fn recovery_of(failure: BindFailure) -> Option<Recovery> {
    match failure {
        BindFailure::NotFound => Some(Recovery::CreateDirectories),
        BindFailure::AddrInUse => Some(Recovery::RemoveEndpoint),
        BindFailure::Other => None,
    }
}

/// The repair that answers a failed first bind, if there is one.
pub fn recovery_for(failure: BindFailure) -> (recovery: Option<Recovery>)
    ensures
        recovery == recovery_of(failure),
{
    match failure {
        BindFailure::NotFound => Some(Recovery::CreateDirectories),
        BindFailure::AddrInUse => Some(Recovery::RemoveEndpoint),
        BindFailure::Other => None,
    }
}

impl Provisioner {
    /// Provisioning ended, one way or the other.
    pub open spec fn settled(self) -> bool {
        self is Bound || self is Failed
    }

    /// The event is an outcome of what this state asks the driver to do.
    pub open spec fn expects(self, event: ProvisionEvent) -> bool {
        match self {
            Provisioner::Binding | Provisioner::Rebinding(_) => {
                event is BindSucceeded || event is BindFailed
            },
            Provisioner::Recovering(_) => event is RecoverySucceeded || event is RecoveryFailed,
            Provisioner::Bound | Provisioner::Failed(_) => false,
        }
    }

    /// What this state asks the driver to do.
    pub open spec fn action(self) -> ProvisionAction {
        match self {
            Provisioner::Binding | Provisioner::Rebinding(_) => ProvisionAction::Bind,
            Provisioner::Recovering(recovery) => ProvisionAction::Recover(recovery),
            Provisioner::Bound => ProvisionAction::Finish,
            Provisioner::Failed(error) => ProvisionAction::Abort(error),
        }
    }

    /// The state that follows this one on the event.
    ///
    /// A settled state stays as it is. Elsewhere an event that the state does
    /// not expect ends provisioning with [`ProvisionError::OutOfTurn`].
    pub open spec fn next(self, event: ProvisionEvent) -> Provisioner {
        if self.settled() {
            self
        } else if !self.expects(event) {
            Provisioner::Failed(ProvisionError::OutOfTurn)
        } else {
            match (self, event) {
                (_, ProvisionEvent::BindSucceeded) => Provisioner::Bound,
                (Provisioner::Binding, ProvisionEvent::BindFailed(failure)) => {
                    match recovery_of(failure) {
                        Some(recovery) => Provisioner::Recovering(recovery),
                        None => Provisioner::Failed(ProvisionError::Unrecoverable),
                    }
                },
                (Provisioner::Rebinding(recovery), ProvisionEvent::BindFailed(_)) => {
                    Provisioner::Failed(ProvisionError::RetryFailed(recovery))
                },
                (Provisioner::Recovering(recovery), ProvisionEvent::RecoverySucceeded) => {
                    Provisioner::Rebinding(recovery)
                },
                (Provisioner::Recovering(recovery), _) => {
                    Provisioner::Failed(ProvisionError::RecoveryFailed(recovery))
                },
                _ => self,
            }
        }
    }

    /// The state after all of `events`, taken in order.
    pub open spec fn after(self, events: Seq<ProvisionEvent>) -> Provisioner
        decreases events.len(),
    {
        if events.len() == 0 {
            self
        } else {
            self.after(events.drop_last()).next(events.last())
        }
    }

    /// How many binds the events answer on the way from this state, the
    /// state's own pending bind included.
    pub open spec fn binds(self, events: Seq<ProvisionEvent>) -> nat
        decreases events.len(),
    {
        if events.len() == 0 {
            0
        } else {
            let before = self.after(events.drop_last());
            let answered: nat = if before.action() is Bind && before.expects(events.last()) {
                1
            } else {
                0
            };
            self.binds(events.drop_last()) + answered
        }
    }

    /// Provisioning before anything was tried: the first bind is pending.
    pub fn new() -> (start: Provisioner)
        ensures
            start == Provisioner::Binding,
    {
        Provisioner::Binding
    }

    /// Whether provisioning ended.
    pub fn is_settled(&self) -> (settled: bool)
        ensures
            settled == self.settled(),
    {
        match self {
            Provisioner::Bound | Provisioner::Failed(_) => true,
            _ => false,
        }
    }

    /// What the driver is to do now.
    pub fn pending(&self) -> (action: ProvisionAction)
        ensures
            action == self.action(),
    {
        match self {
            Provisioner::Binding | Provisioner::Rebinding(_) => ProvisionAction::Bind,
            Provisioner::Recovering(recovery) => ProvisionAction::Recover(*recovery),
            Provisioner::Bound => ProvisionAction::Finish,
            Provisioner::Failed(error) => ProvisionAction::Abort(*error),
        }
    }

    /// Takes in the outcome of the pending action.
    pub fn on(self, event: ProvisionEvent) -> (next: Provisioner)
        ensures
            next == self.next(event),
    {
        match self {
            Provisioner::Bound | Provisioner::Failed(_) => self,
            Provisioner::Binding => match event {
                ProvisionEvent::BindSucceeded => Provisioner::Bound,
                ProvisionEvent::BindFailed(failure) => match recovery_for(failure) {
                    Some(recovery) => Provisioner::Recovering(recovery),
                    None => Provisioner::Failed(ProvisionError::Unrecoverable),
                },
                _ => Provisioner::Failed(ProvisionError::OutOfTurn),
            },
            Provisioner::Recovering(recovery) => match event {
                ProvisionEvent::RecoverySucceeded => Provisioner::Rebinding(recovery),
                ProvisionEvent::RecoveryFailed => Provisioner::Failed(
                    ProvisionError::RecoveryFailed(recovery),
                ),
                _ => Provisioner::Failed(ProvisionError::OutOfTurn),
            },
            Provisioner::Rebinding(recovery) => match event {
                ProvisionEvent::BindSucceeded => Provisioner::Bound,
                ProvisionEvent::BindFailed(_) => Provisioner::Failed(
                    ProvisionError::RetryFailed(recovery),
                ),
                _ => Provisioner::Failed(ProvisionError::OutOfTurn),
            },
        }
    }
}

/// How far provisioning has come: 0 before the first bind is answered, 3 once
/// it has ended.
pub open spec fn stage(state: Provisioner) -> nat {
    match state {
        Provisioner::Binding => 0,
        Provisioner::Recovering(_) => 1,
        Provisioner::Rebinding(_) => 2,
        Provisioner::Bound | Provisioner::Failed(_) => 3,
    }
}

/// One more event is one more step: the state after `events` and then `event`
/// is the successor of the state after `events`, and the binds it answered
/// are counted on top.
pub proof fn lemma_after_push(
    start: Provisioner,
    events: Seq<ProvisionEvent>,
    event: ProvisionEvent,
)
    ensures
        start.after(events.push(event)) == start.after(events).next(event),
        start.binds(events.push(event)) == start.binds(events) + (if start.after(
            events,
        ).action() is Bind && start.after(events).expects(event) {
            1nat
        } else {
            0nat
        }),
{
    assert(events.push(event).drop_last() =~= events);
}

/// Every event moves an unsettled provisioner at least one stage on, and a
/// settled one stays where it is.
pub proof fn lemma_next_advances(state: Provisioner, event: ProvisionEvent)
    ensures
        state.settled() ==> state.next(event) == state,
        !state.settled() ==> stage(state.next(event)) > stage(state),
{
}

/// Provisioning is bounded: whatever the driver reports, after three events
/// it has ended, with a listener or with an error.
pub proof fn provisioning_settles(events: Seq<ProvisionEvent>)
    ensures
        stage(Provisioner::Binding.after(events)) >= events.len() || Provisioner::Binding.after(
            events,
        ).settled(),
        events.len() >= 3 ==> Provisioner::Binding.after(events).settled(),
    decreases events.len(),
{
    if events.len() > 0 {
        provisioning_settles(events.drop_last());
        lemma_next_advances(Provisioner::Binding.after(events.drop_last()), events.last());
    }
}

/// At most two binds are ever answered: the first one, and one retry.
pub proof fn binds_are_bounded(events: Seq<ProvisionEvent>)
    ensures
        Provisioner::Binding.binds(events) <= 2,
        Provisioner::Binding.after(events) is Binding ==> Provisioner::Binding.binds(events) == 0,
        Provisioner::Binding.after(events) is Recovering ==> Provisioner::Binding.binds(events)
            == 1,
        Provisioner::Binding.after(events) is Rebinding ==> Provisioner::Binding.binds(events)
            == 1,
    decreases events.len(),
{
    if events.len() > 0 {
        binds_are_bounded(events.drop_last());
    }
}

/// The courses of events that end with a listener: the first bind succeeds,
/// or it fails for a cause that has a repair, the repair succeeds, and the
/// second bind succeeds.
pub open spec fn leads_to_listener(events: Seq<ProvisionEvent>) -> bool {
    ||| events.len() >= 1 && events[0] is BindSucceeded
    ||| {
        &&& events.len() >= 3
        &&& events[0] matches ProvisionEvent::BindFailed(failure)
        &&& recovery_of(failure) is Some
        &&& events[1] is RecoverySucceeded
        &&& events[2] is BindSucceeded
    }
}

/// Provisioning fails only where recovery is impossible: a listener is had on
/// exactly the courses of events of [`leads_to_listener`]. On every other
/// course provisioning has failed or is not over yet.
pub proof fn bound_exactly_when_recovered(events: Seq<ProvisionEvent>)
    ensures
        Provisioner::Binding.after(events) is Bound <==> leads_to_listener(events),
    decreases events.len(),
{
    let start = Provisioner::Binding;
    if events.len() > 0 {
        let front = events.drop_last();
        bound_exactly_when_recovered(front);
        provisioning_settles(front);
        if front.len() > 0 {
            let head = front.drop_last();
            provisioning_settles(head);
            if head.len() > 0 {
                provisioning_settles(head.drop_last());
            }
        }
    }
}

/// An endpoint whose path is occupied but has no live listener is rebound
/// after exactly one cleanup: the occupied path is answered by removing the
/// entry, the removal by a second bind, and that bind's success by the end of
/// provisioning. Two binds were made. Had the second bind failed, for
/// whatever cause, provisioning would have failed with it: there is no third.
pub proof fn stale_endpoint_rebinds_after_one_cleanup(second_failure: BindFailure)
    ensures
        ({
            let occupied = Provisioner::Binding.next(
                ProvisionEvent::BindFailed(BindFailure::AddrInUse),
            );
            let cleaned = occupied.next(ProvisionEvent::RecoverySucceeded);
            &&& Provisioner::Binding.action() == ProvisionAction::Bind
            &&& occupied.action() == ProvisionAction::Recover(Recovery::RemoveEndpoint)
            &&& cleaned.action() == ProvisionAction::Bind
            &&& cleaned.next(ProvisionEvent::BindSucceeded) == Provisioner::Bound
            &&& cleaned.next(ProvisionEvent::BindFailed(second_failure)) == Provisioner::Failed(
                ProvisionError::RetryFailed(Recovery::RemoveEndpoint),
            )
        }),
        ({
            let course = seq![
                ProvisionEvent::BindFailed(BindFailure::AddrInUse),
                ProvisionEvent::RecoverySucceeded,
                ProvisionEvent::BindSucceeded,
            ];
            &&& Provisioner::Binding.after(course) == Provisioner::Bound
            &&& Provisioner::Binding.binds(course) == 2
        }),
{
    lemma_recovered_course(BindFailure::AddrInUse);
}

/// An endpoint below a missing directory is bound after exactly one creation
/// of directories: the missing directory is answered by creating the whole
/// path above the endpoint, the creation by a second bind, and that bind's
/// success by the end of provisioning. Two binds were made. Had the second
/// bind failed, for whatever cause, provisioning would have failed with it.
pub proof fn missing_directory_binds_after_one_creation(second_failure: BindFailure)
    ensures
        ({
            let missing = Provisioner::Binding.next(
                ProvisionEvent::BindFailed(BindFailure::NotFound),
            );
            let created = missing.next(ProvisionEvent::RecoverySucceeded);
            &&& Provisioner::Binding.action() == ProvisionAction::Bind
            &&& missing.action() == ProvisionAction::Recover(Recovery::CreateDirectories)
            &&& created.action() == ProvisionAction::Bind
            &&& created.next(ProvisionEvent::BindSucceeded) == Provisioner::Bound
            &&& created.next(ProvisionEvent::BindFailed(second_failure)) == Provisioner::Failed(
                ProvisionError::RetryFailed(Recovery::CreateDirectories),
            )
        }),
        ({
            let course = seq![
                ProvisionEvent::BindFailed(BindFailure::NotFound),
                ProvisionEvent::RecoverySucceeded,
                ProvisionEvent::BindSucceeded,
            ];
            &&& Provisioner::Binding.after(course) == Provisioner::Bound
            &&& Provisioner::Binding.binds(course) == 2
        }),
{
    lemma_recovered_course(BindFailure::NotFound);
}

/// A first bind that fails for a cause with a repair, the repair's success
/// and the second bind's success end with a listener after two binds.
proof fn lemma_recovered_course(failure: BindFailure)
    requires
        recovery_of(failure) is Some,
    ensures
        ({
            let course = seq![
                ProvisionEvent::BindFailed(failure),
                ProvisionEvent::RecoverySucceeded,
                ProvisionEvent::BindSucceeded,
            ];
            &&& Provisioner::Binding.after(course) == Provisioner::Bound
            &&& Provisioner::Binding.binds(course) == 2
        }),
{
    let start = Provisioner::Binding;
    let none = Seq::<ProvisionEvent>::empty();
    let one = none.push(ProvisionEvent::BindFailed(failure));
    let two = one.push(ProvisionEvent::RecoverySucceeded);
    let course = two.push(ProvisionEvent::BindSucceeded);
    lemma_after_push(start, none, ProvisionEvent::BindFailed(failure));
    lemma_after_push(start, one, ProvisionEvent::RecoverySucceeded);
    lemma_after_push(start, two, ProvisionEvent::BindSucceeded);
    assert(course =~= seq![
        ProvisionEvent::BindFailed(failure),
        ProvisionEvent::RecoverySucceeded,
        ProvisionEvent::BindSucceeded,
    ]);
}

} // verus!
