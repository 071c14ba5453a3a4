//! The platform dispatcher: the identity of a deployment target, its
//! lifecycle, and the set of services it backs.

use crate::error::{ErrorCode, ErrorView, HalError};
use crate::services::operations::{LedgerView, OperationsServiceImpl};
use vstd::prelude::*;
use vstd::string::*;

verus! {

/// A capability that a platform may back with a service.
#[derive(Clone, Copy, Debug, PartialEq, Eq, Structural)]
pub enum ServiceEnum {
    Actuator,
    Imu,
    ProcessManager,
    Inference,
    LEDMatrix,
    Sound,
    Speech,
    Policy,
}

/// Where a platform stands between construction and shutdown.
#[derive(Clone, Copy, Debug, PartialEq, Eq, Structural)]
pub enum Lifecycle {
    /// Constructed; nothing has been set up.
    Created,
    /// Initialized; services may be created.
    Initialized,
    /// The service set has been handed out.
    Serving,
    /// All resources are released.
    ShutDown,
}

/// A deployment target.
///
/// `initialize` is called once before `create_services`; `shutdown` may be
/// called at any time, also after a failed `initialize`.
pub trait Platform {
    /// Where the platform stands in its lifecycle.
    spec fn lifecycle(&self) -> Lifecycle;

    /// The name and the serial under which the robot is known. Neither
    /// changes over the lifecycle.
    spec fn identity(&self) -> (Seq<char>, Seq<char>);

    /// The stable name of the platform.
    fn name(&self) -> (n: &'static str)
        ensures
            n@ == self.identity().0,
    ;

    /// The serial of this robot.
    fn serial(&self) -> (s: String)
        ensures
            s@ == self.identity().1,
    ;

    /// Whether setting the platform up may take it from this state to
    /// `after` and the ledger from `ledger` to `ledger_after`, and end in
    /// `outcome`.
    open spec fn initializes(
        &self,
        after: &Self,
        ledger: LedgerView,
        ledger_after: LedgerView,
        outcome: Result<(), HalError>,
    ) -> bool {
        true
    }

    /// Sets the platform up. On failure the platform stays as constructed.
    fn initialize(&mut self, operations: &mut OperationsServiceImpl) -> (r: Result<(), HalError>)
        requires
            old(self).lifecycle() == Lifecycle::Created,
        ensures
            r is Ok ==> final(self).lifecycle() == Lifecycle::Initialized,
            r is Err ==> final(self).lifecycle() == Lifecycle::Created,
            final(self).identity() == old(self).identity(),
            old(self).initializes(&*final(self), old(operations)@, final(operations)@, r),
    ;

    /// Whether asking for the service set may take the platform from this
    /// state to `after` and the ledger from `ledger` to `ledger_after`, and
    /// end in `outcome`.
    open spec fn creates_services(
        &self,
        after: &Self,
        ledger: LedgerView,
        ledger_after: LedgerView,
        outcome: Result<Vec<ServiceEnum>, HalError>,
    ) -> bool {
        true
    }

    /// Creates every service the platform backs, or none: where any backend
    /// cannot be had the call fails and the platform stays initialized
    /// without serving.
    fn create_services(&mut self, operations: &mut OperationsServiceImpl) -> (r: Result<
        Vec<ServiceEnum>,
        HalError,
    >)
        requires
            old(self).lifecycle() == Lifecycle::Initialized,
        ensures
            r is Ok ==> final(self).lifecycle() == Lifecycle::Serving,
            r is Err ==> final(self).lifecycle() == Lifecycle::Initialized,
            final(self).identity() == old(self).identity(),
            old(self).creates_services(&*final(self), old(operations)@, final(operations)@, r),
    ;

    /// Whether releasing the resources may take the platform from this
    /// state to `after` and end in `outcome`.
    open spec fn shuts_down(&self, after: &Self, outcome: Result<(), HalError>) -> bool {
        true
    }

    /// Releases all resources.
    fn shutdown(&mut self) -> (r: Result<(), HalError>)
        ensures
            final(self).lifecycle() == Lifecycle::ShutDown,
            final(self).identity() == old(self).identity(),
            old(self).shuts_down(&*final(self), r),
    ;
}

/// The model of a [`BackendOutcome`].
pub struct BackendOutcomeView {
    pub kind: ServiceEnum,
    pub context: Seq<char>,
    pub outcome: Result<(), Seq<char>>,
}

/// How the construction of one backend ended.
#[derive(Debug)]
pub struct BackendOutcome {
    /// The capability the backend serves.
    pub kind: ServiceEnum,
    /// What was being attempted, for the failure message.
    pub context: String,
    /// Success, or the reason of the failure.
    pub outcome: Result<(), String>,
}

impl View for BackendOutcome {
    type V = BackendOutcomeView;

    open spec fn view(&self) -> BackendOutcomeView {
        BackendOutcomeView {
            kind: self.kind,
            context: self.context@,
            outcome: match self.outcome {
                Ok(_) => Ok(()),
                Err(why) => Err(why@),
            },
        }
    }
}

/// The models of a run of construction outcomes.
pub open spec fn outcome_views(outcomes: Seq<BackendOutcome>) -> Seq<BackendOutcomeView> {
    outcomes.map_values(|o: BackendOutcome| o@)
}

/// The position of the first failed construction, if any failed.
pub open spec fn first_failure(outcomes: Seq<BackendOutcomeView>) -> Option<int>
    decreases outcomes.len(),
{
    if outcomes.len() == 0 {
        None
    } else if outcomes[0].outcome is Err {
        Some(0)
    } else {
        match first_failure(outcomes.drop_first()) {
            Some(i) => Some(i + 1),
            None => None,
        }
    }
}

/// The failure reported for a backend that could not be constructed: a
/// hardware failure whose detail is the context, a colon, a space, and the
/// reason.
pub open spec fn construction_failure(o: BackendOutcomeView) -> ErrorView
    recommends
        o.outcome is Err,
{
    ErrorView {
        code: ErrorCode::HardwareFailure,
        message: o.context + ": "@ + o.outcome->Err_0,
    }
}

/// The capabilities of a run of constructions, in order.
pub open spec fn kinds_of(outcomes: Seq<BackendOutcomeView>) -> Seq<ServiceEnum> {
    outcomes.map_values(|o: BackendOutcomeView| o.kind)
}

/// The first failure of a run lies inside it, is a failure, and has only
/// successes before it; where there is none, every construction succeeded.
pub proof fn lemma_first_failure(outcomes: Seq<BackendOutcomeView>)
    ensures
        match first_failure(outcomes) {
            Some(i) => 0 <= i < outcomes.len() && outcomes[i].outcome is Err && forall|k: int|
                0 <= k < i ==> (#[trigger] outcomes[k]).outcome is Ok,
            None => forall|k: int|
                0 <= k < outcomes.len() ==> (#[trigger] outcomes[k]).outcome is Ok,
        },
    decreases outcomes.len(),
{
    if outcomes.len() > 0 && outcomes[0].outcome is Ok {
        let rest = outcomes.drop_first();
        lemma_first_failure(rest);
        match first_failure(rest) {
            Some(i) => {
                assert(rest[i] == outcomes[i + 1]);
                assert forall|k: int| 0 <= k < i + 1 implies (#[trigger] outcomes[k]).outcome
                    is Ok by {
                    if k > 0 {
                        assert(rest[k - 1] == outcomes[k]);
                    }
                }
            },
            None => {
                assert forall|k: int| 0 <= k < outcomes.len() implies (
                #[trigger] outcomes[k]).outcome is Ok by {
                    if k > 0 {
                        assert(rest[k - 1] == outcomes[k]);
                    }
                }
            },
        }
    }
}

/// Assembles the service set from the constructions of its backends, all
/// or nothing: the first failure fails the whole set.
pub fn assemble(outcomes: &Vec<BackendOutcome>) -> (r: Result<Vec<ServiceEnum>, HalError>)
    ensures
        match first_failure(outcome_views(outcomes@)) {
            Some(i) => r is Err && r->Err_0@ == construction_failure(outcome_views(outcomes@)[i]),
            None => r is Ok && r->Ok_0@ == kinds_of(outcome_views(outcomes@)),
        },
{
    let ghost views = outcome_views(outcomes@);
    proof {
        lemma_first_failure(views);
    }
    let mut kinds: Vec<ServiceEnum> = Vec::new();
    let mut i: usize = 0;
    while i < outcomes.len()
        invariant
            i <= outcomes@.len(),
            views == outcome_views(outcomes@),
            kinds@ == kinds_of(views).subrange(0, i as int),
            forall|k: int| 0 <= k < i ==> (#[trigger] views[k]).outcome is Ok,
        decreases outcomes@.len() - i,
    {
        let o = &outcomes[i];
        assert(views[i as int] == o@);
        match &o.outcome {
            Err(why) => {
                let mut message = o.context.clone();
                message.append(": ");
                message.append(why.as_str());
                assert(first_failure(views) == Some(i as int)) by {
                    lemma_first_failure(views);
                    if first_failure(views) is Some {
                        let j = first_failure(views)->0;
                        if j < i {
                            assert(views[j].outcome is Ok);
                        }
                        if j > i {
                            assert(views[i as int].outcome is Ok);
                        }
                    } else {
                        assert(views[i as int].outcome is Ok);
                    }
                }
                return Err(HalError::new(ErrorCode::HardwareFailure, message));
            },
            Ok(_) => {
                kinds.push(o.kind);
            },
        }
        i = i + 1;
        assert(kinds@ =~= kinds_of(views).subrange(0, i as int));
    }
    assert(first_failure(views) is None) by {
        lemma_first_failure(views);
        if first_failure(views) is Some {
            assert(views[first_failure(views)->0].outcome is Ok);
        }
    }
    assert(kinds_of(views).subrange(0, i as int) =~= kinds_of(views));
    Ok(kinds)
}

} // verus!
