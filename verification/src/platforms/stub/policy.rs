//! Policy control without a policy behind it.

use crate::error::{Error, ErrorCode, ErrorView, HalError};
use crate::hal::{
    parameters_view, text_view, GetStateResponse, Policy, PolicyParameter, PolicyParameterView,
    PolicyResponseView, StartPolicyResponse, StopPolicyResponse,
};
use crate::ids::fresh_uuid;
use crate::scalar::Single;
use vstd::prelude::*;
use vstd::string::*;

verus! {

/// The model of a [`StubPolicy`].
pub struct StubPolicyView {
    /// The identifier of the running policy, if one runs.
    pub running: Option<Seq<char>>,
    /// The parameters the running policy was started with.
    pub state: Seq<(Seq<char>, PolicyParameterView)>,
}

/// A policy runner that only remembers what it was asked to run.
pub struct StubPolicy {
    policy_uuid: Option<String>,
    state: Vec<(String, PolicyParameter)>,
}

impl View for StubPolicy {
    type V = StubPolicyView;

    closed spec fn view(&self) -> StubPolicyView {
        StubPolicyView { running: text_view(self.policy_uuid), state: parameters_view(self.state@) }
    }
}

/// The answer to a start request while a policy runs.
pub open spec fn already_running() -> PolicyResponseView {
    PolicyResponseView {
        policy_uuid: None,
        error: Some(
            ErrorView { code: ErrorCode::InvalidArgument, message: "Policy is already running"@ },
        ),
    }
}

/// The answer to a stop request while no policy runs.
pub open spec fn not_running() -> PolicyResponseView {
    PolicyResponseView {
        policy_uuid: None,
        error: Some(
            ErrorView { code: ErrorCode::InvalidArgument, message: "Policy is not running"@ },
        ),
    }
}

/// The parameters recorded at a start, in the order in which they are set.
pub open spec fn started_state(
    action: Seq<char>,
    action_scale: Single,
    episode_length: i32,
    dry_run: bool,
) -> Seq<(Seq<char>, PolicyParameterView)> {
    seq![
        ("action"@, PolicyParameterView::Text(action)),
        ("action_scale"@, PolicyParameterView::Scale(action_scale)),
        ("episode_length"@, PolicyParameterView::Count(episode_length)),
        ("dry_run"@, PolicyParameterView::Flag(dry_run)),
    ]
}

impl StubPolicy {
    /// A policy runner with nothing running and no parameters.
    pub fn new() -> (p: StubPolicy)
        ensures
            p@ == (StubPolicyView { running: None, state: Seq::empty() }),
    {
        let p = StubPolicy { policy_uuid: None, state: Vec::new() };
        assert(parameters_view(p.state@) =~= Seq::empty());
        p
    }

    /// Starts a policy under the identifier `new_uuid` and records its
    /// parameters, unless one runs already.
    pub fn start_with(
        &mut self,
        new_uuid: String,
        action: String,
        action_scale: Single,
        episode_length: i32,
        dry_run: bool,
    ) -> (r: StartPolicyResponse)
        ensures
            old(self)@.running is Some ==> r@ == already_running() && final(self)@ == old(self)@,
            old(self)@.running is None ==> r@ == (PolicyResponseView {
                policy_uuid: Some(new_uuid@),
                error: None,
            }) && final(self)@ == (StubPolicyView {
                running: Some(new_uuid@),
                state: started_state(action@, action_scale, episode_length, dry_run),
            }),
    {
        if self.policy_uuid.is_some() {
            return StartPolicyResponse {
                policy_uuid: None,
                error: Some(
                    Error {
                        code: ErrorCode::InvalidArgument,
                        message: String::from_str("Policy is already running"),
                    },
                ),
            };
        }
        self.policy_uuid = Some(new_uuid.clone());
        let mut state: Vec<(String, PolicyParameter)> = Vec::new();
        state.push((String::from_str("action"), PolicyParameter::Text(action)));
        state.push((String::from_str("action_scale"), PolicyParameter::Scale(action_scale)));
        state.push((String::from_str("episode_length"), PolicyParameter::Count(episode_length)));
        state.push((String::from_str("dry_run"), PolicyParameter::Flag(dry_run)));
        self.state = state;
        assert(parameters_view(self.state@) =~= started_state(
            action@,
            action_scale,
            episode_length,
            dry_run,
        ));
        StartPolicyResponse { policy_uuid: Some(new_uuid), error: None }
    }

    /// Stops the running policy, names it and forgets its parameters; or
    /// reports that none runs.
    pub fn stop(&mut self) -> (r: StopPolicyResponse)
        ensures
            old(self)@.running is None ==> r@ == not_running() && final(self)@ == old(self)@,
            old(self)@.running is Some ==> r@ == (PolicyResponseView {
                policy_uuid: old(self)@.running,
                error: None,
            }) && final(self)@ == (StubPolicyView { running: None, state: Seq::empty() }),
    {
        if self.policy_uuid.is_none() {
            return StopPolicyResponse {
                policy_uuid: None,
                error: Some(
                    Error {
                        code: ErrorCode::InvalidArgument,
                        message: String::from_str("Policy is not running"),
                    },
                ),
            };
        }
        let mut running: Option<String> = None;
        core::mem::swap(&mut running, &mut self.policy_uuid);
        self.state = Vec::new();
        assert(parameters_view(self.state@) =~= Seq::empty());
        StopPolicyResponse { policy_uuid: running, error: None }
    }

    /// The parameters of the running policy.
    pub fn state(&self) -> (r: GetStateResponse)
        ensures
            parameters_view(r.state@) == self@.state,
            r.error is None,
    {
        let mut state: Vec<(String, PolicyParameter)> = Vec::new();
        let mut i: usize = 0;
        while i < self.state.len()
            invariant
                i <= self.state@.len(),
                state@.len() == i,
                parameters_view(state@) == parameters_view(self.state@).subrange(0, i as int),
            decreases self.state@.len() - i,
        {
            let entry = &self.state[i];
            let ghost before = state@;
            state.push((entry.0.clone(), entry.1.clone()));
            i = i + 1;
            assert forall|k: int| 0 <= k < i implies parameters_view(state@)[k]
                == parameters_view(self.state@)[k] by {
                if k < i - 1 {
                    assert(state@[k] == before[k]);
                    assert(parameters_view(before)[k] == parameters_view(self.state@).subrange(
                        0,
                        i - 1,
                    )[k]);
                }
            }
            assert(parameters_view(state@) =~= parameters_view(self.state@).subrange(
                0,
                i as int,
            ));
        }
        assert(parameters_view(self.state@).subrange(0, i as int) =~= parameters_view(
            self.state@,
        ));
        GetStateResponse { state, error: None }
    }
}

impl Policy for StubPolicy {
    /// A start request always ends well: it is refused while a policy
    /// runs, and otherwise starts one under the identifier it answers with
    /// and records the parameters.
    open spec fn starts_policy(
        &self,
        after: &Self,
        action: String,
        action_scale: Single,
        episode_length: i32,
        dry_run: bool,
        outcome: Result<StartPolicyResponse, HalError>,
    ) -> bool {
        &&& outcome is Ok
        &&& self@.running is Some ==> outcome->Ok_0@ == already_running() && after@ == self@
        &&& self@.running is None ==> outcome->Ok_0@.error is None && outcome->Ok_0@.policy_uuid
            is Some && after@ == (StubPolicyView {
            running: outcome->Ok_0@.policy_uuid,
            state: started_state(action@, action_scale, episode_length, dry_run),
        })
    }

    /// A stop request always ends well: it names the policy that ran and
    /// forgets its parameters, or reports that none ran.
    open spec fn stops_policy(
        &self,
        after: &Self,
        outcome: Result<StopPolicyResponse, HalError>,
    ) -> bool {
        &&& outcome is Ok
        &&& self@.running is None ==> outcome->Ok_0@ == not_running() && after@ == self@
        &&& self@.running is Some ==> outcome->Ok_0@ == (PolicyResponseView {
            policy_uuid: self@.running,
            error: None,
        }) && after@ == (StubPolicyView { running: None, state: Seq::empty() })
    }

    /// A read of the parameters always ends well, gives the parameters as
    /// they were recorded, and changes nothing.
    open spec fn gets_state(
        &self,
        after: &Self,
        outcome: Result<GetStateResponse, HalError>,
    ) -> bool {
        &&& outcome is Ok
        &&& parameters_view(outcome->Ok_0.state@) == self@.state
        &&& outcome->Ok_0.error is None
        &&& after@ == self@
    }

    /// Starts a policy under a fresh identifier, unless one runs already.
    fn start_policy(
        &mut self,
        action: String,
        action_scale: Single,
        episode_length: i32,
        dry_run: bool,
    ) -> (r: Result<StartPolicyResponse, HalError>)
        ensures
            r is Ok,
            old(self)@.running is Some ==> r->Ok_0@ == already_running() && final(self)@ == old(
                self,
            )@,
            old(self)@.running is None ==> r->Ok_0@.error is None && r->Ok_0@.policy_uuid
                is Some && final(self)@ == (StubPolicyView {
                running: r->Ok_0@.policy_uuid,
                state: started_state(action@, action_scale, episode_length, dry_run),
            }),
    {
        Ok(self.start_with(fresh_uuid(), action, action_scale, episode_length, dry_run))
    }

    /// Stops the running policy, or reports that none runs.
    fn stop_policy(&mut self) -> (r: Result<StopPolicyResponse, HalError>)
        ensures
            r is Ok,
            old(self)@.running is None ==> r->Ok_0@ == not_running() && final(self)@ == old(self)@,
            old(self)@.running is Some ==> r->Ok_0@ == (PolicyResponseView {
                policy_uuid: old(self)@.running,
                error: None,
            }) && final(self)@ == (StubPolicyView { running: None, state: Seq::empty() }),
    {
        Ok(self.stop())
    }

    /// The parameters of the running policy.
    fn get_state(&mut self) -> (r: Result<GetStateResponse, HalError>)
        ensures
            r is Ok,
            parameters_view(r->Ok_0.state@) == old(self)@.state,
            r->Ok_0.error is None,
            final(self)@ == old(self)@,
    {
        Ok(self.state())
    }
}

} // verus!
