//! The request adapter for policy control.

use crate::error::{is_failure_of, replied, reply, HalError, Status};
use crate::hal::{GetStateResponse, Policy, StartPolicyResponse, StopPolicyResponse};
use crate::scalar::Single;
use vstd::prelude::*;

verus! {

/// A request to start a policy.
#[derive(Debug)]
pub struct StartPolicyRequest {
    pub action: String,
    pub action_scale: Single,
    pub episode_length: i32,
    pub dry_run: bool,
}

/// Serves policy requests from one backend.
pub struct PolicyServiceImpl<P: Policy> {
    policy: P,
}

impl<P: Policy> PolicyServiceImpl<P> {
    /// An adapter in front of `policy`.
    pub fn new(policy: P) -> (s: Self)
        ensures
            s.backend() == policy,
    {
        PolicyServiceImpl { policy }
    }

    /// The backend behind this adapter.
    pub closed spec fn backend(&self) -> P {
        self.policy
    }

    /// Starts a policy: the backend is asked once, with the parameters of
    /// the request, and its answer is the answer of the request, a failure
    /// as its client-visible status.
    pub fn start_policy(&mut self, request: StartPolicyRequest) -> (r: Result<
        StartPolicyResponse,
        Status,
    >)
        ensures
            exists|outcome: Result<StartPolicyResponse, HalError>|
                #[trigger] old(self).backend().starts_policy(
                    &final(self).backend(),
                    request.action,
                    request.action_scale,
                    request.episode_length,
                    request.dry_run,
                    outcome,
                ) && replied("Failed to start policy"@, outcome, r),
            r is Err ==> is_failure_of(r->Err_0@, "Failed to start policy"@),
    {
        let outcome = self.policy.start_policy(
            request.action,
            request.action_scale,
            request.episode_length,
            request.dry_run,
        );
        let ghost asked = outcome;
        let r = reply("Failed to start policy", outcome);
        assert(old(self).backend().starts_policy(
            &self.backend(),
            request.action,
            request.action_scale,
            request.episode_length,
            request.dry_run,
            asked,
        ));
        r
    }

    /// Stops the running policy: the backend is asked once, and its answer
    /// is the answer of the request, a failure as its client-visible status.
    pub fn stop_policy(&mut self) -> (r: Result<StopPolicyResponse, Status>)
        ensures
            exists|outcome: Result<StopPolicyResponse, HalError>|
                #[trigger] old(self).backend().stops_policy(&final(self).backend(), outcome)
                    && replied("Failed to stop policy"@, outcome, r),
            r is Err ==> is_failure_of(r->Err_0@, "Failed to stop policy"@),
    {
        let outcome = self.policy.stop_policy();
        let ghost asked = outcome;
        let r = reply("Failed to stop policy", outcome);
        assert(old(self).backend().stops_policy(&self.backend(), asked));
        r
    }

    /// Reads the parameters of the running policy: the backend is asked
    /// once, and its answer is the answer of the request, a failure as its
    /// client-visible status.
    pub fn get_state(&mut self) -> (r: Result<GetStateResponse, Status>)
        ensures
            exists|outcome: Result<GetStateResponse, HalError>|
                #[trigger] old(self).backend().gets_state(&final(self).backend(), outcome)
                    && replied("Failed to get policy state"@, outcome, r),
            r is Err ==> is_failure_of(r->Err_0@, "Failed to get policy state"@),
    {
        let outcome = self.policy.get_state();
        let ghost asked = outcome;
        let r = reply("Failed to get policy state", outcome);
        assert(old(self).backend().gets_state(&self.backend(), asked));
        r
    }
}

} // verus!
