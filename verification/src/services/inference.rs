//! The request adapter for model inference.

use crate::error::{is_failure_of, replied, reply, HalError, Status};
use crate::hal::{
    ActionResponse, ForwardResponse, GetModelsInfoRequest, GetModelsInfoResponse, Inference,
    LoadModelsResponse, ModelMetadata, UploadModelResponse,
};
use crate::scalar::Single;
use vstd::prelude::*;

verus! {

/// A request to store a model.
#[derive(Debug)]
pub struct UploadModelRequest {
    pub model: Vec<u8>,
    pub metadata: Option<ModelMetadata>,
}

/// A request for one forward pass.
#[derive(Debug)]
pub struct ForwardRequest {
    pub model_uid: String,
    pub inputs: Vec<Single>,
}

/// Serves inference requests from one backend.
pub struct InferenceServiceImpl<I: Inference> {
    inference: I,
}

impl<I: Inference> InferenceServiceImpl<I> {
    /// An adapter in front of `inference`.
    pub fn new(inference: I) -> (s: Self)
        ensures
            s.backend() == inference,
    {
        InferenceServiceImpl { inference }
    }

    /// The backend behind this adapter.
    pub closed spec fn backend(&self) -> I {
        self.inference
    }

    /// Stores a model: the backend is asked once, with the model and the
    /// metadata of the request, and its answer is the answer of the request,
    /// a failure as its client-visible status.
    pub fn upload_model(&mut self, request: UploadModelRequest) -> (r: Result<
        UploadModelResponse,
        Status,
    >)
        ensures
            exists|outcome: Result<UploadModelResponse, HalError>|
                #[trigger] old(self).backend().uploads_model(
                    &final(self).backend(),
                    request.model,
                    request.metadata,
                    outcome,
                ) && replied("Failed to upload model"@, outcome, r),
            r is Err ==> is_failure_of(r->Err_0@, "Failed to upload model"@),
    {
        let outcome = self.inference.upload_model(request.model, request.metadata);
        let ghost asked = outcome;
        let r = reply("Failed to upload model", outcome);
        assert(old(self).backend().uploads_model(
            &self.backend(),
            request.model,
            request.metadata,
            asked,
        ));
        r
    }

    /// Loads the models with the given identifiers: the backend is asked
    /// once, with `uids` as given, and its answer is the answer of the
    /// request, a failure as its client-visible status.
    pub fn load_models(&mut self, uids: Vec<String>) -> (r: Result<LoadModelsResponse, Status>)
        ensures
            exists|outcome: Result<LoadModelsResponse, HalError>|
                #[trigger] old(self).backend().loads_models(&final(self).backend(), uids, outcome)
                    && replied("Failed to load models"@, outcome, r),
            r is Err ==> is_failure_of(r->Err_0@, "Failed to load models"@),
    {
        let outcome = self.inference.load_models(uids);
        let ghost asked = outcome;
        let r = reply("Failed to load models", outcome);
        assert(old(self).backend().loads_models(&self.backend(), uids, asked));
        r
    }

    /// Unloads the models with the given identifiers: the backend is asked
    /// once, with `uids` as given, and its answer is the answer of the
    /// request, a failure as its client-visible status.
    pub fn unload_models(&mut self, uids: Vec<String>) -> (r: Result<ActionResponse, Status>)
        ensures
            exists|outcome: Result<ActionResponse, HalError>|
                #[trigger] old(self).backend().unloads_models(
                    &final(self).backend(),
                    uids,
                    outcome,
                ) && replied("Failed to unload models"@, outcome, r),
            r is Err ==> is_failure_of(r->Err_0@, "Failed to unload models"@),
    {
        let outcome = self.inference.unload_models(uids);
        let ghost asked = outcome;
        let r = reply("Failed to unload models", outcome);
        assert(old(self).backend().unloads_models(&self.backend(), uids, asked));
        r
    }

    /// Reads what is known of the models asked about: the backend is asked
    /// once, with the request as given, and its answer is the answer of the
    /// request, a failure as its client-visible status.
    pub fn get_models_info(&mut self, request: GetModelsInfoRequest) -> (r: Result<
        GetModelsInfoResponse,
        Status,
    >)
        ensures
            exists|outcome: Result<GetModelsInfoResponse, HalError>|
                #[trigger] old(self).backend().gets_models_info(
                    &final(self).backend(),
                    request,
                    outcome,
                ) && replied("Failed to get models info"@, outcome, r),
            r is Err ==> is_failure_of(r->Err_0@, "Failed to get models info"@),
    {
        let outcome = self.inference.get_models_info(request);
        let ghost asked = outcome;
        let r = reply("Failed to get models info", outcome);
        assert(old(self).backend().gets_models_info(&self.backend(), request, asked));
        r
    }

    /// Runs one forward pass of a loaded model: the backend is asked once,
    /// with the model and the inputs of the request, and its answer is the
    /// answer of the request, a failure as its client-visible status.
    pub fn forward(&mut self, request: ForwardRequest) -> (r: Result<ForwardResponse, Status>)
        ensures
            exists|outcome: Result<ForwardResponse, HalError>|
                #[trigger] old(self).backend().forwards(
                    &final(self).backend(),
                    request.model_uid,
                    request.inputs,
                    outcome,
                ) && replied("Failed to run inference"@, outcome, r),
            r is Err ==> is_failure_of(r->Err_0@, "Failed to run inference"@),
    {
        let outcome = self.inference.forward(request.model_uid, request.inputs);
        let ghost asked = outcome;
        let r = reply("Failed to run inference", outcome);
        assert(old(self).backend().forwards(
            &self.backend(),
            request.model_uid,
            request.inputs,
            asked,
        ));
        r
    }
}

} // verus!
