//! Execution-session configuration and creation.
//!
//! A session owns a loaded model and an ordered provider preference list.
//! Creation has a fixed decision order: validate the model path, build the
//! provider plan, then let the tensor engine initialise itself, register the
//! providers, and load the model.  Each engine-side failure point maps to a
//! distinct error code; the decisions on this side are verified here, and the
//! engine work happens outside the library between `prepare_session` and
//! `Session::from_plan`.

use vstd::prelude::*;

use crate::errors::CreateRunnerError;
use crate::provider::BuildCapabilities;
use crate::provider::ProviderChoice;
use crate::provider::normalize_device_id;
use crate::provider::plan_providers;
use crate::provider::spec_provider_plan;

verus! {

/// The point at which the tensor engine reported failure while a session was
/// being created.
#[derive(Debug, Copy, Clone, PartialEq, Eq, Structural)]
pub enum CreateStage {
    /// The engine's session builder could not be initialised.
    EngineInit,
    /// The execution providers could not be registered.
    ProviderRegistration,
    /// The model file could not be parsed or loaded.
    ModelLoad,
}

/// The error code owed for a failure at a given creation stage.
pub open spec fn spec_create_error_for_stage(stage: CreateStage) -> CreateRunnerError {
    match stage {
        CreateStage::EngineInit => CreateRunnerError::UnknownError,
        CreateStage::ProviderRegistration => CreateRunnerError::ExecutionProviderRegistrationError,
        CreateStage::ModelLoad => CreateRunnerError::ModelLoadingError,
    }
}

/// Maps an engine-side creation failure to the error code that crosses the
/// boundary.  Every stage maps to a failure code, never to "no error".
pub fn create_error_for_stage(stage: CreateStage) -> (e: CreateRunnerError)
    ensures
        e == spec_create_error_for_stage(stage),
        e != CreateRunnerError::NoError,
        e != CreateRunnerError::PathMissingOrInvalid,
{
    match stage {
        CreateStage::EngineInit => CreateRunnerError::UnknownError,
        CreateStage::ProviderRegistration => CreateRunnerError::ExecutionProviderRegistrationError,
        CreateStage::ModelLoad => CreateRunnerError::ModelLoadingError,
    }
}

/// Relies on `String::from_utf8`: it returns the decoded string exactly when
/// the bytes are valid UTF-8, and rejects anything else.
#[verifier::external_body]
fn decode_utf8_bytes(bytes: &Vec<u8>) -> (r: Option<String>)
    ensures
        r is Some <==> vstd::utf8::valid_utf8(bytes@),
        r is Some ==> r->0@ == vstd::utf8::decode_utf8(bytes@),
{
    match String::from_utf8(bytes.clone()) {
        Ok(s) => Some(s),
        Err(_) => None,
    }
}

/// Everything the engine needs to build one session: the decoded model path
/// and the ordered provider preference list.
pub struct SessionPlan {
    pub path: String,
    pub use_gpu: bool,
    pub device_id: Option<i32>,
    pub caps: BuildCapabilities,
    pub providers: Vec<ProviderChoice>,
}

impl SessionPlan {
    /// The provider list is exactly the plan owed to this request.
    pub open spec fn wf(self) -> bool {
        self.providers@ == spec_provider_plan(self.use_gpu, self.device_id, self.caps)
    }
}

/// Validates the raw creation request and builds the session plan.
///
/// The model path arrives as the raw bytes of a foreign string, absent when
/// the foreign pointer was null.  An absent or undecodable path is rejected
/// with `PathMissingOrInvalid` and nothing else is built; a negative device
/// index means "default device".  On success the plan carries the decoded
/// path and the full provider preference list.
pub fn prepare_session(
    path: Option<&Vec<u8>>,
    use_gpu: bool,
    device_id: i32,
    caps: BuildCapabilities,
) -> (r: Result<SessionPlan, CreateRunnerError>)
    ensures
        r is Ok <==> (path is Some && vstd::utf8::valid_utf8(path->0@)),
        r is Err ==> r->Err_0 == CreateRunnerError::PathMissingOrInvalid,
        r is Ok ==> {
            &&& r->Ok_0.wf()
            &&& r->Ok_0.path@ == vstd::utf8::decode_utf8(path->0@)
            &&& r->Ok_0.use_gpu == use_gpu
            &&& r->Ok_0.device_id == (if device_id < 0 {
                Option::<i32>::None
            } else {
                Option::Some(device_id)
            })
            &&& r->Ok_0.caps == caps
        },
{
    let bytes = match path {
        Some(b) => b,
        None => {
            return Err(CreateRunnerError::PathMissingOrInvalid);
        },
    };
    let decoded = match decode_utf8_bytes(bytes) {
        Some(s) => s,
        None => {
            return Err(CreateRunnerError::PathMissingOrInvalid);
        },
    };
    let device = normalize_device_id(device_id);
    let providers = plan_providers(use_gpu, device, caps);
    Ok(SessionPlan { path: decoded, use_gpu, device_id: device, caps, providers })
}

/// A loaded, ready-to-run model bound to a chosen set of execution
/// providers.  The engine-side state lives outside the library; this value
/// records the configuration the session was built from.
pub struct Session {
    pub path: String,
    pub use_gpu: bool,
    pub device_id: Option<i32>,
    pub caps: BuildCapabilities,
    pub providers: Vec<ProviderChoice>,
}

impl Session {
    /// The provider list is exactly the plan owed to this configuration.
    pub open spec fn wf(self) -> bool {
        self.providers@ == spec_provider_plan(self.use_gpu, self.device_id, self.caps)
    }

    /// Seals a plan into a session once the engine has accepted it.
    pub fn from_plan(plan: SessionPlan) -> (s: Session)
        requires
            plan.wf(),
        ensures
            s.wf(),
            s.path == plan.path,
            s.use_gpu == plan.use_gpu,
            s.device_id == plan.device_id,
            s.caps == plan.caps,
            s.providers == plan.providers,
    {
        Session {
            path: plan.path,
            use_gpu: plan.use_gpu,
            device_id: plan.device_id,
            caps: plan.caps,
            providers: plan.providers,
        }
    }
}

} // verus!
