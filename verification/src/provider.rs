//! Execution-provider planning.
//!
//! A session is bound to an ordered preference list of execution providers,
//! built from the caller's GPU request, an optional accelerator index, and a
//! static capability table for the current build.  Backends that the build
//! does not carry are filtered out rather than failing the whole operation,
//! and the CPU provider always stands at the end of the list as the fallback.

use vstd::prelude::*;

verus! {

/// A hardware/software backend able to run the model graph.
#[derive(Debug, Copy, Clone, PartialEq, Eq, Structural)]
pub enum ProviderKind {
    Cuda,
    DirectMl,
    CoreMl,
    Cpu,
}

/// One entry of the ordered execution-provider preference list.
#[derive(Debug, Copy, Clone, PartialEq, Eq)]
pub struct ProviderChoice {
    pub kind: ProviderKind,
    /// Accelerator index handed to the backend; `None` selects the default
    /// device.
    pub device_id: Option<i32>,
}

/// Which optional accelerator backends the current build of the engine
/// carries.  The CPU provider is always available.
#[derive(Debug, Copy, Clone, PartialEq, Eq, Structural)]
pub struct BuildCapabilities {
    pub cuda: bool,
    pub directml: bool,
    pub coreml: bool,
}

/// The CPU provider with the default device: the universal fallback.
pub open spec fn cpu_choice() -> ProviderChoice {
    ProviderChoice { kind: ProviderKind::Cpu, device_id: None }
}

/// The ordered provider preference list for one session.
///
/// When the GPU is not requested the list is the CPU provider alone and the
/// device index is ignored.  When it is requested, the available accelerator
/// backends come first in a fixed order, each bound to the requested device
/// index where the backend takes one, and the CPU provider closes the list.
pub open spec fn spec_provider_plan(
    use_gpu: bool,
    device_id: Option<i32>,
    caps: BuildCapabilities,
) -> Seq<ProviderChoice> {
    if !use_gpu {
        seq![cpu_choice()]
    } else {
        (if caps.cuda {
            seq![ProviderChoice { kind: ProviderKind::Cuda, device_id }]
        } else {
            Seq::empty()
        }) + (if caps.directml {
            seq![ProviderChoice { kind: ProviderKind::DirectMl, device_id }]
        } else {
            Seq::empty()
        }) + (if caps.coreml {
            seq![ProviderChoice { kind: ProviderKind::CoreMl, device_id: None }]
        } else {
            Seq::empty()
        }) + seq![cpu_choice()]
    }
}

/// Normalises the raw foreign device index: a negative index means "default
/// device".
pub fn normalize_device_id(device_id: i32) -> (r: Option<i32>)
    ensures
        r == if device_id < 0 {
            Option::<i32>::None
        } else {
            Option::Some(device_id)
        },
{
    if device_id < 0 {
        None
    } else {
        Some(device_id)
    }
}

/// Builds the ordered provider preference list for one session.
pub fn plan_providers(use_gpu: bool, device_id: Option<i32>, caps: BuildCapabilities) -> (plan: Vec<
    ProviderChoice,
>)
    ensures
        plan@ == spec_provider_plan(use_gpu, device_id, caps),
{
    let mut plan: Vec<ProviderChoice> = Vec::new();
    if use_gpu {
        if caps.cuda {
            plan.push(ProviderChoice { kind: ProviderKind::Cuda, device_id });
        }
        if caps.directml {
            plan.push(ProviderChoice { kind: ProviderKind::DirectMl, device_id });
        }
        if caps.coreml {
            plan.push(ProviderChoice { kind: ProviderKind::CoreMl, device_id: None });
        }
    }
    plan.push(ProviderChoice { kind: ProviderKind::Cpu, device_id: None });
    proof {
        assert(plan@ =~= spec_provider_plan(use_gpu, device_id, caps));
    }
    plan
}

/// When the caller does not request the GPU, the preference list holds the
/// CPU provider alone, whatever the build's capabilities and whatever device
/// index was supplied: no GPU backend is ever handed to the engine, so a
/// session created this way cannot fail for a GPU-related reason.
pub proof fn lemma_no_gpu_when_unrequested(device_id: Option<i32>, caps: BuildCapabilities)
    ensures
        spec_provider_plan(false, device_id, caps) =~= seq![cpu_choice()],
        forall|i: int|
            0 <= i < spec_provider_plan(false, device_id, caps).len()
                ==> spec_provider_plan(false, device_id, caps)[i].kind == ProviderKind::Cpu,
{
}

/// The preference list is never empty and always ends with the CPU provider:
/// a session falls back to the CPU when the GPU was not requested or when no
/// requested accelerator backend is available in the build.
pub proof fn lemma_cpu_fallback_always_present(
    use_gpu: bool,
    device_id: Option<i32>,
    caps: BuildCapabilities,
)
    ensures
        spec_provider_plan(use_gpu, device_id, caps).len() > 0,
        spec_provider_plan(use_gpu, device_id, caps).last() == cpu_choice(),
{
}

} // verus!
