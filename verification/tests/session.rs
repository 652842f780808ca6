use segmask::errors::CreateRunnerError;
use segmask::provider::BuildCapabilities;
use segmask::provider::ProviderKind;
use segmask::session::CreateStage;
use segmask::session::Session;
use segmask::session::create_error_for_stage;
use segmask::session::prepare_session;

fn cpu_caps() -> BuildCapabilities {
    BuildCapabilities { cuda: false, directml: false, coreml: false }
}

#[test]
fn missing_path_is_rejected_without_building_anything() {
    let r = prepare_session(None, false, -1, cpu_caps());
    assert!(matches!(r, Err(CreateRunnerError::PathMissingOrInvalid)));
}

#[test]
fn undecodable_path_is_rejected() {
    let bytes: Vec<u8> = vec![0x66, 0x6F, 0xFF, 0xFE];
    let r = prepare_session(Some(&bytes), false, -1, cpu_caps());
    assert!(matches!(r, Err(CreateRunnerError::PathMissingOrInvalid)));
}

#[test]
fn valid_path_builds_the_plan() {
    let bytes: Vec<u8> = b"missing.onnx".to_vec();
    let plan = prepare_session(Some(&bytes), false, -1, cpu_caps()).unwrap();
    assert_eq!(plan.path, "missing.onnx");
    assert_eq!(plan.use_gpu, false);
    assert_eq!(plan.device_id, None);
    assert_eq!(plan.providers.len(), 1);
    assert_eq!(plan.providers[0].kind, ProviderKind::Cpu);
}

#[test]
fn gpu_plan_carries_the_device_index() {
    let bytes: Vec<u8> = b"model.onnx".to_vec();
    let caps = BuildCapabilities { cuda: true, directml: false, coreml: false };
    let plan = prepare_session(Some(&bytes), true, 1, caps).unwrap();
    assert_eq!(plan.device_id, Some(1));
    assert_eq!(plan.providers.len(), 2);
    assert_eq!(plan.providers[0].kind, ProviderKind::Cuda);
    assert_eq!(plan.providers[0].device_id, Some(1));
    assert_eq!(plan.providers[1].kind, ProviderKind::Cpu);
}

#[test]
fn session_seals_the_plan() {
    let bytes: Vec<u8> = b"model.onnx".to_vec();
    let plan = prepare_session(Some(&bytes), false, -1, cpu_caps()).unwrap();
    let session = Session::from_plan(plan);
    assert_eq!(session.path, "model.onnx");
    assert_eq!(session.providers.len(), 1);
    assert_eq!(session.providers[0].kind, ProviderKind::Cpu);
}

#[test]
fn each_creation_stage_maps_to_its_own_code() {
    assert_eq!(create_error_for_stage(CreateStage::EngineInit), CreateRunnerError::UnknownError);
    assert_eq!(
        create_error_for_stage(CreateStage::ProviderRegistration),
        CreateRunnerError::ExecutionProviderRegistrationError
    );
    assert_eq!(create_error_for_stage(CreateStage::ModelLoad), CreateRunnerError::ModelLoadingError);
}
