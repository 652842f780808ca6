use segmask::logger::CallbackRegistry;
use segmask::logger::FfiSubscriber;
use segmask::logger::LogLevel;
use segmask::logger::init_status;

#[test]
fn every_event_is_enabled() {
    let subscriber = FfiSubscriber;
    assert!(subscriber.enabled());
}

#[test]
fn severity_codes_run_from_error_to_trace() {
    let subscriber = FfiSubscriber;
    assert_eq!(subscriber.level_code(LogLevel::Error), 1);
    assert_eq!(subscriber.level_code(LogLevel::Warn), 2);
    assert_eq!(subscriber.level_code(LogLevel::Info), 3);
    assert_eq!(subscriber.level_code(LogLevel::Debug), 4);
    assert_eq!(subscriber.level_code(LogLevel::Trace), 5);
}

#[test]
fn no_callback_means_diagnostics_are_dropped() {
    let registry = CallbackRegistry::new();
    assert!(!registry.delivers());
}

#[test]
fn the_last_registration_wins() {
    let mut registry = CallbackRegistry::new();
    registry.register(11);
    assert!(registry.delivers());
    assert_eq!(registry.callback, Some(11));
    registry.register(22);
    assert_eq!(registry.callback, Some(22));
}

#[test]
fn registration_status_is_zero_only_on_full_success() {
    assert_eq!(init_status(true, true), 0);
    assert_eq!(init_status(false, true), -1);
    assert_eq!(init_status(true, false), -1);
    assert_eq!(init_status(false, false), -1);
}
