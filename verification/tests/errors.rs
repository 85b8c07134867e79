use blossom::error::{failure_kind, BootstrapError, BootstrapStep};
use blossom::window::{close_requested, KeyAction, WindowKey};

#[test]
fn missing_capability_is_environment_unsupported() {
    assert_eq!(
        failure_kind(BootstrapStep::CreateConnection, true),
        BootstrapError::EnvironmentUnsupported
    );
    assert_eq!(
        failure_kind(BootstrapStep::CreateLogicalDevice, true),
        BootstrapError::EnvironmentUnsupported
    );
}

#[test]
fn each_step_maps_to_its_error_kind() {
    assert_eq!(
        failure_kind(BootstrapStep::LoadEntry, false),
        BootstrapError::EnvironmentUnsupported
    );
    assert_eq!(
        failure_kind(BootstrapStep::CreateConnection, false),
        BootstrapError::DeviceCreationFailed
    );
    assert_eq!(
        failure_kind(BootstrapStep::CreateDiagnosticChannel, false),
        BootstrapError::DeviceCreationFailed
    );
    assert_eq!(
        failure_kind(BootstrapStep::BindSurface, false),
        BootstrapError::SurfaceBindingFailed
    );
    assert_eq!(
        failure_kind(BootstrapStep::EnumerateAccelerators, false),
        BootstrapError::NoAccelerator
    );
    assert_eq!(
        failure_kind(BootstrapStep::CreateLogicalDevice, false),
        BootstrapError::DeviceCreationFailed
    );
}

#[test]
fn every_error_kind_has_a_diagnostic() {
    assert_eq!(
        BootstrapError::EnvironmentUnsupported.describe(),
        "a required capability is absent on this host"
    );
    assert_eq!(BootstrapError::NoAccelerator.describe(), "no accelerator device was found");
    assert_eq!(
        BootstrapError::DeviceCreationFailed.describe(),
        "the API rejected connection or device creation"
    );
    assert_eq!(
        BootstrapError::SurfaceBindingFailed.describe(),
        "the window handle could not be bound to a surface"
    );
}

#[test]
fn escape_or_q_press_closes_the_window() {
    assert!(close_requested(WindowKey::Escape, KeyAction::Press));
    assert!(close_requested(WindowKey::Q, KeyAction::Press));
    assert!(!close_requested(WindowKey::Other, KeyAction::Press));
    assert!(!close_requested(WindowKey::Escape, KeyAction::Release));
    assert!(!close_requested(WindowKey::Q, KeyAction::Repeat));
}
