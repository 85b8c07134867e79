//! The bootstrap failure taxonomy and the fail-fast propagation policy.
//!
//! Every bootstrap step either completes or fails the whole bootstrap; there
//! is no retry and no degraded fallback. A failure is reported as a
//! [`BootstrapError`] so that a caller can observe it without the process
//! aborting inside this crate.

use vstd::prelude::*;

verus! {

/// The kinds of fatal bootstrap failure.
#[derive(Clone, Copy, Debug, PartialEq, Eq, Structural)]
pub enum BootstrapError {
    /// A required capability (extension or layer) is absent on the host.
    EnvironmentUnsupported,
    /// Accelerator enumeration returned an empty set.
    NoAccelerator,
    /// The API rejected connection or logical-device creation.
    DeviceCreationFailed,
    /// The native window handle could not be bound to a presentation surface.
    SurfaceBindingFailed,
}

/// The sequential steps of the one-time bootstrap, in the order they run.
#[derive(Clone, Copy, Debug, PartialEq, Eq, Structural)]
pub enum BootstrapStep {
    LoadEntry,
    CreateConnection,
    CreateDiagnosticChannel,
    BindSurface,
    EnumerateAccelerators,
    CreateLogicalDevice,
}

/// The error kind that a failure of `step` is reported as, where
/// `capability_missing` says that the underlying API refused a requested
/// extension or layer name (rather than failing for another reason).
pub open spec fn spec_failure_kind(step: BootstrapStep, capability_missing: bool) -> BootstrapError {
    if capability_missing {
        BootstrapError::EnvironmentUnsupported
    } else {
        match step {
            BootstrapStep::LoadEntry => BootstrapError::EnvironmentUnsupported,
            BootstrapStep::CreateConnection => BootstrapError::DeviceCreationFailed,
            BootstrapStep::CreateDiagnosticChannel => BootstrapError::DeviceCreationFailed,
            BootstrapStep::BindSurface => BootstrapError::SurfaceBindingFailed,
            BootstrapStep::EnumerateAccelerators => BootstrapError::NoAccelerator,
            BootstrapStep::CreateLogicalDevice => BootstrapError::DeviceCreationFailed,
        }
    }
}

/// Maps a failed step to the error kind it is reported as.
pub fn failure_kind(step: BootstrapStep, capability_missing: bool) -> (e: BootstrapError)
    ensures
        e == spec_failure_kind(step, capability_missing),
{
    if capability_missing {
        BootstrapError::EnvironmentUnsupported
    } else {
        match step {
            BootstrapStep::LoadEntry => BootstrapError::EnvironmentUnsupported,
            BootstrapStep::CreateConnection => BootstrapError::DeviceCreationFailed,
            BootstrapStep::CreateDiagnosticChannel => BootstrapError::DeviceCreationFailed,
            BootstrapStep::BindSurface => BootstrapError::SurfaceBindingFailed,
            BootstrapStep::EnumerateAccelerators => BootstrapError::NoAccelerator,
            BootstrapStep::CreateLogicalDevice => BootstrapError::DeviceCreationFailed,
        }
    }
}

/// The diagnostic text for an error kind.
pub open spec fn spec_error_message(e: BootstrapError) -> Seq<char> {
    match e {
        BootstrapError::EnvironmentUnsupported => "a required capability is absent on this host"@,
        BootstrapError::NoAccelerator => "no accelerator device was found"@,
        BootstrapError::DeviceCreationFailed => "the API rejected connection or device creation"@,
        BootstrapError::SurfaceBindingFailed => "the window handle could not be bound to a surface"@,
    }
}

impl BootstrapError {
    /// A clear diagnostic naming what failed, for the terminating report.
    pub fn describe(&self) -> (r: &'static str)
        ensures
            r@ == spec_error_message(*self),
    {
        match *self {
            BootstrapError::EnvironmentUnsupported => "a required capability is absent on this host",
            BootstrapError::NoAccelerator => "no accelerator device was found",
            BootstrapError::DeviceCreationFailed => "the API rejected connection or device creation",
            BootstrapError::SurfaceBindingFailed => "the window handle could not be bound to a surface",
        }
    }
}

} // verus!
