//! The bootstrap Context: the long-lived aggregate of the one-time
//! device-context bootstrap.
//!
//! The Context owns the entry table, the connection, the optional
//! diagnostic channel and the presentation surface. Handles are opaque to
//! the logic, so each is carried as an identifier assigned by the outer
//! layer that made the API call; what the logic reads of them is their
//! identity, their presence, and the order they must be released in.
//! Invariant: the diagnostic-channel handle is present if and only if
//! validation was enabled at creation.

use crate::accel::AcceleratorInfo;
use crate::caps::{
    negotiate, spec_device_extensions, spec_instance_extensions, spec_validation_layers,
};
use crate::device::{device_request, DeviceRequest};
use crate::diag::{diagnostic_config_for, spec_default_filter, DiagnosticConfig};
use crate::error::BootstrapError;
use crate::select::{is_first_max, select_accelerator, spec_heap0_sizes};
use crate::version::{make_api_version, packed_version};
use vstd::prelude::*;

verus! {

/// The application and engine metadata the connection is created with.
pub struct AppMetadata {
    pub application_name: String,
    pub application_version: u32,
    pub engine_name: String,
    pub engine_version: u32,
    pub api_version: u32,
}

/// The fixed metadata of this backend: application and engine 1.0.0,
/// targeting API version 1.3.0.
pub fn app_metadata() -> (r: AppMetadata)
    ensures
        r.application_name@ == "Blossom"@,
        r.engine_name@ == "Blossom"@,
        r.application_version == packed_version(0, 1, 0, 0),
        r.engine_version == packed_version(0, 1, 0, 0),
        r.api_version == packed_version(0, 1, 3, 0),
{
    AppMetadata {
        application_name: "Blossom".to_string(),
        application_version: make_api_version(0, 1, 0, 0),
        engine_name: "Blossom".to_string(),
        engine_version: make_api_version(0, 1, 0, 0),
        api_version: make_api_version(0, 1, 3, 0),
    }
}

/// Everything the outer layer needs to create the connection: metadata,
/// the negotiated connection-level names, and the diagnostic-channel
/// filter when validation is enabled.
pub struct InstanceRequest {
    pub metadata: AppMetadata,
    pub extensions: Vec<String>,
    pub layers: Vec<String>,
    pub diagnostics: Option<DiagnosticConfig>,
}

/// Builds the connection request from the window-required extensions and
/// the validation flag.
pub fn instance_request(window_extensions: Vec<String>, validation_enabled: bool) -> (r:
    InstanceRequest)
    ensures
        r.metadata.application_name@ == "Blossom"@,
        r.metadata.engine_name@ == "Blossom"@,
        r.metadata.application_version == packed_version(0, 1, 0, 0),
        r.metadata.engine_version == packed_version(0, 1, 0, 0),
        r.metadata.api_version == packed_version(0, 1, 3, 0),
        r.extensions.deep_view() == spec_instance_extensions(
            window_extensions.deep_view(),
            validation_enabled,
        ),
        r.layers.deep_view() == spec_validation_layers(validation_enabled),
        r.diagnostics is Some <==> validation_enabled,
        validation_enabled ==> r.diagnostics == Some(spec_default_filter()),
{
    let metadata = app_metadata();
    let lists = negotiate(window_extensions, validation_enabled);
    let diagnostics = diagnostic_config_for(validation_enabled);
    InstanceRequest {
        metadata,
        extensions: lists.instance_extensions,
        layers: lists.instance_layers,
        diagnostics,
    }
}

/// One step of the teardown order.
#[derive(Clone, Copy, Debug, PartialEq, Eq, Structural)]
pub enum ReleaseStep {
    Surface,
    DiagnosticChannel,
    Connection,
    EntryTable,
}

/// The place of a step in the release order: a handle must be released
/// before every handle that was created before it.
pub open spec fn spec_release_rank(step: ReleaseStep) -> int {
    match step {
        ReleaseStep::Surface => 0,
        ReleaseStep::DiagnosticChannel => 1,
        ReleaseStep::Connection => 2,
        ReleaseStep::EntryTable => 3,
    }
}

/// The release order of a bootstrap: surface, then the diagnostic channel
/// when one was created, then the connection, then the entry table.
pub open spec fn spec_teardown_plan(validation: bool) -> Seq<ReleaseStep> {
    if validation {
        seq![
            ReleaseStep::Surface,
            ReleaseStep::DiagnosticChannel,
            ReleaseStep::Connection,
            ReleaseStep::EntryTable,
        ]
    } else {
        seq![ReleaseStep::Surface, ReleaseStep::Connection, ReleaseStep::EntryTable]
    }
}

/// For every bootstrap, the teardown plan releases the surface first, the
/// connection second to last and the entry table last; it holds a
/// diagnostic-channel step exactly when validation was enabled, and it
/// releases strictly in the order surface, diagnostic channel, connection,
/// entry table.
pub proof fn lemma_teardown_order(validation: bool)
    ensures
        spec_teardown_plan(validation).len() == if validation {
            4int
        } else {
            3int
        },
        spec_teardown_plan(validation)[0] == ReleaseStep::Surface,
        spec_teardown_plan(validation).last() == ReleaseStep::EntryTable,
        spec_teardown_plan(validation)[spec_teardown_plan(validation).len() - 2]
            == ReleaseStep::Connection,
        spec_teardown_plan(validation).contains(ReleaseStep::DiagnosticChannel) <==> validation,
        forall|i: int, j: int|
            0 <= i < j < spec_teardown_plan(validation).len() ==> spec_release_rank(
                spec_teardown_plan(validation)[i],
            ) < spec_release_rank(spec_teardown_plan(validation)[j]),
{
    if validation {
        assert(spec_teardown_plan(validation)[1] == ReleaseStep::DiagnosticChannel);
    } else {
        assert forall|i: int|
            0 <= i < spec_teardown_plan(validation).len() implies spec_teardown_plan(validation)[i]
            != ReleaseStep::DiagnosticChannel by {}
    }
}

/// The long-lived bootstrap aggregate. Each handle field carries the
/// identifier the outer layer gave the corresponding API handle.
pub struct Context {
    pub entry: u64,
    pub instance: u64,
    pub messenger: Option<u64>,
    pub surface: u64,
    pub validation_enabled: bool,
}

/// The outcome of selecting an accelerator and planning its logical
/// device: which descriptor was picked, its physical handle, and the
/// single-queue device request to create for it.
pub struct DevicePlan {
    pub selected_index: usize,
    pub physical_device: u64,
    pub request: DeviceRequest,
}

impl Context {
    /// The Context invariant: a diagnostic channel is held if and only if
    /// validation was enabled at creation.
    pub open spec fn wf(&self) -> bool {
        self.messenger is Some <==> self.validation_enabled
    }

    /// Assembles the Context from the handles the outer layer created,
    /// establishing the invariant. The caller hands a messenger handle
    /// exactly when it enabled validation.
    pub fn create(
        entry: u64,
        instance: u64,
        messenger: Option<u64>,
        surface: u64,
        validation_enabled: bool,
    ) -> (r: Context)
        requires
            messenger is Some <==> validation_enabled,
        ensures
            r.wf(),
            r.entry == entry,
            r.instance == instance,
            r.messenger == messenger,
            r.surface == surface,
            r.validation_enabled == validation_enabled,
    {
        Context { entry, instance, messenger, surface, validation_enabled }
    }

    /// Selects the accelerator with the most heap-0 memory among the
    /// enumerated descriptors and plans its logical device: the first
    /// maximum is picked, the plan's physical handle is that descriptor's,
    /// and the request follows the single-queue policy with the negotiated
    /// device-level names. An empty enumeration is the `NoAccelerator`
    /// error and nothing else.
    pub fn get_highest_vram_gpu(&self, accelerators: &Vec<AcceleratorInfo>) -> (r: Result<
        DevicePlan,
        BootstrapError,
    >)
        requires
            self.wf(),
            forall|i: int| 0 <= i < accelerators@.len() ==> (#[trigger] accelerators@[i]).wf(),
        ensures
            r is Ok <==> accelerators@.len() > 0,
            r is Err ==> r == Err::<DevicePlan, BootstrapError>(BootstrapError::NoAccelerator),
            r matches Ok(p) ==> {
                &&& is_first_max(spec_heap0_sizes(accelerators@), p.selected_index as int)
                &&& p.physical_device == accelerators@[p.selected_index as int].handle
                &&& p.request.single_queue()
                &&& p.request.extensions.deep_view() == spec_device_extensions(
                    self.validation_enabled,
                )
                &&& p.request.layers.deep_view() == spec_validation_layers(
                    self.validation_enabled,
                )
                &&& p.request.features@.len() == 0
            },
    {
        let selected_index = match select_accelerator(accelerators) {
            Ok(i) => i,
            Err(e) => {
                return Err(e);
            },
        };
        let physical_device = accelerators[selected_index].handle;
        let request = device_request(self.validation_enabled);
        Ok(DevicePlan { selected_index, physical_device, request })
    }

    /// The order this Context's handles must be released in.
    pub fn teardown_plan(&self) -> (r: Vec<ReleaseStep>)
        requires
            self.wf(),
        ensures
            r@ == spec_teardown_plan(self.validation_enabled),
    {
        let mut plan: Vec<ReleaseStep> = Vec::new();
        plan.push(ReleaseStep::Surface);
        if self.validation_enabled {
            plan.push(ReleaseStep::DiagnosticChannel);
        }
        plan.push(ReleaseStep::Connection);
        plan.push(ReleaseStep::EntryTable);
        proof {
            assert(plan@ =~= spec_teardown_plan(self.validation_enabled));
        }
        plan
    }
}

/// The selectable unit handed to the render graph: the physical handle of
/// the chosen accelerator and the identifier of its logical device. The
/// logical device is shared-ownership downstream; the outer layer holds
/// the reference-counted handle this identifier names.
pub struct Gpu {
    pub physical_device: u64,
    pub device: u64,
}

impl Gpu {
    /// Pairs a selected accelerator's physical handle with the logical
    /// device created for it.
    pub fn create(physical_device: u64, device: u64) -> (r: Gpu)
        ensures
            r.physical_device == physical_device,
            r.device == device,
    {
        Gpu { physical_device, device }
    }
}

} // verus!
