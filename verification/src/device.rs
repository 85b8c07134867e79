//! The Logical Device Factory's request.
//!
//! A logical device is created with exactly one queue, at family index 0,
//! at full priority — a hard-coded single-queue policy. Callers needing
//! several queues or another family are not supported by this core.
//! Queue priorities are carried in thousandths (1000 stands for the full
//! priority 1.0), since the verified core carries no floating point; the
//! outer layer divides by 1000 when it hands the request to the API.

use crate::caps::{
    spec_device_extensions, spec_validation_layers, swapchain_extension_name,
    debug_utils_extension_name, validation_layer_name,
};
use vstd::prelude::*;

verus! {

/// The number of thousandths that stands for the full queue priority 1.0.
pub const FULL_PRIORITY_PERMILLE: u32 = 1000;

/// One requested queue.
#[derive(Clone, Copy, Debug, PartialEq, Eq, Structural)]
pub struct QueueRequest {
    pub family_index: u32,
    pub priority_permille: u32,
}

/// Everything the outer layer needs to create one logical device.
pub struct DeviceRequest {
    /// The queues to create: always exactly one, family 0, full priority.
    pub queues: Vec<QueueRequest>,
    /// Device-level extension names.
    pub extensions: Vec<String>,
    /// Device-level layer names.
    pub layers: Vec<String>,
    /// Names of requested device features; none unless a caller extends
    /// the request.
    pub features: Vec<String>,
}

impl DeviceRequest {
    /// Whether this request follows the single-queue policy: one queue,
    /// family index 0, full priority.
    pub open spec fn single_queue(&self) -> bool {
        self.queues@ =~= seq![
            QueueRequest { family_index: 0, priority_permille: FULL_PRIORITY_PERMILLE },
        ]
    }

    /// Extends the request with a caller-supplied feature descriptor; the
    /// queue policy and the negotiated names are untouched.
    pub fn with_features(self, features: Vec<String>) -> (r: DeviceRequest)
        ensures
            r.queues@ == self.queues@,
            r.extensions@ == self.extensions@,
            r.layers@ == self.layers@,
            r.features@ == features@,
    {
        DeviceRequest { features, ..self }
    }
}

/// Builds the logical-device request for one selected accelerator:
/// exactly one queue at family index 0 with full priority, the negotiated
/// device-level names, and no features requested.
pub fn device_request(validation_enabled: bool) -> (r: DeviceRequest)
    ensures
        r.single_queue(),
        r.queues@.len() == 1,
        r.queues@[0].family_index == 0,
        r.queues@[0].priority_permille == FULL_PRIORITY_PERMILLE,
        r.extensions.deep_view() == spec_device_extensions(validation_enabled),
        r.layers.deep_view() == spec_validation_layers(validation_enabled),
        r.features@.len() == 0,
{
    let mut queues: Vec<QueueRequest> = Vec::new();
    queues.push(QueueRequest { family_index: 0, priority_permille: FULL_PRIORITY_PERMILLE });

    let mut extensions: Vec<String> = Vec::new();
    extensions.push(swapchain_extension_name());
    if validation_enabled {
        extensions.push(debug_utils_extension_name());
    }

    let mut layers: Vec<String> = Vec::new();
    if validation_enabled {
        layers.push(validation_layer_name());
    }

    let features: Vec<String> = Vec::new();

    proof {
        assert(extensions.deep_view() =~= spec_device_extensions(validation_enabled));
        assert(layers.deep_view() =~= spec_validation_layers(validation_enabled));
    }

    DeviceRequest { queues, extensions, layers, features }
}

} // verus!
