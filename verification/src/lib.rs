//! Decision core for bootstrapping a Vulkan-style graphics backend.
//!
//! The library plans and checks every step of the one-time device-context
//! bootstrap: negotiating capability extensions and validation layers,
//! configuring the diagnostic channel, selecting a physical accelerator by
//! video-memory size, building the logical-device request, and ordering
//! teardown. The actual graphics API calls are made by a thin outer layer;
//! this crate holds the logic those calls are driven by.

pub mod accel;
pub mod caps;
pub mod context;
pub mod device;
pub mod diag;
pub mod error;
pub mod select;
pub mod version;
pub mod window;

use vstd::prelude::*;

verus! {

} // verus!
