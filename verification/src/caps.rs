//! The Capability Negotiator.
//!
//! Given the extension names that the windowing layer requires and the
//! `validation_enabled` flag, it produces the connection-level and
//! device-level extension and layer name lists. When validation is enabled,
//! the diagnostic-utilities extension and the standard validation layer are
//! appended to both levels; the device level always carries the
//! presentation (swapchain) extension. The negotiator does not check that
//! the host can supply a name: connection or device creation fails later if
//! it cannot.

use vstd::prelude::*;

verus! {

/// The name of the diagnostic-utilities extension.
pub open spec fn spec_debug_utils_extension() -> Seq<char> {
    "VK_EXT_debug_utils"@
}

/// The name of the standard validation layer.
pub open spec fn spec_validation_layer() -> Seq<char> {
    "VK_LAYER_KHRONOS_validation"@
}

/// The name of the presentation (swapchain) extension.
pub open spec fn spec_swapchain_extension() -> Seq<char> {
    "VK_KHR_swapchain"@
}

/// The diagnostic-utilities extension name as an owned string.
pub fn debug_utils_extension_name() -> (r: String)
    ensures
        r@ == spec_debug_utils_extension(),
{
    "VK_EXT_debug_utils".to_string()
}

/// The standard validation-layer name as an owned string.
pub fn validation_layer_name() -> (r: String)
    ensures
        r@ == spec_validation_layer(),
{
    "VK_LAYER_KHRONOS_validation".to_string()
}

/// The presentation (swapchain) extension name as an owned string.
pub fn swapchain_extension_name() -> (r: String)
    ensures
        r@ == spec_swapchain_extension(),
{
    "VK_KHR_swapchain".to_string()
}

/// The connection-level extension list: the window-required names, plus the
/// diagnostic-utilities extension when validation is enabled.
pub open spec fn spec_instance_extensions(window: Seq<Seq<char>>, validation: bool) -> Seq<
    Seq<char>,
> {
    if validation {
        window.push(spec_debug_utils_extension())
    } else {
        window
    }
}

/// The device-level extension list: the swapchain extension, plus the
/// diagnostic-utilities extension when validation is enabled.
pub open spec fn spec_device_extensions(validation: bool) -> Seq<Seq<char>> {
    if validation {
        seq![spec_swapchain_extension(), spec_debug_utils_extension()]
    } else {
        seq![spec_swapchain_extension()]
    }
}

/// The layer list used at both levels: the standard validation layer when
/// validation is enabled, and nothing otherwise.
pub open spec fn spec_validation_layers(validation: bool) -> Seq<Seq<char>> {
    if validation {
        seq![spec_validation_layer()]
    } else {
        Seq::empty()
    }
}

/// The negotiated capability name lists for one bootstrap.
pub struct CapabilityLists {
    pub instance_extensions: Vec<String>,
    pub instance_layers: Vec<String>,
    pub device_extensions: Vec<String>,
    pub device_layers: Vec<String>,
}

/// Produces the connection-level and device-level name lists for the given
/// window-required extensions and validation flag.
pub fn negotiate(window_extensions: Vec<String>, validation_enabled: bool) -> (r: CapabilityLists)
    ensures
        r.instance_extensions.deep_view() == spec_instance_extensions(
            window_extensions.deep_view(),
            validation_enabled,
        ),
        r.instance_layers.deep_view() == spec_validation_layers(validation_enabled),
        r.device_extensions.deep_view() == spec_device_extensions(validation_enabled),
        r.device_layers.deep_view() == spec_validation_layers(validation_enabled),
{
    let ghost window: Seq<Seq<char>> = window_extensions.deep_view();

    let mut instance_extensions = window_extensions;
    if validation_enabled {
        instance_extensions.push(debug_utils_extension_name());
    }

    let mut instance_layers: Vec<String> = Vec::new();
    if validation_enabled {
        instance_layers.push(validation_layer_name());
    }

    let mut device_extensions: Vec<String> = Vec::new();
    device_extensions.push(swapchain_extension_name());
    if validation_enabled {
        device_extensions.push(debug_utils_extension_name());
    }

    let mut device_layers: Vec<String> = Vec::new();
    if validation_enabled {
        device_layers.push(validation_layer_name());
    }

    proof {
        assert(instance_extensions.deep_view() =~= spec_instance_extensions(
            window,
            validation_enabled,
        ));
        assert(instance_layers.deep_view() =~= spec_validation_layers(validation_enabled));
        assert(device_extensions.deep_view() =~= spec_device_extensions(validation_enabled));
        assert(device_layers.deep_view() =~= spec_validation_layers(validation_enabled));
    }

    CapabilityLists { instance_extensions, instance_layers, device_extensions, device_layers }
}

/// The three capability names the negotiator introduces differ pairwise, so
/// names added from disjoint sources never collide.
pub proof fn lemma_negotiator_names_differ()
    ensures
        spec_debug_utils_extension() != spec_swapchain_extension(),
        spec_debug_utils_extension() != spec_validation_layer(),
        spec_swapchain_extension() != spec_validation_layer(),
{
    reveal_strlit("VK_EXT_debug_utils");
    reveal_strlit("VK_KHR_swapchain");
    reveal_strlit("VK_LAYER_KHRONOS_validation");
    assert(spec_debug_utils_extension().len() == 18);
    assert(spec_swapchain_extension().len() == 16);
    assert(spec_validation_layer().len() == 27);
}

/// With validation enabled, the diagnostic-utilities extension and the
/// validation layer stand in both the connection-level and the device-level
/// lists; with it disabled, the negotiator introduces neither name anywhere.
pub proof fn lemma_validation_capability_presence(window: Seq<Seq<char>>, validation: bool)
    ensures
        validation ==> spec_instance_extensions(window, validation).contains(
            spec_debug_utils_extension(),
        ),
        validation ==> spec_device_extensions(validation).contains(spec_debug_utils_extension()),
        validation ==> spec_validation_layers(validation).contains(spec_validation_layer()),
        !validation ==> spec_instance_extensions(window, validation) == window,
        !validation ==> !spec_device_extensions(validation).contains(
            spec_debug_utils_extension(),
        ),
        !validation ==> spec_validation_layers(validation).len() == 0,
{
    lemma_negotiator_names_differ();
    if validation {
        assert(spec_instance_extensions(window, validation).last()
            == spec_debug_utils_extension());
        assert(spec_device_extensions(validation)[1] == spec_debug_utils_extension());
        assert(spec_validation_layers(validation)[0] == spec_validation_layer());
    }
}

/// If the window-required names are pairwise distinct and none of them is
/// the diagnostic-utilities extension, every negotiated list holds each of
/// its names exactly once.
pub proof fn lemma_negotiated_names_unique(window: Seq<Seq<char>>, validation: bool)
    requires
        forall|i: int, j: int|
            0 <= i < j < window.len() ==> window[i] != window[j],
        forall|i: int| 0 <= i < window.len() ==> window[i] != spec_debug_utils_extension(),
    ensures
        forall|i: int, j: int|
            0 <= i < j < spec_instance_extensions(window, validation).len()
                ==> spec_instance_extensions(window, validation)[i] != spec_instance_extensions(
                window,
                validation,
            )[j],
        forall|i: int, j: int|
            0 <= i < j < spec_device_extensions(validation).len() ==> spec_device_extensions(
                validation,
            )[i] != spec_device_extensions(validation)[j],
        spec_validation_layers(validation).len() <= 1,
{
    lemma_negotiator_names_differ();
}

} // verus!
