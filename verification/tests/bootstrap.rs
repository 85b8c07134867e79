use blossom::accel::AcceleratorInfo;
use blossom::context::{instance_request, Context, Gpu, ReleaseStep};
use blossom::error::BootstrapError;

const GIB: u64 = 1024 * 1024 * 1024;

fn two_accelerators() -> Vec<AcceleratorInfo> {
    vec![
        AcceleratorInfo::new(100, "integrated".to_string(), 42, vec![8 * GIB, GIB]),
        AcceleratorInfo::new(200, "discrete".to_string(), 43, vec![16 * GIB, 2 * GIB]),
    ]
}

#[test]
fn end_to_end_picks_the_sixteen_gib_accelerator() {
    // Two accelerators with heap-0 sizes 8 GiB and 16 GiB, in that order.
    let request = instance_request(vec!["VK_KHR_surface".to_string()], true);
    assert!(request.diagnostics.is_some());

    let context = Context::create(1, 2, Some(3), 4, true);
    let accelerators = two_accelerators();
    let plan = context.get_highest_vram_gpu(&accelerators).expect("two accelerators were given");
    assert_eq!(plan.selected_index, 1);
    assert_eq!(plan.physical_device, 200);

    let gpu = Gpu::create(plan.physical_device, 77);
    let selected = vec![gpu];
    assert_eq!(selected.len(), 1);
    assert_eq!(selected[0].physical_device, 200);
    assert_eq!(selected[0].device, 77);
}

#[test]
fn empty_enumeration_fails_the_bootstrap() {
    let context = Context::create(1, 2, None, 4, false);
    let accelerators: Vec<AcceleratorInfo> = Vec::new();
    let error = context.get_highest_vram_gpu(&accelerators).err().expect("must fail");
    assert_eq!(error, BootstrapError::NoAccelerator);
}

#[test]
fn device_plan_carries_the_single_queue_request() {
    let context = Context::create(1, 2, None, 4, false);
    let plan = context.get_highest_vram_gpu(&two_accelerators()).expect("selection succeeds");
    assert_eq!(plan.request.queues.len(), 1);
    assert_eq!(plan.request.queues[0].family_index, 0);
    assert_eq!(plan.request.queues[0].priority_permille, 1000);
    assert_eq!(plan.request.extensions, vec!["VK_KHR_swapchain".to_string()]);
    assert!(plan.request.layers.is_empty());
    assert!(plan.request.features.is_empty());
}

#[test]
fn instance_request_carries_metadata_and_names() {
    let request = instance_request(vec!["VK_KHR_surface".to_string()], true);
    assert_eq!(request.metadata.application_name, "Blossom");
    assert_eq!(request.metadata.engine_name, "Blossom");
    assert_eq!(
        request.extensions,
        vec!["VK_KHR_surface".to_string(), "VK_EXT_debug_utils".to_string()]
    );
    assert_eq!(request.layers, vec!["VK_LAYER_KHRONOS_validation".to_string()]);

    let bare = instance_request(vec!["VK_KHR_surface".to_string()], false);
    assert!(bare.diagnostics.is_none());
    assert_eq!(bare.extensions, vec!["VK_KHR_surface".to_string()]);
    assert!(bare.layers.is_empty());
}

#[test]
fn teardown_releases_in_reverse_creation_order() {
    let with_validation = Context::create(1, 2, Some(3), 4, true);
    assert_eq!(
        with_validation.teardown_plan(),
        vec![
            ReleaseStep::Surface,
            ReleaseStep::DiagnosticChannel,
            ReleaseStep::Connection,
            ReleaseStep::EntryTable,
        ]
    );

    let without_validation = Context::create(1, 2, None, 4, false);
    let plan = without_validation.teardown_plan();
    assert_eq!(
        plan,
        vec![ReleaseStep::Surface, ReleaseStep::Connection, ReleaseStep::EntryTable]
    );
    assert!(!plan.contains(&ReleaseStep::DiagnosticChannel));
}
