use blossom::device::{device_request, FULL_PRIORITY_PERMILLE};

#[test]
fn exactly_one_queue_family_zero_full_priority() {
    for validation in [false, true] {
        let request = device_request(validation);
        assert_eq!(request.queues.len(), 1);
        assert_eq!(request.queues[0].family_index, 0);
        assert_eq!(request.queues[0].priority_permille, FULL_PRIORITY_PERMILLE);
        assert_eq!(request.queues[0].priority_permille, 1000);
    }
}

#[test]
fn device_names_follow_the_validation_flag() {
    let with = device_request(true);
    assert_eq!(
        with.extensions,
        vec!["VK_KHR_swapchain".to_string(), "VK_EXT_debug_utils".to_string()]
    );
    assert_eq!(with.layers, vec!["VK_LAYER_KHRONOS_validation".to_string()]);

    let without = device_request(false);
    assert_eq!(without.extensions, vec!["VK_KHR_swapchain".to_string()]);
    assert!(without.layers.is_empty());
}

#[test]
fn no_features_unless_extended() {
    let request = device_request(true);
    assert!(request.features.is_empty());
    let extended = request.with_features(vec!["samplerAnisotropy".to_string()]);
    assert_eq!(extended.features, vec!["samplerAnisotropy".to_string()]);
    assert_eq!(extended.queues.len(), 1);
    assert_eq!(extended.queues[0].family_index, 0);
}
