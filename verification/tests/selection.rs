use blossom::accel::AcceleratorInfo;
use blossom::error::BootstrapError;
use blossom::select::select_accelerator;

fn accel(handle: u64, heap0: u64) -> AcceleratorInfo {
    AcceleratorInfo::new(handle, format!("accel-{handle}"), 1, vec![heap0, 256])
}

#[test]
fn first_of_equal_maxima_is_kept() {
    // Heap-0 sizes [4, 9, 9, 2]: the first 9 wins, not the second.
    let accels = vec![accel(10, 4), accel(11, 9), accel(12, 9), accel(13, 2)];
    assert_eq!(select_accelerator(&accels), Ok(1));
}

#[test]
fn single_accelerator_is_selected() {
    let accels = vec![accel(7, 1024)];
    assert_eq!(select_accelerator(&accels), Ok(0));
}

#[test]
fn strictly_increasing_sizes_select_the_last() {
    let accels = vec![accel(1, 1), accel(2, 2), accel(3, 3)];
    assert_eq!(select_accelerator(&accels), Ok(2));
}

#[test]
fn strictly_decreasing_sizes_select_the_first() {
    let accels = vec![accel(1, 3), accel(2, 2), accel(3, 1)];
    assert_eq!(select_accelerator(&accels), Ok(0));
}

#[test]
fn all_zero_sizes_select_the_first() {
    let accels = vec![accel(1, 0), accel(2, 0)];
    assert_eq!(select_accelerator(&accels), Ok(0));
}

#[test]
fn empty_enumeration_is_no_accelerator_error() {
    let accels: Vec<AcceleratorInfo> = Vec::new();
    assert_eq!(select_accelerator(&accels), Err(BootstrapError::NoAccelerator));
}

#[test]
fn largest_sizes_are_handled() {
    let accels = vec![accel(1, u64::MAX - 1), accel(2, u64::MAX), accel(3, u64::MAX)];
    assert_eq!(select_accelerator(&accels), Ok(1));
}
