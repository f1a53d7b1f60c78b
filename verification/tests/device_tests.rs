use rseed::device::{
    resolve_queue_families, select_physical_device, Device, DeviceError, PhysicalDeviceKind,
    QueueFamilyInfo,
};
use rseed::device::PhysicalDeviceKind::{DiscreteGpu, IntegratedGpu, Other};

fn family(
    queue_count: u32,
    graphics: bool,
    transfer: bool,
    compute: bool,
    present_support: bool,
) -> QueueFamilyInfo {
    QueueFamilyInfo { queue_count, graphics, transfer, compute, present_support }
}

#[test]
fn discrete_wins_over_integrated_in_any_order() {
    let a = vec![IntegratedGpu, DiscreteGpu];
    assert_eq!(select_physical_device(&a), Ok(1));
    let b = vec![DiscreteGpu, IntegratedGpu];
    assert_eq!(select_physical_device(&b), Ok(0));
}

#[test]
fn the_last_discrete_wins_among_several() {
    let devs = vec![DiscreteGpu, Other, DiscreteGpu, IntegratedGpu];
    assert_eq!(select_physical_device(&devs), Ok(2));
}

#[test]
fn the_first_integrated_wins_without_a_discrete() {
    let devs = vec![Other, IntegratedGpu, IntegratedGpu];
    assert_eq!(select_physical_device(&devs), Ok(1));
}

#[test]
fn an_empty_enumeration_finds_no_device() {
    let devs: Vec<PhysicalDeviceKind> = vec![];
    assert_eq!(
        select_physical_device(&devs),
        Err(DeviceError::NoSuitablePhysicalDevice)
    );
}

#[test]
fn unrecognized_types_alone_find_no_device() {
    let devs = vec![Other, Other];
    assert_eq!(
        select_physical_device(&devs),
        Err(DeviceError::NoSuitablePhysicalDevice)
    );
}

#[test]
fn resolves_the_first_family_per_role() {
    let fams = vec![
        // Graphics-capable, presents, but advertises everything: taken for
        // graphics, excluded for transfer and compute.
        family(4, true, true, true, true),
        // Dedicated transfer family.
        family(2, false, true, false, false),
        // Dedicated compute family.
        family(2, false, false, true, false),
    ];
    let q = resolve_queue_families(&fams).unwrap();
    assert_eq!(q.graphics, 0);
    assert_eq!(q.transfer, 1);
    assert_eq!(q.compute, 2);
}

#[test]
fn no_present_capable_graphics_family_fails() {
    // Both families advertise graphics, neither presents: never silently
    // substitutes a non-present-capable family.
    let fams = vec![
        family(4, true, true, true, false),
        family(2, true, true, true, false),
    ];
    assert_eq!(
        resolve_queue_families(&fams),
        Err(DeviceError::QueueFamilyNotFound)
    );
}

#[test]
fn present_without_graphics_does_not_count() {
    let fams = vec![family(4, false, true, true, true)];
    assert_eq!(
        resolve_queue_families(&fams),
        Err(DeviceError::QueueFamilyNotFound)
    );
}

#[test]
fn empty_families_do_not_qualify() {
    // A family with no queues qualifies for nothing, whatever it
    // advertises.
    let fams = vec![
        family(0, true, false, false, true),
        family(1, true, false, false, true),
        family(0, false, true, false, false),
        family(1, false, true, false, false),
        family(1, false, false, true, false),
    ];
    let q = resolve_queue_families(&fams).unwrap();
    assert_eq!(q.graphics, 1);
    assert_eq!(q.transfer, 3);
    assert_eq!(q.compute, 4);
}

#[test]
fn a_missing_dedicated_role_fails_rather_than_sharing() {
    // Graphics family presents, but every transfer-capable family also
    // advertises graphics and compute, so the transfer role stays open.
    let fams = vec![family(4, true, true, true, true)];
    assert_eq!(
        resolve_queue_families(&fams),
        Err(DeviceError::QueueFamilyNotFound)
    );
}

#[test]
fn init_selects_then_resolves_the_chosen_device() {
    let devs = vec![IntegratedGpu, DiscreteGpu];
    let families = vec![
        // The integrated device would resolve nothing.
        vec![family(1, false, false, false, false)],
        // The discrete device resolves all three roles.
        vec![
            family(4, true, true, true, true),
            family(2, false, true, false, false),
            family(2, false, false, true, false),
        ],
    ];
    let dev = Device::init(&devs, &families).unwrap();
    assert_eq!(dev.physical_index, 1);
    assert_eq!(dev.queue_inds, (0, 1, 2));
}

#[test]
fn init_reports_the_missing_queue_set_of_the_chosen_device() {
    let devs = vec![DiscreteGpu];
    let families = vec![vec![family(4, true, true, true, false)]];
    assert!(matches!(
        Device::init(&devs, &families),
        Err(DeviceError::QueueFamilyNotFound)
    ));
}

#[test]
fn init_reports_no_device_on_an_empty_enumeration() {
    let devs: Vec<PhysicalDeviceKind> = vec![];
    let families: Vec<Vec<QueueFamilyInfo>> = vec![];
    assert!(matches!(
        Device::init(&devs, &families),
        Err(DeviceError::NoSuitablePhysicalDevice)
    ));
}
