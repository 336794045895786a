use starry_engine::device::{DeviceCandidate, DeviceKind, QueueFamilySupport, StarryDevice};

fn fam(graphics: bool, presents: bool) -> QueueFamilySupport {
    QueueFamilySupport { graphics, presents }
}

fn dev(kind: DeviceKind, has_extensions: bool, families: Vec<QueueFamilySupport>) -> DeviceCandidate {
    DeviceCandidate { kind, has_extensions, families }
}

#[test]
fn ranks_follow_preference() {
    assert_eq!(StarryDevice::device_rank(DeviceKind::DiscreteGpu), 0);
    assert_eq!(StarryDevice::device_rank(DeviceKind::IntegratedGpu), 1);
    assert_eq!(StarryDevice::device_rank(DeviceKind::VirtualGpu), 2);
    assert_eq!(StarryDevice::device_rank(DeviceKind::Cpu), 3);
    assert_eq!(StarryDevice::device_rank(DeviceKind::Other), 4);
    assert_eq!(StarryDevice::device_rank(DeviceKind::Unknown), 5);
}

#[test]
fn first_family_with_graphics_and_present() {
    let fs = vec![fam(true, false), fam(false, true), fam(true, true), fam(true, true)];
    assert_eq!(StarryDevice::pick_queue_family(&fs), Some(2));
    assert_eq!(StarryDevice::pick_queue_family(&vec![fam(true, false)]), None);
}

#[test]
fn discrete_gpu_preferred_over_earlier_integrated() {
    let cs = vec![
        dev(DeviceKind::Cpu, true, vec![fam(true, true)]),
        dev(DeviceKind::IntegratedGpu, true, vec![fam(false, true), fam(true, true)]),
        dev(DeviceKind::DiscreteGpu, false, vec![fam(true, true)]),
        dev(DeviceKind::DiscreteGpu, true, vec![fam(true, false), fam(true, false), fam(true, true)]),
        dev(DeviceKind::DiscreteGpu, true, vec![fam(true, true)]),
    ];
    assert_eq!(StarryDevice::select_physical_device(&cs), Some((3, 2)));
}

#[test]
fn earliest_of_equal_rank_wins() {
    let cs = vec![
        dev(DeviceKind::IntegratedGpu, true, vec![fam(true, false)]),
        dev(DeviceKind::IntegratedGpu, true, vec![fam(true, true)]),
        dev(DeviceKind::IntegratedGpu, true, vec![fam(true, true)]),
    ];
    assert_eq!(StarryDevice::select_physical_device(&cs), Some((1, 0)));
}

#[test]
fn no_eligible_device() {
    let cs = vec![
        dev(DeviceKind::DiscreteGpu, false, vec![fam(true, true)]),
        dev(DeviceKind::IntegratedGpu, true, vec![fam(false, true)]),
    ];
    assert_eq!(StarryDevice::select_physical_device(&cs), None);
    assert_eq!(StarryDevice::select_physical_device(&vec![]), None);
}
