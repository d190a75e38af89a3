use aspen_engine::graphics::CandidateQueue;
use aspen_engine::graphics::DeviceClass;
use aspen_engine::graphics::GpuCandidate;
use aspen_engine::graphics::GraphicsErrorType;
use aspen_engine::graphics::QueueFamily;
use aspen_engine::graphics::capable_candidates;
use aspen_engine::graphics::device_class_rank;
use aspen_engine::graphics::find_queue_family;
use aspen_engine::graphics::select_physical_device;

fn both() -> QueueFamily {
    QueueFamily { graphics: true, present: true }
}

fn candidate(device_class: DeviceClass) -> GpuCandidate {
    GpuCandidate {
        device_class,
        api_major: 1,
        api_minor: 3,
        khr_swapchain: true,
        khr_dynamic_rendering: false,
        queue_families: vec![both()],
    }
}

#[test]
fn discrete_preferred_over_integrated() {
    let candidates = vec![
        candidate(DeviceClass::IntegratedGpu),
        candidate(DeviceClass::DiscreteGpu),
        candidate(DeviceClass::Cpu),
    ];
    let sel = select_physical_device(&candidates).unwrap();
    assert_eq!(sel.candidate_index, 1);
    assert_eq!(sel.queue_family_index, 0);
    assert!(!sel.enable_khr_dynamic_rendering);
}

#[test]
fn discrete_preferred_regardless_of_order() {
    let candidates = vec![
        candidate(DeviceClass::DiscreteGpu),
        candidate(DeviceClass::IntegratedGpu),
    ];
    let sel = select_physical_device(&candidates).unwrap();
    assert_eq!(sel.candidate_index, 0);
}

#[test]
fn ties_break_to_first_enumerated() {
    let candidates = vec![
        candidate(DeviceClass::IntegratedGpu),
        candidate(DeviceClass::IntegratedGpu),
        candidate(DeviceClass::IntegratedGpu),
    ];
    let sel = select_physical_device(&candidates).unwrap();
    assert_eq!(sel.candidate_index, 0);
}

#[test]
fn empty_candidate_set_is_no_suitable_device() {
    let candidates: Vec<GpuCandidate> = Vec::new();
    let err = select_physical_device(&candidates).unwrap_err();
    assert!(matches!(err.error_type, GraphicsErrorType::NoSuitableGPU));
}

#[test]
fn no_qualifying_family_is_no_suitable_device() {
    // Devices exist, families exist, but none can both render and present:
    // this must be the selection failure, never the enumeration failure.
    let mut c = candidate(DeviceClass::DiscreteGpu);
    c.queue_families = vec![
        QueueFamily { graphics: true, present: false },
        QueueFamily { graphics: false, present: true },
    ];
    let candidates = vec![c];
    let err = select_physical_device(&candidates).unwrap_err();
    assert!(matches!(err.error_type, GraphicsErrorType::NoSuitableGPU));
}

#[test]
fn missing_swapchain_support_excludes_candidate() {
    let mut discrete = candidate(DeviceClass::DiscreteGpu);
    discrete.khr_swapchain = false;
    let candidates = vec![discrete, candidate(DeviceClass::IntegratedGpu)];
    let sel = select_physical_device(&candidates).unwrap();
    assert_eq!(sel.candidate_index, 1);
}

#[test]
fn old_api_with_extension_enables_it_at_creation() {
    let mut c = candidate(DeviceClass::DiscreteGpu);
    c.api_minor = 2;
    c.khr_dynamic_rendering = true;
    let candidates = vec![c];
    let sel = select_physical_device(&candidates).unwrap();
    assert!(sel.enable_khr_dynamic_rendering);
}

#[test]
fn modern_api_does_not_enable_extension() {
    let mut c = candidate(DeviceClass::DiscreteGpu);
    c.api_major = 1;
    c.api_minor = 3;
    c.khr_dynamic_rendering = true;
    let candidates = vec![c];
    let sel = select_physical_device(&candidates).unwrap();
    assert!(!sel.enable_khr_dynamic_rendering);
}

#[test]
fn old_api_without_extension_is_excluded() {
    let mut c = candidate(DeviceClass::DiscreteGpu);
    c.api_minor = 2;
    c.khr_dynamic_rendering = false;
    let candidates = vec![c];
    let err = select_physical_device(&candidates).unwrap_err();
    assert!(matches!(err.error_type, GraphicsErrorType::NoSuitableGPU));
}

#[test]
fn first_qualifying_family_wins() {
    let families = vec![
        QueueFamily { graphics: true, present: false },
        QueueFamily { graphics: false, present: true },
        both(),
        both(),
    ];
    assert_eq!(find_queue_family(&families), Some(2));
}

#[test]
fn no_family_qualifies() {
    let families = vec![
        QueueFamily { graphics: true, present: false },
        QueueFamily { graphics: false, present: false },
    ];
    assert_eq!(find_queue_family(&families), None);
}

#[test]
fn capability_query_annotates_and_excludes() {
    let mut no_family = candidate(DeviceClass::DiscreteGpu);
    no_family.queue_families = vec![QueueFamily { graphics: true, present: false }];
    let mut late_family = candidate(DeviceClass::Cpu);
    late_family.queue_families = vec![
        QueueFamily { graphics: false, present: true },
        both(),
    ];
    let candidates = vec![candidate(DeviceClass::IntegratedGpu), no_family, late_family];

    let capable = capable_candidates(&candidates);
    assert_eq!(
        capable,
        vec![
            CandidateQueue { candidate_index: 0, queue_family_index: 0 },
            CandidateQueue { candidate_index: 2, queue_family_index: 1 },
        ]
    );
}

#[test]
fn ranking_follows_device_class_preference() {
    assert!(device_class_rank(DeviceClass::DiscreteGpu) < device_class_rank(DeviceClass::IntegratedGpu));
    assert!(device_class_rank(DeviceClass::IntegratedGpu) < device_class_rank(DeviceClass::VirtualGpu));
    assert!(device_class_rank(DeviceClass::VirtualGpu) < device_class_rank(DeviceClass::Cpu));
    assert!(device_class_rank(DeviceClass::Cpu) < device_class_rank(DeviceClass::Other));
    assert!(device_class_rank(DeviceClass::Other) < device_class_rank(DeviceClass::Unknown));
}

#[test]
fn full_preference_order_is_respected() {
    let candidates = vec![
        candidate(DeviceClass::Unknown),
        candidate(DeviceClass::Other),
        candidate(DeviceClass::Cpu),
        candidate(DeviceClass::VirtualGpu),
        candidate(DeviceClass::IntegratedGpu),
    ];
    let sel = select_physical_device(&candidates).unwrap();
    assert_eq!(sel.candidate_index, 4);
}
