use gpu_info::vulkan::{
    DEVICE_TYPE_CPU, DEVICE_TYPE_DISCRETE_GPU, DEVICE_TYPE_INTEGRATED_GPU, DEVICE_TYPE_VIRTUAL_GPU,
};
use gpu_info::{
    calculate_vram, decode_driver_version, detect_vendor, extract_gpu_info, lookup_registry_vram,
    map_physical_device, retrieve_gpu_info, retrieve_gpu_info_via_metal, retrieve_gpu_info_via_vk,
    vendor_from_id, Error, GPUKind, GPULocation, MaxThreadsPerThreadgroup, MemoryHeap,
    RawMetalDevice, RawVulkanDevice, RegistryEntry, VulkanEnumeration, GPU,
};

fn unified_device(name: &str, working_set: u64) -> RawMetalDevice {
    RawMetalDevice {
        name: name.to_string(),
        is_removable: false,
        is_headless: false,
        is_low_power: false,
        registry_id: 0x1000_0001,
        location: GPULocation::BuiltIn,
        has_unified_memory: true,
        max_threads_per_threadgroup: MaxThreadsPerThreadgroup {
            width: 1024,
            height: 1024,
            depth: 1024,
        },
        recommended_max_working_set: working_set,
        registry_properties: None,
    }
}

fn discrete_vk_device() -> RawVulkanDevice {
    RawVulkanDevice {
        name: Some("NVIDIA GeForce RTX 4090".to_string()),
        vendor_id: 0x10DE,
        driver_version: 0x0040_1000,
        device_type: DEVICE_TYPE_DISCRETE_GPU,
        memory_heaps: vec![
            MemoryHeap { size: 4_294_967_296, device_local: true },
            MemoryHeap { size: 1_073_741_824, device_local: false },
        ],
    }
}

#[test]
fn lib_test_retrieve_gpu_info() {
    let gpus = retrieve_gpu_info(vec![unified_device("Apple M2 Pro", 8_589_934_592)]).unwrap();
    println!("GPUs: {gpus:#?}");
    assert!(!gpus.is_empty());
}

#[test]
fn metal_test_retrieve_gpu_info() {
    println!(
        "retrieve_gpu_info_via_metal(), {:#?}",
        retrieve_gpu_info_via_metal(vec![unified_device("Apple M2 Pro", 8_589_934_592)])
    );
}

#[test]
fn test_retrieve_gpu_info_via_vk() {
    let result = retrieve_gpu_info_via_vk(VulkanEnumeration::Devices(vec![discrete_vk_device()]));
    println!("{:#?}", result);
    assert!(match result {
        Ok(gpus) => !gpus.is_empty(),
        Err(e) => e.is_vulkan_not_supported(),
    });
}

#[test]
fn vendor_heuristic_examples() {
    assert_eq!(detect_vendor("NVIDIA GeForce RTX 4090"), "NVIDIA");
    assert_eq!(detect_vendor("Apple M2 Pro"), "Apple");
    assert_eq!(detect_vendor("Some Unbranded Card"), "Unknown");
}

#[test]
fn vendor_heuristic_order() {
    assert_eq!(detect_vendor("Intel Iris Plus"), "Intel");
    assert_eq!(detect_vendor("AMD FirePro"), "AMD");
    assert_eq!(detect_vendor("Radeon Pro 560"), "AMD");
    assert_eq!(detect_vendor("M3 Max"), "Apple");
    assert_eq!(detect_vendor("Apple with Intel inside"), "Apple");
}

#[test]
fn driver_version_packed_decoding() {
    assert_eq!(decode_driver_version(0x0040_1000), "1.1.0");
    assert_eq!(decode_driver_version(0), "0.0.0");
    assert_eq!(decode_driver_version((123 << 22) | (456 << 12) | 789), "123.456.789");
}

#[test]
fn low_power_wins_over_removable() {
    let device = RawMetalDevice {
        is_low_power: true,
        is_removable: true,
        location: GPULocation::Slot,
        ..unified_device("Test GPU", 1 << 30)
    };
    let gpu = extract_gpu_info(&device).unwrap();
    assert_eq!(gpu.kind, GPUKind::Integrated);
}

#[test]
fn kind_classification_order() {
    let removable = RawMetalDevice {
        is_removable: true,
        location: GPULocation::External,
        ..unified_device("Test GPU", 0)
    };
    assert_eq!(extract_gpu_info(&removable).unwrap().kind, GPUKind::Discrete);

    let built_in = unified_device("Test GPU", 0);
    assert_eq!(extract_gpu_info(&built_in).unwrap().kind, GPUKind::Integrated);

    let slotted = RawMetalDevice { location: GPULocation::Slot, ..unified_device("Test GPU", 0) };
    assert_eq!(extract_gpu_info(&slotted).unwrap().kind, GPUKind::Discrete);
}

#[test]
fn metal_zero_devices_is_not_supported() {
    match retrieve_gpu_info_via_metal(vec![]) {
        Err(e) => assert!(e.is_not_supported()),
        Ok(_) => panic!("zero devices must not yield an empty success list"),
    }
    match retrieve_gpu_info(vec![]) {
        Err(Error::Metal(e)) => assert!(e.is_not_supported()),
        _ => panic!("zero devices must fail with the Metal error"),
    }
}

#[test]
fn vulkan_failure_modes() {
    match retrieve_gpu_info_via_vk(VulkanEnumeration::LoaderUnavailable) {
        Err(e) => assert!(e.is_vulkan_not_supported()),
        Ok(_) => panic!("a missing loader must fail"),
    }
    match retrieve_gpu_info_via_vk(VulkanEnumeration::OperationFailed("device lost".to_string())) {
        Err(e) => {
            assert!(!e.is_vulkan_not_supported());
            match e {
                Error::VulkanOperationFailed(m) => assert_eq!(m, "device lost"),
                _ => panic!("a native failure must surface as an operation failure"),
            }
        }
        Ok(_) => panic!("a native failure must fail"),
    }
    match retrieve_gpu_info_via_vk(VulkanEnumeration::Devices(vec![])) {
        Err(Error::VulkanOperationFailed(m)) => {
            assert_eq!(m, "No Vulkan-compatible GPUs found.");
        }
        _ => panic!("zero physical devices must be an operation failure"),
    }
}

#[test]
fn unified_memory_working_set_to_megabytes() {
    let gpus = retrieve_gpu_info(vec![unified_device("Apple M2 Pro", 8_589_934_592)]).unwrap();
    assert_eq!(gpus.len(), 1);
    assert_eq!(gpus[0].vram, 8192);
    assert_eq!(gpus[0].kind, GPUKind::Integrated);
    assert_eq!(gpus[0].vendor, "Apple");
    assert_eq!(gpus[0].name, "Apple M2 Pro");
    assert_eq!(gpus[0].driver_version, "Unknown");
    assert_eq!(gpus[0].clock_speed, None);
    assert_eq!(gpus[0].temperature, None);
}

#[test]
fn device_local_heaps_summed_to_megabytes() {
    let gpus =
        retrieve_gpu_info_via_vk(VulkanEnumeration::Devices(vec![discrete_vk_device()])).unwrap();
    assert_eq!(gpus.len(), 1);
    assert_eq!(gpus[0].vram, 4096);
    assert_eq!(gpus[0].kind, GPUKind::Discrete);
    assert_eq!(gpus[0].vendor, "NVIDIA");
    assert_eq!(gpus[0].name, "NVIDIA GeForce RTX 4090");
    assert_eq!(gpus[0].driver_version, "1.1.0");
}

#[test]
fn registry_lookup_key_priority() {
    let entries = vec![
        RegistryEntry { key: "VRAM".to_string(), numeric: Some(100) },
        RegistryEntry { key: "VRAM,totalMB".to_string(), numeric: Some(200) },
    ];
    assert_eq!(lookup_registry_vram(&Some(entries)), Some(200));
}

#[test]
fn registry_lookup_skips_non_numeric_keys() {
    let entries = vec![
        RegistryEntry { key: "VRAM,totalMB".to_string(), numeric: None },
        RegistryEntry { key: "VRAM,total".to_string(), numeric: Some(512) },
    ];
    assert_eq!(lookup_registry_vram(&Some(entries)), Some(512));
    assert_eq!(lookup_registry_vram(&None), None);
    assert_eq!(lookup_registry_vram(&Some(vec![])), None);
}

#[test]
fn discrete_vram_prefers_registry_value() {
    let with_value =
        Some(vec![RegistryEntry { key: "VRAM".to_string(), numeric: Some(24576) }]);
    assert_eq!(calculate_vram(false, 2_147_483_648, &with_value), 24576);
    assert_eq!(calculate_vram(false, 2_147_483_648, &None), 2048);
    let ignored =
        Some(vec![RegistryEntry { key: "VRAM,totalMB".to_string(), numeric: Some(999) }]);
    assert_eq!(calculate_vram(true, 2_147_483_648, &ignored), 2048);
}

#[test]
fn vram_zero_marks_unknown() {
    assert_eq!(calculate_vram(true, 0, &None), 0);
    assert_eq!(calculate_vram(false, 0, &None), 0);
    assert_ne!(calculate_vram(true, 8_589_934_592, &None), 0);
}

#[test]
fn absent_names_fall_back_to_unknown() {
    let nameless = extract_gpu_info(&unified_device("", 1 << 30)).unwrap();
    assert_eq!(nameless.name, "Unknown");
    assert_eq!(nameless.vendor, "Unknown");

    let undecodable = RawVulkanDevice {
        name: None,
        vendor_id: 7,
        driver_version: 0,
        device_type: 0,
        memory_heaps: vec![],
    };
    let gpu = map_physical_device(&undecodable);
    assert_eq!(gpu.name, "Unknown");
    assert_eq!(gpu.vendor, "Unknown");
    assert_eq!(gpu.kind, GPUKind::Unknown);
    assert_eq!(gpu.vram, 0);

    let empty_name = RawVulkanDevice { name: Some(String::new()), ..undecodable };
    assert_eq!(map_physical_device(&empty_name).name, "Unknown");
}

#[test]
fn vendor_ids() {
    assert_eq!(vendor_from_id(0x8086), "Intel");
    assert_eq!(vendor_from_id(0x10DE), "NVIDIA");
    assert_eq!(vendor_from_id(0x1002), "AMD");
    assert_eq!(vendor_from_id(0xABCD), "Unknown");
}

#[test]
fn vk_device_type_mapping() {
    let cases = [
        (DEVICE_TYPE_INTEGRATED_GPU, GPUKind::Integrated),
        (DEVICE_TYPE_DISCRETE_GPU, GPUKind::Discrete),
        (DEVICE_TYPE_VIRTUAL_GPU, GPUKind::Virtual),
        (DEVICE_TYPE_CPU, GPUKind::CPU),
        (0, GPUKind::Unknown),
        (99, GPUKind::Unknown),
    ];
    for (device_type, kind) in cases {
        let device = RawVulkanDevice { device_type, ..discrete_vk_device() };
        assert_eq!(map_physical_device(&device).kind, kind);
    }
}

#[test]
fn enumeration_idempotent_on_equal_environment() {
    let environment = || {
        vec![
            unified_device("Apple M2 Pro", 8_589_934_592),
            RawMetalDevice {
                is_removable: true,
                has_unified_memory: false,
                name: "AMD Radeon Pro 580".to_string(),
                registry_properties: Some(vec![RegistryEntry {
                    key: "VRAM,totalMB".to_string(),
                    numeric: Some(8192),
                }]),
                ..unified_device("AMD Radeon Pro 580", 4_294_967_296)
            },
        ]
    };
    let first = retrieve_gpu_info(environment()).unwrap();
    let second = retrieve_gpu_info(environment()).unwrap();
    assert_eq!(first.len(), second.len());
    for (a, b) in first.iter().zip(second.iter()) {
        assert_eq!(a.kind, b.kind);
        assert_eq!(a.vendor, b.vendor);
        assert_eq!(a.name, b.name);
    }
}

#[test]
fn metal_record_maps_to_descriptor() {
    let device = RawMetalDevice {
        is_removable: true,
        is_headless: true,
        has_unified_memory: false,
        location: GPULocation::External,
        registry_id: 0xBEEF,
        registry_properties: Some(vec![RegistryEntry {
            key: "VRAM,total".to_string(),
            numeric: Some(16384),
        }]),
        ..unified_device("AMD Radeon Pro 580", 4_294_967_296)
    };
    let records = retrieve_gpu_info_via_metal(vec![device]).unwrap();
    assert_eq!(records.len(), 1);
    assert_eq!(records[0].kind, GPUKind::Discrete);
    assert_eq!(records[0].vram, 16384);
    assert_eq!(records[0].registry_id, 0xBEEF);
    assert!(records[0].is_removable);
    assert!(records[0].is_headless);
    assert!(!records[0].has_unified_memory);
    assert_eq!(records[0].location, GPULocation::External);
    assert_eq!(records[0].recommended_max_working_set, 4_294_967_296);

    let gpu = GPU::from_metal(records.into_iter().next().unwrap());
    assert_eq!(gpu.kind, GPUKind::Discrete);
    assert_eq!(gpu.name, "AMD Radeon Pro 580");
    assert_eq!(gpu.vendor, "AMD");
    assert_eq!(gpu.driver_version, "Unknown");
    assert_eq!(gpu.vram, 16384);
    assert_eq!(gpu.clock_speed, None);
    assert_eq!(gpu.temperature, None);
}
