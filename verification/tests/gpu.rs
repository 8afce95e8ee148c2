use dreamcodec::gpu::{GpuAdapter, GpuDetector, GpuType};

fn names(list: &[&str]) -> Vec<String> {
    list.iter().map(|n| n.to_string()).collect()
}

#[test]
fn picks_discrete_gpu_above_integrated() {
    let names = vec![
        "Intel(R) UHD Graphics".to_string(),
        "NVIDIA GeForce GTX 1660 Ti".to_string(),
    ];

    let adapters = GpuDetector::build_adapters(names);
    let primary = GpuDetector::pick_primary_adapter(&adapters);
    assert_eq!(primary.map(|a| a.gpu_type), Some(GpuType::Nvidia));
}

#[test]
fn filters_virtual_adapters() {
    let names = vec![
        "Microsoft Basic Display Adapter".to_string(),
        "NVIDIA GeForce RTX 4060".to_string(),
    ];

    let adapters = GpuDetector::build_adapters(names);
    assert_eq!(adapters.len(), 1);
    assert_eq!(adapters[0].gpu_type, GpuType::Nvidia);
}

#[test]
fn preserves_identical_model_entries() {
    let names = vec![
        "NVIDIA GeForce RTX 4090".to_string(),
        "NVIDIA GeForce RTX 4090".to_string(),
    ];

    let adapters = GpuDetector::build_adapters(names);
    assert_eq!(adapters.len(), 2);
    assert_eq!(adapters[0].id, "gpu-0");
    assert_eq!(adapters[1].id, "gpu-1");
}

#[test]
fn virtual_adapter_keeps_its_number_out_of_use() {
    let adapters = GpuDetector::build_adapters(names(&[
        "VMware SVGA 3D",
        "",
        "   ",
        "AMD Radeon RX 7800 XT",
    ]));
    assert_eq!(adapters.len(), 1);
    assert_eq!(adapters[0].id, "gpu-1");
    assert_eq!(adapters[0].name, "AMD Radeon RX 7800 XT");
    assert_eq!(adapters[0].gpu_type, GpuType::Amd);
    assert!(!adapters[0].is_virtual);
}

#[test]
fn names_are_trimmed_before_use() {
    let cleaned = GpuDetector::cleaned_non_empty_names(names(&[
        "  Intel(R) Arc(TM) A770  ",
        "\t",
        "",
        "NVIDIA RTX A2000\r",
    ]));
    assert_eq!(cleaned, vec!["Intel(R) Arc(TM) A770".to_string(), "NVIDIA RTX A2000".to_string()]);
}

#[test]
fn virtual_marks_are_found_in_any_case() {
    for name in [
        "Microsoft Remote Display Adapter",
        "Citrix Indirect Display Adapter",
        "Parallels Display Adapter (WDDM)",
        "DisplayLink USB Device",
        "Oracle VirtualBox Graphics",
        "RDP Encoder Mirror Driver",
        "Dummy Plug",
        "XEN PV display",
    ] {
        assert!(GpuDetector::is_virtual_adapter(name), "{}", name);
    }
    assert!(!GpuDetector::is_virtual_adapter("NVIDIA GeForce RTX 4060"));
    assert!(!GpuDetector::is_virtual_adapter("Intel(R) UHD Graphics 630"));
}

#[test]
fn vendor_is_read_off_the_name() {
    assert_eq!(GpuDetector::classify_gpu_name("nvidia geforce gtx 1080"), GpuType::Nvidia);
    assert_eq!(GpuDetector::classify_gpu_name("Quadro RTX 5000"), GpuType::Nvidia);
    assert_eq!(GpuDetector::classify_gpu_name("AMD Radeon(TM) Graphics"), GpuType::Amd);
    assert_eq!(GpuDetector::classify_gpu_name("Radeon Pro W5700"), GpuType::Amd);
    assert_eq!(GpuDetector::classify_gpu_name("Intel(R) Iris(R) Xe Graphics"), GpuType::Intel);
    assert_eq!(GpuDetector::classify_gpu_name("Intel(R) Arc(TM) A770"), GpuType::Intel);
    assert_eq!(GpuDetector::classify_gpu_name("Intel Management Engine"), GpuType::Unknown);
    assert_eq!(GpuDetector::classify_gpu_name("Matrox G200"), GpuType::Unknown);
}

#[test]
fn vendor_of_upper_wants_upper_case() {
    assert_eq!(GpuDetector::vendor_of_upper("NVIDIA GEFORCE"), GpuType::Nvidia);
    assert_eq!(GpuDetector::vendor_of_upper("nvidia geforce"), GpuType::Unknown);
}

#[test]
fn integrated_graphics_are_recognised() {
    assert!(GpuDetector::is_likely_integrated("Intel(R) UHD Graphics"));
    assert!(GpuDetector::is_likely_integrated("Intel(R) HD Graphics 4000"));
    assert!(GpuDetector::is_likely_integrated("AMD Radeon Graphics"));
    assert!(GpuDetector::is_likely_integrated("AMD Ryzen APU"));
    assert!(!GpuDetector::is_likely_integrated("NVIDIA GeForce RTX 4090"));
    assert!(!GpuDetector::is_likely_integrated("AMD Radeon RX 6800"));
}

#[test]
fn priority_adds_vendor_series_and_penalty() {
    assert_eq!(GpuDetector::gpu_priority("NVIDIA GeForce RTX 4090", GpuType::Nvidia), 360);
    assert_eq!(GpuDetector::gpu_priority("NVIDIA GeForce GTX 1660 Ti", GpuType::Nvidia), 340);
    assert_eq!(GpuDetector::gpu_priority("AMD Radeon RX 6800", GpuType::Amd), 285);
    assert_eq!(GpuDetector::gpu_priority("AMD Radeon Graphics", GpuType::Amd), 195);
    assert_eq!(GpuDetector::gpu_priority("Intel(R) Arc(TM) A770", GpuType::Intel), 210);
    assert_eq!(GpuDetector::gpu_priority("Intel(R) UHD Graphics", GpuType::Intel), 125);
    assert_eq!(GpuDetector::gpu_priority("Intel(R) Iris(R) Xe Graphics", GpuType::Intel), 125);
    assert_eq!(GpuDetector::gpu_priority("Matrox G200", GpuType::Unknown), 100);
    assert_eq!(GpuDetector::gpu_priority("", GpuType::NoGpu), 0);
    assert_eq!(GpuDetector::gpu_priority("UHD", GpuType::NoGpu), -55);
}

#[test]
fn of_equal_ranks_the_last_adapter_is_primary() {
    let adapters = GpuDetector::build_adapters(names(&[
        "NVIDIA GeForce RTX 4090",
        "Intel(R) UHD Graphics",
        "NVIDIA GeForce RTX 4080",
    ]));
    let primary = GpuDetector::pick_primary_adapter(&adapters).expect("three adapters");
    assert_eq!(primary.id, "gpu-2");
    let none: Vec<GpuAdapter> = Vec::new();
    assert!(GpuDetector::pick_primary_adapter(&none).is_none());
}

#[test]
fn host_description_follows_the_primary_adapter() {
    let info = GpuDetector::describe_host(
        names(&["Intel(R) UHD Graphics 770", "Microsoft Basic Render Driver", "AMD Radeon RX 7600"]),
        GpuDetector::get_default_encoders(),
    );
    assert!(info.detected);
    assert_eq!(info.gpu_type, GpuType::Amd);
    assert_eq!(info.name, "AMD Radeon RX 7600");
    assert_eq!(info.primary_adapter_id.as_deref(), Some("gpu-2"));
    assert_eq!(info.adapters.len(), 2);
    assert_eq!(info.available_encoders.len(), 8);

    let empty = GpuDetector::describe_host(Vec::new(), Vec::new());
    assert!(!empty.detected);
    assert_eq!(empty.gpu_type, GpuType::NoGpu);
    assert_eq!(empty.name, "");
    assert!(empty.primary_adapter_id.is_none());
    assert!(empty.adapters.is_empty());
}

#[test]
fn adapter_listings_are_read() {
    let csv = "\r\nNode,DeviceID,Name\r\nDESKTOP,VideoController1,NVIDIA GeForce RTX 4060 \r\nDESKTOP,VideoController2, Intel(R) UHD Graphics 770\r\n\r\nDESKTOP,short\r\nDESKTOP,x,a,b\r\n  \r\n";
    assert_eq!(
        GpuDetector::names_from_listing(csv),
        vec!["NVIDIA GeForce RTX 4060", "Intel(R) UHD Graphics 770", "a"]
    );
    assert_eq!(GpuDetector::name_from_row("Node,DeviceID,Name"), None);
    assert_eq!(GpuDetector::name_from_row("  Nodes,1,x"), None);
    assert_eq!(GpuDetector::name_from_row("a,b"), None);
    assert_eq!(GpuDetector::name_from_row(""), None);
    assert_eq!(GpuDetector::name_from_row("a,b,,d"), Some(String::new()));
    assert_eq!(GpuDetector::name_from_row("a,b, c d "), Some("c d".to_string()));
    assert!(GpuDetector::names_from_listing("").is_empty());

    assert_eq!(
        GpuDetector::names_from_lines(" NVIDIA Corporation AD106 \n\nAdvanced Micro Devices [AMD/ATI] Raphael\n"),
        vec!["NVIDIA Corporation AD106", "", "Advanced Micro Devices [AMD/ATI] Raphael"]
    );
    assert!(GpuDetector::names_from_lines("").is_empty());
}
