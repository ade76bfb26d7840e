use vm_compatibility_tool::commands::system_info::{
    collect_boot_info, collect_cpu_info, collect_disk_info, collect_gpu_info, collect_memory_info,
    collect_motherboard_info, collect_os_info, collect_power_info, compute_uptime, format_uptime,
    parse_wmi_datetime,
};
use vm_compatibility_tool::models::system_info::SystemInfoItem;
use vm_compatibility_tool::services::disk_service::{
    detect_from_model_name, media_type_to_disk_type, DiskType,
};
use vm_compatibility_tool::services::registry_service::{
    architecture_label, edition_label, get_windows_version, install_date_label,
    install_language_label, webview2_installed, CurrentVersionValues, WindowsVersionInfo,
};
use vm_compatibility_tool::services::wmi_service::{
    MsftPhysicalDisk, Win32BaseBoard, Win32ComputerSystem, Win32DiskDrive, Win32OperatingSystem,
    Win32PowerPlan, Win32Processor, Win32VideoController,
};

fn rows(items: &[SystemInfoItem]) -> Vec<(String, String, String)> {
    items
        .iter()
        .map(|i| (i.category.clone(), i.item.clone(), i.value.clone()))
        .collect()
}

fn r(a: &str, b: &str, c: &str) -> (String, String, String) {
    (a.to_string(), b.to_string(), c.to_string())
}

#[test]
fn cpu_rows_come_from_the_first_processor() {
    let cpu = Win32Processor {
        name: "Intel Core".to_string(),
        number_of_cores: 8,
        number_of_logical_processors: 16,
        max_clock_speed: 3600,
        manufacturer: "GenuineIntel".to_string(),
        virtualization_firmware_enabled: false,
    };
    let mut items = Vec::new();
    collect_cpu_info(&mut items, &Ok(vec![cpu]));
    assert_eq!(
        rows(&items),
        vec![
            r("프로세서", "모델", "Intel Core"),
            r("프로세서", "제조사", "GenuineIntel"),
            r("프로세서", "코어 수", "8"),
            r("프로세서", "논리 프로세서", "16"),
            r("프로세서", "최대 클럭", "3600 MHz"),
            r("프로세서", "하드웨어 가상화", "비활성화됨"),
        ]
    );
}

#[test]
fn cpu_query_error_becomes_an_error_row() {
    let mut items = Vec::new();
    collect_cpu_info(&mut items, &Err("Windows 전용 기능".to_string()));
    assert_eq!(rows(&items), vec![r("프로세서", "오류", "Windows 전용 기능")]);
    let mut none = Vec::new();
    collect_cpu_info(&mut none, &Ok(vec![]));
    assert!(none.is_empty());
}

#[test]
fn memory_rows_show_total_maker_and_free_mebibytes() {
    let sys = Win32ComputerSystem {
        total_physical_memory: 17_179_869_184,
        manufacturer: "LENOVO".to_string(),
        model: "X1".to_string(),
    };
    let os = Win32OperatingSystem {
        last_boot_up_time: String::new(),
        free_physical_memory: 4_194_304,
    };
    let mut items = Vec::new();
    collect_memory_info(&mut items, &Ok(vec![sys]), "16.0 GB", &Ok(vec![os]));
    assert_eq!(
        rows(&items),
        vec![
            r("메모리", "총 용량", "16.0 GB"),
            r("메모리", "제조사", "LENOVO"),
            r("메모리", "가용 용량", "4096 MB"),
        ]
    );
    let mut failed = Vec::new();
    collect_memory_info(&mut failed, &Err("x".to_string()), "", &Err("y".to_string()));
    assert_eq!(rows(&failed), vec![r("메모리", "오류", "x")]);
}

#[test]
fn motherboard_placeholder_serials_are_hidden() {
    let board = |sn: Option<&str>| Win32BaseBoard {
        manufacturer: "ASUS".to_string(),
        product: "PRIME".to_string(),
        serial_number: sn.map(|s| s.to_string()),
    };
    let mut items = Vec::new();
    collect_motherboard_info(&mut items, &Ok(vec![board(Some("  ABC123 "))]));
    assert_eq!(items.len(), 3);
    assert_eq!(items[2].value, "ABC123");
    for placeholder in ["Default string", "To Be Filled By O.E.M.", "   "] {
        let mut items = Vec::new();
        collect_motherboard_info(&mut items, &Ok(vec![board(Some(placeholder))]));
        assert_eq!(items.len(), 2);
    }
}

#[test]
fn disks_are_numbered_and_usb_wins_over_wmi() {
    let drives = vec![
        Win32DiskDrive {
            model: "Samsung SSD 980 PRO".to_string(),
            size: Some(1_000_000_000_000),
            interface_type: Some("SCSI".to_string()),
        },
        Win32DiskDrive {
            model: "SanDisk Ultra".to_string(),
            size: None,
            interface_type: Some("USB".to_string()),
        },
    ];
    let physical = vec![
        MsftPhysicalDisk { friendly_name: "a".to_string(), media_type: Some(0), bus_type: None },
        MsftPhysicalDisk { friendly_name: "b".to_string(), media_type: Some(3), bus_type: None },
    ];
    let labels = vec!["1.0 TB".to_string(), "".to_string()];
    let mut items = Vec::new();
    collect_disk_info(&mut items, &Ok(drives), &Ok(physical), &labels);
    assert_eq!(
        rows(&items),
        vec![
            r("디스크 1", "모델", "Samsung SSD 980 PRO"),
            r("디스크 1", "용량", "1.0 TB"),
            r("디스크 1", "인터페이스", "SCSI"),
            r("디스크 1", "타입", &DiskType::SsdNvme.to_string()),
            r("디스크 2", "모델", "SanDisk Ultra"),
            r("디스크 2", "인터페이스", "USB"),
            r("디스크 2", "타입", "USB 저장장치"),
        ]
    );
}

#[test]
fn no_disk_and_failed_query_rows() {
    let mut items = Vec::new();
    collect_disk_info(&mut items, &Ok(vec![]), &Err("ignored".to_string()), &[]);
    assert_eq!(rows(&items), vec![r("디스크", "상태", "디스크를 찾을 수 없습니다")]);
    let mut failed = Vec::new();
    collect_disk_info(&mut failed, &Err("boom".to_string()), &Ok(vec![]), &[]);
    assert_eq!(rows(&failed), vec![r("디스크", "오류", "boom")]);
}

#[test]
fn single_gpu_has_plain_label_and_skips_zero_memory() {
    let gpu = Win32VideoController {
        name: "NVIDIA".to_string(),
        adapter_ram: Some(0),
        driver_version: Some("31.0".to_string()),
    };
    let mut items = Vec::new();
    collect_gpu_info(&mut items, &Ok(vec![gpu]), &["0 MB".to_string()]);
    assert_eq!(
        rows(&items),
        vec![r("GPU", "모델", "NVIDIA"), r("GPU", "드라이버 버전", "31.0")]
    );
    let mut none = Vec::new();
    collect_gpu_info(&mut none, &Ok(vec![]), &[]);
    assert_eq!(rows(&none), vec![r("GPU", "상태", "GPU를 찾을 수 없습니다")]);
}

#[test]
fn power_plans_mark_the_active_one() {
    let plan = |name: &str, active: Option<bool>| Win32PowerPlan {
        element_name: name.to_string(),
        is_active: active,
    };
    let plans = vec![plan("균형 조정", Some(true)), plan("고성능", None), plan("절전", Some(false))];
    let mut items = Vec::new();
    collect_power_info(&mut items, &Ok(plans));
    assert_eq!(
        rows(&items),
        vec![
            r("전원", "현재 전원 관리 옵션", "균형 조정"),
            r("전원", "등록된 전원 계획", "균형 조정 (현재), 고성능, 절전"),
        ]
    );
    let mut none = Vec::new();
    collect_power_info(&mut none, &Ok(vec![]));
    assert_eq!(rows(&none), vec![r("전원", "상태", "전원 계획을 찾을 수 없습니다")]);
}

#[test]
fn wmi_datetimes_are_reformatted_or_kept() {
    assert_eq!(parse_wmi_datetime("20240102030405.000000+540"), "2024-01-02 03:04:05");
    assert_eq!(parse_wmi_datetime("2024"), "2024");
    assert_eq!(parse_wmi_datetime("2024xx02030405.000000"), "2024xx02030405.000000");
    assert_eq!(parse_wmi_datetime("가나다라1234"), "가나다라1234");
}

#[test]
fn uptime_is_days_hours_minutes() {
    assert_eq!(format_uptime(90_061), "1일 1시간 1분");
    assert_eq!(format_uptime(-90_061), "-1일 1시간 1분");
    assert_eq!(format_uptime(59), "0일 0시간 0분");
    assert_eq!(compute_uptime("short"), "알 수 없음");
    assert_eq!(compute_uptime("notadate000000.0"), "알 수 없음");
    let up = compute_uptime("20000101000000.000000+000");
    assert!(up.ends_with('분') && up.contains("일 ") && up.contains("시간 "));
}

#[test]
fn boot_rows_use_the_first_operating_system() {
    let os = Win32OperatingSystem {
        last_boot_up_time: "20240102030405.000000+540".to_string(),
        free_physical_memory: 0,
    };
    let mut items = Vec::new();
    collect_boot_info(&mut items, &Ok(vec![os]));
    assert_eq!(items.len(), 2);
    assert_eq!(items[0].value, "2024-01-02 03:04:05");
    assert_eq!(items[1].item, "가동 시간");
    let mut failed = Vec::new();
    collect_boot_info(&mut failed, &Err("denied".to_string()));
    assert_eq!(rows(&failed), vec![r("부팅", "오류", "denied")]);
}

fn values(build: &str, display: &str) -> Option<CurrentVersionValues> {
    Some(CurrentVersionValues {
        product_name: Some("Windows 10 Pro".to_string()),
        display_version: Some(display.to_string()),
        current_build: Some(build.to_string()),
        ubr: Some(4317),
    })
}

#[test]
fn windows_version_from_build_number() {
    let v = get_windows_version(values("26100", "23H2"));
    assert_eq!(v.os_name, "Windows 11");
    assert_eq!(v.display_version, "24H2");
    let v = get_windows_version(values("22631", "23H2"));
    assert_eq!((v.os_name.as_str(), v.display_version.as_str()), ("Windows 11", "23H2"));
    let v = get_windows_version(values("19045", "22H2"));
    assert_eq!(v.os_name, "Windows 10");
    let v = get_windows_version(values("abc", "x"));
    assert_eq!((v.os_name.as_str(), v.build_number.as_str()), ("Windows", "abc"));
    let u = get_windows_version(None);
    assert_eq!(u.os_name, "알 수 없음");
    assert_eq!(u.build_number, "0");
    let u2 = WindowsVersionInfo::unknown();
    assert_eq!(u2.display_version, "알 수 없음");
}

#[test]
fn os_rows_join_build_and_update_revision() {
    let v = get_windows_version(values("22631", "23H2"));
    let mut items = Vec::new();
    collect_os_info(&mut items, &v, "x64 (AMD64)", "2023-11-14", "한국어");
    assert_eq!(items.len(), 7);
    assert_eq!(items[2].value, "22631.4317");
    assert_eq!(items[3].value, "Windows 11 Pro");
    assert_eq!(items[4].value, "x64 (AMD64)");
}

#[test]
fn edition_architecture_and_language_labels() {
    assert_eq!(edition_label("Windows 11", "Windows 10 Pro"), "Windows 11 Pro");
    assert_eq!(edition_label("Windows 10", "Windows 10 Enterprise"), "Windows 10 Enterprise");
    assert_eq!(edition_label("Windows", "Windows 8.1 Pro"), "Windows 8.1 Pro");
    assert_eq!(architecture_label(Some("AMD64")), "x64 (AMD64)");
    assert_eq!(architecture_label(Some("ARM64")), "ARM64");
    assert_eq!(architecture_label(Some("x86")), "x86 (32비트)");
    assert_eq!(architecture_label(Some("IA64")), "IA64");
    assert_eq!(architecture_label(None), "알 수 없음");
    assert_eq!(install_language_label(Some("0412"), None), "한국어");
    assert_eq!(install_language_label(Some(" "), Some("0409")), "영어 (미국)");
    assert_eq!(install_language_label(None, Some("0804")), "중국어 (간체)");
    assert_eq!(install_language_label(Some("0407"), None), "0407");
    assert_eq!(install_language_label(None, None), "알 수 없음");
    assert_eq!(install_date_label(None), "알 수 없음");
    let d = install_date_label(Some(1_700_000_000));
    assert_eq!(d.len(), 10);
    assert!(d.starts_with("2023-11-1"));
    for secs in [0, u32::MAX] {
        let d = install_date_label(Some(secs));
        let b = d.as_bytes();
        assert_eq!(b.len(), 10);
        assert!(b[4] == b'-' && b[7] == b'-');
        assert!(b.iter().enumerate().all(|(i, c)| i == 4 || i == 7 || c.is_ascii_digit()));
    }
}

#[test]
fn webview2_needs_a_real_version() {
    assert!(!webview2_installed(&[None, Some(String::new()), Some("0.0.0.0".to_string())]));
    assert!(webview2_installed(&[None, Some("120.0.2210.91".to_string())]));
}

#[test]
fn model_names_are_matched_without_regard_to_case() {
    assert_eq!(detect_from_model_name("samsung 980 pro"), DiskType::SsdNvme);
    assert_eq!(detect_from_model_name("crucial mx500"), DiskType::Ssd);
    assert_eq!(detect_from_model_name("wdc wd10ezex 7200rpm"), DiskType::Hdd);
    assert_eq!(detect_from_model_name("Generic Storage"), DiskType::Unknown);
    assert_eq!(media_type_to_disk_type(4, Some(17)), DiskType::SsdNvme);
    assert_eq!(media_type_to_disk_type(4, None), DiskType::Ssd);
    assert_eq!(media_type_to_disk_type(3, None), DiskType::Hdd);
    assert_eq!(media_type_to_disk_type(0, None), DiskType::Unknown);
    assert_eq!(DiskType::Usb.to_string(), "USB 저장장치");
}
