use vm_compatibility_tool::commands::system_info::{
    collect_power_reference_info, collect_security_hook_info, collect_windows_update_info,
};
use vm_compatibility_tool::commands::virtualization::{
    check_hardware_virtualization, check_hypervisor_launch, check_hyperv_status,
    check_organization_control, check_registry_manifest_status, check_whfb_disableable,
    check_windows_hello_status, detect_organization_control, detect_whfb_type, enrollment_key_path,
    has_mdm_corporate_enrollment,
};
use vm_compatibility_tool::models::virtualization::{DisableGroup, VirtualizationKind, VirtualizationSource};
use vm_compatibility_tool::services::event_log_service::collect_event_log_info;
use vm_compatibility_tool::services::installed_program_service::{distinguished_name_value, is_guid_like};
use vm_compatibility_tool::services::process_service::{
    get_hypervisor_launch_type, get_vsm_launch_type, ProcessResult,
};
use vm_compatibility_tool::services::registry_manifest::{
    all_manifest_entries, resolve_entry_paths, RegistryAction,
};
use vm_compatibility_tool::services::wmi_service::Win32Processor;

fn pr(success: bool, stdout: &str, stderr: &str) -> ProcessResult {
    ProcessResult {
        success,
        stdout: stdout.to_string(),
        stderr: stderr.to_string(),
        exit_code: if success { 0 } else { 1 },
    }
}

#[test]
fn hardware_virtualization_row() {
    let cpu = Win32Processor {
        name: "AMD Ryzen".to_string(),
        number_of_cores: 8,
        number_of_logical_processors: 16,
        max_clock_speed: 4000,
        manufacturer: "AMD".to_string(),
        virtualization_firmware_enabled: false,
    };
    let mut items = Vec::new();
    check_hardware_virtualization(&mut items, &Ok(vec![cpu]));
    assert_eq!(items[0].status, "비활성화됨");
    assert_eq!(items[0].details, "CPU: AMD Ryzen");
    assert_eq!(items[0].recommendation, "BIOS/UEFI에서 가상화 옵션을 활성화하세요");
    assert_eq!(items[0].source_type, VirtualizationSource::Wmi);
    let mut failed = Vec::new();
    check_hardware_virtualization(&mut failed, &Err("Windows 전용 기능".to_string()));
    assert_eq!(failed[0].status, "확인 불가");
    assert!(failed[0].unknown);
}

#[test]
fn hyperv_rows_mark_enabled_features_for_action() {
    let mut items = Vec::new();
    check_hyperv_status(
        &mut items,
        &pr(true, "State : Enabled\r\n", ""),
        &pr(false, "", "Access denied"),
    );
    assert_eq!(items.len(), 2);
    assert_eq!(items[0].status, "설치됨 (활성)");
    assert!(items[0].action_required);
    assert_eq!(items[0].disable_group, Some(DisableGroup::Hyperv));
    assert_eq!(items[1].status, "확인 불가");
    assert_eq!(items[1].details, "Access denied");
    assert!(items[1].unknown && !items[1].action_required);
}

#[test]
fn launch_types_read_from_bcdedit() {
    let ok = Ok(pr(true, "hypervisorlaunchtype    Auto\nvsmlaunchtype Off\n", ""));
    assert_eq!(get_hypervisor_launch_type(&ok), "Auto");
    assert_eq!(get_vsm_launch_type(&ok), "Off");
    let missing = Ok(pr(true, "identifier {current}\n", ""));
    assert_eq!(get_hypervisor_launch_type(&missing), "확인 불가");
    assert_eq!(get_vsm_launch_type(&missing), "미설정");
    assert_eq!(get_hypervisor_launch_type(&Err("not found".to_string())), "오류: not found");
    assert_eq!(get_hypervisor_launch_type(&Ok(pr(false, "", " denied "))), "오류: denied");
    let mut items = Vec::new();
    check_hypervisor_launch(&mut items, "Auto");
    assert!(items[0].action_required);
    assert_eq!(items[0].details, "bcdedit hypervisorlaunchtype: Auto");
}

#[test]
fn registry_rows_follow_the_manifest() {
    let entries = all_manifest_entries();
    let outcomes: Vec<Vec<Result<Option<u32>, String>>> = entries
        .iter()
        .map(|e| resolve_entry_paths(e).iter().map(|_| Ok(None)).collect())
        .collect();
    let mut items = Vec::new();
    check_registry_manifest_status(&mut items, &outcomes);
    assert_eq!(items.len(), entries.len());
    assert!(items.iter().all(|i| !i.action_required && !i.unknown));
    assert_eq!(items[0].status, "미설정");
    assert_eq!(items[0].manifest_id.as_deref(), Some(entries[0].id));
    for (item, entry) in items.iter().zip(entries.iter()) {
        assert_eq!(item.manifest_id.as_deref(), Some(entry.id));
        if entry.action == RegistryAction::ExcludedLegacy {
            assert_eq!(item.status, "미설정 (참고)");
            assert_eq!(item.recommendation, "참고용 항목");
            assert!(!item.optional_action_available);
        }
    }
    let legacy = entries.iter().position(|e| e.id == "legacy.enable_secure_launch").unwrap();
    let mut outcomes = outcomes;
    outcomes[legacy] = vec![Ok(Some(1)); outcomes[legacy].len()];
    let mut items = Vec::new();
    check_registry_manifest_status(&mut items, &outcomes);
    assert_eq!(items[legacy].status, "활성화됨 (참고)");
    assert!(!items[legacy].action_required);
    assert!(items[legacy].optional_action_available);
}

#[test]
fn manifest_holds_the_lsa_protection_and_secure_launch_entries() {
    let entries = all_manifest_entries();
    let find = |id: &str| entries.iter().find(|e| e.id == id).copied().unwrap();
    let ppl = find("vbs.run_as_ppl");
    assert_eq!((ppl.path, ppl.value_name), (r"SYSTEM\CurrentControlSet\Control\Lsa", "RunAsPPL"));
    assert_eq!(ppl.action, RegistryAction::InspectOnly);
    let ppl_boot = find("vbs.run_as_ppl_boot");
    assert_eq!(ppl_boot.value_name, "RunAsPPLBoot");
    assert_eq!(ppl_boot.path, r"SYSTEM\CurrentControlSet\Control\Lsa");
    assert_eq!(ppl_boot.action, RegistryAction::InspectOnly);
    let launch = find("legacy.enable_secure_launch");
    assert_eq!(launch.value_name, "EnableSecureLaunch");
    assert_eq!(launch.path, r"SYSTEM\CurrentControlSet\Control\DeviceGuard");
    assert_eq!(launch.action, RegistryAction::ExcludedLegacy);
}

#[test]
fn windows_hello_and_organization_warnings() {
    let mdm = has_mdm_corporate_enrollment(&[None, Some(6)]);
    assert!(mdm);
    assert!(!has_mdm_corporate_enrollment(&[Some(1), None]));
    assert_eq!(enrollment_key_path("ABC"), "SOFTWARE\\Microsoft\\Enrollments\\ABC");
    assert_eq!(detect_whfb_type(true, Some(1), false), Some("GPO/MDM 정책 적용".to_string()));
    assert_eq!(detect_whfb_type(true, None, false), Some("Azure AD 조인".to_string()));
    assert_eq!(detect_whfb_type(false, None, false), None);
    let (can, reason) = check_whfb_disableable(None, true);
    assert!(!can);
    assert_eq!(reason, "기업 MDM 관리 기기 — IT 관리자 확인 필요");
    let mut items = Vec::new();
    check_windows_hello_status(&mut items, true, &Some("MDM 등록".to_string()), &(true, String::new()));
    assert_eq!(items.len(), 1);
    assert_eq!(items[0].status, "WHfB 활성 — 해제 가능");
    assert_eq!(items[0].kind, Some(VirtualizationKind::WhfbWarning));
    let mut none = Vec::new();
    check_windows_hello_status(&mut none, false, &Some("MDM 등록".to_string()), &(true, String::new()));
    assert!(none.is_empty());
    let control = detect_organization_control(true, true);
    assert_eq!(control, (true, "Azure AD 조인 + MDM 등록".to_string()));
    let mut org = Vec::new();
    check_organization_control(&mut org, &control);
    assert_eq!(org[0].status, "감지됨 — Azure AD 조인 + MDM 등록");
    let mut unmanaged = Vec::new();
    check_organization_control(&mut unmanaged, &detect_organization_control(false, false));
    assert!(unmanaged.is_empty());
}

#[test]
fn script_outputs_become_rows() {
    let mut items = Vec::new();
    collect_power_reference_info(&mut items, &pr(true, "a\tb\tc\r\nbroken\n", ""));
    assert_eq!(items.len(), 1);
    assert_eq!((items[0].category.as_str(), items[0].item.as_str(), items[0].value.as_str()), ("a", "b", "c"));
    let mut failed = Vec::new();
    collect_power_reference_info(&mut failed, &pr(false, "  ", ""));
    assert_eq!(failed[0].value, "전원 참고 정보 수집 실패");

    let mut updates = Vec::new();
    collect_windows_update_info(&mut updates, &pr(true, "2026-03-15|KB5034441\n\n", ""));
    assert_eq!(updates.len(), 1);
    assert_eq!((updates[0].item.as_str(), updates[0].value.as_str()), ("KB5034441", "2026-03-15"));
    let mut none = Vec::new();
    collect_windows_update_info(&mut none, &pr(true, "", ""));
    assert_eq!(none[0].value, "업데이트 기록 없음");

    let mut hooks = Vec::new();
    collect_security_hook_info(&mut hooks, &pr(true, "", ""));
    assert_eq!(hooks[0].value, "미감지");

    let mut events = Vec::new();
    collect_event_log_info(&mut events, &pr(false, "", "failed"));
    assert!(!events.is_empty());
}

#[test]
fn appx_helpers() {
    assert!(is_guid_like("1527c705-839a-4832-9118-54d4Bd6a0c89"));
    assert!(!is_guid_like("Microsoft.WindowsCalculator"));
    assert_eq!(
        distinguished_name_value("CN=Microsoft Corporation, O=Microsoft Corporation", "O"),
        Some("Microsoft Corporation".to_string())
    );
    assert_eq!(distinguished_name_value("plain", "CN"), None);
}
