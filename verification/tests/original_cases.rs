use vm_compatibility_tool::commands::system_info::parse_power_reference_line;
use vm_compatibility_tool::commands::virtualization::{
    feature_state, registry_inspect_status, FeatureState, RegistryRead,
};
use vm_compatibility_tool::models::virtualization::DisableGroup;
use vm_compatibility_tool::services::csv_service::escape_field;
use vm_compatibility_tool::services::installed_program_service::{
    normalize_appx_publisher, normalize_install_date, should_skip_appx_name,
};
use vm_compatibility_tool::services::process_service::{
    disable_feature_args, feature_state_args, parse_bcdedit_value, parse_dism_feature_state,
    wrap_powershell_script, ProcessResult,
};
use vm_compatibility_tool::services::registry_manifest::{
    all_manifest_entries, disable_write_entries, inspect_entries, resolve_entry_paths,
    RegistryAction, RegistryHiveSet,
};

fn owned(a: &str, b: &str, c: &str) -> Option<(String, String, String)> {
    Some((a.to_string(), b.to_string(), c.to_string()))
}

#[test]
fn power_reference_line_parses_tsv() {
    assert_eq!(
        parse_power_reference_line("전원 참고\tUSB 선택적 절전\tAC: 사용 / DC: 사용 안 함"),
        owned("전원 참고", "USB 선택적 절전", "AC: 사용 / DC: 사용 안 함")
    );
}

#[test]
fn power_reference_line_preserves_tabs_after_value_split() {
    assert_eq!(
        parse_power_reference_line("전원 관리 장치\tUSB Root Hub\t허용\t추가"),
        owned("전원 관리 장치", "USB Root Hub", "허용\t추가")
    );
}

#[test]
fn power_reference_line_ignores_incomplete_rows() {
    assert_eq!(parse_power_reference_line("전원 참고\t"), None);
    assert_eq!(parse_power_reference_line(""), None);
}

fn process_result(success: bool, stdout: &str, stderr: &str) -> ProcessResult {
    ProcessResult {
        success,
        stdout: stdout.to_string(),
        stderr: stderr.to_string(),
        exit_code: if success { 0 } else { 1 },
    }
}

#[test]
fn feature_state_detects_enabled_dism_output() {
    let result = process_result(true, "Feature Name : Example\r\nState : Enabled\r\n", "");
    assert!(matches!(feature_state(&result), FeatureState::Enabled));
}

#[test]
fn feature_state_preserves_dism_failure_as_unknown() {
    let result = process_result(false, "", "Access denied");
    match feature_state(&result) {
        FeatureState::Unknown(message) => assert_eq!(message, "Access denied"),
        _ => panic!("DISM failure must not be reported as disabled"),
    }
}

#[test]
fn feature_state_rejects_unexpected_success_output() {
    let result = process_result(true, "The operation completed successfully.", "");
    assert!(matches!(feature_state(&result), FeatureState::Unknown(_)));
}

#[test]
fn registry_read_errors_are_not_reported_as_missing() {
    let values = vec![RegistryRead {
        value: None,
        error: Some("Access denied".to_string()),
        detail: "Example = <확인 불가>".to_string(),
    }];

    assert_eq!(registry_inspect_status(&values), "확인 불가");
}

#[test]
fn spreadsheet_formula_prefixes_are_neutralized() {
    assert_eq!(escape_field("=1+1"), "'=1+1");
    assert_eq!(escape_field("  @SUM(A1:A2)"), "'  @SUM(A1:A2)");
}

#[test]
fn csv_delimiters_and_quotes_are_escaped() {
    assert_eq!(escape_field("a,b"), "\"a,b\"");
    assert_eq!(escape_field("a\"b"), "\"a\"\"b\"");
}

#[test]
fn ordinary_text_is_unchanged() {
    assert_eq!(escape_field("Windows 11"), "Windows 11");
}

#[test]
fn normalizes_registry_install_date() {
    assert_eq!(normalize_install_date("20260427"), "2026-04-27");
}

#[test]
fn leaves_unknown_install_date_as_is() {
    assert_eq!(normalize_install_date(""), "");
    assert_eq!(normalize_install_date("2026-04-27"), "2026-04-27");
}

#[test]
fn skips_internal_appx_package_names() {
    assert!(should_skip_appx_name("1527c705-839a-4832-9118-54d4Bd6a0c89"));
    assert!(should_skip_appx_name("MicrosoftWindows.Client.CBS"));
    assert!(should_skip_appx_name("Microsoft.Windows.ShellExperienceHost"));
    assert!(!should_skip_appx_name("Microsoft.WindowsCalculator"));
    assert!(!should_skip_appx_name("Notepad++"));
}

#[test]
fn normalizes_appx_distinguished_name_publishers() {
    assert_eq!(
        normalize_appx_publisher(
            "CN=Microsoft Corporation, O=Microsoft Corporation, L=Redmond, S=Washington, C=US"
        ),
        "Microsoft Corporation"
    );
    assert_eq!(
        normalize_appx_publisher("CN=\"Notepad++\", O=\"Notepad++\", L=Saint Cloud"),
        "Notepad++"
    );
    assert_eq!(normalize_appx_publisher("CN=33F0F141-36F3-4EC2-A77D-51B53D0BA0E4"), "");
}

#[test]
fn dism_feature_commands_force_english_output() {
    assert_eq!(feature_state_args("Example").first().unwrap(), "/English");
    assert_eq!(disable_feature_args("Example").first().unwrap(), "/English");
}

#[test]
fn dism_feature_state_parser_handles_whitespace() {
    assert_eq!(
        parse_dism_feature_state("Feature Name : Example\r\nState : Enabled\r\n"),
        Some("Enabled".to_string())
    );
}

#[test]
fn powershell_wrapper_forces_utf8_io() {
    let wrapped = wrap_powershell_script("Write-Output 'ok'");

    assert!(wrapped.contains("[Console]::InputEncoding"));
    assert!(wrapped.contains("[Console]::OutputEncoding"));
    assert!(wrapped.contains("$OutputEncoding"));
    assert!(wrapped.contains("Write-Output 'ok'"));
}

#[test]
fn bcdedit_parses_multi_space_separated_value() {
    let output = "Windows Boot Loader\n-------------------\nhypervisorlaunchtype    Auto\n";
    assert_eq!(
        parse_bcdedit_value(output, "hypervisorlaunchtype"),
        Some("Auto".to_string())
    );
}

#[test]
fn bcdedit_parses_tab_separated_value() {
    let output = "hypervisorlaunchtype\tOff\n";
    assert_eq!(
        parse_bcdedit_value(output, "hypervisorlaunchtype"),
        Some("Off".to_string())
    );
}

#[test]
fn bcdedit_returns_none_when_key_absent() {
    let output = "identifier    {current}\ndevice    partition=C:\n";
    assert_eq!(parse_bcdedit_value(output, "vsmlaunchtype"), None);
}

#[test]
fn bcdedit_parses_vsm_launch_type() {
    let output = "vsmlaunchtype    Auto\n";
    assert_eq!(
        parse_bcdedit_value(output, "vsmlaunchtype"),
        Some("Auto".to_string())
    );
}

#[test]
fn inspect_only_entry_keeps_current_controlset_scope() {
    let entries = all_manifest_entries();
    let entry = entries
        .iter()
        .find(|entry| entry.id == "core_isolation.hvci_was_enabled_by")
        .expect("manifest entry exists");

    assert_eq!(entry.action, RegistryAction::InspectOnly);
    assert_eq!(entry.hive_set, RegistryHiveSet::CurrentOnly);
    assert_eq!(resolve_entry_paths(entry).len(), 1);
}

#[test]
fn mirrored_disable_entries_expand_for_controlset001() {
    let entries = disable_write_entries(DisableGroup::Vbs);

    assert!(entries.iter().any(|entry| {
        entry.path == r"SYSTEM\CurrentControlSet\Control\DeviceGuard"
            && entry.value_name == "EnableVirtualizationBasedSecurity"
    }));
    assert!(entries.iter().any(|entry| {
        entry.path == r"SYSTEM\ControlSet001\Control\DeviceGuard"
            && entry.value_name == "EnableVirtualizationBasedSecurity"
    }));
}

#[test]
fn excluded_legacy_entries_are_not_inspected() {
    let inspectable_ids: Vec<_> = inspect_entries().iter().map(|entry| entry.id).collect();

    assert!(!inspectable_ids.contains(&"legacy.system_guard_enabled"));
    assert!(!inspectable_ids.contains(&"legacy.configure_system_guard_launch"));
}
