use vm_compatibility_tool::commands::disable::{
    apply_registry_result, build_operation_log_lines, collect_disable_change_results,
    collect_planned_disable_changes, collect_registry_backup, compare_change_values, disable_tasks,
    get_feature_state_display, hyperv_disable_result, hyperv_features, nothing_to_disable,
    progress_failed, progress_started, reboot_outcome, registry_backup_targets,
    registry_value_display, registry_write_value, task_events, task_registry_entries, wsl_disable_result,
    wsl_features, ChangeTarget, DisableTask, next_run_action, record_backup, record_current_values,
    record_task_result, start_disable_run, RunAction,
};
use vm_compatibility_tool::models::virtualization::{DisableGroup, DisableOptions, DisableResult};
use vm_compatibility_tool::services::process_service::ProcessResult;
use vm_compatibility_tool::services::registry_manifest::{disable_write_entries, selected_optional_entries};
use vm_compatibility_tool::services::log_service::RegistryBackupEntry;

fn pr(success: bool, stdout: &str, stderr: &str) -> ProcessResult {
    ProcessResult {
        success,
        stdout: stdout.to_string(),
        stderr: stderr.to_string(),
        exit_code: if success { 0 } else { 1 },
    }
}

fn opts(hyperv: bool, wsl: bool, vbs: bool, core_isolation: bool) -> DisableOptions {
    DisableOptions { hyperv, wsl, vbs, core_isolation, optional_registry_ids: Vec::new() }
}

fn with_optional(ids: &[&str]) -> DisableOptions {
    DisableOptions {
        hyperv: false,
        wsl: false,
        vbs: false,
        core_isolation: false,
        optional_registry_ids: ids.iter().map(|s| s.to_string()).collect(),
    }
}

#[test]
fn optional_values_are_selected_by_id_among_excluded_entries_only() {
    let entries = selected_optional_entries(&[
        "legacy.system_guard_enabled".to_string(),
        "vbs.enable_virtualization_based_security".to_string(),
    ]);
    assert_eq!(entries.len(), 2);
    assert!(entries.iter().all(|e| e.id == "legacy.system_guard_enabled"));
    assert!(entries[1].path.contains("ControlSet001"));
    let o = with_optional(&["legacy.lsa_cfg_flags_default"]);
    assert!(o.any());
    assert_eq!(disable_tasks(&o), vec![DisableTask::OptionalRegistry]);
    assert_eq!(DisableTask::OptionalRegistry.label(), "선택한 추가 레지스트리 조치");
    let listed = task_registry_entries(DisableTask::OptionalRegistry, &o).unwrap();
    assert_eq!(listed.len(), 2);
    assert!(task_registry_entries(DisableTask::HyperV, &o).is_none());
    let planned = collect_planned_disable_changes(&o);
    assert_eq!(planned.len(), 2);
    assert_eq!(planned[0].group, "추가 레지스트리 조치");
    assert_eq!(registry_backup_targets(&o).len(), 2);
    assert!(!opts(false, false, false, false).any());
}

#[test]
fn tasks_follow_the_selected_options() {
    assert!(disable_tasks(&opts(false, false, false, false)).is_empty());
    assert_eq!(
        disable_tasks(&DisableOptions::all()),
        vec![DisableTask::HyperV, DisableTask::Wsl, DisableTask::Vbs, DisableTask::CoreIsolation]
    );
    assert_eq!(disable_tasks(&opts(false, true, false, true)), vec![DisableTask::Wsl, DisableTask::CoreIsolation]);
    assert_eq!(DisableTask::Vbs.label(), "VBS 레지스트리 비활성화");
    assert_eq!(DisableTask::Vbs.result_name(), "VBS 비활성화");
    assert_eq!(DisableTask::CoreIsolation.registry_group(), Some(DisableGroup::CoreIsolation));
    assert_eq!(DisableTask::HyperV.registry_group(), None);
}

#[test]
fn nothing_selected_reports_one_result_and_no_files() {
    let out = nothing_to_disable();
    assert_eq!(out.results.len(), 1);
    assert_eq!(out.results[0].task, "점검 결과");
    assert!(out.results[0].success);
    assert_eq!(out.results[0].message, "비활성화가 필요한 항목이 없습니다.");
    assert!(out.log_path.is_none() && out.backup_path.is_none() && out.change_csv_path.is_none());
}

#[test]
fn progress_events_carry_step_and_label() {
    let e = progress_started(2, 4, "WSL 비활성화");
    assert_eq!((e.step, e.total, e.message.as_str(), e.success), (2, 4, "WSL 비활성화", true));
    let f = progress_failed(2, 4, "WSL 비활성화");
    assert_eq!(f.message, "WSL 비활성화 — 일부 실패");
    assert!(!f.success);
}

#[test]
fn hyperv_result_depends_only_on_bcdedit() {
    assert_eq!(hyperv_features().len(), 7);
    let oks = [true, false, true, true, true, true, true];
    let res = hyperv_disable_result(&oks, &pr(false, "", "denied"), &pr(false, "", "  not supported \n"));
    assert_eq!(res.task, "Hyper-V 비활성화");
    assert!(!res.success);
    let lines: Vec<&str> = res.message.lines().collect();
    assert_eq!(lines.len(), 9);
    assert_eq!(lines[0], "✓ Microsoft-Hyper-V-All");
    assert_eq!(lines[1], "- Microsoft-Hyper-V (이미 비활성화됨)");
    assert_eq!(lines[7], "✗ bcdedit 실패: denied");
    assert_eq!(lines[8], "- vsmlaunchtype: 건너뜀 (not supported)");
    let ok = hyperv_disable_result(&[true; 7], &pr(true, "", ""), &pr(true, "", ""));
    assert!(ok.success);
    assert!(ok.message.ends_with("✓ hypervisorlaunchtype off\n✓ vsmlaunchtype off"));
}

#[test]
fn wsl_result_is_always_successful() {
    assert_eq!(wsl_features(), vec!["Microsoft-Windows-Subsystem-Linux", "VirtualMachinePlatform"]);
    let res = wsl_disable_result(&[false, true]);
    assert!(res.success);
    assert_eq!(
        res.message,
        "- Microsoft-Windows-Subsystem-Linux (이미 비활성화됨)\n✓ VirtualMachinePlatform"
    );
}

#[test]
fn registry_values_are_written_only_when_present_and_different() {
    let entries = disable_write_entries(DisableGroup::Vbs);
    let e = &entries[0];
    assert_eq!(registry_write_value(e, None, false), None);
    assert_eq!(registry_write_value(e, Some(0), false), None);
    assert_eq!(registry_write_value(e, Some(1), false), Some(0));
    assert_eq!(registry_write_value(e, Some(1), true), Some(0));
}

#[test]
fn policy_values_are_skipped_on_managed_devices() {
    let entries = disable_write_entries(DisableGroup::Vbs);
    let policy = entries
        .iter()
        .find(|e| e.id == "vbs.policy_enable_virtualization_based_security")
        .unwrap();
    assert_eq!(policy.path, r"SOFTWARE\Policies\Microsoft\Windows\DeviceGuard");
    assert_eq!(registry_write_value(policy, Some(1), false), Some(0));
    assert_eq!(registry_write_value(policy, Some(1), true), None);

    let picked = vec![entries[0].clone(), policy.clone()];
    let res = apply_registry_result(
        "VBS 비활성화",
        &picked,
        &[Some(1), Some(1)],
        &[Some(Ok(())), None],
        true,
    );
    assert!(res.success);
    let lines: Vec<&str> = res.message.lines().collect();
    assert_eq!(lines.len(), 2);
    let key = |i: usize| format!("{} — {}\\{}", picked[i].label, picked[i].path, picked[i].value_name);
    assert_eq!(lines[0], format!("✓ {}: 1 → 0", key(0)));
    assert_eq!(lines[1], format!("- {} = 1 (조직 관리 장치 — 정책 경로 건너뜀)", key(1)));
}

#[test]
fn task_events_add_a_failure_event_only_on_failure() {
    let ok = task_events(1, 3, "Hyper-V 비활성화", true);
    assert_eq!(ok.len(), 1);
    assert_eq!(
        (ok[0].step, ok[0].total, ok[0].message.as_str(), ok[0].success),
        (1, 3, "Hyper-V 비활성화", true)
    );
    let failed = task_events(3, 3, "VBS 비활성화", false);
    assert_eq!(failed.len(), 2);
    assert_eq!(failed[0].message, "VBS 비활성화");
    assert!(failed[0].success);
    assert_eq!(
        (failed[1].step, failed[1].total, failed[1].message.as_str(), failed[1].success),
        (3, 3, "VBS 비활성화 — 일부 실패", false)
    );
}

#[test]
fn registry_task_reports_each_entry_and_fails_on_a_failed_write() {
    let entries = disable_write_entries(DisableGroup::Vbs);
    let picked = vec![entries[0].clone(), entries[1].clone(), entries[2].clone()];
    let currents = vec![Some(1), Some(0), None];
    let writes = vec![Some(Err("값 설정 실패: X".to_string())), None, None];
    let res = apply_registry_result("VBS 비활성화", &picked, &currents, &writes, false);
    assert!(!res.success);
    let lines: Vec<&str> = res.message.lines().collect();
    assert_eq!(lines.len(), 3);
    let key = |i: usize| format!("{} — {}\\{}", picked[i].label, picked[i].path, picked[i].value_name);
    assert_eq!(lines[0], format!("✗ {}: 값 설정 실패: X", key(0)));
    assert_eq!(lines[1], format!("- {} = 0 (이미 비활성 상태)", key(1)));
    assert_eq!(lines[2], format!("- {} (값 없음, 생성하지 않음)", key(2)));

    let ok = apply_registry_result("VBS 비활성화", &picked[..1], &[Some(2)], &[Some(Ok(()))], false);
    assert!(ok.success);
    assert_eq!(ok.message, format!("✓ {}: 2 → 0", key(0)));

    let empty = apply_registry_result("선택", &[], &[], &[], false);
    assert!(empty.success);
    assert_eq!(empty.message, "선택된 추가 레지스트리 조치 항목이 없습니다.");
}

#[test]
fn change_verdicts() {
    assert_eq!(
        compare_change_values("1", "1"),
        (
            "변경 없음".to_string(),
            "이미 목표 상태였거나 조치가 값을 변경하지 않았습니다.".to_string()
        )
    );
    assert_eq!(compare_change_values("1", "확인 불가: x").0, "확인 불가");
    assert_eq!(compare_change_values("1", "오류").1, "조치 후 상태를 확인하지 못했습니다.");
    assert_eq!(
        compare_change_values("Enabled", "Disabled"),
        ("변경됨".to_string(), "Enabled → Disabled".to_string())
    );
}

#[test]
fn target_values_are_displayed() {
    assert_eq!(registry_value_display(Some(3)), "3");
    assert_eq!(registry_value_display(None), "<미설정>");
    assert_eq!(get_feature_state_display(&pr(true, "State : Disabled\r\n", "")), "Disabled");
    assert_eq!(get_feature_state_display(&pr(true, "nothing", "")), "확인 불가");
    assert_eq!(get_feature_state_display(&pr(false, " out ", "")), "확인 불가: out");
    assert_eq!(get_feature_state_display(&pr(false, "out", " err ")), "확인 불가: err");
    assert_eq!(get_feature_state_display(&pr(false, "", "")), "확인 불가");
}

#[test]
fn planned_changes_cover_the_selected_groups() {
    let hv = collect_planned_disable_changes(&opts(true, false, false, false));
    assert_eq!(hv.len(), 9);
    assert_eq!(hv[0].target, "DISM Feature: Microsoft-Hyper-V-All");
    assert!(matches!(hv[7].target_kind, ChangeTarget::HypervisorLaunchType));
    assert_eq!(hv[8].item, "VSM 시작 유형");
    let vbs = collect_planned_disable_changes(&opts(false, false, true, false));
    let entries = disable_write_entries(DisableGroup::Vbs);
    assert_eq!(vbs.len(), entries.len());
    assert_eq!(vbs[0].group, "VBS");
    assert_eq!(vbs[0].target, format!("HKLM\\{}\\{}", entries[0].path, entries[0].value_name));
    assert!(collect_planned_disable_changes(&opts(false, false, false, false)).is_empty());
}

#[test]
fn change_rows_pair_before_and_after() {
    let planned = collect_planned_disable_changes(&opts(false, true, false, false));
    let befores = vec!["Enabled".to_string(), "Disabled".to_string()];
    let afters = vec!["Disabled".to_string(), "Disabled".to_string()];
    let rows = collect_disable_change_results(&planned, &befores, &afters);
    assert_eq!(rows.len(), 2);
    assert_eq!(rows[0].result, "변경됨");
    assert_eq!(rows[0].message, "Enabled → Disabled");
    assert_eq!(rows[1].result, "변경 없음");
    assert_eq!(rows[1].group, "WSL");
}

#[test]
fn backup_targets_follow_the_registry_groups() {
    let targets = registry_backup_targets(&opts(true, true, true, true));
    let vbs = disable_write_entries(DisableGroup::Vbs).len();
    let core = disable_write_entries(DisableGroup::CoreIsolation).len();
    assert_eq!(targets.len(), vbs + core);
    assert!(registry_backup_targets(&opts(true, true, false, false)).is_empty());
    let values: Vec<Option<u32>> = (0..targets.len()).map(|i| if i == 0 { Some(1) } else { None }).collect();
    let backup = collect_registry_backup(&targets, &values);
    assert_eq!(backup.len(), targets.len());
    assert_eq!(backup[0].value, Some(1));
    assert_eq!(backup[0].path, targets[0].path);
}

#[test]
fn operation_log_lists_each_result() {
    let results = vec![
        DisableResult { task: "A".to_string(), success: true, message: "x\ny".to_string() },
        DisableResult { task: "B".to_string(), success: false, message: "z".to_string() },
    ];
    let lines = build_operation_log_lines(&results);
    assert_eq!(
        lines,
        vec![
            "▶ 비활성화 작업 시작",
            "",
            "✅ A",
            "  x",
            "  y",
            "",
            "⚠️ B",
            "  z",
            "",
            "━━━━━━━━━━━━━━━━━━━━━━━━━━━━━━━━━",
            "모든 작업 완료",
        ]
    );
}

#[test]
fn reboot_failure_carries_stderr() {
    assert_eq!(reboot_outcome(&pr(true, "", "")), Ok(()));
    assert_eq!(reboot_outcome(&pr(false, "", "denied")), Err("재부팅 명령 실패: denied".to_string()));
}

#[test]
fn a_run_reads_the_backup_before_any_task() {
    let mut run = start_disable_run(&opts(true, false, true, false));
    assert_eq!(run.tasks, vec![DisableTask::HyperV, DisableTask::Vbs]);
    assert_eq!(next_run_action(&run), RunAction::ReadBackup);
    let backup = vec![RegistryBackupEntry { path: "K".to_string(), value_name: "V".to_string(), value: Some(1) }];
    record_backup(&mut run, backup);
    assert_eq!(next_run_action(&run), RunAction::ReadCurrentValues);
    record_current_values(&mut run, vec!["1".to_string()]);
    assert_eq!(next_run_action(&run), RunAction::RunTask(0));
    let done = |task: &str| DisableResult { task: task.to_string(), success: true, message: String::new() };
    record_task_result(&mut run, done("a"));
    assert_eq!(next_run_action(&run), RunAction::RunTask(1));
    record_task_result(&mut run, done("b"));
    assert_eq!(next_run_action(&run), RunAction::Finish);
    assert_eq!(run.backup.as_ref().map(|b| b[0].value), Some(Some(1)));

    let mut empty = start_disable_run(&opts(false, false, false, false));
    assert_eq!(next_run_action(&empty), RunAction::ReadBackup);
    record_backup(&mut empty, Vec::new());
    assert_eq!(next_run_action(&empty), RunAction::NothingToDisable);
}

#[test]
fn locked_and_driver_blocklist_are_never_written_by_remediation() {
    assert!(!disable_write_entries(DisableGroup::CoreIsolation)
        .iter()
        .any(|e| e.value_name == "VulnerableDriverBlocklistEnable"));
    assert!(!disable_write_entries(DisableGroup::Vbs)
        .iter()
        .any(|e| e.value_name == "Locked" && e.path.ends_with(r"Control\DeviceGuard")));
    let picked = selected_optional_entries(&["core_isolation.vulnerable_driver_blocklist".to_string()]);
    assert_eq!(picked.len(), 1);
    assert_eq!(picked[0].value_name, "VulnerableDriverBlocklistEnable");
}
