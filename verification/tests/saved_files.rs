use vm_compatibility_tool::commands::export::{auto_csv_file_name, csv_content};
use vm_compatibility_tool::models::installed_program::InstalledProgramItem;
use vm_compatibility_tool::models::system_info::SystemInfoItem;
use vm_compatibility_tool::models::virtualization::VirtualizationItem;
use vm_compatibility_tool::services::installed_program_service::{
    collect_installed_programs, dedupe_and_sort,
};
use vm_compatibility_tool::services::log_service::{
    backup_file_name, change_csv_file_name, computer_name_of, disable_change_csv_text,
    encode_utf16le_with_bom, error_log_entry, error_log_file_name, operation_log_file_name,
    operation_log_text, reg_backup_text, DisableChangeEntry, RegistryBackupEntry,
};

#[test]
fn file_names() {
    assert_eq!(auto_csv_file_name("260427_101500", "PC1", "system"), "260427_101500_PC1-SystemInfo.csv");
    assert_eq!(auto_csv_file_name("t", "h", "virtualization"), "t_h-reg.csv");
    assert_eq!(auto_csv_file_name("t", "h", "installed_programs"), "t_h-Programs.csv");
    assert_eq!(auto_csv_file_name("t", "h", "other"), "t_h-other.csv");
    assert_eq!(operation_log_file_name("t", "h"), "t_h.log");
    assert_eq!(backup_file_name("t"), "t_backup.reg");
    assert_eq!(change_csv_file_name("t", "h"), "t_h-DisableResult.csv");
    assert_eq!(error_log_file_name("20260427"), "error_20260427.log");
    assert_eq!(computer_name_of(None), "UNKNOWN");
    assert_eq!(computer_name_of(Some("PC".to_string())), "PC");
    assert_eq!(error_log_entry("T", "ctx", "err"), "[T] [ctx]\nerr\n\n");
}

#[test]
fn system_csv_has_bom_header_and_escaped_rows() {
    let items = vec![SystemInfoItem::new("a", "b,c", "d\"e")];
    let text = csv_content("2026-04-27 10:15:00", "system", &Some(items), &None, &None);
    assert_eq!(
        text,
        "\u{FEFF}# VM Compatibility Tool\n# 생성일시: 2026-04-27 10:15:00\n\n항목,세부 정보,값\na,\"b,c\",\"d\"\"e\"\n"
    );
}

#[test]
fn other_csv_kinds() {
    let v = vec![VirtualizationItem::new("c", "s", "d", "r")];
    let text = csv_content("T", "virtualization", &None, &Some(v), &None);
    assert!(text.ends_with("항목,상태,상세 정보,권장사항\nc,s,d,r\n"));
    let p = vec![InstalledProgramItem::new("n", "p", "2026-01-01")];
    let text = csv_content("T", "installed_programs", &None, &None, &Some(p));
    assert!(text.ends_with("설치된 프로그램 이름,제조사,날짜\nn,p,2026-01-01\n"));
    let text = csv_content("T", "unknown", &None, &None, &None);
    assert_eq!(text, "\u{FEFF}# VM Compatibility Tool\n# 생성일시: T\n\n");
    let text = csv_content("T", "system", &None, &None, &None);
    assert!(text.ends_with("항목,세부 정보,값\n"));
}

#[test]
fn operation_log_has_header_and_lines() {
    let text = operation_log_text(&["a".to_string(), "b".to_string()], "T", "PC");
    let rule = "=".repeat(60);
    assert_eq!(text, format!("VM Compatibility Tool — 운영 로그\n생성: T\n컴퓨터: PC\n{rule}\n\na\nb\n"));
}

#[test]
fn registry_backup_sets_each_saved_value_under_its_own_key() {
    let e = |path: &str, name: &str, value: Option<u32>| RegistryBackupEntry {
        path: path.to_string(),
        value_name: name.to_string(),
        value,
    };
    let entries = vec![
        e("K1", "A", Some(1)),
        e("K2", "B", Some(2)),
        e("K1", "C", Some(3)),
        e("K2", "D", None),
    ];
    let text = reg_backup_text(&entries, "T", "PC");
    let mut section = "";
    let mut restored: Vec<(String, String)> = Vec::new();
    for line in text.split("\r\n") {
        if line.starts_with('[') {
            section = line;
        } else if line.starts_with('"') {
            restored.push((section.to_string(), line.to_string()));
        }
    }
    assert_eq!(
        restored,
        vec![
            ("[HKEY_LOCAL_MACHINE\\K1]".to_string(), "\"A\"=dword:00000001".to_string()),
            ("[HKEY_LOCAL_MACHINE\\K2]".to_string(), "\"B\"=dword:00000002".to_string()),
            ("[HKEY_LOCAL_MACHINE\\K1]".to_string(), "\"C\"=dword:00000003".to_string()),
        ]
    );
    assert!(text.contains("; \"D\" — 원본 값 없음"));
}

#[test]
fn registry_backup_groups_values_by_key() {
    let e = |path: &str, name: &str, value: Option<u32>| RegistryBackupEntry {
        path: path.to_string(),
        value_name: name.to_string(),
        value,
    };
    let entries = vec![e("K1", "A", Some(1)), e("K1", "B", None), e("K2", "C", Some(255))];
    let text = reg_backup_text(&entries, "T", "PC");
    let expected = [
        "Windows Registry Editor Version 5.00",
        "",
        "; VM Compatibility Tool — 레지스트리 백업",
        "; 생성: T",
        "; 컴퓨터: PC",
        "; 이 파일을 실행하면 변경 전 값으로 복원됩니다.",
        "",
        "[HKEY_LOCAL_MACHINE\\K1]",
        "\"A\"=dword:00000001",
        "; \"B\" — 원본 값 없음 (복원 불필요)",
        "",
        "[HKEY_LOCAL_MACHINE\\K2]",
        "\"C\"=dword:000000ff",
    ]
    .join("\r\n");
    assert_eq!(text, expected);
}

#[test]
fn utf16_encoding_with_bom() {
    assert_eq!(encode_utf16le_with_bom("A가"), vec![0xFF, 0xFE, 0x41, 0x00, 0x00, 0xAC]);
    assert_eq!(encode_utf16le_with_bom("😀"), vec![0xFF, 0xFE, 0x3D, 0xD8, 0x00, 0xDE]);
    let s = "레지스트리 backup 😀";
    let mut expected = vec![0xFF, 0xFE];
    for u in s.encode_utf16() {
        expected.push((u & 0xFF) as u8);
        expected.push((u >> 8) as u8);
    }
    assert_eq!(encode_utf16le_with_bom(s), expected);
}

#[test]
fn change_csv_rows() {
    let entry = DisableChangeEntry {
        group: "VBS".to_string(),
        item: "a,b".to_string(),
        target: "t".to_string(),
        before: "1".to_string(),
        after: "0".to_string(),
        result: "변경됨".to_string(),
        message: "1 → 0".to_string(),
    };
    let text = disable_change_csv_text(&[entry], "T", "PC");
    assert_eq!(
        text,
        "\u{FEFF}VM Compatibility Tool — 조치 전후 비교\n생성,T\n컴퓨터,PC\n\n작업 그룹,항목,대상,조치 전,조치 후,결과,메시지\nVBS,\"a,b\",t,1,0,변경됨,1 → 0\n"
    );
}

#[test]
fn program_list_is_deduplicated_and_sorted() {
    let p = |n: &str, p: &str, d: &str| InstalledProgramItem::new(n, p, d);
    let items = vec![
        p("zeta", "Z", "20260101"),
        p(" Alpha ", "Vendor", ""),
        p("ALPHA", "vendor ", "x"),
        p("", "nameless", ""),
        p("beta", "B", "2026-02-02"),
    ];
    let out = dedupe_and_sort(items);
    let names: Vec<&str> = out.iter().map(|i| i.name.as_str()).collect();
    assert_eq!(names, vec!["Alpha", "beta", "zeta"]);
    assert_eq!(out[2].install_date, "2026-01-01");
    let merged = collect_installed_programs(vec![p("b", "", "")], Err("fail".to_string()));
    assert_eq!(merged.items.len(), 1);
    assert_eq!(merged.warnings, vec!["AppX 프로그램 목록 수집 실패: fail".to_string()]);
    let merged = collect_installed_programs(vec![p("b", "", "")], Ok(vec![p("a", "", ""), p("B", "", "")]));
    let names: Vec<&str> = merged.items.iter().map(|i| i.name.as_str()).collect();
    assert_eq!(names, vec!["a", "b"]);
    assert!(merged.warnings.is_empty());
}
