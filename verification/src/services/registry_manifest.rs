//! The registry values that the inspection reads and the remediation writes.
use vstd::prelude::*;
use crate::models::virtualization::DisableGroup;
use crate::text::{chars_of, replace_all, replace_chars, string_of};

verus! {

/// What is done with a registry value.
#[derive(Debug, Clone, Copy, PartialEq, Eq, Structural)]
pub enum RegistryAction {
    /// Read during inspection and set to its target when the group is disabled.
    DisableWrite,
    /// Read during inspection only.
    InspectOnly,
    /// Neither inspected nor written by default.
    ExcludedLegacy,
}

/// Which registry locations hold a value.
#[derive(Debug, Clone, Copy, PartialEq, Eq, Structural)]
pub enum RegistryHiveSet {
    CurrentOnly,
    /// The `CurrentControlSet` path and its `ControlSet001` mirror.
    CurrentAndControlSet001,
    PoliciesOnly,
}

/// One value of the manifest.
#[derive(Debug, Clone, Copy)]
pub struct RegistryManifestEntry {
    pub id: &'static str,
    pub path: &'static str,
    pub value_name: &'static str,
    pub target_value: Option<u32>,
    pub disable_group: DisableGroup,
    pub action: RegistryAction,
    pub hive_set: RegistryHiveSet,
    pub label: &'static str,
    pub rationale: &'static str,
}

/// A manifest value at one concrete registry path.
#[derive(Debug, Clone)]
pub struct ResolvedRegistryManifestEntry {
    pub id: &'static str,
    pub path: String,
    pub value_name: &'static str,
    pub target_value: Option<u32>,
    pub disable_group: DisableGroup,
    pub action: RegistryAction,
    pub label: &'static str,
    pub rationale: &'static str,
}

/// The content of a resolved entry.
pub struct ResolvedEntry {
    pub id: Seq<char>,
    pub path: Seq<char>,
    pub value_name: Seq<char>,
    pub target_value: Option<u32>,
    pub disable_group: DisableGroup,
    pub action: RegistryAction,
    pub label: Seq<char>,
    pub rationale: Seq<char>,
}

impl View for ResolvedRegistryManifestEntry {
    type V = ResolvedEntry;

    open spec fn view(&self) -> ResolvedEntry {
        ResolvedEntry {
            id: self.id@,
            path: self.path@,
            value_name: self.value_name@,
            target_value: self.target_value,
            disable_group: self.disable_group,
            action: self.action,
            label: self.label@,
            rationale: self.rationale@,
        }
    }
}

pub open spec fn resolved_views(s: Seq<ResolvedRegistryManifestEntry>) -> Seq<ResolvedEntry> {
    s.map_values(|r: ResolvedRegistryManifestEntry| r@)
}

/// Entry `e` located at `path`.
pub open spec fn resolve(e: RegistryManifestEntry, path: Seq<char>) -> ResolvedEntry {
    ResolvedEntry {
        id: e.id@,
        path,
        value_name: e.value_name@,
        target_value: e.target_value,
        disable_group: e.disable_group,
        action: e.action,
        label: e.label@,
        rationale: e.rationale@,
    }
}

/// The `ControlSet001` mirror of a `CurrentControlSet` path.
pub open spec fn mirror_path(p: Seq<char>) -> Seq<char> {
    replace_all(p, "CurrentControlSet"@, "ControlSet001"@)
}

/// The registry paths at which an entry lives.
pub open spec fn entry_paths(e: RegistryManifestEntry) -> Seq<Seq<char>> {
    match e.hive_set {
        RegistryHiveSet::CurrentAndControlSet001 => seq![e.path@, mirror_path(e.path@)],
        _ => seq![e.path@],
    }
}

/// An entry at each of its paths.
pub open spec fn resolved(e: RegistryManifestEntry) -> Seq<ResolvedEntry> {
    entry_paths(e).map_values(|p: Seq<char>| resolve(e, p))
}

/// The entries that inspection reads: all but the excluded ones, in order.
pub open spec fn inspect_list(s: Seq<RegistryManifestEntry>) -> Seq<RegistryManifestEntry>
    decreases s.len(),
{
    if s.len() == 0 {
        seq![]
    } else {
        let r = inspect_list(s.drop_last());
        if s.last().action != RegistryAction::ExcludedLegacy {
            r.push(s.last())
        } else {
            r
        }
    }
}

/// The values a group's remediation writes: its `DisableWrite` entries at
/// each of their paths, in order.
pub open spec fn disable_write_list(s: Seq<RegistryManifestEntry>, group: DisableGroup) -> Seq<
    ResolvedEntry,
>
    decreases s.len(),
{
    if s.len() == 0 {
        seq![]
    } else {
        let r = disable_write_list(s.drop_last(), group);
        let e = s.last();
        if e.action == RegistryAction::DisableWrite && e.disable_group == group {
            r + resolved(e)
        } else {
            r
        }
    }
}

/// The manifest, in order.
pub open spec fn manifest() -> Seq<RegistryManifestEntry> {
    seq![
        RegistryManifestEntry {
            id: "vbs.enable_virtualization_based_security",
            path: r"SYSTEM\CurrentControlSet\Control\DeviceGuard",
            value_name: "EnableVirtualizationBasedSecurity",
            target_value: Some(0),
            disable_group: DisableGroup::Vbs,
            action: RegistryAction::DisableWrite,
            hive_set: RegistryHiveSet::CurrentAndControlSet001,
            label: "VBS (가상화 기반 보안)",
            rationale: "VBS 전체 활성화 스위치",
        },
        RegistryManifestEntry {
            id: "vbs.require_platform_security_features",
            path: r"SYSTEM\CurrentControlSet\Control\DeviceGuard",
            value_name: "RequirePlatformSecurityFeatures",
            target_value: Some(0),
            disable_group: DisableGroup::Vbs,
            action: RegistryAction::DisableWrite,
            hive_set: RegistryHiveSet::CurrentAndControlSet001,
            label: "플랫폼 보안 기능 요구",
            rationale: "VBS가 추가 플랫폼 보안 기능을 요구하지 않도록 설정",
        },
        RegistryManifestEntry {
            id: "vbs.locked",
            path: r"SYSTEM\CurrentControlSet\Control\DeviceGuard",
            value_name: "Locked",
            target_value: None,
            disable_group: DisableGroup::Vbs,
            action: RegistryAction::InspectOnly,
            hive_set: RegistryHiveSet::CurrentAndControlSet001,
            label: "VBS 잠금",
            rationale: "UEFI 잠금은 레지스트리 쓰기로 해제되지 않아 점검만 수행",
        },
        RegistryManifestEntry {
            id: "vbs.mandatory",
            path: r"SYSTEM\CurrentControlSet\Control\DeviceGuard",
            value_name: "Mandatory",
            target_value: Some(0),
            disable_group: DisableGroup::Vbs,
            action: RegistryAction::DisableWrite,
            hive_set: RegistryHiveSet::CurrentAndControlSet001,
            label: "VBS 강제",
            rationale: "DeviceGuard 강제 적용 상태 해제",
        },
        RegistryManifestEntry {
            id: "core_isolation.hvci_enabled",
            path: r"SYSTEM\CurrentControlSet\Control\DeviceGuard\Scenarios\HypervisorEnforcedCodeIntegrity",
            value_name: "Enabled",
            target_value: Some(0),
            disable_group: DisableGroup::CoreIsolation,
            action: RegistryAction::DisableWrite,
            hive_set: RegistryHiveSet::CurrentAndControlSet001,
            label: "HVCI (코어 격리)",
            rationale: "하이퍼바이저 코드 무결성 비활성화",
        },
        RegistryManifestEntry {
            id: "core_isolation.hvci_locked",
            path: r"SYSTEM\CurrentControlSet\Control\DeviceGuard\Scenarios\HypervisorEnforcedCodeIntegrity",
            value_name: "Locked",
            target_value: Some(0),
            disable_group: DisableGroup::CoreIsolation,
            action: RegistryAction::DisableWrite,
            hive_set: RegistryHiveSet::CurrentAndControlSet001,
            label: "HVCI 잠금",
            rationale: "HVCI 잠금 상태 해제",
        },
        RegistryManifestEntry {
            id: "core_isolation.hvci_was_enabled_by",
            path: r"SYSTEM\CurrentControlSet\Control\DeviceGuard\Scenarios\HypervisorEnforcedCodeIntegrity",
            value_name: "WasEnabledBy",
            target_value: None,
            disable_group: DisableGroup::CoreIsolation,
            action: RegistryAction::InspectOnly,
            hive_set: RegistryHiveSet::CurrentOnly,
            label: "HVCI 활성화 주체",
            rationale: "상태/UI 해석용 값으로 점검만 수행",
        },
        RegistryManifestEntry {
            id: "vbs.credential_guard_enabled",
            path: r"SYSTEM\CurrentControlSet\Control\DeviceGuard\Scenarios\CredentialGuard",
            value_name: "Enabled",
            target_value: Some(0),
            disable_group: DisableGroup::Vbs,
            action: RegistryAction::DisableWrite,
            hive_set: RegistryHiveSet::CurrentAndControlSet001,
            label: "CredentialGuard",
            rationale: "Credential Guard 비활성화",
        },
        RegistryManifestEntry {
            id: "vbs.lsa_cfg_flags",
            path: r"SYSTEM\CurrentControlSet\Control\Lsa",
            value_name: "LsaCfgFlags",
            target_value: Some(0),
            disable_group: DisableGroup::Vbs,
            action: RegistryAction::DisableWrite,
            hive_set: RegistryHiveSet::CurrentAndControlSet001,
            label: "LSA 보호",
            rationale: "LSA 보호 플래그 비활성화",
        },
        RegistryManifestEntry {
            id: "vbs.run_as_ppl",
            path: r"SYSTEM\CurrentControlSet\Control\Lsa",
            value_name: "RunAsPPL",
            target_value: None,
            disable_group: DisableGroup::Vbs,
            action: RegistryAction::InspectOnly,
            hive_set: RegistryHiveSet::CurrentOnly,
            label: "LSA 보호 프로세스 (RunAsPPL)",
            rationale: "직접 비활성화 시 자격 증명 보호가 해제될 위험이 있어 점검만 수행",
        },
        RegistryManifestEntry {
            id: "vbs.run_as_ppl_boot",
            path: r"SYSTEM\CurrentControlSet\Control\Lsa",
            value_name: "RunAsPPLBoot",
            target_value: None,
            disable_group: DisableGroup::Vbs,
            action: RegistryAction::InspectOnly,
            hive_set: RegistryHiveSet::CurrentOnly,
            label: "부팅 시 LSA 보호 (RunAsPPLBoot)",
            rationale: "부팅 시 LSA 보호 활성화 여부 확인용으로 점검만 수행",
        },
        RegistryManifestEntry {
            id: "vbs.policy_enable_virtualization_based_security",
            path: r"SOFTWARE\Policies\Microsoft\Windows\DeviceGuard",
            value_name: "EnableVirtualizationBasedSecurity",
            target_value: Some(0),
            disable_group: DisableGroup::Vbs,
            action: RegistryAction::DisableWrite,
            hive_set: RegistryHiveSet::PoliciesOnly,
            label: "VBS 정책",
            rationale: "정책 기반 VBS 활성화 해제",
        },
        RegistryManifestEntry {
            id: "vbs.policy_require_platform_security_features",
            path: r"SOFTWARE\Policies\Microsoft\Windows\DeviceGuard",
            value_name: "RequirePlatformSecurityFeatures",
            target_value: Some(0),
            disable_group: DisableGroup::Vbs,
            action: RegistryAction::DisableWrite,
            hive_set: RegistryHiveSet::PoliciesOnly,
            label: "VBS 정책 플랫폼 보안",
            rationale: "정책 기반 플랫폼 보안 요구 해제",
        },
        RegistryManifestEntry {
            id: "vbs.policy_lsa_cfg_flags",
            path: r"SOFTWARE\Policies\Microsoft\Windows\DeviceGuard",
            value_name: "LsaCfgFlags",
            target_value: Some(0),
            disable_group: DisableGroup::Vbs,
            action: RegistryAction::DisableWrite,
            hive_set: RegistryHiveSet::PoliciesOnly,
            label: "LSA 정책",
            rationale: "정책 기반 LSA 보호 비활성화",
        },
        RegistryManifestEntry {
            id: "core_isolation.policy_hvci",
            path: r"SOFTWARE\Policies\Microsoft\Windows\DeviceGuard",
            value_name: "HypervisorEnforcedCodeIntegrity",
            target_value: Some(0),
            disable_group: DisableGroup::CoreIsolation,
            action: RegistryAction::DisableWrite,
            hive_set: RegistryHiveSet::PoliciesOnly,
            label: "HVCI 정책",
            rationale: "정책 기반 HVCI 비활성화",
        },
        RegistryManifestEntry {
            id: "core_isolation.policy_hvci_enabled",
            path: r"SOFTWARE\Policies\Microsoft\Windows\DeviceGuard",
            value_name: "HVCIEnabled",
            target_value: Some(0),
            disable_group: DisableGroup::CoreIsolation,
            action: RegistryAction::DisableWrite,
            hive_set: RegistryHiveSet::PoliciesOnly,
            label: "HVCI 활성화 정책",
            rationale: "정책 기반 HVCI 활성 플래그 비활성화",
        },
        RegistryManifestEntry {
            id: "core_isolation.policy_hvci_mat_required",
            path: r"SOFTWARE\Policies\Microsoft\Windows\DeviceGuard",
            value_name: "HVCIMATRequired",
            target_value: Some(0),
            disable_group: DisableGroup::CoreIsolation,
            action: RegistryAction::DisableWrite,
            hive_set: RegistryHiveSet::PoliciesOnly,
            label: "HVCI MAT 요구",
            rationale: "정책 기반 MAT 요구 해제",
        },
        RegistryManifestEntry {
            id: "core_isolation.vulnerable_driver_blocklist",
            path: r"SYSTEM\CurrentControlSet\Control\CI\Config",
            value_name: "VulnerableDriverBlocklistEnable",
            target_value: Some(0),
            disable_group: DisableGroup::CoreIsolation,
            action: RegistryAction::ExcludedLegacy,
            hive_set: RegistryHiveSet::CurrentOnly,
            label: "취약 드라이버 차단",
            rationale: "BYOVD 방어 기능으로 기본 조치에서 제외, 필요 시 수동 선택",
        },
        RegistryManifestEntry {
            id: "legacy.enable_secure_launch",
            path: r"SYSTEM\CurrentControlSet\Control\DeviceGuard",
            value_name: "EnableSecureLaunch",
            target_value: Some(0),
            disable_group: DisableGroup::Vbs,
            action: RegistryAction::ExcludedLegacy,
            hive_set: RegistryHiveSet::CurrentAndControlSet001,
            label: "Secure Launch (DRTM)",
            rationale: "VM 호환성에 영향을 줄 수 있어 선택적 조치 후보로만 등록",
        },
        RegistryManifestEntry {
            id: "legacy.require_microsoft_signed_boot_chain",
            path: r"SYSTEM\CurrentControlSet\Control\DeviceGuard",
            value_name: "RequireMicrosoftSignedBootChain",
            target_value: Some(0),
            disable_group: DisableGroup::Vbs,
            action: RegistryAction::ExcludedLegacy,
            hive_set: RegistryHiveSet::CurrentAndControlSet001,
            label: "MS 서명 부트 체인 요구",
            rationale: "효과 재검증 전까지 기본 write 대상에서 제외",
        },
        RegistryManifestEntry {
            id: "legacy.system_guard_enabled",
            path: r"SYSTEM\CurrentControlSet\Control\DeviceGuard\Scenarios\SystemGuard",
            value_name: "Enabled",
            target_value: Some(0),
            disable_group: DisableGroup::Vbs,
            action: RegistryAction::ExcludedLegacy,
            hive_set: RegistryHiveSet::CurrentAndControlSet001,
            label: "SystemGuard",
            rationale: "기본 비활성화 세트에서 보류",
        },
        RegistryManifestEntry {
            id: "legacy.secure_biometrics_enabled",
            path: r"SYSTEM\CurrentControlSet\Control\DeviceGuard\Scenarios\SecureBiometrics",
            value_name: "Enabled",
            target_value: Some(0),
            disable_group: DisableGroup::Vbs,
            action: RegistryAction::ExcludedLegacy,
            hive_set: RegistryHiveSet::CurrentOnly,
            label: "SecureBiometrics",
            rationale: "기본 비활성화 세트에서 보류",
        },
        RegistryManifestEntry {
            id: "legacy.lsa_cfg_flags_default",
            path: r"SYSTEM\CurrentControlSet\Control\Lsa",
            value_name: "LsaCfgFlagsDefault",
            target_value: Some(0),
            disable_group: DisableGroup::Vbs,
            action: RegistryAction::ExcludedLegacy,
            hive_set: RegistryHiveSet::CurrentAndControlSet001,
            label: "LSA 기본 구성",
            rationale: "핵심 플래그가 아니므로 기본 세트에서 제외",
        },
        RegistryManifestEntry {
            id: "legacy.configure_system_guard_launch",
            path: r"SOFTWARE\Policies\Microsoft\Windows\DeviceGuard",
            value_name: "ConfigureSystemGuardLaunch",
            target_value: Some(0),
            disable_group: DisableGroup::CoreIsolation,
            action: RegistryAction::ExcludedLegacy,
            hive_set: RegistryHiveSet::PoliciesOnly,
            label: "SystemGuard 시작 정책",
            rationale: "효과 재검증 전까지 보류",
        }
    ]
}

/// All manifest entries, excluded ones included.
pub fn all_manifest_entries() -> (r: Vec<RegistryManifestEntry>)
    ensures
        r@ == manifest(),
{
    let mut v: Vec<RegistryManifestEntry> = Vec::new();
    v.push(
        RegistryManifestEntry {
            id: "vbs.enable_virtualization_based_security",
            path: r"SYSTEM\CurrentControlSet\Control\DeviceGuard",
            value_name: "EnableVirtualizationBasedSecurity",
            target_value: Some(0),
            disable_group: DisableGroup::Vbs,
            action: RegistryAction::DisableWrite,
            hive_set: RegistryHiveSet::CurrentAndControlSet001,
            label: "VBS (가상화 기반 보안)",
            rationale: "VBS 전체 활성화 스위치",
        },
    );
    v.push(
        RegistryManifestEntry {
            id: "vbs.require_platform_security_features",
            path: r"SYSTEM\CurrentControlSet\Control\DeviceGuard",
            value_name: "RequirePlatformSecurityFeatures",
            target_value: Some(0),
            disable_group: DisableGroup::Vbs,
            action: RegistryAction::DisableWrite,
            hive_set: RegistryHiveSet::CurrentAndControlSet001,
            label: "플랫폼 보안 기능 요구",
            rationale: "VBS가 추가 플랫폼 보안 기능을 요구하지 않도록 설정",
        },
    );
    v.push(
        RegistryManifestEntry {
            id: "vbs.locked",
            path: r"SYSTEM\CurrentControlSet\Control\DeviceGuard",
            value_name: "Locked",
            target_value: None,
            disable_group: DisableGroup::Vbs,
            action: RegistryAction::InspectOnly,
            hive_set: RegistryHiveSet::CurrentAndControlSet001,
            label: "VBS 잠금",
            rationale: "UEFI 잠금은 레지스트리 쓰기로 해제되지 않아 점검만 수행",
        },
    );
    v.push(
        RegistryManifestEntry {
            id: "vbs.mandatory",
            path: r"SYSTEM\CurrentControlSet\Control\DeviceGuard",
            value_name: "Mandatory",
            target_value: Some(0),
            disable_group: DisableGroup::Vbs,
            action: RegistryAction::DisableWrite,
            hive_set: RegistryHiveSet::CurrentAndControlSet001,
            label: "VBS 강제",
            rationale: "DeviceGuard 강제 적용 상태 해제",
        },
    );
    v.push(
        RegistryManifestEntry {
            id: "core_isolation.hvci_enabled",
            path: r"SYSTEM\CurrentControlSet\Control\DeviceGuard\Scenarios\HypervisorEnforcedCodeIntegrity",
            value_name: "Enabled",
            target_value: Some(0),
            disable_group: DisableGroup::CoreIsolation,
            action: RegistryAction::DisableWrite,
            hive_set: RegistryHiveSet::CurrentAndControlSet001,
            label: "HVCI (코어 격리)",
            rationale: "하이퍼바이저 코드 무결성 비활성화",
        },
    );
    v.push(
        RegistryManifestEntry {
            id: "core_isolation.hvci_locked",
            path: r"SYSTEM\CurrentControlSet\Control\DeviceGuard\Scenarios\HypervisorEnforcedCodeIntegrity",
            value_name: "Locked",
            target_value: Some(0),
            disable_group: DisableGroup::CoreIsolation,
            action: RegistryAction::DisableWrite,
            hive_set: RegistryHiveSet::CurrentAndControlSet001,
            label: "HVCI 잠금",
            rationale: "HVCI 잠금 상태 해제",
        },
    );
    v.push(
        RegistryManifestEntry {
            id: "core_isolation.hvci_was_enabled_by",
            path: r"SYSTEM\CurrentControlSet\Control\DeviceGuard\Scenarios\HypervisorEnforcedCodeIntegrity",
            value_name: "WasEnabledBy",
            target_value: None,
            disable_group: DisableGroup::CoreIsolation,
            action: RegistryAction::InspectOnly,
            hive_set: RegistryHiveSet::CurrentOnly,
            label: "HVCI 활성화 주체",
            rationale: "상태/UI 해석용 값으로 점검만 수행",
        },
    );
    v.push(
        RegistryManifestEntry {
            id: "vbs.credential_guard_enabled",
            path: r"SYSTEM\CurrentControlSet\Control\DeviceGuard\Scenarios\CredentialGuard",
            value_name: "Enabled",
            target_value: Some(0),
            disable_group: DisableGroup::Vbs,
            action: RegistryAction::DisableWrite,
            hive_set: RegistryHiveSet::CurrentAndControlSet001,
            label: "CredentialGuard",
            rationale: "Credential Guard 비활성화",
        },
    );
    v.push(
        RegistryManifestEntry {
            id: "vbs.lsa_cfg_flags",
            path: r"SYSTEM\CurrentControlSet\Control\Lsa",
            value_name: "LsaCfgFlags",
            target_value: Some(0),
            disable_group: DisableGroup::Vbs,
            action: RegistryAction::DisableWrite,
            hive_set: RegistryHiveSet::CurrentAndControlSet001,
            label: "LSA 보호",
            rationale: "LSA 보호 플래그 비활성화",
        },
    );
    v.push(
        RegistryManifestEntry {
            id: "vbs.run_as_ppl",
            path: r"SYSTEM\CurrentControlSet\Control\Lsa",
            value_name: "RunAsPPL",
            target_value: None,
            disable_group: DisableGroup::Vbs,
            action: RegistryAction::InspectOnly,
            hive_set: RegistryHiveSet::CurrentOnly,
            label: "LSA 보호 프로세스 (RunAsPPL)",
            rationale: "직접 비활성화 시 자격 증명 보호가 해제될 위험이 있어 점검만 수행",
        },
    );
    v.push(
        RegistryManifestEntry {
            id: "vbs.run_as_ppl_boot",
            path: r"SYSTEM\CurrentControlSet\Control\Lsa",
            value_name: "RunAsPPLBoot",
            target_value: None,
            disable_group: DisableGroup::Vbs,
            action: RegistryAction::InspectOnly,
            hive_set: RegistryHiveSet::CurrentOnly,
            label: "부팅 시 LSA 보호 (RunAsPPLBoot)",
            rationale: "부팅 시 LSA 보호 활성화 여부 확인용으로 점검만 수행",
        },
    );
    v.push(
        RegistryManifestEntry {
            id: "vbs.policy_enable_virtualization_based_security",
            path: r"SOFTWARE\Policies\Microsoft\Windows\DeviceGuard",
            value_name: "EnableVirtualizationBasedSecurity",
            target_value: Some(0),
            disable_group: DisableGroup::Vbs,
            action: RegistryAction::DisableWrite,
            hive_set: RegistryHiveSet::PoliciesOnly,
            label: "VBS 정책",
            rationale: "정책 기반 VBS 활성화 해제",
        },
    );
    v.push(
        RegistryManifestEntry {
            id: "vbs.policy_require_platform_security_features",
            path: r"SOFTWARE\Policies\Microsoft\Windows\DeviceGuard",
            value_name: "RequirePlatformSecurityFeatures",
            target_value: Some(0),
            disable_group: DisableGroup::Vbs,
            action: RegistryAction::DisableWrite,
            hive_set: RegistryHiveSet::PoliciesOnly,
            label: "VBS 정책 플랫폼 보안",
            rationale: "정책 기반 플랫폼 보안 요구 해제",
        },
    );
    v.push(
        RegistryManifestEntry {
            id: "vbs.policy_lsa_cfg_flags",
            path: r"SOFTWARE\Policies\Microsoft\Windows\DeviceGuard",
            value_name: "LsaCfgFlags",
            target_value: Some(0),
            disable_group: DisableGroup::Vbs,
            action: RegistryAction::DisableWrite,
            hive_set: RegistryHiveSet::PoliciesOnly,
            label: "LSA 정책",
            rationale: "정책 기반 LSA 보호 비활성화",
        },
    );
    v.push(
        RegistryManifestEntry {
            id: "core_isolation.policy_hvci",
            path: r"SOFTWARE\Policies\Microsoft\Windows\DeviceGuard",
            value_name: "HypervisorEnforcedCodeIntegrity",
            target_value: Some(0),
            disable_group: DisableGroup::CoreIsolation,
            action: RegistryAction::DisableWrite,
            hive_set: RegistryHiveSet::PoliciesOnly,
            label: "HVCI 정책",
            rationale: "정책 기반 HVCI 비활성화",
        },
    );
    v.push(
        RegistryManifestEntry {
            id: "core_isolation.policy_hvci_enabled",
            path: r"SOFTWARE\Policies\Microsoft\Windows\DeviceGuard",
            value_name: "HVCIEnabled",
            target_value: Some(0),
            disable_group: DisableGroup::CoreIsolation,
            action: RegistryAction::DisableWrite,
            hive_set: RegistryHiveSet::PoliciesOnly,
            label: "HVCI 활성화 정책",
            rationale: "정책 기반 HVCI 활성 플래그 비활성화",
        },
    );
    v.push(
        RegistryManifestEntry {
            id: "core_isolation.policy_hvci_mat_required",
            path: r"SOFTWARE\Policies\Microsoft\Windows\DeviceGuard",
            value_name: "HVCIMATRequired",
            target_value: Some(0),
            disable_group: DisableGroup::CoreIsolation,
            action: RegistryAction::DisableWrite,
            hive_set: RegistryHiveSet::PoliciesOnly,
            label: "HVCI MAT 요구",
            rationale: "정책 기반 MAT 요구 해제",
        },
    );
    v.push(
        RegistryManifestEntry {
            id: "core_isolation.vulnerable_driver_blocklist",
            path: r"SYSTEM\CurrentControlSet\Control\CI\Config",
            value_name: "VulnerableDriverBlocklistEnable",
            target_value: Some(0),
            disable_group: DisableGroup::CoreIsolation,
            action: RegistryAction::ExcludedLegacy,
            hive_set: RegistryHiveSet::CurrentOnly,
            label: "취약 드라이버 차단",
            rationale: "BYOVD 방어 기능으로 기본 조치에서 제외, 필요 시 수동 선택",
        },
    );
    v.push(
        RegistryManifestEntry {
            id: "legacy.enable_secure_launch",
            path: r"SYSTEM\CurrentControlSet\Control\DeviceGuard",
            value_name: "EnableSecureLaunch",
            target_value: Some(0),
            disable_group: DisableGroup::Vbs,
            action: RegistryAction::ExcludedLegacy,
            hive_set: RegistryHiveSet::CurrentAndControlSet001,
            label: "Secure Launch (DRTM)",
            rationale: "VM 호환성에 영향을 줄 수 있어 선택적 조치 후보로만 등록",
        },
    );
    v.push(
        RegistryManifestEntry {
            id: "legacy.require_microsoft_signed_boot_chain",
            path: r"SYSTEM\CurrentControlSet\Control\DeviceGuard",
            value_name: "RequireMicrosoftSignedBootChain",
            target_value: Some(0),
            disable_group: DisableGroup::Vbs,
            action: RegistryAction::ExcludedLegacy,
            hive_set: RegistryHiveSet::CurrentAndControlSet001,
            label: "MS 서명 부트 체인 요구",
            rationale: "효과 재검증 전까지 기본 write 대상에서 제외",
        },
    );
    v.push(
        RegistryManifestEntry {
            id: "legacy.system_guard_enabled",
            path: r"SYSTEM\CurrentControlSet\Control\DeviceGuard\Scenarios\SystemGuard",
            value_name: "Enabled",
            target_value: Some(0),
            disable_group: DisableGroup::Vbs,
            action: RegistryAction::ExcludedLegacy,
            hive_set: RegistryHiveSet::CurrentAndControlSet001,
            label: "SystemGuard",
            rationale: "기본 비활성화 세트에서 보류",
        },
    );
    v.push(
        RegistryManifestEntry {
            id: "legacy.secure_biometrics_enabled",
            path: r"SYSTEM\CurrentControlSet\Control\DeviceGuard\Scenarios\SecureBiometrics",
            value_name: "Enabled",
            target_value: Some(0),
            disable_group: DisableGroup::Vbs,
            action: RegistryAction::ExcludedLegacy,
            hive_set: RegistryHiveSet::CurrentOnly,
            label: "SecureBiometrics",
            rationale: "기본 비활성화 세트에서 보류",
        },
    );
    v.push(
        RegistryManifestEntry {
            id: "legacy.lsa_cfg_flags_default",
            path: r"SYSTEM\CurrentControlSet\Control\Lsa",
            value_name: "LsaCfgFlagsDefault",
            target_value: Some(0),
            disable_group: DisableGroup::Vbs,
            action: RegistryAction::ExcludedLegacy,
            hive_set: RegistryHiveSet::CurrentAndControlSet001,
            label: "LSA 기본 구성",
            rationale: "핵심 플래그가 아니므로 기본 세트에서 제외",
        },
    );
    v.push(
        RegistryManifestEntry {
            id: "legacy.configure_system_guard_launch",
            path: r"SOFTWARE\Policies\Microsoft\Windows\DeviceGuard",
            value_name: "ConfigureSystemGuardLaunch",
            target_value: Some(0),
            disable_group: DisableGroup::CoreIsolation,
            action: RegistryAction::ExcludedLegacy,
            hive_set: RegistryHiveSet::PoliciesOnly,
            label: "SystemGuard 시작 정책",
            rationale: "효과 재검증 전까지 보류",
        },
    );
    assert(v@ =~= manifest());
    v
}

/// The entries that are not excluded, in order.
pub fn inspect_entries_of(s: &[RegistryManifestEntry]) -> (r: Vec<RegistryManifestEntry>)
    ensures
        r@ == inspect_list(s@),
{
    let mut r: Vec<RegistryManifestEntry> = Vec::new();
    let mut i: usize = 0;
    while i < s.len()
        invariant
            0 <= i <= s@.len(),
            r@ == inspect_list(s@.take(i as int)),
        decreases s@.len() - i,
    {
        assert(s@.take(i + 1).drop_last() =~= s@.take(i as int));
        if s[i].action != RegistryAction::ExcludedLegacy {
            r.push(s[i]);
        }
        i += 1;
    }
    assert(s@.take(s@.len() as int) =~= s@);
    r
}

/// The manifest entries that inspection reads.
pub fn inspect_entries() -> (r: Vec<RegistryManifestEntry>)
    ensures
        r@ == inspect_list(manifest()),
{
    let all = all_manifest_entries();
    inspect_entries_of(all.as_slice())
}

fn resolved_at(entry: &RegistryManifestEntry, path: String) -> (r: ResolvedRegistryManifestEntry)
    ensures
        r@ == resolve(*entry, path@),
{
    ResolvedRegistryManifestEntry {
        id: entry.id,
        path,
        value_name: entry.value_name,
        target_value: entry.target_value,
        disable_group: entry.disable_group,
        action: entry.action,
        label: entry.label,
        rationale: entry.rationale,
    }
}

/// The `ControlSet001` mirror of a path.
pub fn mirror_path_of(path: &str) -> (r: String)
    ensures
        r@ == mirror_path(path@),
{
    let from = chars_of("CurrentControlSet");
    let to = chars_of("ControlSet001");
    proof {
        reveal_strlit("CurrentControlSet");
    }
    let p = chars_of(path);
    let m = replace_chars(p.as_slice(), from.as_slice(), to.as_slice());
    string_of(m.as_slice())
}

/// An entry at each of its registry paths.
pub fn resolve_entry_paths(entry: &RegistryManifestEntry) -> (r: Vec<ResolvedRegistryManifestEntry>)
    ensures
        resolved_views(r@) == resolved(*entry),
{
    let mut r: Vec<ResolvedRegistryManifestEntry> = Vec::new();
    match entry.hive_set {
        RegistryHiveSet::CurrentAndControlSet001 => {
            r.push(resolved_at(entry, entry.path.to_owned()));
            r.push(resolved_at(entry, mirror_path_of(entry.path)));
        },
        _ => {
            r.push(resolved_at(entry, entry.path.to_owned()));
        },
    }
    assert(resolved_views(r@) =~= resolved(*entry));
    r
}

/// The `DisableWrite` entries of `group` in `s`, at each of their paths.
pub fn disable_write_entries_of(s: &[RegistryManifestEntry], group: DisableGroup) -> (r: Vec<
    ResolvedRegistryManifestEntry,
>)
    ensures
        resolved_views(r@) == disable_write_list(s@, group),
{
    let mut r: Vec<ResolvedRegistryManifestEntry> = Vec::new();
    let mut i: usize = 0;
    while i < s.len()
        invariant
            0 <= i <= s@.len(),
            resolved_views(r@) == disable_write_list(s@.take(i as int), group),
        decreases s@.len() - i,
    {
        assert(s@.take(i + 1).drop_last() =~= s@.take(i as int));
        let e = s[i];
        if e.action == RegistryAction::DisableWrite && e.disable_group == group {
            let mut more = resolve_entry_paths(&e);
            let ghost before = r@;
            r.append(&mut more);
            assert(resolved_views(r@) =~= resolved_views(before) + resolved(e));
        }
        i += 1;
    }
    assert(s@.take(s@.len() as int) =~= s@);
    r
}

/// The values written when `group` is disabled.
pub fn disable_write_entries(group: DisableGroup) -> (r: Vec<ResolvedRegistryManifestEntry>)
    ensures
        resolved_views(r@) == disable_write_list(manifest(), group),
{
    let all = all_manifest_entries();
    disable_write_entries_of(all.as_slice(), group)
}

} // verus!

verus! {

// ---------------------------------------------------------------------------
// Laws of the manifest
// ---------------------------------------------------------------------------

proof fn lemma_disable_write_list_members(s: Seq<RegistryManifestEntry>, group: DisableGroup)
    requires
        forall|i: int| 0 <= i < s.len() && (#[trigger] s[i]).action == RegistryAction::DisableWrite ==> s[i].target_value == Some(0u32),
    ensures
        forall|k: int| 0 <= k < disable_write_list(s, group).len() ==> {
            let r = #[trigger] disable_write_list(s, group)[k];
            &&& r.action == RegistryAction::DisableWrite
            &&& r.disable_group == group
            &&& r.target_value == Some(0u32)
        },
    decreases s.len(),
{
    if s.len() > 0 {
        let prefix = s.drop_last();
        assert forall|i: int| 0 <= i < prefix.len() && (#[trigger] prefix[i]).action == RegistryAction::DisableWrite implies prefix[i].target_value == Some(0u32) by {
            assert(prefix[i] == s[i]);
        }
        lemma_disable_write_list_members(prefix, group);
        let e = s.last();
        assert(s[s.len() - 1] == e);
    }
}

proof fn lemma_disable_write_list_contains(s: Seq<RegistryManifestEntry>, group: DisableGroup, i: int, k: int)
    requires
        0 <= i < s.len(),
        s[i].action == RegistryAction::DisableWrite,
        s[i].disable_group == group,
        0 <= k < resolved(s[i]).len(),
    ensures
        disable_write_list(s, group).contains(resolved(s[i])[k]),
    decreases s.len(),
{
    let prefix = s.drop_last();
    let r = disable_write_list(prefix, group);
    if i < s.len() - 1 {
        assert(prefix[i] == s[i]);
        lemma_disable_write_list_contains(prefix, group, i, k);
        let j = choose|j: int| 0 <= j < r.len() && r[j] == resolved(s[i])[k];
        if s.last().action == RegistryAction::DisableWrite && s.last().disable_group == group {
            assert((r + resolved(s.last()))[j] == resolved(s[i])[k]);
        }
    } else {
        assert((r + resolved(s[i]))[r.len() + k] == resolved(s[i])[k]);
    }
}

/// Each entry of the manifest that remediation writes has 0 as its target.
proof fn lemma_manifest_targets_zero()
    ensures
        forall|i: int| 0 <= i < manifest().len() && (#[trigger] manifest()[i]).action == RegistryAction::DisableWrite ==> manifest()[i].target_value == Some(0u32),
{
    let m = manifest();
    assert(m.len() == 24);
    assert forall|i: int| 0 <= i < m.len() && (#[trigger] m[i]).action == RegistryAction::DisableWrite implies m[i].target_value == Some(0u32) by {
        if i == 0 {} else if i == 1 {} else if i == 2 {} else if i == 3 {} else if i == 4 {}
        else if i == 5 {} else if i == 6 {} else if i == 7 {} else if i == 8 {} else if i == 9 {}
        else if i == 10 {} else if i == 11 {} else if i == 12 {} else if i == 13 {} else if i == 14 {}
        else if i == 15 {} else if i == 16 {} else if i == 17 {} else if i == 18 {} else if i == 19 {}
        else if i == 20 {} else if i == 21 {} else if i == 22 {}
        else {}
    }
}

/// Remediation writes only `DisableWrite` entries of the group it disables,
/// and writes each of them to 0.
pub proof fn law_remediation_writes_group_entries_to_zero(group: DisableGroup)
    ensures
        forall|k: int| 0 <= k < disable_write_list(manifest(), group).len() ==> {
            let r = #[trigger] disable_write_list(manifest(), group)[k];
            &&& r.action == RegistryAction::DisableWrite
            &&& r.disable_group == group
            &&& r.target_value == Some(0u32)
        },
{
    lemma_manifest_targets_zero();
    lemma_disable_write_list_members(manifest(), group);
}

/// A value kept in both `CurrentControlSet` and `ControlSet001` is written
/// at both paths when its group is disabled.
pub proof fn law_mirrored_values_written_at_both_paths(i: int)
    requires
        0 <= i < manifest().len(),
        manifest()[i].action == RegistryAction::DisableWrite,
        manifest()[i].hive_set == RegistryHiveSet::CurrentAndControlSet001,
    ensures
        disable_write_list(manifest(), manifest()[i].disable_group).contains(
            resolve(manifest()[i], manifest()[i].path@),
        ),
        disable_write_list(manifest(), manifest()[i].disable_group).contains(
            resolve(manifest()[i], mirror_path(manifest()[i].path@)),
        ),
{
    let e = manifest()[i];
    assert(resolved(e)[0] == resolve(e, e.path@));
    assert(resolved(e)[1] == resolve(e, mirror_path(e.path@)));
    lemma_disable_write_list_contains(manifest(), e.disable_group, i, 0);
    lemma_disable_write_list_contains(manifest(), e.disable_group, i, 1);
}

proof fn lemma_inspect_list(s: Seq<RegistryManifestEntry>)
    ensures
        forall|k: int| 0 <= k < inspect_list(s).len() ==> (#[trigger] inspect_list(s)[k]).action != RegistryAction::ExcludedLegacy,
        forall|i: int| 0 <= i < s.len() && (#[trigger] s[i]).action != RegistryAction::ExcludedLegacy ==> inspect_list(s).contains(s[i]),
    decreases s.len(),
{
    if s.len() > 0 {
        let prefix = s.drop_last();
        lemma_inspect_list(prefix);
        let r = inspect_list(prefix);
        assert forall|i: int| 0 <= i < s.len() && (#[trigger] s[i]).action != RegistryAction::ExcludedLegacy implies inspect_list(s).contains(s[i]) by {
            if i < s.len() - 1 {
                assert(prefix[i] == s[i]);
                let j = choose|j: int| 0 <= j < r.len() && r[j] == prefix[i];
                if s.last().action != RegistryAction::ExcludedLegacy {
                    assert(r.push(s.last())[j] == s[i]);
                }
            } else {
                assert(r.push(s.last())[r.len() as int] == s[i]);
            }
        }
    }
}

/// Inspection reads every entry of the manifest except the excluded legacy
/// ones, and none of those.
pub proof fn law_inspection_skips_only_legacy_entries()
    ensures
        forall|k: int| 0 <= k < inspect_list(manifest()).len() ==> (#[trigger] inspect_list(manifest())[k]).action != RegistryAction::ExcludedLegacy,
        forall|i: int| 0 <= i < manifest().len() && (#[trigger] manifest()[i]).action != RegistryAction::ExcludedLegacy ==> inspect_list(manifest()).contains(manifest()[i]),
{
    lemma_inspect_list(manifest());
}

} // verus!

verus! {

// ---------------------------------------------------------------------------
// Optional actions
// ---------------------------------------------------------------------------

/// The id is among the selected ones.
pub open spec fn id_selected(ids: Seq<String>, id: Seq<char>) -> bool {
    exists|j: int| 0 <= j < ids.len() && (#[trigger] ids[j])@ == id
}

/// The excluded entries whose ids were selected, at each of their paths, in
/// manifest order. Entries of any other kind are never selected this way.
pub open spec fn optional_list(s: Seq<RegistryManifestEntry>, ids: Seq<String>) -> Seq<ResolvedEntry>
    decreases s.len(),
{
    if s.len() == 0 {
        seq![]
    } else {
        let r = optional_list(s.drop_last(), ids);
        let e = s.last();
        if e.action == RegistryAction::ExcludedLegacy && id_selected(ids, e.id@) {
            r + resolved(e)
        } else {
            r
        }
    }
}

fn id_in(ids: &[String], id: &str) -> (r: bool)
    ensures
        r == id_selected(ids@, id@),
{
    let target = id.to_owned();
    let mut j: usize = 0;
    while j < ids.len()
        invariant
            0 <= j <= ids@.len(),
            target@ == id@,
            forall|k: int| 0 <= k < j ==> (#[trigger] ids@[k])@ != id@,
        decreases ids@.len() - j,
    {
        if ids[j] == target {
            return true;
        }
        j += 1;
    }
    false
}

/// The excluded values that the user selected by id, at each of their paths.
pub fn selected_optional_entries(ids: &[String]) -> (r: Vec<ResolvedRegistryManifestEntry>)
    ensures
        resolved_views(r@) == optional_list(manifest(), ids@),
{
    let all = all_manifest_entries();
    let s = all.as_slice();
    let mut r: Vec<ResolvedRegistryManifestEntry> = Vec::new();
    let mut i: usize = 0;
    while i < s.len()
        invariant
            0 <= i <= s@.len(),
            s@ == manifest(),
            resolved_views(r@) == optional_list(s@.take(i as int), ids@),
        decreases s@.len() - i,
    {
        assert(s@.take(i + 1).drop_last() =~= s@.take(i as int));
        let e = s[i];
        if e.action == RegistryAction::ExcludedLegacy && id_in(ids, e.id) {
            let mut more = resolve_entry_paths(&e);
            let ghost before = r@;
            r.append(&mut more);
            assert(resolved_views(r@) =~= resolved_views(before) + resolved(e));
        }
        i += 1;
    }
    assert(s@.take(s@.len() as int) =~= s@);
    r
}

proof fn lemma_optional_list_members(s: Seq<RegistryManifestEntry>, ids: Seq<String>)
    ensures
        forall|k: int| 0 <= k < optional_list(s, ids).len() ==> (#[trigger] optional_list(s, ids)[k]).action
            == RegistryAction::ExcludedLegacy,
    decreases s.len(),
{
    if s.len() > 0 {
        lemma_optional_list_members(s.drop_last(), ids);
    }
}

/// A selection by id reaches only the entries excluded from automatic
/// remediation; the automatic and inspect-only entries cannot be selected.
pub proof fn law_optional_selection_only_reaches_excluded_entries(ids: Seq<String>)
    ensures
        forall|k: int| 0 <= k < optional_list(manifest(), ids).len() ==> (#[trigger] optional_list(
            manifest(),
            ids,
        )[k]).action == RegistryAction::ExcludedLegacy,
{
    lemma_optional_list_members(manifest(), ids);
}

} // verus!
