//! Virtualization inspection: turning what DISM, bcdedit, WMI and the
//! registry report into inspection rows.
use vstd::prelude::*;
use crate::models::virtualization::{
    DisableGroup, VirtRow, VirtualizationItem, VirtualizationKind, VirtualizationSource,
    plain_virt_row, push_virt_row, virt_rows_of,
};
use crate::services::process_service::{ProcessResult, dism_feature_state, parse_dism_feature_state};
use crate::services::registry_manifest::{
    RegistryAction, RegistryManifestEntry, ResolvedEntry, ResolvedRegistryManifestEntry,
    all_manifest_entries, manifest, resolve_entry_paths, resolved, resolved_views,
};
use crate::services::wmi_service::Win32Processor;
use crate::text::{
    ascii_lower_seq, cat, cat3, chars_of, decimal, eq_ignore_ascii_case, eq_ignore_ascii_case_chars, extend_chars,
    has_prefix, join, push_str, starts_with, string_of, to_lowercase, trim, trim_str,
    u64_to_string, unicode_lowercase,
};

verus! {

/// Whether a Windows feature is on, according to DISM.
#[derive(Debug)]
pub enum FeatureState {
    Enabled,
    Disabled,
    /// The state could not be determined; the text says why.
    Unknown(String),
}

pub enum FeatureStateView {
    Enabled,
    Disabled,
    Unknown(Seq<char>),
}

impl View for FeatureState {
    type V = FeatureStateView;

    open spec fn view(&self) -> FeatureStateView {
        match self {
            FeatureState::Enabled => FeatureStateView::Enabled,
            FeatureState::Disabled => FeatureStateView::Disabled,
            FeatureState::Unknown(m) => FeatureStateView::Unknown(m@),
        }
    }
}

/// Why a DISM run failed: its trimmed standard error, else its trimmed
/// standard output, else a fixed message.
pub open spec fn dism_failure_text(stdout: Seq<char>, stderr: Seq<char>) -> Seq<char> {
    if trim(stderr).len() > 0 {
        trim(stderr)
    } else if trim(stdout).len() > 0 {
        trim(stdout)
    } else {
        "DISM 실행 실패"@
    }
}

/// The feature state read from a DISM run. A failed run, or a state that is
/// neither "Enabled" nor "Disabled", is unknown rather than disabled.
pub open spec fn feature_state_of(success: bool, stdout: Seq<char>, stderr: Seq<char>) -> FeatureStateView {
    if !success {
        FeatureStateView::Unknown(dism_failure_text(stdout, stderr))
    } else {
        match dism_feature_state(stdout) {
            Some(s) => if eq_ignore_ascii_case(s, "Enabled"@) {
                FeatureStateView::Enabled
            } else if eq_ignore_ascii_case(s, "Disabled"@) {
                FeatureStateView::Disabled
            } else {
                FeatureStateView::Unknown("알 수 없는 DISM 상태: "@ + s)
            },
            None => FeatureStateView::Unknown("DISM 상태 출력을 해석하지 못했습니다"@),
        }
    }
}

fn eq_ignore_case_str(a: &str, b: &str) -> (r: bool)
    ensures
        r == eq_ignore_ascii_case(a@, b@),
{
    let x = chars_of(a);
    let y = chars_of(b);
    eq_ignore_ascii_case_chars(x.as_slice(), y.as_slice())
}

fn starts_with_str(a: &str, p: &str) -> (r: bool)
    ensures
        r == has_prefix(a@, p@),
{
    let x = chars_of(a);
    let y = chars_of(p);
    starts_with(x.as_slice(), y.as_slice())
}

pub fn feature_state(result: &ProcessResult) -> (r: FeatureState)
    ensures
        r@ == feature_state_of(result.success, result.stdout@, result.stderr@),
{
    if !result.success {
        let e = trim_str(result.stderr.as_str());
        let o = trim_str(result.stdout.as_str());
        let message = if e.as_str().unicode_len() > 0 {
            e
        } else if o.as_str().unicode_len() > 0 {
            o
        } else {
            String::from_str("DISM 실행 실패")
        };
        return FeatureState::Unknown(message);
    }
    match parse_dism_feature_state(result.stdout.as_str()) {
        Some(state) => {
            if eq_ignore_case_str(state.as_str(), "Enabled") {
                FeatureState::Enabled
            } else if eq_ignore_case_str(state.as_str(), "Disabled") {
                FeatureState::Disabled
            } else {
                FeatureState::Unknown(cat("알 수 없는 DISM 상태: ", state.as_str()))
            }
        },
        None => FeatureState::Unknown(String::from_str("DISM 상태 출력을 해석하지 못했습니다")),
    }
}

pub open spec fn is_unknown_state(st: FeatureStateView) -> bool {
    st is Unknown
}

/// The inspection row for one Hyper-V feature.
pub open spec fn hyperv_feature_row(feature: Seq<char>, label: Seq<char>, st: FeatureStateView) -> VirtRow {
    let base = plain_virt_row(
        label,
        match st {
            FeatureStateView::Enabled => "설치됨 (활성)"@,
            FeatureStateView::Disabled => "설치됨 (비활성)"@,
            FeatureStateView::Unknown(_) => "확인 불가"@,
        },
        match st {
            FeatureStateView::Enabled => feature + " 가 활성화되어 있습니다"@,
            FeatureStateView::Disabled => feature + " 가 비활성화되어 있습니다"@,
            FeatureStateView::Unknown(m) => m,
        },
        match st {
            FeatureStateView::Enabled => "VM 사용을 위해 비활성화가 필요합니다"@,
            FeatureStateView::Disabled => ""@,
            FeatureStateView::Unknown(_) => "DISM 상태를 확인한 뒤 다시 점검하세요"@,
        },
    );
    VirtRow {
        source_type: VirtualizationSource::Feature,
        disable_group: Some(DisableGroup::Hyperv),
        action_required: st is Enabled,
        unknown: is_unknown_state(st),
        ..base
    }
}

/// The inspection row for one WSL feature.
pub open spec fn wsl_feature_row(label: Seq<char>, st: FeatureStateView) -> VirtRow {
    let base = plain_virt_row(
        label,
        match st {
            FeatureStateView::Enabled => "설치됨 (활성)"@,
            FeatureStateView::Disabled => "비활성 또는 미설치"@,
            FeatureStateView::Unknown(_) => "확인 불가"@,
        },
        match st {
            FeatureStateView::Enabled => label + " 가 활성화되어 있습니다"@,
            FeatureStateView::Disabled => label + " 가 비활성화되어 있습니다"@,
            FeatureStateView::Unknown(m) => m,
        },
        match st {
            FeatureStateView::Enabled => "VM 성능 향상을 위해 비활성화를 권장합니다"@,
            FeatureStateView::Disabled => ""@,
            FeatureStateView::Unknown(_) => "DISM 상태를 확인한 뒤 다시 점검하세요"@,
        },
    );
    VirtRow {
        source_type: VirtualizationSource::Feature,
        disable_group: Some(DisableGroup::Wsl),
        action_required: st is Enabled,
        unknown: is_unknown_state(st),
        ..base
    }
}

pub fn hyperv_feature_item(feature: &str, label: &str, result: &ProcessResult) -> (r:
    VirtualizationItem)
    ensures
        r@ == hyperv_feature_row(
            feature@,
            label@,
            feature_state_of(result.success, result.stdout@, result.stderr@),
        ),
{
    let state = feature_state(result);
    let is_unknown = match &state {
        FeatureState::Unknown(_) => true,
        _ => false,
    };
    let (status, details, rec, action_required) = match state {
        FeatureState::Enabled => (
            "설치됨 (활성)",
            cat(feature, " 가 활성화되어 있습니다"),
            "VM 사용을 위해 비활성화가 필요합니다",
            true,
        ),
        FeatureState::Disabled => (
            "설치됨 (비활성)",
            cat(feature, " 가 비활성화되어 있습니다"),
            "",
            false,
        ),
        FeatureState::Unknown(message) => (
            "확인 불가",
            message,
            "DISM 상태를 확인한 뒤 다시 점검하세요",
            false,
        ),
    };
    VirtualizationItem::new(label, status, details.as_str(), rec).with_source(
        VirtualizationSource::Feature,
    ).with_disable_group(DisableGroup::Hyperv, action_required).with_unknown(is_unknown)
}

pub fn wsl_feature_item(label: &str, result: &ProcessResult) -> (r: VirtualizationItem)
    ensures
        r@ == wsl_feature_row(label@, feature_state_of(result.success, result.stdout@, result.stderr@)),
{
    let state = feature_state(result);
    let is_unknown = match &state {
        FeatureState::Unknown(_) => true,
        _ => false,
    };
    let (status, details, rec, action_required) = match state {
        FeatureState::Enabled => (
            "설치됨 (활성)",
            cat(label, " 가 활성화되어 있습니다"),
            "VM 성능 향상을 위해 비활성화를 권장합니다",
            true,
        ),
        FeatureState::Disabled => (
            "비활성 또는 미설치",
            cat(label, " 가 비활성화되어 있습니다"),
            "",
            false,
        ),
        FeatureState::Unknown(message) => (
            "확인 불가",
            message,
            "DISM 상태를 확인한 뒤 다시 점검하세요",
            false,
        ),
    };
    VirtualizationItem::new(label, status, details.as_str(), rec).with_source(
        VirtualizationSource::Feature,
    ).with_disable_group(DisableGroup::Wsl, action_required).with_unknown(is_unknown)
}

pub open spec fn fs_of(r: ProcessResult) -> FeatureStateView {
    feature_state_of(r.success, r.stdout@, r.stderr@)
}

/// Rows for the two Hyper-V features, given the DISM runs that queried
/// `Microsoft-Hyper-V-All` and `Microsoft-Hyper-V-Hypervisor`.
pub fn check_hyperv_status(
    items: &mut Vec<VirtualizationItem>,
    all: &ProcessResult,
    hypervisor: &ProcessResult,
)
    ensures
        virt_rows_of(final(items)@) == virt_rows_of(old(items)@) + seq![
            hyperv_feature_row("Microsoft-Hyper-V-All"@, "Hyper-V (전체)"@, fs_of(*all)),
            hyperv_feature_row(
                "Microsoft-Hyper-V-Hypervisor"@,
                "Hyper-V 하이퍼바이저"@,
                fs_of(*hypervisor),
            ),
        ],
{
    let ghost before = virt_rows_of(items@);
    push_virt_row(items, hyperv_feature_item("Microsoft-Hyper-V-All", "Hyper-V (전체)", all));
    push_virt_row(
        items,
        hyperv_feature_item("Microsoft-Hyper-V-Hypervisor", "Hyper-V 하이퍼바이저", hypervisor),
    );
    assert(virt_rows_of(items@) =~= before + seq![
        hyperv_feature_row("Microsoft-Hyper-V-All"@, "Hyper-V (전체)"@, fs_of(*all)),
        hyperv_feature_row(
            "Microsoft-Hyper-V-Hypervisor"@,
            "Hyper-V 하이퍼바이저"@,
            fs_of(*hypervisor),
        ),
    ]);
}

/// Rows for the two WSL features, given the DISM runs that queried
/// `Microsoft-Windows-Subsystem-Linux` and `VirtualMachinePlatform`.
pub fn check_wsl_status(
    items: &mut Vec<VirtualizationItem>,
    subsystem: &ProcessResult,
    platform: &ProcessResult,
)
    ensures
        virt_rows_of(final(items)@) == virt_rows_of(old(items)@) + seq![
            wsl_feature_row("WSL"@, fs_of(*subsystem)),
            wsl_feature_row("가상 머신 플랫폼 (WSL2)"@, fs_of(*platform)),
        ],
{
    let ghost before = virt_rows_of(items@);
    push_virt_row(items, wsl_feature_item("WSL", subsystem));
    push_virt_row(items, wsl_feature_item("가상 머신 플랫폼 (WSL2)", platform));
    assert(virt_rows_of(items@) =~= before + seq![
        wsl_feature_row("WSL"@, fs_of(*subsystem)),
        wsl_feature_row("가상 머신 플랫폼 (WSL2)"@, fs_of(*platform)),
    ]);
}

/// A bcdedit reading that is an error or "확인 불가".
pub open spec fn launch_unknown(t: Seq<char>) -> bool {
    eq_ignore_ascii_case(t, "확인 불가"@) || has_prefix(t, "오류"@)
}

pub open spec fn hypervisor_launch_active(t: Seq<char>) -> bool {
    !launch_unknown(t) && !eq_ignore_ascii_case(t, "off"@)
}

pub open spec fn vsm_launch_active(t: Seq<char>) -> bool {
    !launch_unknown(t) && !(unicode_lowercase(t) == "off"@ || unicode_lowercase(t) == "미설정"@)
}

pub open spec fn hypervisor_launch_row(t: Seq<char>) -> VirtRow {
    let active = hypervisor_launch_active(t);
    VirtRow {
        source_type: VirtualizationSource::Bcd,
        disable_group: Some(DisableGroup::Hyperv),
        action_required: active,
        unknown: launch_unknown(t),
        ..plain_virt_row(
            "Hypervisor 시작 유형"@,
            t,
            "bcdedit hypervisorlaunchtype: "@ + t,
            if active {
                "비활성화를 위해 bcdedit /set hypervisorlaunchtype off 실행 필요"@
            } else {
                ""@
            },
        )
    }
}

pub open spec fn vsm_launch_row(t: Seq<char>) -> VirtRow {
    let active = vsm_launch_active(t);
    VirtRow {
        source_type: VirtualizationSource::Bcd,
        disable_group: Some(DisableGroup::Hyperv),
        action_required: active,
        unknown: launch_unknown(t),
        ..plain_virt_row(
            "VSM 시작 유형 (vsmlaunchtype)"@,
            t,
            "bcdedit vsmlaunchtype: "@ + t,
            if active {
                "비활성화를 위해 bcdedit /set vsmlaunchtype off 실행 필요"@
            } else {
                ""@
            },
        )
    }
}

fn is_launch_unknown(t: &str) -> (r: bool)
    ensures
        r == launch_unknown(t@),
{
    eq_ignore_case_str(t, "확인 불가") || starts_with_str(t, "오류")
}

/// The row for the hypervisor launch type read from bcdedit.
pub fn check_hypervisor_launch(items: &mut Vec<VirtualizationItem>, launch_type: &str)
    ensures
        virt_rows_of(final(items)@) == virt_rows_of(old(items)@).push(
            hypervisor_launch_row(launch_type@),
        ),
{
    let is_unknown = is_launch_unknown(launch_type);
    let is_active = !is_unknown && !eq_ignore_case_str(launch_type, "off");
    let details = cat("bcdedit hypervisorlaunchtype: ", launch_type);
    let item = VirtualizationItem::new(
        "Hypervisor 시작 유형",
        launch_type,
        details.as_str(),
        if is_active {
            "비활성화를 위해 bcdedit /set hypervisorlaunchtype off 실행 필요"
        } else {
            ""
        },
    ).with_source(VirtualizationSource::Bcd).with_disable_group(DisableGroup::Hyperv, is_active).with_unknown(is_unknown);
    push_virt_row(items, item);
}

/// The row for the VSM launch type read from bcdedit.
pub fn check_vsm_launch(items: &mut Vec<VirtualizationItem>, vsm_type: &str)
    ensures
        virt_rows_of(final(items)@) == virt_rows_of(old(items)@).push(vsm_launch_row(vsm_type@)),
{
    let is_unknown = is_launch_unknown(vsm_type);
    let lower = to_lowercase(vsm_type);
    let off = lower == String::from_str("off") || lower == String::from_str("미설정");
    let is_active = !is_unknown && !off;
    let details = cat("bcdedit vsmlaunchtype: ", vsm_type);
    let item = VirtualizationItem::new(
        "VSM 시작 유형 (vsmlaunchtype)",
        vsm_type,
        details.as_str(),
        if is_active {
            "비활성화를 위해 bcdedit /set vsmlaunchtype off 실행 필요"
        } else {
            ""
        },
    ).with_source(VirtualizationSource::Bcd).with_disable_group(DisableGroup::Hyperv, is_active).with_unknown(is_unknown);
    push_virt_row(items, item);
}


// ---------------------------------------------------------------------------
// Registry manifest values
// ---------------------------------------------------------------------------

/// One registry value as read for inspection.
#[derive(Debug, Clone)]
pub struct RegistryRead {
    pub value: Option<u32>,
    pub error: Option<String>,
    pub detail: String,
}

pub struct ReadView {
    pub value: Option<u32>,
    pub error: Option<Seq<char>>,
    pub detail: Seq<char>,
}

impl View for RegistryRead {
    type V = ReadView;

    open spec fn view(&self) -> ReadView {
        ReadView {
            value: self.value,
            error: match self.error {
                Some(e) => Some(e@),
                None => None,
            },
            detail: self.detail@,
        }
    }
}

pub open spec fn reads_view(s: Seq<RegistryRead>) -> Seq<ReadView> {
    s.map_values(|r: RegistryRead| r@)
}

/// `path\name` as the inspection shows it.
pub open spec fn value_location(path: Seq<char>, name: Seq<char>) -> Seq<char> {
    path + "\\"@ + name
}

/// The reading of a value: its number, "<미설정>" when it is absent, or the
/// error when it could not be read.
pub open spec fn registry_read_of(
    path: Seq<char>,
    name: Seq<char>,
    outcome: Result<Option<u32>, Seq<char>>,
) -> ReadView {
    match outcome {
        Ok(Some(v)) => ReadView {
            value: Some(v),
            error: None,
            detail: value_location(path, name) + " = "@ + decimal(v as nat),
        },
        Ok(None) => ReadView {
            value: None,
            error: None,
            detail: value_location(path, name) + " = <미설정>"@,
        },
        Err(e) => ReadView {
            value: None,
            error: Some(e),
            detail: value_location(path, name) + " = <확인 불가: "@ + e + ">"@,
        },
    }
}

pub open spec fn read_outcome_view(o: Result<Option<u32>, String>) -> Result<Option<u32>, Seq<char>> {
    match o {
        Ok(v) => Ok(v),
        Err(e) => Err(e@),
    }
}

pub fn read_registry_value(resolved: &ResolvedRegistryManifestEntry, outcome: &Result<Option<u32>, String>) -> (r:
    RegistryRead)
    ensures
        r@ == registry_read_of(resolved.path@, resolved.value_name@, read_outcome_view(*outcome)),
{
    let mut d: Vec<char> = Vec::new();
    push_str(&mut d, resolved.path.as_str());
    push_str(&mut d, "\\");
    push_str(&mut d, resolved.value_name);
    match outcome {
        Ok(Some(v)) => {
            push_str(&mut d, " = ");
            let n = u64_to_string(*v as u64);
            push_str(&mut d, n.as_str());
            RegistryRead { value: Some(*v), error: None, detail: string_of(d.as_slice()) }
        },
        Ok(None) => {
            push_str(&mut d, " = <미설정>");
            RegistryRead { value: None, error: None, detail: string_of(d.as_slice()) }
        },
        Err(e) => {
            push_str(&mut d, " = <확인 불가: ");
            push_str(&mut d, e.as_str());
            push_str(&mut d, ">");
            RegistryRead { value: None, error: Some(e.clone()), detail: string_of(d.as_slice()) }
        },
    }
}

pub open spec fn any_error(reads: Seq<ReadView>) -> bool {
    exists|i: int| 0 <= i < reads.len() && (#[trigger] reads[i]).error is Some
}

pub open spec fn any_value(reads: Seq<ReadView>) -> bool {
    exists|i: int| 0 <= i < reads.len() && (#[trigger] reads[i]).value is Some
}

/// Some value was read and differs from the target.
pub open spec fn any_differs(reads: Seq<ReadView>, target: u32) -> bool {
    exists|i: int|
        0 <= i < reads.len() && (#[trigger] reads[i]).value is Some && reads[i].value->0 != target
}

/// The first value that was read.
pub open spec fn first_value(reads: Seq<ReadView>) -> Option<u32>
    decreases reads.len(),
{
    if reads.len() == 0 {
        None
    } else if reads[0].value is Some {
        reads[0].value
    } else {
        first_value(reads.drop_first())
    }
}

pub open spec fn details_of(reads: Seq<ReadView>) -> Seq<char> {
    join(reads.map_values(|r: ReadView| r.detail), "\n"@)
}

pub fn has_registry_error(values: &[RegistryRead]) -> (r: bool)
    ensures
        r == any_error(reads_view(values@)),
{
    let mut i: usize = 0;
    while i < values.len()
        invariant
            0 <= i <= values@.len(),
            forall|j: int| 0 <= j < i ==> values@[j].error is None,
        decreases values@.len() - i,
    {
        if values[i].error.is_some() {
            assert(reads_view(values@)[i as int].error is Some);
            return true;
        }
        i += 1;
    }
    assert forall|j: int| 0 <= j < values@.len() implies (#[trigger] reads_view(values@)[j]).error is None by {}
    false
}

fn has_any_value(values: &[RegistryRead]) -> (r: bool)
    ensures
        r == any_value(reads_view(values@)),
{
    let mut i: usize = 0;
    while i < values.len()
        invariant
            0 <= i <= values@.len(),
            forall|j: int| 0 <= j < i ==> values@[j].value is None,
        decreases values@.len() - i,
    {
        if values[i].value.is_some() {
            assert(reads_view(values@)[i as int].value is Some);
            return true;
        }
        i += 1;
    }
    assert forall|j: int| 0 <= j < values@.len() implies (#[trigger] reads_view(values@)[j]).value is None by {}
    false
}

fn differs_from(values: &[RegistryRead], target: u32) -> (r: bool)
    ensures
        r == any_differs(reads_view(values@), target),
{
    let mut i: usize = 0;
    while i < values.len()
        invariant
            0 <= i <= values@.len(),
            forall|j: int| 0 <= j < i ==> !(values@[j].value is Some && values@[j].value->0 != target),
        decreases values@.len() - i,
    {
        match values[i].value {
            Some(v) => {
                if v != target {
                    assert(reads_view(values@)[i as int].value == Some(v));
                    return true;
                }
            },
            None => {},
        }
        i += 1;
    }
    assert forall|j: int| 0 <= j < values@.len() implies !((#[trigger] reads_view(values@)[j]).value is Some
        && reads_view(values@)[j].value->0 != target) by {}
    false
}

fn first_read_value(values: &[RegistryRead]) -> (r: Option<u32>)
    ensures
        r == first_value(reads_view(values@)),
{
    let mut i: usize = 0;
    let ghost rs = reads_view(values@);
    assert(rs.skip(0) =~= rs);
    while i < values.len()
        invariant
            0 <= i <= values@.len(),
            rs == reads_view(values@),
            first_value(rs.skip(i as int)) == first_value(rs),
        decreases values@.len() - i,
    {
        assert(rs.skip(i as int)[0] == values@[i as int]@);
        if values[i].value.is_some() {
            return values[i].value;
        }
        assert(rs.skip(i as int).drop_first() =~= rs.skip(i + 1));
        i += 1;
    }
    None
}

fn details_text(values: &[RegistryRead]) -> (r: String)
    ensures
        r@ == details_of(reads_view(values@)),
{
    let mut out: Vec<char> = Vec::new();
    let ghost ds = reads_view(values@).map_values(|r: ReadView| r.detail);
    let mut i: usize = 0;
    while i < values.len()
        invariant
            0 <= i <= values@.len(),
            ds == reads_view(values@).map_values(|r: ReadView| r.detail),
            out@ == join(ds.take(i as int), "\n"@),
        decreases values@.len() - i,
    {
        assert(ds.take(i + 1).drop_last() =~= ds.take(i as int));
        assert(ds.take(i + 1).last() == values@[i as int].detail@);
        if i > 0 {
            push_str(&mut out, "\n");
        }
        push_str(&mut out, values[i].detail.as_str());
        i += 1;
    }
    assert(ds.take(values@.len() as int) =~= ds);
    string_of(out.as_slice())
}

/// "확인 불가" when a read failed, else the first value read, else "미설정".
pub open spec fn inspect_status_text(reads: Seq<ReadView>) -> Seq<char> {
    if any_error(reads) {
        "확인 불가"@
    } else {
        match first_value(reads) {
            Some(v) => "값: "@ + decimal(v as nat),
            None => "미설정"@,
        }
    }
}

/// The status of an inspect-only value.
pub fn registry_inspect_status(values: &[RegistryRead]) -> (r: String)
    ensures
        r@ == inspect_status_text(reads_view(values@)),
{
    if has_registry_error(values) {
        return String::from_str("확인 불가");
    }
    match first_read_value(values) {
        Some(v) => {
            let n = u64_to_string(v as u64);
            cat("값: ", n.as_str())
        },
        None => String::from_str("미설정"),
    }
}

pub open spec fn target_of(e: RegistryManifestEntry) -> u32 {
    match e.target_value {
        Some(t) => t,
        None => 0,
    }
}

/// The row of a value that remediation writes. It needs action when a value
/// that was read differs from the target.
pub open spec fn disable_write_row(e: RegistryManifestEntry, reads: Seq<ReadView>) -> VirtRow {
    let action = any_differs(reads, target_of(e));
    let err = any_error(reads);
    VirtRow {
        source_type: VirtualizationSource::Registry,
        disable_group: Some(e.disable_group),
        action_required: action,
        unknown: err,
        manifest_id: Some(e.id@),
        ..plain_virt_row(
            e.label@,
            if err {
                "확인 불가"@
            } else if action {
                "활성화됨"@
            } else if any_value(reads) {
                "비활성화됨"@
            } else {
                "미설정"@
            },
            details_of(reads),
            if action {
                "비활성화가 필요합니다"@
            } else {
                ""@
            },
        )
    }
}

/// The row of an inspect-only value.
pub open spec fn inspect_only_row(e: RegistryManifestEntry, reads: Seq<ReadView>) -> VirtRow {
    VirtRow {
        source_type: VirtualizationSource::Registry,
        disable_group: Some(e.disable_group),
        action_required: false,
        unknown: any_error(reads),
        manifest_id: Some(e.id@),
        ..plain_virt_row(e.label@, inspect_status_text(reads), details_of(reads), ""@)
    }
}

/// The row of an excluded value: for reference, never an automatic action,
/// offered as an optional action when active and read without error.
pub open spec fn excluded_legacy_row(e: RegistryManifestEntry, reads: Seq<ReadView>) -> VirtRow {
    let differs = any_differs(reads, target_of(e));
    let err = any_error(reads);
    VirtRow {
        source_type: VirtualizationSource::Registry,
        disable_group: Some(e.disable_group),
        action_required: false,
        optional_action_available: differs && !err,
        unknown: err,
        manifest_id: Some(e.id@),
        ..plain_virt_row(
            e.label@,
            if err {
                "확인 불가"@
            } else if differs {
                "활성화됨 (참고)"@
            } else if any_value(reads) {
                "비활성화됨 (참고)"@
            } else {
                "미설정 (참고)"@
            },
            details_of(reads),
            if differs {
                "자동 조치 제외 항목 — 필요 시 수동 검토"@
            } else {
                "참고용 항목"@
            },
        )
    }
}

pub open spec fn registry_item_row(e: RegistryManifestEntry, reads: Seq<ReadView>) -> VirtRow {
    match e.action {
        RegistryAction::DisableWrite => disable_write_row(e, reads),
        RegistryAction::InspectOnly => inspect_only_row(e, reads),
        RegistryAction::ExcludedLegacy => excluded_legacy_row(e, reads),
    }
}

/// The row of a value that remediation writes, from its readings, with
/// `details` as its details text.
pub fn build_disable_write_registry_item(
    entry: &RegistryManifestEntry,
    values: &[RegistryRead],
    details: &str,
) -> (r: VirtualizationItem)
    ensures
        r@ == (VirtRow { details: details@, ..disable_write_row(*entry, reads_view(values@)) }),
{
    let target_value = match entry.target_value {
        Some(t) => t,
        None => 0,
    };
    let action_required = differs_from(values, target_value);
    let has_any_value = has_any_value(values);
    let has_error = has_registry_error(values);
    let status = if has_error {
        "확인 불가"
    } else if action_required {
        "활성화됨"
    } else if has_any_value {
        "비활성화됨"
    } else {
        "미설정"
    };
    let recommendation = if action_required {
        "비활성화가 필요합니다"
    } else {
        ""
    };
    VirtualizationItem::new(entry.label, status, details, recommendation).with_source(
        VirtualizationSource::Registry,
    ).with_disable_group(entry.disable_group, action_required).with_unknown(has_error).with_manifest_id(entry.id)
}

/// The reference row of a value excluded from automatic action, from its
/// readings, with `details` as its details text.
pub fn build_excluded_legacy_registry_item(
    entry: &RegistryManifestEntry,
    values: &[RegistryRead],
    details: &str,
) -> (r: VirtualizationItem)
    ensures
        r@ == (VirtRow { details: details@, ..excluded_legacy_row(*entry, reads_view(values@)) }),
{
    let target_value = match entry.target_value {
        Some(t) => t,
        None => 0,
    };
    let has_any_value = has_any_value(values);
    let differs_from_target = differs_from(values, target_value);
    let has_error = has_registry_error(values);
    let status = if has_error {
        "확인 불가"
    } else if differs_from_target {
        "활성화됨 (참고)"
    } else if has_any_value {
        "비활성화됨 (참고)"
    } else {
        "미설정 (참고)"
    };
    let recommendation = if differs_from_target {
        "자동 조치 제외 항목 — 필요 시 수동 검토"
    } else {
        "참고용 항목"
    };
    VirtualizationItem::new(entry.label, status, details, recommendation).with_source(
        VirtualizationSource::Registry,
    ).with_disable_group(entry.disable_group, false).with_optional_action_available(
        differs_from_target && !has_error,
    ).with_unknown(has_error).with_manifest_id(entry.id)
}

/// The inspection row of a manifest entry, from the readings at its paths.
pub fn build_registry_item(entry: &RegistryManifestEntry, values: &[RegistryRead]) -> (r:
    VirtualizationItem)
    ensures
        r@ == registry_item_row(*entry, reads_view(values@)),
{
    let details = details_text(values);
    match entry.action {
        RegistryAction::DisableWrite => build_disable_write_registry_item(
            entry,
            values,
            details.as_str(),
        ),
        RegistryAction::InspectOnly => {
            let status = registry_inspect_status(values);
            VirtualizationItem::new(entry.label, status.as_str(), details.as_str(), "").with_source(
                VirtualizationSource::Registry,
            ).with_disable_group(entry.disable_group, false).with_unknown(
                has_registry_error(values),
            ).with_manifest_id(entry.id)
        },
        RegistryAction::ExcludedLegacy => build_excluded_legacy_registry_item(
            entry,
            values,
            details.as_str(),
        ),
    }
}

pub open spec fn outcomes_view(s: Seq<Result<Option<u32>, String>>) -> Seq<Result<Option<u32>, Seq<char>>> {
    s.map_values(|o: Result<Option<u32>, String>| read_outcome_view(o))
}

/// The readings of an entry's values, one per path, from the read outcomes.
pub open spec fn entry_reads(e: RegistryManifestEntry, outcomes: Seq<Result<Option<u32>, Seq<char>>>) -> Seq<ReadView> {
    Seq::new(
        outcomes.len(),
        |j: int| registry_read_of(resolved(e)[j].path, e.value_name@, outcomes[j]),
    )
}

/// One row per manifest entry, in manifest order (the excluded ones as
/// reference rows); `outcomes[i][j]` is the read of the `i`-th entry at its
/// `j`-th path.
pub open spec fn registry_rows(outcomes: Seq<Seq<Result<Option<u32>, Seq<char>>>>) -> Seq<VirtRow> {
    Seq::new(
        outcomes.len(),
        |i: int| registry_item_row(manifest()[i], entry_reads(manifest()[i], outcomes[i])),
    )
}

pub open spec fn all_outcomes_view(o: Seq<Vec<Result<Option<u32>, String>>>) -> Seq<Seq<Result<Option<u32>, Seq<char>>>> {
    o.map_values(|v: Vec<Result<Option<u32>, String>>| outcomes_view(v@))
}

/// Rows for the registry values of the manifest, every entry included.
/// `outcomes` holds, for each entry of `all_manifest_entries()` in order, the read of each of its
/// `resolve_entry_paths` in order: the value, `None` when it is absent, or
/// the error.
pub fn check_registry_manifest_status(
    items: &mut Vec<VirtualizationItem>,
    outcomes: &[Vec<Result<Option<u32>, String>>],
)
    requires
        outcomes@.len() == manifest().len(),
        forall|i: int|
            0 <= i < outcomes@.len() ==> (#[trigger] outcomes@[i])@.len() == resolved(
                manifest()[i],
            ).len(),
    ensures
        virt_rows_of(final(items)@) == virt_rows_of(old(items)@) + registry_rows(
            all_outcomes_view(outcomes@),
        ),
{
    let entries = all_manifest_entries();
    let ghost before = virt_rows_of(items@);
    let ghost all = all_outcomes_view(outcomes@);
    let mut i: usize = 0;
    while i < entries.len()
        invariant
            entries@ == manifest(),
            outcomes@.len() == entries@.len(),
            forall|k: int|
                0 <= k < outcomes@.len() ==> (#[trigger] outcomes@[k])@.len() == resolved(
                    entries@[k],
                ).len(),
            all == all_outcomes_view(outcomes@),
            0 <= i <= entries@.len(),
            virt_rows_of(items@) == before + registry_rows(all).take(i as int),
        decreases entries@.len() - i,
    {
        let entry = entries[i];
        let paths = resolve_entry_paths(&entry);
        let row_outcomes = &outcomes[i];
        assert(row_outcomes@.len() == paths@.len()) by {
            assert(resolved_views(paths@).len() == paths@.len());
        }
        let mut reads: Vec<RegistryRead> = Vec::new();
        let mut j: usize = 0;
        while j < paths.len()
            invariant
                resolved_views(paths@) == resolved(entry),
                row_outcomes@.len() == paths@.len(),
                0 <= j <= paths@.len(),
                reads_view(reads@) =~= entry_reads(entry, outcomes_view(row_outcomes@)).take(j as int),
            decreases paths@.len() - j,
        {
            let rd = read_registry_value(&paths[j], &row_outcomes[j]);
            assert(resolved_views(paths@)[j as int] == paths@[j as int]@);
            assert(resolved_views(paths@)[j as int] == resolved(entry)[j as int]);
            assert(outcomes_view(row_outcomes@)[j as int] == read_outcome_view(
                row_outcomes@[j as int],
            ));
            assert(resolved_views(paths@).len() == paths@.len());
            assert(resolved(entry).len() == crate::services::registry_manifest::entry_paths(entry).len());
            assert(resolved(entry)[j as int] == crate::services::registry_manifest::resolve(
                entry,
                crate::services::registry_manifest::entry_paths(entry)[j as int],
            ));
            assert(resolved(entry)[j as int].value_name == entry.value_name@);
            assert(paths@[j as int].value_name@ == entry.value_name@);
            assert(paths@[j as int].path@ == resolved(entry)[j as int].path);
            assert(rd@ == entry_reads(entry, outcomes_view(row_outcomes@))[j as int]);
            let ghost prev = reads@;
            reads.push(rd);
            assert(reads_view(reads@) =~= reads_view(prev).push(rd@));
            assert(entry_reads(entry, outcomes_view(row_outcomes@)).take(j + 1) =~= entry_reads(
                entry,
                outcomes_view(row_outcomes@),
            ).take(j as int).push(rd@));
            j += 1;
        }
        assert(reads_view(reads@) =~= entry_reads(entry, outcomes_view(row_outcomes@)));
        let item = build_registry_item(&entry, reads.as_slice());
        push_virt_row(items, item);
        assert(all[i as int] == outcomes_view(row_outcomes@));
        assert(registry_rows(all).take(i + 1) =~= registry_rows(all).take(i as int).push(item@));
        i += 1;
    }
    assert(registry_rows(all).take(entries@.len() as int) =~= registry_rows(all));
}


// ---------------------------------------------------------------------------
// Hardware virtualization, Windows Hello, organization management
// ---------------------------------------------------------------------------

pub open spec fn hardware_virtualization_rows(cpus: Result<Seq<Win32Processor>, Seq<char>>) -> Seq<VirtRow> {
    match cpus {
        Ok(list) => if list.len() == 0 {
            seq![]
        } else {
            let cpu = list[0];
            let enabled = cpu.virtualization_firmware_enabled;
            seq![
                VirtRow {
                    source_type: VirtualizationSource::Wmi,
                    ..plain_virt_row(
                        "하드웨어 가상화 (VT-x/AMD-V)"@,
                        if enabled {
                            "지원됨 (활성)"@
                        } else {
                            "비활성화됨"@
                        },
                        "CPU: "@ + cpu.name@,
                        if !enabled {
                            "BIOS/UEFI에서 가상화 옵션을 활성화하세요"@
                        } else {
                            ""@
                        },
                    )
                },
            ]
        },
        Err(e) => seq![
            VirtRow {
                source_type: VirtualizationSource::Wmi,
                unknown: true,
                ..plain_virt_row("하드웨어 가상화 (VT-x/AMD-V)"@, "확인 불가"@, e, ""@)
            },
        ],
    }
}

pub open spec fn query_view<T>(q: Result<Vec<T>, String>) -> Result<Seq<T>, Seq<char>> {
    match q {
        Ok(v) => Ok(v@),
        Err(e) => Err(e@),
    }
}

/// The row for hardware virtualization, from the `Win32_Processor` query.
pub fn check_hardware_virtualization(
    items: &mut Vec<VirtualizationItem>,
    processors: &Result<Vec<Win32Processor>, String>,
)
    ensures
        virt_rows_of(final(items)@) == virt_rows_of(old(items)@) + hardware_virtualization_rows(
            query_view(*processors),
        ),
{
    let ghost before = virt_rows_of(items@);
    match processors {
        Ok(list) => {
            if list.len() > 0 {
                let cpu = &list[0];
                let enabled = cpu.virtualization_firmware_enabled;
                let details = cat("CPU: ", cpu.name.as_str());
                let item = VirtualizationItem::new(
                    "하드웨어 가상화 (VT-x/AMD-V)",
                    if enabled {
                        "지원됨 (활성)"
                    } else {
                        "비활성화됨"
                    },
                    details.as_str(),
                    if !enabled {
                        "BIOS/UEFI에서 가상화 옵션을 활성화하세요"
                    } else {
                        ""
                    },
                ).with_source(VirtualizationSource::Wmi);
                push_virt_row(items, item);
                assert(virt_rows_of(items@) =~= before + hardware_virtualization_rows(
                    query_view(*processors),
                ));
            } else {
                assert(virt_rows_of(items@) =~= before + hardware_virtualization_rows(
                    query_view(*processors),
                ));
            }
        },
        Err(error) => {
            let item = VirtualizationItem::new(
                "하드웨어 가상화 (VT-x/AMD-V)",
                "확인 불가",
                error.as_str(),
                "",
            ).with_source(VirtualizationSource::Wmi).with_unknown(true);
            push_virt_row(items, item);
            assert(virt_rows_of(items@) =~= before + hardware_virtualization_rows(
                query_view(*processors),
            ));
        },
    }
}

/// MDM enrollment types of a corporate enrollment (6: MDM, 13: Azure AD MDM).
pub open spec fn is_corporate_enrollment(t: Option<u32>) -> bool {
    t == Some(6u32) || t == Some(13u32)
}

/// Some enrollment under `SOFTWARE\Microsoft\Enrollments` is corporate; the
/// argument holds the `EnrollmentType` read under each enrollment key.
pub fn has_mdm_corporate_enrollment(enrollment_types: &[Option<u32>]) -> (r: bool)
    ensures
        r == exists|i: int|
            0 <= i < enrollment_types@.len() && is_corporate_enrollment(
                #[trigger] enrollment_types@[i],
            ),
{
    let mut i: usize = 0;
    while i < enrollment_types.len()
        invariant
            0 <= i <= enrollment_types@.len(),
            forall|j: int| 0 <= j < i ==> !is_corporate_enrollment(#[trigger] enrollment_types@[j]),
        decreases enrollment_types@.len() - i,
    {
        match enrollment_types[i] {
            Some(t) => {
                if t == 6 || t == 13 {
                    assert(is_corporate_enrollment(enrollment_types@[i as int]));
                    return true;
                }
            },
            None => {},
        }
        i += 1;
    }
    false
}

/// The registry key of one enrollment.
pub fn enrollment_key_path(subkey: &str) -> (r: String)
    ensures
        r@ == "SOFTWARE\\Microsoft\\Enrollments\\"@ + subkey@,
{
    cat("SOFTWARE\\Microsoft\\Enrollments\\", subkey)
}

/// The Windows Hello for Business policy is on (`PassportForWork\Enabled` is 1).
pub open spec fn whfb_policy_on(policy: Option<u32>) -> bool {
    policy == Some(1u32)
}

/// How Windows Hello for Business is imposed: by policy, by an Azure AD join
/// or by MDM enrollment, in that order; `None` for plain Windows Hello.
pub open spec fn whfb_type(aad_joined: bool, policy: Option<u32>, mdm_enrolled: bool) -> Option<Seq<char>> {
    if whfb_policy_on(policy) {
        Some("GPO/MDM 정책 적용"@)
    } else if aad_joined {
        Some("Azure AD 조인"@)
    } else if mdm_enrolled {
        Some("MDM 등록"@)
    } else {
        None
    }
}

pub fn detect_whfb_type(aad_joined: bool, policy: Option<u32>, mdm_enrolled: bool) -> (r: Option<String>)
    ensures
        match r {
            Some(s) => whfb_type(aad_joined, policy, mdm_enrolled) == Some(s@),
            None => whfb_type(aad_joined, policy, mdm_enrolled) is None,
        },
{
    let policy_enabled = policy == Some(1u32);
    if policy_enabled {
        Some(String::from_str("GPO/MDM 정책 적용"))
    } else if aad_joined {
        Some(String::from_str("Azure AD 조인"))
    } else if mdm_enrolled {
        Some(String::from_str("MDM 등록"))
    } else {
        None
    }
}

/// Whether the user can switch Windows Hello for Business off, and why not.
pub open spec fn whfb_disableable(policy: Option<u32>, mdm_enrolled: bool) -> (bool, Seq<char>) {
    if whfb_policy_on(policy) {
        (false, "GPO/MDM 정책으로 강제 적용 중 — IT 관리자 확인 필요"@)
    } else if mdm_enrolled {
        (false, "기업 MDM 관리 기기 — IT 관리자 확인 필요"@)
    } else {
        (true, ""@)
    }
}

pub fn check_whfb_disableable(policy: Option<u32>, mdm_enrolled: bool) -> (r: (bool, String))
    ensures
        (r.0, r.1@) == whfb_disableable(policy, mdm_enrolled),
{
    if policy == Some(1u32) {
        return (false, String::from_str("GPO/MDM 정책으로 강제 적용 중 — IT 관리자 확인 필요"));
    }
    if mdm_enrolled {
        return (false, String::from_str("기업 MDM 관리 기기 — IT 관리자 확인 필요"));
    }
    (true, String::from_str(""))
}

pub open spec fn windows_hello_rows(
    active: bool,
    whfb: Option<Seq<char>>,
    can_disable: bool,
    reason: Seq<char>,
) -> Seq<VirtRow> {
    if !active || whfb is None {
        seq![]
    } else {
        seq![
            VirtRow {
                source_type: VirtualizationSource::Registry,
                kind: Some(VirtualizationKind::WhfbWarning),
                ..plain_virt_row(
                    "Windows Hello"@,
                    if can_disable {
                        "WHfB 활성 — 해제 가능"@
                    } else {
                        "WHfB 활성 — 해제 불가"@
                    },
                    "감지 유형: "@ + whfb->0,
                    if can_disable {
                        "VBS 비활성화 전 해제 권장: 설정 → 계정 → 회사 또는 학교 액세스 → 연결 끊기"@
                    } else {
                        "VBS 설정이 재부팅 후 복구될 수 있습니다 — "@ + reason
                    },
                )
            },
        ]
    }
}

pub open spec fn opt_str_view(o: Option<String>) -> Option<Seq<char>> {
    match o {
        Some(s) => Some(s@),
        None => None,
    }
}

/// The Windows Hello for Business warning, shown only when Windows Hello is
/// set up and imposed by an organization.
pub fn check_windows_hello_status(
    items: &mut Vec<VirtualizationItem>,
    hello_active: bool,
    whfb_type: &Option<String>,
    disableable: &(bool, String),
)
    ensures
        virt_rows_of(final(items)@) == virt_rows_of(old(items)@) + windows_hello_rows(
            hello_active,
            opt_str_view(*whfb_type),
            disableable.0,
            disableable.1@,
        ),
{
    let ghost before = virt_rows_of(items@);
    if !hello_active {
        assert(virt_rows_of(items@) =~= before + windows_hello_rows(
            hello_active,
            opt_str_view(*whfb_type),
            disableable.0,
            disableable.1@,
        ));
        return;
    }
    let t = match whfb_type {
        Some(t) => t,
        None => {
            assert(virt_rows_of(items@) =~= before + windows_hello_rows(
                hello_active,
                opt_str_view(*whfb_type),
                disableable.0,
                disableable.1@,
            ));
            return;
        },
    };
    let can_disable = disableable.0;
    let recommendation = if can_disable {
        String::from_str("VBS 비활성화 전 해제 권장: 설정 → 계정 → 회사 또는 학교 액세스 → 연결 끊기")
    } else {
        cat("VBS 설정이 재부팅 후 복구될 수 있습니다 — ", disableable.1.as_str())
    };
    let details = cat("감지 유형: ", t.as_str());
    let item = VirtualizationItem::new(
        "Windows Hello",
        if can_disable {
            "WHfB 활성 — 해제 가능"
        } else {
            "WHfB 활성 — 해제 불가"
        },
        details.as_str(),
        recommendation.as_str(),
    ).with_source(VirtualizationSource::Registry).with_kind(VirtualizationKind::WhfbWarning);
    push_virt_row(items, item);
    assert(virt_rows_of(items@) =~= before + windows_hello_rows(
        hello_active,
        opt_str_view(*whfb_type),
        disableable.0,
        disableable.1@,
    ));
}

/// Whether the device is managed by an organization, and how.
pub open spec fn organization_control(aad_joined: bool, mdm_enrolled: bool) -> (bool, Seq<char>) {
    if aad_joined && mdm_enrolled {
        (true, "Azure AD 조인 + MDM 등록"@)
    } else if aad_joined {
        (true, "Azure AD 조인"@)
    } else if mdm_enrolled {
        (true, "MDM 등록"@)
    } else {
        (false, ""@)
    }
}

pub fn detect_organization_control(aad_joined: bool, mdm_enrolled: bool) -> (r: (bool, String))
    ensures
        (r.0, r.1@) == organization_control(aad_joined, mdm_enrolled),
{
    if aad_joined && mdm_enrolled {
        (true, String::from_str("Azure AD 조인 + MDM 등록"))
    } else if aad_joined {
        (true, String::from_str("Azure AD 조인"))
    } else if mdm_enrolled {
        (true, String::from_str("MDM 등록"))
    } else {
        (false, String::from_str(""))
    }
}

pub open spec fn organization_rows(managed: bool, org_type: Seq<char>) -> Seq<VirtRow> {
    if !managed {
        seq![]
    } else {
        seq![
            VirtRow {
                source_type: VirtualizationSource::Registry,
                kind: Some(VirtualizationKind::OrganizationWarning),
                ..plain_virt_row(
                    "조직 관리 장치"@,
                    "감지됨 — "@ + org_type,
                    "조직 연결 유형: "@ + org_type,
                    "비활성화 후 재부팅 시 VBS 설정이 정책으로 재적용될 수 있습니다 — IT 관리자 확인 권장"@,
                )
            },
        ]
    }
}

/// The organization management warning, shown only for managed devices.
pub fn check_organization_control(items: &mut Vec<VirtualizationItem>, control: &(bool, String))
    ensures
        virt_rows_of(final(items)@) == virt_rows_of(old(items)@) + organization_rows(
            control.0,
            control.1@,
        ),
{
    let ghost before = virt_rows_of(items@);
    if !control.0 {
        assert(virt_rows_of(items@) =~= before + organization_rows(control.0, control.1@));
        return;
    }
    let status = cat("감지됨 — ", control.1.as_str());
    let details = cat("조직 연결 유형: ", control.1.as_str());
    let item = VirtualizationItem::new(
        "조직 관리 장치",
        status.as_str(),
        details.as_str(),
        "비활성화 후 재부팅 시 VBS 설정이 정책으로 재적용될 수 있습니다 — IT 관리자 확인 권장",
    ).with_source(VirtualizationSource::Registry).with_kind(VirtualizationKind::OrganizationWarning);
    push_virt_row(items, item);
    assert(virt_rows_of(items@) =~= before + organization_rows(control.0, control.1@));
}

} // verus!

verus! {

// ---------------------------------------------------------------------------
// Laws of the inspection
// ---------------------------------------------------------------------------

/// A DISM run that failed is never reported as enabled or disabled.
pub proof fn law_failed_dism_run_is_unknown(stdout: Seq<char>, stderr: Seq<char>)
    ensures
        feature_state_of(false, stdout, stderr) is Unknown,
{
}

/// A registry value that could not be read makes its row unknown, shown as
/// "확인 불가", never as missing or off.
pub proof fn law_unreadable_values_are_unknown(e: RegistryManifestEntry, reads: Seq<ReadView>)
    requires
        any_error(reads),
    ensures
        registry_item_row(e, reads).unknown,
        registry_item_row(e, reads).status == "확인 불가"@,
{
}

proof fn lemma_no_first_value(reads: Seq<ReadView>)
    requires
        !any_value(reads),
    ensures
        first_value(reads) is None,
    decreases reads.len(),
{
    if reads.len() > 0 {
        assert(reads[0].value is None);
        assert forall|i: int| 0 <= i < reads.drop_first().len() implies (#[trigger] reads.drop_first()[i]).value is None by {
            assert(reads.drop_first()[i] == reads[i + 1]);
        }
        lemma_no_first_value(reads.drop_first());
    }
}

/// A value that is absent at every path is shown as not set and calls for
/// no action; no registry value is created for it.
pub proof fn law_absent_values_are_not_set(e: RegistryManifestEntry, reads: Seq<ReadView>)
    requires
        e.action != RegistryAction::ExcludedLegacy,
        forall|i: int| 0 <= i < reads.len() ==> (#[trigger] reads[i]).value is None && reads[i].error is None,
    ensures
        registry_item_row(e, reads).status == "미설정"@,
        !registry_item_row(e, reads).action_required,
        !registry_item_row(e, reads).unknown,
{
    lemma_no_first_value(reads);
}


/// The inspection shows one row for every entry of the manifest, in its
/// order; an entry excluded from automatic action appears as a reference
/// row: it never asks for an action, and its status carries "(참고)" unless
/// its value could not be read.
pub proof fn law_excluded_entries_are_reference_rows(
    outcomes: Seq<Seq<Result<Option<u32>, Seq<char>>>>,
    i: int,
)
    requires
        outcomes.len() == manifest().len(),
        0 <= i < outcomes.len(),
        manifest()[i].action is ExcludedLegacy,
    ensures
        registry_rows(outcomes).len() == manifest().len(),
        registry_rows(outcomes)[i].manifest_id == Some(manifest()[i].id@),
        !registry_rows(outcomes)[i].action_required,
        registry_rows(outcomes)[i].unknown || registry_rows(outcomes)[i].status == "활성화됨 (참고)"@
            || registry_rows(outcomes)[i].status == "비활성화됨 (참고)"@
            || registry_rows(outcomes)[i].status == "미설정 (참고)"@,
{
}


/// A value that remediation writes needs action exactly when some value
/// read differs from its target: a row whose values all sit at the target
/// shows "비활성화됨" and asks for nothing, one with a value off target shows
/// "활성화됨" and asks for remediation, one with no value shows "미설정", and
/// a failed read shows "확인 불가".
pub proof fn law_written_value_needs_action_only_when_off_target(
    e: RegistryManifestEntry,
    reads: Seq<ReadView>,
)
    requires
        e.action is DisableWrite,
    ensures
        ({
            let t: u32 = match e.target_value {
                Some(v) => v,
                None => 0u32,
            };
            let row = registry_item_row(e, reads);
            let failed = exists|i: int| 0 <= i < reads.len() && (#[trigger] reads[i]).error is Some;
            let off = exists|i: int|
                0 <= i < reads.len() && (#[trigger] reads[i]).value is Some && reads[i].value != Some(t);
            let set = exists|i: int| 0 <= i < reads.len() && (#[trigger] reads[i]).value is Some;
            &&& row.action_required <==> off
            &&& row.unknown <==> failed
            &&& failed ==> row.status == "확인 불가"@
            &&& !failed && off ==> row.status == "활성화됨"@ && row.recommendation
                == "비활성화가 필요합니다"@
            &&& !failed && !off && set ==> row.status == "비활성화됨"@ && row.recommendation == ""@
            &&& !failed && !set ==> row.status == "미설정"@ && !row.action_required
            &&& (forall|i: int| 0 <= i < reads.len() ==> (#[trigger] reads[i]).value is None || reads[i].value
                == Some(t)) ==> !row.action_required
        }),
{
}

proof fn lemma_state_words()
    ensures
        ascii_lower_seq("Disabled"@) == "disabled"@,
        ascii_lower_seq("Enabled"@) == "enabled"@,
        "disabled"@ != "enabled"@,
{
    reveal_strlit("Disabled");
    reveal_strlit("disabled");
    reveal_strlit("Enabled");
    reveal_strlit("enabled");
    assert(ascii_lower_seq("Disabled"@) =~= "disabled"@);
    assert(ascii_lower_seq("Enabled"@) =~= "enabled"@);
    assert("disabled"@.len() != "enabled"@.len());
}

/// A DISM run that succeeded reports the feature disabled when its state
/// value reads "Disabled", and enabled when it reads "Enabled", in any ASCII
/// case; any other value, a missing state, or a failed run leaves the state
/// unknown, never disabled.
pub proof fn law_dism_state_decides_feature_state(stdout: Seq<char>, stderr: Seq<char>)
    ensures
        feature_state_of(false, stdout, stderr) is Unknown,
        dism_feature_state(stdout) is None ==> feature_state_of(true, stdout, stderr) is Unknown,
        dism_feature_state(stdout) matches Some(s) ==> {
            &&& ascii_lower_seq(s) == "disabled"@ ==> feature_state_of(true, stdout, stderr)
                == FeatureStateView::Disabled
            &&& ascii_lower_seq(s) == "enabled"@ ==> feature_state_of(true, stdout, stderr)
                == FeatureStateView::Enabled
            &&& ascii_lower_seq(s) != "disabled"@ && ascii_lower_seq(s) != "enabled"@
                ==> feature_state_of(true, stdout, stderr) is Unknown
        },
{
    lemma_state_words();
}
} // verus!
