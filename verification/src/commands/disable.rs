//! The remediation run: which tasks run, what each reports, and how the
//! before/after comparison reads.
use vstd::prelude::*;
use crate::models::virtualization::{
    DisableGroup, DisableOptions, DisableOutput, DisableResult, ProgressEvent,
};
use crate::services::log_service::{BackupRow, ChangeRow, DisableChangeEntry, RegistryBackupEntry};
use crate::services::process_service::{
    ProcessResult, dism_feature_state, parse_dism_feature_state, strs_view,
};
use crate::services::registry_manifest::{
    ResolvedEntry, ResolvedRegistryManifestEntry, disable_write_entries, disable_write_list,
    law_remediation_writes_group_entries_to_zero, manifest, optional_list, resolved_views,
    selected_optional_entries,
};
use crate::text::{
    cat, cat3, chars_of, decimal, extend_chars, has_prefix, join, join_chars, lemma_views_push,
    lines_chars, lines_of, push_str, starts_with, string_of, trim, trim_str, u64_to_string,
    views_of,
};

verus! {

// ---------------------------------------------------------------------------
// Features that are turned off
// ---------------------------------------------------------------------------

pub open spec fn str_views(v: Seq<&'static str>) -> Seq<Seq<char>> {
    v.map_values(|s: &'static str| s@)
}

/// The Hyper-V features, in the order in which they are turned off.
pub open spec fn hyperv_feature_names() -> Seq<Seq<char>> {
    seq![
        "Microsoft-Hyper-V-All"@,
        "Microsoft-Hyper-V"@,
        "Microsoft-Hyper-V-Tools-All"@,
        "Microsoft-Hyper-V-Management-PowerShell"@,
        "Microsoft-Hyper-V-Hypervisor"@,
        "Microsoft-Hyper-V-Services"@,
        "Microsoft-Hyper-V-Management-Clients"@,
    ]
}

/// The WSL features, in the order in which they are turned off.
pub open spec fn wsl_feature_names() -> Seq<Seq<char>> {
    seq!["Microsoft-Windows-Subsystem-Linux"@, "VirtualMachinePlatform"@]
}

pub fn hyperv_features() -> (r: Vec<&'static str>)
    ensures
        str_views(r@) == hyperv_feature_names(),
{
    let r = vec![
        "Microsoft-Hyper-V-All",
        "Microsoft-Hyper-V",
        "Microsoft-Hyper-V-Tools-All",
        "Microsoft-Hyper-V-Management-PowerShell",
        "Microsoft-Hyper-V-Hypervisor",
        "Microsoft-Hyper-V-Services",
        "Microsoft-Hyper-V-Management-Clients",
    ];
    assert(str_views(r@) =~= hyperv_feature_names());
    r
}

pub fn wsl_features() -> (r: Vec<&'static str>)
    ensures
        str_views(r@) == wsl_feature_names(),
{
    let r = vec!["Microsoft-Windows-Subsystem-Linux", "VirtualMachinePlatform"];
    assert(str_views(r@) =~= wsl_feature_names());
    r
}

// ---------------------------------------------------------------------------
// Tasks
// ---------------------------------------------------------------------------

/// One remediation task.
#[derive(Debug, Clone, Copy, PartialEq, Eq, Structural)]
pub enum DisableTask {
    HyperV,
    Wsl,
    Vbs,
    CoreIsolation,
    /// The excluded values that the user selected.
    OptionalRegistry,
}

/// The label shown while a task runs.
pub open spec fn task_label(t: DisableTask) -> Seq<char> {
    match t {
        DisableTask::HyperV => "Hyper-V 기능 비활성화"@,
        DisableTask::Wsl => "WSL 비활성화"@,
        DisableTask::Vbs => "VBS 레지스트리 비활성화"@,
        DisableTask::CoreIsolation => "코어 격리 비활성화"@,
        DisableTask::OptionalRegistry => "선택한 추가 레지스트리 조치"@,
    }
}

/// The name under which a task reports its result.
pub open spec fn task_result_name(t: DisableTask) -> Seq<char> {
    match t {
        DisableTask::HyperV => "Hyper-V 비활성화"@,
        DisableTask::Wsl => "WSL 비활성화"@,
        DisableTask::Vbs => "VBS 비활성화"@,
        DisableTask::CoreIsolation => "코어 격리 비활성화"@,
        DisableTask::OptionalRegistry => "선택한 추가 레지스트리 조치"@,
    }
}

/// The registry group that a task writes, if it writes registry values.
pub open spec fn task_registry_group(t: DisableTask) -> Option<DisableGroup> {
    match t {
        DisableTask::Vbs => Some(DisableGroup::Vbs),
        DisableTask::CoreIsolation => Some(DisableGroup::CoreIsolation),
        _ => None,
    }
}

impl DisableTask {
    pub fn label(&self) -> (r: String)
        ensures
            r@ == task_label(*self),
    {
        match self {
            DisableTask::HyperV => String::from_str("Hyper-V 기능 비활성화"),
            DisableTask::Wsl => String::from_str("WSL 비활성화"),
            DisableTask::Vbs => String::from_str("VBS 레지스트리 비활성화"),
            DisableTask::CoreIsolation => String::from_str("코어 격리 비활성화"),
            DisableTask::OptionalRegistry => String::from_str("선택한 추가 레지스트리 조치"),
        }
    }

    pub fn result_name(&self) -> (r: String)
        ensures
            r@ == task_result_name(*self),
    {
        match self {
            DisableTask::HyperV => String::from_str("Hyper-V 비활성화"),
            DisableTask::Wsl => String::from_str("WSL 비활성화"),
            DisableTask::Vbs => String::from_str("VBS 비활성화"),
            DisableTask::CoreIsolation => String::from_str("코어 격리 비활성화"),
            DisableTask::OptionalRegistry => String::from_str("선택한 추가 레지스트리 조치"),
        }
    }

    pub fn registry_group(&self) -> (r: Option<DisableGroup>)
        ensures
            r == task_registry_group(*self),
    {
        match self {
            DisableTask::Vbs => Some(DisableGroup::Vbs),
            DisableTask::CoreIsolation => Some(DisableGroup::CoreIsolation),
            _ => None,
        }
    }
}

/// The selected tasks, in the fixed order Hyper-V, WSL, VBS, core isolation,
/// then the optional values when any was selected.
pub open spec fn selected_tasks(o: DisableOptions) -> Seq<DisableTask> {
    (if o.hyperv {
        seq![DisableTask::HyperV]
    } else {
        seq![]
    }) + (if o.wsl {
        seq![DisableTask::Wsl]
    } else {
        seq![]
    }) + (if o.vbs {
        seq![DisableTask::Vbs]
    } else {
        seq![]
    }) + (if o.core_isolation {
        seq![DisableTask::CoreIsolation]
    } else {
        seq![]
    }) + (if o.optional_registry_ids@.len() > 0 {
        seq![DisableTask::OptionalRegistry]
    } else {
        seq![]
    })
}

/// The tasks to run for the selected options.
pub fn disable_tasks(opts: &DisableOptions) -> (r: Vec<DisableTask>)
    ensures
        r@ == selected_tasks(*opts),
{
    let mut r: Vec<DisableTask> = Vec::new();
    if opts.hyperv {
        r.push(DisableTask::HyperV);
    }
    if opts.wsl {
        r.push(DisableTask::Wsl);
    }
    if opts.vbs {
        r.push(DisableTask::Vbs);
    }
    if opts.core_isolation {
        r.push(DisableTask::CoreIsolation);
    }
    if opts.optional_registry_ids.len() > 0 {
        r.push(DisableTask::OptionalRegistry);
    }
    assert(r@ =~= selected_tasks(*opts));
    r
}

/// The registry values that a task writes, if it writes registry values.
pub open spec fn task_registry_list(t: DisableTask, o: DisableOptions) -> Option<Seq<ResolvedEntry>> {
    match t {
        DisableTask::Vbs => Some(disable_write_list(manifest(), DisableGroup::Vbs)),
        DisableTask::CoreIsolation => Some(disable_write_list(manifest(), DisableGroup::CoreIsolation)),
        DisableTask::OptionalRegistry => Some(optional_list(manifest(), o.optional_registry_ids@)),
        _ => None,
    }
}

pub fn task_registry_entries(task: DisableTask, opts: &DisableOptions) -> (r: Option<
    Vec<ResolvedRegistryManifestEntry>,
>)
    ensures
        match r {
            Some(v) => task_registry_list(task, *opts) == Some(resolved_views(v@)),
            None => task_registry_list(task, *opts) is None,
        },
{
    match task {
        DisableTask::Vbs => Some(disable_write_entries(DisableGroup::Vbs)),
        DisableTask::CoreIsolation => Some(disable_write_entries(DisableGroup::CoreIsolation)),
        DisableTask::OptionalRegistry => Some(selected_optional_entries(opts.optional_registry_ids.as_slice())),
        _ => None,
    }
}

/// What a run with nothing selected reports: one successful result saying
/// so, and no saved files.
pub fn nothing_to_disable() -> (r: DisableOutput)
    ensures
        r.results@.len() == 1,
        r.results@[0].task@ == "점검 결과"@,
        r.results@[0].success,
        r.results@[0].message@ == "비활성화가 필요한 항목이 없습니다."@,
        r.log_path is None,
        r.backup_path is None,
        r.change_csv_path is None,
{
    let result = DisableResult {
        task: String::from_str("점검 결과"),
        success: true,
        message: String::from_str("비활성화가 필요한 항목이 없습니다."),
    };
    DisableOutput { results: vec![result], log_path: None, backup_path: None, change_csv_path: None }
}

/// The event sent when step `step` of `total` starts.
pub fn progress_started(step: u32, total: u32, label: &str) -> (r: ProgressEvent)
    ensures
        r.step == step,
        r.total == total,
        r.message@ == label@,
        r.success,
{
    ProgressEvent { step, total, message: label.to_owned(), success: true }
}

/// The event sent when step `step` of `total` reports a failure.
pub fn progress_failed(step: u32, total: u32, label: &str) -> (r: ProgressEvent)
    ensures
        r.step == step,
        r.total == total,
        r.message@ == label@ + " — 일부 실패"@,
        !r.success,
{
    ProgressEvent { step, total, message: cat(label, " — 일부 실패"), success: false }
}

} // verus!

verus! {

// ---------------------------------------------------------------------------
// Results of the feature tasks
// ---------------------------------------------------------------------------

/// `✓ name` when DISM turned the feature off, else a note that it already was.
pub open spec fn feature_line(name: Seq<char>, ok: bool) -> Seq<char> {
    if ok {
        "✓ "@ + name
    } else {
        "- "@ + name + " (이미 비활성화됨)"@
    }
}

pub open spec fn feature_lines(names: Seq<Seq<char>>, oks: Seq<bool>) -> Seq<Seq<char>> {
    Seq::new(names.len(), |i: int| feature_line(names[i], oks[i]))
}

pub open spec fn bcdedit_line(bcd: ProcessResult) -> Seq<char> {
    if bcd.success {
        "✓ hypervisorlaunchtype off"@
    } else {
        "✗ bcdedit 실패: "@ + bcd.stderr@
    }
}

pub open spec fn vsm_line(vsm: ProcessResult) -> Seq<char> {
    if vsm.success {
        "✓ vsmlaunchtype off"@
    } else {
        "- vsmlaunchtype: 건너뜀 ("@ + trim(vsm.stderr@) + ")"@
    }
}

/// One line per Hyper-V feature, then the hypervisor and VSM launch settings.
pub open spec fn hyperv_lines(oks: Seq<bool>, bcd: ProcessResult, vsm: ProcessResult) -> Seq<Seq<char>> {
    feature_lines(hyperv_feature_names(), oks).push(bcdedit_line(bcd)).push(vsm_line(vsm))
}

fn feature_lines_chars(names: &Vec<&'static str>, oks: &[bool]) -> (r: Vec<Vec<char>>)
    requires
        names@.len() == oks@.len(),
    ensures
        views_of(r@) == feature_lines(str_views(names@), oks@),
{
    let mut r: Vec<Vec<char>> = Vec::new();
    let mut i: usize = 0;
    while i < names.len()
        invariant
            names@.len() == oks@.len(),
            0 <= i <= names@.len(),
            views_of(r@) == feature_lines(str_views(names@), oks@).take(i as int),
        decreases names@.len() - i,
    {
        let mut line: Vec<char> = Vec::new();
        if oks[i] {
            push_str(&mut line, "✓ ");
            push_str(&mut line, names[i]);
        } else {
            push_str(&mut line, "- ");
            push_str(&mut line, names[i]);
            push_str(&mut line, " (이미 비활성화됨)");
        }
        proof {
            lemma_views_push(r@, line);
        }
        r.push(line);
        assert(views_of(r@) =~= feature_lines(str_views(names@), oks@).take(i + 1));
        i += 1;
    }
    assert(feature_lines(str_views(names@), oks@).take(names@.len() as int) =~= feature_lines(
        str_views(names@),
        oks@,
    ));
    r
}

fn joined_lines(lines: &Vec<Vec<char>>) -> (r: String)
    ensures
        r@ == join(views_of(lines@), "\n"@),
{
    let sep = chars_of("\n");
    let j = join_chars(lines.as_slice(), 0, sep.as_slice());
    assert(lines@.skip(0) =~= lines@);
    string_of(j.as_slice())
}

/// The result of turning Hyper-V off, given whether DISM turned off each
/// feature and what the two `bcdedit` runs reported. Only a failed
/// `hypervisorlaunchtype` change makes it a failure.
pub fn hyperv_disable_result(feature_ok: &[bool], bcd: &ProcessResult, vsm: &ProcessResult) -> (r: DisableResult)
    requires
        feature_ok@.len() == hyperv_feature_names().len(),
    ensures
        r.task@ == "Hyper-V 비활성화"@,
        r.success == bcd.success,
        r.message@ == join(hyperv_lines(feature_ok@, *bcd, *vsm), "\n"@),
{
    let names = hyperv_features();
    let mut lines = feature_lines_chars(&names, feature_ok);
    let ghost fl = views_of(lines@);
    let mut b: Vec<char> = Vec::new();
    if bcd.success {
        push_str(&mut b, "✓ hypervisorlaunchtype off");
    } else {
        push_str(&mut b, "✗ bcdedit 실패: ");
        push_str(&mut b, bcd.stderr.as_str());
    }
    proof {
        lemma_views_push(lines@, b);
    }
    lines.push(b);
    let mut v: Vec<char> = Vec::new();
    if vsm.success {
        push_str(&mut v, "✓ vsmlaunchtype off");
    } else {
        let e = trim_str(vsm.stderr.as_str());
        push_str(&mut v, "- vsmlaunchtype: 건너뜀 (");
        push_str(&mut v, e.as_str());
        push_str(&mut v, ")");
    }
    let ghost lines_before = lines@;
    proof {
        lemma_views_push(lines@, v);
    }
    lines.push(v);
    assert(views_of(lines@) =~= hyperv_lines(feature_ok@, *bcd, *vsm));
    DisableResult {
        task: String::from_str("Hyper-V 비활성화"),
        success: bcd.success,
        message: joined_lines(&lines),
    }
}

/// The result of turning WSL off, given whether DISM turned off each feature.
/// It always counts as a success.
pub fn wsl_disable_result(feature_ok: &[bool]) -> (r: DisableResult)
    requires
        feature_ok@.len() == wsl_feature_names().len(),
    ensures
        r.task@ == "WSL 비활성화"@,
        r.success,
        r.message@ == join(feature_lines(wsl_feature_names(), feature_ok@), "\n"@),
{
    let names = wsl_features();
    let lines = feature_lines_chars(&names, feature_ok);
    DisableResult { task: String::from_str("WSL 비활성화"), success: true, message: joined_lines(&lines) }
}

} // verus!

verus! {

// ---------------------------------------------------------------------------
// Registry writes
// ---------------------------------------------------------------------------

/// The value an entry is set to (0 when the manifest gives none).
pub open spec fn entry_target(e: ResolvedEntry) -> u32 {
    match e.target_value {
        Some(t) => t,
        None => 0,
    }
}

/// A value is written only when it exists and differs from its target.
pub open spec fn needs_write(e: ResolvedEntry, current: Option<u32>) -> bool {
    match current {
        Some(c) => c != entry_target(e),
        None => false,
    }
}

/// A value under `HKLM\SOFTWARE\Policies\`, which group policy owns.
pub open spec fn is_policy_path(path: Seq<char>) -> bool {
    has_prefix(path, "SOFTWARE\\Policies\\"@)
}

/// On a device managed by an organization (Azure AD join or MDM
/// enrollment), policy values are left alone so that group policy does not
/// fight the change.
pub open spec fn skipped_as_policy(e: ResolvedEntry, org_managed: bool) -> bool {
    org_managed && is_policy_path(e.path)
}

/// The write rule: a value that exists and differs from its target is set
/// to the target, unless it is a policy value on a managed device.
pub open spec fn write_planned(e: ResolvedEntry, current: Option<u32>, org_managed: bool) -> bool {
    needs_write(e, current) && !skipped_as_policy(e, org_managed)
}

fn is_policy_path_str(path: &str) -> (r: bool)
    ensures
        r == is_policy_path(path@),
{
    let x = chars_of(path);
    let y = chars_of("SOFTWARE\\Policies\\");
    starts_with(x.as_slice(), y.as_slice())
}

/// The value to write to an entry whose current value is `current`, if any;
/// `org_managed` tells whether the device is managed by an organization.
pub fn registry_write_value(entry: &ResolvedRegistryManifestEntry, current: Option<u32>, org_managed: bool) -> (r: Option<u32>)
    ensures
        r == (if write_planned(entry@, current, org_managed) {
            Some(entry_target(entry@))
        } else {
            None
        }),
        r is Some ==> current is Some,
        org_managed && is_policy_path(entry@.path) ==> r is None,
{
    if org_managed && is_policy_path_str(entry.path.as_str()) {
        return None;
    }
    let target = match entry.target_value {
        Some(t) => t,
        None => 0,
    };
    match current {
        Some(c) => if c != target {
            Some(target)
        } else {
            None
        },
        None => None,
    }
}

/// `label — path\value_name`.
pub open spec fn entry_key(e: ResolvedEntry) -> Seq<char> {
    e.label + " — "@ + e.path + "\\"@ + e.value_name
}

/// The report line of one entry.
pub open spec fn registry_entry_line(
    e: ResolvedEntry,
    current: Option<u32>,
    write: Option<Result<(), String>>,
    org_managed: bool,
) -> Seq<char> {
    match current {
        Some(c) => if c != entry_target(e) && skipped_as_policy(e, org_managed) {
            "- "@ + entry_key(e) + " = "@ + decimal(c as nat) + " (조직 관리 장치 — 정책 경로 건너뜀)"@
        } else if c != entry_target(e) {
            match write {
                Some(Err(err)) => "✗ "@ + entry_key(e) + ": "@ + err@,
                _ => "✓ "@ + entry_key(e) + ": "@ + decimal(c as nat) + " → "@ + decimal(
                    entry_target(e) as nat,
                ),
            }
        } else {
            "- "@ + entry_key(e) + " = "@ + decimal(c as nat) + " (이미 비활성 상태)"@
        },
        None => "- "@ + entry_key(e) + " (값 없음, 생성하지 않음)"@,
    }
}

pub open spec fn registry_apply_lines(
    entries: Seq<ResolvedRegistryManifestEntry>,
    currents: Seq<Option<u32>>,
    writes: Seq<Option<Result<(), String>>>,
    org_managed: bool,
) -> Seq<Seq<char>> {
    Seq::new(entries.len(), |i: int| registry_entry_line(entries[i]@, currents[i], writes[i], org_managed))
}

pub open spec fn write_failed(w: Option<Result<(), String>>) -> bool {
    w matches Some(Err(_))
}

/// What was read and written for each entry agrees with the write rule.
pub open spec fn registry_outcomes_fit(
    entries: Seq<ResolvedRegistryManifestEntry>,
    currents: Seq<Option<u32>>,
    writes: Seq<Option<Result<(), String>>>,
    org_managed: bool,
) -> bool {
    &&& currents.len() == entries.len()
    &&& writes.len() == entries.len()
    &&& forall|i: int| 0 <= i < entries.len() ==> (#[trigger] writes[i] is Some <==> write_planned(entries[i]@, currents[i], org_managed))
}

/// The message of a registry task: one line per entry, or a note when there
/// is no entry.
pub open spec fn registry_apply_message(
    entries: Seq<ResolvedRegistryManifestEntry>,
    currents: Seq<Option<u32>>,
    writes: Seq<Option<Result<(), String>>>,
    org_managed: bool,
) -> Seq<char> {
    if entries.len() == 0 {
        "선택된 추가 레지스트리 조치 항목이 없습니다."@
    } else {
        join(registry_apply_lines(entries, currents, writes, org_managed), "\n"@)
    }
}

fn push_entry_key(line: &mut Vec<char>, entry: &ResolvedRegistryManifestEntry)
    ensures
        final(line)@ == old(line)@ + entry_key(entry@),
{
    push_str(line, entry.label);
    push_str(line, " — ");
    push_str(line, entry.path.as_str());
    push_str(line, "\\");
    push_str(line, entry.value_name);
}

fn push_number(line: &mut Vec<char>, n: u32)
    ensures
        final(line)@ == old(line)@ + decimal(n as nat),
{
    let s = u64_to_string(n as u64);
    push_str(line, s.as_str());
}

fn registry_entry_line_chars(
    entry: &ResolvedRegistryManifestEntry,
    current: Option<u32>,
    write: &Option<Result<(), String>>,
    org_managed: bool,
) -> (r: Vec<char>)
    ensures
        r@ == registry_entry_line(entry@, current, *write, org_managed),
{
    let skipped = org_managed && is_policy_path_str(entry.path.as_str());
    let target = match entry.target_value {
        Some(t) => t,
        None => 0,
    };
    let mut line: Vec<char> = Vec::new();
    match current {
        Some(c) => {
            if c != target && skipped {
                push_str(&mut line, "- ");
                push_entry_key(&mut line, entry);
                push_str(&mut line, " = ");
                push_number(&mut line, c);
                push_str(&mut line, " (조직 관리 장치 — 정책 경로 건너뜀)");
            } else if c != target {
                match write {
                    Some(Err(err)) => {
                        push_str(&mut line, "✗ ");
                        push_entry_key(&mut line, entry);
                        push_str(&mut line, ": ");
                        push_str(&mut line, err.as_str());
                    },
                    _ => {
                        push_str(&mut line, "✓ ");
                        push_entry_key(&mut line, entry);
                        push_str(&mut line, ": ");
                        push_number(&mut line, c);
                        push_str(&mut line, " → ");
                        push_number(&mut line, target);
                    },
                }
            } else {
                push_str(&mut line, "- ");
                push_entry_key(&mut line, entry);
                push_str(&mut line, " = ");
                push_number(&mut line, c);
                push_str(&mut line, " (이미 비활성 상태)");
            }
        },
        None => {
            push_str(&mut line, "- ");
            push_entry_key(&mut line, entry);
            push_str(&mut line, " (값 없음, 생성하지 않음)");
        },
    }
    line
}

/// The result of a registry task named `task_name`, from the value read
/// for each entry and the outcome of each write that was made, on a device
/// managed by an organization or not. It fails exactly when a write failed.
pub fn apply_registry_result(
    task_name: &str,
    entries: &[ResolvedRegistryManifestEntry],
    currents: &[Option<u32>],
    writes: &[Option<Result<(), String>>],
    org_managed: bool,
) -> (r: DisableResult)
    requires
        registry_outcomes_fit(entries@, currents@, writes@, org_managed),
    ensures
        r.task@ == task_name@,
        r.success == !(exists|i: int| 0 <= i < writes@.len() && write_failed(#[trigger] writes@[i])),
        r.message@ == registry_apply_message(entries@, currents@, writes@, org_managed),
{
    if entries.len() == 0 {
        return DisableResult {
            task: task_name.to_owned(),
            success: true,
            message: String::from_str("선택된 추가 레지스트리 조치 항목이 없습니다."),
        };
    }
    let mut lines: Vec<Vec<char>> = Vec::new();
    let mut success = true;
    let mut i: usize = 0;
    while i < entries.len()
        invariant
            registry_outcomes_fit(entries@, currents@, writes@, org_managed),
            0 <= i <= entries@.len(),
            views_of(lines@) == registry_apply_lines(entries@, currents@, writes@, org_managed).take(i as int),
            success == !(exists|j: int| 0 <= j < i && write_failed(#[trigger] writes@[j])),
        decreases entries@.len() - i,
    {
        let line = registry_entry_line_chars(&entries[i], currents[i], &writes[i], org_managed);
        proof {
            lemma_views_push(lines@, line);
        }
        lines.push(line);
        assert(views_of(lines@) =~= registry_apply_lines(entries@, currents@, writes@, org_managed).take(i + 1));
        let failed = match &writes[i] {
            Some(Err(_)) => true,
            _ => false,
        };
        assert(failed == write_failed(writes@[i as int]));
        if failed {
            success = false;
        }
        proof {
            if !failed {
                if exists|j: int| 0 <= j < i + 1 && write_failed(#[trigger] writes@[j]) {
                    let j = choose|j: int| 0 <= j < i + 1 && write_failed(#[trigger] writes@[j]);
                    assert(j != i);
                    assert(0 <= j < i && write_failed(writes@[j]));
                }
            } else {
                assert(0 <= i < i + 1 && write_failed(writes@[i as int]));
            }
        }
        i += 1;
    }
    assert(registry_apply_lines(entries@, currents@, writes@, org_managed).take(entries@.len() as int)
        =~= registry_apply_lines(entries@, currents@, writes@, org_managed));
    DisableResult { task: task_name.to_owned(), success, message: joined_lines(&lines) }
}

} // verus!

verus! {

// ---------------------------------------------------------------------------
// Reading the state that a change targets
// ---------------------------------------------------------------------------

/// A registry value as shown in the comparison: its number, or "<미설정>".
pub open spec fn registry_value_text(value: Option<u32>) -> Seq<char> {
    match value {
        Some(v) => decimal(v as nat),
        None => "<미설정>"@,
    }
}

pub fn registry_value_display(value: Option<u32>) -> (r: String)
    ensures
        r@ == registry_value_text(value),
{
    match value {
        Some(v) => u64_to_string(v as u64),
        None => String::from_str("<미설정>"),
    }
}

/// A feature state as shown in the comparison: what DISM printed after
/// `State :`, or why it could not be read.
pub open spec fn feature_state_text(success: bool, stdout: Seq<char>, stderr: Seq<char>) -> Seq<char> {
    if !success {
        let m = if trim(stderr).len() == 0 {
            trim(stdout)
        } else {
            trim(stderr)
        };
        if m.len() == 0 {
            "확인 불가"@
        } else {
            "확인 불가: "@ + m
        }
    } else {
        match dism_feature_state(stdout) {
            Some(s) => s,
            None => "확인 불가"@,
        }
    }
}

pub fn get_feature_state_display(result: &ProcessResult) -> (r: String)
    ensures
        r@ == feature_state_text(result.success, result.stdout@, result.stderr@),
{
    if !result.success {
        let e = trim_str(result.stderr.as_str());
        let m = if e.as_str().unicode_len() == 0 {
            trim_str(result.stdout.as_str())
        } else {
            e
        };
        return if m.as_str().unicode_len() == 0 {
            String::from_str("확인 불가")
        } else {
            cat("확인 불가: ", m.as_str())
        };
    }
    match parse_dism_feature_state(result.stdout.as_str()) {
        Some(s) => s,
        None => String::from_str("확인 불가"),
    }
}

/// The verdict on a change: unchanged, unreadable afterwards, or changed
/// with the old and new value.
pub open spec fn change_verdict(before: Seq<char>, after: Seq<char>) -> (Seq<char>, Seq<char>) {
    if before == after {
        ("변경 없음"@, "이미 목표 상태였거나 조치가 값을 변경하지 않았습니다."@)
    } else if has_prefix(after, "확인 불가"@) || has_prefix(after, "오류"@) {
        ("확인 불가"@, "조치 후 상태를 확인하지 못했습니다."@)
    } else {
        ("변경됨"@, before + " → "@ + after)
    }
}

fn starts_with_str(a: &str, p: &str) -> (r: bool)
    ensures
        r == has_prefix(a@, p@),
{
    let x = chars_of(a);
    let y = chars_of(p);
    starts_with(x.as_slice(), y.as_slice())
}

pub fn compare_change_values(before: &str, after: &str) -> (r: (String, String))
    ensures
        (r.0@, r.1@) == change_verdict(before@, after@),
{
    let b = before.to_owned();
    let a = after.to_owned();
    if b == a {
        (
            String::from_str("변경 없음"),
            String::from_str("이미 목표 상태였거나 조치가 값을 변경하지 않았습니다."),
        )
    } else if starts_with_str(after, "확인 불가") || starts_with_str(after, "오류") {
        (String::from_str("확인 불가"), String::from_str("조치 후 상태를 확인하지 못했습니다."))
    } else {
        (String::from_str("변경됨"), cat3(before, " → ", after))
    }
}

} // verus!

verus! {

// ---------------------------------------------------------------------------
// The before/after comparison
// ---------------------------------------------------------------------------

/// What a planned change is read from, before and after the run.
#[derive(Debug, Clone)]
pub enum ChangeTarget {
    Feature(String),
    HypervisorLaunchType,
    VsmLaunchType,
    Registry { path: String, value_name: String },
}

pub enum TargetView {
    Feature(Seq<char>),
    HypervisorLaunchType,
    VsmLaunchType,
    Registry(Seq<char>, Seq<char>),
}

impl View for ChangeTarget {
    type V = TargetView;

    open spec fn view(&self) -> TargetView {
        match self {
            ChangeTarget::Feature(f) => TargetView::Feature(f@),
            ChangeTarget::HypervisorLaunchType => TargetView::HypervisorLaunchType,
            ChangeTarget::VsmLaunchType => TargetView::VsmLaunchType,
            ChangeTarget::Registry { path, value_name } => TargetView::Registry(path@, value_name@),
        }
    }
}

/// A change the run is about to make, as it appears in the comparison.
#[derive(Debug, Clone)]
pub struct PlannedDisableChange {
    pub group: String,
    pub item: String,
    pub target: String,
    pub target_kind: ChangeTarget,
}

pub struct PlannedRow {
    pub group: Seq<char>,
    pub item: Seq<char>,
    pub target: Seq<char>,
    pub kind: TargetView,
}

impl View for PlannedDisableChange {
    type V = PlannedRow;

    open spec fn view(&self) -> PlannedRow {
        PlannedRow { group: self.group@, item: self.item@, target: self.target@, kind: self.target_kind@ }
    }
}

pub open spec fn planned_views(v: Seq<PlannedDisableChange>) -> Seq<PlannedRow> {
    v.map_values(|c: PlannedDisableChange| c@)
}

pub open spec fn feature_change(group: Seq<char>, name: Seq<char>) -> PlannedRow {
    PlannedRow { group, item: name, target: "DISM Feature: "@ + name, kind: TargetView::Feature(name) }
}

pub open spec fn registry_change(group: Seq<char>, e: ResolvedEntry) -> PlannedRow {
    PlannedRow {
        group,
        item: e.label,
        target: "HKLM\\"@ + e.path + "\\"@ + e.value_name,
        kind: TargetView::Registry(e.path, e.value_name),
    }
}

pub open spec fn feature_changes(group: Seq<char>, names: Seq<Seq<char>>) -> Seq<PlannedRow> {
    names.map_values(|n: Seq<char>| feature_change(group, n))
}

pub open spec fn registry_changes(group: Seq<char>, entries: Seq<ResolvedEntry>) -> Seq<PlannedRow> {
    entries.map_values(|e: ResolvedEntry| registry_change(group, e))
}

/// The changes of the selected groups, in the order of the tasks: each
/// Hyper-V feature and the two launch settings, each WSL feature, the
/// registry values that the VBS and core isolation groups write, then the
/// optional values selected.
pub open spec fn planned_changes(o: DisableOptions) -> Seq<PlannedRow> {
    (if o.hyperv {
        feature_changes("Hyper-V"@, hyperv_feature_names()) + seq![
            PlannedRow {
                group: "Hyper-V"@,
                item: "Hypervisor 시작 유형"@,
                target: "bcdedit hypervisorlaunchtype"@,
                kind: TargetView::HypervisorLaunchType,
            },
            PlannedRow {
                group: "Hyper-V"@,
                item: "VSM 시작 유형"@,
                target: "bcdedit vsmlaunchtype"@,
                kind: TargetView::VsmLaunchType,
            },
        ]
    } else {
        seq![]
    }) + (if o.wsl {
        feature_changes("WSL"@, wsl_feature_names())
    } else {
        seq![]
    }) + (if o.vbs {
        registry_changes("VBS"@, disable_write_list(manifest(), DisableGroup::Vbs))
    } else {
        seq![]
    }) + (if o.core_isolation {
        registry_changes("코어 격리"@, disable_write_list(manifest(), DisableGroup::CoreIsolation))
    } else {
        seq![]
    }) + (if o.optional_registry_ids@.len() > 0 {
        registry_changes("추가 레지스트리 조치"@, optional_list(manifest(), o.optional_registry_ids@))
    } else {
        seq![]
    })
}

fn push_change(changes: &mut Vec<PlannedDisableChange>, c: PlannedDisableChange)
    ensures
        planned_views(final(changes)@) == planned_views(old(changes)@).push(c@),
{
    changes.push(c);
    assert(planned_views(final(changes)@) =~= planned_views(old(changes)@).push(c@));
}

fn push_feature_changes(changes: &mut Vec<PlannedDisableChange>, group: &str, names: &Vec<&'static str>)
    ensures
        planned_views(final(changes)@) == planned_views(old(changes)@) + feature_changes(
            group@,
            str_views(names@),
        ),
{
    let ghost start = planned_views(changes@);
    let mut i: usize = 0;
    while i < names.len()
        invariant
            0 <= i <= names@.len(),
            planned_views(changes@) == start + feature_changes(group@, str_views(names@)).take(i as int),
        decreases names@.len() - i,
    {
        let name = names[i];
        push_change(
            changes,
            PlannedDisableChange {
                group: group.to_owned(),
                item: name.to_owned(),
                target: cat("DISM Feature: ", name),
                target_kind: ChangeTarget::Feature(name.to_owned()),
            },
        );
        assert(planned_views(changes@) =~= start + feature_changes(group@, str_views(names@)).take(i + 1));
        i += 1;
    }
    assert(feature_changes(group@, str_views(names@)).take(names@.len() as int) =~= feature_changes(
        group@,
        str_views(names@),
    ));
}

fn append_registry_changes(
    changes: &mut Vec<PlannedDisableChange>,
    group: &str,
    entries: &Vec<ResolvedRegistryManifestEntry>,
)
    ensures
        planned_views(final(changes)@) == planned_views(old(changes)@) + registry_changes(
            group@,
            resolved_views(entries@),
        ),
{
    let ghost start = planned_views(changes@);
    let mut i: usize = 0;
    while i < entries.len()
        invariant
            0 <= i <= entries@.len(),
            planned_views(changes@) == start + registry_changes(group@, resolved_views(entries@)).take(
                i as int,
            ),
        decreases entries@.len() - i,
    {
        let e = &entries[i];
        let mut target: Vec<char> = Vec::new();
        push_str(&mut target, "HKLM\\");
        push_str(&mut target, e.path.as_str());
        push_str(&mut target, "\\");
        push_str(&mut target, e.value_name);
        push_change(
            changes,
            PlannedDisableChange {
                group: group.to_owned(),
                item: e.label.to_owned(),
                target: string_of(target.as_slice()),
                target_kind: ChangeTarget::Registry {
                    path: e.path.clone(),
                    value_name: e.value_name.to_owned(),
                },
            },
        );
        assert(planned_views(changes@) =~= start + registry_changes(group@, resolved_views(entries@)).take(
            i + 1,
        ));
        i += 1;
    }
    assert(registry_changes(group@, resolved_views(entries@)).take(entries@.len() as int)
        =~= registry_changes(group@, resolved_views(entries@)));
}

/// The changes that the selected groups will make.
pub fn collect_planned_disable_changes(opts: &DisableOptions) -> (r: Vec<PlannedDisableChange>)
    ensures
        planned_views(r@) == planned_changes(*opts),
{
    let mut changes: Vec<PlannedDisableChange> = Vec::new();
    if opts.hyperv {
        let names = hyperv_features();
        push_feature_changes(&mut changes, "Hyper-V", &names);
        push_change(
            &mut changes,
            PlannedDisableChange {
                group: String::from_str("Hyper-V"),
                item: String::from_str("Hypervisor 시작 유형"),
                target: String::from_str("bcdedit hypervisorlaunchtype"),
                target_kind: ChangeTarget::HypervisorLaunchType,
            },
        );
        push_change(
            &mut changes,
            PlannedDisableChange {
                group: String::from_str("Hyper-V"),
                item: String::from_str("VSM 시작 유형"),
                target: String::from_str("bcdedit vsmlaunchtype"),
                target_kind: ChangeTarget::VsmLaunchType,
            },
        );
    }
    let ghost after_hyperv = planned_views(changes@);
    if opts.wsl {
        let names = wsl_features();
        push_feature_changes(&mut changes, "WSL", &names);
    }
    let ghost after_wsl = planned_views(changes@);
    if opts.vbs {
        let entries = disable_write_entries(DisableGroup::Vbs);
        append_registry_changes(&mut changes, "VBS", &entries);
    }
    let ghost after_vbs = planned_views(changes@);
    if opts.core_isolation {
        let entries = disable_write_entries(DisableGroup::CoreIsolation);
        append_registry_changes(&mut changes, "코어 격리", &entries);
    }
    let ghost after_core = planned_views(changes@);
    if opts.optional_registry_ids.len() > 0 {
        let entries = selected_optional_entries(opts.optional_registry_ids.as_slice());
        append_registry_changes(&mut changes, "추가 레지스트리 조치", &entries);
    }
    assert(planned_views(changes@) =~= planned_changes(*opts));
    changes
}

/// One comparison row: the planned change, the values read before and
/// after, and the verdict on them.
pub open spec fn change_row(c: PlannedRow, before: Seq<char>, after: Seq<char>) -> ChangeRow {
    ChangeRow {
        group: c.group,
        item: c.item,
        target: c.target,
        before,
        after,
        result: change_verdict(before, after).0,
        message: change_verdict(before, after).1,
    }
}


/// The comparison rows of the planned changes, given the value of each read
/// before the run and after it.
pub fn collect_disable_change_results(
    planned: &[PlannedDisableChange],
    befores: &[String],
    afters: &[String],
) -> (r: Vec<DisableChangeEntry>)
    requires
        befores@.len() == planned@.len(),
        afters@.len() == planned@.len(),
    ensures
        r@.len() == planned@.len(),
        forall|i: int| 0 <= i < planned@.len() ==> #[trigger] r@[i]@ == change_row(planned@[i]@, befores@[i]@, afters@[i]@),
{
    let mut r: Vec<DisableChangeEntry> = Vec::new();
    let mut i: usize = 0;
    while i < planned.len()
        invariant
            befores@.len() == planned@.len(),
            afters@.len() == planned@.len(),
            0 <= i <= planned@.len(),
            r@.len() == i,
            forall|j: int| 0 <= j < i ==> #[trigger] r@[j]@ == change_row(planned@[j]@, befores@[j]@, afters@[j]@),
        decreases planned@.len() - i,
    {
        let c = &planned[i];
        let (result, message) = compare_change_values(befores[i].as_str(), afters[i].as_str());
        r.push(DisableChangeEntry {
            group: c.group.clone(),
            item: c.item.clone(),
            target: c.target.clone(),
            before: befores[i].clone(),
            after: afters[i].clone(),
            result,
            message,
        });
        i += 1;
    }
    r
}

// ---------------------------------------------------------------------------
// Registry backup
// ---------------------------------------------------------------------------

/// The values backed up before the run: those that the selected registry
/// groups write, VBS first, then the optional values selected.
pub open spec fn backup_targets(o: DisableOptions) -> Seq<ResolvedEntry> {
    (if o.vbs {
        disable_write_list(manifest(), DisableGroup::Vbs)
    } else {
        seq![]
    }) + (if o.core_isolation {
        disable_write_list(manifest(), DisableGroup::CoreIsolation)
    } else {
        seq![]
    }) + (if o.optional_registry_ids@.len() > 0 {
        optional_list(manifest(), o.optional_registry_ids@)
    } else {
        seq![]
    })
}

pub fn registry_backup_targets(opts: &DisableOptions) -> (r: Vec<ResolvedRegistryManifestEntry>)
    ensures
        resolved_views(r@) == backup_targets(*opts),
{
    let mut r: Vec<ResolvedRegistryManifestEntry> = Vec::new();
    if opts.vbs {
        let mut v = disable_write_entries(DisableGroup::Vbs);
        r.append(&mut v);
    }
    let ghost mid = r@;
    if opts.core_isolation {
        let mut c = disable_write_entries(DisableGroup::CoreIsolation);
        let ghost cv = c@;
        r.append(&mut c);
        assert(resolved_views(r@) =~= resolved_views(mid) + resolved_views(cv));
    }
    let ghost mid2 = r@;
    if opts.optional_registry_ids.len() > 0 {
        let mut o = selected_optional_entries(opts.optional_registry_ids.as_slice());
        let ghost ov = o@;
        r.append(&mut o);
        assert(resolved_views(r@) =~= resolved_views(mid2) + resolved_views(ov));
    }
    assert(resolved_views(r@) =~= backup_targets(*opts));
    r
}

/// The backup rows of the targets, given the value each had before the run.
pub fn collect_registry_backup(targets: &[ResolvedRegistryManifestEntry], values: &[Option<u32>]) -> (r: Vec<RegistryBackupEntry>)
    requires
        values@.len() == targets@.len(),
    ensures
        r@.len() == targets@.len(),
        forall|i: int| 0 <= i < targets@.len() ==> #[trigger] r@[i]@ == (BackupRow {
            path: targets@[i].path@,
            value_name: targets@[i].value_name@,
            value: values@[i],
        }),
{
    let mut r: Vec<RegistryBackupEntry> = Vec::new();
    let mut i: usize = 0;
    while i < targets.len()
        invariant
            values@.len() == targets@.len(),
            0 <= i <= targets@.len(),
            r@.len() == i,
            forall|j: int| 0 <= j < i ==> #[trigger] r@[j]@ == (BackupRow {
                path: targets@[j].path@,
                value_name: targets@[j].value_name@,
                value: values@[j],
            }),
        decreases targets@.len() - i,
    {
        r.push(RegistryBackupEntry {
            path: targets[i].path.clone(),
            value_name: targets[i].value_name.to_owned(),
            value: values[i],
        });
        i += 1;
    }
    r
}

} // verus!

verus! {

// ---------------------------------------------------------------------------
// Operation log lines
// ---------------------------------------------------------------------------

/// A result in the operation log: a blank line, a mark and the task, then
/// each line of the message indented by two spaces.
pub open spec fn result_log_lines(r: DisableResult) -> Seq<Seq<char>> {
    seq![Seq::<char>::empty(), (if r.success {
        "✅"@
    } else {
        "⚠️"@
    }) + " "@ + r.task@] + lines_of(r.message@).map_values(|l: Seq<char>| "  "@ + l)
}

pub open spec fn results_log_lines(rs: Seq<DisableResult>) -> Seq<Seq<char>>
    decreases rs.len(),
{
    if rs.len() == 0 {
        seq![]
    } else {
        results_log_lines(rs.drop_last()) + result_log_lines(rs.last())
    }
}

pub open spec fn log_rule() -> Seq<char> {
    "━━━━━━━━━━━━━━━━━━━━━━━━━━━━━━━━━"@
}

/// The lines of the operation log of a run.
pub open spec fn operation_log_lines(rs: Seq<DisableResult>) -> Seq<Seq<char>> {
    seq!["▶ 비활성화 작업 시작"@] + results_log_lines(rs) + seq![
        Seq::<char>::empty(),
        log_rule(),
        "모든 작업 완료"@,
    ]
}

fn push_line(lines: &mut Vec<String>, s: String)
    ensures
        strs_view(final(lines)@) == strs_view(old(lines)@).push(s@),
{
    lines.push(s);
    assert(strs_view(final(lines)@) =~= strs_view(old(lines)@).push(s@));
}

/// The operation log lines of the results, in order.
pub fn build_operation_log_lines(results: &[DisableResult]) -> (r: Vec<String>)
    ensures
        strs_view(r@) == operation_log_lines(results@),
{
    let mut r: Vec<String> = Vec::new();
    push_line(&mut r, String::from_str("▶ 비활성화 작업 시작"));
    let mut i: usize = 0;
    while i < results.len()
        invariant
            0 <= i <= results@.len(),
            strs_view(r@) == seq!["▶ 비활성화 작업 시작"@] + results_log_lines(results@.take(i as int)),
        decreases results@.len() - i,
    {
        let res = &results[i];
        let ghost at = strs_view(r@);
        push_line(&mut r, String::new());
        let mark = if res.success {
            "✅"
        } else {
            "⚠️"
        };
        push_line(&mut r, cat3(mark, " ", res.task.as_str()));
        let msg = chars_of(res.message.as_str());
        let ls = lines_chars(msg.as_slice());
        let ghost lv = views_of(ls@);
        let mut k: usize = 0;
        while k < ls.len()
            invariant
                0 <= k <= ls@.len(),
                lv == views_of(ls@),
                lv == lines_of(res.message@),
                strs_view(r@) == at + result_log_lines(*res).take(2 + k),
            decreases ls@.len() - k,
        {
            let mut line: Vec<char> = Vec::new();
            push_str(&mut line, "  ");
            extend_chars(&mut line, ls[k].as_slice());
            push_line(&mut r, string_of(line.as_slice()));
            assert(strs_view(r@) =~= at + result_log_lines(*res).take(2 + k + 1));
            k += 1;
        }
        assert(result_log_lines(*res).take(2 + ls@.len() as int) =~= result_log_lines(*res));
        assert(results@.take(i + 1).drop_last() =~= results@.take(i as int));
        assert(strs_view(r@) =~= seq!["▶ 비활성화 작업 시작"@] + results_log_lines(results@.take(i + 1)));
        i += 1;
    }
    assert(results@.take(results@.len() as int) =~= results@);
    push_line(&mut r, String::new());
    push_line(&mut r, String::from_str("━━━━━━━━━━━━━━━━━━━━━━━━━━━━━━━━━"));
    push_line(&mut r, String::from_str("모든 작업 완료"));
    assert(strs_view(r@) =~= operation_log_lines(results@));
    r
}

} // verus!

verus! {

/// What a reboot request answers: success, or the failure with what the
/// `shutdown` command printed to standard error.
pub fn reboot_outcome(result: &ProcessResult) -> (r: Result<(), String>)
    ensures
        match r {
            Ok(()) => result.success,
            Err(e) => !result.success && e@ == "재부팅 명령 실패: "@ + result.stderr@,
        },
{
    if result.success {
        Ok(())
    } else {
        Err(cat("재부팅 명령 실패: ", result.stderr.as_str()))
    }
}

} // verus!

verus! {

// ---------------------------------------------------------------------------
// Laws of the remediation
// ---------------------------------------------------------------------------

/// A registry value that does not exist is never written, so remediation
/// never creates one.
pub proof fn law_missing_values_are_never_created(e: ResolvedEntry)
    ensures
        !needs_write(e, None),
{
}

/// For the values a group's remediation handles, a value is changed exactly
/// when it exists and is not 0, and it is changed to 0.
pub proof fn law_only_active_values_are_set_to_zero(group: DisableGroup, k: int, current: Option<u32>)
    requires
        0 <= k < disable_write_list(manifest(), group).len(),
    ensures
        entry_target(disable_write_list(manifest(), group)[k]) == 0,
        needs_write(disable_write_list(manifest(), group)[k], current) <==> (current is Some
            && current->0 != 0),
{
    law_remediation_writes_group_entries_to_zero(group);
    let r = disable_write_list(manifest(), group)[k];
    assert(r.target_value == Some(0u32));
}

/// A run has no task exactly when nothing is selected, and selecting every
/// group without optional values runs the four group tasks in their fixed
/// order.
pub proof fn law_tasks_follow_the_selection(o: DisableOptions)
    ensures
        selected_tasks(o).len() == 0 <==> !(o.hyperv || o.wsl || o.vbs || o.core_isolation
            || o.optional_registry_ids@.len() > 0),
        (o.hyperv && o.wsl && o.vbs && o.core_isolation && o.optional_registry_ids@.len() == 0)
            ==> selected_tasks(o) == seq![
            DisableTask::HyperV,
            DisableTask::Wsl,
            DisableTask::Vbs,
            DisableTask::CoreIsolation,
        ],
{
    if o.hyperv && o.wsl && o.vbs && o.core_isolation && o.optional_registry_ids@.len() == 0 {
        assert(selected_tasks(o) =~= seq![
            DisableTask::HyperV,
            DisableTask::Wsl,
            DisableTask::Vbs,
            DisableTask::CoreIsolation,
        ]);
    }
}

/// On a device managed by an organization, no value under
/// `SOFTWARE\Policies\` is written; elsewhere the write rule is unchanged.
pub proof fn law_policy_values_untouched_on_managed_devices(e: ResolvedEntry, current: Option<u32>)
    ensures
        is_policy_path(e.path) ==> !write_planned(e, current, true),
        write_planned(e, current, false) == needs_write(e, current),
{
}

/// A value read the same before and after the run is reported unchanged;
/// one that differs and was read is reported changed from the one to the
/// other.
pub proof fn law_comparison_reports_what_changed(before: Seq<char>, after: Seq<char>)
    ensures
        change_verdict(before, before).0 == "변경 없음"@,
        before != after && !has_prefix(after, "확인 불가"@) && !has_prefix(after, "오류"@) ==> change_verdict(
            before,
            after,
        ) == ("변경됨"@, before + " → "@ + after),
{
}

} // verus!

verus! {

/// The progress events of step `step` of `total`: its start, then, when
/// the task did not succeed, its failure.
pub fn task_events(step: u32, total: u32, label: &str, success: bool) -> (r: Vec<ProgressEvent>)
    ensures
        r@.len() == (if success {
            1int
        } else {
            2int
        }),
        r@[0].step == step && r@[0].total == total && r@[0].message@ == label@ && r@[0].success,
        !success ==> r@[1].step == step && r@[1].total == total && r@[1].message@ == label@
            + " — 일부 실패"@ && !r@[1].success,
{
    let mut r: Vec<ProgressEvent> = Vec::new();
    r.push(progress_started(step, total, label));
    if !success {
        r.push(progress_failed(step, total, label));
    }
    r
}


// ---------------------------------------------------------------------------
// The course of a run
// ---------------------------------------------------------------------------

/// Where a remediation run stands: the tasks selected, the backup and the
/// values shown as "before" once read, and the results of the tasks run so
/// far, in order.
pub struct DisableRun {
    pub tasks: Vec<DisableTask>,
    pub backup: Option<Vec<RegistryBackupEntry>>,
    pub befores: Option<Vec<String>>,
    pub results: Vec<DisableResult>,
}

/// What the program does next in a run.
#[derive(Debug, Clone, Copy, PartialEq, Eq, Structural)]
pub enum RunAction {
    /// Read the values of `registry_backup_targets` and record them as the
    /// backup.
    ReadBackup,
    /// Nothing is selected: the run ends with `nothing_to_disable()`.
    NothingToDisable,
    /// Read the values of `collect_planned_disable_changes` and record them
    /// as the "before" values.
    ReadCurrentValues,
    /// Run the task at this index and record its result.
    RunTask(usize),
    /// Every task has run: save the log, the backup and the comparison.
    Finish,
}

/// The next action of a run with `task_count` tasks, of which `done` have
/// run, and whether the backup and the "before" values have been read.
pub open spec fn run_action(task_count: nat, backup_read: bool, befores_read: bool, done: nat) -> RunAction {
    if !backup_read {
        RunAction::ReadBackup
    } else if task_count == 0 {
        RunAction::NothingToDisable
    } else if !befores_read {
        RunAction::ReadCurrentValues
    } else if done < task_count {
        RunAction::RunTask(done as usize)
    } else {
        RunAction::Finish
    }
}

pub open spec fn next_action_of(run: DisableRun) -> RunAction {
    run_action(run.tasks@.len(), run.backup is Some, run.befores is Some, run.results@.len())
}

/// A run of the selected tasks that has read nothing yet.
pub fn start_disable_run(opts: &DisableOptions) -> (r: DisableRun)
    ensures
        r.tasks@ == selected_tasks(*opts),
        r.backup is None,
        r.befores is None,
        r.results@.len() == 0,
{
    DisableRun { tasks: disable_tasks(opts), backup: None, befores: None, results: Vec::new() }
}

/// The action a run takes next.
pub fn next_run_action(run: &DisableRun) -> (r: RunAction)
    ensures
        r == next_action_of(*run),
        r is RunTask ==> run.backup is Some && run.befores is Some && r->0 == run.results@.len()
            && r->0 < run.tasks@.len(),
{
    if run.backup.is_none() {
        RunAction::ReadBackup
    } else if run.tasks.len() == 0 {
        RunAction::NothingToDisable
    } else if run.befores.is_none() {
        RunAction::ReadCurrentValues
    } else if run.results.len() < run.tasks.len() {
        RunAction::RunTask(run.results.len())
    } else {
        RunAction::Finish
    }
}

/// Records the backup read before any write.
pub fn record_backup(run: &mut DisableRun, backup: Vec<RegistryBackupEntry>)
    requires
        old(run).backup is None,
    ensures
        final(run).backup == Some(backup),
        final(run).tasks == old(run).tasks,
        final(run).befores == old(run).befores,
        final(run).results == old(run).results,
{
    run.backup = Some(backup);
}

/// Records the values shown as "before".
pub fn record_current_values(run: &mut DisableRun, befores: Vec<String>)
    requires
        old(run).befores is None,
    ensures
        final(run).befores == Some(befores),
        final(run).tasks == old(run).tasks,
        final(run).backup == old(run).backup,
        final(run).results == old(run).results,
{
    run.befores = Some(befores);
}

/// Records the result of the task that just ran.
pub fn record_task_result(run: &mut DisableRun, result: DisableResult)
    ensures
        final(run).results@ == old(run).results@.push(result),
        final(run).tasks == old(run).tasks,
        final(run).backup == old(run).backup,
        final(run).befores == old(run).befores,
{
    run.results.push(result);
}

/// A run reads its backup before anything else and never runs a task
/// before the backup and the "before" values are recorded; the tasks run
/// one after another in the order selected, and once all have run the run
/// finishes.
pub proof fn law_backup_is_read_before_any_task(
    task_count: nat,
    backup_read: bool,
    befores_read: bool,
    done: nat,
)
    requires
        task_count <= usize::MAX,
    ensures
        !backup_read ==> run_action(task_count, backup_read, befores_read, done) == RunAction::ReadBackup,
        run_action(task_count, backup_read, befores_read, done) is RunTask ==> backup_read
            && befores_read && run_action(task_count, backup_read, befores_read, done)->0 == done
            && done < task_count,
        backup_read && befores_read && task_count > 0 && done >= task_count ==> run_action(
            task_count,
            backup_read,
            befores_read,
            done,
        ) == RunAction::Finish,
{
}


proof fn lemma_in_concat<A>(a: Seq<A>, b: Seq<A>, x: A)
    ensures
        (a + b).contains(x) <==> a.contains(x) || b.contains(x),
{
    if (a + b).contains(x) {
        let j = choose|j: int| 0 <= j < (a + b).len() && (a + b)[j] == x;
        if j < a.len() {
            assert(a[j] == x);
        } else {
            assert(b[j - a.len()] == x);
        }
    }
    if a.contains(x) {
        let j = choose|j: int| 0 <= j < a.len() && a[j] == x;
        assert((a + b)[j] == x);
    }
    if b.contains(x) {
        let j = choose|j: int| 0 <= j < b.len() && b[j] == x;
        assert((a + b)[a.len() + j] == x);
    }
}

proof fn lemma_one_or_none(flag: bool, y: DisableTask, t: DisableTask)
    ensures
        (if flag { seq![y] } else { Seq::<DisableTask>::empty() }).contains(t) <==> flag && t == y,
{
    if flag && t == y {
        assert(seq![y][0] == t);
    }
}

proof fn lemma_selected_task(o: DisableOptions, t: DisableTask)
    ensures
        selected_tasks(o).contains(t) <==> match t {
            DisableTask::HyperV => o.hyperv,
            DisableTask::Wsl => o.wsl,
            DisableTask::Vbs => o.vbs,
            DisableTask::CoreIsolation => o.core_isolation,
            DisableTask::OptionalRegistry => o.optional_registry_ids@.len() > 0,
        },
{
    let a = if o.hyperv { seq![DisableTask::HyperV] } else { seq![] };
    let b = if o.wsl { seq![DisableTask::Wsl] } else { seq![] };
    let c = if o.vbs { seq![DisableTask::Vbs] } else { seq![] };
    let d = if o.core_isolation { seq![DisableTask::CoreIsolation] } else { seq![] };
    let e = if o.optional_registry_ids@.len() > 0 { seq![DisableTask::OptionalRegistry] } else { seq![] };
    assert(selected_tasks(o) == a + b + c + d + e);
    lemma_in_concat(a + b + c + d, e, t);
    lemma_in_concat(a + b + c, d, t);
    lemma_in_concat(a + b, c, t);
    lemma_in_concat(a, b, t);
    lemma_one_or_none(o.hyperv, DisableTask::HyperV, t);
    lemma_one_or_none(o.wsl, DisableTask::Wsl, t);
    lemma_one_or_none(o.vbs, DisableTask::Vbs, t);
    lemma_one_or_none(o.core_isolation, DisableTask::CoreIsolation, t);
    lemma_one_or_none(o.optional_registry_ids@.len() > 0, DisableTask::OptionalRegistry, t);
}

/// Every registry value that a selected task may write is backed up before
/// the run, whatever else is selected, and nothing else is backed up.
pub proof fn law_every_written_value_is_backed_up(o: DisableOptions, t: DisableTask, x: ResolvedEntry)
    ensures
        selected_tasks(o).contains(t) && (task_registry_list(t, o) matches Some(l) && l.contains(x))
            ==> backup_targets(o).contains(x),
        backup_targets(o).contains(x) ==> exists|u: DisableTask|
            #[trigger] selected_tasks(o).contains(u) && (task_registry_list(u, o) matches Some(l)
                && l.contains(x)),
{
    let v = if o.vbs { disable_write_list(manifest(), DisableGroup::Vbs) } else { seq![] };
    let c = if o.core_isolation {
        disable_write_list(manifest(), DisableGroup::CoreIsolation)
    } else {
        seq![]
    };
    let p = if o.optional_registry_ids@.len() > 0 {
        optional_list(manifest(), o.optional_registry_ids@)
    } else {
        seq![]
    };
    assert(backup_targets(o) == v + c + p);
    lemma_in_concat(v + c, p, x);
    lemma_in_concat(v, c, x);
    lemma_selected_task(o, t);
    lemma_selected_task(o, DisableTask::Vbs);
    lemma_selected_task(o, DisableTask::CoreIsolation);
    lemma_selected_task(o, DisableTask::OptionalRegistry);
    if backup_targets(o).contains(x) {
        if v.contains(x) {
            assert(task_registry_list(DisableTask::Vbs, o) == Some(v));
        } else if c.contains(x) {
            assert(task_registry_list(DisableTask::CoreIsolation, o) == Some(c));
        } else {
            assert(task_registry_list(DisableTask::OptionalRegistry, o) == Some(p));
        }
    }
}
} // verus!
