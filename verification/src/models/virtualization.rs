use vstd::prelude::*;

verus! {

/// The group of remediation actions an inspection row belongs to.
#[derive(Debug, Clone, Copy, PartialEq, Eq, Hash, Structural)]
pub enum DisableGroup {
    Hyperv,
    Wsl,
    Vbs,
    CoreIsolation,
}

pub open spec fn disable_group_name(g: DisableGroup) -> Seq<char> {
    match g {
        DisableGroup::Hyperv => "hyperv"@,
        DisableGroup::Wsl => "wsl"@,
        DisableGroup::Vbs => "vbs"@,
        DisableGroup::CoreIsolation => "core_isolation"@,
    }
}

impl DisableGroup {
    /// The snake-case name of the group.
    pub fn as_str(self) -> (r: &'static str)
        ensures
            r@ == disable_group_name(self),
    {
        match self {
            DisableGroup::Hyperv => "hyperv",
            DisableGroup::Wsl => "wsl",
            DisableGroup::Vbs => "vbs",
            DisableGroup::CoreIsolation => "core_isolation",
        }
    }
}

/// Where an inspection result was read from.
#[derive(Debug, Clone, Copy, PartialEq, Eq, Structural)]
pub enum VirtualizationSource {
    Unknown,
    Wmi,
    Feature,
    Bcd,
    Registry,
}

/// Advisory rows that are not checks of a single setting.
#[derive(Debug, Clone, Copy, PartialEq, Eq, Structural)]
pub enum VirtualizationKind {
    WhfbWarning,
    OrganizationWarning,
}

/// One row of the virtualization inspection table.
#[derive(Debug, Clone)]
pub struct VirtualizationItem {
    pub category: String,
    pub status: String,
    pub details: String,
    pub recommendation: String,
    pub disable_group: Option<DisableGroup>,
    pub source_type: VirtualizationSource,
    pub action_required: bool,
    pub manifest_id: Option<String>,
    /// The state could not be determined.
    pub unknown: bool,
    pub kind: Option<VirtualizationKind>,
    /// An excluded setting is active and may be switched off on request.
    pub optional_action_available: bool,
}

/// The content of a virtualization inspection row.
pub struct VirtRow {
    pub category: Seq<char>,
    pub status: Seq<char>,
    pub details: Seq<char>,
    pub recommendation: Seq<char>,
    pub disable_group: Option<DisableGroup>,
    pub source_type: VirtualizationSource,
    pub action_required: bool,
    pub manifest_id: Option<Seq<char>>,
    pub unknown: bool,
    pub kind: Option<VirtualizationKind>,
    pub optional_action_available: bool,
}

impl View for VirtualizationItem {
    type V = VirtRow;

    open spec fn view(&self) -> VirtRow {
        VirtRow {
            category: self.category@,
            status: self.status@,
            details: self.details@,
            recommendation: self.recommendation@,
            disable_group: self.disable_group,
            source_type: self.source_type,
            action_required: self.action_required,
            manifest_id: match self.manifest_id {
                Some(s) => Some(s@),
                None => None,
            },
            unknown: self.unknown,
            kind: self.kind,
            optional_action_available: self.optional_action_available,
        }
    }
}

/// A row with the given texts and every other field at its default.
pub open spec fn plain_virt_row(
    category: Seq<char>,
    status: Seq<char>,
    details: Seq<char>,
    recommendation: Seq<char>,
) -> VirtRow {
    VirtRow {
        category,
        status,
        details,
        recommendation,
        disable_group: None,
        source_type: VirtualizationSource::Unknown,
        action_required: false,
        manifest_id: None,
        unknown: false,
        kind: None,
        optional_action_available: false,
    }
}

pub open spec fn virt_rows_of(items: Seq<VirtualizationItem>) -> Seq<VirtRow> {
    items.map_values(|i: VirtualizationItem| i@)
}

pub proof fn lemma_virt_rows_push(items: Seq<VirtualizationItem>, it: VirtualizationItem)
    ensures
        virt_rows_of(items.push(it)) == virt_rows_of(items).push(it@),
{
    assert(virt_rows_of(items.push(it)) =~= virt_rows_of(items).push(it@));
}

/// Appends a row and records that exactly that row was added.
pub fn push_virt_row(items: &mut Vec<VirtualizationItem>, it: VirtualizationItem)
    ensures
        virt_rows_of(final(items)@) == virt_rows_of(old(items)@).push(it@),
{
    proof {
        lemma_virt_rows_push(items@, it);
    }
    items.push(it);
}

impl VirtualizationItem {
    pub fn new(category: &str, status: &str, details: &str, recommendation: &str) -> (r: Self)
        ensures
            r@ == plain_virt_row(category@, status@, details@, recommendation@),
    {
        VirtualizationItem {
            category: category.to_owned(),
            status: status.to_owned(),
            details: details.to_owned(),
            recommendation: recommendation.to_owned(),
            disable_group: None,
            source_type: VirtualizationSource::Unknown,
            action_required: false,
            manifest_id: None,
            unknown: false,
            kind: None,
            optional_action_available: false,
        }
    }

    pub fn with_disable_group(self, disable_group: DisableGroup, action_required: bool) -> (r:
        Self)
        ensures
            r@ == (VirtRow {
                disable_group: Some(disable_group),
                action_required: action_required,
                ..self@
            }),
    {
        let mut s = self;
        s.disable_group = Some(disable_group);
        s.action_required = action_required;
        s
    }

    pub fn with_source(self, source_type: VirtualizationSource) -> (r: Self)
        ensures
            r@ == (VirtRow { source_type: source_type, ..self@ }),
    {
        let mut s = self;
        s.source_type = source_type;
        s
    }

    pub fn with_manifest_id(self, manifest_id: &str) -> (r: Self)
        ensures
            r@ == (VirtRow { manifest_id: Some(manifest_id@), ..self@ }),
    {
        let mut s = self;
        s.manifest_id = Some(manifest_id.to_owned());
        s
    }

    pub fn with_unknown(self, unknown: bool) -> (r: Self)
        ensures
            r@ == (VirtRow { unknown: unknown, ..self@ }),
    {
        let mut s = self;
        s.unknown = unknown;
        s
    }

    pub fn with_kind(self, kind: VirtualizationKind) -> (r: Self)
        ensures
            r@ == (VirtRow { kind: Some(kind), ..self@ }),
    {
        let mut s = self;
        s.kind = Some(kind);
        s
    }

    pub fn with_optional_action_available(self, available: bool) -> (r: Self)
        ensures
            r@ == (VirtRow { optional_action_available: available, ..self@ }),
    {
        let mut s = self;
        s.optional_action_available = available;
        s
    }
}

/// The outcome of one remediation task.
#[derive(Debug, Clone)]
pub struct DisableResult {
    pub task: String,
    pub success: bool,
    pub message: String,
}

/// Progress of the remediation run, reported after each step starts or fails.
#[derive(Debug, Clone)]
pub struct ProgressEvent {
    pub step: u32,
    pub total: u32,
    pub message: String,
    pub success: bool,
}

/// Which remediation groups to run, and which of the values excluded from
/// automatic remediation the user chose to switch off as well (by manifest id).
#[derive(Debug, Clone)]
pub struct DisableOptions {
    pub hyperv: bool,
    pub wsl: bool,
    pub vbs: bool,
    pub core_isolation: bool,
    pub optional_registry_ids: Vec<String>,
}

impl DisableOptions {
    /// Every group selected, no optional value.
    pub fn all() -> (r: Self)
        ensures
            r.hyperv && r.wsl && r.vbs && r.core_isolation,
            r.optional_registry_ids@.len() == 0,
    {
        DisableOptions {
            hyperv: true,
            wsl: true,
            vbs: true,
            core_isolation: true,
            optional_registry_ids: Vec::new(),
        }
    }

    /// Something is selected.
    pub fn any(&self) -> (r: bool)
        ensures
            r == (self.hyperv || self.wsl || self.vbs || self.core_isolation
                || self.optional_registry_ids@.len() > 0),
    {
        self.hyperv || self.wsl || self.vbs || self.core_isolation || self.optional_registry_ids.len() > 0
    }
}

/// Everything a remediation run reports back.
#[derive(Debug, Clone)]
pub struct DisableOutput {
    pub results: Vec<DisableResult>,
    pub log_path: Option<String>,
    pub backup_path: Option<String>,
    pub change_csv_path: Option<String>,
}

} // verus!
