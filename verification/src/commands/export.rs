//! The CSV files of an inspection: their names and their text.
use vstd::prelude::*;
use crate::models::installed_program::{InstalledProgramItem, ProgramRow};
use crate::models::system_info::{SystemInfoItem, SystemRow};
use crate::models::virtualization::{VirtRow, VirtualizationItem};
use crate::services::csv_service::{escape_csv, escaped_csv};
use crate::text::{cat, cat3, push_str, string_of};

verus! {

/// Where the three inspection files were saved.
#[derive(Debug, Clone)]
pub struct InspectionExportOutput {
    pub system_csv_path: String,
    pub virtualization_csv_path: String,
    pub installed_programs_csv_path: String,
}

/// The suffix of an automatically named file of the given kind.
pub open spec fn data_type_suffix(data_type: Seq<char>) -> Seq<char> {
    if data_type == "system"@ {
        "SystemInfo"@
    } else if data_type == "virtualization"@ {
        "reg"@
    } else if data_type == "installed_programs"@ {
        "Programs"@
    } else {
        data_type
    }
}

fn same_text(a: &str, b: &str) -> (r: bool)
    ensures
        r == (a@ == b@),
{
    a.to_owned() == b.to_owned()
}

/// `{stamp}_{host}-{suffix}.csv`, the suffix naming the kind of data.
pub fn auto_csv_file_name(stamp: &str, host: &str, data_type: &str) -> (r: String)
    ensures
        r@ == stamp@ + "_"@ + host@ + "-"@ + data_type_suffix(data_type@) + ".csv"@,
{
    let suffix = if same_text(data_type, "system") {
        "SystemInfo"
    } else if same_text(data_type, "virtualization") {
        "reg"
    } else if same_text(data_type, "installed_programs") {
        "Programs"
    } else {
        data_type
    };
    let mut r = cat3(stamp, "_", host);
    r.append("-");
    r.append(suffix);
    r.append(".csv");
    r
}

pub open spec fn system_csv_row(r: SystemRow) -> Seq<char> {
    escaped_csv(r.category) + seq![','] + escaped_csv(r.item) + seq![','] + escaped_csv(r.value) + seq!['\n']
}

pub open spec fn virt_csv_row(r: VirtRow) -> Seq<char> {
    escaped_csv(r.category) + seq![','] + escaped_csv(r.status) + seq![','] + escaped_csv(r.details)
        + seq![','] + escaped_csv(r.recommendation) + seq!['\n']
}

pub open spec fn program_csv_row(r: ProgramRow) -> Seq<char> {
    escaped_csv(r.name) + seq![','] + escaped_csv(r.publisher) + seq![','] + escaped_csv(r.install_date)
        + seq!['\n']
}

pub open spec fn system_csv_rows(items: Seq<SystemInfoItem>) -> Seq<char>
    decreases items.len(),
{
    if items.len() == 0 {
        seq![]
    } else {
        system_csv_rows(items.drop_last()) + system_csv_row(items.last()@)
    }
}

pub open spec fn virt_csv_rows(items: Seq<VirtualizationItem>) -> Seq<char>
    decreases items.len(),
{
    if items.len() == 0 {
        seq![]
    } else {
        virt_csv_rows(items.drop_last()) + virt_csv_row(items.last()@)
    }
}

pub open spec fn program_csv_rows(items: Seq<InstalledProgramItem>) -> Seq<char>
    decreases items.len(),
{
    if items.len() == 0 {
        seq![]
    } else {
        program_csv_rows(items.drop_last()) + program_csv_row(items.last()@)
    }
}

/// The column names and rows of the kind of data named; nothing for an
/// unknown kind, and only the column names when its items are missing.
pub open spec fn csv_body(
    data_type: Seq<char>,
    system_items: Option<Vec<SystemInfoItem>>,
    virt_items: Option<Vec<VirtualizationItem>>,
    installed_program_items: Option<Vec<InstalledProgramItem>>,
) -> Seq<char> {
    if data_type == "system"@ {
        "항목,세부 정보,값\n"@ + match system_items {
            Some(v) => system_csv_rows(v@),
            None => seq![],
        }
    } else if data_type == "virtualization"@ {
        "항목,상태,상세 정보,권장사항\n"@ + match virt_items {
            Some(v) => virt_csv_rows(v@),
            None => seq![],
        }
    } else if data_type == "installed_programs"@ {
        "설치된 프로그램 이름,제조사,날짜\n"@ + match installed_program_items {
            Some(v) => program_csv_rows(v@),
            None => seq![],
        }
    } else {
        seq![]
    }
}

/// A byte order mark and the two comment lines that open every file.
pub open spec fn csv_preamble(created: Seq<char>) -> Seq<char> {
    seq!['\u{FEFF}'] + "# VM Compatibility Tool\n"@ + "# 생성일시: "@ + created + "\n\n"@
}

fn push_field(out: &mut Vec<char>, s: &String)
    ensures
        final(out)@ == old(out)@ + escaped_csv(s@),
{
    let e = escape_csv(s.as_str());
    push_str(out, e.as_str());
}

fn push_system_rows(out: &mut Vec<char>, items: &Vec<SystemInfoItem>)
    ensures
        final(out)@ == old(out)@ + system_csv_rows(items@),
{
    let ghost start = out@;
    let mut i: usize = 0;
    while i < items.len()
        invariant
            0 <= i <= items@.len(),
            out@ == start + system_csv_rows(items@.take(i as int)),
        decreases items@.len() - i,
    {
        let it = &items[i];
        let ghost at = out@;
        push_field(out, &it.category);
        out.push(',');
        push_field(out, &it.item);
        out.push(',');
        push_field(out, &it.value);
        out.push('\n');
        assert(out@ =~= at + system_csv_row(it@));
        assert(items@.take(i + 1).drop_last() =~= items@.take(i as int));
        i += 1;
    }
    assert(items@.take(items@.len() as int) =~= items@);
}

fn push_virt_rows(out: &mut Vec<char>, items: &Vec<VirtualizationItem>)
    ensures
        final(out)@ == old(out)@ + virt_csv_rows(items@),
{
    let ghost start = out@;
    let mut i: usize = 0;
    while i < items.len()
        invariant
            0 <= i <= items@.len(),
            out@ == start + virt_csv_rows(items@.take(i as int)),
        decreases items@.len() - i,
    {
        let it = &items[i];
        let ghost at = out@;
        push_field(out, &it.category);
        out.push(',');
        push_field(out, &it.status);
        out.push(',');
        push_field(out, &it.details);
        out.push(',');
        push_field(out, &it.recommendation);
        out.push('\n');
        assert(out@ =~= at + virt_csv_row(it@));
        assert(items@.take(i + 1).drop_last() =~= items@.take(i as int));
        i += 1;
    }
    assert(items@.take(items@.len() as int) =~= items@);
}

fn push_program_rows(out: &mut Vec<char>, items: &Vec<InstalledProgramItem>)
    ensures
        final(out)@ == old(out)@ + program_csv_rows(items@),
{
    let ghost start = out@;
    let mut i: usize = 0;
    while i < items.len()
        invariant
            0 <= i <= items@.len(),
            out@ == start + program_csv_rows(items@.take(i as int)),
        decreases items@.len() - i,
    {
        let it = &items[i];
        let ghost at = out@;
        push_field(out, &it.name);
        out.push(',');
        push_field(out, &it.publisher);
        out.push(',');
        push_field(out, &it.install_date);
        out.push('\n');
        assert(out@ =~= at + program_csv_row(it@));
        assert(items@.take(i + 1).drop_last() =~= items@.take(i as int));
        i += 1;
    }
    assert(items@.take(items@.len() as int) =~= items@);
}

/// The text of an exported CSV file created at `created`.
pub fn csv_content(
    created: &str,
    data_type: &str,
    system_items: &Option<Vec<SystemInfoItem>>,
    virt_items: &Option<Vec<VirtualizationItem>>,
    installed_program_items: &Option<Vec<InstalledProgramItem>>,
) -> (r: String)
    ensures
        r@ == csv_preamble(created@) + csv_body(
            data_type@,
            *system_items,
            *virt_items,
            *installed_program_items,
        ),
{
    let mut out: Vec<char> = Vec::new();
    out.push('\u{FEFF}');
    push_str(&mut out, "# VM Compatibility Tool\n");
    push_str(&mut out, "# 생성일시: ");
    push_str(&mut out, created);
    push_str(&mut out, "\n\n");
    let ghost head = out@;
    assert(head =~= csv_preamble(created@));
    if same_text(data_type, "system") {
        push_str(&mut out, "항목,세부 정보,값\n");
        match system_items {
            Some(v) => push_system_rows(&mut out, v),
            None => {},
        }
    } else if same_text(data_type, "virtualization") {
        push_str(&mut out, "항목,상태,상세 정보,권장사항\n");
        match virt_items {
            Some(v) => push_virt_rows(&mut out, v),
            None => {},
        }
    } else if same_text(data_type, "installed_programs") {
        push_str(&mut out, "설치된 프로그램 이름,제조사,날짜\n");
        match installed_program_items {
            Some(v) => push_program_rows(&mut out, v),
            None => {},
        }
    }
    assert(out@ =~= head + csv_body(data_type@, *system_items, *virt_items, *installed_program_items));
    string_of(out.as_slice())
}

} // verus!
