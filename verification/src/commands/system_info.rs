//! System information: turning what WMI, the registry and PowerShell report
//! into table rows.
use vstd::prelude::*;
use crate::models::system_info::{
    SystemInfoItem, SystemRow, error_row, push_row, row, rows_of,
};
use crate::services::disk_service::{
    DiskType, detect_from_model_name, disk_type_text, media_disk_type, media_type_to_disk_type,
    model_disk_type,
};
use crate::services::process_service::ProcessResult;
use crate::services::registry_service::{
    VersionView, WindowsVersionInfo, edition_label, edition_text,
};
use crate::services::timestamp::{
    format_timestamp, parse_timestamp, parsed_timestamp, seconds_since_local_time, timestamp_text,
};
use crate::services::wmi_service::{
    MsftPhysicalDisk, Win32BaseBoard, Win32ComputerSystem, Win32DiskDrive, Win32OperatingSystem,
    Win32PowerPlan, Win32Processor, Win32VideoController,
};
use crate::text::{
    ascii_lower_chars, ascii_lower_seq, cat, cat3, chars_of, contains, contains_seq, copy_range,
    decimal, extend_chars, join, join_chars, lemma_views_push, lines_chars, lines_of, push_str,
    split_char, split_chars, byte_prefix, byte_prefix_len, i64_to_string, is_char_boundary,
    signed_decimal, utf8_len,
    splitn_char, splitn_chars, string_of, trim, trim_chars, trim_str, u64_to_string, views_of,
};

verus! {

// ---------------------------------------------------------------------------
// Power reference lines
// ---------------------------------------------------------------------------

/// A line `category\titem\tvalue`, trimmed; the value keeps any further tabs.
/// Lines that are blank, have fewer than three fields, or an empty category
/// or item give nothing.
pub open spec fn power_reference_fields(line: Seq<char>) -> Option<(Seq<char>, Seq<char>, Seq<char>)> {
    let t = trim(line);
    let parts = splitn_char(t, 3, '\t');
    if t.len() == 0 || parts.len() < 3 {
        None
    } else if trim(parts[0]).len() == 0 || trim(parts[1]).len() == 0 {
        None
    } else {
        Some((trim(parts[0]), trim(parts[1]), trim(parts[2])))
    }
}

fn parse_power_reference_chars(line: &[char]) -> (r: Option<(Vec<char>, Vec<char>, Vec<char>)>)
    ensures
        match r {
            Some((a, b, c)) => power_reference_fields(line@) == Some((a@, b@, c@)),
            None => power_reference_fields(line@) is None,
        },
{
    let t = trim_chars(line);
    if t.len() == 0 {
        return None;
    }
    let parts = splitn_chars(t.as_slice(), 3, '\t');
    assert(views_of(parts@).len() == parts@.len());
    if parts.len() < 3 {
        return None;
    }
    assert(views_of(parts@)[0] == parts@[0]@);
    assert(views_of(parts@)[1] == parts@[1]@);
    assert(views_of(parts@)[2] == parts@[2]@);
    let category = trim_chars(parts[0].as_slice());
    let item = trim_chars(parts[1].as_slice());
    let value = trim_chars(parts[2].as_slice());
    if category.len() == 0 || item.len() == 0 {
        return None;
    }
    Some((category, item, value))
}

/// The trimmed category, item and value of a power reference line.
pub fn parse_power_reference_line(line: &str) -> (r: Option<(String, String, String)>)
    ensures
        match r {
            Some((a, b, c)) => power_reference_fields(line@) == Some((a@, b@, c@)),
            None => power_reference_fields(line@) is None,
        },
{
    let v = chars_of(line);
    match parse_power_reference_chars(v.as_slice()) {
        Some((a, b, c)) => Some((string_of(a.as_slice()), string_of(b.as_slice()), string_of(c.as_slice()))),
        None => None,
    }
}

pub open spec fn power_reference_line_rows(lines: Seq<Seq<char>>) -> Seq<SystemRow>
    decreases lines.len(),
{
    if lines.len() == 0 {
        seq![]
    } else {
        let r = power_reference_line_rows(lines.drop_last());
        match power_reference_fields(lines.last()) {
            Some((c, i, v)) => r.push(row(c, i, v)),
            None => r,
        }
    }
}

/// A PowerShell run failed without printing anything.
pub open spec fn run_failed(success: bool, stdout: Seq<char>) -> bool {
    !success && trim(stdout).len() == 0
}

pub open spec fn stderr_or(stderr: Seq<char>, fallback: Seq<char>) -> Seq<char> {
    if trim(stderr).len() == 0 {
        fallback
    } else {
        trim(stderr)
    }
}

/// The power reference rows: an error row when the run failed, else one row
/// per well-formed line, or a note when there is none.
pub open spec fn power_reference_rows(success: bool, stdout: Seq<char>, stderr: Seq<char>) -> Seq<SystemRow> {
    if run_failed(success, stdout) {
        seq![error_row("전원 참고"@, stderr_or(stderr, "전원 참고 정보 수집 실패"@))]
    } else {
        let r = power_reference_line_rows(lines_of(stdout));
        if r.len() == 0 {
            seq![row("전원 참고"@, "상태"@, "추가 전원 참고 정보 없음"@)]
        } else {
            r
        }
    }
}

fn stderr_message(stderr: &str, fallback: &str) -> (r: String)
    ensures
        r@ == stderr_or(stderr@, fallback@),
{
    let e = trim_str(stderr);
    if e.as_str().unicode_len() == 0 {
        fallback.to_owned()
    } else {
        e
    }
}

fn is_run_failed(result: &ProcessResult) -> (r: bool)
    ensures
        r == run_failed(result.success, result.stdout@),
{
    if result.success {
        return false;
    }
    let o = trim_str(result.stdout.as_str());
    o.as_str().unicode_len() == 0
}

/// Rows from the output of the power reference script.
pub fn collect_power_reference_info(items: &mut Vec<SystemInfoItem>, result: &ProcessResult)
    ensures
        rows_of(final(items)@) == rows_of(old(items)@) + power_reference_rows(
            result.success,
            result.stdout@,
            result.stderr@,
        ),
{
    let ghost before = rows_of(items@);
    if is_run_failed(result) {
        let msg = stderr_message(result.stderr.as_str(), "전원 참고 정보 수집 실패");
        push_row(items, SystemInfoItem::error("전원 참고", msg.as_str()));
        assert(rows_of(items@) =~= before + power_reference_rows(
            result.success,
            result.stdout@,
            result.stderr@,
        ));
        return;
    }
    let out = chars_of(result.stdout.as_str());
    let lines = lines_chars(out.as_slice());
    let ghost ls = views_of(lines@);
    let mut any = false;
    let mut i: usize = 0;
    while i < lines.len()
        invariant
            ls == views_of(lines@),
            0 <= i <= lines@.len(),
            rows_of(items@) == before + power_reference_line_rows(ls.take(i as int)),
            any == (power_reference_line_rows(ls.take(i as int)).len() > 0),
        decreases lines@.len() - i,
    {
        assert(ls.take(i + 1).drop_last() =~= ls.take(i as int));
        assert(ls.take(i + 1).last() == lines@[i as int]@);
        match parse_power_reference_chars(lines[i].as_slice()) {
            Some((c, it, v)) => {
                let cs = string_of(c.as_slice());
                let is = string_of(it.as_slice());
                let vs = string_of(v.as_slice());
                push_row(items, SystemInfoItem::new(cs.as_str(), is.as_str(), vs.as_str()));
                any = true;
            },
            None => {},
        }
        i += 1;
    }
    assert(ls.take(lines@.len() as int) =~= ls);
    if !any {
        push_row(items, SystemInfoItem::new("전원 참고", "상태", "추가 전원 참고 정보 없음"));
    }
    assert(rows_of(items@) =~= before + power_reference_rows(
        result.success,
        result.stdout@,
        result.stderr@,
    ));
}

// ---------------------------------------------------------------------------
// Windows Update history
// ---------------------------------------------------------------------------

/// A history line `date|KB`, both trimmed and non-empty.
pub open spec fn update_fields(line: Seq<char>) -> Option<(Seq<char>, Seq<char>)> {
    let t = trim(line);
    let parts = splitn_char(t, 2, '|');
    if t.len() == 0 || parts.len() < 2 || trim(parts[0]).len() == 0 || trim(parts[1]).len() == 0 {
        None
    } else {
        Some((trim(parts[0]), trim(parts[1])))
    }
}

pub open spec fn update_line_rows(lines: Seq<Seq<char>>) -> Seq<SystemRow>
    decreases lines.len(),
{
    if lines.len() == 0 {
        seq![]
    } else {
        let r = update_line_rows(lines.drop_last());
        match update_fields(lines.last()) {
            Some((date, kb)) => r.push(row("Windows 업데이트"@, kb, date)),
            None => r,
        }
    }
}

/// The update rows: an error row when the query failed, else one row per
/// installed update (item: KB number, value: date), or a note when there is none.
pub open spec fn windows_update_rows(success: bool, stdout: Seq<char>, stderr: Seq<char>) -> Seq<SystemRow> {
    if run_failed(success, stdout) {
        seq![error_row("Windows 업데이트"@, stderr_or(stderr, "수집 실패"@))]
    } else {
        let r = update_line_rows(lines_of(stdout));
        if r.len() == 0 {
            seq![row("Windows 업데이트"@, "최근 3개월"@, "업데이트 기록 없음"@)]
        } else {
            r
        }
    }
}

fn parse_update_chars(line: &[char]) -> (r: Option<(Vec<char>, Vec<char>)>)
    ensures
        match r {
            Some((a, b)) => update_fields(line@) == Some((a@, b@)),
            None => update_fields(line@) is None,
        },
{
    let t = trim_chars(line);
    if t.len() == 0 {
        return None;
    }
    let parts = splitn_chars(t.as_slice(), 2, '|');
    assert(views_of(parts@).len() == parts@.len());
    if parts.len() < 2 {
        return None;
    }
    assert(views_of(parts@)[0] == parts@[0]@);
    assert(views_of(parts@)[1] == parts@[1]@);
    let date = trim_chars(parts[0].as_slice());
    let kb = trim_chars(parts[1].as_slice());
    if date.len() == 0 || kb.len() == 0 {
        return None;
    }
    Some((date, kb))
}

/// Rows from the output of the update history script.
pub fn collect_windows_update_info(items: &mut Vec<SystemInfoItem>, result: &ProcessResult)
    ensures
        rows_of(final(items)@) == rows_of(old(items)@) + windows_update_rows(
            result.success,
            result.stdout@,
            result.stderr@,
        ),
{
    let ghost before = rows_of(items@);
    if is_run_failed(result) {
        let msg = stderr_message(result.stderr.as_str(), "수집 실패");
        push_row(items, SystemInfoItem::error("Windows 업데이트", msg.as_str()));
        assert(rows_of(items@) =~= before + windows_update_rows(
            result.success,
            result.stdout@,
            result.stderr@,
        ));
        return;
    }
    let out = chars_of(result.stdout.as_str());
    let lines = lines_chars(out.as_slice());
    let ghost ls = views_of(lines@);
    let mut any = false;
    let mut i: usize = 0;
    while i < lines.len()
        invariant
            ls == views_of(lines@),
            0 <= i <= lines@.len(),
            rows_of(items@) == before + update_line_rows(ls.take(i as int)),
            any == (update_line_rows(ls.take(i as int)).len() > 0),
        decreases lines@.len() - i,
    {
        assert(ls.take(i + 1).drop_last() =~= ls.take(i as int));
        assert(ls.take(i + 1).last() == lines@[i as int]@);
        match parse_update_chars(lines[i].as_slice()) {
            Some((date, kb)) => {
                let ks = string_of(kb.as_slice());
                let ds = string_of(date.as_slice());
                push_row(items, SystemInfoItem::new("Windows 업데이트", ks.as_str(), ds.as_str()));
                any = true;
            },
            None => {},
        }
        i += 1;
    }
    assert(ls.take(lines@.len() as int) =~= ls);
    if !any {
        push_row(items, SystemInfoItem::new("Windows 업데이트", "최근 3개월", "업데이트 기록 없음"));
    }
    assert(rows_of(items@) =~= before + windows_update_rows(
        result.success,
        result.stdout@,
        result.stderr@,
    ));
}


// ---------------------------------------------------------------------------
// Security hook module (f_im.dll)
// ---------------------------------------------------------------------------

/// The `i`-th tab-separated field, trimmed, or empty when there is none.
pub open spec fn field_at(parts: Seq<Seq<char>>, i: int) -> Seq<char> {
    if 0 <= i < parts.len() {
        trim(parts[i])
    } else {
        seq![]
    }
}

pub open spec fn labelled(label: Seq<char>, v: Seq<char>) -> Seq<Seq<char>> {
    if v.len() > 0 {
        seq![label + v]
    } else {
        seq![]
    }
}

/// Where the module was found: SysWOW64 when its path says so, else System32.
pub open spec fn hook_location(path: Seq<char>) -> Seq<char> {
    if contains_seq(ascii_lower_seq(path), "\\syswow64\\"@) {
        "SysWOW64"@
    } else {
        "System32"@
    }
}

/// The details of a found module: company, product and version when known,
/// the signature status ("Unknown" when missing), the signer when known.
pub open spec fn hook_details(
    company: Seq<char>,
    product: Seq<char>,
    version: Seq<char>,
    status: Seq<char>,
    signer: Seq<char>,
) -> Seq<char> {
    join(
        labelled("회사: "@, company) + labelled("제품: "@, product) + labelled("버전: "@, version)
            + seq!["서명: "@ + if status.len() == 0 {
            "Unknown"@
        } else {
            status
        }] + labelled("서명자: "@, signer),
        " / "@,
    )
}

pub open spec fn hook_warning() -> Seq<char> {
    "Fasoo DRM 계열 전역 후킹 모듈의 서명/상태 이상이 감지되었습니다. 실행 시 0xc0000428 Bad Image 오류가 뜨면 해당 보안 프로그램을 최신 버전으로 재설치하거나 제거 후 재부팅하세요."@
}

/// The rows for one line `path\tcompany\tproduct\tversion\tstatus\tsigner`:
/// the module, and a warning when the signature status is set and not "Valid".
pub open spec fn hook_line_rows(line: Seq<char>) -> Seq<SystemRow> {
    let t = trim(line);
    if t.len() == 0 {
        seq![]
    } else {
        let parts = split_char(t, '\t');
        let status = field_at(parts, 4);
        let main = row(
            "보안 모듈"@,
            "f_im.dll ("@ + hook_location(field_at(parts, 0)) + ")"@,
            hook_details(field_at(parts, 1), field_at(parts, 2), field_at(parts, 3), status, field_at(parts, 5)),
        );
        if status == "Valid"@ || status.len() == 0 {
            seq![main]
        } else {
            seq![main, row("보안 모듈 경고"@, "f_im.dll"@, hook_warning())]
        }
    }
}

pub open spec fn hook_lines_rows(lines: Seq<Seq<char>>) -> Seq<SystemRow>
    decreases lines.len(),
{
    if lines.len() == 0 {
        seq![]
    } else {
        hook_lines_rows(lines.drop_last()) + hook_line_rows(lines.last())
    }
}

/// The security module rows: an error row when the check failed, else the
/// rows of each reported file, or "미감지" when none was found.
pub open spec fn security_hook_rows(success: bool, stdout: Seq<char>, stderr: Seq<char>) -> Seq<SystemRow> {
    if run_failed(success, stdout) {
        seq![error_row("보안 모듈"@, stderr_or(stderr, "f_im.dll 점검 실패"@))]
    } else {
        let r = hook_lines_rows(lines_of(stdout));
        if r.len() == 0 {
            seq![row("보안 모듈"@, "f_im.dll"@, "미감지"@)]
        } else {
            r
        }
    }
}

fn field_chars(parts: &Vec<Vec<char>>, i: usize) -> (r: Vec<char>)
    ensures
        r@ == field_at(views_of(parts@), i as int),
{
    if i < parts.len() {
        assert(views_of(parts@)[i as int] == parts@[i as int]@);
        trim_chars(parts[i].as_slice())
    } else {
        let r: Vec<char> = Vec::new();
        assert(r@ =~= Seq::<char>::empty());
        r
    }
}

fn push_labelled(pieces: &mut Vec<Vec<char>>, label: &str, v: &Vec<char>)
    ensures
        views_of(final(pieces)@) == views_of(old(pieces)@) + labelled(label@, v@),
{
    if v.len() > 0 {
        let mut p: Vec<char> = Vec::new();
        push_str(&mut p, label);
        extend_chars(&mut p, v.as_slice());
        proof {
            crate::text::lemma_views_push(pieces@, p);
        }
        pieces.push(p);
        assert(views_of(pieces@) =~= views_of(old(pieces)@) + labelled(label@, v@));
    } else {
        assert(views_of(pieces@) =~= views_of(old(pieces)@) + labelled(label@, v@));
    }
}

fn hook_line_items(items: &mut Vec<SystemInfoItem>, line: &[char])
    ensures
        rows_of(final(items)@) == rows_of(old(items)@) + hook_line_rows(line@),
{
    let ghost before = rows_of(items@);
    let t = trim_chars(line);
    if t.len() == 0 {
        assert(rows_of(items@) =~= before + hook_line_rows(line@));
        return;
    }
    let parts = split_chars(t.as_slice(), '\t');
    let path = field_chars(&parts, 0);
    let company = field_chars(&parts, 1);
    let product = field_chars(&parts, 2);
    let file_version = field_chars(&parts, 3);
    let status = field_chars(&parts, 4);
    let signer = field_chars(&parts, 5);
    let lower = ascii_lower_chars(path.as_slice());
    let marker = chars_of("\\syswow64\\");
    let location = if contains(lower.as_slice(), marker.as_slice()) {
        "SysWOW64"
    } else {
        "System32"
    };
    let mut pieces: Vec<Vec<char>> = Vec::new();
    assert(views_of(pieces@) =~= Seq::<Seq<char>>::empty());
    push_labelled(&mut pieces, "회사: ", &company);
    push_labelled(&mut pieces, "제품: ", &product);
    push_labelled(&mut pieces, "버전: ", &file_version);
    let mut sig_piece: Vec<char> = Vec::new();
    push_str(&mut sig_piece, "서명: ");
    if status.len() == 0 {
        push_str(&mut sig_piece, "Unknown");
    } else {
        extend_chars(&mut sig_piece, status.as_slice());
    }
    proof {
        crate::text::lemma_views_push(pieces@, sig_piece);
    }
    pieces.push(sig_piece);
    push_labelled(&mut pieces, "서명자: ", &signer);
    let sep = chars_of(" / ");
    let details = join_chars_all(&pieces, sep.as_slice());
    let item_name = cat3("f_im.dll (", location, ")");
    let details_s = string_of(details.as_slice());
    let ghost parts_v = split_char(trim(line@), '\t');
    assert(t@ == trim(line@));
    assert(views_of(parts@) == parts_v);
    assert(location@ == hook_location(field_at(parts_v, 0)));
    assert(views_of(pieces@) =~= labelled("회사: "@, company@) + labelled("제품: "@, product@) + labelled("버전: "@, file_version@)
            + seq!["서명: "@ + if status@.len() == 0 {
            "Unknown"@
        } else {
            status@
        }] + labelled("서명자: "@, signer@));
    assert(details_s@ == hook_details(field_at(parts_v, 1), field_at(parts_v, 2), field_at(parts_v, 3), field_at(parts_v, 4), field_at(parts_v, 5)));
    push_row(items, SystemInfoItem::new("보안 모듈", item_name.as_str(), details_s.as_str()));
    let valid = chars_of("Valid");
    let is_valid = crate::text::matches_at(status.as_slice(), 0, valid.as_slice()) && status.len()
        == valid.len();
    proof {
        if is_valid {
            assert(status@ =~= "Valid"@) by {
                assert(status@.subrange(0, valid@.len() as int) =~= status@);
            }
        }
        if status@ == "Valid"@ {
            assert(status@.subrange(0, valid@.len() as int) =~= status@);
        }
    }
    if !(is_valid || status.len() == 0) {
        push_row(
            items,
            SystemInfoItem::new(
                "보안 모듈 경고",
                "f_im.dll",
                "Fasoo DRM 계열 전역 후킹 모듈의 서명/상태 이상이 감지되었습니다. 실행 시 0xc0000428 Bad Image 오류가 뜨면 해당 보안 프로그램을 최신 버전으로 재설치하거나 제거 후 재부팅하세요.",
            ),
        );
    }
    assert(rows_of(items@) =~= before + hook_line_rows(line@));
}

fn join_chars_all(pieces: &Vec<Vec<char>>, sep: &[char]) -> (r: Vec<char>)
    ensures
        r@ == join(views_of(pieces@), sep@),
{
    let r = crate::text::join_chars(pieces.as_slice(), 0, sep);
    assert(pieces@.skip(0) =~= pieces@);
    r
}

/// Rows from the output of the f_im.dll check.
pub fn collect_security_hook_info(items: &mut Vec<SystemInfoItem>, result: &ProcessResult)
    ensures
        rows_of(final(items)@) == rows_of(old(items)@) + security_hook_rows(
            result.success,
            result.stdout@,
            result.stderr@,
        ),
{
    let ghost before = rows_of(items@);
    if is_run_failed(result) {
        let msg = stderr_message(result.stderr.as_str(), "f_im.dll 점검 실패");
        push_row(items, SystemInfoItem::error("보안 모듈", msg.as_str()));
        assert(rows_of(items@) =~= before + security_hook_rows(
            result.success,
            result.stdout@,
            result.stderr@,
        ));
        return;
    }
    let out = chars_of(result.stdout.as_str());
    let lines = lines_chars(out.as_slice());
    let ghost ls = views_of(lines@);
    let start_len = items.len();
    let mut i: usize = 0;
    while i < lines.len()
        invariant
            ls == views_of(lines@),
            0 <= i <= lines@.len(),
            rows_of(items@) == before + hook_lines_rows(ls.take(i as int)),
            start_len == before.len(),
        decreases lines@.len() - i,
    {
        assert(ls.take(i + 1).drop_last() =~= ls.take(i as int));
        assert(ls.take(i + 1).last() == lines@[i as int]@);
        hook_line_items(items, lines[i].as_slice());
        assert(rows_of(items@) =~= before + hook_lines_rows(ls.take(i + 1)));
        i += 1;
    }
    assert(ls.take(lines@.len() as int) =~= ls);
    if items.len() == start_len {
        push_row(items, SystemInfoItem::new("보안 모듈", "f_im.dll", "미감지"));
    }
    assert(rows_of(items@) =~= before + security_hook_rows(
        result.success,
        result.stdout@,
        result.stderr@,
    ));
}

} // verus!

verus! {

// ---------------------------------------------------------------------------
// Processor
// ---------------------------------------------------------------------------

pub open spec fn enabled_text(b: bool) -> Seq<char> {
    if b {
        "활성화됨"@
    } else {
        "비활성화됨"@
    }
}

/// The rows of one processor.
pub open spec fn cpu_rows(cpu: Win32Processor) -> Seq<SystemRow> {
    seq![
        row("프로세서"@, "모델"@, cpu.name@),
        row("프로세서"@, "제조사"@, cpu.manufacturer@),
        row("프로세서"@, "코어 수"@, decimal(cpu.number_of_cores as nat)),
        row("프로세서"@, "논리 프로세서"@, decimal(cpu.number_of_logical_processors as nat)),
        row("프로세서"@, "최대 클럭"@, decimal(cpu.max_clock_speed as nat) + " MHz"@),
        row("프로세서"@, "하드웨어 가상화"@, enabled_text(cpu.virtualization_firmware_enabled)),
    ]
}

/// The first processor's rows, nothing when WMI listed none, or the error.
pub open spec fn cpu_info_rows(processors: Result<Vec<Win32Processor>, String>) -> Seq<SystemRow> {
    match processors {
        Ok(v) => if v@.len() > 0 {
            cpu_rows(v@[0])
        } else {
            seq![]
        },
        Err(e) => seq![error_row("프로세서"@, e@)],
    }
}

/// Rows for the processor, from the `Win32_Processor` query.
pub fn collect_cpu_info(items: &mut Vec<SystemInfoItem>, processors: &Result<Vec<Win32Processor>, String>)
    ensures
        rows_of(final(items)@) == rows_of(old(items)@) + cpu_info_rows(*processors),
{
    let ghost before = rows_of(items@);
    match processors {
        Ok(v) => {
            if v.len() > 0 {
                let cpu = &v[0];
                push_row(items, SystemInfoItem::new("프로세서", "모델", cpu.name.as_str()));
                push_row(items, SystemInfoItem::new("프로세서", "제조사", cpu.manufacturer.as_str()));
                let cores = u64_to_string(cpu.number_of_cores as u64);
                push_row(items, SystemInfoItem::new("프로세서", "코어 수", cores.as_str()));
                let logical = u64_to_string(cpu.number_of_logical_processors as u64);
                push_row(items, SystemInfoItem::new("프로세서", "논리 프로세서", logical.as_str()));
                let clock = u64_to_string(cpu.max_clock_speed as u64);
                let clock = cat(clock.as_str(), " MHz");
                push_row(items, SystemInfoItem::new("프로세서", "최대 클럭", clock.as_str()));
                let virt = if cpu.virtualization_firmware_enabled {
                    "활성화됨"
                } else {
                    "비활성화됨"
                };
                push_row(items, SystemInfoItem::new("프로세서", "하드웨어 가상화", virt));
            }
        },
        Err(e) => {
            push_row(items, SystemInfoItem::error("프로세서", e.as_str()));
        },
    }
    assert(rows_of(items@) =~= before + cpu_info_rows(*processors));
}

// ---------------------------------------------------------------------------
// Memory
// ---------------------------------------------------------------------------

pub open spec fn total_memory_rows(
    systems: Result<Vec<Win32ComputerSystem>, String>,
    total_text: Seq<char>,
) -> Seq<SystemRow> {
    match systems {
        Ok(v) => if v@.len() > 0 {
            seq![
                row("메모리"@, "총 용량"@, total_text),
                row("메모리"@, "제조사"@, v@[0].manufacturer@),
            ]
        } else {
            seq![]
        },
        Err(e) => seq![error_row("메모리"@, e@)],
    }
}

/// The free memory of the first operating system entry, in whole MiB.
pub open spec fn free_memory_rows(os: Result<Vec<Win32OperatingSystem>, String>) -> Seq<SystemRow> {
    match os {
        Ok(v) => if v@.len() > 0 {
            seq![row("메모리"@, "가용 용량"@, decimal((v@[0].free_physical_memory / 1024) as nat) + " MB"@)]
        } else {
            seq![]
        },
        Err(_) => seq![],
    }
}

/// Rows for the memory: the total and maker of the first `Win32_ComputerSystem`
/// (or its error), then the free memory of the first `Win32_OperatingSystem`
/// (nothing when that query failed). `total_text` is the total of that first
/// system as shown to the user ("{:.1} GB").
pub fn collect_memory_info(
    items: &mut Vec<SystemInfoItem>,
    systems: &Result<Vec<Win32ComputerSystem>, String>,
    total_text: &str,
    os: &Result<Vec<Win32OperatingSystem>, String>,
)
    ensures
        rows_of(final(items)@) == rows_of(old(items)@) + total_memory_rows(*systems, total_text@)
            + free_memory_rows(*os),
{
    let ghost before = rows_of(items@);
    match systems {
        Ok(v) => {
            if v.len() > 0 {
                push_row(items, SystemInfoItem::new("메모리", "총 용량", total_text));
                push_row(items, SystemInfoItem::new("메모리", "제조사", v[0].manufacturer.as_str()));
            }
        },
        Err(e) => {
            push_row(items, SystemInfoItem::error("메모리", e.as_str()));
        },
    }
    assert(rows_of(items@) =~= before + total_memory_rows(*systems, total_text@));
    let ghost mid = rows_of(items@);
    match os {
        Ok(v) => {
            if v.len() > 0 {
                let free = u64_to_string(v[0].free_physical_memory / 1024);
                let free = cat(free.as_str(), " MB");
                push_row(items, SystemInfoItem::new("메모리", "가용 용량", free.as_str()));
            }
        },
        Err(_) => {},
    }
    assert(rows_of(items@) =~= mid + free_memory_rows(*os));
}

// ---------------------------------------------------------------------------
// Motherboard
// ---------------------------------------------------------------------------

/// A serial number worth showing: not blank and not a vendor placeholder.
pub open spec fn shown_serial(sn: Seq<char>) -> bool {
    let t = trim(sn);
    t.len() > 0 && t != "Default string"@ && t != "To Be Filled By O.E.M."@
}

pub open spec fn board_rows(board: Win32BaseBoard) -> Seq<SystemRow> {
    let base = seq![
        row("메인보드"@, "제조사"@, board.manufacturer@),
        row("메인보드"@, "모델"@, board.product@),
    ];
    match board.serial_number {
        Some(sn) => if shown_serial(sn@) {
            base.push(row("메인보드"@, "시리얼 번호"@, trim(sn@)))
        } else {
            base
        },
        None => base,
    }
}

pub open spec fn motherboard_rows(boards: Result<Vec<Win32BaseBoard>, String>) -> Seq<SystemRow> {
    match boards {
        Ok(v) => if v@.len() > 0 {
            board_rows(v@[0])
        } else {
            seq![]
        },
        Err(e) => seq![error_row("메인보드"@, e@)],
    }
}

/// Rows for the first `Win32_BaseBoard`.
pub fn collect_motherboard_info(items: &mut Vec<SystemInfoItem>, boards: &Result<Vec<Win32BaseBoard>, String>)
    ensures
        rows_of(final(items)@) == rows_of(old(items)@) + motherboard_rows(*boards),
{
    let ghost before = rows_of(items@);
    match boards {
        Ok(v) => {
            if v.len() > 0 {
                let board = &v[0];
                push_row(items, SystemInfoItem::new("메인보드", "제조사", board.manufacturer.as_str()));
                push_row(items, SystemInfoItem::new("메인보드", "모델", board.product.as_str()));
                match &board.serial_number {
                    Some(sn) => {
                        let t = trim_str(sn.as_str());
                        let shown = t.as_str().unicode_len() > 0 && !(t == String::from_str(
                            "Default string",
                        )) && !(t == String::from_str("To Be Filled By O.E.M."));
                        if shown {
                            push_row(items, SystemInfoItem::new("메인보드", "시리얼 번호", t.as_str()));
                        }
                    },
                    None => {},
                }
            }
        },
        Err(e) => {
            push_row(items, SystemInfoItem::error("메인보드", e.as_str()));
        },
    }
    assert(rows_of(items@) =~= before + motherboard_rows(*boards));
}

} // verus!

verus! {

// ---------------------------------------------------------------------------
// Disks and graphics adapters
// ---------------------------------------------------------------------------

/// `base` alone when there is one device, else `base` and the device's
/// number counted from one.
pub open spec fn indexed_label(base: Seq<char>, i: int, n: int) -> Seq<char> {
    if n > 1 {
        base + " "@ + decimal((i + 1) as nat)
    } else {
        base
    }
}

fn indexed_label_string(base: &str, i: usize, n: usize) -> (r: String)
    requires
        i < n,
    ensures
        r@ == indexed_label(base@, i as int, n as int),
{
    if n > 1 {
        let num = u64_to_string((i + 1) as u64);
        cat3(base, " ", num.as_str())
    } else {
        base.to_owned()
    }
}

pub open spec fn is_usb_interface(interface_type: Option<String>) -> bool {
    match interface_type {
        Some(s) => s@ == "USB"@,
        None => false,
    }
}

/// What `MSFT_PhysicalDisk` at the same index says of the medium, if anything.
pub open spec fn reported_disk_type(pd: Option<MsftPhysicalDisk>) -> Option<DiskType> {
    match pd {
        Some(p) => match p.media_type {
            Some(mt) => Some(media_disk_type(mt, p.bus_type)),
            None => None,
        },
        None => None,
    }
}

/// A USB interface decides first; then a known medium type; then the model name.
pub open spec fn drive_disk_type(drive: Win32DiskDrive, pd: Option<MsftPhysicalDisk>) -> DiskType {
    if is_usb_interface(drive.interface_type) {
        DiskType::Usb
    } else {
        match reported_disk_type(pd) {
            Some(t) => if t != DiskType::Unknown {
                t
            } else {
                model_disk_type(drive.model@)
            },
            None => model_disk_type(drive.model@),
        }
    }
}

pub open spec fn physical_at(pds: Seq<MsftPhysicalDisk>, i: int) -> Option<MsftPhysicalDisk> {
    if 0 <= i < pds.len() {
        Some(pds[i])
    } else {
        None
    }
}

pub open spec fn drive_rows(
    drive: Win32DiskDrive,
    i: int,
    n: int,
    size_label: Seq<char>,
    pd: Option<MsftPhysicalDisk>,
) -> Seq<SystemRow> {
    let label = indexed_label("디스크"@, i, n);
    let size_rows = if drive.size is Some {
        seq![row(label, "용량"@, size_label)]
    } else {
        seq![]
    };
    let iface_rows = match drive.interface_type {
        Some(s) => if s@.len() > 0 {
            seq![row(label, "인터페이스"@, s@)]
        } else {
            seq![]
        },
        None => seq![],
    };
    seq![row(label, "모델"@, drive.model@)] + size_rows + iface_rows + seq![
        row(label, "타입"@, disk_type_text(drive_disk_type(drive, pd))),
    ]
}

pub open spec fn drives_rows_upto(
    drives: Seq<Win32DiskDrive>,
    pds: Seq<MsftPhysicalDisk>,
    labels: Seq<String>,
    k: int,
) -> Seq<SystemRow>
    decreases k,
{
    if k <= 0 {
        seq![]
    } else {
        drives_rows_upto(drives, pds, labels, k - 1) + drive_rows(
            drives[k - 1],
            k - 1,
            drives.len() as int,
            labels[k - 1]@,
            physical_at(pds, k - 1),
        )
    }
}

/// The physical disk list, empty when its query failed.
pub open spec fn physical_list(physical: Result<Vec<MsftPhysicalDisk>, String>) -> Seq<MsftPhysicalDisk> {
    match physical {
        Ok(v) => v@,
        Err(_) => seq![],
    }
}

pub open spec fn disk_info_rows(
    drives: Result<Vec<Win32DiskDrive>, String>,
    physical: Result<Vec<MsftPhysicalDisk>, String>,
    size_labels: Seq<String>,
) -> Seq<SystemRow> {
    match drives {
        Err(e) => seq![error_row("디스크"@, e@)],
        Ok(v) => if v@.len() == 0 {
            seq![row("디스크"@, "상태"@, "디스크를 찾을 수 없습니다"@)]
        } else {
            drives_rows_upto(v@, physical_list(physical), size_labels, v@.len() as int)
        },
    }
}

fn drive_type_of(drive: &Win32DiskDrive, pds: &Vec<MsftPhysicalDisk>, i: usize) -> (r: DiskType)
    ensures
        r == drive_disk_type(*drive, physical_at(pds@, i as int)),
{
    let usb = match &drive.interface_type {
        Some(s) => {
            let usb_name = String::from_str("USB");
            *s == usb_name
        },
        None => false,
    };
    if usb {
        return DiskType::Usb;
    }
    let from_wmi = if i < pds.len() {
        match pds[i].media_type {
            Some(mt) => Some(media_type_to_disk_type(mt, pds[i].bus_type)),
            None => None,
        }
    } else {
        None
    };
    match from_wmi {
        Some(t) => if t != DiskType::Unknown {
            t
        } else {
            detect_from_model_name(drive.model.as_str())
        },
        None => detect_from_model_name(drive.model.as_str()),
    }
}

/// Rows for the disk drives. `size_labels[i]` is the size of drive `i` as
/// shown to the user ("{:.1} TB" or "{:.0} GB"); it is used when the drive
/// reports a size. A failed `MSFT_PhysicalDisk` query counts as an empty one.
pub fn collect_disk_info(
    items: &mut Vec<SystemInfoItem>,
    drives: &Result<Vec<Win32DiskDrive>, String>,
    physical: &Result<Vec<MsftPhysicalDisk>, String>,
    size_labels: &[String],
)
    requires
        match drives {
            Ok(v) => size_labels@.len() == v@.len(),
            Err(_) => true,
        },
    ensures
        rows_of(final(items)@) == rows_of(old(items)@) + disk_info_rows(*drives, *physical, size_labels@),
{
    let ghost before = rows_of(items@);
    let v = match drives {
        Err(e) => {
            push_row(items, SystemInfoItem::error("디스크", e.as_str()));
            assert(rows_of(items@) =~= before + disk_info_rows(*drives, *physical, size_labels@));
            return;
        },
        Ok(v) => v,
    };
    let empty: Vec<MsftPhysicalDisk> = Vec::new();
    let pds = match physical {
        Ok(p) => p,
        Err(_) => &empty,
    };
    assert(pds@ == physical_list(*physical));
    if v.len() == 0 {
        push_row(items, SystemInfoItem::new("디스크", "상태", "디스크를 찾을 수 없습니다"));
        assert(rows_of(items@) =~= before + disk_info_rows(*drives, *physical, size_labels@));
        return;
    }
    let n = v.len();
    let mut i: usize = 0;
    while i < n
        invariant
            n == v@.len(),
            size_labels@.len() == n,
            0 <= i <= n,
            rows_of(items@) == before + drives_rows_upto(v@, pds@, size_labels@, i as int),
        decreases n - i,
    {
        let drive = &v[i];
        let ghost at = rows_of(items@);
        let label = indexed_label_string("디스크", i, n);
        push_row(items, SystemInfoItem::new(label.as_str(), "모델", drive.model.as_str()));
        match drive.size {
            Some(_) => {
                push_row(items, SystemInfoItem::new(label.as_str(), "용량", size_labels[i].as_str()));
            },
            None => {},
        }
        match &drive.interface_type {
            Some(s) => {
                if s.as_str().unicode_len() > 0 {
                    push_row(items, SystemInfoItem::new(label.as_str(), "인터페이스", s.as_str()));
                }
            },
            None => {},
        }
        let t = drive_type_of(drive, pds, i);
        let ts = t.to_string();
        push_row(items, SystemInfoItem::new(label.as_str(), "타입", ts.as_str()));
        assert(rows_of(items@) =~= at + drive_rows(
            v@[i as int],
            i as int,
            n as int,
            size_labels@[i as int]@,
            physical_at(pds@, i as int),
        ));
        i += 1;
    }
    assert(rows_of(items@) =~= before + disk_info_rows(*drives, *physical, size_labels@));
}

pub open spec fn gpu_rows(gpu: Win32VideoController, i: int, n: int, vram_label: Seq<char>) -> Seq<SystemRow> {
    let label = indexed_label("GPU"@, i, n);
    let vram_rows = match gpu.adapter_ram {
        Some(ram) => if ram > 0 {
            seq![row(label, "VRAM"@, vram_label)]
        } else {
            seq![]
        },
        None => seq![],
    };
    let driver_rows = match gpu.driver_version {
        Some(ver) => if ver@.len() > 0 {
            seq![row(label, "드라이버 버전"@, ver@)]
        } else {
            seq![]
        },
        None => seq![],
    };
    seq![row(label, "모델"@, gpu.name@)] + vram_rows + driver_rows
}

pub open spec fn gpus_rows_upto(gpus: Seq<Win32VideoController>, labels: Seq<String>, k: int) -> Seq<SystemRow>
    decreases k,
{
    if k <= 0 {
        seq![]
    } else {
        gpus_rows_upto(gpus, labels, k - 1) + gpu_rows(gpus[k - 1], k - 1, gpus.len() as int, labels[k - 1]@)
    }
}

pub open spec fn gpu_info_rows(gpus: Result<Vec<Win32VideoController>, String>, vram_labels: Seq<String>) -> Seq<SystemRow> {
    match gpus {
        Err(e) => seq![error_row("GPU"@, e@)],
        Ok(v) => if v@.len() == 0 {
            seq![row("GPU"@, "상태"@, "GPU를 찾을 수 없습니다"@)]
        } else {
            gpus_rows_upto(v@, vram_labels, v@.len() as int)
        },
    }
}

/// Rows for the graphics adapters. `vram_labels[i]` is the memory of adapter
/// `i` as shown to the user ("{:.0} GB" or "{:.0} MB"); it is used when the
/// adapter reports a memory size above zero.
pub fn collect_gpu_info(
    items: &mut Vec<SystemInfoItem>,
    gpus: &Result<Vec<Win32VideoController>, String>,
    vram_labels: &[String],
)
    requires
        match gpus {
            Ok(v) => vram_labels@.len() == v@.len(),
            Err(_) => true,
        },
    ensures
        rows_of(final(items)@) == rows_of(old(items)@) + gpu_info_rows(*gpus, vram_labels@),
{
    let ghost before = rows_of(items@);
    let v = match gpus {
        Err(e) => {
            push_row(items, SystemInfoItem::error("GPU", e.as_str()));
            assert(rows_of(items@) =~= before + gpu_info_rows(*gpus, vram_labels@));
            return;
        },
        Ok(v) => v,
    };
    if v.len() == 0 {
        push_row(items, SystemInfoItem::new("GPU", "상태", "GPU를 찾을 수 없습니다"));
        assert(rows_of(items@) =~= before + gpu_info_rows(*gpus, vram_labels@));
        return;
    }
    let n = v.len();
    let mut i: usize = 0;
    while i < n
        invariant
            n == v@.len(),
            vram_labels@.len() == n,
            0 <= i <= n,
            rows_of(items@) == before + gpus_rows_upto(v@, vram_labels@, i as int),
        decreases n - i,
    {
        let gpu = &v[i];
        let ghost at = rows_of(items@);
        let label = indexed_label_string("GPU", i, n);
        push_row(items, SystemInfoItem::new(label.as_str(), "모델", gpu.name.as_str()));
        match gpu.adapter_ram {
            Some(ram) => {
                if ram > 0 {
                    push_row(items, SystemInfoItem::new(label.as_str(), "VRAM", vram_labels[i].as_str()));
                }
            },
            None => {},
        }
        match &gpu.driver_version {
            Some(ver) => {
                if ver.as_str().unicode_len() > 0 {
                    push_row(items, SystemInfoItem::new(label.as_str(), "드라이버 버전", ver.as_str()));
                }
            },
            None => {},
        }
        assert(rows_of(items@) =~= at + gpu_rows(v@[i as int], i as int, n as int, vram_labels@[i as int]@));
        i += 1;
    }
    assert(rows_of(items@) =~= before + gpu_info_rows(*gpus, vram_labels@));
}

} // verus!

verus! {

// ---------------------------------------------------------------------------
// Power plans
// ---------------------------------------------------------------------------

pub open spec fn is_active_plan(p: Win32PowerPlan) -> bool {
    p.is_active == Some(true)
}

/// Index of the first active plan, or -1.
pub open spec fn first_active(plans: Seq<Win32PowerPlan>) -> int
    decreases plans.len(),
{
    if plans.len() == 0 {
        -1
    } else {
        let k = first_active(plans.drop_last());
        if k >= 0 {
            k
        } else if is_active_plan(plans.last()) {
            plans.len() - 1
        } else {
            -1
        }
    }
}

/// A plan's name, marked when it is the active one.
pub open spec fn plan_label(p: Win32PowerPlan) -> Seq<char> {
    if is_active_plan(p) {
        p.element_name@ + " (현재)"@
    } else {
        p.element_name@
    }
}

pub open spec fn plan_labels(plans: Seq<Win32PowerPlan>) -> Seq<Seq<char>> {
    plans.map_values(|p: Win32PowerPlan| plan_label(p))
}

pub open spec fn power_plan_rows(plans: Result<Vec<Win32PowerPlan>, String>) -> Seq<SystemRow> {
    match plans {
        Err(e) => seq![error_row("전원"@, e@)],
        Ok(v) => if v@.len() == 0 {
            seq![row("전원"@, "상태"@, "전원 계획을 찾을 수 없습니다"@)]
        } else {
            let k = first_active(v@);
            let active = if k >= 0 {
                seq![row("전원"@, "현재 전원 관리 옵션"@, v@[k].element_name@)]
            } else {
                seq![]
            };
            active + seq![row("전원"@, "등록된 전원 계획"@, join(plan_labels(v@), ", "@))]
        },
    }
}

proof fn lemma_first_active_bounds(plans: Seq<Win32PowerPlan>)
    ensures
        -1 <= first_active(plans) < plans.len(),
        first_active(plans) >= 0 ==> is_active_plan(plans[first_active(plans)]),
    decreases plans.len(),
{
    if plans.len() > 0 {
        lemma_first_active_bounds(plans.drop_last());
    }
}

/// Rows for the power plans: the active one, then all of them joined with
/// ", ", the active one marked "(현재)".
pub fn collect_power_info(items: &mut Vec<SystemInfoItem>, plans: &Result<Vec<Win32PowerPlan>, String>)
    ensures
        rows_of(final(items)@) == rows_of(old(items)@) + power_plan_rows(*plans),
{
    let ghost before = rows_of(items@);
    let v = match plans {
        Err(e) => {
            push_row(items, SystemInfoItem::error("전원", e.as_str()));
            assert(rows_of(items@) =~= before + power_plan_rows(*plans));
            return;
        },
        Ok(v) => v,
    };
    if v.len() == 0 {
        push_row(items, SystemInfoItem::new("전원", "상태", "전원 계획을 찾을 수 없습니다"));
        assert(rows_of(items@) =~= before + power_plan_rows(*plans));
        return;
    }
    let n = v.len();
    let mut active: Option<usize> = None;
    let mut labels: Vec<Vec<char>> = Vec::new();
    let mut i: usize = 0;
    while i < n
        invariant
            n == v@.len(),
            0 <= i <= n,
            match active {
                Some(k) => first_active(v@.take(i as int)) == k,
                None => first_active(v@.take(i as int)) == -1,
            },
            views_of(labels@) == plan_labels(v@.take(i as int)),
        decreases n - i,
    {
        assert(v@.take(i + 1).drop_last() =~= v@.take(i as int));
        assert(v@.take(i + 1).last() == v@[i as int]);
        let is_active = match v[i].is_active {
            Some(b) => b,
            None => false,
        };
        if active.is_none() && is_active {
            active = Some(i);
        }
        let mut label = chars_of(v[i].element_name.as_str());
        if is_active {
            push_str(&mut label, " (현재)");
        }
        proof {
            lemma_views_push(labels@, label);
        }
        labels.push(label);
        assert(plan_labels(v@.take(i + 1)) =~= plan_labels(v@.take(i as int)).push(plan_label(v@[i as int])));
        i += 1;
    }
    assert(v@.take(n as int) =~= v@);
    proof {
        lemma_first_active_bounds(v@);
    }
    match active {
        Some(k) => {
            push_row(items, SystemInfoItem::new("전원", "현재 전원 관리 옵션", v[k].element_name.as_str()));
        },
        None => {},
    }
    let joined = join_chars(labels.as_slice(), 0, chars_of(", ").as_slice());
    assert(labels@.skip(0) =~= labels@);
    let joined = string_of(joined.as_slice());
    push_row(items, SystemInfoItem::new("전원", "등록된 전원 계획", joined.as_str()));
    assert(rows_of(items@) =~= before + power_plan_rows(*plans));
}

} // verus!

verus! {

// ---------------------------------------------------------------------------
// Boot time
// ---------------------------------------------------------------------------

/// The format of the first fourteen bytes of a WMI datetime
/// (`YYYYMMDDHHMMSS.ffffff±UUU`).
pub open spec fn wmi_datetime_format() -> Seq<char> {
    "%Y%m%d%H%M%S"@
}

/// The original text is too short, or its first fourteen bytes do not parse.
pub open spec fn boot_time_unreadable(s: Seq<char>) -> bool {
    utf8_len(s) < 14 || parsed_timestamp(byte_prefix(s, 14), wmi_datetime_format()) is None
}

/// The text `&s[..14]` can be taken without cutting a character.
pub open spec fn wmi_head_ok(s: Seq<char>) -> bool {
    utf8_len(s) >= 14 ==> is_char_boundary(s, 14)
}

/// A WMI datetime shown as `YYYY-MM-DD HH:MM:SS`, or the text itself when it
/// cannot be read.
pub open spec fn wmi_datetime_text(s: Seq<char>) -> Seq<char> {
    if utf8_len(s) < 14 {
        s
    } else {
        match parsed_timestamp(byte_prefix(s, 14), wmi_datetime_format()) {
            Some(t) => timestamp_text(t),
            None => s,
        }
    }
}

fn wmi_head(s: &str) -> (r: Option<String>)
    requires
        wmi_head_ok(s@),
    ensures
        match r {
            Some(h) => utf8_len(s@) >= 14 && h@ == byte_prefix(s@, 14),
            None => utf8_len(s@) < 14,
        },
{
    let v = chars_of(s);
    match byte_prefix_len(v.as_slice(), 14) {
        Some(k) => {
            let head = copy_range(v.as_slice(), 0, k);
            assert(head@ =~= v@.take(k as int));
            Some(string_of(head.as_slice()))
        },
        None => None,
    }
}

/// Shows a WMI datetime as `YYYY-MM-DD HH:MM:SS`.
pub fn parse_wmi_datetime(s: &str) -> (r: String)
    requires
        wmi_head_ok(s@),
    ensures
        r@ == wmi_datetime_text(s@),
{
    match wmi_head(s) {
        None => s.to_owned(),
        Some(head) => {
            let format = "%Y%m%d%H%M%S";
            match parse_timestamp(head.as_str(), format) {
                Some(t) => {
                    let text = format_timestamp(&t);
                    string_of(text.as_slice())
                },
                None => s.to_owned(),
            }
        },
    }
}

/// An elapsed time in whole seconds as days, hours and minutes; the days keep
/// the sign, the hours and minutes are of the magnitude.
pub open spec fn uptime_text(secs: int) -> Seq<char> {
    let m: nat = if secs < 0 {
        (-secs) as nat
    } else {
        secs as nat
    };
    let days: int = if secs < 0 {
        -((m / 86400) as int)
    } else {
        (m / 86400) as int
    };
    signed_decimal(days) + "일 "@ + decimal((m / 3600) % 24) + "시간 "@ + decimal((m / 60) % 60) + "분"@
}

/// `"{days}일 {hours}시간 {minutes}분"` of an elapsed time in seconds.
pub fn format_uptime(secs: i64) -> (r: String)
    ensures
        r@ == uptime_text(secs as int),
{
    let m: u64 = if secs < 0 {
        (0i128 - secs as i128) as u64
    } else {
        secs as u64
    };
    let d: u64 = m / 86400;
    let days: i64 = if secs < 0 {
        0 - (d as i64)
    } else {
        d as i64
    };
    let days_text = i64_to_string(days);
    let hours_text = u64_to_string((m / 3600) % 24);
    let minutes_text = u64_to_string((m / 60) % 60);
    let mut r = cat(days_text.as_str(), "일 ");
    r.append(hours_text.as_str());
    r.append("시간 ");
    r.append(minutes_text.as_str());
    r.append("분");
    r
}

/// What the uptime text may be: unknown when the boot time cannot be read,
/// else the elapsed time for some reading of the clock.
pub open spec fn uptime_possible(boot: Seq<char>, u: Seq<char>) -> bool {
    if boot_time_unreadable(boot) {
        u == "알 수 없음"@
    } else {
        exists|secs: i64| u == uptime_text(secs as int)
    }
}

/// The time since the WMI boot time, by the local clock.
pub fn compute_uptime(boot: &str) -> (r: String)
    requires
        wmi_head_ok(boot@),
    ensures
        uptime_possible(boot@, r@),
{
    match wmi_head(boot) {
        None => String::from_str("알 수 없음"),
        Some(head) => {
            let format = "%Y%m%d%H%M%S";
            match seconds_since_local_time(head.as_str(), format) {
                Some(secs) => format_uptime(secs),
                None => String::from_str("알 수 없음"),
            }
        },
    }
}

pub open spec fn boot_rows(last_boot: Seq<char>, uptime: Seq<char>) -> Seq<SystemRow> {
    seq![
        row("부팅"@, "마지막 부팅"@, wmi_datetime_text(last_boot)),
        row("부팅"@, "가동 시간"@, uptime),
    ]
}

/// The boot rows that may come of an operating system query.
pub open spec fn boot_info_possible(os: Result<Vec<Win32OperatingSystem>, String>, added: Seq<SystemRow>) -> bool {
    match os {
        Err(e) => added == seq![error_row("부팅"@, e@)],
        Ok(v) => if v@.len() > 0 {
            exists|u: Seq<char>|
                uptime_possible(v@[0].last_boot_up_time@, u) && added == #[trigger] boot_rows(
                    v@[0].last_boot_up_time@,
                    u,
                )
        } else {
            added == Seq::<SystemRow>::empty()
        },
    }
}

/// Rows for the last boot of the first `Win32_OperatingSystem`.
pub fn collect_boot_info(items: &mut Vec<SystemInfoItem>, os: &Result<Vec<Win32OperatingSystem>, String>)
    requires
        match os {
            Ok(v) => v@.len() > 0 ==> wmi_head_ok(v@[0].last_boot_up_time@),
            Err(_) => true,
        },
    ensures
        rows_of(final(items)@).len() >= rows_of(old(items)@).len(),
        rows_of(final(items)@).take(rows_of(old(items)@).len() as int) == rows_of(old(items)@),
        boot_info_possible(*os, rows_of(final(items)@).skip(rows_of(old(items)@).len() as int)),
{
    let ghost before = rows_of(items@);
    match os {
        Ok(v) => {
            if v.len() > 0 {
                let last = &v[0].last_boot_up_time;
                let shown = parse_wmi_datetime(last.as_str());
                let uptime = compute_uptime(last.as_str());
                push_row(items, SystemInfoItem::new("부팅", "마지막 부팅", shown.as_str()));
                push_row(items, SystemInfoItem::new("부팅", "가동 시간", uptime.as_str()));
                assert(rows_of(items@).skip(before.len() as int) =~= boot_rows(last@, uptime@));
            } else {
                assert(rows_of(items@).skip(before.len() as int) =~= Seq::<SystemRow>::empty());
            }
        },
        Err(e) => {
            push_row(items, SystemInfoItem::error("부팅", e.as_str()));
            assert(rows_of(items@).skip(before.len() as int) =~= seq![error_row("부팅"@, e@)]);
        },
    }
    assert(rows_of(items@).take(before.len() as int) =~= before);
}

} // verus!

verus! {

// ---------------------------------------------------------------------------
// Operating system
// ---------------------------------------------------------------------------

pub open spec fn os_rows(
    info: VersionView,
    architecture: Seq<char>,
    install_date: Seq<char>,
    install_language: Seq<char>,
) -> Seq<SystemRow> {
    seq![
        row("운영체제"@, "이름"@, info.os_name),
        row("운영체제"@, "버전"@, info.display_version),
        row("운영체제"@, "빌드"@, info.build_number + "."@ + decimal(info.ubr as nat)),
        row("운영체제"@, "에디션"@, edition_text(info.os_name, info.product_name)),
        row("운영체제"@, "아키텍처"@, architecture),
        row("운영체제"@, "설치 날짜"@, install_date),
        row("운영체제"@, "설치 언어"@, install_language),
    ]
}

/// Rows for the operating system: name, version, `build.UBR`, the edition
/// named after the build, and the architecture, install date and install
/// language as shown (see `architecture_label`, `install_date_label` and
/// `install_language_label`).
pub fn collect_os_info(
    items: &mut Vec<SystemInfoItem>,
    info: &WindowsVersionInfo,
    architecture: &str,
    install_date: &str,
    install_language: &str,
)
    ensures
        rows_of(final(items)@) == rows_of(old(items)@) + os_rows(
            info@,
            architecture@,
            install_date@,
            install_language@,
        ),
{
    let ghost before = rows_of(items@);
    push_row(items, SystemInfoItem::new("운영체제", "이름", info.os_name.as_str()));
    push_row(items, SystemInfoItem::new("운영체제", "버전", info.display_version.as_str()));
    let ubr = u64_to_string(info.ubr as u64);
    let build = cat3(info.build_number.as_str(), ".", ubr.as_str());
    push_row(items, SystemInfoItem::new("운영체제", "빌드", build.as_str()));
    let edition = edition_label(info.os_name.as_str(), info.product_name.as_str());
    push_row(items, SystemInfoItem::new("운영체제", "에디션", edition.as_str()));
    push_row(items, SystemInfoItem::new("운영체제", "아키텍처", architecture));
    push_row(items, SystemInfoItem::new("운영체제", "설치 날짜", install_date));
    push_row(items, SystemInfoItem::new("운영체제", "설치 언어", install_language));
    assert(rows_of(items@) =~= before + os_rows(info@, architecture@, install_date@, install_language@));
}

} // verus!

verus! {

/// A drive on a USB interface is shown as USB storage whatever WMI says of
/// its medium; otherwise an unknown or missing medium falls back to the
/// model name.
pub proof fn law_usb_interface_decides_disk_type(drive: Win32DiskDrive, pd: Option<MsftPhysicalDisk>)
    ensures
        is_usb_interface(drive.interface_type) ==> drive_disk_type(drive, pd) == DiskType::Usb,
        !is_usb_interface(drive.interface_type) && (reported_disk_type(pd) is None || reported_disk_type(pd)
            == Some(DiskType::Unknown)) ==> drive_disk_type(drive, pd) == model_disk_type(drive.model@),
{
}


/// For a drive not on a USB interface, a medium type that
/// `MSFT_PhysicalDisk` reports decides the disk type: 3 is a hard disk, 4 a
/// solid-state disk (NVMe on bus type 17); the model name is consulted only
/// when the medium type is missing or is neither.
pub proof fn law_reported_medium_decides_disk_type(drive: Win32DiskDrive, p: MsftPhysicalDisk)
    requires
        !is_usb_interface(drive.interface_type),
    ensures
        p.media_type == Some(3u16) ==> drive_disk_type(drive, Some(p)) == DiskType::Hdd,
        p.media_type == Some(4u16) && p.bus_type == Some(17u16) ==> drive_disk_type(drive, Some(p))
            == DiskType::SsdNvme,
        p.media_type == Some(4u16) && p.bus_type != Some(17u16) ==> drive_disk_type(drive, Some(p))
            == DiskType::Ssd,
        p.media_type is None || (p.media_type != Some(3u16) && p.media_type != Some(4u16))
            ==> drive_disk_type(drive, Some(p)) == model_disk_type(drive.model@),
        drive_disk_type(drive, None) == model_disk_type(drive.model@),
{
}
} // verus!
