//! The text of the operation log, the registry backup and the before/after
//! comparison that a remediation run saves.
use vstd::prelude::*;
use crate::services::csv_service::{escape_csv, escaped_csv};
use crate::services::process_service::strs_view;
use crate::text::{
    cat, cat3, chars_of, extend_chars, has_prefix, hex8, hex_digits, join, join_chars,
    lemma_views_push, push_str, starts_with, string_of, views_of,
};

verus! {

/// A registry value as it was before the remediation wrote anything.
#[derive(Debug, Clone)]
pub struct RegistryBackupEntry {
    pub path: String,
    pub value_name: String,
    /// `None`: the value did not exist.
    pub value: Option<u32>,
}

/// One row of the before/after comparison of a remediation run.
#[derive(Debug, Clone)]
pub struct DisableChangeEntry {
    pub group: String,
    pub item: String,
    pub target: String,
    pub before: String,
    pub after: String,
    pub result: String,
    pub message: String,
}

} // verus!

verus! {

pub struct ChangeRow {
    pub group: Seq<char>,
    pub item: Seq<char>,
    pub target: Seq<char>,
    pub before: Seq<char>,
    pub after: Seq<char>,
    pub result: Seq<char>,
    pub message: Seq<char>,
}

impl View for DisableChangeEntry {
    type V = ChangeRow;

    open spec fn view(&self) -> ChangeRow {
        ChangeRow {
            group: self.group@,
            item: self.item@,
            target: self.target@,
            before: self.before@,
            after: self.after@,
            result: self.result@,
            message: self.message@,
        }
    }
}

pub struct BackupRow {
    pub path: Seq<char>,
    pub value_name: Seq<char>,
    pub value: Option<u32>,
}

impl View for RegistryBackupEntry {
    type V = BackupRow;

    open spec fn view(&self) -> BackupRow {
        BackupRow { path: self.path@, value_name: self.value_name@, value: self.value }
    }
}

} // verus!

verus! {

// ---------------------------------------------------------------------------
// File names and the error log
// ---------------------------------------------------------------------------

/// The computer name from the `COMPUTERNAME` variable, or "UNKNOWN".
pub fn computer_name_of(var: Option<String>) -> (r: String)
    ensures
        r@ == (match var {
            Some(v) => v@,
            None => "UNKNOWN"@,
        }),
{
    match var {
        Some(v) => v,
        None => String::from_str("UNKNOWN"),
    }
}

/// `{stamp}_{computer}.log`.
pub fn operation_log_file_name(stamp: &str, computer: &str) -> (r: String)
    ensures
        r@ == stamp@ + "_"@ + computer@ + ".log"@,
{
    let mut r = cat3(stamp, "_", computer);
    r.append(".log");
    r
}

/// `{stamp}_backup.reg`.
pub fn backup_file_name(stamp: &str) -> (r: String)
    ensures
        r@ == stamp@ + "_backup.reg"@,
{
    cat(stamp, "_backup.reg")
}

/// `{stamp}_{computer}-DisableResult.csv`.
pub fn change_csv_file_name(stamp: &str, computer: &str) -> (r: String)
    ensures
        r@ == stamp@ + "_"@ + computer@ + "-DisableResult.csv"@,
{
    let mut r = cat3(stamp, "_", computer);
    r.append("-DisableResult.csv");
    r
}

/// `error_{date}.log`.
pub fn error_log_file_name(date: &str) -> (r: String)
    ensures
        r@ == "error_"@ + date@ + ".log"@,
{
    cat3("error_", date, ".log")
}

/// An error log entry: `[time] [context]`, the error, and a blank line.
pub fn error_log_entry(time: &str, context: &str, error: &str) -> (r: String)
    ensures
        r@ == "["@ + time@ + "] ["@ + context@ + "]\n"@ + error@ + "\n\n"@,
{
    let mut r = cat3("[", time, "] [");
    r.append(context);
    r.append("]\n");
    r.append(error);
    r.append("\n\n");
    r
}

// ---------------------------------------------------------------------------
// Operation log
// ---------------------------------------------------------------------------

pub open spec fn log_header(created: Seq<char>, computer: Seq<char>) -> Seq<char> {
    "VM Compatibility Tool — 운영 로그\n생성: "@ + created + "\n컴퓨터: "@ + computer + "\n"@ + "============================================================"@
        + "\n\n"@
}

/// Each line followed by a line break.
pub open spec fn lines_text(lines: Seq<Seq<char>>) -> Seq<char>
    decreases lines.len(),
{
    if lines.len() == 0 {
        seq![]
    } else {
        lines_text(lines.drop_last()) + lines.last() + seq!['\n']
    }
}

/// The operation log: a header with the creation time and the computer, a
/// rule of sixty `=`, a blank line, then the lines.
pub fn operation_log_text(lines: &[String], created: &str, computer: &str) -> (r: String)
    ensures
        r@ == log_header(created@, computer@) + lines_text(strs_view(lines@)),
{
    let mut out: Vec<char> = Vec::new();
    push_str(&mut out, "VM Compatibility Tool — 운영 로그\n생성: ");
    push_str(&mut out, created);
    push_str(&mut out, "\n컴퓨터: ");
    push_str(&mut out, computer);
    push_str(&mut out, "\n");
    push_str(&mut out, "============================================================");
    push_str(&mut out, "\n\n");
    let ghost head = out@;
    assert(head =~= log_header(created@, computer@));
    let mut i: usize = 0;
    while i < lines.len()
        invariant
            0 <= i <= lines@.len(),
            out@ == head + lines_text(strs_view(lines@).take(i as int)),
        decreases lines@.len() - i,
    {
        push_str(&mut out, lines[i].as_str());
        out.push('\n');
        assert(strs_view(lines@).take(i + 1).drop_last() =~= strs_view(lines@).take(i as int));
        i += 1;
    }
    assert(strs_view(lines@).take(lines@.len() as int) =~= strs_view(lines@));
    string_of(out.as_slice())
}

} // verus!

verus! {

// ---------------------------------------------------------------------------
// Registry backup
// ---------------------------------------------------------------------------

pub open spec fn backup_views(v: Seq<RegistryBackupEntry>) -> Seq<BackupRow> {
    v.map_values(|e: RegistryBackupEntry| e@)
}

pub open spec fn backup_header(created: Seq<char>, computer: Seq<char>) -> Seq<Seq<char>> {
    seq![
        "Windows Registry Editor Version 5.00"@,
        Seq::<char>::empty(),
        "; VM Compatibility Tool — 레지스트리 백업"@,
        "; 생성: "@ + created,
        "; 컴퓨터: "@ + computer,
        "; 이 파일을 실행하면 변경 전 값으로 복원됩니다."@,
        Seq::<char>::empty(),
    ]
}

pub open spec fn full_key(path: Seq<char>) -> Seq<char> {
    "HKEY_LOCAL_MACHINE\\"@ + path
}

/// The line that restores a value, or a comment when there was none.
pub open spec fn backup_value_line(e: BackupRow) -> Seq<char> {
    match e.value {
        Some(v) => "\""@ + e.value_name + "\"=dword:"@ + hex_digits(v as nat, 8),
        None => "; \""@ + e.value_name + "\" — 원본 값 없음 (복원 불필요)"@,
    }
}

/// The lines of one entry after key `current`: a new `[key]` section when
/// the key changes (after a blank line unless it is the first), then the
/// value line.
pub open spec fn backup_entry_lines(e: BackupRow, current: Seq<char>) -> Seq<Seq<char>> {
    let k = full_key(e.path);
    (if k != current {
        (if current.len() > 0 {
            seq![Seq::<char>::empty()]
        } else {
            seq![]
        }) + seq!["["@ + k + "]"@]
    } else {
        seq![]
    }) + seq![backup_value_line(e)]
}

pub open spec fn backup_body(entries: Seq<BackupRow>, current: Seq<char>) -> Seq<Seq<char>>
    decreases entries.len(),
{
    if entries.len() == 0 {
        seq![]
    } else {
        backup_entry_lines(entries[0], current) + backup_body(entries.drop_first(), full_key(entries[0].path))
    }
}

/// The lines of the `.reg` backup file.
pub open spec fn backup_lines(entries: Seq<BackupRow>, created: Seq<char>, computer: Seq<char>) -> Seq<Seq<char>> {
    backup_header(created, computer) + backup_body(entries, Seq::empty())
}

fn push_string(lines: &mut Vec<Vec<char>>, s: Vec<char>)
    ensures
        views_of(final(lines)@) == views_of(old(lines)@).push(s@),
{
    proof {
        lemma_views_push(lines@, s);
    }
    lines.push(s);
}

fn str_chars(s: &str) -> (r: Vec<char>)
    ensures
        r@ == s@,
{
    chars_of(s)
}

/// The `.reg` backup file's text: its lines joined with CR LF.
pub fn reg_backup_text(entries: &[RegistryBackupEntry], created: &str, computer: &str) -> (r: String)
    ensures
        r@ == join(backup_lines(backup_views(entries@), created@, computer@), "\r\n"@),
{
    let mut lines: Vec<Vec<char>> = Vec::new();
    push_string(&mut lines, str_chars("Windows Registry Editor Version 5.00"));
    push_string(&mut lines, Vec::new());
    push_string(&mut lines, str_chars("; VM Compatibility Tool — 레지스트리 백업"));
    let mut c1 = str_chars("; 생성: ");
    push_str(&mut c1, created);
    push_string(&mut lines, c1);
    let mut c2 = str_chars("; 컴퓨터: ");
    push_str(&mut c2, computer);
    push_string(&mut lines, c2);
    push_string(&mut lines, str_chars("; 이 파일을 실행하면 변경 전 값으로 복원됩니다."));
    push_string(&mut lines, Vec::new());
    let ghost head = views_of(lines@);
    assert(head =~= backup_header(created@, computer@));
    let ghost all = backup_views(entries@);
    let mut current: Vec<char> = Vec::new();
    let mut i: usize = 0;
    assert(all.skip(0) =~= all);
    while i < entries.len()
        invariant
            0 <= i <= entries@.len(),
            all == backup_views(entries@),
            head + backup_body(all, Seq::empty()) == views_of(lines@) + backup_body(all.skip(i as int), current@),
        decreases entries@.len() - i,
    {
        let e = &entries[i];
        assert(all.skip(i as int)[0] == e@);
        assert(all.skip(i as int).drop_first() =~= all.skip(i + 1));
        let ghost before = views_of(lines@);
        let mut key = str_chars("HKEY_LOCAL_MACHINE\\");
        push_str(&mut key, e.path.as_str());
        let same = key.len() == current.len() && starts_with(key.as_slice(), current.as_slice());
        assert(same <==> key@ == current@) by {
            if key@.len() == current@.len() {
                assert(key@.subrange(0, current@.len() as int) =~= key@);
            }
        }
        if !same {
            if current.len() > 0 {
                push_string(&mut lines, Vec::new());
            }
            let mut section = str_chars("[");
            extend_chars(&mut section, key.as_slice());
            push_str(&mut section, "]");
            push_string(&mut lines, section);
        }
        let mut line: Vec<char> = Vec::new();
        match e.value {
            Some(v) => {
                push_str(&mut line, "\"");
                push_str(&mut line, e.value_name.as_str());
                push_str(&mut line, "\"=dword:");
                let h = hex8(v);
                extend_chars(&mut line, h.as_slice());
            },
            None => {
                push_str(&mut line, "; \"");
                push_str(&mut line, e.value_name.as_str());
                push_str(&mut line, "\" — 원본 값 없음 (복원 불필요)");
            },
        }
        push_string(&mut lines, line);
        assert(views_of(lines@) =~= before + backup_entry_lines(e@, current@));
        current = key;
        i += 1;
    }
    assert(all.skip(entries@.len() as int) =~= Seq::<BackupRow>::empty());
    assert(views_of(lines@) =~= head + backup_body(all, Seq::empty()));
    let sep = str_chars("\r\n");
    let j = join_chars(lines.as_slice(), 0, sep.as_slice());
    assert(lines@.skip(0) =~= lines@);
    string_of(j.as_slice())
}

} // verus!

verus! {

// ---------------------------------------------------------------------------
// UTF-16 little endian
// ---------------------------------------------------------------------------

/// A UTF-16 code unit, low byte first.
pub open spec fn unit_bytes(u: nat) -> Seq<u8> {
    seq![(u % 256) as u8, (u / 256) as u8]
}

/// A character in UTF-16 (`char::encode_utf16`), little endian: one unit
/// below U+10000, else a surrogate pair.
pub open spec fn char_utf16le(c: char) -> Seq<u8> {
    let u = c as nat;
    if u < 0x10000 {
        unit_bytes(u)
    } else {
        let v = (u - 0x10000) as nat;
        unit_bytes(0xD800 + v / 1024) + unit_bytes(0xDC00 + v % 1024)
    }
}

pub open spec fn utf16le(s: Seq<char>) -> Seq<u8>
    decreases s.len(),
{
    if s.len() == 0 {
        seq![]
    } else {
        utf16le(s.drop_last()) + char_utf16le(s.last())
    }
}

fn push_unit(out: &mut Vec<u8>, u: u32)
    requires
        u < 0x10000,
    ensures
        final(out)@ == old(out)@ + unit_bytes(u as nat),
{
    out.push((u % 256) as u8);
    out.push((u / 256) as u8);
    assert(final(out)@ =~= old(out)@ + unit_bytes(u as nat));
}

/// The scalar value of a character.
fn char_code(c: char) -> (u: u32)
    ensures
        u == c as nat,
        u <= 0x10FFFF,
{
    c as u32
}

/// The bytes FF FE, then `s` in UTF-16 little endian.
pub fn encode_utf16le_with_bom(s: &str) -> (r: Vec<u8>)
    ensures
        r@ == seq![0xFFu8, 0xFEu8] + utf16le(s@),
{
    let v = chars_of(s);
    let mut bytes: Vec<u8> = Vec::new();
    bytes.push(0xFFu8);
    bytes.push(0xFEu8);
    let mut i: usize = 0;
    while i < v.len()
        invariant
            0 <= i <= v@.len(),
            v@ == s@,
            bytes@ == seq![0xFFu8, 0xFEu8] + utf16le(v@.take(i as int)),
        decreases v@.len() - i,
    {
        let c = v[i];
        let u = char_code(c);
        assert(v@.take(i + 1).drop_last() =~= v@.take(i as int));
        assert(v@.take(i + 1).last() == c);
        if u < 0x10000 {
            push_unit(&mut bytes, u);
        } else {
            let w = u - 0x10000;
            push_unit(&mut bytes, 0xD800 + w / 1024);
            push_unit(&mut bytes, 0xDC00 + w % 1024);
        }
        assert(bytes@ =~= seq![0xFFu8, 0xFEu8] + utf16le(v@.take(i + 1)));
        i += 1;
    }
    assert(v@.take(v@.len() as int) =~= v@);
    bytes
}

// ---------------------------------------------------------------------------
// Before/after comparison file
// ---------------------------------------------------------------------------

pub open spec fn change_views_of(v: Seq<DisableChangeEntry>) -> Seq<ChangeRow> {
    v.map_values(|e: DisableChangeEntry| e@)
}

/// One row: the seven fields, each escaped, separated by commas.
pub open spec fn change_csv_row(e: ChangeRow) -> Seq<char> {
    escaped_csv(e.group) + seq![','] + escaped_csv(e.item) + seq![','] + escaped_csv(e.target)
        + seq![','] + escaped_csv(e.before) + seq![','] + escaped_csv(e.after) + seq![',']
        + escaped_csv(e.result) + seq![','] + escaped_csv(e.message) + seq!['\n']
}

pub open spec fn change_csv_rows(rows: Seq<ChangeRow>) -> Seq<char>
    decreases rows.len(),
{
    if rows.len() == 0 {
        seq![]
    } else {
        change_csv_rows(rows.drop_last()) + change_csv_row(rows.last())
    }
}

pub open spec fn change_csv_header(created: Seq<char>, computer: Seq<char>) -> Seq<char> {
    seq!['\u{FEFF}'] + "VM Compatibility Tool — 조치 전후 비교\n"@ + "생성,"@ + created + "\n"@ + "컴퓨터,"@
        + computer + "\n\n"@ + "작업 그룹,항목,대상,조치 전,조치 후,결과,메시지\n"@
}

fn push_escaped(out: &mut Vec<char>, s: &String)
    ensures
        final(out)@ == old(out)@ + escaped_csv(s@),
{
    let e = escape_csv(s.as_str());
    push_str(out, e.as_str());
}

/// The comparison file: a byte order mark, a title, when and where it was
/// made, the column names, then one row per entry.
pub fn disable_change_csv_text(entries: &[DisableChangeEntry], created: &str, computer: &str) -> (r: String)
    ensures
        r@ == change_csv_header(created@, computer@) + change_csv_rows(change_views_of(entries@)),
{
    let mut out: Vec<char> = Vec::new();
    out.push('\u{FEFF}');
    push_str(&mut out, "VM Compatibility Tool — 조치 전후 비교\n");
    push_str(&mut out, "생성,");
    push_str(&mut out, created);
    push_str(&mut out, "\n");
    push_str(&mut out, "컴퓨터,");
    push_str(&mut out, computer);
    push_str(&mut out, "\n\n");
    push_str(&mut out, "작업 그룹,항목,대상,조치 전,조치 후,결과,메시지\n");
    let ghost head = out@;
    assert(head =~= change_csv_header(created@, computer@));
    let ghost all = change_views_of(entries@);
    let mut i: usize = 0;
    while i < entries.len()
        invariant
            0 <= i <= entries@.len(),
            all == change_views_of(entries@),
            out@ == head + change_csv_rows(all.take(i as int)),
        decreases entries@.len() - i,
    {
        let e = &entries[i];
        let ghost at = out@;
        push_escaped(&mut out, &e.group);
        out.push(',');
        push_escaped(&mut out, &e.item);
        out.push(',');
        push_escaped(&mut out, &e.target);
        out.push(',');
        push_escaped(&mut out, &e.before);
        out.push(',');
        push_escaped(&mut out, &e.after);
        out.push(',');
        push_escaped(&mut out, &e.result);
        out.push(',');
        push_escaped(&mut out, &e.message);
        out.push('\n');
        assert(out@ =~= at + change_csv_row(e@));
        assert(all.take(i + 1).drop_last() =~= all.take(i as int));
        assert(all.take(i + 1).last() == e@);
        i += 1;
    }
    assert(all.take(entries@.len() as int) =~= all);
    string_of(out.as_slice())
}

} // verus!

verus! {

// ---------------------------------------------------------------------------
// Laws of the registry backup
// ---------------------------------------------------------------------------

pub open spec fn section_line(path: Seq<char>) -> Seq<char> {
    "["@ + full_key(path) + "]"@
}

proof fn lemma_concat_contains<A>(a: Seq<A>, b: Seq<A>, x: A)
    requires
        a.contains(x) || b.contains(x),
    ensures
        (a + b).contains(x),
{
    if a.contains(x) {
        let j = choose|j: int| 0 <= j < a.len() && a[j] == x;
        assert((a + b)[j] == x);
    } else {
        let j = choose|j: int| 0 <= j < b.len() && b[j] == x;
        assert((a + b)[a.len() + j] == x);
    }
}

proof fn lemma_backup_body(entries: Seq<BackupRow>, current: Seq<char>, i: int)
    requires
        0 <= i < entries.len(),
    ensures
        backup_body(entries, current).contains(backup_value_line(entries[i])),
        backup_body(entries, current).contains(section_line(entries[i].path)) || full_key(entries[i].path)
            == current,
    decreases entries.len(),
{
    let e = entries[0];
    let k = full_key(e.path);
    let head = backup_entry_lines(e, current);
    let rest = entries.drop_first();
    let tail = backup_body(rest, k);
    assert(backup_body(entries, current) == head + tail);
    assert(head[head.len() - 1] == backup_value_line(e));
    if k != current {
        let pre = if current.len() > 0 {
            seq![Seq::<char>::empty()]
        } else {
            seq![]
        };
        assert((pre + seq!["["@ + k + "]"@])[pre.len() as int] == section_line(e.path));
        assert(head[pre.len() as int] == section_line(e.path));
        assert(head.contains(section_line(e.path)));
    }
    if i == 0 {
        assert(head.contains(backup_value_line(e)));
        lemma_concat_contains(head, tail, backup_value_line(e));
        if k != current {
            lemma_concat_contains(head, tail, section_line(e.path));
        }
    } else {
        assert(rest[i - 1] == entries[i]);
        lemma_backup_body(rest, k, i - 1);
        lemma_concat_contains(head, tail, backup_value_line(entries[i]));
        if tail.contains(section_line(entries[i].path)) {
            lemma_concat_contains(head, tail, section_line(entries[i].path));
        } else if k != current {
            lemma_concat_contains(head, tail, section_line(e.path));
        }
    }
}

/// The backup file holds, for every value read before the run, the line that
/// restores it (or notes that there was none), and a section for its key.
pub proof fn law_backup_covers_every_value(
    entries: Seq<BackupRow>,
    created: Seq<char>,
    computer: Seq<char>,
    i: int,
)
    requires
        0 <= i < entries.len(),
    ensures
        backup_lines(entries, created, computer).contains(backup_value_line(entries[i])),
        backup_lines(entries, created, computer).contains(section_line(entries[i].path)),
{
    reveal_strlit("HKEY_LOCAL_MACHINE\\");
    lemma_backup_body(entries, Seq::empty(), i);
    assert(full_key(entries[i].path).len() > 0);
    let h = backup_header(created, computer);
    let b = backup_body(entries, Seq::empty());
    lemma_concat_contains(h, b, backup_value_line(entries[i]));
    lemma_concat_contains(h, b, section_line(entries[i].path));
}


/// A `[key]` line, which opens a section of a `.reg` file.
pub open spec fn is_section(line: Seq<char>) -> bool {
    line.len() > 0 && line[0] == '['
}

/// The section that line `b` of a `.reg` file falls in: the last `[key]`
/// line before it, if any. `regedit` writes the values of a section's
/// lines into that section's key.
pub open spec fn governing_section(lines: Seq<Seq<char>>, b: int) -> Option<Seq<char>>
    decreases b,
{
    if b <= 0 {
        None
    } else if is_section(lines[b - 1]) {
        Some(lines[b - 1])
    } else {
        governing_section(lines, b - 1)
    }
}

proof fn lemma_governing_prefix(a: Seq<Seq<char>>, c: Seq<Seq<char>>, n: int)
    requires
        0 <= n <= a.len(),
    ensures
        governing_section(a + c, n) == governing_section(a, n),
    decreases n,
{
    if n > 0 {
        assert((a + c)[n - 1] == a[n - 1]);
        lemma_governing_prefix(a, c, n - 1);
    }
}

proof fn lemma_value_line_is_no_section(e: BackupRow)
    ensures
        !is_section(backup_value_line(e)),
        backup_value_line(e).len() > 0,
        e.value is None ==> backup_value_line(e)[0] == ';',
{
    reveal_strlit("\"");
    reveal_strlit("; \"");
    match e.value {
        Some(v) => {
            let q = "\""@;
            assert((q + e.value_name + "\"=dword:"@ + hex_digits(v as nat, 8))[0] == q[0]);
        },
        None => {
            let q = "; \""@;
            assert((q + e.value_name + " — 원본 값 없음 (복원 불필요)"@)[0] == q[0]);
        },
    }
}

proof fn lemma_section_line_is_section(path: Seq<char>)
    ensures
        is_section(section_line(path)),
{
    reveal_strlit("[");
    let o = "["@;
    assert((o + full_key(path) + "]"@)[0] == o[0]);
}

proof fn lemma_body_restores(
    pre: Seq<Seq<char>>,
    entries: Seq<BackupRow>,
    current: Seq<char>,
    i: int,
)
    requires
        0 <= i < entries.len(),
        current.len() > 0 ==> governing_section(pre, pre.len() as int) == Some(
            "["@ + current + "]"@,
        ),
    ensures
        exists|b: int|
            pre.len() <= b < pre.len() + backup_body(entries, current).len() && (pre + backup_body(
                entries,
                current,
            ))[b] == backup_value_line(entries[i]) && #[trigger] governing_section(
                pre + backup_body(entries, current),
                b,
            ) == Some(section_line(entries[i].path)),
    decreases entries.len(),
{
    reveal_strlit("HKEY_LOCAL_MACHINE\\");
    let e = entries[0];
    let k = full_key(e.path);
    assert(k.len() > 0);
    let head = backup_entry_lines(e, current);
    let rest = entries.drop_first();
    let tail = backup_body(rest, k);
    let body = backup_body(entries, current);
    assert(body == head + tail);
    let whole = pre + body;
    assert(whole =~= (pre + head) + tail);
    let ph = pre + head;
    let vb = ph.len() - 1;
    assert(head[head.len() - 1] == backup_value_line(e));
    assert(ph[vb] == backup_value_line(e));
    lemma_value_line_is_no_section(e);
    // The section in force at the value line of the first entry is its own.
    if k != current {
        let blank = if current.len() > 0 {
            seq![Seq::<char>::empty()]
        } else {
            seq![]
        };
        assert(head =~= blank + seq![section_line(e.path)] + seq![backup_value_line(e)]);
        assert(ph[vb - 1] == section_line(e.path));
        lemma_section_line_is_section(e.path);
        assert(governing_section(ph, vb) == Some(section_line(e.path)));
    } else {
        assert(head =~= seq![backup_value_line(e)]);
        assert(vb == pre.len());
        lemma_governing_prefix(pre, head, pre.len() as int);
        assert(governing_section(ph, vb) == Some(section_line(e.path)));
    }
    lemma_governing_prefix(ph, tail, vb);
    assert(governing_section(ph, ph.len() as int) == Some(section_line(e.path)));
    if i == 0 {
        assert(whole[vb] == backup_value_line(entries[i]));
        assert(governing_section(whole, vb) == Some(section_line(entries[i].path)));
    } else {
        assert(rest[i - 1] == entries[i]);
        lemma_body_restores(ph, rest, k, i - 1);
        let b = choose|b: int|
            ph.len() <= b < ph.len() + tail.len() && (ph + tail)[b] == backup_value_line(rest[i - 1])
                && #[trigger] governing_section(ph + tail, b) == Some(section_line(rest[i - 1].path));
        assert(whole[b] == backup_value_line(entries[i]));
        assert(governing_section(whole, b) == Some(section_line(entries[i].path)));
    }
}

/// Importing the backup file restores every saved value: the line that sets
/// it stands in the section of its own key, and a value that was absent is
/// only noted in a comment, so importing does not create it.
pub proof fn law_backup_restores_saved_values(
    entries: Seq<BackupRow>,
    created: Seq<char>,
    computer: Seq<char>,
    i: int,
)
    requires
        0 <= i < entries.len(),
    ensures
        exists|b: int|
            0 <= b < backup_lines(entries, created, computer).len() && backup_lines(
                entries,
                created,
                computer,
            )[b] == backup_value_line(entries[i]) && #[trigger] governing_section(
                backup_lines(entries, created, computer),
                b,
            ) == Some(section_line(entries[i].path)),
        entries[i].value is None ==> backup_value_line(entries[i]).len() > 0 && backup_value_line(
            entries[i],
        )[0] == ';',
{
    lemma_value_line_is_no_section(entries[i]);
    let h = backup_header(created, computer);
    lemma_body_restores(h, entries, Seq::empty(), i);
    let lines = backup_lines(entries, created, computer);
    assert(lines == h + backup_body(entries, Seq::empty()));
    let b = choose|b: int|
        h.len() <= b < h.len() + backup_body(entries, Seq::empty()).len() && (h + backup_body(
            entries,
            Seq::empty(),
        ))[b] == backup_value_line(entries[i]) && #[trigger] governing_section(
            h + backup_body(entries, Seq::empty()),
            b,
        ) == Some(section_line(entries[i].path));
    assert(lines[b] == backup_value_line(entries[i]));
    assert(governing_section(lines, b) == Some(section_line(entries[i].path)));
}

} // verus!
