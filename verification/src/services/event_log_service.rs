//! Summary of the Windows event logs, from the output of the event log script.
use vstd::prelude::*;
use crate::models::system_info::{SystemInfoItem, SystemRow, error_row, push_row, row, rows_of};
use crate::services::process_service::ProcessResult;
use crate::text::{chars_of, extend_chars, lines_chars, lines_of, push_str, splitn_char, splitn_chars, string_of, views_of};

verus! {

/// A line `COUNT|log|critical|error|warning`.
pub open spec fn is_count_line(line: Seq<char>) -> bool {
    let parts = splitn_char(line, 5, '|');
    parts.len() == 5 && parts[0] == "COUNT"@
}

/// The rows of one output line: three counts for a `COUNT` line, one event
/// for a `RECENT|time|log|id|message` line, nothing otherwise.
pub open spec fn event_line_rows(line: Seq<char>) -> Seq<SystemRow> {
    let parts = splitn_char(line, 5, '|');
    if parts.len() == 5 && parts[0] == "COUNT"@ {
        let category = "이벤트 로그 ("@ + parts[1] + ")"@;
        seq![
            row(category, "위험"@, parts[2]),
            row(category, "오류"@, parts[3]),
            row(category, "경고"@, parts[4]),
        ]
    } else if parts.len() == 5 && parts[0] == "RECENT"@ {
        seq![
            row(
                "최근 오류/위험 ("@ + parts[1] + ")"@,
                "["@ + parts[2] + "] ID:"@ + parts[3],
                parts[4],
            ),
        ]
    } else {
        seq![]
    }
}

pub open spec fn event_lines_rows(lines: Seq<Seq<char>>) -> Seq<SystemRow>
    decreases lines.len(),
{
    if lines.len() == 0 {
        seq![]
    } else {
        event_lines_rows(lines.drop_last()) + event_line_rows(lines.last())
    }
}

pub open spec fn has_count_line(lines: Seq<Seq<char>>) -> bool {
    exists|i: int| 0 <= i < lines.len() && is_count_line(#[trigger] lines[i])
}

/// The event log rows: an error row when PowerShell failed without output,
/// else the rows of each line, followed by an error row when no count was
/// reported.
pub open spec fn event_log_rows(success: bool, stdout: Seq<char>) -> Seq<SystemRow> {
    if !success && stdout.len() == 0 {
        seq![error_row("이벤트 로그"@, "PowerShell 실행 실패"@)]
    } else {
        let ls = lines_of(stdout);
        let r = event_lines_rows(ls);
        if has_count_line(ls) {
            r
        } else {
            r.push(error_row("이벤트 로그"@, "수집 실패 — 관리자 권한 확인"@))
        }
    }
}

fn chars_are(v: &Vec<char>, s: &str) -> (r: bool)
    ensures
        r == (v@ == s@),
{
    let w = chars_of(s);
    if v.len() != w.len() {
        return false;
    }
    let mut i: usize = 0;
    while i < v.len()
        invariant
            v@.len() == w@.len(),
            w@ == s@,
            0 <= i <= v@.len(),
            forall|j: int| 0 <= j < i ==> v@[j] == w@[j],
        decreases v@.len() - i,
    {
        if v[i] != w[i] {
            return false;
        }
        i += 1;
    }
    assert(v@ =~= w@);
    true
}

fn wrapped(open: &str, v: &Vec<char>, close: &str) -> (r: String)
    ensures
        r@ == open@ + v@ + close@,
{
    let mut out: Vec<char> = Vec::new();
    push_str(&mut out, open);
    extend_chars(&mut out, v.as_slice());
    push_str(&mut out, close);
    string_of(out.as_slice())
}

fn event_line_items(items: &mut Vec<SystemInfoItem>, line: &[char]) -> (counted: bool)
    ensures
        rows_of(final(items)@) == rows_of(old(items)@) + event_line_rows(line@),
        counted == is_count_line(line@),
{
    let ghost before = rows_of(items@);
    let parts = splitn_chars(line, 5, '|');
    let ghost ps = views_of(parts@);
    assert(ps.len() == parts@.len());
    if parts.len() != 5 {
        assert(rows_of(items@) =~= before + event_line_rows(line@));
        return false;
    }
    assert(ps[0] == parts@[0]@ && ps[1] == parts@[1]@ && ps[2] == parts@[2]@ && ps[3] == parts@[3]@
        && ps[4] == parts@[4]@);
    if chars_are(&parts[0], "COUNT") {
        let category = wrapped("이벤트 로그 (", &parts[1], ")");
        let c = string_of(parts[2].as_slice());
        let e = string_of(parts[3].as_slice());
        let w = string_of(parts[4].as_slice());
        push_row(items, SystemInfoItem::new(category.as_str(), "위험", c.as_str()));
        push_row(items, SystemInfoItem::new(category.as_str(), "오류", e.as_str()));
        push_row(items, SystemInfoItem::new(category.as_str(), "경고", w.as_str()));
        assert(rows_of(items@) =~= before + event_line_rows(line@));
        return true;
    }
    if chars_are(&parts[0], "RECENT") {
        let category = wrapped("최근 오류/위험 (", &parts[1], ")");
        let mut it: Vec<char> = Vec::new();
        push_str(&mut it, "[");
        extend_chars(&mut it, parts[2].as_slice());
        push_str(&mut it, "] ID:");
        extend_chars(&mut it, parts[3].as_slice());
        let its = string_of(it.as_slice());
        let msg = string_of(parts[4].as_slice());
        push_row(items, SystemInfoItem::new(category.as_str(), its.as_str(), msg.as_str()));
        assert(rows_of(items@) =~= before + event_line_rows(line@));
        return false;
    }
    assert(rows_of(items@) =~= before + event_line_rows(line@));
    false
}

/// Rows from the output of the event log script.
pub fn collect_event_log_info(items: &mut Vec<SystemInfoItem>, result: &ProcessResult)
    ensures
        rows_of(final(items)@) == rows_of(old(items)@) + event_log_rows(
            result.success,
            result.stdout@,
        ),
{
    let ghost before = rows_of(items@);
    if !result.success && result.stdout.as_str().unicode_len() == 0 {
        push_row(items, SystemInfoItem::error("이벤트 로그", "PowerShell 실행 실패"));
        assert(rows_of(items@) =~= before + event_log_rows(result.success, result.stdout@));
        return;
    }
    let out = chars_of(result.stdout.as_str());
    let lines = lines_chars(out.as_slice());
    let ghost ls = views_of(lines@);
    let mut has_count = false;
    let mut i: usize = 0;
    while i < lines.len()
        invariant
            ls == views_of(lines@),
            0 <= i <= lines@.len(),
            rows_of(items@) == before + event_lines_rows(ls.take(i as int)),
            has_count == has_count_line(ls.take(i as int)),
        decreases lines@.len() - i,
    {
        let ghost t = ls.take(i + 1);
        assert(t.drop_last() =~= ls.take(i as int));
        assert(t.last() == lines@[i as int]@);
        let counted = event_line_items(items, lines[i].as_slice());
        proof {
            if counted {
                assert(is_count_line(t[i as int]));
            }
            if has_count_line(ls.take(i as int)) {
                let k = choose|k: int| 0 <= k < i && is_count_line(#[trigger] ls.take(i as int)[k]);
                assert(t[k] == ls.take(i as int)[k]);
            }
            if has_count_line(t) && !counted {
                let k = choose|k: int| 0 <= k < i + 1 && is_count_line(#[trigger] t[k]);
                assert(k < i);
                assert(t[k] == ls.take(i as int)[k]);
            }
        }
        has_count = has_count || counted;
        assert(rows_of(items@) =~= before + event_lines_rows(t));
        i += 1;
    }
    assert(ls.take(lines@.len() as int) =~= ls);
    if !has_count {
        push_row(items, SystemInfoItem::error("이벤트 로그", "수집 실패 — 관리자 권한 확인"));
    }
    assert(rows_of(items@) =~= before + event_log_rows(result.success, result.stdout@));
}

} // verus!
