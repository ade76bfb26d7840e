//! Arguments for and parsing of the output of `dism.exe`, `bcdedit.exe` and PowerShell.
use vstd::prelude::*;
use crate::text::{
    cat, chars_of, contains, eq_ignore_ascii_case, eq_ignore_ascii_case_chars, join, join_chars,
    lines_chars, lines_of, split_once, split_once_chars, string_of, to_lowercase, trim,
    trim_chars, trim_str, unicode_lowercase, contains_seq, views_of, words, words_chars,
};

verus! {

/// What a finished process reported.
#[derive(Debug)]
pub struct ProcessResult {
    pub success: bool,
    pub stdout: String,
    pub stderr: String,
    pub exit_code: i32,
}

impl ProcessResult {
    /// The result reported when the process could not be started.
    pub fn error(message: &str) -> (r: Self)
        ensures
            !r.success,
            r.stdout@ == Seq::<char>::empty(),
            r.stderr@ == message@,
            r.exit_code == -1,
    {
        ProcessResult { success: false, stdout: String::new(), stderr: message.to_owned(), exit_code: -1 }
    }
}

pub open spec fn strs_view(v: Seq<String>) -> Seq<Seq<char>> {
    v.map_values(|s: String| s@)
}

/// Arguments of `dism.exe` that query one feature, with English output.
pub fn feature_state_args(feature_name: &str) -> (r: Vec<String>)
    ensures
        strs_view(r@) == seq![
            "/English"@,
            "/online"@,
            "/get-featureinfo"@,
            "/featurename:"@ + feature_name@,
        ],
{
    let mut r: Vec<String> = Vec::new();
    r.push(String::from_str("/English"));
    r.push(String::from_str("/online"));
    r.push(String::from_str("/get-featureinfo"));
    r.push(cat("/featurename:", feature_name));
    assert(strs_view(r@) =~= seq![
        "/English"@,
        "/online"@,
        "/get-featureinfo"@,
        "/featurename:"@ + feature_name@,
    ]);
    r
}

/// Arguments of `dism.exe` that disable one feature without restarting, with
/// English output.
pub fn disable_feature_args(feature_name: &str) -> (r: Vec<String>)
    ensures
        strs_view(r@) == seq![
            "/English"@,
            "/online"@,
            "/disable-feature"@,
            "/featurename:"@ + feature_name@,
            "/norestart"@,
        ],
{
    let mut r: Vec<String> = Vec::new();
    r.push(String::from_str("/English"));
    r.push(String::from_str("/online"));
    r.push(String::from_str("/disable-feature"));
    r.push(cat("/featurename:", feature_name));
    r.push(String::from_str("/norestart"));
    assert(strs_view(r@) =~= seq![
        "/English"@,
        "/online"@,
        "/disable-feature"@,
        "/featurename:"@ + feature_name@,
        "/norestart"@,
    ]);
    r
}

/// The value of the first line of the form `State : value` (key compared
/// without regard to ASCII case, both sides trimmed).
pub open spec fn dism_state_in(lines: Seq<Seq<char>>) -> Option<Seq<char>>
    decreases lines.len(),
{
    if lines.len() == 0 {
        None
    } else {
        match split_once(lines[0], ':') {
            Some((k, v)) => if eq_ignore_ascii_case(trim(k), "State"@) {
                Some(trim(v))
            } else {
                dism_state_in(lines.drop_first())
            },
            None => dism_state_in(lines.drop_first()),
        }
    }
}

pub open spec fn dism_feature_state(output: Seq<char>) -> Option<Seq<char>> {
    dism_state_in(lines_of(output))
}

/// The feature state that `dism.exe /get-featureinfo` printed.
pub fn parse_dism_feature_state(output: &str) -> (r: Option<String>)
    ensures
        match r {
            Some(s) => dism_feature_state(output@) == Some(s@),
            None => dism_feature_state(output@) is None,
        },
{
    let v = chars_of(output);
    let lines = lines_chars(v.as_slice());
    let key = chars_of("State");
    let ghost ls = views_of(lines@);
    let mut i: usize = 0;
    assert(ls.skip(0) =~= ls);
    while i < lines.len()
        invariant
            0 <= i <= lines@.len(),
            ls == views_of(lines@),
            ls == lines_of(output@),
            key@ == "State"@,
            dism_state_in(ls.skip(i as int)) == dism_state_in(ls),
        decreases lines@.len() - i,
    {
        assert(ls.skip(i as int)[0] == lines@[i as int]@);
        assert(ls.skip(i as int).drop_first() =~= ls.skip(i + 1));
        match split_once_chars(lines[i].as_slice(), ':') {
            Some((k, val)) => {
                let tk = trim_chars(k.as_slice());
                if eq_ignore_ascii_case_chars(tk.as_slice(), key.as_slice()) {
                    let tv = trim_chars(val.as_slice());
                    return Some(string_of(tv.as_slice()));
                }
            },
            None => {},
        }
        i += 1;
    }
    None
}

/// Whether `line` mentions `key`, compared in lowercase.
pub open spec fn mentions_key(line: Seq<char>, key: Seq<char>) -> bool {
    contains_seq(unicode_lowercase(line), unicode_lowercase(key))
}

/// The value after the key on the first line that mentions the key and has at
/// least two words: the remaining words joined by single spaces.
pub open spec fn bcdedit_value_in(lines: Seq<Seq<char>>, key: Seq<char>) -> Option<Seq<char>>
    decreases lines.len(),
{
    if lines.len() == 0 {
        None
    } else {
        let ws = words(lines[0]);
        if mentions_key(lines[0], key) && ws.len() >= 2 {
            Some(join(ws.skip(1), " "@))
        } else {
            bcdedit_value_in(lines.drop_first(), key)
        }
    }
}

pub open spec fn bcdedit_value(output: Seq<char>, key: Seq<char>) -> Option<Seq<char>> {
    bcdedit_value_in(lines_of(output), key)
}

/// The value of `key` in the output of `bcdedit /enum`.
pub fn parse_bcdedit_value(output: &str, key: &str) -> (r: Option<String>)
    ensures
        match r {
            Some(s) => bcdedit_value(output@, key@) == Some(s@),
            None => bcdedit_value(output@, key@) is None,
        },
{
    let key_lower = to_lowercase(key);
    let kl = chars_of(key_lower.as_str());
    let v = chars_of(output);
    let lines = lines_chars(v.as_slice());
    let sep = chars_of(" ");
    let ghost ls = views_of(lines@);
    let mut i: usize = 0;
    assert(ls.skip(0) =~= ls);
    while i < lines.len()
        invariant
            0 <= i <= lines@.len(),
            ls == views_of(lines@),
            ls == lines_of(output@),
            kl@ == unicode_lowercase(key@),
            sep@ == " "@,
            bcdedit_value_in(ls.skip(i as int), key@) == bcdedit_value_in(ls, key@),
        decreases lines@.len() - i,
    {
        assert(ls.skip(i as int)[0] == lines@[i as int]@);
        assert(ls.skip(i as int).drop_first() =~= ls.skip(i + 1));
        let line_str = string_of(lines[i].as_slice());
        let lower = to_lowercase(line_str.as_str());
        let lc = chars_of(lower.as_str());
        if contains(lc.as_slice(), kl.as_slice()) {
            let tokens = words_chars(lines[i].as_slice());
            if tokens.len() >= 2 {
                let joined = join_chars(tokens.as_slice(), 1, sep.as_slice());
                assert(views_of(tokens@.skip(1)) =~= views_of(tokens@).skip(1));
                return Some(string_of(joined.as_slice()));
            }
        }
        i += 1;
    }
    None
}

/// The error text for a process that exited unsuccessfully: its trimmed
/// standard error, else its trimmed standard output, else "출력 없음".
pub open spec fn process_error_text(stdout: Seq<char>, stderr: Seq<char>) -> Seq<char> {
    "오류: "@ + if trim(stderr).len() > 0 {
        trim(stderr)
    } else if trim(stdout).len() > 0 {
        trim(stdout)
    } else {
        "출력 없음"@
    }
}

pub fn format_process_output_error(stdout: &str, stderr: &str) -> (r: String)
    ensures
        r@ == process_error_text(stdout@, stderr@),
{
    let e = trim_str(stderr);
    let o = trim_str(stdout);
    if e.as_str().unicode_len() > 0 {
        cat("오류: ", e.as_str())
    } else if o.as_str().unicode_len() > 0 {
        cat("오류: ", o.as_str())
    } else {
        cat("오류: ", "출력 없음")
    }
}

/// What a `bcdedit /enum {current}` run tells about `key`: the error text
/// when the run failed, the value when present, `missing` otherwise.
pub open spec fn bcdedit_reading(
    outcome: Result<(bool, Seq<char>, Seq<char>), Seq<char>>,
    key: Seq<char>,
    missing: Seq<char>,
) -> Seq<char> {
    match outcome {
        Err(e) => "오류: "@ + e,
        Ok((success, stdout, stderr)) => if !success {
            process_error_text(stdout, stderr)
        } else {
            match bcdedit_value(stdout, key) {
                Some(v) => v,
                None => missing,
            }
        },
    }
}

pub open spec fn outcome_view(outcome: Result<ProcessResult, String>) -> Result<
    (bool, Seq<char>, Seq<char>),
    Seq<char>,
> {
    match outcome {
        Ok(p) => Ok((p.success, p.stdout@, p.stderr@)),
        Err(e) => Err(e@),
    }
}

/// The reading of `key` from a `bcdedit /enum {current}` run, or of the
/// failure to start it.
pub fn bcdedit_reading_of(outcome: &Result<ProcessResult, String>, key: &str, missing: &str) -> (r:
    String)
    ensures
        r@ == bcdedit_reading(outcome_view(*outcome), key@, missing@),
{
    match outcome {
        Err(e) => cat("오류: ", e.as_str()),
        Ok(p) => {
            if !p.success {
                format_process_output_error(p.stdout.as_str(), p.stderr.as_str())
            } else {
                match parse_bcdedit_value(p.stdout.as_str(), key) {
                    Some(v) => v,
                    None => missing.to_owned(),
                }
            }
        },
    }
}

/// The `hypervisorlaunchtype` setting, "확인 불가" when absent.
pub fn get_hypervisor_launch_type(outcome: &Result<ProcessResult, String>) -> (r: String)
    ensures
        r@ == bcdedit_reading(outcome_view(*outcome), "hypervisorlaunchtype"@, "확인 불가"@),
{
    bcdedit_reading_of(outcome, "hypervisorlaunchtype", "확인 불가")
}

/// The `vsmlaunchtype` setting, "미설정" when absent.
pub fn get_vsm_launch_type(outcome: &Result<ProcessResult, String>) -> (r: String)
    ensures
        r@ == bcdedit_reading(outcome_view(*outcome), "vsmlaunchtype"@, "미설정"@),
{
    bcdedit_reading_of(outcome, "vsmlaunchtype", "미설정")
}

/// The lines put before every PowerShell script so that it reads and writes UTF-8.
pub open spec fn powershell_prelude() -> Seq<char> {
    "\n[Console]::InputEncoding = [System.Text.UTF8Encoding]::new($false)\n[Console]::OutputEncoding = [System.Text.UTF8Encoding]::new($false)\n$OutputEncoding = [Console]::OutputEncoding\n\n"@
}

/// The script with UTF-8 input and output switched on first.
pub fn wrap_powershell_script(script: &str) -> (r: String)
    ensures
        r@ == powershell_prelude() + script@ + "\n"@,
{
    let mut s = String::from_str(
        "\n[Console]::InputEncoding = [System.Text.UTF8Encoding]::new($false)\n[Console]::OutputEncoding = [System.Text.UTF8Encoding]::new($false)\n$OutputEncoding = [Console]::OutputEncoding\n\n",
    );
    s.append(script);
    s.append("\n");
    s
}


/// A line `key: value` whose trimmed key reads "State" in any ASCII case.
pub open spec fn is_state_line(line: Seq<char>) -> bool {
    match split_once(line, ':') {
        Some((k, v)) => eq_ignore_ascii_case(trim(k), "State"@),
        None => false,
    }
}

/// The state DISM reports is the trimmed value of the first `State :` line,
/// whatever lines come before or after it; with no such line there is none.
pub proof fn law_first_state_line_gives_the_state(lines: Seq<Seq<char>>, n: int)
    requires
        0 <= n <= lines.len(),
        forall|j: int| 0 <= j < n ==> !is_state_line(#[trigger] lines[j]),
    ensures
        n < lines.len() && is_state_line(lines[n]) ==> dism_state_in(lines) == Some(
            trim(split_once(lines[n], ':').unwrap().1),
        ),
        n == lines.len() ==> dism_state_in(lines) is None,
    decreases n,
{
    if n > 0 {
        assert(!is_state_line(lines[0]));
        let rest = lines.drop_first();
        assert forall|j: int| 0 <= j < n - 1 implies !is_state_line(#[trigger] rest[j]) by {
            assert(rest[j] == lines[j + 1]);
        }
        law_first_state_line_gives_the_state(rest, n - 1);
        if n < lines.len() {
            assert(rest[n - 1] == lines[n]);
        }
    }
}
} // verus!
