//! Windows version facts read from `SOFTWARE\Microsoft\Windows NT\CurrentVersion`.
use vstd::prelude::*;
use chrono::TimeZone;
use crate::services::timestamp::is_local_date_text;
use crate::text::{
    chars_of, copy_range, eq_ignore_ascii_case, eq_ignore_ascii_case_chars, extend_chars, has_prefix,
    is_digit, parse_u32, parse_u32_chars, push_str, starts_with, string_of, trim, trim_str,
};

verus! {

/// The values of the `CurrentVersion` key that the version is built from;
/// `None` where a value is missing or of another type.
pub struct CurrentVersionValues {
    pub product_name: Option<String>,
    pub display_version: Option<String>,
    pub current_build: Option<String>,
    pub ubr: Option<u32>,
}

/// Windows version and build, as shown in the system information.
#[derive(Debug)]
pub struct WindowsVersionInfo {
    pub os_name: String,
    pub product_name: String,
    pub display_version: String,
    pub build_number: String,
    pub ubr: u32,
}

pub struct VersionView {
    pub os_name: Seq<char>,
    pub product_name: Seq<char>,
    pub display_version: Seq<char>,
    pub build_number: Seq<char>,
    pub ubr: u32,
}

impl View for WindowsVersionInfo {
    type V = VersionView;

    open spec fn view(&self) -> VersionView {
        VersionView {
            os_name: self.os_name@,
            product_name: self.product_name@,
            display_version: self.display_version@,
            build_number: self.build_number@,
            ubr: self.ubr,
        }
    }
}

pub open spec fn text_or_empty(v: Option<String>) -> Seq<char> {
    match v {
        Some(s) => s@,
        None => Seq::empty(),
    }
}

/// The build number, 0 when the text is not a `u32`.
pub open spec fn build_value(current_build: Seq<char>) -> u32 {
    match parse_u32(current_build) {
        Some(n) => n,
        None => 0,
    }
}

/// Windows 11 from build 22000, Windows 10 from build 10240.
pub open spec fn os_name_for(build: u32) -> Seq<char> {
    if build >= 22000 {
        "Windows 11"@
    } else if build >= 10240 {
        "Windows 10"@
    } else {
        "Windows"@
    }
}

/// Builds from 26100 on that still report 23H2 are 24H2.
pub open spec fn shown_display_version(build: u32, display_version: Seq<char>) -> Seq<char> {
    if os_name_for(build) == "Windows 11"@ && build >= 26100 && display_version == "23H2"@ {
        "24H2"@
    } else {
        display_version
    }
}

pub open spec fn unknown_version() -> VersionView {
    VersionView {
        os_name: "알 수 없음"@,
        product_name: "알 수 없음"@,
        display_version: "알 수 없음"@,
        build_number: "0"@,
        ubr: 0,
    }
}

/// The version built from the key's values, or the unknown version when the
/// key could not be opened. Missing text values count as empty, a missing
/// `UBR` as 0.
pub open spec fn version_of(key: Option<CurrentVersionValues>) -> VersionView {
    match key {
        None => unknown_version(),
        Some(k) => {
            let build = build_value(text_or_empty(k.current_build));
            VersionView {
                os_name: os_name_for(build),
                product_name: text_or_empty(k.product_name),
                display_version: shown_display_version(build, text_or_empty(k.display_version)),
                build_number: text_or_empty(k.current_build),
                ubr: match k.ubr {
                    Some(u) => u,
                    None => 0,
                },
            }
        },
    }
}

fn string_or_empty(v: &Option<String>) -> (r: String)
    ensures
        r@ == text_or_empty(*v),
{
    match v {
        Some(s) => s.clone(),
        None => String::new(),
    }
}

impl WindowsVersionInfo {
    /// The version shown when the `CurrentVersion` key cannot be opened.
    pub fn unknown() -> (r: Self)
        ensures
            r@ == unknown_version(),
    {
        WindowsVersionInfo {
            os_name: String::from_str("알 수 없음"),
            product_name: String::from_str("알 수 없음"),
            display_version: String::from_str("알 수 없음"),
            build_number: String::from_str("0"),
            ubr: 0,
        }
    }
}

/// The Windows version from the values of the `CurrentVersion` key.
pub fn get_windows_version(key: Option<CurrentVersionValues>) -> (r: WindowsVersionInfo)
    ensures
        r@ == version_of(key),
{
    match key {
        None => WindowsVersionInfo::unknown(),
        Some(k) => {
            let product_name = string_or_empty(&k.product_name);
            let display_version = string_or_empty(&k.display_version);
            let current_build = string_or_empty(&k.current_build);
            let ubr = match k.ubr {
                Some(u) => u,
                None => 0,
            };
            let digits = chars_of(current_build.as_str());
            let build_number: u32 = match parse_u32_chars(digits.as_slice()) {
                Some(n) => n,
                None => 0,
            };
            let os_name = if build_number >= 22000 {
                "Windows 11"
            } else if build_number >= 10240 {
                "Windows 10"
            } else {
                "Windows"
            };
            let version = if build_number >= 22000 && build_number >= 26100 && display_version
                == String::from_str("23H2") {
                String::from_str("24H2")
            } else {
                display_version
            };
            proof {
                reveal_strlit("Windows 11");
                reveal_strlit("Windows 10");
                reveal_strlit("Windows");
            }
            WindowsVersionInfo {
                os_name: os_name.to_owned(),
                product_name,
                display_version: version,
                build_number: current_build,
                ubr,
            }
        },
    }
}

} // verus!

verus! {

/// A WebView2 `pv` value that names an installed runtime: set, and not
/// "0.0.0.0".
pub open spec fn runtime_version_present(pv: Option<String>) -> bool {
    match pv {
        Some(v) => v@.len() > 0 && v@ != "0.0.0.0"@,
        None => false,
    }
}

/// The WebView2 runtime is installed when any of the client keys read holds
/// a version.
pub fn webview2_installed(pvs: &[Option<String>]) -> (r: bool)
    ensures
        r == exists|i: int| 0 <= i < pvs@.len() && runtime_version_present(#[trigger] pvs@[i]),
{
    let mut i: usize = 0;
    while i < pvs.len()
        invariant
            0 <= i <= pvs@.len(),
            forall|j: int| 0 <= j < i ==> !runtime_version_present(#[trigger] pvs@[j]),
        decreases pvs@.len() - i,
    {
        let present = match &pvs[i] {
            Some(v) => v.as_str().unicode_len() > 0 && !(*v == String::from_str("0.0.0.0")),
            None => false,
        };
        if present {
            assert(runtime_version_present(pvs@[i as int]));
            return true;
        }
        i += 1;
    }
    false
}

} // verus!

verus! {

// ---------------------------------------------------------------------------
// Edition, architecture, install date and language as shown
// ---------------------------------------------------------------------------

/// The edition: `ProductName` with a "Windows 10 " or "Windows 11 " prefix
/// replaced by the name that the build number gives (some Windows 11
/// builds still report "Windows 10 Pro").
pub open spec fn edition_text(os_name: Seq<char>, product_name: Seq<char>) -> Seq<char> {
    if has_prefix(product_name, "Windows 10 "@) || has_prefix(product_name, "Windows 11 "@) {
        os_name + " "@ + product_name.skip(11)
    } else {
        product_name
    }
}

fn starts_with_str(a: &str, p: &str) -> (r: bool)
    ensures
        r == has_prefix(a@, p@),
{
    let x = chars_of(a);
    let y = chars_of(p);
    starts_with(x.as_slice(), y.as_slice())
}

pub fn edition_label(os_name: &str, product_name: &str) -> (r: String)
    ensures
        r@ == edition_text(os_name@, product_name@),
{
    if starts_with_str(product_name, "Windows 10 ") || starts_with_str(product_name, "Windows 11 ") {
        proof {
            reveal_strlit("Windows 10 ");
            reveal_strlit("Windows 11 ");
        }
        let v = chars_of(product_name);
        let rest = copy_range(v.as_slice(), 11, v.len());
        assert(rest@ =~= product_name@.skip(11));
        let mut out = chars_of(os_name);
        push_str(&mut out, " ");
        extend_chars(&mut out, rest.as_slice());
        string_of(out.as_slice())
    } else {
        product_name.to_owned()
    }
}

/// `PROCESSOR_ARCHITECTURE` as shown: x64, ARM64 and x86 named, anything
/// else as read.
pub open spec fn architecture_text(raw: Option<Seq<char>>) -> Seq<char> {
    match raw {
        None => "알 수 없음"@,
        Some(r) => if r == "AMD64"@ {
            "x64 (AMD64)"@
        } else if r == "ARM64"@ {
            "ARM64"@
        } else if r == "x86"@ {
            "x86 (32비트)"@
        } else {
            r
        },
    }
}

fn same_text(a: &str, b: &str) -> (r: bool)
    ensures
        r == (a@ == b@),
{
    a.to_owned() == b.to_owned()
}

pub fn architecture_label(raw: Option<&str>) -> (r: String)
    ensures
        r@ == architecture_text(match raw {
            Some(s) => Some(s@),
            None => None,
        }),
{
    match raw {
        None => String::from_str("알 수 없음"),
        Some(r) => if same_text(r, "AMD64") {
            String::from_str("x64 (AMD64)")
        } else if same_text(r, "ARM64") {
            String::from_str("ARM64")
        } else if same_text(r, "x86") {
            String::from_str("x86 (32비트)")
        } else {
            r.to_owned()
        },
    }
}

/// The language code: `InstallLanguage`, or the system default language
/// when that is missing or blank; trimmed.
pub open spec fn language_code(install_language: Option<Seq<char>>, default_language: Option<Seq<char>>) -> Option<Seq<char>> {
    match install_language {
        Some(l) => if trim(l).len() > 0 {
            Some(trim(l))
        } else {
            match default_language {
                Some(d) => Some(trim(d)),
                None => None,
            }
        },
        None => match default_language {
            Some(d) => Some(trim(d)),
            None => None,
        },
    }
}

/// A language code (LCID in hexadecimal) by name for the languages the tool
/// knows, else the code itself.
pub open spec fn language_text(code: Option<Seq<char>>) -> Seq<char> {
    match code {
        None => "알 수 없음"@,
        Some(c) => if c.len() == 0 {
            "알 수 없음"@
        } else if eq_ignore_ascii_case(c, "0412"@) {
            "한국어"@
        } else if eq_ignore_ascii_case(c, "0409"@) {
            "영어 (미국)"@
        } else if eq_ignore_ascii_case(c, "0411"@) {
            "일본어"@
        } else if eq_ignore_ascii_case(c, "0804"@) {
            "중국어 (간체)"@
        } else if eq_ignore_ascii_case(c, "0404"@) {
            "중국어 (번체)"@
        } else {
            c
        },
    }
}

fn eq_ignore_case_str(a: &str, b: &str) -> (r: bool)
    ensures
        r == eq_ignore_ascii_case(a@, b@),
{
    let x = chars_of(a);
    let y = chars_of(b);
    eq_ignore_ascii_case_chars(x.as_slice(), y.as_slice())
}

pub fn install_language_label(install_language: Option<&str>, default_language: Option<&str>) -> (r: String)
    ensures
        r@ == language_text(
            language_code(
                match install_language {
                    Some(s) => Some(s@),
                    None => None,
                },
                match default_language {
                    Some(s) => Some(s@),
                    None => None,
                },
            ),
        ),
{
    let from_install = match install_language {
        Some(l) => {
            let t = trim_str(l);
            if t.as_str().unicode_len() > 0 {
                Some(t)
            } else {
                None
            }
        },
        None => None,
    };
    let code = match from_install {
        Some(t) => Some(t),
        None => match default_language {
            Some(d) => Some(trim_str(d)),
            None => None,
        },
    };
    match code {
        None => String::from_str("알 수 없음"),
        Some(c) => {
            let s = c.as_str();
            if s.unicode_len() == 0 {
                String::from_str("알 수 없음")
            } else if eq_ignore_case_str(s, "0412") {
                String::from_str("한국어")
            } else if eq_ignore_case_str(s, "0409") {
                String::from_str("영어 (미국)")
            } else if eq_ignore_case_str(s, "0411") {
                String::from_str("일본어")
            } else if eq_ignore_case_str(s, "0804") {
                String::from_str("중국어 (간체)")
            } else if eq_ignore_case_str(s, "0404") {
                String::from_str("중국어 (번체)")
            } else {
                c
            }
        },
    }
}

/// `YYYY-MM-DD`: ten characters, digits but for the dashes at 4 and 7.
pub open spec fn is_ymd(t: Seq<char>) -> bool {
    &&& t.len() == 10
    &&& t[4] == '-'
    &&& t[7] == '-'
    &&& forall|i: int| 0 <= i < 10 && i != 4 && i != 7 ==> is_digit(#[trigger] t[i])
}

/// The local calendar date, `YYYY-MM-DD`, of a moment given in seconds
/// since 1970-01-01 UTC, by chrono's `Local.timestamp_opt(..).single()` and
/// `format("%Y-%m-%d")`.
///
/// `timestamp_opt` gives a single local time for every timestamp in
/// chrono's range, which every `u32` is: the UTC time shifted by the local
/// offset, a `FixedOffset`, which chrono keeps strictly within a day. `%Y`
/// writes four digits for the years 1969 to 2106 that such a moment falls
/// in. Which offset applies depends on the machine's time zone and is not
/// stated.
#[verifier::external_body]
fn local_date_of_timestamp(secs: u32) -> (r: Option<String>)
    ensures
        r is Some,
        is_ymd(r.unwrap()@),
        is_local_date_text(r.unwrap()@, secs as int),
{
    match chrono::Local.timestamp_opt(secs as i64, 0).single() {
        Some(t) => Some(t.format("%Y-%m-%d").to_string()),
        None => None,
    }
}

/// The install date as shown: the local date of `InstallDate` (seconds
/// since 1970) as `YYYY-MM-DD`, or "알 수 없음" when it is missing.
pub fn install_date_label(secs: Option<u32>) -> (r: String)
    ensures
        secs is None ==> r@ == "알 수 없음"@,
        secs matches Some(s) ==> is_ymd(r@) && is_local_date_text(r@, s as int),
{
    match secs {
        None => String::from_str("알 수 없음"),
        Some(s) => match local_date_of_timestamp(s) {
            Some(d) => d,
            None => String::from_str("알 수 없음"),
        },
    }
}

} // verus!
