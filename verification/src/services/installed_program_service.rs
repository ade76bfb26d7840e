//! Installed programs: filtering registry and AppX entries, normalizing their
//! fields, removing duplicates and sorting by name.
use vstd::prelude::*;
use crate::models::installed_program::{InstalledProgramItem, InstalledProgramsOutput, ProgramRow};
use crate::services::process_service::ProcessResult;
use crate::text::{
    all_digits, cat, chars_of, copy_range, extend_chars, has_prefix, is_digit, push_str,
    split_char, split_chars, split_once, split_once_chars, starts_with, string_of, to_lowercase,
    lemma_trim_idempotent, trim, trim_chars, trim_str, unicode_lowercase, views_of,
};

verus! {

// ---------------------------------------------------------------------------
// Install dates
// ---------------------------------------------------------------------------

/// A registry install date `YYYYMMDD` as `YYYY-MM-DD`; anything else trimmed
/// and otherwise kept.
pub open spec fn normalized_install_date(value: Seq<char>) -> Seq<char> {
    let t = trim(value);
    if t.len() == 8 && all_digits(t) {
        t.subrange(0, 4) + seq!['-'] + t.subrange(4, 6) + seq!['-'] + t.subrange(6, 8)
    } else {
        t
    }
}

fn all_digit_chars(v: &[char]) -> (r: bool)
    ensures
        r == all_digits(v@),
{
    let mut i: usize = 0;
    while i < v.len()
        invariant
            0 <= i <= v@.len(),
            forall|j: int| 0 <= j < i ==> is_digit(#[trigger] v@[j]),
        decreases v@.len() - i,
    {
        if !('0' <= v[i] && v[i] <= '9') {
            assert(!is_digit(v@[i as int]));
            return false;
        }
        i += 1;
    }
    true
}

pub fn normalize_install_date(value: &str) -> (r: String)
    ensures
        r@ == normalized_install_date(value@),
{
    let v = chars_of(value);
    let t = trim_chars(v.as_slice());
    if t.len() == 8 && all_digit_chars(t.as_slice()) {
        let mut out: Vec<char> = Vec::new();
        let a = copy_range(t.as_slice(), 0, 4);
        let b = copy_range(t.as_slice(), 4, 6);
        let c = copy_range(t.as_slice(), 6, 8);
        extend_chars(&mut out, a.as_slice());
        out.push('-');
        extend_chars(&mut out, b.as_slice());
        out.push('-');
        extend_chars(&mut out, c.as_slice());
        assert(out@ =~= normalized_install_date(value@));
        string_of(out.as_slice())
    } else {
        string_of(t.as_slice())
    }
}

// ---------------------------------------------------------------------------
// AppX names and publishers
// ---------------------------------------------------------------------------

pub open spec fn is_hex_digit(c: char) -> bool {
    ('0' <= c && c <= '9') || ('a' <= c && c <= 'f') || ('A' <= c && c <= 'F')
}

pub open spec fn all_hex(s: Seq<char>) -> bool {
    forall|i: int| 0 <= i < s.len() ==> is_hex_digit(#[trigger] s[i])
}

pub open spec fn guid_group_len(i: int) -> nat {
    if i == 4 {
        12
    } else if i == 0 {
        8
    } else {
        4
    }
}

/// Five hexadecimal groups of 8, 4, 4, 4 and 12 digits separated by `-`.
pub open spec fn guid_like(s: Seq<char>) -> bool {
    let parts = split_char(s, '-');
    parts.len() == 5 && forall|i: int|
        0 <= i < 5 ==> (#[trigger] parts[i]).len() == guid_group_len(i) && all_hex(parts[i])
}

fn all_hex_chars(v: &[char]) -> (r: bool)
    ensures
        r == all_hex(v@),
{
    let mut i: usize = 0;
    while i < v.len()
        invariant
            0 <= i <= v@.len(),
            forall|j: int| 0 <= j < i ==> is_hex_digit(#[trigger] v@[j]),
        decreases v@.len() - i,
    {
        let c = v[i];
        if !(('0' <= c && c <= '9') || ('a' <= c && c <= 'f') || ('A' <= c && c <= 'F')) {
            assert(!is_hex_digit(v@[i as int]));
            return false;
        }
        i += 1;
    }
    true
}

fn is_guid_like_chars(v: &[char]) -> (r: bool)
    ensures
        r == guid_like(v@),
{
    let parts = split_chars(v, '-');
    let ghost ps = views_of(parts@);
    if parts.len() != 5 {
        return false;
    }
    let mut i: usize = 0;
    while i < 5
        invariant
            parts@.len() == 5,
            ps == views_of(parts@),
            ps == split_char(v@, '-'),
            0 <= i <= 5,
            forall|j: int|
                0 <= j < i ==> (#[trigger] ps[j]).len() == guid_group_len(j) && all_hex(ps[j]),
        decreases 5 - i,
    {
        let expected: usize = if i == 4 {
            12
        } else if i == 0 {
            8
        } else {
            4
        };
        assert(ps[i as int] == parts@[i as int]@);
        if parts[i].len() != expected || !all_hex_chars(parts[i].as_slice()) {
            return false;
        }
        i += 1;
    }
    true
}

/// Whether the text looks like a GUID.
pub fn is_guid_like(value: &str) -> (r: bool)
    ensures
        r == guid_like(value@),
{
    let v = chars_of(value);
    is_guid_like_chars(v.as_slice())
}

/// AppX package names of Windows components that are not shown as programs.
pub open spec fn internal_appx_names() -> Seq<Seq<char>> {
    seq![
        "Microsoft.AAD.BrokerPlugin"@,
        "Microsoft.AccountsControl"@,
        "Microsoft.BioEnrollment"@,
        "Microsoft.CredDialogHost"@,
        "Microsoft.LockApp"@,
        "Microsoft.Windows.Apprep.ChxApp"@,
        "Microsoft.Windows.AssignedAccessLockApp"@,
        "Microsoft.Windows.CapturePicker"@,
        "Microsoft.Windows.CloudExperienceHost"@,
        "Microsoft.Windows.ContentDeliveryManager"@,
        "Microsoft.Windows.OOBENetworkCaptivePortal"@,
        "Microsoft.Windows.OOBENetworkConnectionFlow"@,
        "Microsoft.Windows.ParentalControls"@,
        "Microsoft.Windows.PeopleExperienceHost"@,
        "Microsoft.Windows.PinningConfirmationDialog"@,
        "Microsoft.Windows.PrintQueueActionCenter"@,
        "Microsoft.Windows.SecureAssessmentBrowser"@,
        "Microsoft.Windows.ShellExperienceHost"@,
        "Microsoft.Windows.StartMenuExperienceHost"@,
        "Microsoft.Windows.XGpuEjectDialog"@,
        "NcsiUwpApp"@,
        "Windows.CBSPreview"@,
        "Windows.PrintDialog"@,
        "windows.immersivecontrolpanel"@,
    ]
}

fn internal_appx_name_list() -> (r: Vec<&'static str>)
    ensures
        r@.map_values(|s: &'static str| s@) == internal_appx_names(),
{
    let r: Vec<&'static str> = vec![
        "Microsoft.AAD.BrokerPlugin",
        "Microsoft.AccountsControl",
        "Microsoft.BioEnrollment",
        "Microsoft.CredDialogHost",
        "Microsoft.LockApp",
        "Microsoft.Windows.Apprep.ChxApp",
        "Microsoft.Windows.AssignedAccessLockApp",
        "Microsoft.Windows.CapturePicker",
        "Microsoft.Windows.CloudExperienceHost",
        "Microsoft.Windows.ContentDeliveryManager",
        "Microsoft.Windows.OOBENetworkCaptivePortal",
        "Microsoft.Windows.OOBENetworkConnectionFlow",
        "Microsoft.Windows.ParentalControls",
        "Microsoft.Windows.PeopleExperienceHost",
        "Microsoft.Windows.PinningConfirmationDialog",
        "Microsoft.Windows.PrintQueueActionCenter",
        "Microsoft.Windows.SecureAssessmentBrowser",
        "Microsoft.Windows.ShellExperienceHost",
        "Microsoft.Windows.StartMenuExperienceHost",
        "Microsoft.Windows.XGpuEjectDialog",
        "NcsiUwpApp",
        "Windows.CBSPreview",
        "Windows.PrintDialog",
        "windows.immersivecontrolpanel",
    ];
    assert(r@.map_values(|s: &'static str| s@) =~= internal_appx_names());
    r
}

/// AppX entries that are not shown: empty or GUID-like names, `MicrosoftWindows.`
/// packages and the listed Windows components.
pub open spec fn skip_appx_name(name: Seq<char>) -> bool {
    let t = trim(name);
    t.len() == 0 || guid_like(t) || has_prefix(t, "MicrosoftWindows."@) || internal_appx_names().contains(t)
}

fn chars_equal(a: &[char], b: &[char]) -> (r: bool)
    ensures
        r == (a@ == b@),
{
    if a.len() != b.len() {
        return false;
    }
    let mut i: usize = 0;
    while i < a.len()
        invariant
            a@.len() == b@.len(),
            0 <= i <= a@.len(),
            forall|j: int| 0 <= j < i ==> a@[j] == b@[j],
        decreases a@.len() - i,
    {
        if a[i] != b[i] {
            return false;
        }
        i += 1;
    }
    assert(a@ =~= b@);
    true
}

pub fn should_skip_appx_name(name: &str) -> (r: bool)
    ensures
        r == skip_appx_name(name@),
{
    let v = chars_of(name);
    let t = trim_chars(v.as_slice());
    if t.len() == 0 || is_guid_like_chars(t.as_slice()) {
        return true;
    }
    let prefix = chars_of("MicrosoftWindows.");
    if starts_with(t.as_slice(), prefix.as_slice()) {
        return true;
    }
    let names = internal_appx_name_list();
    let ghost ns = internal_appx_names();
    let mut i: usize = 0;
    while i < names.len()
        invariant
            names@.map_values(|s: &'static str| s@) == ns,
            ns == internal_appx_names(),
            t@ == trim(name@),
            0 <= i <= names@.len(),
            forall|j: int| 0 <= j < i ==> ns[j] != t@,
        decreases names@.len() - i,
    {
        let candidate = chars_of(names[i]);
        assert(ns[i as int] == names@[i as int]@);
        if chars_equal(candidate.as_slice(), t.as_slice()) {
            assert(ns.contains(t@));
            return true;
        }
        i += 1;
    }
    assert(!ns.contains(t@));
    false
}

/// `s` with every leading and trailing `"` removed (`str::trim_matches('"')`).
pub open spec fn strip_quotes(s: Seq<char>) -> Seq<char>
    decreases s.len(),
{
    if s.len() > 0 && s[0] == '"' {
        strip_quotes(s.drop_first())
    } else if s.len() > 0 && s.last() == '"' {
        strip_quotes(s.drop_last())
    } else {
        s
    }
}

fn strip_quotes_chars(v: &[char]) -> (r: Vec<char>)
    ensures
        r@ == strip_quotes(v@),
{
    let mut a: usize = 0;
    let mut b: usize = v.len();
    assert(v@.subrange(0, v@.len() as int) =~= v@);
    while a < b && (v[a] == '"' || v[b - 1] == '"')
        invariant
            0 <= a <= b <= v@.len(),
            strip_quotes(v@.subrange(a as int, b as int)) == strip_quotes(v@),
        decreases b - a,
    {
        let ghost s = v@.subrange(a as int, b as int);
        if v[a] == '"' {
            assert(s.drop_first() =~= v@.subrange(a + 1, b as int));
            a += 1;
        } else {
            assert(s.drop_last() =~= v@.subrange(a as int, b - 1));
            b -= 1;
        }
    }
    copy_range(v, a, b)
}

/// The value of the first `key=value` component of a distinguished name
/// whose key is `key`: components split at `,`, key and value trimmed, and
/// the value stripped of quotes.
pub open spec fn dn_value_in(parts: Seq<Seq<char>>, key: Seq<char>) -> Option<Seq<char>>
    decreases parts.len(),
{
    if parts.len() == 0 {
        None
    } else {
        match split_once(trim(parts[0]), '=') {
            Some((k, v)) => if trim(k) == key {
                Some(strip_quotes(trim(v)))
            } else {
                dn_value_in(parts.drop_first(), key)
            },
            None => dn_value_in(parts.drop_first(), key),
        }
    }
}

pub open spec fn dn_value(publisher: Seq<char>, key: Seq<char>) -> Option<Seq<char>> {
    dn_value_in(split_char(publisher, ','), key)
}

fn distinguished_name_value_chars(publisher: &[char], key: &[char]) -> (r: Option<Vec<char>>)
    ensures
        match r {
            Some(v) => dn_value(publisher@, key@) == Some(v@),
            None => dn_value(publisher@, key@) is None,
        },
{
    let parts = split_chars(publisher, ',');
    let ghost ps = views_of(parts@);
    let mut i: usize = 0;
    assert(ps.skip(0) =~= ps);
    while i < parts.len()
        invariant
            0 <= i <= parts@.len(),
            ps == views_of(parts@),
            ps == split_char(publisher@, ','),
            dn_value_in(ps.skip(i as int), key@) == dn_value(publisher@, key@),
        decreases parts@.len() - i,
    {
        assert(ps.skip(i as int)[0] == parts@[i as int]@);
        assert(ps.skip(i as int).drop_first() =~= ps.skip(i + 1));
        let part = trim_chars(parts[i].as_slice());
        match split_once_chars(part.as_slice(), '=') {
            Some((k, v)) => {
                let tk = trim_chars(k.as_slice());
                if chars_equal(tk.as_slice(), key) {
                    let tv = trim_chars(v.as_slice());
                    return Some(strip_quotes_chars(tv.as_slice()));
                }
            },
            None => {},
        }
        i += 1;
    }
    None
}

/// Value of component `key` of a distinguished name.
pub fn distinguished_name_value(publisher: &str, key: &str) -> (r: Option<String>)
    ensures
        match r {
            Some(v) => dn_value(publisher@, key@) == Some(v@),
            None => dn_value(publisher@, key@) is None,
        },
{
    let p = chars_of(publisher);
    let k = chars_of(key);
    match distinguished_name_value_chars(p.as_slice(), k.as_slice()) {
        Some(v) => Some(string_of(v.as_slice())),
        None => None,
    }
}

/// The readable publisher of an AppX package: a plain name as it is; for a
/// distinguished name, its organization, else its common name, skipping
/// GUID-like values, else empty.
pub open spec fn normalized_appx_publisher(publisher: Seq<char>) -> Seq<char> {
    let t = trim(publisher);
    if t.len() == 0 || !t.contains('=') {
        t
    } else {
        match dn_value(t, "O"@) {
            Some(o) if !guid_like(o) => o,
            _ => match dn_value(t, "CN"@) {
                Some(cn) if !guid_like(cn) => cn,
                _ => seq![],
            },
        }
    }
}

pub fn normalize_appx_publisher(publisher: &str) -> (r: String)
    ensures
        r@ == normalized_appx_publisher(publisher@),
{
    let v = chars_of(publisher);
    let t = trim_chars(v.as_slice());
    if t.len() == 0 || !crate::text::contains_char(t.as_slice(), '=') {
        return string_of(t.as_slice());
    }
    let o_key = chars_of("O");
    match distinguished_name_value_chars(t.as_slice(), o_key.as_slice()) {
        Some(o) => {
            if !is_guid_like_chars(o.as_slice()) {
                return string_of(o.as_slice());
            }
        },
        None => {},
    }
    let cn_key = chars_of("CN");
    match distinguished_name_value_chars(t.as_slice(), cn_key.as_slice()) {
        Some(cn) => {
            if !is_guid_like_chars(cn.as_slice()) {
                return string_of(cn.as_slice());
            }
        },
        None => {},
    }
    let empty: Vec<char> = Vec::new();
    assert(empty@ =~= Seq::<char>::empty());
    string_of(empty.as_slice())
}


// ---------------------------------------------------------------------------
// Duplicates and order
// ---------------------------------------------------------------------------

pub open spec fn program_rows(items: Seq<InstalledProgramItem>) -> Seq<ProgramRow> {
    items.map_values(|i: InstalledProgramItem| i@)
}

/// The trimmed, lowercased name by which duplicates are recognized.
pub open spec fn norm_name(r: ProgramRow) -> Seq<char> {
    unicode_lowercase(trim(r.name))
}

/// Two rows are duplicates when name and publisher agree, trimmed and in lowercase.
pub open spec fn dedupe_key(r: ProgramRow) -> Seq<char> {
    norm_name(r) + "|"@ + unicode_lowercase(trim(r.publisher))
}

pub open spec fn has_name(r: ProgramRow) -> bool {
    norm_name(r).len() > 0
}

/// An earlier row with a name has the same key as row `i`.
pub open spec fn earlier_duplicate(s: Seq<ProgramRow>, i: int) -> bool {
    exists|j: int| 0 <= j < i && #[trigger] has_name(s[j]) && dedupe_key(s[j]) == dedupe_key(s[i])
}

/// A kept row: name and publisher trimmed, install date normalized.
pub open spec fn cleaned(r: ProgramRow) -> ProgramRow {
    ProgramRow {
        name: trim(r.name),
        publisher: trim(r.publisher),
        install_date: normalized_install_date(r.install_date),
    }
}

/// The rows with a name that have no earlier duplicate, cleaned, in order.
pub open spec fn kept_rows(s: Seq<ProgramRow>) -> Seq<ProgramRow>
    decreases s.len(),
{
    if s.len() == 0 {
        seq![]
    } else {
        let r = kept_rows(s.drop_last());
        let i = s.len() - 1;
        if has_name(s[i]) && !earlier_duplicate(s, i) {
            r.push(cleaned(s[i]))
        } else {
            r
        }
    }
}

/// `a <= b` in the order of `String`: lexicographic by character.
pub open spec fn lex_le(a: Seq<char>, b: Seq<char>) -> bool
    decreases a.len(),
{
    if a.len() == 0 {
        true
    } else if b.len() == 0 {
        false
    } else if a[0] != b[0] {
        a[0] < b[0]
    } else {
        lex_le(a.drop_first(), b.drop_first())
    }
}

/// The sort key: the name in lowercase.
pub open spec fn name_key(r: ProgramRow) -> Seq<char> {
    unicode_lowercase(r.name)
}

/// Number of leading rows whose key is at most `k`.
pub open spec fn le_prefix(s: Seq<ProgramRow>, k: Seq<char>) -> nat
    decreases s.len(),
{
    if s.len() > 0 && lex_le(name_key(s[0]), k) {
        1 + le_prefix(s.drop_first(), k)
    } else {
        0
    }
}

/// `x` inserted after the rows whose key is at most its own.
pub open spec fn insert_by_name(s: Seq<ProgramRow>, x: ProgramRow) -> Seq<ProgramRow> {
    let p = le_prefix(s, name_key(x)) as int;
    s.take(p).push(x) + s.skip(p)
}

/// The rows stably sorted by key (`sort_by_key`).
pub open spec fn sorted_by_name(s: Seq<ProgramRow>) -> Seq<ProgramRow>
    decreases s.len(),
{
    if s.len() == 0 {
        s
    } else {
        insert_by_name(sorted_by_name(s.drop_last()), s.last())
    }
}

pub proof fn lemma_le_prefix_bound(s: Seq<ProgramRow>, k: Seq<char>)
    ensures
        le_prefix(s, k) <= s.len(),
    decreases s.len(),
{
    if s.len() > 0 && lex_le(name_key(s[0]), k) {
        lemma_le_prefix_bound(s.drop_first(), k);
    }
}

fn lex_le_chars(a: &[char], b: &[char]) -> (r: bool)
    ensures
        r == lex_le(a@, b@),
{
    let mut i: usize = 0;
    assert(a@.skip(0) =~= a@);
    assert(b@.skip(0) =~= b@);
    while i < a.len()
        invariant
            0 <= i <= a@.len(),
            i <= b@.len(),
            lex_le(a@, b@) == lex_le(a@.skip(i as int), b@.skip(i as int)),
        decreases a@.len() - i,
    {
        if i == b.len() {
            return false;
        }
        if a[i] != b[i] {
            return a[i] < b[i];
        }
        assert(a@.skip(i as int).drop_first() =~= a@.skip(i + 1));
        assert(b@.skip(i as int).drop_first() =~= b@.skip(i + 1));
        i += 1;
    }
    true
}

fn clone_item(x: &InstalledProgramItem) -> (r: InstalledProgramItem)
    ensures
        r@ == x@,
{
    InstalledProgramItem {
        name: x.name.clone(),
        publisher: x.publisher.clone(),
        install_date: x.install_date.clone(),
    }
}

fn lower_chars(s: &str) -> (r: Vec<char>)
    ensures
        r@ == unicode_lowercase(s@),
{
    let l = to_lowercase(s);
    chars_of(l.as_str())
}

/// Sorts rows stably by lowercase name.
pub fn sort_by_name(items: Vec<InstalledProgramItem>) -> (r: Vec<InstalledProgramItem>)
    ensures
        program_rows(r@) == sorted_by_name(program_rows(items@)),
{
    let ghost s = program_rows(items@);
    let mut sorted: Vec<InstalledProgramItem> = Vec::new();
    let mut keys: Vec<Vec<char>> = Vec::new();
    let mut i: usize = 0;
    while i < items.len()
        invariant
            s == program_rows(items@),
            0 <= i <= items@.len(),
            program_rows(sorted@) == sorted_by_name(s.take(i as int)),
            keys@.len() == sorted@.len(),
            forall|j: int| 0 <= j < keys@.len() ==> (#[trigger] keys@[j])@ == name_key(sorted@[j]@),
        decreases items@.len() - i,
    {
        let x = clone_item(&items[i]);
        let kx = lower_chars(x.name.as_str());
        let ghost cur = program_rows(sorted@);
        assert(s.take(i + 1).drop_last() =~= s.take(i as int));
        assert(s.take(i + 1).last() == x@);
        let mut p: usize = 0;
        assert(cur.skip(0) =~= cur);
        while p < keys.len() && lex_le_chars(keys[p].as_slice(), kx.as_slice())
            invariant
                cur == program_rows(sorted@),
                keys@.len() == sorted@.len(),
                forall|j: int| 0 <= j < keys@.len() ==> (#[trigger] keys@[j])@ == name_key(sorted@[j]@),
                0 <= p <= keys@.len(),
                le_prefix(cur, kx@) == p + le_prefix(cur.skip(p as int), kx@),
            decreases keys@.len() - p,
        {
            assert(keys@[p as int]@ == name_key(cur.skip(p as int)[0]));
            assert(cur.skip(p as int).drop_first() =~= cur.skip(p + 1));
            p += 1;
        }
        proof {
            if p < keys@.len() {
                assert(keys@[p as int]@ == name_key(cur.skip(p as int)[0]));
            }
            assert(le_prefix(cur, kx@) == p);
        }
        let ghost old_keys = keys@;
        let ghost old_sorted = sorted@;
        sorted.insert(p, x);
        keys.insert(p, kx);
        proof {
            assert(program_rows(sorted@) =~= cur.take(p as int).push(x@) + cur.skip(p as int));
            assert forall|j: int| 0 <= j < keys@.len() implies (#[trigger] keys@[j])@ == name_key(
                sorted@[j]@,
            ) by {
                if j < p {
                    assert(keys@[j] == old_keys[j]);
                    assert(sorted@[j] == old_sorted[j]);
                } else if j > p {
                    assert(keys@[j] == old_keys[j - 1]);
                    assert(sorted@[j] == old_sorted[j - 1]);
                }
            }
        }
        i += 1;
    }
    assert(s.take(items@.len() as int) =~= s);
    sorted
}

/// The rows without nameless rows and duplicates, cleaned, stably sorted by
/// lowercase name.
pub open spec fn deduped_sorted(s: Seq<ProgramRow>) -> Seq<ProgramRow> {
    sorted_by_name(kept_rows(s))
}

fn cleaned_item(x: &InstalledProgramItem, name: String, publisher: String) -> (r: InstalledProgramItem)
    requires
        name@ == trim(x.name@),
        publisher@ == trim(x.publisher@),
    ensures
        r@ == cleaned(x@),
{
    InstalledProgramItem {
        name,
        publisher,
        install_date: normalize_install_date(x.install_date.as_str()),
    }
}

/// Some row with a name among the first `i` has key `k`.
pub open spec fn key_from_earlier(s: Seq<ProgramRow>, i: int, k: Seq<char>) -> bool {
    exists|j: int| 0 <= j < i && #[trigger] has_name(s[j]) && dedupe_key(s[j]) == k
}

/// `seen` holds exactly the keys of the rows with a name among the first `i`.
pub open spec fn seen_ok(seen: Seq<Seq<char>>, s: Seq<ProgramRow>, i: int) -> bool {
    &&& forall|a: int| 0 <= a < seen.len() ==> key_from_earlier(s, i, #[trigger] seen[a])
    &&& forall|j: int| 0 <= j < i && #[trigger] has_name(s[j]) ==> seen.contains(dedupe_key(s[j]))
}

proof fn lemma_dup_iff_seen(seen: Seq<Seq<char>>, s: Seq<ProgramRow>, i: int)
    requires
        0 <= i < s.len(),
        seen_ok(seen, s, i),
    ensures
        seen.contains(dedupe_key(s[i])) <==> earlier_duplicate(s.take(i + 1), i),
{
    let t = s.take(i + 1);
    assert(t[i] == s[i]);
    if seen.contains(dedupe_key(s[i])) {
        let a = choose|a: int| 0 <= a < seen.len() && seen[a] == dedupe_key(s[i]);
        assert(key_from_earlier(s, i, seen[a]));
        let j = choose|j: int| 0 <= j < i && #[trigger] has_name(s[j]) && dedupe_key(s[j]) == seen[a];
        assert(t[j] == s[j]);
        assert(has_name(t[j]) && dedupe_key(t[j]) == dedupe_key(t[i]));
    }
    if earlier_duplicate(t, i) {
        let j = choose|j: int| 0 <= j < i && #[trigger] has_name(t[j]) && dedupe_key(t[j]) == dedupe_key(t[i]);
        assert(t[j] == s[j]);
        assert(has_name(s[j]));
        assert(seen.contains(dedupe_key(s[j])));
    }
}

proof fn lemma_key_from_earlier_grows(s: Seq<ProgramRow>, i: int, k: Seq<char>)
    requires
        key_from_earlier(s, i, k),
    ensures
        key_from_earlier(s, i + 1, k),
{
    let j = choose|j: int| 0 <= j < i && #[trigger] has_name(s[j]) && dedupe_key(s[j]) == k;
    assert(0 <= j < i + 1 && has_name(s[j]) && dedupe_key(s[j]) == k);
}

proof fn lemma_seen_keep(seen: Seq<Seq<char>>, s: Seq<ProgramRow>, i: int)
    requires
        0 <= i < s.len(),
        seen_ok(seen, s, i),
        has_name(s[i]) ==> seen.contains(dedupe_key(s[i])),
    ensures
        seen_ok(seen, s, i + 1),
{
    assert forall|a: int| 0 <= a < seen.len() implies key_from_earlier(s, i + 1, #[trigger] seen[a]) by {
        lemma_key_from_earlier_grows(s, i, seen[a]);
    }
}

proof fn lemma_seen_add(seen: Seq<Seq<char>>, s: Seq<ProgramRow>, i: int)
    requires
        0 <= i < s.len(),
        seen_ok(seen, s, i),
        has_name(s[i]),
    ensures
        seen_ok(seen.push(dedupe_key(s[i])), s, i + 1),
{
    let n = seen.push(dedupe_key(s[i]));
    assert forall|a: int| 0 <= a < n.len() implies key_from_earlier(s, i + 1, #[trigger] n[a]) by {
        if a < seen.len() {
            assert(n[a] == seen[a]);
            lemma_key_from_earlier_grows(s, i, seen[a]);
        } else {
            assert(n[a] == dedupe_key(s[i]));
            assert(has_name(s[i]));
        }
    }
    assert forall|j: int| 0 <= j < i + 1 && #[trigger] has_name(s[j]) implies n.contains(dedupe_key(s[j])) by {
        if j < i {
            assert(seen.contains(dedupe_key(s[j])));
            let a = choose|a: int| 0 <= a < seen.len() && seen[a] == dedupe_key(s[j]);
            assert(n[a] == seen[a]);
        } else {
            assert(n[seen.len() as int] == dedupe_key(s[j]));
        }
    }
}

fn contains_key(seen: &[Vec<char>], key: &[char]) -> (r: bool)
    ensures
        r == views_of(seen@).contains(key@),
{
    let mut a: usize = 0;
    while a < seen.len()
        invariant
            0 <= a <= seen@.len(),
            forall|b: int| 0 <= b < a ==> (#[trigger] seen@[b])@ != key@,
        decreases seen@.len() - a,
    {
        if chars_equal(seen[a].as_slice(), key) {
            assert(views_of(seen@)[a as int] == key@);
            return true;
        }
        a += 1;
    }
    assert forall|b: int| 0 <= b < views_of(seen@).len() implies views_of(seen@)[b] != key@ by {
        assert(views_of(seen@)[b] == seen@[b]@);
    }
    false
}

fn dedupe_key_of(item: &InstalledProgramItem, nn: &[char], pub_t: &str) -> (r: Vec<char>)
    requires
        nn@ == norm_name(item@),
        pub_t@ == trim(item.publisher@),
    ensures
        r@ == dedupe_key(item@),
{
    let np = lower_chars(pub_t);
    let mut key: Vec<char> = Vec::new();
    extend_chars(&mut key, nn);
    key.push('|');
    extend_chars(&mut key, np.as_slice());
    proof {
        reveal_strlit("|");
        assert(key@ =~= dedupe_key(item@));
    }
    key
}

/// Drops rows without a name and later duplicates, cleans the rest and sorts
/// them by lowercase name.
pub fn dedupe_and_sort(items: Vec<InstalledProgramItem>) -> (r: Vec<InstalledProgramItem>)
    ensures
        program_rows(r@) == deduped_sorted(program_rows(items@)),
{
    let ghost s = program_rows(items@);
    let mut seen: Vec<Vec<char>> = Vec::new();
    let mut deduped: Vec<InstalledProgramItem> = Vec::new();
    let mut i: usize = 0;
    while i < items.len()
        invariant
            s == program_rows(items@),
            0 <= i <= items@.len(),
            program_rows(deduped@) == kept_rows(s.take(i as int)),
            seen_ok(views_of(seen@), s, i as int),
        decreases items@.len() - i,
    {
        let item = &items[i];
        assert(s[i as int] == item@);
        let name_t = trim_str(item.name.as_str());
        let nn = lower_chars(name_t.as_str());
        assert(s.take(i + 1).drop_last() =~= s.take(i as int));
        assert(s.take(i + 1)[i as int] == s[i as int]);
        if nn.len() == 0 {
            proof {
                lemma_seen_keep(views_of(seen@), s, i as int);
            }
            i += 1;
            continue;
        }
        let pub_t = trim_str(item.publisher.as_str());
        let key = dedupe_key_of(item, nn.as_slice(), pub_t.as_str());
        let found = contains_key(seen.as_slice(), key.as_slice());
        proof {
            lemma_dup_iff_seen(views_of(seen@), s, i as int);
        }
        if !found {
            proof {
                lemma_seen_add(views_of(seen@), s, i as int);
                crate::text::lemma_views_push(seen@, key);
            }
            seen.push(key);
            let ghost prev = deduped@;
            deduped.push(cleaned_item(item, name_t, pub_t));
            assert(program_rows(deduped@) =~= program_rows(prev).push(cleaned(s[i as int])));
        } else {
            proof {
                lemma_seen_keep(views_of(seen@), s, i as int);
            }
        }
        i += 1;
    }
    assert(s.take(items@.len() as int) =~= s);
    sort_by_name(deduped)
}


// ---------------------------------------------------------------------------
// Registry uninstall entries and AppX packages
// ---------------------------------------------------------------------------

/// Release types of Windows updates, which are not listed as programs.
pub open spec fn update_release_type(release_type: Seq<char>) -> bool {
    let l = unicode_lowercase(release_type);
    l == "hotfix"@ || l == "security update"@ || l == "update rollup"@ || l == "service pack"@
}

/// Whether an uninstall entry with this `ReleaseType` is a Windows update.
pub fn is_update_entry(release_type: &str) -> (r: bool)
    ensures
        r == update_release_type(release_type@),
{
    let l = to_lowercase(release_type);
    l == String::from_str("hotfix") || l == String::from_str("security update") || l
        == String::from_str("update rollup") || l == String::from_str("service pack")
}

pub open spec fn or_empty(o: Option<String>) -> Seq<char> {
    match o {
        Some(s) => s@,
        None => seq![],
    }
}

/// The program listed for an uninstall registry key, if any: system
/// components, child entries of another product, nameless entries and
/// Windows updates are left out.
pub open spec fn uninstall_entry_row(
    system_component: Option<u32>,
    has_parent_key: bool,
    display_name: Option<String>,
    release_type: Option<String>,
    publisher: Option<String>,
    install_date: Option<String>,
) -> Option<ProgramRow> {
    if system_component == Some(1u32) || has_parent_key {
        None
    } else if trim(or_empty(display_name)).len() == 0 || update_release_type(or_empty(release_type)) {
        None
    } else {
        Some(
            ProgramRow {
                name: or_empty(display_name),
                publisher: or_empty(publisher),
                install_date: or_empty(install_date),
            },
        )
    }
}

fn unwrap_or_empty(o: Option<String>) -> (r: String)
    ensures
        r@ == or_empty(o),
{
    match o {
        Some(s) => s,
        None => {
            let r = String::new();
            assert(r@ =~= Seq::<char>::empty());
            r
        },
    }
}

/// The program for one uninstall key, from the values read under it.
pub fn uninstall_entry_item(
    system_component: Option<u32>,
    has_parent_key: bool,
    display_name: Option<String>,
    release_type: Option<String>,
    publisher: Option<String>,
    install_date: Option<String>,
) -> (r: Option<InstalledProgramItem>)
    ensures
        match r {
            Some(it) => uninstall_entry_row(
                system_component,
                has_parent_key,
                display_name,
                release_type,
                publisher,
                install_date,
            ) == Some(it@),
            None => uninstall_entry_row(
                system_component,
                has_parent_key,
                display_name,
                release_type,
                publisher,
                install_date,
            ) is None,
        },
{
    let ghost spec_r = uninstall_entry_row(
        system_component,
        has_parent_key,
        display_name,
        release_type,
        publisher,
        install_date,
    );
    let sc = match system_component {
        Some(v) => v,
        None => 0,
    };
    if sc == 1 || has_parent_key {
        return None;
    }
    let name = unwrap_or_empty(display_name);
    let trimmed = trim_str(name.as_str());
    if trimmed.as_str().unicode_len() == 0 {
        return None;
    }
    let rt = unwrap_or_empty(release_type);
    if is_update_entry(rt.as_str()) {
        return None;
    }
    let p = unwrap_or_empty(publisher);
    let d = unwrap_or_empty(install_date);
    Some(InstalledProgramItem::new(name.as_str(), p.as_str(), d.as_str()))
}

/// One package as listed by the AppX query.
#[derive(Debug, Clone)]
pub struct AppxPackageJson {
    pub name: Option<String>,
    pub publisher: Option<String>,
    pub install_date: Option<String>,
}

/// The rows for the AppX packages that are shown, in order.
pub open spec fn appx_rows(packages: Seq<AppxPackageJson>) -> Seq<ProgramRow>
    decreases packages.len(),
{
    if packages.len() == 0 {
        seq![]
    } else {
        let r = appx_rows(packages.drop_last());
        let p = packages.last();
        if skip_appx_name(or_empty(p.name)) {
            r
        } else {
            r.push(
                ProgramRow {
                    name: or_empty(p.name),
                    publisher: normalized_appx_publisher(or_empty(p.publisher)),
                    install_date: or_empty(p.install_date),
                },
            )
        }
    }
}

/// The programs for the parsed AppX packages.
pub fn appx_program_items(packages: Vec<AppxPackageJson>) -> (r: Vec<InstalledProgramItem>)
    ensures
        program_rows(r@) == appx_rows(packages@),
{
    let mut r: Vec<InstalledProgramItem> = Vec::new();
    let mut i: usize = 0;
    while i < packages.len()
        invariant
            0 <= i <= packages@.len(),
            program_rows(r@) == appx_rows(packages@.take(i as int)),
        decreases packages@.len() - i,
    {
        let p = &packages[i];
        assert(packages@.take(i + 1).drop_last() =~= packages@.take(i as int));
        assert(packages@.take(i + 1).last() == *p);
        let name = unwrap_or_empty(p.name.clone());
        if !should_skip_appx_name(name.as_str()) {
            let publisher = unwrap_or_empty(p.publisher.clone());
            let date = unwrap_or_empty(p.install_date.clone());
            let np = normalize_appx_publisher(publisher.as_str());
            let ghost prev = r@;
            r.push(InstalledProgramItem::new(name.as_str(), np.as_str(), date.as_str()));
            assert(program_rows(r@) =~= program_rows(prev).push(
                ProgramRow {
                    name: or_empty(p.name),
                    publisher: normalized_appx_publisher(or_empty(p.publisher)),
                    install_date: or_empty(p.install_date),
                },
            ));
        }
        i += 1;
    }
    assert(packages@.take(packages@.len() as int) =~= packages@);
    r
}

/// What the AppX PowerShell query produced.
#[derive(Debug)]
pub enum AppxQuery {
    /// The query failed; the text says why.
    Failed(String),
    /// The query listed no package.
    Empty,
    /// JSON text to parse.
    Json(String),
}

pub enum AppxQueryView {
    Failed(Seq<char>),
    Empty,
    Json(Seq<char>),
}

impl View for AppxQuery {
    type V = AppxQueryView;

    open spec fn view(&self) -> AppxQueryView {
        match self {
            AppxQuery::Failed(m) => AppxQueryView::Failed(m@),
            AppxQuery::Empty => AppxQueryView::Empty,
            AppxQuery::Json(j) => AppxQueryView::Json(j@),
        }
    }
}

pub open spec fn appx_query_of(success: bool, stdout: Seq<char>, stderr: Seq<char>) -> AppxQueryView {
    if !success {
        AppxQueryView::Failed(
            if trim(stderr).len() > 0 {
                trim(stderr)
            } else {
                "PowerShell 실행 실패"@
            },
        )
    } else if trim(stdout).len() == 0 {
        AppxQueryView::Empty
    } else {
        AppxQueryView::Json(trim(stdout))
    }
}

/// Classifies the run of the AppX query.
pub fn appx_query_outcome(result: &ProcessResult) -> (r: AppxQuery)
    ensures
        r@ == appx_query_of(result.success, result.stdout@, result.stderr@),
{
    if !result.success {
        let e = trim_str(result.stderr.as_str());
        if e.as_str().unicode_len() > 0 {
            return AppxQuery::Failed(e);
        }
        return AppxQuery::Failed(String::from_str("PowerShell 실행 실패"));
    }
    let o = trim_str(result.stdout.as_str());
    if o.as_str().unicode_len() == 0 {
        AppxQuery::Empty
    } else {
        AppxQuery::Json(o)
    }
}

pub open spec fn collected_rows(win32: Seq<ProgramRow>, appx: Result<Seq<ProgramRow>, Seq<char>>) -> Seq<ProgramRow> {
    match appx {
        Ok(a) => win32 + a,
        Err(_) => win32,
    }
}

pub open spec fn collected_warnings(appx: Result<Seq<ProgramRow>, Seq<char>>) -> Seq<Seq<char>> {
    match appx {
        Ok(_) => seq![],
        Err(e) => seq!["AppX 프로그램 목록 수집 실패: "@ + e],
    }
}

pub open spec fn appx_view(a: Result<Vec<InstalledProgramItem>, String>) -> Result<Seq<ProgramRow>, Seq<char>> {
    match a {
        Ok(v) => Ok(program_rows(v@)),
        Err(e) => Err(e@),
    }
}

/// The programs from the registry and from AppX, without duplicates and
/// sorted by name, with a warning when the AppX query failed.
pub fn collect_installed_programs(
    win32_items: Vec<InstalledProgramItem>,
    appx: Result<Vec<InstalledProgramItem>, String>,
) -> (r: InstalledProgramsOutput)
    ensures
        program_rows(r.items@) == deduped_sorted(
            collected_rows(program_rows(win32_items@), appx_view(appx)),
        ),
        r.warnings@.map_values(|w: String| w@) == collected_warnings(appx_view(appx)),
{
    let ghost av = appx_view(appx);
    let mut items = win32_items;
    let ghost w = program_rows(items@);
    let mut warnings: Vec<String> = Vec::new();
    match appx {
        Ok(list) => {
            let mut list = list;
            let ghost l = program_rows(list@);
            items.append(&mut list);
            assert(program_rows(items@) =~= w + l);
        },
        Err(error) => {
            warnings.push(cat("AppX 프로그램 목록 수집 실패: ", error.as_str()));
        },
    }
    assert(warnings@.map_values(|w: String| w@) =~= collected_warnings(av));
    InstalledProgramsOutput { items: dedupe_and_sort(items), warnings }
}

} // verus!

verus! {

// ---------------------------------------------------------------------------
// Laws of the program list
// ---------------------------------------------------------------------------

/// Rows in ascending order of lowercase name.
pub open spec fn is_sorted_by_name(t: Seq<ProgramRow>) -> bool {
    forall|i: int, j: int| #![trigger t[i], t[j]] 0 <= i < j < t.len() ==> lex_le(name_key(t[i]), name_key(t[j]))
}

/// No two rows share name and publisher (trimmed, in lowercase).
pub open spec fn has_distinct_keys(t: Seq<ProgramRow>) -> bool {
    forall|i: int, j: int| #![trigger t[i], t[j]] 0 <= i < j < t.len() ==> dedupe_key(t[i]) != dedupe_key(t[j])
}

proof fn lemma_lex_reflexive(a: Seq<char>)
    ensures
        lex_le(a, a),
    decreases a.len(),
{
    if a.len() > 0 {
        lemma_lex_reflexive(a.drop_first());
    }
}

proof fn lemma_lex_total(a: Seq<char>, b: Seq<char>)
    ensures
        lex_le(a, b) || lex_le(b, a),
    decreases a.len(),
{
    if a.len() > 0 && b.len() > 0 && a[0] == b[0] {
        lemma_lex_total(a.drop_first(), b.drop_first());
    }
}

proof fn lemma_lex_transitive(a: Seq<char>, b: Seq<char>, c: Seq<char>)
    requires
        lex_le(a, b),
        lex_le(b, c),
    ensures
        lex_le(a, c),
    decreases a.len(),
{
    if a.len() > 0 && b.len() > 0 && c.len() > 0 && a[0] == b[0] && b[0] == c[0] {
        lemma_lex_transitive(a.drop_first(), b.drop_first(), c.drop_first());
    }
}

proof fn lemma_le_prefix_split(s: Seq<ProgramRow>, k: Seq<char>)
    ensures
        le_prefix(s, k) <= s.len(),
        forall|j: int| 0 <= j < le_prefix(s, k) ==> lex_le(name_key(#[trigger] s[j]), k),
        le_prefix(s, k) < s.len() ==> !lex_le(name_key(s[le_prefix(s, k) as int]), k),
    decreases s.len(),
{
    if s.len() > 0 && lex_le(name_key(s[0]), k) {
        let t = s.drop_first();
        lemma_le_prefix_split(t, k);
        assert forall|j: int| 0 <= j < le_prefix(s, k) implies lex_le(name_key(#[trigger] s[j]), k) by {
            if j > 0 {
                assert(s[j] == t[j - 1]);
            }
        }
        if le_prefix(s, k) < s.len() {
            assert(s[le_prefix(s, k) as int] == t[le_prefix(t, k) as int]);
        }
    }
}

proof fn lemma_insert_by_name_index(s: Seq<ProgramRow>, x: ProgramRow)
    ensures
        insert_by_name(s, x) == s.insert(le_prefix(s, name_key(x)) as int, x),
        insert_by_name(s, x).len() == s.len() + 1,
        ({
            let p = le_prefix(s, name_key(x)) as int;
            let t = insert_by_name(s, x);
            &&& t[p] == x
            &&& forall|m: int| 0 <= m < p ==> #[trigger] t[m] == s[m]
            &&& forall|m: int| p < m < t.len() ==> #[trigger] t[m] == s[m - 1]
        }),
{
    lemma_le_prefix_split(s, name_key(x));
    let p = le_prefix(s, name_key(x)) as int;
    let t = insert_by_name(s, x);
    assert(t =~= s.insert(p, x));
    assert(t[p] == x);
    assert forall|m: int| 0 <= m < p implies #[trigger] t[m] == s[m] by {
        assert(s.take(p).push(x)[m] == s[m]);
    }
    assert forall|m: int| p < m < t.len() implies #[trigger] t[m] == s[m - 1] by {
        assert(t[m] == s.skip(p)[m - p - 1]);
    }
}

proof fn lemma_insert_keeps_sorted(s: Seq<ProgramRow>, x: ProgramRow)
    requires
        is_sorted_by_name(s),
    ensures
        is_sorted_by_name(insert_by_name(s, x)),
{
    let kx = name_key(x);
    lemma_le_prefix_split(s, kx);
    lemma_insert_by_name_index(s, x);
    let p = le_prefix(s, kx) as int;
    let t = insert_by_name(s, x);
    assert forall|i: int, j: int| #![trigger t[i], t[j]] 0 <= i < j < t.len() implies lex_le(
        name_key(t[i]),
        name_key(t[j]),
    ) by {
        if j < p {
            assert(t[i] == s[i] && t[j] == s[j]);
        } else if j == p {
            assert(t[i] == s[i]);
        } else if i < p {
            assert(t[i] == s[i] && t[j] == s[j - 1]);
        } else if i == p {
            assert(t[j] == s[j - 1]);
            assert(p < s.len());
            lemma_lex_total(name_key(s[p]), kx);
            if j - 1 > p {
                assert(lex_le(name_key(s[p]), name_key(s[j - 1])));
                lemma_lex_transitive(kx, name_key(s[p]), name_key(s[j - 1]));
            }
        } else {
            assert(t[i] == s[i - 1] && t[j] == s[j - 1]);
        }
    }
}

/// The rows that `sort_by_name` gives are in ascending order of lowercase
/// name.
pub proof fn law_sorted_rows_are_in_name_order(s: Seq<ProgramRow>)
    ensures
        is_sorted_by_name(sorted_by_name(s)),
    decreases s.len(),
{
    if s.len() > 0 {
        law_sorted_rows_are_in_name_order(s.drop_last());
        lemma_insert_keeps_sorted(sorted_by_name(s.drop_last()), s.last());
    }
}

/// Sorting keeps every row, as often as it occurs.
pub proof fn law_sorting_keeps_every_row(s: Seq<ProgramRow>)
    ensures
        sorted_by_name(s).to_multiset() == s.to_multiset(),
    decreases s.len(),
{
    broadcast use vstd::seq_lib::group_to_multiset_ensures;

    if s.len() > 0 {
        let u = s.drop_last();
        let t = sorted_by_name(u);
        law_sorting_keeps_every_row(u);
        lemma_insert_by_name_index(t, s.last());
        let p = le_prefix(t, name_key(s.last())) as int;
        lemma_le_prefix_split(t, name_key(s.last()));
        assert(sorted_by_name(s) == insert_by_name(t, s.last()));
        assert(t.insert(p, s.last()).to_multiset() == t.to_multiset().insert(s.last()));
        assert(s =~= u.push(s.last()));
        assert(u.push(s.last()).to_multiset() =~= u.to_multiset().insert(s.last()));
    }
}

} // verus!

verus! {

proof fn lemma_cleaned_key(r: ProgramRow)
    ensures
        dedupe_key(cleaned(r)) == dedupe_key(r),
        has_name(cleaned(r)) == has_name(r),
{
    lemma_trim_idempotent(r.name);
    lemma_trim_idempotent(r.publisher);
}

proof fn lemma_kept_rows(s: Seq<ProgramRow>)
    ensures
        forall|k: int| #![trigger kept_rows(s)[k]] 0 <= k < kept_rows(s).len() ==> exists|j: int| 0 <= j < s.len() && #[trigger] has_name(s[j])
            && dedupe_key(kept_rows(s)[k]) == dedupe_key(s[j]),
        has_distinct_keys(kept_rows(s)),
        forall|i: int| 0 <= i < s.len() && #[trigger] has_name(s[i]) ==> exists|k: int| 0 <= k < kept_rows(s).len()
            && dedupe_key(#[trigger] kept_rows(s)[k]) == dedupe_key(s[i]),
    decreases s.len(),
{
    if s.len() > 0 {
        let u = s.drop_last();
        let i = s.len() - 1;
        lemma_kept_rows(u);
        let r = kept_rows(u);
        let kept = kept_rows(s);
        lemma_cleaned_key(s[i]);
        assert forall|j: int| 0 <= j < u.len() implies u[j] == s[j] by {}
        if has_name(s[i]) && !earlier_duplicate(s, i) {
            let x = cleaned(s[i]);
            assert(kept == r.push(x));
            assert forall|k: int| #![trigger kept[k]] 0 <= k < kept.len() implies exists|j: int| 0 <= j < s.len() && #[trigger] has_name(s[j])
                && dedupe_key(kept[k]) == dedupe_key(s[j]) by {
                if k < r.len() {
                    assert(kept[k] == r[k]);
                    let j = choose|j: int| 0 <= j < u.len() && #[trigger] has_name(u[j]) && dedupe_key(r[k]) == dedupe_key(u[j]);
                    assert(u[j] == s[j]);
                } else {
                    assert(kept[k] == x);
                    assert(has_name(s[i]));
                }
            }
            assert forall|a: int, b: int| #![trigger kept[a], kept[b]] 0 <= a < b < kept.len() implies dedupe_key(kept[a]) != dedupe_key(kept[b]) by {
                if b < r.len() {
                    assert(kept[a] == r[a] && kept[b] == r[b]);
                } else {
                    assert(kept[a] == r[a] && kept[b] == x);
                    let j = choose|j: int| 0 <= j < u.len() && #[trigger] has_name(u[j]) && dedupe_key(r[a]) == dedupe_key(u[j]);
                    assert(u[j] == s[j]);
                    if dedupe_key(kept[a]) == dedupe_key(kept[b]) {
                        assert(0 <= j < i && has_name(s[j]) && dedupe_key(s[j]) == dedupe_key(s[i]));
                        assert(earlier_duplicate(s, i));
                    }
                }
            }
            assert forall|m: int| 0 <= m < s.len() && #[trigger] has_name(s[m]) implies exists|k: int| 0 <= k < kept.len()
                && dedupe_key(#[trigger] kept[k]) == dedupe_key(s[m]) by {
                if m < i {
                    assert(has_name(u[m]));
                    let k = choose|k: int| 0 <= k < r.len() && dedupe_key(#[trigger] r[k]) == dedupe_key(u[m]);
                    assert(kept[k] == r[k]);
                } else {
                    assert(kept[r.len() as int] == x);
                }
            }
        } else {
            assert(kept == r);
            assert forall|k: int| #![trigger kept[k]] 0 <= k < kept.len() implies exists|j: int| 0 <= j < s.len() && #[trigger] has_name(s[j])
                && dedupe_key(kept[k]) == dedupe_key(s[j]) by {
                let j = choose|j: int| 0 <= j < u.len() && #[trigger] has_name(u[j]) && dedupe_key(r[k]) == dedupe_key(u[j]);
                assert(u[j] == s[j]);
            }
            assert forall|m: int| 0 <= m < s.len() && #[trigger] has_name(s[m]) implies exists|k: int| 0 <= k < kept.len()
                && dedupe_key(#[trigger] kept[k]) == dedupe_key(s[m]) by {
                let mm = if m < i {
                    m
                } else {
                    choose|j: int| 0 <= j < i && #[trigger] has_name(s[j]) && dedupe_key(s[j]) == dedupe_key(s[i])
                };
                assert(0 <= mm < i && has_name(s[mm]) && dedupe_key(s[mm]) == dedupe_key(s[m]));
                assert(has_name(u[mm]));
                let k = choose|k: int| 0 <= k < r.len() && dedupe_key(#[trigger] r[k]) == dedupe_key(u[mm]);
            }
        }
    }
}

proof fn lemma_insert_keeps_distinct(s: Seq<ProgramRow>, x: ProgramRow)
    requires
        has_distinct_keys(s),
        forall|m: int| 0 <= m < s.len() ==> dedupe_key(#[trigger] s[m]) != dedupe_key(x),
    ensures
        has_distinct_keys(insert_by_name(s, x)),
{
    lemma_le_prefix_split(s, name_key(x));
    lemma_insert_by_name_index(s, x);
    let p = le_prefix(s, name_key(x)) as int;
    let t = insert_by_name(s, x);
    assert forall|i: int, j: int| #![trigger t[i], t[j]] 0 <= i < j < t.len() implies dedupe_key(t[i]) != dedupe_key(t[j]) by {
        if j < p {
            assert(t[i] == s[i] && t[j] == s[j]);
            assert(dedupe_key(s[i]) != dedupe_key(s[j]));
        } else if j == p {
            assert(t[i] == s[i]);
            assert(t[j] == x);
            assert(dedupe_key(s[i]) != dedupe_key(x));
        } else if i < p {
            assert(t[i] == s[i] && t[j] == s[j - 1]);
            assert(dedupe_key(s[i]) != dedupe_key(s[j - 1]));
        } else if i == p {
            assert(t[j] == s[j - 1]);
            assert(t[i] == x);
            assert(dedupe_key(s[j - 1]) != dedupe_key(x));
        } else {
            assert(t[i] == s[i - 1] && t[j] == s[j - 1]);
            assert(dedupe_key(s[i - 1]) != dedupe_key(s[j - 1]));
        }
    }
}

proof fn lemma_sorting_keeps_distinct(u: Seq<ProgramRow>)
    requires
        has_distinct_keys(u),
    ensures
        has_distinct_keys(sorted_by_name(u)),
    decreases u.len(),
{
    broadcast use vstd::seq_lib::group_to_multiset_ensures;

    if u.len() > 0 {
        let w = u.drop_last();
        let x = u.last();
        assert forall|i: int, j: int| #![trigger w[i], w[j]] 0 <= i < j < w.len() implies dedupe_key(w[i]) != dedupe_key(w[j]) by {
            assert(w[i] == u[i] && w[j] == u[j]);
        }
        lemma_sorting_keeps_distinct(w);
        let t = sorted_by_name(w);
        law_sorting_keeps_every_row(w);
        assert forall|m: int| 0 <= m < t.len() implies dedupe_key(#[trigger] t[m]) != dedupe_key(x) by {
            assert(t.contains(t[m]));
            assert(t.to_multiset().count(t[m]) > 0);
            assert(w.contains(t[m]));
            let j = choose|j: int| 0 <= j < w.len() && w[j] == t[m];
            assert(u[j] == w[j]);
            assert(u[u.len() - 1] == x);
        }
        lemma_insert_keeps_distinct(t, x);
    }
}

/// The program list keeps one row per name and publisher: its rows are in
/// ascending order of lowercase name, no two share name and publisher
/// (trimmed, in lowercase), and every row with a name is represented by a
/// row with the same name and publisher.
pub proof fn law_program_list_is_deduplicated_and_sorted(s: Seq<ProgramRow>)
    ensures
        is_sorted_by_name(deduped_sorted(s)),
        has_distinct_keys(deduped_sorted(s)),
        forall|i: int| 0 <= i < s.len() && #[trigger] has_name(s[i]) ==> exists|k: int| 0 <= k < deduped_sorted(s).len()
            && dedupe_key(#[trigger] deduped_sorted(s)[k]) == dedupe_key(s[i]),
{
    broadcast use vstd::seq_lib::group_to_multiset_ensures;

    let kept = kept_rows(s);
    let out = deduped_sorted(s);
    lemma_kept_rows(s);
    law_sorted_rows_are_in_name_order(kept);
    lemma_sorting_keeps_distinct(kept);
    law_sorting_keeps_every_row(kept);
    assert forall|i: int| 0 <= i < s.len() && #[trigger] has_name(s[i]) implies exists|k: int| 0 <= k < out.len()
        && dedupe_key(#[trigger] out[k]) == dedupe_key(s[i]) by {
        let k = choose|k: int| 0 <= k < kept.len() && dedupe_key(#[trigger] kept[k]) == dedupe_key(s[i]);
        assert(kept.contains(kept[k]));
        assert(kept.to_multiset().count(kept[k]) > 0);
        assert(out.contains(kept[k]));
        let m = choose|m: int| 0 <= m < out.len() && out[m] == kept[k];
        assert(dedupe_key(out[m]) == dedupe_key(s[i]));
    }
}


/// The program list runs in ascending order of the names in lowercase (as
/// `str::to_lowercase` gives them), compared character by character; a
/// name's capital letters do not put it ahead of lowercase names.
pub proof fn law_programs_listed_by_lowercase_name(s: Seq<ProgramRow>)
    ensures
        forall|i: int, j: int|
            0 <= i < j < sorted_by_name(s).len() ==> lex_le(
                unicode_lowercase(#[trigger] sorted_by_name(s)[i].name),
                unicode_lowercase(#[trigger] sorted_by_name(s)[j].name),
            ),
        forall|i: int, j: int|
            0 <= i < j < deduped_sorted(s).len() ==> lex_le(
                unicode_lowercase(#[trigger] deduped_sorted(s)[i].name),
                unicode_lowercase(#[trigger] deduped_sorted(s)[j].name),
            ),
{
    law_sorted_rows_are_in_name_order(s);
    law_program_list_is_deduplicated_and_sorted(s);
    let t = sorted_by_name(s);
    let u = deduped_sorted(s);
    assert forall|i: int, j: int| 0 <= i < j < t.len() implies lex_le(
        unicode_lowercase(#[trigger] t[i].name),
        unicode_lowercase(#[trigger] t[j].name),
    ) by {
        assert(lex_le(name_key(t[i]), name_key(t[j])));
    }
    assert forall|i: int, j: int| 0 <= i < j < u.len() implies lex_le(
        unicode_lowercase(#[trigger] u[i].name),
        unicode_lowercase(#[trigger] u[j].name),
    ) by {
        assert(lex_le(name_key(u[i]), name_key(u[j])));
    }
}
} // verus!
