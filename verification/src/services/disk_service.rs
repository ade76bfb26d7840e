//! Telling SSDs from HDDs.
use vstd::prelude::*;
use crate::text::{chars_of, contains, contains_seq, to_uppercase, unicode_uppercase};

verus! {

/// Kind of a disk drive.
#[derive(Debug, Clone, Copy, PartialEq, Eq, Structural)]
pub enum DiskType {
    SsdNvme,
    Ssd,
    Hdd,
    Usb,
    Unknown,
}

pub open spec fn disk_type_text(t: DiskType) -> Seq<char> {
    match t {
        DiskType::SsdNvme => "SSD (NVMe)"@,
        DiskType::Ssd => "SSD"@,
        DiskType::Hdd => "HDD"@,
        DiskType::Usb => "USB 저장장치"@,
        DiskType::Unknown => "알 수 없음"@,
    }
}

impl DiskType {
    /// The text shown for the kind.
    pub fn to_string(&self) -> (r: String)
        ensures
            r@ == disk_type_text(*self),
    {
        match self {
            DiskType::SsdNvme => String::from_str("SSD (NVMe)"),
            DiskType::Ssd => String::from_str("SSD"),
            DiskType::Hdd => String::from_str("HDD"),
            DiskType::Usb => String::from_str("USB 저장장치"),
            DiskType::Unknown => String::from_str("알 수 없음"),
        }
    }
}

/// `MSFT_PhysicalDisk.MediaType` (3: HDD, 4: SSD) and `BusType` (17: NVMe).
pub open spec fn media_disk_type(media_type: u16, bus_type: Option<u16>) -> DiskType {
    if media_type == 4 {
        if bus_type == Some(17u16) {
            DiskType::SsdNvme
        } else {
            DiskType::Ssd
        }
    } else if media_type == 3 {
        DiskType::Hdd
    } else {
        DiskType::Unknown
    }
}

pub fn media_type_to_disk_type(media_type: u16, bus_type: Option<u16>) -> (r: DiskType)
    ensures
        r == media_disk_type(media_type, bus_type),
{
    match media_type {
        4 => {
            if bus_type == Some(17u16) {
                DiskType::SsdNvme
            } else {
                DiskType::Ssd
            }
        },
        3 => DiskType::Hdd,
        _ => DiskType::Unknown,
    }
}

pub open spec fn nvme_keywords() -> Seq<Seq<char>> {
    seq!["NVME"@, "PCIE"@, "980"@, "970"@, "960"@, "SN"@]
}

pub open spec fn ssd_keywords() -> Seq<Seq<char>> {
    seq![
        "SSD"@,
        "SOLID STATE"@,
        "M.2"@,
        "MSATA"@,
        "FLASH"@,
        "NAND"@,
        "EVO"@,
        "PRO"@,
        "MX"@,
        "BX"@,
        "SHGS"@,
    ]
}

pub open spec fn hdd_keywords() -> Seq<Seq<char>> {
    seq!["HDD"@, "HARDDISK"@, "7200"@, "5400"@, "RPM"@, "WD BLUE"@, "BARRACUDA"@]
}

/// Some keyword occurs in `s`.
pub open spec fn mentions_any(s: Seq<char>, keywords: Seq<Seq<char>>) -> bool {
    exists|i: int| 0 <= i < keywords.len() && contains_seq(s, #[trigger] keywords[i])
}

/// The kind suggested by keywords in the uppercased model name, NVMe first,
/// then SSD, then HDD.
pub open spec fn model_disk_type(model: Seq<char>) -> DiskType {
    let u = unicode_uppercase(model);
    if mentions_any(u, nvme_keywords()) {
        DiskType::SsdNvme
    } else if mentions_any(u, ssd_keywords()) {
        DiskType::Ssd
    } else if mentions_any(u, hdd_keywords()) {
        DiskType::Hdd
    } else {
        DiskType::Unknown
    }
}

fn mentions_any_of(s: &[char], keywords: &Vec<&'static str>) -> (r: bool)
    ensures
        r == mentions_any(s@, keywords@.map_values(|k: &'static str| k@)),
{
    let ghost ks = keywords@.map_values(|k: &'static str| k@);
    let mut i: usize = 0;
    while i < keywords.len()
        invariant
            ks == keywords@.map_values(|k: &'static str| k@),
            0 <= i <= keywords@.len(),
            forall|j: int| 0 <= j < i ==> !contains_seq(s@, #[trigger] ks[j]),
        decreases keywords@.len() - i,
    {
        let k = chars_of(keywords[i]);
        assert(ks[i as int] == keywords@[i as int]@);
        if contains(s, k.as_slice()) {
            return true;
        }
        i += 1;
    }
    false
}

/// Kind of a disk guessed from its model name.
pub fn detect_from_model_name(model: &str) -> (r: DiskType)
    ensures
        r == model_disk_type(model@),
{
    let upper = to_uppercase(model);
    let u = chars_of(upper.as_str());
    let nvme: Vec<&'static str> = vec!["NVME", "PCIE", "980", "970", "960", "SN"];
    assert(nvme@.map_values(|k: &'static str| k@) =~= nvme_keywords());
    let ssd: Vec<&'static str> = vec![
        "SSD",
        "SOLID STATE",
        "M.2",
        "MSATA",
        "FLASH",
        "NAND",
        "EVO",
        "PRO",
        "MX",
        "BX",
        "SHGS",
    ];
    assert(ssd@.map_values(|k: &'static str| k@) =~= ssd_keywords());
    let hdd: Vec<&'static str> = vec!["HDD", "HARDDISK", "7200", "5400", "RPM", "WD BLUE", "BARRACUDA"];
    assert(hdd@.map_values(|k: &'static str| k@) =~= hdd_keywords());
    if mentions_any_of(u.as_slice(), &nvme) {
        return DiskType::SsdNvme;
    }
    if mentions_any_of(u.as_slice(), &ssd) {
        return DiskType::Ssd;
    }
    if mentions_any_of(u.as_slice(), &hdd) {
        return DiskType::Hdd;
    }
    DiskType::Unknown
}

} // verus!
