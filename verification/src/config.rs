//! The configuration records a scan or print request carries: plain data,
//! loaded elsewhere and handed in by value.

use vstd::prelude::*;

use crate::print::{ColorMode, MediaFormat, Orientation, PrintQuality, Sides};

verus! {

/// The chat front-end's credentials and audience.
#[derive(Clone, Debug)]
pub struct Telegram {
    pub token: String,
    pub allowed_users: Vec<String>,
}

impl Telegram {
    /// Whether a user may talk to the front-end: exactly the listed users
    /// are allowed.
    pub fn is_allowed(&self, user: &String) -> (r: bool)
        ensures
            r == exists|i: int|
                0 <= i < self.allowed_users@.len() && self.allowed_users@[i]@ == user@,
    {
        let mut i: usize = 0;
        while i < self.allowed_users.len()
            invariant
                i <= self.allowed_users@.len(),
                forall|j: int| 0 <= j < i ==> self.allowed_users@[j]@ != user@,
            decreases self.allowed_users@.len() - i,
        {
            if self.allowed_users[i] == *user {
                proof {
                    assert(0 <= i < self.allowed_users@.len() && self.allowed_users@[i as int]@
                        == user@);
                }
                return true;
            }
            i += 1;
        }
        false
    }
}

/// Which devices to use.
#[derive(Clone, Debug)]
pub struct Devices {
    pub printer: Option<String>,
    pub scanner: Option<String>,
}

/// The configured print settings; an unset field leaves the spooler's
/// default untouched.
#[derive(Clone, Copy, Debug)]
pub struct Print {
    pub paper_size: Option<MediaFormat>,
    pub orientation: Option<Orientation>,
    pub sides: Option<Sides>,
    pub color_mode: Option<ColorMode>,
    pub quality: Option<PrintQuality>,
}

/// The configured scan settings.
#[derive(Clone, Debug)]
pub struct Scan {
    /// The resolution of a preview scan.
    pub preview_dpi: u16,
    /// The resolution of a page scan.
    pub page_dpi: u16,
    /// The compression quality of a scanned page.
    pub page_quality: u8,
    /// Option overrides shared by every scanner.
    pub common_options: Vec<(String, String)>,
}

/// One scanner's own option overrides.
#[derive(Clone, Debug)]
pub struct ScannerOverrides {
    pub device: String,
    pub overrides: Vec<(String, String)>,
}

/// Everything a request needs.
#[derive(Clone, Debug)]
pub struct Config {
    pub telegram: Telegram,
    pub devices: Devices,
    pub print: Print,
    pub scan: Scan,
    pub scanner: Vec<ScannerOverrides>,
}

/// The overrides of the first entry for the given device, if any.
pub open spec fn spec_device_overrides(
    entries: Seq<ScannerOverrides>,
    device: Seq<char>,
) -> Option<Vec<(String, String)>>
    decreases entries.len(),
{
    if entries.len() == 0 {
        None
    } else if entries[0].device@ == device {
        Some(entries[0].overrides)
    } else {
        spec_device_overrides(entries.skip(1), device)
    }
}

/// If every device before `i` misses and the device at `i` hits, the
/// first match is at `i`.
proof fn lemma_device_overrides_hit(entries: Seq<ScannerOverrides>, device: Seq<char>, i: int)
    requires
        0 <= i < entries.len(),
        forall|j: int| 0 <= j < i ==> entries[j].device@ != device,
        entries[i].device@ == device,
    ensures
        spec_device_overrides(entries, device) == Some(entries[i].overrides),
    decreases i,
{
    if i > 0 {
        lemma_device_overrides_hit(entries.skip(1), device, i - 1);
    }
}

/// If no device matches, the lookup misses.
proof fn lemma_device_overrides_miss(entries: Seq<ScannerOverrides>, device: Seq<char>)
    requires
        forall|j: int| 0 <= j < entries.len() ==> entries[j].device@ != device,
    ensures
        spec_device_overrides(entries, device) is None,
    decreases entries.len(),
{
    if entries.len() > 0 {
        lemma_device_overrides_miss(entries.skip(1), device);
    }
}

impl Config {
    /// The option overrides configured for one device, or none.
    pub fn device_overrides(&self, device: &String) -> (r: Option<&Vec<(String, String)>>)
        ensures
            match r {
                Some(v) => {
                    &&& spec_device_overrides(self.scanner@, device@) matches Some(w)
                    &&& v@ == spec_device_overrides(self.scanner@, device@)->Some_0@
                },
                None => spec_device_overrides(self.scanner@, device@) is None,
            },
    {
        let mut i: usize = 0;
        while i < self.scanner.len()
            invariant
                i <= self.scanner@.len(),
                forall|j: int| 0 <= j < i ==> self.scanner@[j].device@ != device@,
            decreases self.scanner@.len() - i,
        {
            if self.scanner[i].device == *device {
                proof {
                    lemma_device_overrides_hit(self.scanner@, device@, i as int);
                }
                return Some(&self.scanner[i].overrides);
            }
            i += 1;
        }
        proof {
            lemma_device_overrides_miss(self.scanner@, device@);
        }
        None
    }
}

} // verus!
