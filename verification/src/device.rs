//! The scanning-backend boundary: status codes, frame formats, validated
//! page parameters, and the device catalogue.
//!
//! The backend reports raw integers (status codes, frame-format codes,
//! geometry counts). Everything that reads them is verified here; a value
//! outside the documented vocabulary is a protocol violation reported as an
//! error, never a panic.

use vstd::prelude::*;

verus! {

/// An error reported by the scanning backend.
#[derive(Clone, Copy, Debug, PartialEq, Eq, Structural)]
pub enum SaneError {
    Unsupported,
    Cancelled,
    DeviceBusy,
    Inval,
    EOF,
    Jammed,
    NoDocs,
    CoverOpen,
    IO,
    NoMem,
    AccessDenied,
}

/// Maps a backend status code to a result. Code 0 reports success; codes 1
/// through 11 report the error variants in order. Larger codes are outside
/// the backend's vocabulary and must be rejected by the caller beforehand.
pub fn from_status(status: u32) -> (r: Result<(), SaneError>)
    requires
        status <= 11,
    ensures
        r == spec_from_status(status),
{
    match status {
        0 => Ok(()),
        1 => Err(SaneError::Unsupported),
        2 => Err(SaneError::Cancelled),
        3 => Err(SaneError::DeviceBusy),
        4 => Err(SaneError::Inval),
        5 => Err(SaneError::EOF),
        6 => Err(SaneError::Jammed),
        7 => Err(SaneError::NoDocs),
        8 => Err(SaneError::CoverOpen),
        9 => Err(SaneError::IO),
        10 => Err(SaneError::NoMem),
        _ => Err(SaneError::AccessDenied),
    }
}

/// The status-to-result mapping, stated once so that callers can reason
/// about every code.
pub open spec fn spec_from_status(status: u32) -> Result<(), SaneError> {
    if status == 0 {
        Ok(())
    } else if status == 1 {
        Err(SaneError::Unsupported)
    } else if status == 2 {
        Err(SaneError::Cancelled)
    } else if status == 3 {
        Err(SaneError::DeviceBusy)
    } else if status == 4 {
        Err(SaneError::Inval)
    } else if status == 5 {
        Err(SaneError::EOF)
    } else if status == 6 {
        Err(SaneError::Jammed)
    } else if status == 7 {
        Err(SaneError::NoDocs)
    } else if status == 8 {
        Err(SaneError::CoverOpen)
    } else if status == 9 {
        Err(SaneError::IO)
    } else if status == 10 {
        Err(SaneError::NoMem)
    } else {
        Err(SaneError::AccessDenied)
    }
}

/// The colour-channel arrangement of one raster frame.
#[derive(Clone, Copy, Debug, PartialEq, Eq, Structural)]
pub enum FrameFormat {
    Gray,
    RGB,
    Red,
    Green,
    Blue,
}

impl FrameFormat {
    /// Decodes the backend's frame-format code. A code outside 0..=4 is a
    /// protocol violation and yields `None` instead of a panic.
    pub fn from_code(code: u32) -> (r: Option<FrameFormat>)
        ensures
            r == spec_frame_format_from_code(code),
    {
        match code {
            0 => Some(FrameFormat::Gray),
            1 => Some(FrameFormat::RGB),
            2 => Some(FrameFormat::Red),
            3 => Some(FrameFormat::Green),
            4 => Some(FrameFormat::Blue),
            _ => None,
        }
    }
}

/// The frame-format decoding, stated once for callers.
pub open spec fn spec_frame_format_from_code(code: u32) -> Option<FrameFormat> {
    if code == 0 {
        Some(FrameFormat::Gray)
    } else if code == 1 {
        Some(FrameFormat::RGB)
    } else if code == 2 {
        Some(FrameFormat::Red)
    } else if code == 3 {
        Some(FrameFormat::Green)
    } else if code == 4 {
        Some(FrameFormat::Blue)
    } else {
        None
    }
}

/// A way the device's report of the page geometry can break the protocol.
#[derive(Clone, Copy, Debug, PartialEq, Eq, Structural)]
pub enum ProtocolError {
    /// The frame-format code is outside the documented vocabulary.
    UnknownFrameFormat,
    /// The last-frame flag is neither 0 nor 1.
    BadLastFrameFlag,
    /// A geometry count (bytes per line, pixels per line, lines, depth)
    /// is zero or negative.
    NonPositiveGeometry,
    /// The declared page does not fit in memory on this machine.
    PageTooLarge,
}

/// The geometry of one page as declared by the device, already validated:
/// every count is strictly positive and the whole page fits in `usize`.
#[derive(Clone, Copy, Debug)]
pub struct Parameters {
    pub format: FrameFormat,
    pub last_frame: bool,
    pub bytes_per_line: usize,
    pub pixels_per_line: usize,
    pub lines: usize,
    pub depth: usize,
}

impl Parameters {
    /// The validity every constructed `Parameters` carries.
    pub open spec fn wf(self) -> bool {
        &&& self.bytes_per_line > 0
        &&& self.pixels_per_line > 0
        &&& self.lines > 0
        &&& self.depth > 0
        &&& self.bytes_per_line * self.lines <= usize::MAX
    }

    /// The total page size in bytes.
    pub open spec fn spec_page_size(self) -> int {
        self.bytes_per_line * self.lines
    }

    /// The total page size in bytes.
    pub fn page_size(&self) -> (r: usize)
        requires
            self.wf(),
        ensures
            r == self.spec_page_size(),
    {
        self.bytes_per_line * self.lines
    }

    /// Validates the raw geometry report of the device. The counts arrive
    /// as signed integers and the last-frame flag as an integer; a
    /// misbehaving device is an expected runtime condition, so every
    /// malformed report becomes an explicit error.
    pub fn from_device_report(
        format_code: u32,
        last_frame: i32,
        bytes_per_line: i32,
        pixels_per_line: i32,
        lines: i32,
        depth: i32,
    ) -> (r: Result<Parameters, ProtocolError>)
        ensures
            r == spec_parameters_from_report(
                format_code,
                last_frame,
                bytes_per_line,
                pixels_per_line,
                lines,
                depth,
            ),
            r matches Ok(p) ==> p.wf(),
    {
        let format = match FrameFormat::from_code(format_code) {
            Some(f) => f,
            None => {
                return Err(ProtocolError::UnknownFrameFormat);
            },
        };
        if !(last_frame == 0 || last_frame == 1) {
            return Err(ProtocolError::BadLastFrameFlag);
        }
        if bytes_per_line <= 0 || pixels_per_line <= 0 || lines <= 0 || depth <= 0 {
            return Err(ProtocolError::NonPositiveGeometry);
        }
        let bpl = bytes_per_line as usize;
        let n_lines = lines as usize;
        match bpl.checked_mul(n_lines) {
            Some(_) => Ok(Parameters {
                format,
                last_frame: last_frame == 1,
                bytes_per_line: bpl,
                pixels_per_line: pixels_per_line as usize,
                lines: n_lines,
                depth: depth as usize,
            }),
            None => Err(ProtocolError::PageTooLarge),
        }
    }
}

/// The validation of a raw geometry report, stated once for callers.
pub open spec fn spec_parameters_from_report(
    format_code: u32,
    last_frame: i32,
    bytes_per_line: i32,
    pixels_per_line: i32,
    lines: i32,
    depth: i32,
) -> Result<Parameters, ProtocolError> {
    if spec_frame_format_from_code(format_code) is None {
        Err(ProtocolError::UnknownFrameFormat)
    } else if last_frame != 0 && last_frame != 1 {
        Err(ProtocolError::BadLastFrameFlag)
    } else if bytes_per_line <= 0 || pixels_per_line <= 0 || lines <= 0 || depth <= 0 {
        Err(ProtocolError::NonPositiveGeometry)
    } else if bytes_per_line * lines > usize::MAX {
        Err(ProtocolError::PageTooLarge)
    } else {
        Ok(
            Parameters {
                format: spec_frame_format_from_code(format_code)->Some_0,
                last_frame: last_frame == 1,
                bytes_per_line: bytes_per_line as usize,
                pixels_per_line: pixels_per_line as usize,
                lines: lines as usize,
                depth: depth as usize,
            },
        )
    }
}

/// The identity of one scanning device as reported during discovery.
#[derive(Clone, Debug)]
pub struct Device {
    pub name: String,
    pub vendor: String,
    pub model: String,
    pub ty: String,
}

/// The device catalogue of one discovery pass: an explicitly constructed
/// context handed to every scan request, never a lazily initialised global.
/// Devices are discovered fresh per scan request and never cached across
/// requests.
#[derive(Debug)]
pub struct Backend {
    devices: Vec<Device>,
}

/// The index of the first device of `devices` whose name is `name`, if any.
pub open spec fn spec_find_device(devices: Seq<Device>, name: Seq<char>) -> Option<int>
    decreases devices.len(),
{
    if devices.len() == 0 {
        None
    } else if devices[0].name@ == name {
        Some(0)
    } else {
        match spec_find_device(devices.skip(1), name) {
            Some(i) => Some(i + 1),
            None => None,
        }
    }
}

impl View for Backend {
    type V = Seq<Device>;

    /// The catalogue is the sequence of discovered devices.
    closed spec fn view(&self) -> Seq<Device> {
        self.devices@
    }
}

impl Backend {
    /// Builds the catalogue from one discovery pass.
    pub fn new(devices: Vec<Device>) -> (r: Backend)
        ensures
            r@ == devices@,
    {
        Backend { devices }
    }

    /// All discovered devices, in discovery order.
    pub fn get_all_devices(&self) -> (r: &Vec<Device>)
        ensures
            r@ == self@,
    {
        &self.devices
    }

    /// All discovered devices, in discovery order.
    pub fn get_devices(&self) -> (r: &Vec<Device>)
        ensures
            r@ == self@,
    {
        &self.devices
    }

    /// Finds the first device with the given name.
    pub fn find_device_by_name(&self, name: &String) -> (r: Option<&Device>)
        ensures
            match r {
                Some(d) => {
                    &&& spec_find_device(self@, name@) matches Some(i)
                    &&& *d == self@[spec_find_device(self@, name@)->Some_0]
                },
                None => spec_find_device(self@, name@) is None,
            },
    {
        proof {
            lemma_find_device_some_in_range(self.devices@, name@);
        }
        let mut i: usize = 0;
        while i < self.devices.len()
            invariant
                i <= self.devices@.len(),
                forall|j: int| 0 <= j < i ==> self.devices@[j].name@ != name@,
                spec_find_device(self.devices@, name@) matches Some(k) ==> i <= k,
            decreases self.devices@.len() - i,
        {
            if self.devices[i].name == *name {
                proof {
                    lemma_find_device_hit(self.devices@, name@, i as int);
                }
                return Some(&self.devices[i]);
            }
            i += 1;
            proof {
                lemma_find_device_bound(self.devices@, name@, i as int);
            }
        }
        proof {
            lemma_find_device_bound(self.devices@, name@, self.devices@.len() as int);
        }
        None
    }
}

/// If every name before `i` misses and the name at `i` hits, the first
/// match is at `i`.
proof fn lemma_find_device_hit(devices: Seq<Device>, name: Seq<char>, i: int)
    requires
        0 <= i < devices.len(),
        forall|j: int| 0 <= j < i ==> devices[j].name@ != name,
        devices[i].name@ == name,
    ensures
        spec_find_device(devices, name) == Some(i),
    decreases i,
{
    if i == 0 {
    } else {
        lemma_find_device_hit(devices.skip(1), name, i - 1);
    }
}

/// If every name before `i` misses, the first match (if any) is at `i` or
/// later.
proof fn lemma_find_device_bound(devices: Seq<Device>, name: Seq<char>, i: int)
    requires
        0 <= i <= devices.len(),
        forall|j: int| 0 <= j < i ==> devices[j].name@ != name,
    ensures
        spec_find_device(devices, name) matches Some(k) ==> i <= k < devices.len(),
        i == devices.len() ==> spec_find_device(devices, name) is None,
    decreases i,
{
    if i > 0 {
        if devices.len() > 0 {
            lemma_find_device_bound(devices.skip(1), name, i - 1);
        }
    } else {
        lemma_find_device_some_in_range(devices, name);
    }
}

/// A found index is always in range.
proof fn lemma_find_device_some_in_range(devices: Seq<Device>, name: Seq<char>)
    ensures
        spec_find_device(devices, name) matches Some(k) ==> 0 <= k < devices.len(),
    decreases devices.len(),
{
    if devices.len() > 0 {
        lemma_find_device_some_in_range(devices.skip(1), name);
    }
}

} // verus!
