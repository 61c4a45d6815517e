//! The print-spooling boundary: the vocabulary handed to the external
//! spooler, and the document that carries the finished bytes to it.
//!
//! This core never talks to a printer itself; it only prepares a named
//! byte stream, a format tag, and a set of option name/value pairs that
//! the spooling collaborator consumes.

use vstd::prelude::*;

use crate::config::Print;
use vstd::string::StringSliceAdditionalSpecFns;

verus! {

/// The format of a document sent for printing, judged from its name.
#[derive(Clone, Copy, Debug, PartialEq, Eq, Structural)]
pub enum DocumentFormat {
    Text,
    Pdf,
    Word,
}

/// A byte lower-cased as ASCII.
pub open spec fn spec_ascii_lower(b: u8) -> u8 {
    if 65 <= b <= 90 {
        (b + 32) as u8
    } else {
        b
    }
}

/// A byte string lower-cased as ASCII.
pub open spec fn spec_lower_bytes(s: Seq<u8>) -> Seq<u8> {
    Seq::new(s.len(), |i: int| spec_ascii_lower(s[i]))
}

/// Whether `s` ends with `suffix`.
pub open spec fn spec_ends_with(s: Seq<u8>, suffix: Seq<u8>) -> bool {
    &&& s.len() >= suffix.len()
    &&& s.subrange(s.len() - suffix.len(), s.len() as int) == suffix
}

/// The format a document name maps to: judged by its extension, after
/// lower-casing - `.txt` is plain text, `.pdf` a finished document,
/// `.docx` and `.doc` a word-processor file; anything else is
/// unsupported.
pub open spec fn spec_format_from_name(s: Seq<u8>) -> Option<DocumentFormat> {
    let l = spec_lower_bytes(s);
    if spec_ends_with(l, seq![46u8, 116u8, 120u8, 116u8]) {
        Some(DocumentFormat::Text)
    } else if spec_ends_with(l, seq![46u8, 112u8, 100u8, 102u8]) {
        Some(DocumentFormat::Pdf)
    } else if spec_ends_with(l, seq![46u8, 100u8, 111u8, 99u8, 120u8]) || spec_ends_with(
        l,
        seq![46u8, 100u8, 111u8, 99u8],
    ) {
        Some(DocumentFormat::Word)
    } else {
        None
    }
}

/// A byte lower-cased as ASCII.
fn ascii_lower(b: u8) -> (r: u8)
    ensures
        r == spec_ascii_lower(b),
{
    if 65 <= b && b <= 90 {
        b + 32
    } else {
        b
    }
}

/// Whether the ASCII-lower-cased bytes of `s` end with `suffix`.
fn ends_with_lower(s: &[u8], suffix: &[u8]) -> (r: bool)
    ensures
        r == spec_ends_with(spec_lower_bytes(s@), suffix@),
{
    let n = s.len();
    let m = suffix.len();
    if n < m {
        return false;
    }
    let mut i: usize = 0;
    while i < m
        invariant
            i <= m,
            m == suffix@.len(),
            n == s@.len(),
            m <= n,
            forall|j: int|
                0 <= j < i ==> spec_ascii_lower(s@[n - m + j]) == suffix@[j],
        decreases m - i,
    {
        if ascii_lower(s[n - m + i]) != suffix[i] {
            proof {
                assert(spec_lower_bytes(s@)[n - m + i] != suffix@[i as int]);
                assert(!spec_ends_with(spec_lower_bytes(s@), suffix@)) by {
                    if spec_ends_with(spec_lower_bytes(s@), suffix@) {
                        assert(spec_lower_bytes(s@).subrange(
                            s@.len() - suffix@.len(),
                            s@.len() as int,
                        )[i as int] == suffix@[i as int]);
                    }
                }
            }
            return false;
        }
        i = i + 1;
    }
    proof {
        assert(spec_lower_bytes(s@).subrange(s@.len() - suffix@.len(), s@.len() as int)
            =~= suffix@);
    }
    true
}

impl DocumentFormat {
    /// Judges a document's format from its name, case-insensitively.
    pub fn from_document_name(doc: &str) -> (r: Option<DocumentFormat>)
        ensures
            r == spec_format_from_name(doc.spec_bytes()),
    {
        let b = doc.as_bytes();
        let txt: Vec<u8> = vec![46u8, 116u8, 120u8, 116u8];
        let pdf: Vec<u8> = vec![46u8, 112u8, 100u8, 102u8];
        let docx: Vec<u8> = vec![46u8, 100u8, 111u8, 99u8, 120u8];
        let doc_suffix: Vec<u8> = vec![46u8, 100u8, 111u8, 99u8];
        proof {
            assert(txt@ =~= seq![46u8, 116u8, 120u8, 116u8]);
            assert(pdf@ =~= seq![46u8, 112u8, 100u8, 102u8]);
            assert(docx@ =~= seq![46u8, 100u8, 111u8, 99u8, 120u8]);
            assert(doc_suffix@ =~= seq![46u8, 100u8, 111u8, 99u8]);
        }
        if ends_with_lower(b, txt.as_slice()) {
            Some(DocumentFormat::Text)
        } else if ends_with_lower(b, pdf.as_slice()) {
            Some(DocumentFormat::Pdf)
        } else if ends_with_lower(b, docx.as_slice()) || ends_with_lower(
            b,
            doc_suffix.as_slice(),
        ) {
            Some(DocumentFormat::Word)
        } else {
            None
        }
    }
}

/// The format tag the spooling collaborator accepts.
#[derive(Clone, Copy, Debug, PartialEq, Eq, Structural)]
pub enum DocumentType {
    PlainText,
    Pdf,
}

impl DocumentType {
    /// The spooler's format tag for a document format: a word-processor
    /// file is converted before printing, so it arrives as a finished
    /// document.
    pub fn from_format(format: DocumentFormat) -> (r: DocumentType)
        ensures
            r == (match format {
                DocumentFormat::Text => DocumentType::PlainText,
                DocumentFormat::Pdf => DocumentType::Pdf,
                DocumentFormat::Word => DocumentType::Pdf,
            }),
    {
        match format {
            DocumentFormat::Text => DocumentType::PlainText,
            DocumentFormat::Pdf => DocumentType::Pdf,
            DocumentFormat::Word => DocumentType::Pdf,
        }
    }

    /// The media-type tag of this format.
    pub fn value(self) -> (r: &'static str)
        ensures
            r@ == (if self == DocumentType::PlainText {
                "text/plain"@
            } else {
                "application/pdf"@
            }),
    {
        match self {
            DocumentType::PlainText => "text/plain",
            DocumentType::Pdf => "application/pdf",
        }
    }
}

/// A document ready for the spooling collaborator: a name, a format tag,
/// and the finished bytes.
pub struct Document {
    pub name: String,
    pub ty: DocumentType,
    pub bytes: Vec<u8>,
}

impl Document {
    /// Packages a named byte stream for printing.
    pub fn new(name: String, ty: DocumentType, bytes: Vec<u8>) -> (r: Document)
        ensures
            r.name@ == name@,
            r.ty == ty,
            r.bytes@ == bytes@,
    {
        Document { name, ty, bytes }
    }

    /// The document's name.
    pub fn name(&self) -> (r: &String)
        ensures
            r@ == self.name@,
    {
        &self.name
    }

    /// The document's format tag.
    pub fn ty(&self) -> (r: DocumentType)
        ensures
            r == self.ty,
    {
        self.ty
    }

    /// The document's bytes.
    pub fn bytes(&self) -> (r: &Vec<u8>)
        ensures
            r@ == self.bytes@,
    {
        &self.bytes
    }
}

impl View for Document {
    type V = Seq<u8>;

    /// A document is, at the boundary, its byte stream.
    closed spec fn view(&self) -> Seq<u8> {
        self.bytes@
    }
}

/// A known printer, by name.
pub struct Printer {
    pub name: String,
}

impl Printer {
    /// A handle on the printer with the given name.
    pub fn new(name: String) -> (r: Printer)
        ensures
            r.name@ == name@,
    {
        Printer { name }
    }

    /// The printer's name.
    pub fn name(&self) -> (r: &String)
        ensures
            r@ == self.name@,
    {
        &self.name
    }
}

/// A failure on the way to the spooler.
#[derive(Clone, Debug)]
pub enum PrintError {
    /// No printer is configured and none is the default.
    NoDefaultPrinter,
    /// Fetching the remote document failed.
    RemoteFile(String),
    /// The spooler refused the job.
    Printer(String),
}

impl PrintError {
    /// A short description of the failure.
    pub fn message(&self) -> (r: String)
        ensures
            r@ == (match self {
                PrintError::NoDefaultPrinter => "no default printer"@,
                PrintError::RemoteFile(s) => "failed to get remote file info: "@ + s@,
                PrintError::Printer(s) => "print error: "@ + s@,
            }),
    {
        match self {
            PrintError::NoDefaultPrinter => "no default printer".to_owned(),
            PrintError::RemoteFile(s) => {
                let prefix: String = "failed to get remote file info: ".to_owned();
                prefix.concat(s.as_str())
            },
            PrintError::Printer(s) => {
                let prefix: String = "print error: ".to_owned();
                prefix.concat(s.as_str())
            },
        }
    }
}

/// The paper size vocabulary of the spooler.
#[derive(Clone, Copy, Debug, PartialEq, Eq, Structural)]
pub enum MediaFormat {
    F3X5,
    F4X6,
    F5X7,
    F8X10,
    A3,
    A4,
    A5,
    A6,
    Env10,
    EnvDl,
    Legal,
    Letter,
    PhotoL,
    SuperBa3,
    Tabloid,
}

/// The spooler's media name of each paper size.
pub open spec fn spec_media_value(m: MediaFormat) -> Seq<char> {
    match m {
        MediaFormat::F3X5 => "na_index-3x5_3x5in"@,
        MediaFormat::F4X6 => "na_index-4x6_4x6in"@,
        MediaFormat::F5X7 => "na_5x7_5x7in"@,
        MediaFormat::F8X10 => "na_govt-letter_8x10in"@,
        MediaFormat::A3 => "iso_a3_297x420mm"@,
        MediaFormat::A4 => "iso_a4_210x297mm"@,
        MediaFormat::A5 => "iso_a5_148x210mm"@,
        MediaFormat::A6 => "iso_a6_105x148mm"@,
        MediaFormat::Env10 => "na_number-10_4.125x9.5in"@,
        MediaFormat::EnvDl => "iso_dl_110x220mm"@,
        MediaFormat::Legal => "na_legal_8.5x14in"@,
        MediaFormat::Letter => "na_letter_8.5x11in"@,
        MediaFormat::PhotoL => "oe_photo-l_3.5x5in"@,
        MediaFormat::SuperBa3 => "om_super-b_13x19in"@,
        MediaFormat::Tabloid => "na_ledger_11x17in"@,
    }
}

impl MediaFormat {
    /// The spooler's media name of this paper size.
    pub fn value(self) -> (r: &'static str)
        ensures
            r@ == spec_media_value(self),
    {
        match self {
            MediaFormat::F3X5 => "na_index-3x5_3x5in",
            MediaFormat::F4X6 => "na_index-4x6_4x6in",
            MediaFormat::F5X7 => "na_5x7_5x7in",
            MediaFormat::F8X10 => "na_govt-letter_8x10in",
            MediaFormat::A3 => "iso_a3_297x420mm",
            MediaFormat::A4 => "iso_a4_210x297mm",
            MediaFormat::A5 => "iso_a5_148x210mm",
            MediaFormat::A6 => "iso_a6_105x148mm",
            MediaFormat::Env10 => "na_number-10_4.125x9.5in",
            MediaFormat::EnvDl => "iso_dl_110x220mm",
            MediaFormat::Legal => "na_legal_8.5x14in",
            MediaFormat::Letter => "na_letter_8.5x11in",
            MediaFormat::PhotoL => "oe_photo-l_3.5x5in",
            MediaFormat::SuperBa3 => "om_super-b_13x19in",
            MediaFormat::Tabloid => "na_ledger_11x17in",
        }
    }
}

/// The page orientation vocabulary of the spooler.
#[derive(Clone, Copy, Debug, PartialEq, Eq, Structural)]
pub enum Orientation {
    Portrait,
    Landscape,
}

impl Orientation {
    /// The spooler's value of this orientation.
    pub fn value(self) -> (r: &'static str)
        ensures
            r@ == (if self == Orientation::Portrait {
                "3"@
            } else {
                "4"@
            }),
    {
        match self {
            Orientation::Portrait => "3",
            Orientation::Landscape => "4",
        }
    }
}

/// The duplex vocabulary of the spooler.
#[derive(Clone, Copy, Debug, PartialEq, Eq, Structural)]
pub enum Sides {
    OneSide,
    TwoSidedPortrait,
    TwoSidedLandscape,
}

impl Sides {
    /// The spooler's value of this duplex mode.
    pub fn value(self) -> (r: &'static str)
        ensures
            r@ == (match self {
                Sides::OneSide => "one-sided"@,
                Sides::TwoSidedPortrait => "two-sided-long-edge"@,
                Sides::TwoSidedLandscape => "two-sided-short-edge"@,
            }),
    {
        match self {
            Sides::OneSide => "one-sided",
            Sides::TwoSidedPortrait => "two-sided-long-edge",
            Sides::TwoSidedLandscape => "two-sided-short-edge",
        }
    }
}

/// The colour-mode vocabulary of the spooler.
#[derive(Clone, Copy, Debug, PartialEq, Eq, Structural)]
pub enum ColorMode {
    Auto,
    Color,
    Monochrome,
}

impl ColorMode {
    /// The spooler's value of this colour mode.
    pub fn value(self) -> (r: &'static str)
        ensures
            r@ == (match self {
                ColorMode::Auto => "auto"@,
                ColorMode::Color => "color"@,
                ColorMode::Monochrome => "monochrome"@,
            }),
    {
        match self {
            ColorMode::Auto => "auto",
            ColorMode::Color => "color",
            ColorMode::Monochrome => "monochrome",
        }
    }
}

/// The print-quality vocabulary of the spooler.
#[derive(Clone, Copy, Debug, PartialEq, Eq, Structural)]
pub enum PrintQuality {
    Draft,
    Normal,
    High,
}

impl PrintQuality {
    /// The spooler's value of this quality.
    pub fn value(self) -> (r: &'static str)
        ensures
            r@ == (match self {
                PrintQuality::Draft => "3"@,
                PrintQuality::Normal => "4"@,
                PrintQuality::High => "5"@,
            }),
    {
        match self {
            PrintQuality::Draft => "3",
            PrintQuality::Normal => "4",
            PrintQuality::High => "5",
        }
    }
}

/// The option pairs the configured print settings turn into: one
/// name/value pair per configured setting, in a fixed order.
pub open spec fn spec_print_options(p: Print) -> Seq<(Seq<char>, Seq<char>)> {
    let o0 = Seq::<(Seq<char>, Seq<char>)>::empty();
    let o1 = match p.paper_size {
        Some(m) => o0.push(("media"@, spec_media_value(m))),
        None => o0,
    };
    let o2 = match p.orientation {
        Some(o) => o1.push(
            ("orientation-requested"@, if o == Orientation::Portrait {
                "3"@
            } else {
                "4"@
            }),
        ),
        None => o1,
    };
    let o3 = match p.sides {
        Some(sd) => o2.push(
            ("sides"@, match sd {
                Sides::OneSide => "one-sided"@,
                Sides::TwoSidedPortrait => "two-sided-long-edge"@,
                Sides::TwoSidedLandscape => "two-sided-short-edge"@,
            }),
        ),
        None => o2,
    };
    let o4 = match p.color_mode {
        Some(c) => o3.push(
            ("print-color-mode"@, match c {
                ColorMode::Auto => "auto"@,
                ColorMode::Color => "color"@,
                ColorMode::Monochrome => "monochrome"@,
            }),
        ),
        None => o3,
    };
    match p.quality {
        Some(q) => o4.push(
            ("print-quality"@, match q {
                PrintQuality::Draft => "3"@,
                PrintQuality::Normal => "4"@,
                PrintQuality::High => "5"@,
            }),
        ),
        None => o4,
    }
}

/// Turns the configured print settings into the spooler's option pairs:
/// one name/value pair per configured setting, in a fixed order, and
/// nothing for an unset one.
pub fn print_request_options(p: &Print) -> (r: Vec<(String, String)>)
    ensures
        r@.map_values(|e: (String, String)| (e.0@, e.1@)) == spec_print_options(*p),
{
    let ghost target = spec_print_options(*p);
    let mut out: Vec<(String, String)> = Vec::new();
    if let Some(m) = p.paper_size {
        out.push(("media".to_owned(), m.value().to_owned()));
    }
    if let Some(o) = p.orientation {
        out.push(("orientation-requested".to_owned(), o.value().to_owned()));
    }
    if let Some(sd) = p.sides {
        out.push(("sides".to_owned(), sd.value().to_owned()));
    }
    if let Some(c) = p.color_mode {
        out.push(("print-color-mode".to_owned(), c.value().to_owned()));
    }
    if let Some(q) = p.quality {
        out.push(("print-quality".to_owned(), q.value().to_owned()));
    }
    proof {
        assert(out@.map_values(|e: (String, String)| (e.0@, e.1@)) =~= spec_print_options(*p));
    }
    out
}

} // verus!
