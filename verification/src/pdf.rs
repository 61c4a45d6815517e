//! The document assembler: composes an ordered sequence of encoded pages
//! into one output document byte stream.
//!
//! Each page's physical size is its pixel size at the assumed scan
//! resolution; the embedded image keeps the page's pixel geometry and is
//! marked as already DCT-compressed, so the compressed bytes go into the
//! output verbatim, never re-encoded. Pages appear in collection order,
//! and the assembler is consumed exactly once. The whole byte stream is
//! specified by `spec_pdf`, and the builder's output is proved equal to
//! it.

use vstd::prelude::*;

use crate::jpeg::{Jpeg, JpegFormat};
use crate::stream::{fed_bytes, lemma_fed_bytes_take_all, lemma_fed_bytes_take_step};
use vstd::string::StringSliceAdditionalSpecFns;

verus! {

/// The most pages one document may hold; keeps every object number small.
pub const MAX_PAGES: usize = 100000;

/// A failure while assembling the document.
#[derive(Clone, Copy, Debug, PartialEq, Eq, Structural)]
pub enum PdfError {
    /// The document already holds the highest accepted number of pages.
    TooManyPages,
}

/// The decimal digits of a number, most significant first.
pub open spec fn spec_dec(n: nat) -> Seq<u8>
    decreases n,
{
    if n < 10 {
        seq![(48 + n) as u8]
    } else {
        spec_dec(n / 10) + seq![(48 + n % 10) as u8]
    }
}

/// Appends the decimal digits of `n`.
pub fn push_decimal(out: &mut Vec<u8>, n: u128)
    ensures
        final(out)@ == old(out)@ + spec_dec(n as nat),
    decreases n,
{
    if n < 10 {
        out.push(48 + n as u8);
        proof {
            assert(final(out)@ =~= old(out)@ + spec_dec(n as nat));
        }
    } else {
        push_decimal(out, n / 10);
        out.push(48 + (n % 10) as u8);
        proof {
            assert(final(out)@ =~= old(out)@ + spec_dec(n as nat));
        }
    }
}

/// Three decimal digits, zero-padded, of a number below 1000.
pub open spec fn spec_pad3(n: nat) -> Seq<u8> {
    seq![(48 + n / 100) as u8, (48 + (n / 10) % 10) as u8, (48 + n % 10) as u8]
}

/// A milli-unit quantity as a decimal with three fraction digits.
pub open spec fn spec_fixed3(n: nat) -> Seq<u8> {
    spec_dec(n / 1000) + ".".spec_bytes() + spec_pad3(n % 1000)
}

/// Appends a literal piece of text as bytes.
fn push_lit(out: &mut Vec<u8>, s: &str)
    ensures
        final(out)@ == old(out)@ + s.spec_bytes(),
{
    out.extend_from_slice(s.as_bytes());
}

/// Appends a milli-unit quantity as a decimal with three fraction digits.
pub fn push_fixed3(out: &mut Vec<u8>, n: u128)
    ensures
        final(out)@ == old(out)@ + spec_fixed3(n as nat),
{
    push_decimal(out, n / 1000);
    push_lit(out, ".");
    let frac = n % 1000;
    out.push(48 + (frac / 100) as u8);
    out.push(48 + ((frac / 10) % 10) as u8);
    out.push(48 + (frac % 10) as u8);
    proof {
        assert(final(out)@ =~= old(out)@ + spec_fixed3(n as nat));
    }
}

/// The decimal digits of `n`, left-padded with zeros to ten digits.
pub open spec fn spec_pad10(n: nat) -> Seq<u8> {
    if spec_dec(n).len() >= 10 {
        spec_dec(n)
    } else {
        Seq::new((10 - spec_dec(n).len()) as nat, |i: int| 48u8) + spec_dec(n)
    }
}

/// Appends the ten-digit zero-padded offset used by the cross-reference
/// table.
pub fn push_pad10(out: &mut Vec<u8>, n: u128)
    ensures
        final(out)@ == old(out)@ + spec_pad10(n as nat),
{
    let mut digits: Vec<u8> = Vec::new();
    push_decimal(&mut digits, n);
    let mut pad: usize = 0;
    while pad + digits.len() < 10
        invariant
            digits@ == spec_dec(n as nat),
            pad <= 10,
            out@ == old(out)@ + Seq::new(pad as nat, |i: int| 48u8),
            pad + digits@.len() <= 10 || pad == 0,
        decreases 10 - pad,
    {
        out.push(48u8);
        pad = pad + 1;
        proof {
            assert(out@ =~= old(out)@ + Seq::new(pad as nat, |i: int| 48u8));
        }
    }
    let mut d = digits;
    out.append(&mut d);
    proof {
        if spec_dec(n as nat).len() >= 10 {
            assert(Seq::new(0nat, |i: int| 48u8) =~= Seq::<u8>::empty());
            assert(final(out)@ =~= old(out)@ + spec_pad10(n as nat));
        } else {
            assert(pad == 10 - spec_dec(n as nat).len());
            assert(final(out)@ =~= old(out)@ + spec_pad10(n as nat));
        }
    }
}

/// One byte of a literal string, escaped where the format demands it:
/// parentheses and the backslash get a backslash prefix.
pub open spec fn spec_escaped_byte(b: u8) -> Seq<u8> {
    if b == 40 || b == 41 || b == 92 {
        seq![92u8, b]
    } else {
        seq![b]
    }
}

/// A byte string escaped for embedding in a literal string.
pub open spec fn spec_escaped(s: Seq<u8>) -> Seq<u8>
    decreases s.len(),
{
    if s.len() == 0 {
        Seq::<u8>::empty()
    } else {
        spec_escaped(s.drop_last()) + spec_escaped_byte(s.last())
    }
}

/// Appends a byte string, escaping parentheses and backslashes.
fn push_escaped(out: &mut Vec<u8>, s: &[u8])
    ensures
        final(out)@ == old(out)@ + spec_escaped(s@),
{
    let mut i: usize = 0;
    while i < s.len()
        invariant
            i <= s@.len(),
            out@ == old(out)@ + spec_escaped(s@.take(i as int)),
        decreases s@.len() - i,
    {
        let b = s[i];
        if b == 40 || b == 41 || b == 92 {
            out.push(92u8);
        }
        out.push(b);
        i = i + 1;
        proof {
            assert(s@.take(i as int).drop_last() =~= s@.take(i as int - 1));
            assert(out@ =~= old(out)@ + spec_escaped(s@.take(i as int)));
        }
    }
    proof {
        assert(s@.take(s@.len() as int) =~= s@);
    }
}

/// Physical page size in micrometres: pixels over resolution, converted
/// to metric length.
pub open spec fn spec_micro_mm(px: int, dpi: int) -> int {
    px * 25400 / dpi
}

/// Physical page size in micrometres at the given resolution.
pub fn page_micro_mm(px: usize, dpi: u16) -> (r: u128)
    requires
        dpi > 0,
    ensures
        r == spec_micro_mm(px as int, dpi as int),
{
    (px as u128) * 25400 / (dpi as u128)
}

/// A pixel count as thousandths of a unit of physical length used by the
/// page geometry: pixels over resolution, times the 72 units per inch.
pub open spec fn spec_milli_points(px: int, dpi: int) -> int {
    px * 72000 / dpi
}

/// A pixel count as milli-points at the given resolution.
pub fn milli_points(px: usize, dpi: u16) -> (r: u128)
    requires
        dpi > 0,
    ensures
        r == spec_milli_points(px as int, dpi as int),
{
    (px as u128) * 72000 / (dpi as u128)
}

/// The colour space name of a page's format.
pub open spec fn spec_color_space(f: JpegFormat) -> Seq<u8> {
    if f == JpegFormat::Rgb {
        "/DeviceRGB".spec_bytes()
    } else {
        "/DeviceGray".spec_bytes()
    }
}

/// The document catalogue object.
pub open spec fn spec_obj_catalog() -> Seq<u8> {
    "1 0 obj\n<< /Type /Catalog /Pages 2 0 R >>\nendobj\n".spec_bytes()
}

/// The page-reference list of the page-tree object: one indirect
/// reference per page, in order.
pub open spec fn spec_kids(n: nat) -> Seq<u8>
    decreases n,
{
    if n == 0 {
        Seq::<u8>::empty()
    } else {
        spec_kids((n - 1) as nat) + spec_dec((4 + 3 * (n - 1)) as nat) + " 0 R ".spec_bytes()
    }
}

/// The page-tree object.
pub open spec fn spec_obj_pages(n: nat) -> Seq<u8> {
    "2 0 obj\n<< /Type /Pages /Kids [ ".spec_bytes() + spec_kids(n) + "] /Count ".spec_bytes()
        + spec_dec(n) + " >>\nendobj\n".spec_bytes()
}

/// The information object carrying the document title.
pub open spec fn spec_obj_info(title: Seq<u8>) -> Seq<u8> {
    "3 0 obj\n<< /Title (".spec_bytes() + spec_escaped(title) + ") >>\nendobj\n".spec_bytes()
}

/// The page object of page `k`: physical size in points from pixels at
/// the assumed resolution, pointing at its content stream and image.
pub open spec fn spec_obj_page(j: Jpeg, dpi: int, k: int) -> Seq<u8> {
    spec_dec((4 + 3 * k) as nat) + " 0 obj\n<< /Type /Page /Parent 2 0 R /MediaBox [0 0 ".spec_bytes()
        + spec_fixed3(spec_milli_points(j.width as int, dpi) as nat) + " ".spec_bytes()
        + spec_fixed3(spec_milli_points(j.height as int, dpi) as nat)
        + "] /Resources << /XObject << /Im ".spec_bytes() + spec_dec((6 + 3 * k) as nat)
        + " 0 R >> >> /Contents ".spec_bytes() + spec_dec((5 + 3 * k) as nat)
        + " 0 R >>\nendobj\n".spec_bytes()
}

/// The drawing instructions of one page: paint the image over the whole
/// page area.
pub open spec fn spec_content_data(j: Jpeg, dpi: int) -> Seq<u8> {
    "q\n".spec_bytes() + spec_fixed3(spec_milli_points(j.width as int, dpi) as nat)
        + " 0 0 ".spec_bytes() + spec_fixed3(spec_milli_points(j.height as int, dpi) as nat)
        + " 0 0 cm\n/Im Do\nQ\n".spec_bytes()
}

/// The content-stream object of page `k`.
pub open spec fn spec_obj_content(j: Jpeg, dpi: int, k: int) -> Seq<u8> {
    spec_dec((5 + 3 * k) as nat) + " 0 obj\n<< /Length ".spec_bytes() + spec_dec(
        spec_content_data(j, dpi).len(),
    ) + " >>\nstream\n".spec_bytes() + spec_content_data(j, dpi)
        + "endstream\nendobj\n".spec_bytes()
}

/// The image object of page `k`: the page's pixel geometry, its colour
/// space, eight bits per component, and the compressed bytes verbatim,
/// marked as already DCT-compressed.
pub open spec fn spec_obj_image(j: Jpeg, k: int) -> Seq<u8> {
    spec_dec((6 + 3 * k) as nat) + " 0 obj\n<< /Type /XObject /Subtype /Image /Width ".spec_bytes()
        + spec_dec(j.width as nat) + " /Height ".spec_bytes() + spec_dec(j.height as nat)
        + " /ColorSpace ".spec_bytes() + spec_color_space(j.format)
        + " /BitsPerComponent 8 /Filter /DCTDecode /Length ".spec_bytes() + spec_dec(
        j.bytes@.len(),
    ) + " >>\nstream\n".spec_bytes() + j.bytes@ + "\nendstream\nendobj\n".spec_bytes()
}

/// The three objects of each page, in page order.
pub open spec fn spec_page_objects(pages: Seq<Jpeg>, dpi: int) -> Seq<Seq<u8>>
    decreases pages.len(),
{
    if pages.len() == 0 {
        Seq::<Seq<u8>>::empty()
    } else {
        spec_page_objects(pages.drop_last(), dpi) + seq![
            spec_obj_page(pages.last(), dpi, pages.len() - 1),
            spec_obj_content(pages.last(), dpi, pages.len() - 1),
            spec_obj_image(pages.last(), pages.len() - 1),
        ]
    }
}

/// Each page contributes exactly three objects.
pub proof fn lemma_page_objects_len(pages: Seq<Jpeg>, dpi: int)
    ensures
        spec_page_objects(pages, dpi).len() == 3 * pages.len(),
    decreases pages.len(),
{
    if pages.len() > 0 {
        lemma_page_objects_len(pages.drop_last(), dpi);
    }
}

/// Every object of the document, in file order: catalogue, page tree,
/// information, then three objects per page.
pub open spec fn spec_objects(title: Seq<u8>, dpi: int, pages: Seq<Jpeg>) -> Seq<Seq<u8>> {
    seq![spec_obj_catalog(), spec_obj_pages(pages.len()), spec_obj_info(title)]
        + spec_page_objects(pages, dpi)
}

/// The cross-reference entries of the objects: each entry carries the
/// byte offset at which its object starts, which is the header length
/// plus everything before it.
pub open spec fn spec_xref_entries(objects: Seq<Seq<u8>>, base: nat) -> Seq<u8>
    decreases objects.len(),
{
    if objects.len() == 0 {
        Seq::<u8>::empty()
    } else {
        spec_xref_entries(objects.drop_last(), base) + spec_pad10(
            (base + fed_bytes(objects.drop_last()).len()) as nat,
        ) + " 00000 n \n".spec_bytes()
    }
}

/// The whole document byte stream: header, objects, cross-reference
/// table, and trailer.
pub open spec fn spec_pdf(title: Seq<u8>, dpi: int, pages: Seq<Jpeg>) -> Seq<u8> {
    let header = "%PDF-1.4\n".spec_bytes();
    let objects = spec_objects(title, dpi, pages);
    let body = fed_bytes(objects);
    header + body + "xref\n0 ".spec_bytes() + spec_dec((objects.len() + 1) as nat)
        + "\n0000000000 65535 f \n".spec_bytes() + spec_xref_entries(objects, header.len())
        + "trailer\n<< /Size ".spec_bytes() + spec_dec((objects.len() + 1) as nat)
        + " /Root 1 0 R /Info 3 0 R >>\nstartxref\n".spec_bytes() + spec_dec(
        (header.len() + body.len()) as nat,
    ) + "\n%%EOF\n".spec_bytes()
}


/// Appends the page object of page `p`.
#[verifier::rlimit(100)]
#[verifier::spinoff_prover]
fn append_page_obj(out: &mut Vec<u8>, jpeg: &Jpeg, dpi: u16, p: usize)
    requires
        dpi > 0,
        p <= MAX_PAGES,
    ensures
        final(out)@ == old(out)@ + spec_obj_page(*jpeg, dpi as int, p as int),
{
    let w_mpt = milli_points(jpeg.width, dpi);
    let h_mpt = milli_points(jpeg.height, dpi);
    push_decimal(out, 4 + 3 * (p as u128));
    push_lit(out, " 0 obj\n<< /Type /Page /Parent 2 0 R /MediaBox [0 0 ");
    push_fixed3(out, w_mpt);
    push_lit(out, " ");
    push_fixed3(out, h_mpt);
    push_lit(out, "] /Resources << /XObject << /Im ");
    push_decimal(out, 6 + 3 * (p as u128));
    push_lit(out, " 0 R >> >> /Contents ");
    push_decimal(out, 5 + 3 * (p as u128));
    push_lit(out, " 0 R >>\nendobj\n");
    proof {
        assert(final(out)@ =~= old(out)@ + spec_obj_page(*jpeg, dpi as int, p as int));
    }
}

/// Appends the content-stream object of page `p`.
#[verifier::rlimit(100)]
#[verifier::spinoff_prover]
fn append_content_obj(out: &mut Vec<u8>, jpeg: &Jpeg, dpi: u16, p: usize)
    requires
        dpi > 0,
        p <= MAX_PAGES,
    ensures
        final(out)@ == old(out)@ + spec_obj_content(*jpeg, dpi as int, p as int),
{
    let w_mpt = milli_points(jpeg.width, dpi);
    let h_mpt = milli_points(jpeg.height, dpi);
    let mut data: Vec<u8> = Vec::new();
    push_lit(&mut data, "q\n");
    push_fixed3(&mut data, w_mpt);
    push_lit(&mut data, " 0 0 ");
    push_fixed3(&mut data, h_mpt);
    push_lit(&mut data, " 0 0 cm\n/Im Do\nQ\n");
    proof {
        assert(data@ =~= spec_content_data(*jpeg, dpi as int));
    }
    push_decimal(out, 5 + 3 * (p as u128));
    push_lit(out, " 0 obj\n<< /Length ");
    push_decimal(out, data.len() as u128);
    push_lit(out, " >>\nstream\n");
    let mut d = data;
    out.append(&mut d);
    push_lit(out, "endstream\nendobj\n");
    proof {
        assert(final(out)@ =~= old(out)@ + spec_obj_content(*jpeg, dpi as int, p as int));
    }
}

/// Appends the image object of page `p`.
#[verifier::rlimit(100)]
#[verifier::spinoff_prover]
fn append_image_obj(out: &mut Vec<u8>, jpeg: &Jpeg, p: usize)
    requires
        p <= MAX_PAGES,
    ensures
        final(out)@ == old(out)@ + spec_obj_image(*jpeg, p as int),
{
    push_decimal(out, 6 + 3 * (p as u128));
    push_lit(out, " 0 obj\n<< /Type /XObject /Subtype /Image /Width ");
    push_decimal(out, jpeg.width as u128);
    push_lit(out, " /Height ");
    push_decimal(out, jpeg.height as u128);
    push_lit(out, " /ColorSpace ");
    match jpeg.format {
        JpegFormat::Rgb => push_lit(out, "/DeviceRGB"),
        JpegFormat::Gray => push_lit(out, "/DeviceGray"),
    }
    push_lit(out, " /BitsPerComponent 8 /Filter /DCTDecode /Length ");
    push_decimal(out, jpeg.bytes.len() as u128);
    push_lit(out, " >>\nstream\n");
    out.extend_from_slice(jpeg.bytes.as_slice());
    push_lit(out, "\nendstream\nendobj\n");
    proof {
        assert(final(out)@ =~= old(out)@ + spec_obj_image(*jpeg, p as int));
    }
}

/// Composes an ordered sequence of encoded pages into one document. Built
/// once, fed page by page, and consumed exactly once by `into_bytes`.
pub struct PdfBuilder {
    title_bytes: Vec<u8>,
    dpi: u16,
    pages: Vec<Jpeg>,
}

impl PdfBuilder {
    /// The title, as bytes.
    pub closed spec fn spec_title(&self) -> Seq<u8> {
        self.title_bytes@
    }

    /// The assumed scan resolution shared by all pages.
    pub closed spec fn spec_dpi(&self) -> int {
        self.dpi as int
    }

    /// The pages collected so far, in insertion order.
    pub closed spec fn pages(&self) -> Seq<Jpeg> {
        self.pages@
    }

    /// The builder's invariant: a positive resolution and a bounded page
    /// count.
    pub closed spec fn wf(&self) -> bool {
        &&& self.dpi > 0
        &&& self.pages@.len() <= MAX_PAGES
    }

    /// A new, empty document with a title and the assumed resolution.
    pub fn new(title: &str, dpi: u16) -> (r: PdfBuilder)
        requires
            dpi > 0,
        ensures
            r.wf(),
            r.spec_title() == title.spec_bytes(),
            r.spec_dpi() == dpi,
            r.pages() == Seq::<Jpeg>::empty(),
    {
        PdfBuilder {
            title_bytes: vstd::slice::slice_to_vec(title.as_bytes()),
            dpi,
            pages: Vec::new(),
        }
    }

    /// How many pages the document holds.
    pub fn page_count(&self) -> (r: usize)
        ensures
            r == self.pages().len(),
    {
        self.pages.len()
    }

    /// Appends one encoded page; insertion order is page order. Fails
    /// only when the document is full.
    pub fn add_page(&mut self, jpeg: Jpeg) -> (r: Result<(), PdfError>)
        requires
            old(self).wf(),
        ensures
            final(self).wf(),
            final(self).spec_title() == old(self).spec_title(),
            final(self).spec_dpi() == old(self).spec_dpi(),
            if old(self).pages().len() < MAX_PAGES {
                &&& r is Ok
                &&& final(self).pages() == old(self).pages().push(jpeg)
            } else {
                &&& r == Err::<(), PdfError>(PdfError::TooManyPages)
                &&& final(self).pages() == old(self).pages()
            },
    {
        if self.pages.len() < MAX_PAGES {
            self.pages.push(jpeg);
            Ok(())
        } else {
            Err(PdfError::TooManyPages)
        }
    }

    /// Drops every collected page: an abandoned document never reaches
    /// the output.
    pub fn forget_pages(&mut self)
        requires
            old(self).wf(),
        ensures
            final(self).wf(),
            final(self).spec_title() == old(self).spec_title(),
            final(self).spec_dpi() == old(self).spec_dpi(),
            final(self).pages() == Seq::<Jpeg>::empty(),
    {
        self.pages.clear();
    }

    /// Consumes the document and produces its byte stream, exactly as
    /// `spec_pdf` lays it out: pages in collection order, each image
    /// embedded verbatim.
    #[verifier::rlimit(100)]
    pub fn into_bytes(self) -> (r: Vec<u8>)
        requires
            self.wf(),
        ensures
            r@ == spec_pdf(self.spec_title(), self.spec_dpi(), self.pages()),
    {
        let ghost objs = spec_objects(self.title_bytes@, self.dpi as int, self.pages@);
        proof {
            lemma_page_objects_len(self.pages@, self.dpi as int);
        }
        let n = self.pages.len();
        let mut out: Vec<u8> = Vec::new();
        let mut offsets: Vec<usize> = Vec::new();
        push_lit(&mut out, "%PDF-1.4\n");
        let ghost header = "%PDF-1.4\n".spec_bytes();

        // The catalogue, page tree and information objects.
        offsets.push(out.len());
        push_lit(&mut out, "1 0 obj\n<< /Type /Catalog /Pages 2 0 R >>\nendobj\n");
        proof {
            lemma_fed_bytes_take_step(objs, 0);
            assert(objs.take(0int) =~= Seq::<Seq<u8>>::empty());
            assert(out@ =~= header + fed_bytes(objs.take(1int)));
        }

        offsets.push(out.len());
        proof {
            assert(offsets@[1] == header.len() + fed_bytes(objs.take(1int)).len());
        }
        push_lit(&mut out, "2 0 obj\n<< /Type /Pages /Kids [ ");
        let ghost before_kids = out@;
        let mut k: usize = 0;
        while k < n
            invariant
                k <= n,
                n == self.pages@.len(),
                n <= MAX_PAGES,
                out@ == before_kids + spec_kids(k as nat),
            decreases n - k,
        {
            push_decimal(&mut out, (4 + 3 * (k as u128)));
            push_lit(&mut out, " 0 R ");
            k = k + 1;
            proof {
                assert(out@ =~= before_kids + spec_kids(k as nat));
            }
        }
        push_lit(&mut out, "] /Count ");
        push_decimal(&mut out, n as u128);
        push_lit(&mut out, " >>\nendobj\n");
        proof {
            lemma_fed_bytes_take_step(objs, 1);
            assert(out@ =~= header + fed_bytes(objs.take(2int)));
        }

        offsets.push(out.len());
        push_lit(&mut out, "3 0 obj\n<< /Title (");
        push_escaped(&mut out, self.title_bytes.as_slice());
        push_lit(&mut out, ") >>\nendobj\n");
        proof {
            lemma_fed_bytes_take_step(objs, 2);
            assert(out@ =~= header + fed_bytes(objs.take(3int)));
        }

        // The three objects of each page.
        let mut p: usize = 0;
        while p < n
            invariant
                p <= n,
                n == self.pages@.len(),
                n <= MAX_PAGES,
                self.wf(),
                objs == spec_objects(self.title_bytes@, self.dpi as int, self.pages@),
                objs.len() == 3 + 3 * n,
                out@ == header + fed_bytes(objs.take(3 + 3 * p as int)),
                offsets@.len() == 3 + 3 * p,
                forall|j: int|
                    0 <= j < offsets@.len() ==> #[trigger] offsets@[j] == header.len() + fed_bytes(
                        objs.take(j),
                    ).len(),
            decreases n - p,
        {
            proof {
                lemma_objects_index(self.title_bytes@, self.dpi as int, self.pages@, p as int);
            }
            let jpeg = &self.pages[p];

            offsets.push(out.len());
            append_page_obj(&mut out, jpeg, self.dpi, p);
            proof {
                lemma_fed_bytes_take_step(objs, 3 + 3 * p as int);
                assert(out@ =~= header + fed_bytes(objs.take(3 + 3 * p as int + 1)));
            }

            offsets.push(out.len());
            append_content_obj(&mut out, jpeg, self.dpi, p);
            proof {
                lemma_fed_bytes_take_step(objs, 3 + 3 * p as int + 1);
                assert(out@ =~= header + fed_bytes(objs.take(3 + 3 * p as int + 2)));
            }

            offsets.push(out.len());
            append_image_obj(&mut out, jpeg, p);
            p = p + 1;
            proof {
                lemma_fed_bytes_take_step(objs, 3 + 3 * (p as int - 1) + 2);
                assert(out@ =~= header + fed_bytes(objs.take(3 + 3 * p as int)));
            }
        }

        // The cross-reference table.
        let xref_off = out.len();
        proof {
            assert(objs.take(3 + 3 * n as int) =~= objs);
        }
        push_lit(&mut out, "xref\n0 ");
        push_decimal(&mut out, (3 + 3 * (n as u128)) + 1);
        push_lit(&mut out, "\n0000000000 65535 f \n");
        let ghost before_entries = out@;
        let mut e: usize = 0;
        let total_objects = offsets.len();
        while e < total_objects
            invariant
                e <= total_objects,
                total_objects == objs.len(),
                out@ == before_entries + spec_xref_entries(objs.take(e as int), header.len()),
                forall|j: int|
                    0 <= j < offsets@.len() ==> #[trigger] offsets@[j] == header.len() + fed_bytes(
                        objs.take(j),
                    ).len(),
                offsets@.len() == objs.len(),
            decreases total_objects - e,
        {
            push_pad10(&mut out, offsets[e] as u128);
            push_lit(&mut out, " 00000 n \n");
            e = e + 1;
            proof {
                assert(objs.take(e as int).drop_last() =~= objs.take(e as int - 1));
                assert(out@ =~= before_entries + spec_xref_entries(
                    objs.take(e as int),
                    header.len(),
                ));
            }
        }
        proof {
            assert(objs.take(objs.len() as int) =~= objs);
        }
        push_lit(&mut out, "trailer\n<< /Size ");
        push_decimal(&mut out, (3 + 3 * (n as u128)) + 1);
        push_lit(&mut out, " /Root 1 0 R /Info 3 0 R >>\nstartxref\n");
        push_decimal(&mut out, xref_off as u128);
        push_lit(&mut out, "\n%%EOF\n");
        proof {
            lemma_fed_bytes_take_all(objs);
            assert(out@ =~= spec_pdf(self.title_bytes@, self.dpi as int, self.pages@));
        }
        out
    }
}

/// The objects of page `p` stand at positions `3 + 3p` through `5 + 3p`
/// of the object list.
#[verifier::rlimit(100)]
#[verifier::spinoff_prover]
proof fn lemma_objects_index(title: Seq<u8>, dpi: int, pages: Seq<Jpeg>, p: int)
    requires
        0 <= p < pages.len(),
    ensures
        spec_objects(title, dpi, pages).len() == 3 + 3 * pages.len(),
        spec_objects(title, dpi, pages)[3 + 3 * p] == spec_obj_page(pages[p], dpi, p),
        spec_objects(title, dpi, pages)[3 + 3 * p + 1] == spec_obj_content(pages[p], dpi, p),
        spec_objects(title, dpi, pages)[3 + 3 * p + 2] == spec_obj_image(pages[p], p),
{
    lemma_page_objects_len(pages, dpi);
    lemma_page_objects_index(pages, dpi, p);
    let front = seq![spec_obj_catalog(), spec_obj_pages(pages.len()), spec_obj_info(title)];
    let po = spec_page_objects(pages, dpi);
    assert(spec_objects(title, dpi, pages) == front + po);
    assert(front.len() == 3);
    assert((front + po)[3 + 3 * p] == po[3 * p]);
    assert((front + po)[3 + 3 * p + 1] == po[3 * p + 1]);
    assert((front + po)[3 + 3 * p + 2] == po[3 * p + 2]);
}

/// The three objects of page `p` stand at positions `3p` through
/// `3p + 2` of the page-object list.
proof fn lemma_page_objects_index(pages: Seq<Jpeg>, dpi: int, p: int)
    requires
        0 <= p < pages.len(),
    ensures
        spec_page_objects(pages, dpi).len() == 3 * pages.len(),
        spec_page_objects(pages, dpi)[3 * p] == spec_obj_page(pages[p], dpi, p),
        spec_page_objects(pages, dpi)[3 * p + 1] == spec_obj_content(pages[p], dpi, p),
        spec_page_objects(pages, dpi)[3 * p + 2] == spec_obj_image(pages[p], p),
    decreases pages.len(),
{
    lemma_page_objects_len(pages, dpi);
    if p == pages.len() - 1 {
        lemma_page_objects_len(pages.drop_last(), dpi);
    } else {
        lemma_page_objects_index(pages.drop_last(), dpi, p);
        assert(pages.drop_last()[p] == pages[p]);
    }
}

} // verus!
