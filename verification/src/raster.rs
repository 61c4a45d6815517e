//! Scanline-aligned assembly of a raster page from arbitrarily chunked
//! device reads.
//!
//! A device read may return any number of bytes up to the requested
//! maximum, with no relation to scanline boundaries. The assembler stages
//! bytes in a scanline-sized buffer and commits whole scanlines to the page
//! buffer, so the page is always a prefix of whole lines plus a staged
//! partial line. A read that would run past the declared page size is
//! rejected whole, never truncated.

use vstd::prelude::*;

use crate::device::{FrameFormat, Parameters};
use crate::stream::{fed_bytes, lemma_fed_bytes_is_flatten};

verus! {

/// A failure while assembling or packaging raster data.
#[derive(Clone, Copy, Debug, PartialEq, Eq, Structural)]
pub enum RasterError {
    /// A read would have written past the end of the page buffer: the
    /// device returned more data than its parameters declared.
    Overflow,
    /// The frame format is a single colour channel, which the encoder does
    /// not accept.
    UnsupportedFormat,
}

/// A raw page: a fully assembled pixel buffer plus its geometry.
#[derive(Debug)]
pub struct RawImage {
    pub pixels: Vec<u8>,
    pub width: usize,
    pub height: usize,
    pub format: RawImageFormat,
}

/// The colour format of a raw page: three samples per pixel or one.
#[derive(Clone, Copy, Debug, PartialEq, Eq, Structural)]
pub enum RawImageFormat {
    Rgb,
    Gray,
}

/// Packages an assembled pixel buffer with the geometry of its parameters.
/// Only the grayscale and full-colour frame formats make a raw page; a
/// single colour channel is reported as unsupported.
pub fn raw_image(parameters: &Parameters, pixels: Vec<u8>) -> (r: Result<
    RawImage,
    RasterError,
>)
    ensures
        match r {
            Ok(image) => {
                &&& (parameters.format == FrameFormat::Gray || parameters.format
                    == FrameFormat::RGB)
                &&& image.pixels@ == pixels@
                &&& image.width == parameters.pixels_per_line
                &&& image.height == parameters.lines
                &&& image.format == (if parameters.format == FrameFormat::Gray {
                    RawImageFormat::Gray
                } else {
                    RawImageFormat::Rgb
                })
            },
            Err(e) => {
                &&& e == RasterError::UnsupportedFormat
                &&& parameters.format != FrameFormat::Gray
                &&& parameters.format != FrameFormat::RGB
            },
        },
{
    let format = match parameters.format {
        FrameFormat::Gray => RawImageFormat::Gray,
        FrameFormat::RGB => RawImageFormat::Rgb,
        _ => {
            return Err(RasterError::UnsupportedFormat);
        },
    };
    Ok(RawImage { pixels, width: parameters.pixels_per_line, height: parameters.lines, format })
}

/// Accumulates scanline-aligned bytes from chunked reads into one
/// contiguous page buffer of fixed total size.
pub struct RasterAssembler {
    /// The page buffer; its length is the full declared page size.
    page: Vec<u8>,
    /// Bytes committed to `page`: always a whole number of scanlines.
    filled: usize,
    /// The staging buffer for one scanline.
    scanline: Vec<u8>,
    /// Bytes staged for the next scanline: always less than one scanline.
    staged: usize,
}

impl RasterAssembler {
    /// The internal consistency every assembler preserves.
    pub closed spec fn wf(&self) -> bool {
        &&& self.scanline@.len() > 0
        &&& self.staged < self.scanline@.len()
        &&& self.filled <= self.page@.len()
        &&& self.filled as int % (self.scanline@.len() as int) == 0
        &&& self.page@.len() as int % (self.scanline@.len() as int) == 0
        &&& self.filled + self.staged <= self.page@.len()
        &&& (self.filled == self.page@.len() ==> self.staged == 0)
    }

    /// The length of one scanline in bytes.
    pub closed spec fn line_len(&self) -> int {
        self.scanline@.len() as int
    }

    /// The full declared page size in bytes.
    pub closed spec fn page_capacity(&self) -> int {
        self.page@.len() as int
    }

    /// Every byte accepted so far, in arrival order: the committed whole
    /// scanlines followed by the staged partial scanline.
    pub closed spec fn accumulated(&self) -> Seq<u8> {
        self.page@.take(self.filled as int) + self.scanline@.take(self.staged as int)
    }

    /// The bytes committed to the page buffer so far.
    pub closed spec fn committed(&self) -> Seq<u8> {
        self.page@.take(self.filled as int)
    }

    /// A fresh assembler for one page with the given geometry.
    pub fn new(parameters: &Parameters) -> (r: RasterAssembler)
        requires
            parameters.wf(),
        ensures
            r.wf(),
            r.line_len() == parameters.bytes_per_line,
            r.page_capacity() == parameters.spec_page_size(),
            r.accumulated() == Seq::<u8>::empty(),
    {
        let total = parameters.page_size();
        let r = RasterAssembler {
            page: vec![0u8; total],
            filled: 0,
            scanline: vec![0u8; parameters.bytes_per_line],
            staged: 0,
        };
        proof {
            assert(r.accumulated() =~= Seq::<u8>::empty());
            let b = parameters.bytes_per_line as int;
            let n = parameters.lines as int;
            assert((b * n) % b == 0) by (nonlinear_arith)
                requires
                    b > 0,
            ;
        }
        r
    }


    /// The full declared page size in bytes.
    pub fn capacity(&self) -> (r: usize)
        ensures
            r == self.page_capacity(),
    {
        self.page.len()
    }

    /// The accumulated bytes never exceed the page capacity.
    pub proof fn lemma_accumulated_bounded(&self)
        requires
            self.wf(),
        ensures
            self.accumulated().len() <= self.page_capacity(),
    {
    }

    /// How many bytes have been accepted so far.
    pub fn accumulated_len(&self) -> (r: usize)
        requires
            self.wf(),
        ensures
            r == self.accumulated().len(),
    {
        let capacity = self.page.len();
        proof {
            assert(self.filled + self.staged <= capacity);
        }
        self.filled + self.staged
    }

    /// How many bytes stand committed as whole scanlines.
    pub fn committed_len(&self) -> (r: usize)
        requires
            self.wf(),
        ensures
            r == self.committed().len(),
    {
        self.filled
    }

    /// How many bytes are staged for the next scanline.
    pub fn staged_len(&self) -> (r: usize)
        requires
            self.wf(),
        ensures
            r == self.accumulated().len() - self.committed().len(),
    {
        self.staged
    }

    /// Whether the page buffer is completely filled.
    pub fn is_complete(&self) -> (r: bool)
        requires
            self.wf(),
        ensures
            r == (self.accumulated().len() == self.page_capacity()),
    {
        proof {
            let f = self.filled as int;
            let l = self.scanline@.len() as int;
            let t = self.page@.len() as int;
            assert(t - f == 0 || t - f >= l) by (nonlinear_arith)
                requires
                    l > 0,
                    f % l == 0,
                    t % l == 0,
                    f <= t,
            ;
        }
        self.filled == self.page.len() && self.staged == 0
    }

    /// Accepts the bytes of one device read. A read that fits is staged
    /// and committed scanline by scanline; one that would run past the end
    /// of the page buffer is rejected whole and changes nothing.
    pub fn push(&mut self, chunk: &[u8]) -> (r: Result<(), RasterError>)
        requires
            old(self).wf(),
        ensures
            final(self).wf(),
            final(self).line_len() == old(self).line_len(),
            final(self).page_capacity() == old(self).page_capacity(),
            if old(self).accumulated().len() + chunk@.len() <= old(self).page_capacity() {
                &&& r is Ok
                &&& final(self).accumulated() == old(self).accumulated() + chunk@
            } else {
                &&& r == Err::<(), RasterError>(RasterError::Overflow)
                &&& final(self).accumulated() == old(self).accumulated()
            },
    {
        if chunk.len() > self.page.len() - self.filled - self.staged {
            proof {
                assert(final(self).accumulated() =~= old(self).accumulated());
            }
            return Err(RasterError::Overflow);
        }
        let ghost old_acc = self.accumulated();
        let line = self.scanline.len();
        let mut i: usize = 0;
        while i < chunk.len()
            invariant
                i <= chunk@.len(),
                line == self.scanline@.len(),
                self.wf(),
                self.line_len() == old(self).line_len(),
                self.page_capacity() == old(self).page_capacity(),
                self.accumulated() =~= old_acc + chunk@.take(i as int),
                old_acc.len() + chunk@.len() <= self.page_capacity(),
            decreases chunk@.len() - i,
        {
            let ghost acc_before = self.accumulated();
            self.scanline.set(self.staged, chunk[i]);
            self.staged = self.staged + 1;
            proof {
                assert(self.page@.take(self.filled as int) + self.scanline@.take(self.staged as int)
                    =~= acc_before + seq![chunk@[i as int]]);
            }
            i = i + 1;
            if self.staged == self.scanline.len() {
                self.flush_scanline();
            }
            proof {
                assert(old_acc + chunk@.take(i as int) =~= (old_acc + chunk@.take(
                    i as int - 1,
                )) + seq![chunk@[i as int - 1]]);
            }
        }
        proof {
            assert(chunk@.take(chunk@.len() as int) =~= chunk@);
        }
        Ok(())
    }

    /// Commits the full staging buffer as the next scanline of the page.
    fn flush_scanline(&mut self)
        requires
            old(self).staged == old(self).scanline@.len(),
            old(self).scanline@.len() > 0,
            old(self).filled + old(self).scanline@.len() <= old(self).page@.len(),
            old(self).filled as int % (old(self).scanline@.len() as int) == 0,
            old(self).page@.len() as int % (old(self).scanline@.len() as int) == 0,
        ensures
            final(self).wf(),
            final(self).line_len() == old(self).line_len(),
            final(self).page_capacity() == old(self).page_capacity(),
            final(self).accumulated() == old(self).page@.take(old(self).filled as int) + old(
                self,
            ).scanline@,
    {
        let line = self.scanline.len();
        let total = self.page.len();
        let ghost old_page = self.page@;
        let mut j: usize = 0;
        while j < line
            invariant
                j <= line,
                line == self.scanline@.len(),
                self.scanline@ == old(self).scanline@,
                self.filled == old(self).filled,
                self.staged == old(self).staged,
                self.page@.len() == old_page.len(),
                total == self.page@.len(),
                self.filled + line <= total,
                self.page@.take(self.filled as int) == old_page.take(self.filled as int),
                self.page@.subrange(self.filled as int, self.filled + j) =~= self.scanline@.take(
                    j as int,
                ),
                forall|k: int|
                    self.filled + j <= k < self.page@.len() ==> self.page@[k] == old_page[k],
            decreases line - j,
        {
            self.page.set(self.filled + j, self.scanline[j]);
            j = j + 1;
        }
        proof {
            assert(self.page@.take(self.filled + line as int) =~= self.page@.take(
                self.filled as int,
            ) + self.page@.subrange(self.filled as int, self.filled + line as int));
        }
        self.filled = self.filled + line;
        self.staged = 0;
        proof {
            assert(self.accumulated() =~= self.page@.take(self.filled as int));
            let f0 = self.filled as int - line as int;
            let l = line as int;
            let total = self.page@.len() as int;
            assert((f0 + l) % l == 0) by (nonlinear_arith)
                requires
                    l > 0,
                    f0 % l == 0,
            ;
            assert(total - (f0 + l) == 0 || total - (f0 + l) >= l) by (nonlinear_arith)
                requires
                    l > 0,
                    (f0 + l) % l == 0,
                    total % l == 0,
                    f0 + l <= total,
            ;
        }
    }

    /// Hands out the finished page buffer. The page must be complete: a
    /// partially filled page never becomes a raw page.
    pub fn into_pixels(self) -> (r: Vec<u8>)
        requires
            self.wf(),
            self.accumulated().len() == self.page_capacity(),
        ensures
            r@ == self.accumulated(),
    {
        proof {
            let f = self.filled as int;
            let l = self.scanline@.len() as int;
            let t = self.page@.len() as int;
            assert(t - f == 0 || t - f >= l) by (nonlinear_arith)
                requires
                    l > 0,
                    f % l == 0,
                    t % l == 0,
                    f <= t,
            ;
            assert(self.accumulated() =~= self.page@);
        }
        self.page
    }
}

/// Law: the assembled page depends only on the bytes read, not on how the
/// reads were chunked. Each accepted `push` appends exactly its chunk, so
/// the accumulated bytes after any run of pushes are `fed_bytes` of the
/// chunks; any two chunkings of the same byte stream - one-byte reads,
/// whole-page reads, or anything between - leave the assembler with the
/// same accumulated page bytes.
pub proof fn lemma_chunking_irrelevant(chunks1: Seq<Seq<u8>>, chunks2: Seq<Seq<u8>>)
    requires
        chunks1.flatten() == chunks2.flatten(),
    ensures
        fed_bytes(chunks1) == fed_bytes(chunks2),
{
    lemma_fed_bytes_is_flatten(chunks1);
    lemma_fed_bytes_is_flatten(chunks2);
}

} // verus!
