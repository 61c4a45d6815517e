//! The compressed-page side of the pipeline: a growable block sink that
//! adapts a push-style compressor, and the encoder driver that feeds it
//! scanlines.
//!
//! The compressor writes into a caller-supplied buffer through three
//! lifecycle callbacks: initialize one block, grow by one block when the
//! current block is exhausted, and truncate the unused tail of the last
//! block on finalization. The block size is a tuning constant, not a
//! correctness constraint: the finished bytes are exactly what the
//! compressor wrote, for every positive block size.

use vstd::prelude::*;

use crate::raster::{RawImage, RawImageFormat};
use crate::stream::{fed_bytes, lemma_fed_bytes_is_flatten};

verus! {

/// The block granularity of the compressor's output buffer.
pub const JPEG_BLOCK_SIZE: usize = 16 * 1024;

/// One compressed page, ready for embedding into a document.
#[derive(Clone, Debug)]
pub struct Jpeg {
    pub bytes: Vec<u8>,
    pub format: JpegFormat,
    pub width: usize,
    pub height: usize,
}

/// The colour space of a compressed page.
#[derive(Clone, Copy, Debug, PartialEq, Eq, Structural)]
pub enum JpegFormat {
    Rgb,
    Gray,
}

/// A failure while preparing a page for the compressor.
#[derive(Clone, Copy, Debug, PartialEq, Eq, Structural)]
pub enum EncodeError {
    /// The quality setting lies outside the accepted range.
    BadQuality,
    /// The pixel buffer does not match the declared width, height and
    /// samples per pixel.
    BadGeometry,
}

/// The highest accepted quality setting.
pub const MAX_QUALITY: u8 = 100;

/// Samples per pixel of a raw-page colour format: three for full colour,
/// one for grayscale.
pub open spec fn spec_samples_per_pixel(format: RawImageFormat) -> int {
    match format {
        RawImageFormat::Rgb => 3,
        RawImageFormat::Gray => 1,
    }
}

/// Samples per pixel of a raw-page colour format.
pub fn samples_per_pixel(format: RawImageFormat) -> (r: usize)
    ensures
        r == spec_samples_per_pixel(format),
{
    match format {
        RawImageFormat::Rgb => 3,
        RawImageFormat::Gray => 1,
    }
}

/// The growable memory sink behind the compressor's three lifecycle
/// callbacks. The buffer always holds a whole number of blocks; `written`
/// bytes of it are compressor output and the rest is the free tail of the
/// current block.
pub struct BlockSink {
    buf: Vec<u8>,
    written: usize,
    block: usize,
}

impl BlockSink {
    /// The internal consistency every sink preserves.
    pub closed spec fn wf(&self) -> bool {
        &&& self.block > 0
        &&& self.written <= self.buf@.len()
    }

    /// The block size this sink was created with.
    pub closed spec fn block_size(&self) -> int {
        self.block as int
    }

    /// The bytes the compressor has written so far.
    pub closed spec fn content(&self) -> Seq<u8> {
        self.buf@.take(self.written as int)
    }

    /// Initializes the sink with one block of capacity and an empty
    /// content. Any positive block size must produce byte-identical
    /// output.
    pub fn new(block: usize) -> (r: BlockSink)
        requires
            block > 0,
        ensures
            r.wf(),
            r.block_size() == block,
            r.content() == Seq::<u8>::empty(),
    {
        let r = BlockSink { buf: vec![0u8; block], written: 0, block };
        proof {
            assert(r.content() =~= Seq::<u8>::empty());
        }
        r
    }

    /// Appends compressor output. When the current block is exhausted the
    /// buffer grows by one more block, exactly as the grow-on-full
    /// callback does; the content is the old content followed by the
    /// chunk, whatever the block size.
    pub fn write(&mut self, chunk: &[u8])
        requires
            old(self).wf(),
            old(self).content().len() + chunk@.len() + old(self).block_size() <= usize::MAX,
        ensures
            final(self).wf(),
            final(self).block_size() == old(self).block_size(),
            final(self).content() == old(self).content() + chunk@,
    {
        let ghost old_content = self.content();
        let mut i: usize = 0;
        while i < chunk.len()
            invariant
                i <= chunk@.len(),
                self.wf(),
                self.block_size() == old(self).block_size(),
                self.content() =~= old_content + chunk@.take(i as int),
                old_content.len() + chunk@.len() + self.block_size() <= usize::MAX,
            decreases chunk@.len() - i,
        {
            if self.written == self.buf.len() {
                proof {
                    assert(self.content().len() == self.written);
                    assert(self.content().len() == old_content.len() + i);
                }
                let grown = self.buf.len() + self.block;
                self.buf.resize(grown, 0u8);
                proof {
                    assert(self.content() =~= old_content + chunk@.take(i as int));
                }
            }
            let ghost content_before = self.content();
            self.buf.set(self.written, chunk[i]);
            self.written = self.written + 1;
            i = i + 1;
            proof {
                assert(self.content() =~= content_before + seq![chunk@[i - 1]]);
                assert(old_content + chunk@.take(i as int) =~= (old_content + chunk@.take(
                    i as int - 1,
                )) + seq![chunk@[i - 1]]);
            }
        }
        proof {
            assert(chunk@.take(chunk@.len() as int) =~= chunk@);
        }
    }

    /// Finalizes the sink: truncates the unused tail of the last block and
    /// hands back exactly the bytes the compressor wrote - no padded or
    /// garbage tail, whatever the block size was.
    pub fn finish(self) -> (r: Vec<u8>)
        requires
            self.wf(),
        ensures
            r@ == self.content(),
    {
        let mut buf = self.buf;
        buf.truncate(self.written);
        proof {
            assert(buf@ =~= self.buf@.take(self.written as int));
        }
        buf
    }
}

/// Law: the bytes a sink finishes with are exactly the concatenation of
/// the chunks written to it. The block size never appears: two sinks with
/// different positive block sizes, fed the same writes, finish with
/// identical bytes of the same length.
pub proof fn lemma_sink_output_is_writes(writes: Seq<Seq<u8>>)
    ensures
        fed_bytes(writes) == writes.flatten(),
{
    lemma_fed_bytes_is_flatten(writes);
}

/// Drives the push-style compressor over one raw page: hands out the
/// scanlines one row at a time in order, collects the compressor's output
/// through the block sink, and packages the finished page.
pub struct JpegEncoder {
    image: RawImage,
    quality: u8,
    rows_fed: usize,
    sink: BlockSink,
}

impl JpegEncoder {
    /// The internal consistency every encoder preserves.
    pub closed spec fn wf(&self) -> bool {
        &&& self.sink.wf()
        &&& self.rows_fed <= self.image.height
        &&& self.quality <= MAX_QUALITY
        &&& self.image.pixels@.len() == self.image.height * spec_samples_per_pixel(
            self.image.format,
        ) * self.image.width
    }

    /// The page being encoded.
    pub closed spec fn image(&self) -> RawImage {
        self.image
    }

    /// The quality setting handed to the compressor.
    pub closed spec fn quality(&self) -> u8 {
        self.quality
    }

    /// How many scanlines the compressor has consumed.
    pub closed spec fn rows_fed(&self) -> int {
        self.rows_fed as int
    }

    /// The compressor output collected so far.
    pub closed spec fn output(&self) -> Seq<u8> {
        self.sink.content()
    }

    /// The bytes of one row: row `i` is the `i`-th stride of the pixel
    /// buffer, where the stride is width times samples per pixel.
    pub open spec fn spec_row(image: RawImage, i: int) -> Seq<u8> {
        let stride = image.width * spec_samples_per_pixel(image.format);
        image.pixels@.subrange(i * stride, (i + 1) * stride)
    }

    /// Validates a page and a quality setting and prepares the sink. The
    /// quality must lie in 0 to 100 and the pixel buffer must hold exactly
    /// height by width by samples-per-pixel bytes of a positive geometry;
    /// anything else is an encode failure, reported before the compressor
    /// is touched.
    pub fn new(image: RawImage, quality: u8, block: usize) -> (r: Result<JpegEncoder, (
        RawImage,
        EncodeError,
    )>)
        requires
            block > 0,
        ensures
            match r {
                Ok(enc) => {
                    &&& enc.wf()
                    &&& quality <= MAX_QUALITY
                    &&& enc.image() == image
                    &&& enc.quality() == quality
                    &&& enc.rows_fed() == 0
                    &&& enc.output() == Seq::<u8>::empty()
                    &&& enc.sink_block_size() == block
                    &&& image.width > 0
                    &&& image.height > 0
                    &&& image.pixels@.len() == image.height * spec_samples_per_pixel(image.format)
                        * image.width
                },
                Err((returned, e)) => {
                    &&& returned == image
                    &&& (e == EncodeError::BadQuality <==> quality > MAX_QUALITY)
                    &&& (quality <= MAX_QUALITY ==> e == EncodeError::BadGeometry && (image.width
                        == 0 || image.height == 0 || image.pixels@.len() != image.height
                        * spec_samples_per_pixel(image.format) * image.width))
                },
            },
    {
        if quality > MAX_QUALITY {
            return Err((image, EncodeError::BadQuality));
        }
        if image.width == 0 || image.height == 0 {
            return Err((image, EncodeError::BadGeometry));
        }
        let samples = samples_per_pixel(image.format);
        proof {
            assert(image.pixels@.len() <= usize::MAX) by {
                assert(image.pixels.len() == image.pixels@.len());
            }
            let h = image.height as int;
            let s = spec_samples_per_pixel(image.format);
            let w = image.width as int;
            vstd::arithmetic::mul::lemma_mul_is_associative(h, s, w);
            vstd::arithmetic::mul::lemma_mul_is_commutative(w, s);
            vstd::arithmetic::mul::lemma_mul_is_commutative(s, w);
            assert(h * (w * s) >= w * s) by (nonlinear_arith)
                requires
                    h >= 1,
                    w * s >= 0,
            ;
        }
        let row_bytes = match image.width.checked_mul(samples) {
            Some(n) => n,
            None => {
                return Err((image, EncodeError::BadGeometry));
            },
        };
        let expected = match image.height.checked_mul(row_bytes) {
            Some(n) => n,
            None => {
                return Err((image, EncodeError::BadGeometry));
            },
        };
        if image.pixels.len() != expected {
            return Err((image, EncodeError::BadGeometry));
        }
        Ok(JpegEncoder { image, quality, rows_fed: 0, sink: BlockSink::new(block) })
    }

    /// Hands out the next scanline for the compressor, in row order, until
    /// every row has been consumed.
    pub fn next_scanline(&mut self) -> (r: Option<Vec<u8>>)
        requires
            old(self).wf(),
        ensures
            final(self).wf(),
            final(self).image() == old(self).image(),
            final(self).quality() == old(self).quality(),
            final(self).output() == old(self).output(),
            final(self).sink_block_size() == old(self).sink_block_size(),
            if old(self).rows_fed() < old(self).image().height {
                &&& final(self).rows_fed() == old(self).rows_fed() + 1
                &&& r matches Some(row) && row@ == Self::spec_row(
                    old(self).image(),
                    old(self).rows_fed(),
                )
            } else {
                &&& final(self).rows_fed() == old(self).rows_fed()
                &&& r is None
            },
    {
        if self.rows_fed >= self.image.height {
            return None;
        }
        let samples = samples_per_pixel(self.image.format);
        proof {
            assert(self.image.pixels@.len() <= usize::MAX) by {
                assert(self.image.pixels.len() == self.image.pixels@.len());
            }
            let h = self.image.height as int;
            let s = spec_samples_per_pixel(self.image.format);
            let w = self.image.width as int;
            let row = self.rows_fed as int;
            vstd::arithmetic::mul::lemma_mul_is_associative(h, s, w);
            vstd::arithmetic::mul::lemma_mul_is_commutative(w, s);
            vstd::arithmetic::mul::lemma_mul_is_commutative(s, w);
            assert(w * s <= h * (w * s)) by (nonlinear_arith)
                requires
                    h >= 1,
                    w * s >= 0,
            ;
            assert((row + 1) * (w * s) <= h * (w * s)) by (nonlinear_arith)
                requires
                    row + 1 <= h,
                    w * s >= 0,
            ;
            assert(row * (w * s) >= 0) by (nonlinear_arith)
                requires
                    row >= 0,
                    w * s >= 0,
            ;
            assert(row * (w * s) + (w * s) == (row + 1) * (w * s)) by (nonlinear_arith);
        }
        let stride = self.image.width * samples;
        let start = self.rows_fed * stride;
        let end = start + stride;
        let row = vstd::slice::slice_to_vec(
            vstd::slice::slice_subrange(self.image.pixels.as_slice(), start, end),
        );
        self.rows_fed = self.rows_fed + 1;
        Some(row)
    }

    /// Collects a chunk of compressor output through the growable sink.
    pub fn write_output(&mut self, chunk: &[u8])
        requires
            old(self).wf(),
            old(self).output().len() + chunk@.len() + old(self).sink_block_size() <= usize::MAX,
        ensures
            final(self).wf(),
            final(self).image() == old(self).image(),
            final(self).quality() == old(self).quality(),
            final(self).rows_fed() == old(self).rows_fed(),
            final(self).sink_block_size() == old(self).sink_block_size(),
            final(self).output() == old(self).output() + chunk@,
    {
        self.sink.write(chunk);
    }

    /// The block size of the sink behind this encoder.
    pub closed spec fn sink_block_size(&self) -> int {
        self.sink.block_size()
    }

    /// Finalizes the encoding once every row has been fed: truncates the
    /// sink and packages the compressed bytes with the page geometry. The
    /// bytes are exactly the compressor's output - their length does not
    /// depend on the block size, and no padded tail survives.
    pub fn finish(self) -> (r: Jpeg)
        requires
            self.wf(),
            self.rows_fed() == self.image().height,
        ensures
            r.bytes@ == self.output(),
            r.width == self.image().width,
            r.height == self.image().height,
            r.format == (if self.image().format == RawImageFormat::Gray {
                JpegFormat::Gray
            } else {
                JpegFormat::Rgb
            }),
    {
        let format = match self.image.format {
            RawImageFormat::Gray => JpegFormat::Gray,
            RawImageFormat::Rgb => JpegFormat::Rgb,
        };
        Jpeg {
            bytes: self.sink.finish(),
            format,
            width: self.image.width,
            height: self.image.height,
        }
    }
}

} // verus!
