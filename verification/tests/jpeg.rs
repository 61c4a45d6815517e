use scanpipe::jpeg::{BlockSink, EncodeError, JpegEncoder, JpegFormat, MAX_QUALITY};
use scanpipe::raster::{RawImage, RawImageFormat};

fn sink_run(block: usize, writes: &[&[u8]]) -> Vec<u8> {
    let mut sink = BlockSink::new(block);
    for w in writes {
        sink.write(w);
    }
    sink.finish()
}

#[test]
fn sink_output_is_independent_of_block_size() {
    let a = vec![5u8; 10000];
    let b = vec![7u8; 3];
    let writes: Vec<&[u8]> = vec![&a, &[], &b];
    let out1 = sink_run(1, &writes);
    let out2 = sink_run(16 * 1024, &writes);
    let out3 = sink_run(7, &writes);
    assert_eq!(out1, out2);
    assert_eq!(out1, out3);
    // Exactly the written bytes: no padded or garbage tail.
    assert_eq!(out1.len(), 10003);
    assert_eq!(out1.last(), Some(&7u8));
}

#[test]
fn sink_concatenates_writes_in_order() {
    let out = sink_run(4, &[b"abc", b"defgh", b"", b"i"]);
    assert_eq!(out, b"abcdefghi".to_vec());
}

fn small_rgb_image() -> RawImage {
    // 2 pixels wide, 3 rows, RGB: 6 bytes per row.
    let pixels: Vec<u8> = (0u8..18u8).collect();
    RawImage { pixels, width: 2, height: 3, format: RawImageFormat::Rgb }
}

#[test]
fn encoder_hands_out_rows_in_order() {
    let mut enc = JpegEncoder::new(small_rgb_image(), 80, 16).unwrap();
    assert_eq!(enc.next_scanline(), Some((0u8..6u8).collect::<Vec<u8>>()));
    assert_eq!(enc.next_scanline(), Some((6u8..12u8).collect::<Vec<u8>>()));
    assert_eq!(enc.next_scanline(), Some((12u8..18u8).collect::<Vec<u8>>()));
    assert_eq!(enc.next_scanline(), None);
}

#[test]
fn encoder_collects_output_and_packages_the_page() {
    let mut enc = JpegEncoder::new(small_rgb_image(), 90, 4).unwrap();
    while let Some(_row) = enc.next_scanline() {
        // The compressor would consume the row here and emit some bytes.
        enc.write_output(b"chunk.");
    }
    let jpeg = enc.finish();
    assert_eq!(jpeg.bytes, b"chunk.chunk.chunk.".to_vec());
    assert_eq!(jpeg.width, 2);
    assert_eq!(jpeg.height, 3);
    assert!(matches!(jpeg.format, JpegFormat::Rgb));
}

#[test]
fn encoder_rejects_bad_quality() {
    let r = JpegEncoder::new(small_rgb_image(), MAX_QUALITY + 1, 16);
    match r {
        Err((image, e)) => {
            assert_eq!(e, EncodeError::BadQuality);
            assert_eq!(image.width, 2);
        },
        Ok(_) => panic!("quality above the bound must be rejected"),
    }
}

#[test]
fn encoder_rejects_mismatched_geometry() {
    let image = RawImage { pixels: vec![0u8; 17], width: 2, height: 3, format: RawImageFormat::Rgb };
    match JpegEncoder::new(image, 80, 16) {
        Err((_, e)) => assert_eq!(e, EncodeError::BadGeometry),
        Ok(_) => panic!("a short pixel buffer must be rejected"),
    }
    let image = RawImage { pixels: vec![], width: 0, height: 3, format: RawImageFormat::Gray };
    match JpegEncoder::new(image, 80, 16) {
        Err((_, e)) => assert_eq!(e, EncodeError::BadGeometry),
        Ok(_) => panic!("a zero width must be rejected"),
    }
}

#[test]
fn gray_has_one_sample_per_pixel() {
    // 4 wide, 2 rows, one sample per pixel.
    let pixels: Vec<u8> = (0u8..8u8).collect();
    let image = RawImage { pixels, width: 4, height: 2, format: RawImageFormat::Gray };
    let mut enc = JpegEncoder::new(image, 0, 1).unwrap();
    assert_eq!(enc.next_scanline(), Some(vec![0, 1, 2, 3]));
    assert_eq!(enc.next_scanline(), Some(vec![4, 5, 6, 7]));
    assert_eq!(enc.next_scanline(), None);
}
