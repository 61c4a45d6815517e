use scanpipe::device::{FrameFormat, Parameters};
use scanpipe::raster::{raw_image, RasterAssembler, RasterError, RawImageFormat};

fn gray_params(bytes_per_line: i32, lines: i32) -> Parameters {
    Parameters::from_device_report(0, 1, bytes_per_line, bytes_per_line, lines, 8).unwrap()
}

fn rgb_params(bytes_per_line: i32, lines: i32) -> Parameters {
    Parameters::from_device_report(1, 1, bytes_per_line, bytes_per_line / 3, lines, 8).unwrap()
}

fn page_bytes(n: usize) -> Vec<u8> {
    (0..n).map(|i| (i % 251) as u8).collect()
}

fn assemble_chunked(params: &Parameters, data: &[u8], chunk: usize) -> Vec<u8> {
    let mut a = RasterAssembler::new(params);
    let mut fed = 0;
    while fed < data.len() {
        let end = (fed + chunk).min(data.len());
        a.push(&data[fed..end]).unwrap();
        fed = end;
    }
    assert!(a.is_complete());
    a.into_pixels()
}

#[test]
fn chunking_does_not_change_the_page() {
    let params = gray_params(30, 7);
    let data = page_bytes(210);
    let whole = assemble_chunked(&params, &data, 210);
    assert_eq!(whole, data);
    for chunk in [1, 2, 3, 7, 29, 30, 31, 209, 210] {
        let page = assemble_chunked(&params, &data, chunk);
        assert_eq!(page, whole);
    }
}

#[test]
fn thirty_seven_byte_reads_stage_partial_scanline() {
    // An RGB page with 300-byte scanlines, read 37 bytes at a time: after
    // 9 reads (333 bytes) exactly one scanline is committed and 33 bytes
    // stay staged for the next one.
    let params = rgb_params(300, 4);
    let data = page_bytes(1200);
    let mut a = RasterAssembler::new(&params);
    for k in 0..9 {
        a.push(&data[k * 37..(k + 1) * 37]).unwrap();
    }
    assert_eq!(a.accumulated_len(), 333);
    assert_eq!(a.committed_len(), 300);
    assert_eq!(a.staged_len(), 33);
}

#[test]
fn oversized_read_is_rejected_whole() {
    let params = gray_params(10, 2);
    let mut a = RasterAssembler::new(&params);
    a.push(&[1u8; 15]).unwrap();
    // 6 more bytes would pass the 20-byte page: rejected, nothing changes.
    let r = a.push(&[2u8; 6]);
    assert_eq!(r, Err(RasterError::Overflow));
    assert_eq!(a.accumulated_len(), 15);
    assert_eq!(a.committed_len(), 10);
    // The fitting remainder is still accepted afterwards.
    a.push(&[3u8; 5]).unwrap();
    assert!(a.is_complete());
}

#[test]
fn read_past_full_page_is_rejected() {
    let params = gray_params(4, 2);
    let mut a = RasterAssembler::new(&params);
    a.push(&[9u8; 8]).unwrap();
    assert!(a.is_complete());
    assert_eq!(a.push(&[1u8]), Err(RasterError::Overflow));
}

#[test]
fn raw_image_keeps_geometry_and_maps_format() {
    let params = gray_params(300, 400);
    let data = page_bytes(120000);
    let image = raw_image(&params, data.clone()).unwrap();
    assert_eq!(image.width, 300);
    assert_eq!(image.height, 400);
    assert_eq!(image.format, RawImageFormat::Gray);
    assert_eq!(image.pixels, data);

    let params = rgb_params(300, 4);
    let image = raw_image(&params, page_bytes(1200)).unwrap();
    assert_eq!(image.format, RawImageFormat::Rgb);
    assert_eq!(image.width, 100);
}

#[test]
fn single_channel_frame_is_unsupported() {
    // Frame-format code 2 is the red channel.
    let params = Parameters::from_device_report(2, 0, 300, 300, 400, 8).unwrap();
    assert!(matches!(params.format, FrameFormat::Red));
    let r = raw_image(&params, vec![0u8; 120000]);
    assert_eq!(r.err(), Some(RasterError::UnsupportedFormat));
}
