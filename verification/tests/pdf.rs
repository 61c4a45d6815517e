use scanpipe::jpeg::{Jpeg, JpegFormat};
use scanpipe::pdf::{milli_points, page_micro_mm, PdfBuilder};

fn find(haystack: &[u8], needle: &[u8], from: usize) -> Option<usize> {
    if needle.is_empty() || haystack.len() < needle.len() {
        return None;
    }
    (from..=haystack.len() - needle.len()).find(|&i| &haystack[i..i + needle.len()] == needle)
}

fn jpeg_page(tag: u8, width: usize, height: usize, format: JpegFormat) -> Jpeg {
    let mut bytes = vec![0xFFu8, 0xD8];
    bytes.extend(std::iter::repeat(tag).take(64));
    bytes.extend([0xFFu8, 0xD9]);
    Jpeg { bytes, format, width, height }
}

#[test]
fn physical_size_follows_pixels_over_resolution() {
    // 100x200 pixels at 300 dpi is about 8.47 x 16.93 mm; 150x150 is
    // exactly 12.70 x 12.70 mm. Sizes in micrometres.
    assert_eq!(page_micro_mm(100, 300), 8466);
    assert_eq!(page_micro_mm(200, 300), 16933);
    assert_eq!(page_micro_mm(150, 300), 12700);
    // And in milli-points, as the page geometry embeds them.
    assert_eq!(milli_points(100, 300), 24000);
    assert_eq!(milli_points(200, 300), 48000);
    assert_eq!(milli_points(150, 300), 36000);
}

#[test]
fn document_embeds_pages_in_order_with_their_geometry() {
    let mut b = PdfBuilder::new("Document", 300);
    let p1 = jpeg_page(0xAA, 100, 200, JpegFormat::Gray);
    let p2 = jpeg_page(0xBB, 150, 150, JpegFormat::Rgb);
    b.add_page(p1.clone()).unwrap();
    b.add_page(p2.clone()).unwrap();
    assert_eq!(b.page_count(), 2);
    let out = b.into_bytes();

    assert!(out.starts_with(b"%PDF-1.4\n"));
    assert!(out.ends_with(b"%%EOF\n"));
    assert!(find(&out, b"/Count 2", 0).is_some());
    assert!(find(&out, b"/Title (Document)", 0).is_some());

    // Both images appear, in page order, verbatim.
    let at1 = find(&out, &p1.bytes, 0).expect("first page bytes embedded");
    let at2 = find(&out, &p2.bytes, 0).expect("second page bytes embedded");
    assert!(at1 < at2);

    // The first page is 24 x 48 points, the second 36 x 36.
    assert!(find(&out, b"/MediaBox [0 0 24.000 48.000]", 0).is_some());
    assert!(find(&out, b"/MediaBox [0 0 36.000 36.000]", 0).is_some());

    // Image objects carry the pixel geometry, colour space and filter.
    assert!(find(&out, b"/Width 100 /Height 200 /ColorSpace /DeviceGray", 0).is_some());
    assert!(find(&out, b"/Width 150 /Height 150 /ColorSpace /DeviceRGB", 0).is_some());
    assert!(find(&out, b"/Filter /DCTDecode", 0).is_some());
}

#[test]
fn title_parentheses_are_escaped() {
    let mut b = PdfBuilder::new("a(b)c\\d", 300);
    b.add_page(jpeg_page(1, 10, 10, JpegFormat::Gray)).unwrap();
    let out = b.into_bytes();
    assert!(find(&out, b"/Title (a\\(b\\)c\\\\d)", 0).is_some());
}

#[test]
fn forgotten_document_never_holds_the_abandoned_page() {
    // A two-page session where page 2's scan is abandoned: only page 1
    // was ever delivered, so the finalized document holds one page - or
    // none, when the whole document is dropped on confirmation. The
    // abandoned page's bytes never appear.
    let delivered = jpeg_page(0x11, 100, 100, JpegFormat::Gray);
    let abandoned = jpeg_page(0x22, 100, 100, JpegFormat::Gray);

    let mut kept = PdfBuilder::new("Document", 300);
    kept.add_page(delivered.clone()).unwrap();
    // The second scan ended cancelled: no page to add.
    assert_eq!(kept.page_count(), 1);
    let out = kept.into_bytes();
    assert!(find(&out, b"/Count 1", 0).is_some());
    assert!(find(&out, &delivered.bytes, 0).is_some());
    assert!(find(&out, &abandoned.bytes, 0).is_none());

    let mut dropped = PdfBuilder::new("Document", 300);
    dropped.add_page(delivered.clone()).unwrap();
    dropped.forget_pages();
    assert_eq!(dropped.page_count(), 0);
    let out = dropped.into_bytes();
    assert!(find(&out, b"/Count 0", 0).is_some());
    assert!(find(&out, &delivered.bytes, 0).is_none());
}

#[test]
fn empty_document_still_has_header_and_trailer() {
    let b = PdfBuilder::new("empty", 72);
    let out = b.into_bytes();
    assert!(out.starts_with(b"%PDF-1.4\n"));
    assert!(find(&out, b"/Count 0", 0).is_some());
    assert!(find(&out, b"startxref", 0).is_some());
    assert!(out.ends_with(b"%%EOF\n"));
}

#[test]
fn xref_offsets_point_at_their_objects() {
    let mut b = PdfBuilder::new("x", 300);
    b.add_page(jpeg_page(3, 10, 20, JpegFormat::Gray)).unwrap();
    let out = b.into_bytes();
    // Parse the offsets out of the cross-reference table and check each
    // one lands on "<number> 0 obj".
    let xref = find(&out, b"xref\n", 0).expect("xref table present");
    let table = &out[xref..];
    let mut entry = find(table, b" 00000 n \n", 0);
    let mut object_number = 1usize;
    while let Some(e) = entry {
        let off_text = std::str::from_utf8(&table[e - 10..e]).unwrap();
        let off: usize = off_text.parse().unwrap();
        let expect = format!("{} 0 obj", object_number);
        assert_eq!(&out[off..off + expect.len()], expect.as_bytes());
        object_number += 1;
        entry = find(table, b" 00000 n \n", e + 1);
    }
    assert_eq!(object_number, 7);
}
