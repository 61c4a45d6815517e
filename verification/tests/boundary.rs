use scanpipe::cancel::{CancellationToken, Decision, SignalState};
use scanpipe::config::{Config, Devices, Print, Scan, ScannerOverrides, Telegram};
use scanpipe::device::{
    from_status, Backend, Device, FrameFormat, Parameters, ProtocolError, SaneError,
};
use scanpipe::dialog::{ScanAction, ScanCancel, ScanMode};
use scanpipe::print::{
    print_request_options, ColorMode, Document, DocumentFormat, DocumentType, MediaFormat,
    Orientation, PrintError, PrintQuality, Printer, Sides,
};

#[test]
fn status_codes_map_to_their_errors() {
    assert_eq!(from_status(0), Ok(()));
    assert_eq!(from_status(1), Err(SaneError::Unsupported));
    assert_eq!(from_status(2), Err(SaneError::Cancelled));
    assert_eq!(from_status(3), Err(SaneError::DeviceBusy));
    assert_eq!(from_status(4), Err(SaneError::Inval));
    assert_eq!(from_status(5), Err(SaneError::EOF));
    assert_eq!(from_status(6), Err(SaneError::Jammed));
    assert_eq!(from_status(7), Err(SaneError::NoDocs));
    assert_eq!(from_status(8), Err(SaneError::CoverOpen));
    assert_eq!(from_status(9), Err(SaneError::IO));
    assert_eq!(from_status(10), Err(SaneError::NoMem));
    assert_eq!(from_status(11), Err(SaneError::AccessDenied));
}

#[test]
fn frame_format_codes_decode() {
    assert_eq!(FrameFormat::from_code(0), Some(FrameFormat::Gray));
    assert_eq!(FrameFormat::from_code(1), Some(FrameFormat::RGB));
    assert_eq!(FrameFormat::from_code(2), Some(FrameFormat::Red));
    assert_eq!(FrameFormat::from_code(3), Some(FrameFormat::Green));
    assert_eq!(FrameFormat::from_code(4), Some(FrameFormat::Blue));
    assert_eq!(FrameFormat::from_code(5), None);
}

#[test]
fn malformed_parameter_reports_are_rejected() {
    assert!(Parameters::from_device_report(0, 1, 300, 300, 400, 8).is_ok());
    assert_eq!(
        Parameters::from_device_report(9, 1, 300, 300, 400, 8).err(),
        Some(ProtocolError::UnknownFrameFormat)
    );
    assert_eq!(
        Parameters::from_device_report(0, 2, 300, 300, 400, 8).err(),
        Some(ProtocolError::BadLastFrameFlag)
    );
    assert_eq!(
        Parameters::from_device_report(0, 1, 0, 300, 400, 8).err(),
        Some(ProtocolError::NonPositiveGeometry)
    );
    assert_eq!(
        Parameters::from_device_report(0, 1, 300, -1, 400, 8).err(),
        Some(ProtocolError::NonPositiveGeometry)
    );
    assert_eq!(
        Parameters::from_device_report(0, 1, 300, 300, 400, 0).err(),
        Some(ProtocolError::NonPositiveGeometry)
    );
    let p = Parameters::from_device_report(0, 0, 300, 300, 400, 8).unwrap();
    assert!(!p.last_frame);
    assert_eq!(p.page_size(), 120000);
}

fn device(name: &str) -> Device {
    Device {
        name: name.to_string(),
        vendor: "v".to_string(),
        model: "m".to_string(),
        ty: "flatbed scanner".to_string(),
    }
}

#[test]
fn backend_finds_devices_by_name() {
    let backend = Backend::new(vec![device("one"), device("two"), device("two")]);
    assert_eq!(backend.get_all_devices().len(), 3);
    assert_eq!(backend.get_devices().len(), 3);
    let found = backend.find_device_by_name(&"two".to_string()).unwrap();
    assert_eq!(found.name, "two");
    assert!(backend.find_device_by_name(&"three".to_string()).is_none());
}

#[test]
fn cancellation_latches() {
    let mut t = CancellationToken::new();
    assert_eq!(t.check(SignalState::Quiet), Decision::Continue);
    assert_eq!(t.check(SignalState::Quiet), Decision::Continue);
    assert_eq!(t.check(SignalState::Fired), Decision::Cancelled);
    // Once cancelled, every later checkpoint stays cancelled.
    assert_eq!(t.check(SignalState::Quiet), Decision::Cancelled);

    let mut t = CancellationToken::new();
    assert_eq!(t.check(SignalState::Dropped), Decision::Cancelled);
    assert_eq!(t.check(SignalState::Quiet), Decision::Cancelled);
}

#[test]
fn dialog_names_round_trip() {
    for m in [ScanMode::SinglePage, ScanMode::Document] {
        assert_eq!(ScanMode::parse(m.as_str()), Some(m));
    }
    for a in [ScanAction::Done, ScanAction::Scan, ScanAction::Preview, ScanAction::Cancel] {
        assert_eq!(ScanAction::parse(a.as_str()), Some(a));
    }
    for c in [ScanCancel::Forget, ScanCancel::Cancel] {
        assert_eq!(ScanCancel::parse(c.as_str()), Some(c));
    }
    assert_eq!(ScanMode::parse("TriplePage"), None);
    assert_eq!(ScanAction::parse(""), None);
    assert_eq!(ScanCancel::parse("forget"), None);
}

#[test]
fn only_listed_users_are_allowed() {
    let t = Telegram {
        token: "example-token".to_string(),
        allowed_users: vec!["ada".to_string(), "grace".to_string()],
    };
    assert!(t.is_allowed(&"ada".to_string()));
    assert!(t.is_allowed(&"grace".to_string()));
    assert!(!t.is_allowed(&"mallory".to_string()));
    assert!(!t.is_allowed(&"Ada".to_string()));
}

#[test]
fn device_overrides_pick_the_right_scanner() {
    let config = Config {
        telegram: Telegram { token: String::new(), allowed_users: vec![] },
        devices: Devices { printer: None, scanner: Some("epson".to_string()) },
        print: Print {
            paper_size: None,
            orientation: None,
            sides: None,
            color_mode: None,
            quality: None,
        },
        scan: Scan { preview_dpi: 75, page_dpi: 300, page_quality: 80, common_options: vec![] },
        scanner: vec![
            ScannerOverrides {
                device: "epson".to_string(),
                overrides: vec![("mode".to_string(), "Color".to_string())],
            },
            ScannerOverrides { device: "hp".to_string(), overrides: vec![] },
        ],
    };
    let o = config.device_overrides(&"epson".to_string()).unwrap();
    assert_eq!(o.len(), 1);
    assert_eq!(o[0].0, "mode");
    assert!(config.device_overrides(&"canon".to_string()).is_none());
}

#[test]
fn document_format_is_judged_from_the_name() {
    assert_eq!(DocumentFormat::from_document_name("a.txt"), Some(DocumentFormat::Text));
    assert_eq!(DocumentFormat::from_document_name("Report.PDF"), Some(DocumentFormat::Pdf));
    assert_eq!(DocumentFormat::from_document_name("letter.docx"), Some(DocumentFormat::Word));
    assert_eq!(DocumentFormat::from_document_name("letter.DOC"), Some(DocumentFormat::Word));
    assert_eq!(DocumentFormat::from_document_name("photo.png"), None);
    assert_eq!(DocumentFormat::from_document_name("pdf"), None);
    assert_eq!(DocumentFormat::from_document_name(""), None);
}

#[test]
fn document_types_carry_their_media_tags() {
    assert_eq!(DocumentType::from_format(DocumentFormat::Text), DocumentType::PlainText);
    assert_eq!(DocumentType::from_format(DocumentFormat::Pdf), DocumentType::Pdf);
    assert_eq!(DocumentType::from_format(DocumentFormat::Word), DocumentType::Pdf);
    assert_eq!(DocumentType::PlainText.value(), "text/plain");
    assert_eq!(DocumentType::Pdf.value(), "application/pdf");
}

#[test]
fn documents_keep_name_type_and_bytes() {
    let d = Document::new("cv.pdf".to_string(), DocumentType::Pdf, vec![1, 2, 3]);
    assert_eq!(d.name().as_str(), "cv.pdf");
    assert_eq!(d.ty(), DocumentType::Pdf);
    assert_eq!(d.bytes(), &vec![1, 2, 3]);
    let p = Printer::new("laser".to_string());
    assert_eq!(p.name().as_str(), "laser");
}

#[test]
fn print_errors_describe_themselves() {
    assert_eq!(PrintError::NoDefaultPrinter.message(), "no default printer");
    assert_eq!(
        PrintError::RemoteFile("timed out".to_string()).message(),
        "failed to get remote file info: timed out"
    );
    assert_eq!(PrintError::Printer("job refused".to_string()).message(), "print error: job refused");
}

#[test]
fn configured_print_settings_become_option_pairs() {
    let p = Print {
        paper_size: Some(MediaFormat::A4),
        orientation: Some(Orientation::Landscape),
        sides: Some(Sides::TwoSidedPortrait),
        color_mode: Some(ColorMode::Monochrome),
        quality: Some(PrintQuality::High),
    };
    let options = print_request_options(&p);
    let expect = vec![
        ("media".to_string(), "iso_a4_210x297mm".to_string()),
        ("orientation-requested".to_string(), "4".to_string()),
        ("sides".to_string(), "two-sided-long-edge".to_string()),
        ("print-color-mode".to_string(), "monochrome".to_string()),
        ("print-quality".to_string(), "5".to_string()),
    ];
    assert_eq!(options, expect);

    let p = Print {
        paper_size: None,
        orientation: Some(Orientation::Portrait),
        sides: None,
        color_mode: None,
        quality: None,
    };
    assert_eq!(
        print_request_options(&p),
        vec![("orientation-requested".to_string(), "3".to_string())]
    );
    let p = Print { paper_size: None, orientation: None, sides: None, color_mode: None,
        quality: None };
    assert!(print_request_options(&p).is_empty());
}

#[test]
fn media_values_follow_the_spooler_vocabulary() {
    assert_eq!(MediaFormat::A4.value(), "iso_a4_210x297mm");
    assert_eq!(MediaFormat::Letter.value(), "na_letter_8.5x11in");
    assert_eq!(MediaFormat::Tabloid.value(), "na_ledger_11x17in");
    assert_eq!(Sides::OneSide.value(), "one-sided");
    assert_eq!(ColorMode::Auto.value(), "auto");
    assert_eq!(PrintQuality::Draft.value(), "3");
    assert_eq!(Orientation::Portrait.value(), "3");
}
