use qr_utility::generator::batch::BatchGenerator;
use qr_utility::generator::qr::{ExportPayload, QrGenerator, QrMatrix};
use qr_utility::models::{AppTheme, EccLevel, ExportFormat};
use qr_utility::utils::FileOps;

fn diagonal() -> QrMatrix {
    QrMatrix::from_modules(2, vec![true, false, false, true]).unwrap()
}

#[test]
fn matrices_need_a_square_of_modules() {
    assert!(QrMatrix::from_modules(2, vec![true, false, true]).is_none());
    assert!(QrMatrix::from_modules(0, vec![]).is_none());
    let m = diagonal();
    assert_eq!(m.width(), 2);
    assert!(m.is_dark(0, 0) && m.is_dark(1, 1) && !m.is_dark(1, 0));
}

#[test]
fn unicode_art_halves_rows() {
    let m = diagonal();
    assert_eq!(QrGenerator::render_unicode(&m, false), "▀▄");
    assert_eq!(QrGenerator::render_unicode(&m, true), "      \n  ▀▄  \n      ");
}

#[test]
fn ascii_art_doubles_columns() {
    let m = diagonal();
    assert_eq!(
        QrGenerator::render_ascii(&m),
        "        \n  ##    \n    ##  \n        "
    );
}

#[test]
fn svg_paths_follow_dark_modules() {
    let m = diagonal();
    assert_eq!(
        QrGenerator::render_svg_string(&m, AppTheme::Cyberpunk, true),
        "<svg xmlns=\"http://www.w3.org/2000/svg\" viewBox=\"0 0 10 10\" width=\"512\" height=\"512\">\n<rect width=\"100%\" height=\"100%\" fill=\"#0f0f19\"/>\n<path fill=\"#ff0080\" d=\"M4,4h1v1h-1z M5,5h1v1h-1z \"/></svg>"
    );
}

#[test]
fn images_scale_modules() {
    let m = diagonal();
    assert!(QrGenerator::fits_in_memory(&m, 10, false));
    let img = QrGenerator::render_image(&m, 10, false, AppTheme::Cyberpunk, false);
    assert_eq!(img.width, 16);
    assert_eq!(img.height, 16);
    assert_eq!(img.data.len(), 16 * 16 * 4);
    let px = |x: usize, y: usize| img.data[(y * 16 + x) * 4..(y * 16 + x) * 4 + 4].to_vec();
    assert_eq!(px(0, 0), vec![15, 15, 25, 255]);
    assert_eq!(px(4, 4), vec![255, 0, 128, 255]);
    assert_eq!(px(8, 4), vec![15, 15, 25, 255]);
    let clear = QrGenerator::render_image(&m, 10, false, AppTheme::Cyberpunk, true);
    assert_eq!(clear.data[3], 0);
}

#[test]
fn image_exports_are_encoded() {
    let qr = QrGenerator::create_qr("https://example.com", qr_utility::models::EccLevel::Low).unwrap();
    match QrGenerator::export_payload(&qr, ExportFormat::Png, 256, true, AppTheme::Ocean, false).unwrap() {
        ExportPayload::Binary(b) => assert_eq!(&b[..4], &[0x89, b'P', b'N', b'G']),
        ExportPayload::Text(_) => panic!("expected bytes"),
    }
    match QrGenerator::export_payload(&qr, ExportFormat::Jpeg, 256, true, AppTheme::Ocean, false).unwrap() {
        ExportPayload::Binary(b) => assert_eq!(&b[..2], &[0xFF, 0xD8]),
        ExportPayload::Text(_) => panic!("expected bytes"),
    }
    match QrGenerator::export_payload(&qr, ExportFormat::Ascii, 256, true, AppTheme::Ocean, false).unwrap() {
        ExportPayload::Text(t) => assert_eq!(t, QrGenerator::render_ascii(&qr)),
        ExportPayload::Binary(_) => panic!("expected text"),
    }
}

#[test]
fn long_texts_do_not_fit_a_code() {
    let long = "x".repeat(8000);
    let e = QrGenerator::create_qr(&long, qr_utility::models::EccLevel::High).err().unwrap();
    assert!(e.starts_with("Failed to encode data into QR code: "));
}

#[test]
fn csv_rows_after_the_header() {
    // A row with another field count than the header is rejected by the
    // reader and skipped.
    let rows = BatchGenerator::records_of(b"url,label\nhttps://a.com,A\nhttps://b.com\nhttps://c.com,C\n");
    assert_eq!(rows.len(), 2);
    assert_eq!(rows[0], vec!["https://a.com".to_string(), "A".to_string()]);
    assert_eq!(rows[1], vec!["https://c.com".to_string(), "C".to_string()]);
}

#[test]
fn batch_runs_tally_every_filled_row() {
    let records = vec![
        vec!["https://a.com".to_string(), "A".to_string()],
        vec![],
        vec!["not a url".to_string(), "B".to_string()],
        vec!["https://c.com".to_string()],
        vec!["https://d.com".to_string(), "D".to_string()],
    ];
    let names = std::cell::RefCell::new(Vec::new());
    let seen = std::cell::RefCell::new(Vec::new());
    let write = |name: String, payload: ExportPayload| -> Result<String, String> {
        assert!(matches!(payload, ExportPayload::Text(_)));
        names.borrow_mut().push(name.clone());
        if name == "qr_D.svg" {
            Err("disk full".to_string())
        } else {
            Ok(format!("/out/{}", name))
        }
    };
    let progress = |row: usize, total: usize, url: String| seen.borrow_mut().push((row, total, url));
    let (r, reports) =
        BatchGenerator::run_batch(&records, ExportFormat::Svg, EccLevel::Medium, AppTheme::Ocean, 256, write, progress)
            .unwrap();
    assert_eq!(r.total, 5);
    assert_eq!(r.succeeded, 2);
    assert_eq!(r.failed, 2);
    assert_eq!(r.generated_files, vec!["/out/qr_A.svg".to_string(), "/out/qr_batch_004.svg".to_string()]);
    assert_eq!(r.errors.len(), 2);
    assert!(r.errors[0].starts_with("Row 3 invalid URL 'not a url': "));
    assert_eq!(r.errors[1], "Row 5: disk full");
    assert_eq!(names.borrow().len(), 3);
    let seen = seen.borrow();
    assert_eq!(seen.len(), 4);
    assert_eq!(seen[0], (1, 5, "https://a.com".to_string()));
    assert_eq!(seen[3], (5, 5, "https://d.com".to_string()));
    assert_eq!(*seen, reports);
}

#[test]
fn default_file_names_carry_a_stamp() {
    let n = FileOps::default_filename(ExportFormat::Svg);
    assert!(n.starts_with("qr_20") && n.ends_with(".svg"));
    assert_eq!(n.len(), "qr_YYYY-MM-DD_HH-MM-SS.svg".len());
    assert_eq!(FileOps::default_filename_at(ExportFormat::Png, "X"), "qr_X.png");
}
