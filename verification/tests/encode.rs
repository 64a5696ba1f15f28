use qr_render::console::render_console;
use qr_render::error::Error;
use qr_render::grid::{
    encode, find_error_correction_level, grid_of_encoding, parse_error_correction_level,
    ErrorCorrection, ModuleGrid,
};
use qr_render::raster::render_raster;
use qr_render::svg::render_svg;
use qrcodegen::{QrCode, QrCodeEcc};

fn same_modules(grid: &ModuleGrid, code: &QrCode) {
    let size = code.size();
    assert_eq!(grid.size(), size as usize);
    for y in -3..size + 3 {
        for x in -3..size + 3 {
            assert_eq!(grid.is_dark(x as i64, y as i64), code.get_module(x, y));
        }
    }
}

#[test]
fn encoded_grid_holds_the_encoders_modules() {
    let grid = encode("Hello, world!", ErrorCorrection::Medium).unwrap();
    let code = QrCode::encode_text("Hello, world!", QrCodeEcc::Medium).unwrap();
    assert_eq!(grid.size(), 21);
    same_modules(&grid, &code);
    assert!(grid.is_dark(0, 0));
    assert!(!grid.is_dark(1, 1));
}

#[test]
fn each_level_is_handed_to_the_encoder() {
    let text = "https://example.org/a/rather/long/path?with=query&and=more";
    let pairs = [
        (ErrorCorrection::Low, QrCodeEcc::Low),
        (ErrorCorrection::Medium, QrCodeEcc::Medium),
        (ErrorCorrection::Quartile, QrCodeEcc::Quartile),
        (ErrorCorrection::High, QrCodeEcc::High),
    ];
    for (level, ecc) in pairs {
        let grid = encode(text, level).unwrap();
        let code = QrCode::encode_text(text, ecc).unwrap();
        same_modules(&grid, &code);
    }
    let low = encode(text, ErrorCorrection::Low).unwrap();
    let high = encode(text, ErrorCorrection::High).unwrap();
    assert!(low.size() < high.size());
}

#[test]
fn empty_text_is_encoded() {
    let grid = encode("", ErrorCorrection::High).unwrap();
    let code = QrCode::encode_text("", QrCodeEcc::High).unwrap();
    same_modules(&grid, &code);
}

#[test]
fn too_long_text_fails_with_the_encoders_reason() {
    let text = "a".repeat(8000);
    let reason = match QrCode::encode_text(&text, QrCodeEcc::High) {
        Ok(_) => panic!("the text should not fit"),
        Err(e) => e.to_string(),
    };
    match encode(&text, ErrorCorrection::High) {
        Ok(_) => panic!("the text should not fit"),
        Err(e) => assert_eq!(e, Error::QrCodeErr(reason)),
    }
}

#[test]
fn grid_must_be_a_square() {
    assert!(ModuleGrid::new(vec![]).is_none());
    assert!(ModuleGrid::new(vec![vec![]]).is_none());
    assert!(ModuleGrid::new(vec![vec![true, false]]).is_none());
    assert!(ModuleGrid::new(vec![vec![true, false], vec![true]]).is_none());
    assert!(ModuleGrid::new(vec![vec![true], vec![false]]).is_none());
    assert!(ModuleGrid::new(vec![vec![true]]).is_some());
    assert!(ModuleGrid::new(vec![vec![true, false], vec![false, true]]).is_some());
}

#[test]
fn grid_reads_column_then_row() {
    let grid = ModuleGrid::new(vec![vec![false, true], vec![false, false]]).unwrap();
    assert_eq!(grid.size(), 2);
    assert!(grid.is_dark(1, 0));
    assert!(!grid.is_dark(0, 1));
    assert!(!grid.is_dark(0, 0));
    assert!(!grid.is_dark(1, 1));
}

#[test]
fn outside_the_grid_is_light() {
    let grid = ModuleGrid::new(vec![vec![true, true], vec![true, true]]).unwrap();
    for y in -4i64..6 {
        for x in -4i64..6 {
            let inside = (0..2).contains(&x) && (0..2).contains(&y);
            assert_eq!(grid.is_dark(x, y), inside);
        }
    }
    assert!(!grid.is_dark(i64::MIN, 0));
    assert!(!grid.is_dark(0, i64::MAX));
    assert!(!grid.is_dark(2, 0));
    assert!(!grid.is_dark(0, 2));
    assert!(!grid.is_dark(-1, 0));
    assert!(!grid.is_dark(0, -1));
}

#[test]
fn level_names() {
    assert_eq!(parse_error_correction_level("low".to_string()), ErrorCorrection::Low);
    assert_eq!(parse_error_correction_level("medium".to_string()), ErrorCorrection::Medium);
    assert_eq!(parse_error_correction_level("quartile".to_string()), ErrorCorrection::Quartile);
    assert_eq!(parse_error_correction_level("high".to_string()), ErrorCorrection::High);
    assert_eq!(find_error_correction_level("high"), Some(ErrorCorrection::High));
    assert_eq!(find_error_correction_level("Low"), None);
    assert_eq!(find_error_correction_level(""), None);
    assert_eq!(find_error_correction_level("highest"), None);
}

#[test]
fn grid_of_a_symbol_copies_every_module() {
    for text in ["", "7", "HELLO WORLD", "a longer text, with punctuation; and more of it."] {
        let code = QrCode::encode_text(text, QrCodeEcc::Quartile).unwrap();
        let grid = ModuleGrid::from_symbol(&code);
        same_modules(&grid, &code);
        let grid = grid_of_encoding(Ok(code.clone())).unwrap();
        same_modules(&grid, &code);
    }
}

#[test]
fn grid_of_a_failed_encoding_is_the_failure() {
    let failure = qrcodegen::DataTooLong::DataOverCapacity(30000, 23648);
    let reason = failure.to_string();
    assert_eq!(reason, "Data length = 30000 bits, Max capacity = 23648 bits");
    match grid_of_encoding(Err(failure)) {
        Ok(_) => panic!("a failed encoding gives no grid"),
        Err(e) => {
            assert_eq!(e, Error::QrCodeErr(reason.clone()));
            assert_eq!(
                qr_render::error::ErrorKind::Error(e).message(),
                format!("Failed to generate QR code: {reason}")
            );
        }
    }
    match grid_of_encoding(Err(qrcodegen::DataTooLong::SegmentTooLong)) {
        Ok(_) => panic!("a failed encoding gives no grid"),
        Err(e) => assert_eq!(e, Error::QrCodeErr("Segment too long".to_string())),
    }
}

#[test]
fn svg_of_an_encoded_symbol() {
    let text = "https://example.org";
    let grid = encode(text, ErrorCorrection::Medium).unwrap();
    let code = QrCode::encode_text(text, QrCodeEcc::Medium).unwrap();
    let border = 4;
    let dimension = code.size() + 2 * border;
    let mut expected = String::new();
    expected.push_str("<?xml version=\"1.0\" encoding=\"UTF-8\"?>");
    expected.push_str("<!DOCTYPE svg PUBLIC \"-//W3C//DTD SVG 1.1//EN\" ");
    expected.push_str("\"http://www.w3.org/Graphics/SVG/1.1/DTD/svg11.dtd\">");
    expected.push_str("<svg xmlns=\"http://www.w3.org/2000/svg\" version=\"1.1\" ");
    expected.push_str(&format!("viewBox=\"0 0 {dimension} {dimension}\" stroke=\"none\">"));
    expected.push_str("\t<rect width=\"100%\" height=\"100%\" fill=\"#ffffff\"/>");
    expected.push_str("\t<path d=\"\n");
    for y in 0..code.size() {
        for x in 0..code.size() {
            if code.get_module(x, y) {
                if x != 0 || y != 0 {
                    expected.push(' ');
                }
                expected.push_str(&format!("M{},{}h1v1h-1z", x + border, y + border));
            }
        }
    }
    expected.push_str("\" fill=\"#102030\"/>\n</svg>\n");
    assert_eq!(render_svg(&grid, border as u32, "#102030", "#ffffff"), expected);
}

#[test]
fn raster_of_an_encoded_symbol() {
    let text = "https://example.org";
    let grid = encode(text, ErrorCorrection::Low).unwrap();
    let code = QrCode::encode_text(text, QrCodeEcc::Low).unwrap();
    let (border, scale) = (1i32, 3i32);
    let fg = [16, 32, 48];
    let bg = [255, 254, 253];
    let img = render_raster(&grid, border as u32, scale as u32, fg, bg).unwrap();
    let scaled_border = scale * border;
    let side = code.size() * scale + 2 * scaled_border;
    assert_eq!(img.width(), side as u32);
    assert_eq!(img.height(), side as u32);
    let mut dark_pixels = 0;
    for y in 0..side {
        for x in 0..side {
            let expected = if x <= scaled_border || y <= scaled_border {
                bg
            } else if code.get_module((x - scaled_border) / scale, (y - scaled_border) / scale) {
                dark_pixels += 1;
                fg
            } else {
                bg
            };
            assert_eq!(img.pixel(x as u32, y as u32), Some(expected));
        }
    }
    assert!(dark_pixels > 0);
}

#[test]
fn console_of_an_encoded_symbol() {
    let text = "https://example.org";
    let grid = encode(text, ErrorCorrection::High).unwrap();
    let code = QrCode::encode_text(text, QrCodeEcc::High).unwrap();
    let border = 2i32;
    let mut expected = String::new();
    for y in -border..code.size() + border {
        for x in -border..code.size() + border {
            let c = if code.get_module(x, y) { '\u{2588}' } else { ' ' };
            expected.push(c);
            expected.push(c);
        }
        expected.push('\n');
    }
    assert_eq!(render_console(&grid, border as u32), expected);
}
