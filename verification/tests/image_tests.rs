use metastrip::{exif_report, extract_exif_metadata, image_kind_of, strip_image_metadata,
    ExifFields, ExifRational, GpsCoordinate, ImageKind, ProcessingError};

fn encode_test_image(format: image::ImageFormat) -> Vec<u8> {
    let img = image::RgbImage::new(100, 100);
    let dynamic = image::DynamicImage::ImageRgb8(img);
    let mut buffer = std::io::Cursor::new(Vec::new());
    dynamic.write_to(&mut buffer, format).unwrap();
    buffer.into_inner()
}

fn empty_fields() -> ExifFields {
    ExifFields {
        make: None,
        model: None,
        software: None,
        date_time: None,
        date_time_original: None,
        gps_present: false,
        gps_latitude: None,
        gps_longitude: None,
        exposure_time: None,
        f_number: None,
        iso_speed: None,
    }
}

fn rational(num: u32, denom: u32) -> ExifRational {
    ExifRational { num, denom }
}

// A minimal EXIF APP1 segment: IFD0 with a Make tag and a GPS sub-IFD holding
// a latitude/longitude triplet with hemisphere references (little-endian).
fn exif_app1_segment() -> Vec<u8> {
    let mut tiff: Vec<u8> = Vec::new();
    tiff.extend_from_slice(b"II");
    tiff.extend_from_slice(&42u16.to_le_bytes());
    tiff.extend_from_slice(&8u32.to_le_bytes());
    // IFD0 at offset 8: two entries
    tiff.extend_from_slice(&2u16.to_le_bytes());
    // Make: tag 0x010f, ASCII, count 6, data at offset 38
    tiff.extend_from_slice(&0x010fu16.to_le_bytes());
    tiff.extend_from_slice(&2u16.to_le_bytes());
    tiff.extend_from_slice(&6u32.to_le_bytes());
    tiff.extend_from_slice(&38u32.to_le_bytes());
    // GPS IFD pointer: tag 0x8825, LONG, count 1, GPS IFD at offset 44
    tiff.extend_from_slice(&0x8825u16.to_le_bytes());
    tiff.extend_from_slice(&4u16.to_le_bytes());
    tiff.extend_from_slice(&1u32.to_le_bytes());
    tiff.extend_from_slice(&44u32.to_le_bytes());
    tiff.extend_from_slice(&0u32.to_le_bytes());
    assert_eq!(tiff.len(), 38);
    tiff.extend_from_slice(b"Canon\0");
    // GPS IFD at offset 44: four entries
    tiff.extend_from_slice(&4u16.to_le_bytes());
    // GPSLatitudeRef: tag 1, ASCII, count 2, inline "N\0"
    tiff.extend_from_slice(&1u16.to_le_bytes());
    tiff.extend_from_slice(&2u16.to_le_bytes());
    tiff.extend_from_slice(&2u32.to_le_bytes());
    tiff.extend_from_slice(b"N\0\0\0");
    // GPSLatitude: tag 2, RATIONAL, count 3, data at offset 98
    tiff.extend_from_slice(&2u16.to_le_bytes());
    tiff.extend_from_slice(&5u16.to_le_bytes());
    tiff.extend_from_slice(&3u32.to_le_bytes());
    tiff.extend_from_slice(&98u32.to_le_bytes());
    // GPSLongitudeRef: tag 3, ASCII, count 2, inline "E\0"
    tiff.extend_from_slice(&3u16.to_le_bytes());
    tiff.extend_from_slice(&2u16.to_le_bytes());
    tiff.extend_from_slice(&2u32.to_le_bytes());
    tiff.extend_from_slice(b"E\0\0\0");
    // GPSLongitude: tag 4, RATIONAL, count 3, data at offset 122
    tiff.extend_from_slice(&4u16.to_le_bytes());
    tiff.extend_from_slice(&5u16.to_le_bytes());
    tiff.extend_from_slice(&3u32.to_le_bytes());
    tiff.extend_from_slice(&122u32.to_le_bytes());
    tiff.extend_from_slice(&0u32.to_le_bytes());
    assert_eq!(tiff.len(), 98);
    for pair in [(37u32, 1u32), (46, 1), (30, 1), (122, 1), (25, 1), (6, 1)] {
        tiff.extend_from_slice(&pair.0.to_le_bytes());
        tiff.extend_from_slice(&pair.1.to_le_bytes());
    }
    let mut payload: Vec<u8> = b"Exif\0\0".to_vec();
    payload.extend_from_slice(&tiff);
    let mut segment: Vec<u8> = vec![0xff, 0xe1];
    let length = (payload.len() + 2) as u16;
    segment.extend_from_slice(&length.to_be_bytes());
    segment.extend_from_slice(&payload);
    segment
}

fn jpeg_with_exif() -> Vec<u8> {
    let plain = encode_test_image(image::ImageFormat::Jpeg);
    assert_eq!(&plain[0..2], &[0xff, 0xd8]);
    let mut spliced = plain[0..2].to_vec();
    spliced.extend_from_slice(&exif_app1_segment());
    spliced.extend_from_slice(&plain[2..]);
    spliced
}

#[test]
fn test_strip_image_metadata() {
    let data = encode_test_image(image::ImageFormat::Png);
    let result = strip_image_metadata("photo.png", &data);
    assert!(result.is_ok());
    assert!(!result.unwrap().1.is_empty());
}

#[test]
fn strip_rejects_undecodable_bytes() {
    let data = b"this is not an image at all".to_vec();
    let result = strip_image_metadata("photo.png", &data);
    assert_eq!(result.unwrap_err(), ProcessingError::DecodeError);
}

#[test]
fn strip_rejects_unsupported_extension() {
    let data = encode_test_image(image::ImageFormat::Png);
    let result = strip_image_metadata("photo.webp", &data);
    assert_eq!(result.unwrap_err(), ProcessingError::UnsupportedFormat);
}

#[test]
fn strip_accepts_uppercase_extension() {
    let data = encode_test_image(image::ImageFormat::Png);
    let (bytes, report) = strip_image_metadata("photo.PNG", &data).unwrap();
    assert!(!report.is_empty());
    let reloaded = image::load_from_memory(&bytes).unwrap();
    assert_eq!(reloaded.width(), 100);
}

#[test]
fn strip_output_decodes_in_requested_format() {
    let data = encode_test_image(image::ImageFormat::Png);
    let (bytes, _) = strip_image_metadata("photo.bmp", &data).unwrap();
    let reloaded = image::load_from_memory(&bytes).unwrap();
    assert_eq!(reloaded.width(), 100);
    assert_eq!(reloaded.height(), 100);
}

#[test]
fn strip_without_exif_reports_generic_placeholders() {
    let data = encode_test_image(image::ImageFormat::Png);
    let (_, report) = strip_image_metadata("photo.png", &data).unwrap();
    assert_eq!(
        report,
        vec![
            "EXIF metadata (if present)".to_string(),
            "GPS data (if present)".to_string(),
            "Camera info (if present)".to_string(),
        ]
    );
}

#[test]
fn strip_reports_camera_make_and_gps() {
    let data = jpeg_with_exif();
    let (_, report) = strip_image_metadata("photo.jpg", &data).unwrap();
    assert!(report.iter().any(|item| item.starts_with("Camera Make: ") && item.contains("Canon")));
    assert!(report.iter().any(|item| item.starts_with("GPS Location: ")));
}

#[test]
fn strip_round_trip_removes_structured_tags() {
    let data = jpeg_with_exif();
    assert!(extract_exif_metadata(&data).is_some());
    let (bytes, _) = strip_image_metadata("photo.jpg", &data).unwrap();
    let again = extract_exif_metadata(&bytes);
    match again {
        None => {},
        Some(items) => {
            assert!(!items.iter().any(|item| item.starts_with("Camera Make: ")));
            assert!(!items.iter().any(|item| item.starts_with("GPS Location: ")));
        },
    }
}

#[test]
fn image_kind_matches_extension_case_insensitively() {
    assert_eq!(image_kind_of("a.jpg"), Some(ImageKind::Jpeg));
    assert_eq!(image_kind_of("a.jpeg"), Some(ImageKind::Jpeg));
    assert_eq!(image_kind_of("a.png"), Some(ImageKind::Png));
    assert_eq!(image_kind_of("a.gif"), Some(ImageKind::Gif));
    assert_eq!(image_kind_of("a.bmp"), Some(ImageKind::Bmp));
    assert_eq!(image_kind_of("a.tiff"), Some(ImageKind::Tiff));
    assert_eq!(image_kind_of("a.JPG"), Some(ImageKind::Jpeg));
    assert_eq!(image_kind_of("a.TiFf"), Some(ImageKind::Tiff));
    assert_eq!(image_kind_of("a.webp"), None);
    assert_eq!(image_kind_of("a"), None);
}

#[test]
fn exif_report_lists_present_fields_in_order() {
    let mut fields = empty_fields();
    fields.make = Some("Canon".to_string());
    fields.model = Some("EOS R5".to_string());
    fields.iso_speed = Some("200".to_string());
    let report = exif_report(&fields);
    assert_eq!(
        report,
        vec![
            "Camera Make: Canon".to_string(),
            "Camera Model: EOS R5".to_string(),
            "ISO: 200".to_string(),
        ]
    );
}

#[test]
fn exif_report_renders_gps_coordinates() {
    let mut fields = empty_fields();
    fields.make = Some("Canon".to_string());
    fields.gps_present = true;
    fields.gps_latitude = Some(GpsCoordinate {
        degrees: rational(37, 1),
        minutes: rational(46, 1),
        seconds: rational(30, 1),
        reference: "N".to_string(),
    });
    fields.gps_longitude = Some(GpsCoordinate {
        degrees: rational(122, 1),
        minutes: rational(25, 1),
        seconds: rational(6, 1),
        reference: "E".to_string(),
    });
    let report = exif_report(&fields);
    assert_eq!(report[0], "Camera Make: Canon");
    assert_eq!(
        report[1],
        "GPS Location: 37.000000\u{b0} 46.000000' 30.000000\" N 122.000000\u{b0} 25.000000' 6.000000\" E"
    );
}

#[test]
fn exif_report_rounds_rationals_to_six_places() {
    let mut fields = empty_fields();
    fields.gps_present = true;
    fields.gps_latitude = Some(GpsCoordinate {
        degrees: rational(1, 3),
        minutes: rational(1, 2),
        seconds: rational(5, 3),
        reference: "S".to_string(),
    });
    let report = exif_report(&fields);
    assert_eq!(
        report[0],
        "GPS Location: 0.333333\u{b0} 0.500000' 1.666667\" S "
    );
}

#[test]
fn exif_report_gps_sentinel_when_unparsed() {
    let mut fields = empty_fields();
    fields.gps_present = true;
    let report = exif_report(&fields);
    assert_eq!(report, vec!["GPS Data: Present but could not be parsed".to_string()]);
}

#[test]
fn exif_report_sentinel_when_nothing_readable() {
    let fields = empty_fields();
    let report = exif_report(&fields);
    assert_eq!(
        report,
        vec!["EXIF metadata was present but no readable values were found".to_string()]
    );
}
