use pixelsqueeze::pipeline::compress_file_bytes;
use pixelsqueeze::pipeline::finish_encoded;
use pixelsqueeze::CompressError;
use pixelsqueeze::CompressStep;
use pixelsqueeze::CompressionRequest;
use pixelsqueeze::FileStatus;
use pixelsqueeze::OutputAction;
use pixelsqueeze::OutputFormat;

fn gradient_image(w: u32, h: u32) -> image::DynamicImage {
    image::DynamicImage::ImageRgb8(image::RgbImage::from_fn(w, h, |x, y| {
        image::Rgb([(x % 256) as u8, (y % 256) as u8, 128])
    }))
}

fn png_bytes(w: u32, h: u32) -> Vec<u8> {
    let mut buf = std::io::Cursor::new(Vec::new());
    gradient_image(w, h).write_to(&mut buf, image::ImageFormat::Png).unwrap();
    buf.into_inner()
}

fn jpeg_bytes(w: u32, h: u32) -> Vec<u8> {
    let mut buf = std::io::Cursor::new(Vec::new());
    gradient_image(w, h).write_to(&mut buf, image::ImageFormat::Jpeg).unwrap();
    buf.into_inner()
}

fn bmp_bytes(w: u32, h: u32) -> Vec<u8> {
    let mut buf = std::io::Cursor::new(Vec::new());
    gradient_image(w, h).write_to(&mut buf, image::ImageFormat::Bmp).unwrap();
    buf.into_inner()
}

fn request(format: OutputFormat, quality: u8, min_savings: u8) -> CompressionRequest {
    CompressionRequest::new(format, quality, None, None, min_savings).unwrap()
}

#[test]
fn corrupt_input_is_a_decode_error() {
    let bytes = b"this is not an image at all".to_vec();
    let req = request(OutputFormat::Png, 55, 0);
    match compress_file_bytes("bad.png", "bad", "png", &bytes, &req) {
        Err(CompressError::Decode(msg)) => assert!(!msg.is_empty()),
        other => panic!("expected a decode error, got {:?}", other.is_ok()),
    }
}

#[test]
fn webp_quality_100_takes_the_lossless_path() {
    // An uncompressed BMP source guarantees the lossless WebP is smaller, so
    // the artifact must actually be written.
    let bytes = bmp_bytes(300, 200);
    let req = request(OutputFormat::Webp, 100, 0);
    match compress_file_bytes("img.bmp", "img", "bmp", &bytes, &req).unwrap() {
        CompressStep::Done(out) => {
            assert_eq!(out.outcome.original_size, bytes.len() as u64);
            match &out.action {
                OutputAction::WriteEncoded { bytes: encoded, name } => {
                    assert_eq!(name, "img.webp");
                    assert_eq!(&encoded[0..4], b"RIFF");
                    assert_eq!(&encoded[8..12], b"WEBP");
                    assert_eq!(out.outcome.status, FileStatus::Compressed);
                    assert_eq!(out.outcome.final_size, encoded.len() as u64);
                    // Lossless round trip: decoding the output gives back the
                    // source pixels.
                    let reloaded = image::load_from_memory(encoded).unwrap();
                    assert_eq!(
                        reloaded.to_rgb8().as_raw(),
                        gradient_image(300, 200).to_rgb8().as_raw()
                    );
                }
                _ => panic!("the lossless artifact must be smaller than a BMP"),
            }
        }
        CompressStep::NeedsLossyWebp { .. } => {
            panic!("quality 100 must use the lossless encoder inside the library")
        }
    }
}

#[test]
fn alpha_is_stripped_before_webp_encoding() {
    let rgba = image::DynamicImage::ImageRgba8(image::RgbaImage::from_fn(64, 48, |x, y| {
        image::Rgba([(x % 256) as u8, (y % 256) as u8, 10, 200])
    }));
    let mut buf = std::io::Cursor::new(Vec::new());
    rgba.write_to(&mut buf, image::ImageFormat::Png).unwrap();
    let bytes = buf.into_inner();
    let req = request(OutputFormat::Webp, 80, 0);
    match compress_file_bytes("img.png", "img", "png", &bytes, &req).unwrap() {
        CompressStep::NeedsLossyWebp { image: prepared, quality } => {
            assert_eq!(quality, 80);
            assert_eq!(prepared.color(), image::ColorType::Rgb8);
            assert_eq!(image::GenericImageView::dimensions(&prepared), (64, 48));
        }
        _ => panic!("a lossy webp encode must be handed back"),
    }
}

#[test]
fn webp_below_100_hands_back_a_lossy_encode() {
    let bytes = png_bytes(300, 200);
    let req = request(OutputFormat::Webp, 80, 0);
    match compress_file_bytes("img.png", "img", "png", &bytes, &req).unwrap() {
        CompressStep::NeedsLossyWebp { image, quality } => {
            assert_eq!(quality, 80);
            // The handed-back image is prepared: alpha stripped, dimensions kept.
            assert_eq!(image::GenericImageView::dimensions(&image), (300, 200));
            // Complete the protocol the way a caller would.
            let encoder = webp::Encoder::from_image(&image).unwrap();
            let encoded = encoder.encode_simple(false, quality as f32).unwrap().to_vec();
            let out = finish_encoded("img.png", "img", bytes.len() as u64, 0, OutputFormat::Webp, encoded.clone());
            assert_eq!(out.outcome.original_size, bytes.len() as u64);
            match &out.action {
                OutputAction::WriteEncoded { bytes: b, name } => {
                    assert_eq!(name, "img.webp");
                    assert_eq!(b, &encoded);
                    assert_eq!(out.outcome.final_size, encoded.len() as u64);
                }
                OutputAction::CopyOriginal => {
                    assert!(encoded.len() as u64 > bytes.len() as u64 + bytes.len() as u64 / 2);
                    assert_eq!(out.outcome.final_size, out.outcome.original_size);
                }
                OutputAction::NoOutput => {
                    assert_eq!(out.outcome.status, FileStatus::Skipped);
                    assert_eq!(out.outcome.final_size, out.outcome.original_size);
                }
            }
        }
        CompressStep::Done(_) => panic!("lossy webp must be handed back to the caller"),
    }
}

#[test]
fn jpeg_to_jpeg_at_high_quality_is_skipped() {
    // Quality 100 plus the margin is above every estimate band, so the
    // pre-flight heuristic always skips a JPEG-to-JPEG run at quality 100.
    let bytes = jpeg_bytes(400, 300);
    let req = request(OutputFormat::Jpeg, 100, 0);
    match compress_file_bytes("img.jpg", "img", "jpg", &bytes, &req).unwrap() {
        CompressStep::Done(out) => {
            assert_eq!(out.outcome.status, FileStatus::Skipped);
            assert_eq!(out.outcome.original_size, bytes.len() as u64);
            assert_eq!(out.outcome.final_size, bytes.len() as u64);
            assert!(matches!(out.action, OutputAction::NoOutput));
        }
        _ => panic!("expected a finished outcome"),
    }
}

#[test]
fn jpeg_to_jpeg_at_low_quality_is_processed() {
    // Quality 1 plus the margin is below every estimate band, so the
    // heuristic never skips.
    let bytes = jpeg_bytes(400, 300);
    let req = request(OutputFormat::Jpeg, 1, 0);
    match compress_file_bytes("img.jpg", "img", "jpg", &bytes, &req).unwrap() {
        CompressStep::Done(out) => {
            assert_ne!(out.outcome.status, FileStatus::Skipped);
            assert_eq!(out.outcome.original_size, bytes.len() as u64);
            if let OutputAction::WriteEncoded { bytes: encoded, name } = &out.action {
                assert_eq!(name, "img.jpg");
                // JPEG start-of-image marker.
                assert_eq!(&encoded[0..2], &[0xFF, 0xD8]);
                // The anti-inflation bound holds of everything written.
                assert!(
                    (encoded.len() as u64)
                        <= out.outcome.original_size + out.outcome.original_size / 2
                );
            }
        }
        _ => panic!("expected a finished outcome"),
    }
}

#[test]
fn conversion_writes_under_the_new_extension() {
    // BMP input: any JPEG of it is far smaller, so it must be written.
    let bytes = bmp_bytes(320, 240);
    let req = request(OutputFormat::Jpeg, 40, 0);
    match compress_file_bytes("photo.bmp", "photo", "bmp", &bytes, &req).unwrap() {
        CompressStep::Done(out) => match &out.action {
            OutputAction::WriteEncoded { bytes: encoded, name } => {
                assert_eq!(name, "photo.jpg");
                assert_eq!(&encoded[0..2], &[0xFF, 0xD8]);
                assert_eq!(out.outcome.final_size, encoded.len() as u64);
                assert_eq!(out.outcome.status, FileStatus::Compressed);
            }
            _ => panic!("the JPEG artifact must be smaller than a BMP"),
        },
        _ => panic!("expected a finished outcome"),
    }
}

#[test]
fn one_corrupt_file_among_five_end_to_end() {
    let inputs: Vec<(&str, &str, &str, Vec<u8>)> = vec![
        ("a.png", "a", "png", png_bytes(40, 30)),
        ("b.bmp", "b", "bmp", bmp_bytes(40, 30)),
        ("corrupt.png", "corrupt", "png", b"garbage bytes".to_vec()),
        ("c.jpg", "c", "jpg", jpeg_bytes(40, 30)),
        ("d.png", "d", "png", png_bytes(24, 24)),
    ];
    let req = request(OutputFormat::Png, 80, 0);
    let mut events = Vec::new();
    for (filename, stem, ext, bytes) in &inputs {
        match compress_file_bytes(filename, stem, ext, bytes, &req) {
            Ok(CompressStep::Done(out)) => {
                events.push(pixelsqueeze::FileEvent::Success(out.outcome))
            }
            Ok(CompressStep::NeedsLossyWebp { .. }) => panic!("no lossy webp was requested"),
            Err(e) => events.push(pixelsqueeze::FileEvent::Failure {
                filename: filename.to_string(),
                message: e.message().to_string(),
            }),
        }
    }
    let stats = pixelsqueeze::batch::aggregate_results(events);
    assert_eq!(stats.files_processed, 4);
    assert_eq!(stats.errors.len(), 1);
    assert!(stats.errors[0].starts_with("corrupt.png: "));
    assert_eq!(stats.files_processed, stats.file_results.len());
}

#[test]
fn resize_bound_is_applied_before_encoding() {
    let bytes = png_bytes(800, 400);
    let req =
        CompressionRequest::new(OutputFormat::Png, 80, Some(400), None, 0).unwrap();
    match compress_file_bytes("wide.png", "wide", "png", &bytes, &req).unwrap() {
        CompressStep::Done(out) => match &out.action {
            OutputAction::WriteEncoded { bytes: encoded, .. } => {
                let reloaded = image::load_from_memory(encoded).unwrap();
                assert_eq!(image::GenericImageView::dimensions(&reloaded), (400, 200));
            }
            other => panic!(
                "expected the resized image to be written, not {:?}",
                matches!(other, OutputAction::CopyOriginal)
            ),
        },
        _ => panic!("expected a finished outcome"),
    }
}

#[test]
fn pipeline_is_deterministic() {
    let bytes = png_bytes(123, 77);
    let req = request(OutputFormat::Png, 70, 0);
    let a = compress_file_bytes("img.png", "img", "png", &bytes, &req).unwrap();
    let b = compress_file_bytes("img.png", "img", "png", &bytes, &req).unwrap();
    match (a, b) {
        (CompressStep::Done(x), CompressStep::Done(y)) => {
            assert_eq!(x.outcome.status, y.outcome.status);
            assert_eq!(x.outcome.original_size, y.outcome.original_size);
            assert_eq!(x.outcome.final_size, y.outcome.final_size);
            match (&x.action, &y.action) {
                (
                    OutputAction::WriteEncoded { bytes: b1, name: n1 },
                    OutputAction::WriteEncoded { bytes: b2, name: n2 },
                ) => {
                    assert_eq!(b1, b2);
                    assert_eq!(n1, n2);
                }
                (OutputAction::CopyOriginal, OutputAction::CopyOriginal) => {}
                (OutputAction::NoOutput, OutputAction::NoOutput) => {}
                _ => panic!("the two runs took different actions"),
            }
        }
        _ => panic!("expected two finished outcomes"),
    }
}

#[test]
fn skipped_outcome_reports_the_original_size() {
    // A tiny savings threshold that the re-encode cannot meet: encode the
    // same PNG at the same settings and demand 100% savings.
    let bytes = png_bytes(50, 50);
    let req = request(OutputFormat::Png, 80, 100);
    match compress_file_bytes("img.png", "img", "png", &bytes, &req).unwrap() {
        CompressStep::Done(out) => {
            if out.outcome.status == FileStatus::Skipped {
                assert_eq!(out.outcome.final_size, out.outcome.original_size);
                assert!(matches!(out.action, OutputAction::NoOutput | OutputAction::CopyOriginal));
            }
        }
        _ => panic!("expected a finished outcome"),
    }
}
