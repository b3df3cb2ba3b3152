use canonical_png::decode::DecodeError;
use canonical_png::digest::sha256_of;
use canonical_png::encode::encode_image_minecraft;
use canonical_png::encode::encode_pixels;
use canonical_png::encode::EncodingParams;
use canonical_png::encode::FilterStrategy;
use canonical_png::report::fingerprint_image;
use canonical_png::report::output_file_name;
use canonical_png::report::report_lines;
use canonical_png::report::FingerprintError;

fn four_pixels() -> Vec<u8> {
    vec![255, 0, 0, 255, 0, 255, 0, 255, 0, 0, 255, 255, 0, 0, 0, 255]
}

/// `four_pixels` as a file that another encoder might have written.
fn four_pixels_file() -> Vec<u8> {
    let other = EncodingParams {
        compression_level: 0,
        filter_strategy: FilterStrategy::BruteForce,
        interlace_method: 0,
        auto_convert: true,
    };
    encode_pixels(&four_pixels(), 2, 2, &other).unwrap().to_vec()
}

#[test]
fn fingerprints_of_a_file() {
    let file = four_pixels_file();
    let fingerprint = fingerprint_image(&file).unwrap();
    let canonical = encode_image_minecraft(&four_pixels(), 2, 2).unwrap();
    assert_ne!(file, canonical.minecraft_png.to_vec());
    assert_eq!(fingerprint.src_png_hash, sha256_of(&file));
    assert_eq!(fingerprint.image.minecraft_png, canonical.minecraft_png);
    assert_eq!(fingerprint.image.minecraft_hash, sha256_of(&canonical.minecraft_png));
    assert_eq!(fingerprint.image.src_data_hash, sha256_of(&four_pixels()));
}

#[test]
fn files_of_one_image_share_the_canonical_fingerprints() {
    let canonical = encode_image_minecraft(&four_pixels(), 2, 2).unwrap();
    let first = fingerprint_image(&four_pixels_file()).unwrap();
    let second = fingerprint_image(&canonical.minecraft_png).unwrap();
    assert_ne!(first.src_png_hash, second.src_png_hash);
    assert_eq!(first.image.minecraft_hash, second.image.minecraft_hash);
    assert_eq!(first.image.src_data_hash, second.image.src_data_hash);
    assert_eq!(first.image.minecraft_png, second.image.minecraft_png);
    assert_eq!(second.src_png_hash, second.image.minecraft_hash);
}

#[test]
fn the_report_has_three_labelled_lines_in_order() {
    let canonical = encode_image_minecraft(&four_pixels(), 2, 2).unwrap();
    let fingerprint = fingerprint_image(&canonical.minecraft_png).unwrap();
    let lines = report_lines(&fingerprint);
    assert_eq!(
        lines,
        vec![
            String::from(
                "minecraft hash: DE8F338899332E689D0049F144F1343B16DBA7B6EA4E9D3FAA65930B85C8E574"
            ),
            String::from(
                "image file hash: DE8F338899332E689D0049F144F1343B16DBA7B6EA4E9D3FAA65930B85C8E574"
            ),
            String::from(
                "image data hash: DD992567CA9DE65D7756032FEFEBDD3DF25D55EBE48FBB43B7F46247FAF573C0"
            ),
        ]
    );
}

#[test]
fn the_report_tells_the_three_digests_apart() {
    let file = four_pixels_file();
    let fingerprint = fingerprint_image(&file).unwrap();
    let lines = report_lines(&fingerprint);
    assert_eq!(lines.len(), 3);
    assert_eq!(
        lines[0],
        "minecraft hash: DE8F338899332E689D0049F144F1343B16DBA7B6EA4E9D3FAA65930B85C8E574"
    );
    assert!(lines[1].starts_with("image file hash: "));
    assert_ne!(&lines[1]["image file hash: ".len()..], &lines[0]["minecraft hash: ".len()..]);
    assert_eq!(
        lines[2],
        "image data hash: DD992567CA9DE65D7756032FEFEBDD3DF25D55EBE48FBB43B7F46247FAF573C0"
    );
}

#[test]
fn the_output_file_is_named_by_the_digest() {
    let canonical = encode_image_minecraft(&four_pixels(), 2, 2).unwrap();
    assert_eq!(
        output_file_name(&canonical.minecraft_hash),
        "converted-DE8F338899332E689D0049F144F1343B16DBA7B6EA4E9D3FAA65930B85C8E574.png"
    );
    assert_eq!(output_file_name(&[0x0a, 0xff]), "converted-0AFF.png");
    assert_eq!(output_file_name(&[]), "converted-.png");
}

#[test]
fn a_file_that_is_no_image_stops_at_decoding() {
    let outcome = fingerprint_image(b"no image");
    assert!(matches!(outcome, Err(FingerprintError::Decode(DecodeError::InvalidPng))));
    let mut file = four_pixels_file();
    let len = file.len();
    file.truncate(len - 13);
    let outcome = fingerprint_image(&file);
    assert!(matches!(outcome, Err(FingerprintError::Decode(DecodeError::InvalidPng))));
}
