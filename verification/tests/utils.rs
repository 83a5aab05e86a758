use file_service::utils::{
    calculate_sha256, generate_thumbnail, get_file_extension, is_file_mime_type, to_hex,
    Thumbnail, ThumbnailFailed, THUMBNAIL_SIDE,
};

fn striped_png(width: u32, height: u32) -> Vec<u8> {
    let mut picture = image::RgbImage::new(width, height);
    for (x, y, pixel) in picture.enumerate_pixels_mut() {
        *pixel = image::Rgb([(x % 256) as u8, (y % 256) as u8, 128]);
    }
    let mut out = std::io::Cursor::new(Vec::new());
    image::DynamicImage::ImageRgb8(picture)
        .write_to(&mut out, image::ImageFormat::Png)
        .expect("a PNG can be encoded");
    out.into_inner()
}

#[test]
fn extension_is_lowercased() {
    assert_eq!(get_file_extension("Report.PDF"), Some("pdf".to_string()));
    assert_eq!(get_file_extension("archive.tar.GZ"), Some("gz".to_string()));
    assert_eq!(get_file_extension("original.txt"), Some("txt".to_string()));
    assert_eq!(get_file_extension("ÉTÉ.JPÉG"), Some("jpég".to_string()));
}

#[test]
fn extension_absent_without_dot() {
    assert_eq!(get_file_extension("README"), None);
    assert_eq!(get_file_extension(""), None);
}

#[test]
fn extension_absent_for_dotfile() {
    assert_eq!(get_file_extension(".bashrc"), None);
    assert_eq!(get_file_extension("."), None);
    assert_eq!(get_file_extension(".bashrc.bak"), Some("bak".to_string()));
}

#[test]
fn extension_after_trailing_dot_is_empty() {
    assert_eq!(get_file_extension("name."), Some(String::new()));
}

#[test]
fn extension_is_what_follows_the_last_dot() {
    assert_eq!(get_file_extension("setup.EXE"), Some("exe".to_string()));
    assert_eq!(get_file_extension("a..b"), Some("b".to_string()));
    assert_eq!(get_file_extension("..."), Some(String::new()));
}

#[test]
fn extension_is_that_of_the_last_component() {
    assert_eq!(get_file_extension("a.b/c"), None);
    assert_eq!(get_file_extension("a.b/c.D"), Some("d".to_string()));
    assert_eq!(get_file_extension("dir/.hidden"), None);
    assert_eq!(get_file_extension("/"), None);
    assert_eq!(get_file_extension("//"), None);
}

#[test]
fn extension_ignores_trailing_separators_and_dots() {
    assert_eq!(get_file_extension("photo.JPG/"), Some("jpg".to_string()));
    assert_eq!(get_file_extension("photo.jpg//"), Some("jpg".to_string()));
    assert_eq!(get_file_extension("photo.jpg/."), Some("jpg".to_string()));
    assert_eq!(get_file_extension("photo.jpg/./"), Some("jpg".to_string()));
    assert_eq!(get_file_extension("./photo.jpg"), Some("jpg".to_string()));
}

#[test]
fn extension_absent_for_parent_and_current_directory() {
    assert_eq!(get_file_extension(".."), None);
    assert_eq!(get_file_extension("a.txt/.."), None);
    assert_eq!(get_file_extension("../"), None);
    assert_eq!(get_file_extension("./"), None);
    assert_eq!(get_file_extension("./."), None);
}

#[test]
fn extension_agrees_with_the_path_type() {
    for name in [
        "", ".", "..", "...", "a", "a.", ".a", "a.b", "a.b.c", "a.B", "/", "//", "a/", "a.b/",
        "a.b//", "a.b/.", "a.b/./", "a.b/..", "a.b/../", "a.b/c", "a.b/c.d", "a.b/.c", "a/.b.c",
        "./a.b", "../a.b", ". /a.b", "a.b/ ", "a./b", "a/.", "a/..", "/.", "/..", "/a.b", "x/./y.z",
        "x//y.z", "..a", "a..", "a/b.c/.//", ".a.", "é.É",
    ] {
        let expected = std::path::Path::new(name)
            .extension()
            .and_then(|ext| ext.to_str())
            .map(|ext| ext.to_lowercase());
        assert_eq!(get_file_extension(name), expected, "for {:?}", name);
    }
}

#[test]
fn image_mime_types() {
    assert!(is_file_mime_type("image/png"));
    assert!(is_file_mime_type("image/"));
    assert!(!is_file_mime_type("text/plain"));
    assert!(!is_file_mime_type("image"));
    assert!(!is_file_mime_type("Image/png"));
    assert!(!is_file_mime_type(" image/png"));
    assert!(!is_file_mime_type(""));
}

#[test]
fn hex_is_lowercase_and_two_digits_a_byte() {
    assert_eq!(to_hex(&[]), "");
    assert_eq!(to_hex(&[0x00, 0x0f, 0xa0, 0xff, 0x5c]), "000fa0ff5c");
}

#[test]
fn sha256_of_abc() {
    assert_eq!(
        calculate_sha256(b"abc"),
        "ba7816bf8f01cfea414140de5dae2223b00361a396177a9cb410ff61f20015ad"
    );
}

#[test]
fn sha256_of_empty_input() {
    assert_eq!(
        calculate_sha256(b""),
        "e3b0c44298fc1c149afbf4c8996fb92427ae41e4649b934ca495991b7852b855"
    );
}

#[test]
fn sha256_is_64_lowercase_hex_digits() {
    let sum = calculate_sha256(&[7u8; 1000]);
    assert_eq!(sum.len(), 64);
    assert!(sum.chars().all(|c| c.is_ascii_digit() || ('a'..='f').contains(&c)));
    assert_ne!(sum, calculate_sha256(&[7u8; 1001]));
}

#[test]
fn thumbnail_fits_the_box_and_is_a_jpeg() {
    let thumbnail = generate_thumbnail(&striped_png(400, 300), "base").expect("a PNG has a thumbnail");
    assert_eq!(thumbnail.file_name, "base_thumb.jpg");
    assert_eq!((thumbnail.width, thumbnail.height), (200, 150));
    assert_eq!(&thumbnail.jpeg[..2], &[0xff, 0xd8]);
    let decoded = image::load_from_memory(&thumbnail.jpeg).expect("the thumbnail decodes");
    assert_eq!((decoded.width(), decoded.height()), (200, 150));
}

#[test]
fn thumbnail_of_a_tall_picture() {
    let thumbnail = generate_thumbnail(&striped_png(50, 1000), "tall").expect("a PNG has a thumbnail");
    assert_eq!((thumbnail.width, thumbnail.height), (10, 200));
    assert!(thumbnail.width <= THUMBNAIL_SIDE && thumbnail.height <= THUMBNAIL_SIDE);
}

#[test]
fn thumbnail_of_a_small_picture_fills_the_box() {
    let thumbnail = generate_thumbnail(&striped_png(20, 10), "small").expect("a PNG has a thumbnail");
    assert_eq!((thumbnail.width, thumbnail.height), (200, 100));
}

#[test]
fn thumbnail_of_no_picture_fails() {
    assert_eq!(generate_thumbnail(b"abc", "x"), Err(ThumbnailFailed::Decode));
    assert_eq!(generate_thumbnail(b"", "x"), Err(ThumbnailFailed::Decode));
}

#[test]
fn packing_keeps_what_fits_the_box() {
    let thumbnail = Thumbnail::pack("id", 200, 1, Some(vec![0xff, 0xd8])).expect("fits");
    assert_eq!(
        thumbnail,
        Thumbnail { file_name: "id_thumb.jpg".to_string(), width: 200, height: 1, jpeg: vec![0xff, 0xd8] }
    );
}

#[test]
fn packing_refuses_what_does_not_fit() {
    assert_eq!(Thumbnail::pack("id", 201, 1, Some(vec![1])), Err(ThumbnailFailed::OutOfBounds));
    assert_eq!(Thumbnail::pack("id", 1, 201, Some(vec![1])), Err(ThumbnailFailed::OutOfBounds));
    assert_eq!(Thumbnail::pack("id", 201, 201, None), Err(ThumbnailFailed::OutOfBounds));
}

#[test]
fn packing_reports_a_failed_encoding() {
    assert_eq!(Thumbnail::pack("id", 10, 10, None), Err(ThumbnailFailed::Encode));
}

#[test]
fn thumbnail_of_a_jpeg_and_of_its_truncation() {
    let picture = image::RgbImage::from_pixel(64, 32, image::Rgb([200, 100, 50]));
    let mut out = std::io::Cursor::new(Vec::new());
    image::DynamicImage::ImageRgb8(picture)
        .write_to(&mut out, image::ImageFormat::Jpeg)
        .expect("a JPEG can be encoded");
    let jpeg = out.into_inner();
    let thumbnail = generate_thumbnail(&jpeg, "j").expect("a JPEG has a thumbnail");
    assert_eq!((thumbnail.width, thumbnail.height), (200, 100));
    assert_eq!(thumbnail.file_name, "j_thumb.jpg");
    assert_eq!(generate_thumbnail(&jpeg[..10], "j"), Err(ThumbnailFailed::Decode));
}
