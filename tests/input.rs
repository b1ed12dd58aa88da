use rusty_tesseract::{Image, TessError};

fn sample_image() -> image::DynamicImage {
    let buffer = image::RgbImage::from_fn(9, 5, |x, y| {
        image::Rgb([(x * 28) as u8, (y * 50) as u8, ((x + y) * 11) as u8])
    });
    image::DynamicImage::ImageRgb8(buffer)
}

#[test]
fn test_from_path() {
    let input = Image::from_path("img/string.png").unwrap();

    assert_eq!(input.get_image_path().unwrap(), "img/string.png")
}

#[test]
fn test_from_dynamic_image() {
    let img = sample_image();

    let input = Image::from_dynamic_image(&img).unwrap();

    let temppath = input.get_image_path().unwrap();

    let tempimg = image::io::Reader::open(temppath).unwrap().decode().unwrap();

    assert_eq!(img, tempimg);
}

#[test]
fn every_listed_extension_is_taken() {
    for ext in ["jpeg", "jpg", "png", "pbm", "pgm", "ppm", "tiff", "bmp", "gif", "webp"] {
        let path = format!("scans/page.{}", ext);
        let input = Image::from_path(&path).unwrap();
        assert_eq!(input.get_image_path().unwrap(), path);
    }
}

#[test]
fn extension_case_is_ignored() {
    for path in ["photo.JPG", "photo.jpg", "photo.Jpg", "PHOTO.WebP"] {
        let input = Image::from_path(path).unwrap();
        assert_eq!(input.get_image_path().unwrap(), path);
    }
}

#[test]
fn extension_is_compared_in_unicode_upper_case() {
    // U+0131, the dotless i, is upper-cased to an ASCII `I`.
    let input = Image::from_path("scan.t\u{131}ff").unwrap();
    assert_eq!(input.get_image_path().unwrap(), "scan.t\u{131}ff");
}

#[test]
fn unlisted_extension_is_refused() {
    assert_eq!(Image::from_path("img/string.txt").unwrap_err(), TessError::ImageFormatError);
    assert_eq!(Image::from_path("img/string.svg").unwrap_err(), TessError::ImageFormatError);
    assert_eq!(Image::from_path("img/string.pngx").unwrap_err(), TessError::ImageFormatError);
}

#[test]
fn missing_extension_is_refused() {
    assert_eq!(Image::from_path("img/noext").unwrap_err(), TessError::ImageFormatError);
    assert_eq!(Image::from_path("").unwrap_err(), TessError::ImageFormatError);
    assert_eq!(Image::from_path("img/.png").unwrap_err(), TessError::ImageFormatError);
    assert_eq!(Image::from_path("img.png/..").unwrap_err(), TessError::ImageFormatError);
}

#[test]
fn only_the_final_component_counts() {
    assert_eq!(Image::from_path("photos.png/scan").unwrap_err(), TessError::ImageFormatError);
    let input = Image::from_path("archive.tar.gif").unwrap();
    assert_eq!(input.get_image_path().unwrap(), "archive.tar.gif");
}

#[test]
fn resolving_twice_gives_the_same_path() {
    let from_path = Image::from_path("a/b/c.bmp").unwrap();
    assert_eq!(from_path.get_image_path().unwrap(), from_path.get_image_path().unwrap());

    let from_memory = Image::from_dynamic_image(&sample_image()).unwrap();
    let first = from_memory.get_image_path().unwrap().to_string();
    let second = from_memory.get_image_path().unwrap().to_string();
    assert_eq!(first, second);
}

#[test]
fn string_form_is_the_path() {
    let input = Image::from_path("img/string.png").unwrap();
    assert_eq!(input.to_string(), "img/string.png");

    let temp = Image::from_dynamic_image(&sample_image()).unwrap();
    assert_eq!(temp.to_string(), temp.get_image_path().unwrap());
}

#[test]
fn temporary_file_is_a_named_png() {
    let input = Image::from_dynamic_image(&sample_image()).unwrap();
    let path = std::path::PathBuf::from(input.get_image_path().unwrap());
    assert!(path.exists());
    let name = path.file_name().unwrap().to_str().unwrap().to_string();
    assert!(name.starts_with("rusty-tesseract"));
    assert!(name.ends_with(".png"));
}

#[test]
fn temporary_file_is_removed_on_drop() {
    let input = Image::from_dynamic_image(&sample_image()).unwrap();
    let path = input.get_image_path().unwrap().to_string();
    assert!(std::path::Path::new(&path).exists());
    drop(input);
    assert!(!std::path::Path::new(&path).exists());
}

#[test]
fn unencodable_image_is_refused() {
    let img = image::DynamicImage::ImageRgb32F(image::Rgb32FImage::new(3, 2));
    match Image::from_dynamic_image(&img) {
        Err(TessError::DynamicImageError(cause)) => assert!(!cause.is_empty()),
        other => panic!("expected an encoding error, got {:?}", other),
    }
}

fn fresh_temp_path() -> tempfile::TempPath {
    tempfile::Builder::new().suffix(".png").tempfile().unwrap().into_temp_path()
}

#[test]
fn failed_creation_gives_tempfile_error_with_cause() {
    let outcome = Image::take_tempfile(Err("permission denied".to_string()));
    assert_eq!(outcome.unwrap_err(), TessError::TempfileError("permission denied".to_string()));
}

#[test]
fn path_without_text_gives_image_not_found() {
    let outcome = Image::take_tempfile(Ok((fresh_temp_path(), None)));
    assert_eq!(outcome.unwrap_err(), TessError::ImageNotFoundError);
}

#[test]
fn created_file_is_taken_with_its_path() {
    let file = fresh_temp_path();
    let text = file.to_str().unwrap().to_string();
    let (taken, path) = Image::take_tempfile(Ok((file, Some(text.clone())))).unwrap();
    assert_eq!(path, text);
    assert_eq!(taken.to_str().unwrap(), text);
}

#[test]
fn successful_write_gives_the_image() {
    let file = fresh_temp_path();
    let text = file.to_str().unwrap().to_string();
    let img = Image::from_written_tempfile(file, text.clone(), Ok(())).unwrap();
    assert_eq!(img.get_image_path().unwrap(), text);
}

#[test]
fn failed_write_gives_dynamic_image_error_with_cause() {
    let file = fresh_temp_path();
    let text = file.to_str().unwrap().to_string();
    let outcome = Image::from_written_tempfile(file, text, Err("disk full".to_string()));
    assert_eq!(outcome.unwrap_err(), TessError::DynamicImageError("disk full".to_string()));
}
