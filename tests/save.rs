use random_dog::dog_image::{any_breed, DogImage};
use random_dog::error::Error;
use random_dog::save::{save, save_dir, save_path};

fn tiny_png() -> Vec<u8> {
    let img = image::RgbImage::from_pixel(3, 2, image::Rgb([200, 120, 40]));
    let mut out = std::io::Cursor::new(Vec::new());
    image::DynamicImage::ImageRgb8(img).write_to(&mut out, image::ImageFormat::Png).unwrap();
    out.into_inner()
}

#[test]
fn path_is_built_from_breed_and_name() {
    assert_eq!(save_dir(), "Dogs");
    assert_eq!(save_path("any", "hound-12.jpg"), "Dogs/dog_any_hound-12.jpg.jpeg");
    assert_eq!(save_path("", ""), "Dogs/dog__.jpeg");
}

#[test]
fn corrupt_bytes_fail_to_decode() {
    assert_eq!(save(&[1, 2, 3, 4, 5], "any", "x.jpg"), Err(Error::Decode));
    assert_eq!(save(&[], "any", "x.jpg"), Err(Error::Decode));
}

#[test]
fn png_is_saved_as_jpeg() {
    let job = save(&tiny_png(), "any", "pup.png").unwrap();
    assert_eq!(job.dir, "Dogs");
    assert_eq!(job.path, "Dogs/dog_any_pup.png.jpeg");
    assert_eq!(&job.data[..2], &[0xFF, 0xD8]);
    assert!(image::load_from_memory(&job.data).is_ok());
}

#[test]
fn saving_twice_targets_the_same_file() {
    let bytes = tiny_png();
    let first = save(&bytes, "any", "pup.png").unwrap();
    let second = save(&bytes, "any", "pup.png").unwrap();
    assert_eq!(first.path, second.path);
    assert_eq!(first.data, second.data);
}

#[test]
fn decodable_picture_decodes_for_display() {
    let img = DogImage::new(&any_breed(), "https://a/pup.png", tiny_png()).unwrap();
    let decoded = img.decoded().unwrap();
    assert_eq!(decoded.width(), 3);
    assert_eq!(decoded.height(), 2);
}

#[test]
fn saved_data_is_jpeg_of_the_picture() {
    let job = save(&tiny_png(), "any", "pup.png").unwrap();
    let back = image::load_from_memory(&job.data).unwrap();
    assert_eq!(back.width(), 3);
    assert_eq!(back.height(), 2);
    assert_eq!(image::guess_format(&job.data).unwrap(), image::ImageFormat::Jpeg);
}

#[test]
fn other_bytes_same_name_same_path() {
    let first = save(&tiny_png(), "any", "pup.png").unwrap();
    let img = image::RgbImage::from_pixel(5, 4, image::Rgb([10, 20, 30]));
    let mut out = std::io::Cursor::new(Vec::new());
    image::DynamicImage::ImageRgb8(img).write_to(&mut out, image::ImageFormat::Png).unwrap();
    let second = save(&out.into_inner(), "any", "pup.png").unwrap();
    assert_eq!(first.path, second.path);
    assert_ne!(first.data, second.data);
    assert_eq!(image::load_from_memory(&second.data).unwrap().width(), 5);
}
