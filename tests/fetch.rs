use random_dog::dog_image::{any_breed, file_name, resolve_image_url, DogImage};
use random_dog::error::Error;

const HUSKY: &str = "https://images.dog.ceo/breeds/husky/n02110185_1469.jpg";

#[test]
fn resolves_message_url() {
    let body = format!("{{\"message\":\"{}\",\"status\":\"success\"}}", HUSKY);
    assert_eq!(resolve_image_url(&body), Ok(HUSKY.to_string()));
}

#[test]
fn missing_message_is_protocol_error() {
    assert_eq!(resolve_image_url("{\"status\":\"success\"}"), Err(Error::UpstreamProtocol));
}

#[test]
fn malformed_body_is_protocol_error() {
    assert_eq!(resolve_image_url("{\"message\": \"https://a/b.jpg\""), Err(Error::UpstreamProtocol));
    assert_eq!(resolve_image_url("<html></html>"), Err(Error::UpstreamProtocol));
    assert_eq!(resolve_image_url(""), Err(Error::UpstreamProtocol));
}

#[test]
fn non_string_message_is_protocol_error() {
    assert_eq!(resolve_image_url("{\"message\": 12}"), Err(Error::UpstreamProtocol));
    assert_eq!(resolve_image_url("[\"message\"]"), Err(Error::UpstreamProtocol));
}

#[test]
fn file_name_is_last_segment() {
    assert_eq!(file_name(HUSKY), Ok("n02110185_1469.jpg".to_string()));
    assert_eq!(file_name("https://images.dog.ceo/breeds/hound/hound-12.jpg"), Ok("hound-12.jpg".to_string()));
    assert_eq!(file_name("/a"), Ok("a".to_string()));
    assert_eq!(file_name("x/é/ünï.png"), Ok("ünï.png".to_string()));
}

#[test]
fn file_name_missing_is_protocol_error() {
    assert_eq!(file_name("no-slash.jpg"), Err(Error::UpstreamProtocol));
    assert_eq!(file_name("https://images.dog.ceo/breeds/"), Err(Error::UpstreamProtocol));
    assert_eq!(file_name(""), Err(Error::UpstreamProtocol));
}

#[test]
fn dog_image_from_download() {
    let img = DogImage::new(&any_breed(), HUSKY, vec![1, 2, 3]).unwrap();
    assert_eq!(img.breed, "any");
    assert_eq!(img.file_name, "n02110185_1469.jpg");
    assert_eq!(img.bytes, vec![1, 2, 3]);
}

#[test]
fn dog_image_without_name_fails() {
    assert_eq!(DogImage::new(&any_breed(), "https:", vec![1]), Err(Error::UpstreamProtocol));
}

#[test]
fn fetch_pipeline_names_file_after_url() {
    let body = format!("{{\"message\":\"{}\"}}", HUSKY);
    let url = resolve_image_url(&body).unwrap();
    let img = DogImage::new(&any_breed(), &url, vec![9]).unwrap();
    assert_eq!(img.file_name, "n02110185_1469.jpg");
}

#[test]
fn corrupt_bytes_do_not_decode_for_display() {
    let img = DogImage::new(&any_breed(), HUSKY, vec![0, 1, 2, 3]).unwrap();
    assert_eq!(img.decoded().err(), Some(Error::Decode));
}
