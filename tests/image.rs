use bot_commands::fetch::Fetched;
use bot_commands::image::{CatImage, DogImage, Image, ImageError};

fn cat(id: &str, url: &str) -> CatImage {
    CatImage { id: id.to_string(), url: url.to_string(), width: 640, height: 480 }
}

#[test]
fn image_from_dog_and_cat() {
    let dog = DogImage { status: "success".to_string(), message: "https://dog/1.jpg".to_string() };
    assert_eq!(Image::from(dog).render(), "https://dog/1.jpg");
    assert_eq!(Image::from(cat("a", "https://cat/a.jpg")).render(), "https://cat/a.jpg");
}

#[test]
fn cat_random_takes_first() {
    let list = vec![cat("a", "https://cat/a.jpg"), cat("b", "https://cat/b.jpg")];
    let c = CatImage::random(Fetched::Decoded(list)).unwrap();
    assert_eq!(c.id, "a");
    assert_eq!(c.url, "https://cat/a.jpg");
}

#[test]
fn cat_random_empty_list() {
    match CatImage::random(Fetched::Decoded(Vec::new())) {
        Err(ImageError::JsonParse { message }) => assert_eq!(message, "The returned json was empty!"),
        other => panic!("unexpected {:?}", other),
    }
}

#[test]
fn cat_random_errors() {
    match CatImage::random(Fetched::RequestFailed("dns".to_string())) {
        Err(ImageError::Request { message }) => assert_eq!(message, "dns"),
        other => panic!("unexpected {:?}", other),
    }
    match CatImage::random(Fetched::Malformed) {
        Err(ImageError::JsonParse { message }) => assert_eq!(message, "Invalid JSON content"),
        other => panic!("unexpected {:?}", other),
    }
}

#[test]
fn dog_random_outcomes() {
    let dog = DogImage { status: "success".to_string(), message: "https://dog/2.jpg".to_string() };
    assert_eq!(DogImage::random(Fetched::Decoded(dog)).unwrap().message, "https://dog/2.jpg");
    match DogImage::random(Fetched::RequestFailed("refused".to_string())) {
        Err(ImageError::Request { message }) => assert_eq!(message, "refused"),
        other => panic!("unexpected {:?}", other),
    }
    match DogImage::random(Fetched::Malformed) {
        Err(ImageError::JsonParse { message }) => assert_eq!(message, "Invalid JSON content"),
        other => panic!("unexpected {:?}", other),
    }
}
