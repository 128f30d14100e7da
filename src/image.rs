//! Random cat and dog images: turning what a request brought into an image
//! link or an error.
use vstd::prelude::*;
use crate::fetch::{Fetched, invalid_json_message};

verus! {

/// Why no image could be had.
#[derive(Debug, Clone)]
pub enum ImageError {
    /// The body could not be parsed, or held no image.
    JsonParse { message: String },
    /// The request failed.
    Request { message: String },
    /// The command was used again too soon; seconds left to wait.
    Cooldown { duration: String },
}

/// A link to an image.
#[derive(Debug, Clone, Default)]
pub struct Image {
    pub link: String,
}

/// One image as the cat image service describes it.
#[derive(Debug, Clone, Default)]
pub struct CatImage {
    pub id: String,
    pub url: String,
    pub width: i64,
    pub height: i64,
}

/// One image as the dog image service describes it.
#[derive(Debug, Clone, Default)]
pub struct DogImage {
    pub status: String,
    pub message: String,
}

impl Image {
    /// The reply text: the link itself.
    pub fn render(&self) -> (r: String)
        ensures
            r@ == self.link@,
    {
        self.link.clone()
    }
}

impl From<DogImage> for Image {
    fn from(value: DogImage) -> (r: Self) {
        Image { link: value.message }
    }
}

impl vstd::std_specs::convert::FromSpecImpl<DogImage> for Image {
    open spec fn obeys_from_spec() -> bool {
        true
    }

    open spec fn from_spec(value: DogImage) -> Image {
        Image { link: value.message }
    }
}

impl From<CatImage> for Image {
    fn from(value: CatImage) -> (r: Self) {
        Image { link: value.url }
    }
}

impl vstd::std_specs::convert::FromSpecImpl<CatImage> for Image {
    open spec fn obeys_from_spec() -> bool {
        true
    }

    open spec fn from_spec(value: CatImage) -> Image {
        Image { link: value.url }
    }
}

/// The relation between a fetched dog image and the result of fetching it.
pub open spec fn dog_fetch_result(response: Fetched<DogImage>, r: Result<DogImage, ImageError>) -> bool {
    match response {
        Fetched::RequestFailed(m) => r == Err::<DogImage, ImageError>(ImageError::Request { message: m }),
        Fetched::Malformed => match r {
            Err(ImageError::JsonParse { message }) => message@ == "Invalid JSON content"@,
            _ => false,
        },
        Fetched::Decoded(d) => r == Ok::<DogImage, ImageError>(d),
    }
}

impl DogImage {
    /// The dog image that a request brought: a failed request and a body that
    /// is not an image each give their error.
    pub fn random(response: Fetched<DogImage>) -> (r: Result<DogImage, ImageError>)
        ensures
            dog_fetch_result(response, r),
    {
        match response {
            Fetched::RequestFailed(message) => Err(ImageError::Request { message }),
            Fetched::Malformed => Err(ImageError::JsonParse { message: invalid_json_message() }),
            Fetched::Decoded(d) => Ok(d),
        }
    }
}

impl CatImage {
    /// The first cat image of the list that a request brought: a failed
    /// request, a body that is not a list of images, and an empty list each
    /// give their error.
    pub fn random(response: Fetched<Vec<CatImage>>) -> (r: Result<CatImage, ImageError>)
        ensures
            match response {
                Fetched::RequestFailed(m) => r == Err::<CatImage, ImageError>(
                    ImageError::Request { message: m },
                ),
                Fetched::Malformed => match r {
                    Err(ImageError::JsonParse { message }) => message@ == "Invalid JSON content"@,
                    _ => false,
                },
                Fetched::Decoded(list) => if list@.len() > 0 {
                    r == Ok::<CatImage, ImageError>(list@[0])
                } else {
                    match r {
                        Err(ImageError::JsonParse { message }) => message@
                            == "The returned json was empty!"@,
                        _ => false,
                    }
                },
            },
    {
        match response {
            Fetched::RequestFailed(message) => Err(ImageError::Request { message }),
            Fetched::Malformed => Err(ImageError::JsonParse { message: invalid_json_message() }),
            Fetched::Decoded(mut list) => {
                if list.len() > 0 {
                    Ok(list.remove(0))
                } else {
                    Err(
                        ImageError::JsonParse {
                            message: String::from_str("The returned json was empty!"),
                        },
                    )
                }
            },
        }
    }
}

} // verus!
