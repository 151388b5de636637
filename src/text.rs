use vstd::prelude::*;

use crate::error::WoofiError;

verus! {

/// The text with leading and trailing whitespace removed.
pub uninterp spec fn trim_of(s: Seq<char>) -> Seq<char>;

/// Relies on `str::trim`: the slice of `s` without its leading and trailing
/// whitespace, which for empty text is empty.
#[verifier::external_body]
fn trim_text(s: &str) -> (r: &str)
    ensures
        r@ == trim_of(s@),
        s@.len() == 0 ==> r@.len() == 0,
{
    s.trim()
}

/// Text that holds nothing but whitespace.
pub open spec fn is_blank(s: Seq<char>) -> bool {
    trim_of(s).len() == 0
}

/// The first problem with the texts of a new dog, already trimmed: its name,
/// then its story, then its image URL must be non-empty.
pub open spec fn new_dog_text_error(
    name: Seq<char>,
    story: Seq<char>,
    image_url: Seq<char>,
) -> Option<WoofiError> {
    if name.len() == 0 {
        Some(WoofiError::InvalidDogName)
    } else {
        dog_text_error(story, image_url)
    }
}

/// The first problem with the updatable texts of a dog, already trimmed: its
/// story, then its image URL must be non-empty.
pub open spec fn dog_text_error(story: Seq<char>, image_url: Seq<char>) -> Option<WoofiError> {
    if story.len() == 0 {
        Some(WoofiError::InvalidDogStory)
    } else if image_url.len() == 0 {
        Some(WoofiError::InvalidImageUrl)
    } else {
        None
    }
}

/// Checks the trimmed texts of a new dog, in the order name, story, image URL.
pub fn check_new_dog_text(name: &str, story: &str, image_url: &str) -> (r: Result<(), WoofiError>)
    ensures
        r == match new_dog_text_error(name@, story@, image_url@) {
            Some(e) => Err(e),
            None => Ok(()),
        },
{
    if name.is_empty() {
        return Err(WoofiError::InvalidDogName);
    }
    check_dog_text(story, image_url)
}

/// Checks the trimmed updatable texts of a dog, in the order story, image URL.
pub fn check_dog_text(story: &str, image_url: &str) -> (r: Result<(), WoofiError>)
    ensures
        r == match dog_text_error(story@, image_url@) {
            Some(e) => Err(e),
            None => Ok(()),
        },
{
    if story.is_empty() {
        Err(WoofiError::InvalidDogStory)
    } else if image_url.is_empty() {
        Err(WoofiError::InvalidImageUrl)
    } else {
        Ok(())
    }
}

/// Checks the texts of a new dog as given: each is trimmed first.
pub fn validate_new_dog_text(name: &str, story: &str, image_url: &str) -> (r: Result<
    (),
    WoofiError,
>)
    ensures
        r == match new_dog_text_error(trim_of(name@), trim_of(story@), trim_of(image_url@)) {
            Some(e) => Err(e),
            None => Ok(()),
        },
        name@.len() == 0 ==> trim_of(name@).len() == 0,
        story@.len() == 0 ==> trim_of(story@).len() == 0,
        image_url@.len() == 0 ==> trim_of(image_url@).len() == 0,
{
    check_new_dog_text(trim_text(name), trim_text(story), trim_text(image_url))
}

/// Checks the updatable texts of a dog as given: each is trimmed first.
pub fn validate_dog_text(story: &str, image_url: &str) -> (r: Result<(), WoofiError>)
    ensures
        r == match dog_text_error(trim_of(story@), trim_of(image_url@)) {
            Some(e) => Err(e),
            None => Ok(()),
        },
        story@.len() == 0 ==> trim_of(story@).len() == 0,
        image_url@.len() == 0 ==> trim_of(image_url@).len() == 0,
{
    check_dog_text(trim_text(story), trim_text(image_url))
}

} // verus!
