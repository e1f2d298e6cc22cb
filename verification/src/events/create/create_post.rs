//! The handler of created posts.

use crate::events::{Image, Record};
use vstd::prelude::*;
use vstd::utf8::encode_utf8;

verus! {

/// The experience that a post earns for an attached image.
pub const IMAGE_EXPERIENCE: i32 = 100;

/// The experience that a post earns on top where every attached image is
/// described.
pub const ALT_TEXT_EXPERIENCE: i32 = 50;

/// The longest text whose experience still fits its machine type.
pub const MAX_POST_LENGTH: u32 = 2_147_483_497;

/// What a post is worth: its text, the length of the text in bytes, and
/// what is known of its images.
pub struct CreatePostEvent {
    pub text: String,
    pub length: u32,
    pub has_image: bool,
    pub image_has_alt_text: bool,
}

/// The length of a text in bytes.
pub open spec fn spec_byte_length(text: Seq<char>) -> nat {
    encode_utf8(text).len()
}

/// The length of a text in bytes as the event holds it: the length itself
/// wherever it fits the field, which is every length below four gibibytes.
pub open spec fn spec_length_field(text: Seq<char>) -> u32 {
    spec_byte_length(text) as usize as u32
}

/// Every image carries a description that is not empty.
pub open spec fn spec_all_described(images: Seq<Image>) -> bool {
    forall|i: int| 0 <= i < images.len() ==> (#[trigger] images[i]).alt@.len() > 0
}

/// Returns whether every image carries a description that is not empty.
pub fn all_described(images: &Vec<Image>) -> (described: bool)
    ensures
        described == spec_all_described(images@),
{
    let mut index: usize = 0;
    while index < images.len()
        invariant
            index <= images.len(),
            forall|i: int| 0 <= i < index ==> (#[trigger] images@[i]).alt@.len() > 0,
        decreases images.len() - index,
    {
        if images[index].alt.as_str().is_empty() {
            return false;
        }
        index = index + 1;
    }
    true
}

/// The experience of a post of `length` bytes.
pub open spec fn spec_post_experience(length: int, has_image: bool, image_has_alt_text: bool)
    -> int {
    length + (if has_image { IMAGE_EXPERIENCE as int } else { 0 }) + (if image_has_alt_text {
        ALT_TEXT_EXPERIENCE as int
    } else {
        0
    })
}

impl CreatePostEvent {
    /// A post without text and without images.
    pub fn new() -> (event: CreatePostEvent)
        ensures
            event.text@.len() == 0,
            event.length == 0,
            !event.has_image,
            !event.image_has_alt_text,
    {
        CreatePostEvent {
            text: String::new(),
            length: 0,
            has_image: false,
            image_has_alt_text: false,
        }
    }

    /// The experience that the post earns.
    pub open spec fn spec_exp(&self) -> int {
        spec_post_experience(self.length as int, self.has_image, self.image_has_alt_text)
    }

    /// Reads a record into the event. A post gives its text and the length
    /// of the text in bytes; where images are attached, the event has an
    /// image, and it has alternative text if every image is described.
    /// A record of another kind leaves the event as it is.
    pub fn handle(&mut self, record: Record)
        ensures
            match record {
                Record::Post { text, images } => {
                    &&& final(self).text == text
                    &&& final(self).length == spec_length_field(text@)
                    &&& match images {
                        Some(list) => {
                            &&& final(self).has_image
                            &&& final(self).image_has_alt_text == spec_all_described(list@)
                        },
                        None => {
                            &&& final(self).has_image == old(self).has_image
                            &&& final(self).image_has_alt_text == old(self).image_has_alt_text
                        },
                    }
                },
                _ => *final(self) == *old(self),
            },
    {
        match record {
            Record::Post { text, images } => {
                self.length = #[verifier::truncate]
                (text.as_str().len() as u32);
                self.text = text;
                if let Some(list) = images {
                    self.has_image = true;
                    self.image_has_alt_text = all_described(&list);
                }
            },
            _ => {},
        }
    }

    /// Returns the experience that the post earns: the length of its text,
    /// a hundred more for an image, and fifty more where every image is
    /// described.
    pub fn calculate_exp(&self) -> (exp: i32)
        requires
            self.length <= MAX_POST_LENGTH,
        ensures
            exp == self.spec_exp(),
            0 <= exp,
    {
        let mut exp: i32 = self.length as i32;
        if self.has_image {
            exp = exp + IMAGE_EXPERIENCE;
        }
        if self.image_has_alt_text {
            exp = exp + ALT_TEXT_EXPERIENCE;
        }
        exp
    }
}

} // verus!
