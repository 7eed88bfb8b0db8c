//! The drawing behind a short list, as pixels.
use vstd::prelude::*;

verus! {

/// A picture: its size, and its pixels row by row, each as red, green, blue and
/// opacity.
#[derive(Debug, PartialEq, Eq)]
pub struct Art {
    pub width: u32,
    pub height: u32,
    pub pixels: Vec<u8>,
}

/// The picture as its size and its bytes.
pub open spec fn art_view(art: Option<Art>) -> Option<(u32, u32, Seq<u8>)> {
    match art {
        Some(art) => Some((art.width, art.height, art.pixels@)),
        None => None,
    }
}

/// What `image::load_from_memory_with_format` reads from these bytes as a PNG, as
/// an RGBA picture: nothing where it reads none.
pub uninterp spec fn decoded(bytes: Seq<u8>) -> Option<(u32, u32, Seq<u8>)>;

/// `image::load_from_memory_with_format` on a PNG, as an RGBA picture: a function
/// of the bytes alone. What a PNG holds is not stated.
#[verifier::external_body]
fn decode(bytes: &Vec<u8>) -> (r: Option<Art>)
    ensures
        art_view(r) == decoded(bytes@),
{
    match image::load_from_memory_with_format(bytes, image::ImageFormat::Png) {
        Ok(picture) => {
            let rgba = picture.to_rgba8();
            Some(Art { width: rgba.width(), height: rgba.height(), pixels: rgba.into_raw() })
        },
        Err(_) => None,
    }
}

/// A picture that can be drawn: one with a width and a height.
pub open spec fn drawable(art: Option<(u32, u32, Seq<u8>)>) -> Option<(u32, u32, Seq<u8>)> {
    match art {
        Some((width, height, pixels)) => if width > 0 && height > 0 {
            Some((width, height, pixels))
        } else {
            None
        },
        None => None,
    }
}

/// What is drawn of a picture that was read: nothing of an empty one.
pub fn shown(art: Option<Art>) -> (r: Option<Art>)
    ensures
        art_view(r) == drawable(art_view(art)),
{
    match art {
        Some(art) => if art.width > 0 && art.height > 0 {
            Some(art)
        } else {
            None
        },
        None => None,
    }
}

/// The picture a PNG holds, where it holds one that can be drawn.
pub fn texture(bytes: &Vec<u8>) -> (r: Option<Art>)
    ensures
        art_view(r) == drawable(decoded(bytes@)),
{
    shown(decode(bytes))
}

}
