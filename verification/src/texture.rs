//! Loading the font-sheet pixels from a PNG image.
//!
//! The font sheet arrives as PNG bytes; decoding them is delegated to the
//! `png` crate. Decoding is deterministic in the input bytes, so its result
//! is given a name, and the library's own work — sizing the image for the
//! texture upload — is verified against that name.

use vstd::prelude::*;

verus! {

/// What decoding a PNG byte stream yields: the packed row-major pixel
/// bytes of the first frame with its width and height, or nothing when the
/// stream is not a decodable PNG.
pub uninterp spec fn png_decode_of(data: Seq<u8>) -> Option<(Seq<u8>, u32, u32)>;

/// Whether the bytes decode as a PNG image.
pub open spec fn png_decodes(data: Seq<u8>) -> bool {
    png_decode_of(data) is Some
}

/// The decoded pixel bytes, width and height of a decodable PNG.
pub open spec fn png_image_of(data: Seq<u8>) -> (Seq<u8>, u32, u32) {
    png_decode_of(data)->Some_0
}

/// Relies on png::Decoder::read_info and png::Reader::next_frame: together
/// they decode the first frame of a PNG byte stream, writing packed
/// row-major pixel bytes, and their result depends on the input bytes
/// alone. Any decoding failure comes back as `None`.
#[verifier::external_body]
fn decode_png(data: &[u8]) -> (r: Option<(Vec<u8>, u32, u32)>)
    ensures
        match r {
            Some(t) => png_decode_of(data@) == Some((t.0@, t.1, t.2)),
            None => png_decode_of(data@) is None,
        },
{
    let decoder = png::Decoder::new(std::io::Cursor::new(data));
    let mut reader = match decoder.read_info() {
        Ok(reader) => reader,
        Err(_) => return None,
    };
    let size = match reader.output_buffer_size() {
        Some(size) => size,
        None => return None,
    };
    let mut pixels = vec![0u8; size];
    match reader.next_frame(&mut pixels) {
        Ok(frame) => Some((pixels, frame.width, frame.height)),
        Err(_) => None,
    }
}

/// Decode the font sheet's PNG bytes into pixels and signed dimensions, as
/// the texture upload wants them. Yields nothing when the bytes do not
/// decode, or when a dimension is too large for a signed texture size.
pub fn load_pixels_of_png(data: &[u8]) -> (r: Option<(Vec<u8>, i32, i32)>)
    ensures
        match r {
            Some(t) => {
                &&& png_decodes(data@)
                &&& t.0@ == png_image_of(data@).0
                &&& t.1 == png_image_of(data@).1 as i32
                &&& t.2 == png_image_of(data@).2 as i32
                &&& png_image_of(data@).1 <= i32::MAX
                &&& png_image_of(data@).2 <= i32::MAX
            },
            None => {
                ||| !png_decodes(data@)
                ||| png_image_of(data@).1 > i32::MAX
                ||| png_image_of(data@).2 > i32::MAX
            },
        },
{
    match decode_png(data) {
        Some((pixels, width, height)) => {
            if width <= i32::MAX as u32 && height <= i32::MAX as u32 {
                Some((pixels, width as i32, height as i32))
            } else {
                None
            }
        },
        None => None,
    }
}

} // verus!
