//! Decoding a PNG stream into 8-bit RGBA pixels.

use crate::pixels::is_rgba_buffer;
use crate::pixels::PixelBuffer;
use rgb::ComponentBytes;
use vstd::prelude::*;

verus! {

/// The error value of the `lodepng` crate. Nothing is read from it here.
#[verifier::external_type_specification]
#[verifier::external_body]
pub struct ExLodepngError(lodepng::Error);

/// Why a byte string could not be turned into a pixel buffer.
#[derive(Debug, Clone, Copy, PartialEq, Eq, Structural)]
pub enum DecodeError {
    /// The decoder refused the stream: a wrong signature, a chunk whose
    /// checksum fails, compressed data that is cut short or corrupt, a header
    /// that announces an empty image.
    InvalidPng,
    /// The decoder returned dimensions that its pixel bytes do not fill exactly.
    InvalidDimensions,
}

/// The eight bytes that every PNG stream starts with.
pub open spec fn png_signature() -> Seq<u8> {
    seq![137u8, 80u8, 78u8, 71u8, 13u8, 10u8, 26u8, 10u8]
}

/// Whether `bytes` start with the PNG signature and are long enough to hold
/// the header chunk behind it.
pub open spec fn has_png_header(bytes: Seq<u8>) -> bool {
    bytes.len() >= 33 && bytes.subrange(0, 8) == png_signature()
}

/// What `lodepng::decode32` makes of a byte string: the pixel bytes, the
/// width and the height where it accepts the stream, nothing where it refuses
/// it.
pub uninterp spec fn decoded_rgba(png: Seq<u8>) -> Option<(Seq<u8>, nat, nat)>;

/// Calls `lodepng::decode32` and hands out the bitmap's pixels as bytes, four
/// per pixel, with its width and height. Believed, not proved: whether the
/// decoder accepts a stream, and what it returns for it, depends on the
/// stream alone, as long as memory lasts; and it refuses what is shorter than
/// a signature with a header chunk or starts with other bytes than the
/// signature.
#[verifier::external_body]
fn lodepng_decode32(bytes: &[u8]) -> (res: Result<(Vec<u8>, usize, usize), lodepng::Error>)
    ensures
        match res {
            Ok(image) => decoded_rgba(bytes@) == Some((image.0@, image.1 as nat, image.2 as nat)),
            Err(_) => decoded_rgba(bytes@) is None,
        },
        !has_png_header(bytes@) ==> res is Err,
{
    match lodepng::decode32(bytes) {
        Ok(png) => Ok((Vec::from(png.buffer.as_bytes()), png.width, png.height)),
        Err(e) => Err(e),
    }
}

/// What decoding `png` comes to: the decoder's pixels and dimensions where it
/// accepts the stream and they fit one another, `InvalidDimensions` where
/// they do not fit, `InvalidPng` where the decoder refuses the stream.
pub open spec fn decode_spec(png: Seq<u8>) -> Result<(Seq<u8>, nat, nat), DecodeError> {
    match decoded_rgba(png) {
        Some(image) => if is_rgba_buffer(image.0.len(), image.1, image.2) {
            Ok(image)
        } else {
            Err(DecodeError::InvalidDimensions)
        },
        None => Err(DecodeError::InvalidPng),
    }
}

/// Whether `res` is what decoding `png` comes to.
pub open spec fn is_decode_outcome(res: Result<PixelBuffer, DecodeError>, png: Seq<u8>) -> bool {
    match decode_spec(png) {
        Ok(image) => res matches Ok(buffer) && buffer.wf() && buffer@ == image,
        Err(e) => res == Err::<PixelBuffer, DecodeError>(e),
    }
}

/// Takes what the decoder returned and makes a pixel buffer of it: the
/// decoder's pixels and dimensions as they are where they fit one another,
/// `InvalidDimensions` where they do not, `InvalidPng` where the decoder
/// refused the stream.
pub fn pixel_buffer_from_decoded(outcome: Result<(Vec<u8>, usize, usize), lodepng::Error>) -> (res:
    Result<PixelBuffer, DecodeError>)
    ensures
        match outcome {
            Ok(image) => if is_rgba_buffer(image.0@.len(), image.1 as nat, image.2 as nat) {
                res matches Ok(buffer) && buffer.wf() && buffer@ == (
                    image.0@,
                    image.1 as nat,
                    image.2 as nat,
                )
            } else {
                res == Err::<PixelBuffer, DecodeError>(DecodeError::InvalidDimensions)
            },
            Err(_) => res == Err::<PixelBuffer, DecodeError>(DecodeError::InvalidPng),
        },
{
    match outcome {
        Ok((pixels, width, height)) => match PixelBuffer::new(pixels, width, height) {
            Some(buffer) => Ok(buffer),
            None => Err(DecodeError::InvalidDimensions),
        },
        Err(_) => Err(DecodeError::InvalidPng),
    }
}

/// Decodes a PNG stream into 8-bit RGBA pixels, whatever colour type, bit
/// depth or interlacing the stream has.
///
/// The outcome is `decode_spec` of the bytes: a well-formed buffer with the
/// decoder's pixels and dimensions, or the error. Bytes that do not start
/// with the signature, or are too short for a header, are `InvalidPng`.
pub fn decode_image(bytes: &[u8]) -> (res: Result<PixelBuffer, DecodeError>)
    ensures
        is_decode_outcome(res, bytes@),
        !has_png_header(bytes@) ==> res == Err::<PixelBuffer, DecodeError>(
            DecodeError::InvalidPng,
        ),
{
    pixel_buffer_from_decoded(lodepng_decode32(bytes))
}

/// Decoding is a function of the stream: two outcomes of decoding equal
/// streams are both buffers, with equal pixels and equal dimensions, or both
/// the same error.
pub proof fn lemma_decoding_deterministic(
    png: Seq<u8>,
    first: Result<PixelBuffer, DecodeError>,
    second: Result<PixelBuffer, DecodeError>,
)
    requires
        is_decode_outcome(first, png),
        is_decode_outcome(second, png),
    ensures
        first is Ok <==> second is Ok,
        first matches Ok(a) ==> second matches Ok(b) && a@ == b@,
        first matches Err(e) ==> second == Err::<PixelBuffer, DecodeError>(e),
{
}

} // verus!
