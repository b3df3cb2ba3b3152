//! Encoding pixels as a PNG stream with fixed encoder parameters.

use crate::digest::sha256;
use crate::digest::sha256_of;
use crate::pixels::dimensions_fit;
use crate::pixels::is_rgba_buffer;
use vstd::prelude::*;

verus! {

/// How the encoder picks the filter type of each scanline.
#[derive(Debug, Clone, Copy, PartialEq, Eq, Structural)]
pub enum FilterStrategy {
    /// Filter type 0 on every scanline: the bytes go out as they are.
    Zero,
    /// For each scanline, the filter with the smallest sum of absolute values.
    MinSum,
    /// For each scanline, the filter that compresses best.
    BruteForce,
}

/// The settings that decide, with the pixels, which bytes the encoder writes.
/// The colour type is not among them: both the pixels taken and the image
/// written are always 8-bit RGBA.
#[derive(Debug, Clone, Copy, PartialEq, Eq, Structural)]
pub struct EncodingParams {
    /// Effort of the DEFLATE compressor: 0 stores the data as it is, 1 is the
    /// fastest and 9 the most thorough. The encoder takes every value above 9
    /// as 7.
    pub compression_level: u8,
    /// Choice of the scanline filters.
    pub filter_strategy: FilterStrategy,
    /// 0: rows from top to bottom; 1: Adam7. The encoder refuses every other
    /// value.
    pub interlace_method: u8,
    /// Whether the encoder may write a smaller colour type than RGBA where
    /// the pixels allow it.
    pub auto_convert: bool,
}

impl EncodingParams {
    /// The canonical parameters: level 4, no filtering on any scanline, no
    /// interlacing, no change of colour type.
    pub open spec fn canonical_spec() -> EncodingParams {
        EncodingParams {
            compression_level: 4,
            filter_strategy: FilterStrategy::Zero,
            interlace_method: 0,
            auto_convert: false,
        }
    }

    /// The canonical parameters.
    #[verifier::when_used_as_spec(canonical_spec)]
    pub fn canonical() -> (params: EncodingParams)
        ensures
            params == EncodingParams::canonical_spec(),
    {
        EncodingParams {
            compression_level: 4,
            filter_strategy: FilterStrategy::Zero,
            interlace_method: 0,
            auto_convert: false,
        }
    }
}

/// Why pixels could not be encoded.
#[derive(Debug, Clone, Copy, PartialEq, Eq, Structural)]
pub enum EncodeError {
    /// The width or the height is zero, or the buffer does not hold exactly
    /// width × height × 4 bytes.
    DimensionMismatch,
    /// The pixels fit their dimensions but are more than `MAX_PIXEL_BYTES` bytes.
    TooLarge,
    /// The encoder gave up on pixels and dimensions that fit one another.
    EncoderFailed,
}

/// The most pixel bytes that are handed to the encoder: 2^30. The encoder
/// writes all image data into one chunk, which holds less than 2^31 bytes,
/// and compressed data can be longer than the rows it was made from.
pub const MAX_PIXEL_BYTES: usize = 0x4000_0000;

/// Whether the encoder refuses the settings whatever the pixels are: an
/// interlace method other than 0 and 1.
pub open spec fn encoder_refuses(params: EncodingParams) -> bool {
    params.interlace_method > 1
}

/// What `lodepng::Encoder::encode` makes of 8-bit RGBA pixels of the given
/// dimensions under the given settings: the PNG stream where it writes one,
/// nothing where it returns an error.
pub uninterp spec fn encoded_png(
    pixels: Seq<u8>,
    width: nat,
    height: nat,
    params: EncodingParams,
) -> Option<Seq<u8>>;

/// Sets up a `lodepng::Encoder` with `params` and calls its `encode` on the
/// pixels. Believed, not proved: whether the encoder writes a stream, and
/// which, depends on the pixels, the dimensions and these four settings
/// alone, as long as memory lasts; and it returns an error for an interlace
/// method above 1. In builds that check them the encoder asserts that the
/// buffer has the size that the dimensions ask for, that a row is no longer
/// than 32 bits can count and that the image data of the stream stays under
/// 2^31 bytes, and it multiplies the sides in 32 bits where it looks for a
/// smaller colour type: the precondition grants the first and, with at most
/// 2^30 pixel bytes, keeps the others in range.
#[verifier::external_body]
fn lodepng_encode(pixels: &[u8], width: usize, height: usize, params: &EncodingParams) -> (res:
    Result<Box<[u8]>, lodepng::Error>)
    requires
        is_rgba_buffer(pixels@.len(), width as nat, height as nat),
        pixels@.len() <= MAX_PIXEL_BYTES,
    ensures
        match res {
            Ok(png) => encoded_png(pixels@, width as nat, height as nat, *params) == Some(png@),
            Err(_) => encoded_png(pixels@, width as nat, height as nat, *params) is None,
        },
        encoder_refuses(*params) ==> res is Err,
{
    let mut encoder = lodepng::Encoder::new();
    encoder.set_auto_convert(params.auto_convert);
    encoder.info_png_mut().interlace_method = params.interlace_method;
    let settings = encoder.settings_mut();
    settings.zlibsettings.set_level(params.compression_level);
    settings.filter_strategy = match params.filter_strategy {
        FilterStrategy::Zero => lodepng::FilterStrategy::ZERO,
        FilterStrategy::MinSum => lodepng::FilterStrategy::MINSUM,
        FilterStrategy::BruteForce => lodepng::FilterStrategy::BRUTE_FORCE,
    };
    encoder.encode(pixels, width, height).map(Vec::into_boxed_slice)
}

/// What encoding comes to: `DimensionMismatch` where the dimensions and the
/// buffer do not fit, else `TooLarge` where the pixels are more than
/// `MAX_PIXEL_BYTES` bytes, else the encoder's stream, or `EncoderFailed`
/// where the encoder writes none.
pub open spec fn encode_spec(pixels: Seq<u8>, width: nat, height: nat, params: EncodingParams)
    -> Result<Seq<u8>, EncodeError> {
    if !is_rgba_buffer(pixels.len(), width, height) {
        Err(EncodeError::DimensionMismatch)
    } else if pixels.len() > MAX_PIXEL_BYTES {
        Err(EncodeError::TooLarge)
    } else {
        match encoded_png(pixels, width, height, params) {
            Some(stream) => Ok(stream),
            None => Err(EncodeError::EncoderFailed),
        }
    }
}

/// Encodes 8-bit RGBA pixels as a PNG stream under `params`.
///
/// The outcome is `encode_spec` of the arguments. `DimensionMismatch` comes
/// back exactly where the dimensions and the buffer do not fit; nothing is
/// cut off or filled up. Where they fit, `TooLarge` comes back exactly where
/// the pixels are more than `MAX_PIXEL_BYTES` bytes, and the encoder is not
/// called; below that, an interlace method above 1 is `EncoderFailed`.
pub fn encode_pixels(pixels: &[u8], width: usize, height: usize, params: &EncodingParams) -> (res:
    Result<Box<[u8]>, EncodeError>)
    ensures
        match encode_spec(pixels@, width as nat, height as nat, *params) {
            Ok(stream) => res matches Ok(png) && png@ == stream,
            Err(e) => res == Err::<Box<[u8]>, EncodeError>(e),
        },
        res == Err::<Box<[u8]>, EncodeError>(EncodeError::DimensionMismatch) <==> !is_rgba_buffer(
            pixels@.len(),
            width as nat,
            height as nat,
        ),
        res == Err::<Box<[u8]>, EncodeError>(EncodeError::TooLarge) <==> is_rgba_buffer(
            pixels@.len(),
            width as nat,
            height as nat,
        ) && pixels@.len() > MAX_PIXEL_BYTES,
        is_rgba_buffer(pixels@.len(), width as nat, height as nat) && pixels@.len()
            <= MAX_PIXEL_BYTES && encoder_refuses(*params) ==> res == Err::<
            Box<[u8]>,
            EncodeError,
        >(EncodeError::EncoderFailed),
{
    if !dimensions_fit(pixels.len(), width, height) {
        return Err(EncodeError::DimensionMismatch);
    }
    if pixels.len() > MAX_PIXEL_BYTES {
        return Err(EncodeError::TooLarge);
    }
    match lodepng_encode(pixels, width, height, params) {
        Ok(png) => Ok(png),
        Err(_) => Err(EncodeError::EncoderFailed),
    }
}

/// A canonical encoding with its fingerprints.
#[derive(Debug)]
pub struct ImageWithHashes {
    /// Digest of the pixel bytes: of the colour values, not of a file.
    pub src_data_hash: Box<[u8]>,
    /// The pixels encoded with the canonical parameters.
    pub minecraft_png: Box<[u8]>,
    /// Digest of `minecraft_png`.
    pub minecraft_hash: Box<[u8]>,
}

impl ImageWithHashes {
    /// Whether this is the canonical encoding of the pixels, with the digest
    /// of the encoding and the digest of the pixels, each of 32 bytes.
    pub open spec fn is_fingerprint_of(&self, pixels: Seq<u8>, width: nat, height: nat) -> bool {
        &&& encode_spec(pixels, width, height, EncodingParams::canonical_spec()) == Ok::<
            Seq<u8>,
            EncodeError,
        >(self.minecraft_png@)
        &&& self.minecraft_hash@ == sha256(self.minecraft_png@)
        &&& self.src_data_hash@ == sha256(pixels)
        &&& self.minecraft_hash@.len() == 32
        &&& self.src_data_hash@.len() == 32
    }
}

/// Whether `res` is what encoding the pixels canonically and fingerprinting
/// the stream comes to.
pub open spec fn is_canonical_outcome(
    res: Result<ImageWithHashes, EncodeError>,
    pixels: Seq<u8>,
    width: nat,
    height: nat,
) -> bool {
    match encode_spec(pixels, width, height, EncodingParams::canonical_spec()) {
        Ok(_) => res matches Ok(image) && image.is_fingerprint_of(pixels, width, height),
        Err(e) => res == Err::<ImageWithHashes, EncodeError>(e),
    }
}

/// Puts a canonical encoding together with its fingerprints: the digest of
/// the encoding and the digest of the pixel bytes that it was made from, each
/// computed on its own.
pub fn fingerprint_encoding(src_data: &[u8], minecraft_png: Box<[u8]>) -> (image: ImageWithHashes)
    ensures
        image.minecraft_png@ == minecraft_png@,
        image.minecraft_hash@ == sha256(minecraft_png@),
        image.src_data_hash@ == sha256(src_data@),
        image.minecraft_hash@.len() == 32,
        image.src_data_hash@.len() == 32,
{
    let minecraft_hash = sha256_of(&minecraft_png);
    let src_data_hash = sha256_of(src_data);
    ImageWithHashes { src_data_hash, minecraft_png, minecraft_hash }
}

/// Encodes 8-bit RGBA pixels with the canonical parameters and fingerprints
/// the result.
///
/// `DimensionMismatch` comes back exactly where the width or the height is
/// zero or the buffer does not hold width × height × 4 bytes. Where they fit,
/// `TooLarge` comes back exactly where the pixels are more than
/// `MAX_PIXEL_BYTES` bytes. Below that, the image holds the encoder's stream
/// for these pixels under the canonical parameters, the digest of that stream
/// and the digest of the pixels; or `EncoderFailed` comes back where the
/// encoder writes no stream.
pub fn encode_image_minecraft(src_data: &[u8], width: usize, height: usize) -> (res: Result<
    ImageWithHashes,
    EncodeError,
>)
    ensures
        is_canonical_outcome(res, src_data@, width as nat, height as nat),
        res == Err::<ImageWithHashes, EncodeError>(EncodeError::DimensionMismatch)
            <==> !is_rgba_buffer(src_data@.len(), width as nat, height as nat),
        res == Err::<ImageWithHashes, EncodeError>(EncodeError::TooLarge) <==> is_rgba_buffer(
            src_data@.len(),
            width as nat,
            height as nat,
        ) && src_data@.len() > MAX_PIXEL_BYTES,
{
    let params = EncodingParams::canonical();
    match encode_pixels(src_data, width, height, &params) {
        Ok(minecraft_png) => Ok(fingerprint_encoding(src_data, minecraft_png)),
        Err(e) => Err(e),
    }
}

/// The canonical encoding is a function of the pixels and the dimensions: two
/// outcomes of encoding equal pixels with equal dimensions are both images,
/// with the same stream, byte for byte, and the same two digests, or both the
/// same error.
pub proof fn lemma_canonical_encoding_deterministic(
    pixels: Seq<u8>,
    width: nat,
    height: nat,
    first: Result<ImageWithHashes, EncodeError>,
    second: Result<ImageWithHashes, EncodeError>,
)
    requires
        is_canonical_outcome(first, pixels, width, height),
        is_canonical_outcome(second, pixels, width, height),
    ensures
        first is Ok <==> second is Ok,
        first matches Ok(a) ==> second matches Ok(b) && a.minecraft_png@ == b.minecraft_png@
            && a.minecraft_hash@ == b.minecraft_hash@ && a.src_data_hash@ == b.src_data_hash@,
        first matches Err(e) ==> second == Err::<ImageWithHashes, EncodeError>(e),
{
}

} // verus!
