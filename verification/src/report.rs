//! From the bytes of a file to its fingerprints, and the text that reports them.

use crate::decode::decode_image;
use crate::decode::decode_spec;
use crate::decode::has_png_header;
use crate::decode::DecodeError;
use crate::digest::sha256;
use crate::digest::sha256_of;
use crate::encode::encode_image_minecraft;
use crate::encode::encode_spec;
use crate::encode::EncodeError;
use crate::encode::EncodingParams;
use crate::encode::ImageWithHashes;
use crate::hex::hex_string;
use crate::hex::write_hex;
use vstd::prelude::*;

verus! {

/// The stage at which fingerprinting stopped, with its error.
#[derive(Debug, Clone, Copy, PartialEq, Eq, Structural)]
pub enum FingerprintError {
    /// The file could not be decoded.
    Decode(DecodeError),
    /// The decoded pixels could not be encoded.
    Encode(EncodeError),
}

/// The fingerprints of one image file.
#[derive(Debug)]
pub struct Fingerprint {
    /// Digest of the file as it was read.
    pub src_png_hash: Box<[u8]>,
    /// The canonical encoding of the file's pixels, its digest and the digest
    /// of the pixels.
    pub image: ImageWithHashes,
}

impl Fingerprint {
    /// Whether these are the fingerprints of the file `input`: the digest of
    /// the file, and the canonical encoding, with its digests, of the pixels
    /// that the file decodes to.
    pub open spec fn is_fingerprint_of(&self, input: Seq<u8>) -> bool {
        &&& self.src_png_hash@ == sha256(input)
        &&& self.src_png_hash@.len() == 32
        &&& decode_spec(input) matches Ok(decoded) && self.image.is_fingerprint_of(
            decoded.0,
            decoded.1,
            decoded.2,
        )
    }

    /// The three lines that report the fingerprints, in their fixed order:
    /// the canonical encoding's digest, the file's, the pixels'; each in
    /// upper-case hexadecimal behind its label.
    pub open spec fn report(&self) -> Seq<Seq<char>> {
        seq![
            "minecraft hash: "@ + hex_string(self.image.minecraft_hash@),
            "image file hash: "@ + hex_string(self.src_png_hash@),
            "image data hash: "@ + hex_string(self.image.src_data_hash@),
        ]
    }
}

/// The name of the file that holds a canonical encoding whose digest is `hash`.
pub open spec fn output_file_name_spec(hash: Seq<u8>) -> Seq<char> {
    "converted-"@ + hex_string(hash) + ".png"@
}

/// The error at which fingerprinting `input` stops, if it stops: the
/// decoder's where the file does not decode, else the encoder's where the
/// pixels do not encode.
pub open spec fn fingerprint_error(input: Seq<u8>) -> Option<FingerprintError> {
    match decode_spec(input) {
        Err(e) => Some(FingerprintError::Decode(e)),
        Ok(decoded) => match encode_spec(
            decoded.0,
            decoded.1,
            decoded.2,
            EncodingParams::canonical_spec(),
        ) {
            Err(e) => Some(FingerprintError::Encode(e)),
            Ok(_) => None,
        },
    }
}

/// Whether `res` is what fingerprinting the file `input` comes to.
pub open spec fn is_fingerprint_outcome(res: Result<Fingerprint, FingerprintError>, input: Seq<u8>)
    -> bool {
    match fingerprint_error(input) {
        None => res matches Ok(fingerprint) && fingerprint.is_fingerprint_of(input),
        Some(e) => res == Err::<Fingerprint, FingerprintError>(e),
    }
}

/// Decodes the file, hashes it, encodes its pixels canonically and hashes
/// the pixels and the encoding.
///
/// The outcome is the fingerprints of `input_content`, or the error of the
/// first stage that fails. The decoder's buffer is well formed, so the
/// encoder is never handed dimensions that do not fit: an encoding error is
/// never `DimensionMismatch`.
pub fn fingerprint_image(input_content: &[u8]) -> (res: Result<Fingerprint, FingerprintError>)
    ensures
        is_fingerprint_outcome(res, input_content@),
        res matches Err(FingerprintError::Encode(e)) ==> e != EncodeError::DimensionMismatch,
        !has_png_header(input_content@) ==> res == Err::<Fingerprint, FingerprintError>(
            FingerprintError::Decode(DecodeError::InvalidPng),
        ),
{
    let decoded = match decode_image(input_content) {
        Ok(buffer) => buffer,
        Err(e) => {
            return Err(FingerprintError::Decode(e));
        },
    };
    let src_png_hash = sha256_of(input_content);
    match encode_image_minecraft(decoded.pixels.as_slice(), decoded.width, decoded.height) {
        Ok(image) => Ok(Fingerprint { src_png_hash, image }),
        Err(e) => Err(FingerprintError::Encode(e)),
    }
}

/// Fingerprinting is a function of the file: two outcomes for equal files
/// are both fingerprints, with the same three digests and the same canonical
/// stream, or both the same error.
pub proof fn lemma_fingerprint_deterministic(
    input: Seq<u8>,
    first: Result<Fingerprint, FingerprintError>,
    second: Result<Fingerprint, FingerprintError>,
)
    requires
        is_fingerprint_outcome(first, input),
        is_fingerprint_outcome(second, input),
    ensures
        first is Ok <==> second is Ok,
        first matches Ok(a) ==> second matches Ok(b) && a.src_png_hash@ == b.src_png_hash@
            && a.image.minecraft_png@ == b.image.minecraft_png@ && a.image.minecraft_hash@
            == b.image.minecraft_hash@ && a.image.src_data_hash@ == b.image.src_data_hash@,
        first matches Err(e) ==> second == Err::<Fingerprint, FingerprintError>(e),
{
}

/// One line of the report: the label, then the digest in upper-case hexadecimal.
fn labelled_line(label: &str, digest: &[u8]) -> (line: String)
    ensures
        line@ == label@ + hex_string(digest@),
{
    let mut line = label.to_owned();
    let hex = write_hex(digest);
    line.append(hex.as_str());
    line
}

/// The three lines that report the fingerprints.
pub fn report_lines(fingerprint: &Fingerprint) -> (lines: Vec<String>)
    ensures
        lines@.len() == 3,
        forall|i: int| 0 <= i < 3 ==> (#[trigger] lines@[i])@ == fingerprint.report()[i],
{
    let mut lines: Vec<String> = Vec::new();
    lines.push(labelled_line("minecraft hash: ", &fingerprint.image.minecraft_hash));
    lines.push(labelled_line("image file hash: ", &fingerprint.src_png_hash));
    lines.push(labelled_line("image data hash: ", &fingerprint.image.src_data_hash));
    lines
}

/// The name of the file to which a canonical encoding is written: `converted-`,
/// the digest of the encoding in upper-case hexadecimal, `.png`.
pub fn output_file_name(minecraft_hash: &[u8]) -> (name: String)
    ensures
        name@ == output_file_name_spec(minecraft_hash@),
{
    let mut name = labelled_line("converted-", minecraft_hash);
    name.append(".png");
    name
}

} // verus!
