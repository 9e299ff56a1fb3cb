//! The cache entry codec.
//!
//! A cache entry is a timestamp (milliseconds since the Unix epoch) and an
//! optional canonical image. On disk it is the timestamp as eight
//! little-endian bytes, followed — when an image is present — by the image
//! in a lossless compressed raster format (PNG). Decoding is deliberately
//! lenient: a valid timestamp with an undecodable payload yields an
//! image-free entry plus a soft "corrupt payload" signal, never a hard
//! error, so a single damaged entry cannot force a store rebuild.

use vstd::bytes::{
    lemma_auto_spec_u64_to_from_le_bytes, spec_u64_from_le_bytes, spec_u64_to_le_bytes,
    u64_from_le_bytes, u64_to_le_bytes,
};
use vstd::prelude::*;
use vstd::slice::slice_subrange;

use crate::bitmap::CanonicalImage;

verus! {

/// Width of the serialized timestamp, in bytes.
pub const TIMESTAMP_BYTES: usize = 8;

/// An icon cache entry. The timestamp is always present; `image = None`
/// records "extraction previously failed, retry after expiry", not
/// "never attempted".
pub struct CacheEntry {
    pub image: Option<CanonicalImage>,
    pub timestamp: u64,
}

/// The bytes are shorter than the serialized timestamp.
#[derive(Clone, Copy, PartialEq, Eq, Debug)]
pub enum CodecError {
    TooSmall,
}

/// A successfully decoded entry. `corrupt` signals that trailing image
/// bytes were present but could not be decoded; the entry then carries no
/// image and the caller should overwrite it.
pub struct Decoded {
    pub entry: CacheEntry,
    pub corrupt: bool,
}

/// An entry as a mathematical value: the image's dimensions and pixels, if
/// an image is present, and the timestamp.
pub type EntryModel = (Option<(u32, u32, Seq<u8>)>, u64);

impl CacheEntry {
    /// Any image held by the entry is a well-formed canonical image.
    pub open spec fn wf(&self) -> bool {
        match self.image {
            Some(img) => img.wf(),
            None => true,
        }
    }

    pub open spec fn model(&self) -> EntryModel {
        (
            match self.image {
                Some(img) => Some(img.model()),
                None => None,
            },
            self.timestamp,
        )
    }
}

/// Largest pixel buffer (in bytes) for which an image is serialized.
/// `image::load_from_memory` decodes under the image crate's default
/// allocation budget of 512 MiB, counting internal buffers as well as the
/// output; this bound stays conservatively at half of it, so an image the
/// codec writes can always be read back.
pub const MAX_IMAGE_BYTES: usize = 268435456;

/// What `image::load_from_memory` (followed by conversion to RGBA8) makes
/// of a byte string: the image's dimensions and pixels, or nothing when the
/// bytes are not a decodable image. A function of the bytes alone: the
/// image crate's process-global format-detection hooks, which could change
/// what the same bytes parse to, are never registered here.
pub uninterp spec fn image_parse(bytes: Seq<u8>) -> Option<(u32, u32, Seq<u8>)>;

/// Relies on the image crate's PNG encoder: PNG is lossless for 8-bit RGBA,
/// so `image::load_from_memory` on the output recovers exactly the encoded
/// dimensions and pixels, and a PNG stream is never empty. The decoder
/// enforces an allocation budget that the encoder does not, so the claim is
/// made only of images small enough ([`MAX_IMAGE_BYTES`]) to decode under
/// that budget. Encoding succeeds on every admitted input: for RGBA8 the
/// encoder fails only on a buffer-length mismatch or zero dimension (both
/// excluded by well-formedness) or a writer error, which an in-memory
/// cursor never yields.
#[verifier::external_body]
fn png_encode(img: &CanonicalImage) -> (r: Option<Vec<u8>>)
    requires
        img.wf(),
        img.pixels@.len() <= MAX_IMAGE_BYTES,
    ensures
        r is Some,
        r matches Some(b) ==> image_parse(b@) == Some(img.model()) && b@.len() > 0,
{
    let buf = image::RgbaImage::from_raw(img.width, img.height, img.pixels.clone())?;
    let mut data: Vec<u8> = Vec::new();
    let encoder = image::codecs::png::PngEncoder::new(std::io::Cursor::new(&mut data));
    match buf.write_with_encoder(encoder) {
        Ok(()) => Some(data),
        Err(_) => None,
    }
}

/// Relies on `image::load_from_memory` and `DynamicImage::to_rgba8`: the
/// result is a function of the bytes alone, and an RGBA8 buffer holds
/// exactly four bytes per pixel.
#[verifier::external_body]
fn png_decode(bytes: &[u8]) -> (r: Option<CanonicalImage>)
    ensures
        r matches Some(img) ==> image_parse(bytes@) == Some(img.model()) && img.buffer_exact(),
        r is None ==> image_parse(bytes@) is None,
{
    match image::load_from_memory(bytes) {
        Ok(di) => {
            let rgba = di.to_rgba8();
            let width = rgba.width();
            let height = rgba.height();
            Some(CanonicalImage { width, height, pixels: rgba.into_raw() })
        },
        Err(_) => None,
    }
}

/// What decoding a byte string yields: `TooSmall` when the bytes cannot
/// hold a timestamp; otherwise the timestamp, the parsed image if trailing
/// bytes decode to one, and the soft corrupt-payload signal if trailing
/// bytes are present but do not.
pub open spec fn spec_decode_model(bytes: Seq<u8>) -> Result<(EntryModel, bool), CodecError> {
    if bytes.len() < TIMESTAMP_BYTES {
        Err(CodecError::TooSmall)
    } else {
        let t = spec_u64_from_le_bytes(bytes.take(TIMESTAMP_BYTES as int));
        if bytes.len() == TIMESTAMP_BYTES {
            Ok(((None, t), false))
        } else {
            match image_parse(bytes.skip(TIMESTAMP_BYTES as int)) {
                Some(m) => Ok(((Some(m), t), false)),
                None => Ok(((None, t), true)),
            }
        }
    }
}

/// The byte string is a serialization of the entry: the timestamp as eight
/// little-endian bytes, followed by bytes that parse to the entry's image,
/// or by nothing when the entry has none.
pub open spec fn is_encoding_of(bytes: Seq<u8>, entry: CacheEntry) -> bool {
    match entry.image {
        None => bytes == spec_u64_to_le_bytes(entry.timestamp),
        Some(img) => {
            &&& bytes.len() > TIMESTAMP_BYTES
            &&& bytes.take(TIMESTAMP_BYTES as int) == spec_u64_to_le_bytes(entry.timestamp)
            &&& image_parse(bytes.skip(TIMESTAMP_BYTES as int)) == Some(img.model())
        },
    }
}

/// Round trip: decoding any serialization of an entry yields the same
/// timestamp and a pixel-identical image, with no corruption signaled.
pub proof fn lemma_round_trip(bytes: Seq<u8>, entry: CacheEntry)
    requires
        entry.wf(),
        is_encoding_of(bytes, entry),
    ensures
        spec_decode_model(bytes) == Ok::<(EntryModel, bool), CodecError>((entry.model(), false)),
{
    lemma_auto_spec_u64_to_from_le_bytes();
    match entry.image {
        None => {
            assert(bytes.len() == TIMESTAMP_BYTES);
            assert(bytes.take(TIMESTAMP_BYTES as int) =~= bytes);
        },
        Some(img) => {},
    }
}

/// Timestamp-only round trip: the serialization of an image-free entry is
/// the timestamp's eight little-endian bytes, and decoding them yields that
/// timestamp, no image, and no corruption signal.
pub proof fn lemma_round_trip_timestamp_only(t: u64)
    ensures
        spec_decode_model(spec_u64_to_le_bytes(t)) == Ok::<(EntryModel, bool), CodecError>(
            ((None, t), false),
        ),
{
    lemma_round_trip(spec_u64_to_le_bytes(t), CacheEntry { image: None, timestamp: t });
}

/// Corruption tolerance: bytes shorter than a timestamp fail with
/// `TooSmall`; a valid timestamp with undecodable trailing bytes yields an
/// image-free entry with the corrupt-payload signal, not an error.
pub proof fn lemma_corruption_tolerance(bytes: Seq<u8>)
    ensures
        bytes.len() < TIMESTAMP_BYTES ==> spec_decode_model(bytes) == Err::<
            (EntryModel, bool),
            CodecError,
        >(CodecError::TooSmall),
        bytes.len() > TIMESTAMP_BYTES && image_parse(bytes.skip(TIMESTAMP_BYTES as int)) is None
            ==> spec_decode_model(bytes) == Ok::<(EntryModel, bool), CodecError>(
            ((None, spec_u64_from_le_bytes(bytes.take(TIMESTAMP_BYTES as int))), true),
        ),
{
}

/// Serializes an entry. Returns `None` only when the entry holds an image
/// too large ([`MAX_IMAGE_BYTES`]) to ever decode again; a timestamp-only
/// entry always serializes, so a caller can still persist one as a
/// fallback.
pub fn encode(entry: &CacheEntry) -> (r: Option<Vec<u8>>)
    requires
        entry.wf(),
    ensures
        r matches Some(b) ==> is_encoding_of(b@, *entry),
        r matches Some(b) ==> spec_decode_model(b@) == Ok::<(EntryModel, bool), CodecError>(
            (entry.model(), false),
        ),
        entry.image is None ==> r is Some,
        entry.image matches Some(img) ==> (img.pixels@.len() <= MAX_IMAGE_BYTES ==> r is Some),
        r is None ==> entry.image is Some,
{
    let mut out = u64_to_le_bytes(entry.timestamp);
    match &entry.image {
        None => {
            proof {
                lemma_round_trip(out@, *entry);
            }
            Some(out)
        },
        Some(img) => {
            if img.pixels.len() > MAX_IMAGE_BYTES {
                return None;
            }
            match png_encode(img) {
                None => None,
                Some(mut png) => {
                    let ghost png_view: Seq<u8> = png@;
                    out.append(&mut png);
                    proof {
                        assert(out@.take(TIMESTAMP_BYTES as int) =~= spec_u64_to_le_bytes(
                            entry.timestamp,
                        ));
                        assert(out@.skip(TIMESTAMP_BYTES as int) =~= png_view);
                        lemma_round_trip(out@, *entry);
                    }
                    Some(out)
                },
            }
        },
    }
}

/// Deserializes a byte string into an entry, leniently: see
/// [`spec_decode_model`] for exactly what comes back.
pub fn decode(bytes: &[u8]) -> (r: Result<Decoded, CodecError>)
    ensures
        r is Err <==> bytes@.len() < TIMESTAMP_BYTES,
        r matches Ok(d) ==> Ok::<(EntryModel, bool), CodecError>((d.entry.model(), d.corrupt))
            == spec_decode_model(bytes@),
        r matches Ok(d) ==> (d.entry.image matches Some(img) ==> img.buffer_exact()),
{
    if bytes.len() < TIMESTAMP_BYTES {
        return Err(CodecError::TooSmall);
    }
    let ts_slice = slice_subrange(bytes, 0, TIMESTAMP_BYTES);
    proof {
        assert(ts_slice@ =~= bytes@.take(TIMESTAMP_BYTES as int));
    }
    let timestamp = u64_from_le_bytes(ts_slice);
    if bytes.len() == TIMESTAMP_BYTES {
        return Ok(Decoded { entry: CacheEntry { image: None, timestamp }, corrupt: false });
    }
    let img_slice = slice_subrange(bytes, TIMESTAMP_BYTES, bytes.len());
    proof {
        assert(img_slice@ =~= bytes@.skip(TIMESTAMP_BYTES as int));
    }
    match png_decode(img_slice) {
        Some(img) => Ok(
            Decoded { entry: CacheEntry { image: Some(img), timestamp }, corrupt: false },
        ),
        None => Ok(Decoded { entry: CacheEntry { image: None, timestamp }, corrupt: true }),
    }
}

} // verus!
