//! The decode dispatcher: resolve an image handle's coding format,
//! validate the requested pixel layout, and shape the decoded sample
//! stream into a pixel buffer with an explicit stride.
//!
//! The per-format entropy decoding itself (HEVC, AV1) is the business of
//! a pixel codec outside this layer; the dispatcher consumes the sample
//! stream such a codec emits for the item's coded bytes and is verified
//! for every possible stream.
use vstd::prelude::*;
use vstd::slice::slice_to_vec;
use crate::bebytes::copy_range;
use crate::boxes::FOURCC_HVC1;
use crate::boxes::FOURCC_AV01;
use crate::err::HeifError;
use crate::handles::ImageHandle;

verus! {

/// Interleaved pixel layouts the dispatcher can produce.
#[derive(Clone, Copy, Debug, PartialEq, Eq, Structural)]
pub enum RgbChroma {
    /// 3 bytes per pixel, R then G then B.
    Rgb,
    /// 4 bytes per pixel, R, G, B, then alpha.
    Rgba,
}

/// Color spaces the dispatcher can produce.
#[derive(Clone, Copy, Debug, PartialEq, Eq, Structural)]
pub enum ColorSpace {
    Rgb(RgbChroma),
}

/// A decoded pixel buffer: row-major, interleaved, with an explicit
/// stride. Owned by the caller once decoded.
pub struct Image {
    pub width: u32,
    pub height: u32,
    pub stride: usize,
    pub color_space: ColorSpace,
    pub data: Vec<u8>,
}

/// Mathematical image of an `Image`.
pub struct PixelsS {
    pub width: u32,
    pub height: u32,
    pub stride: int,
    pub color_space: ColorSpace,
    pub data: Seq<u8>,
}

/// Bytes per pixel of a color space.
pub open spec fn bytes_per_pixel(cs: ColorSpace) -> int {
    match cs {
        ColorSpace::Rgb(RgbChroma::Rgb) => 3,
        ColorSpace::Rgb(RgbChroma::Rgba) => 4,
    }
}

/// Coding formats a pixel decoder is registered for.
pub open spec fn registered_format(t: u32) -> bool {
    t == FOURCC_HVC1 || t == FOURCC_AV01
}

/// Whether a pixel decoder is registered for coding format `t`.
pub fn is_registered_format(t: u32) -> (r: bool)
    ensures
        r == registered_format(t),
{
    t == FOURCC_HVC1 || t == FOURCC_AV01
}

/// `n` zero bytes.
pub open spec fn zeros(n: int) -> Seq<u8> {
    Seq::new(n as nat, |i: int| 0u8)
}

/// `samples` cut or zero-padded to exactly `total` bytes.
pub open spec fn fitted(samples: Seq<u8>, total: int) -> Seq<u8> {
    if samples.len() >= total {
        samples.take(total)
    } else {
        samples + zeros(total - samples.len())
    }
}

/// What the dispatcher returns for a handle, a requested color space, a
/// strictness flag and a decoded sample stream:
/// - no registered decoder for the handle's format: `UnsupportedCodingFormat`;
/// - unknown dimensions, a buffer larger than this process can address,
///   or (in strict mode) a sample stream of the wrong length: `DecodeError`;
/// - otherwise a buffer of exactly `width * bpp` bytes per row and
///   `height` rows, the samples cut or zero-padded to fit in non-strict
///   mode.
pub open spec fn decode_spec(
    handle: ImageHandle,
    cs: ColorSpace,
    strict: bool,
    samples: Seq<u8>,
) -> Result<PixelsS, HeifError> {
    if !registered_format(handle.item_type) {
        Err(HeifError::UnsupportedCodingFormat)
    } else {
        match handle.dimensions {
            None => Err(HeifError::DecodeError),
            Some((w, h)) => {
                let stride = w * bytes_per_pixel(cs);
                let total = stride * h;
                if stride > usize::MAX || total > usize::MAX {
                    Err(HeifError::DecodeError)
                } else if strict && samples.len() != total {
                    Err(HeifError::DecodeError)
                } else {
                    Ok(
                        PixelsS {
                            width: w,
                            height: h,
                            stride,
                            color_space: cs,
                            data: fitted(samples, total),
                        },
                    )
                }
            },
        }
    }
}

/// Dispatch a decode: check the handle's coding format and dimensions,
/// then shape the pixel codec's sample stream `samples` into a buffer of
/// the requested layout. In strict mode a stream of the wrong length is
/// a `DecodeError`; otherwise it is cut or zero-padded to fit.
pub fn decode_image_from_handle(
    handle: &ImageHandle,
    color_space: ColorSpace,
    strict: bool,
    samples: &[u8],
) -> (r: Result<Image, HeifError>)
    ensures
        match r {
            Ok(img) => decode_spec(*handle, color_space, strict, samples@) matches Ok(p)
                && img.width == p.width && img.height == p.height && img.stride == p.stride
                && img.color_space == p.color_space && img.data@ == p.data,
            Err(e) => decode_spec(*handle, color_space, strict, samples@) == Err::<
                PixelsS,
                HeifError,
            >(e),
        },
{
    if !is_registered_format(handle.item_type) {
        return Err(HeifError::UnsupportedCodingFormat);
    }
    let (w, h) = match handle.dimensions {
        None => {
            return Err(HeifError::DecodeError);
        },
        Some(wh) => wh,
    };
    let stride64: u64 = match color_space {
        ColorSpace::Rgb(RgbChroma::Rgb) => (w as u64) * 3,
        ColorSpace::Rgb(RgbChroma::Rgba) => (w as u64) * 4,
    };
    if stride64 > usize::MAX as u64 {
        return Err(HeifError::DecodeError);
    }
    assert((stride64 as int) * (h as int) <= 0xFFFF_FFFF_FFFF_FFFF * 0xFFFF_FFFF)
        by (nonlinear_arith)
        requires
            stride64 <= 0xFFFF_FFFF_FFFF_FFFF,
            h <= 0xFFFF_FFFF,
    ;
    let total128: u128 = (stride64 as u128) * (h as u128);
    if total128 > usize::MAX as u128 {
        return Err(HeifError::DecodeError);
    }
    let total = total128 as usize;
    let stride = stride64 as usize;
    if strict && samples.len() != total {
        return Err(HeifError::DecodeError);
    }
    let data: Vec<u8> = if samples.len() >= total {
        let d = copy_range(samples, 0, total);
        assert(d@ =~= fitted(samples@, total as int));
        d
    } else {
        let mut d = slice_to_vec(samples);
        while d.len() < total
            invariant
                samples@.len() <= d@.len() <= total,
                d@ == samples@ + zeros(d@.len() - samples@.len()),
            decreases total - d@.len(),
        {
            d.push(0);
            assert(d@ =~= samples@ + zeros(d@.len() - samples@.len()));
        }
        assert(d@ =~= fitted(samples@, total as int));
        d
    };
    Ok(Image { width: w, height: h, stride, color_space, data })
}

/// Decoding is deterministic: for one handle, one requested color space
/// and chroma, one strictness flag and one decoded sample stream, any
/// two results the dispatcher's contract admits are equal, so decoding
/// the same handle twice yields byte-identical pixel buffers.
pub proof fn lemma_decode_deterministic(
    handle: ImageHandle,
    cs: ColorSpace,
    strict: bool,
    samples: Seq<u8>,
    r1: Result<PixelsS, HeifError>,
    r2: Result<PixelsS, HeifError>,
)
    requires
        r1 == decode_spec(handle, cs, strict, samples),
        r2 == decode_spec(handle, cs, strict, samples),
    ensures
        r1 == r2,
        r1 is Ok ==> r1->Ok_0.data == r2->Ok_0.data,
{
}

} // verus!
