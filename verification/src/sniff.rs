//! The signature sniffer: classify a file's leading bytes by the `ftyp`
//! box and its brand list, without touching the rest of the container.
use vstd::prelude::*;
use crate::bebytes::be32;
use crate::bebytes::read_be32;
use crate::boxes::FOURCC_FTYP;
use crate::err::FileTypeResult;
use crate::err::HeifError;
use vstd::slice::slice_subrange;

verus! {

/// How many leading bytes the sniffer classifies from.
pub const SNIFF_LEN: usize = 64;

/// Brands whose containers this reader handles: the HEIC/HEIF still-image
/// and sequence brands, their AVIF counterparts, and the MIAF structural
/// brands `mif1`/`msf1`.
pub open spec fn supported_brand(b: u32) -> bool {
    b == 0x6865_6963  // heic
     || b == 0x6865_6978  // heix
     || b == 0x6865_696D  // heim
     || b == 0x6865_6973  // heis
     || b == 0x6865_7663  // hevc
     || b == 0x6865_7678  // hevx
     || b == 0x6865_766D  // hevm
     || b == 0x6865_7673  // hevs
     || b == 0x6D69_6631  // mif1
     || b == 0x6D73_6631  // msf1
     || b == 0x6176_6966  // avif
     || b == 0x6176_6973  // avis

}

fn is_supported_brand(b: u32) -> (r: bool)
    ensures
        r == supported_brand(b),
{
    b == 0x6865_6963 || b == 0x6865_6978 || b == 0x6865_696D || b == 0x6865_6973 || b == 0x6865_7663
        || b == 0x6865_7678 || b == 0x6865_766D || b == 0x6865_7673 || b == 0x6D69_6631 || b
        == 0x6D73_6631 || b == 0x6176_6966 || b == 0x6176_6973
}

/// A supported brand occurs among the 4-byte entries of `s[i..end)`.
pub open spec fn has_supported_compat(s: Seq<u8>, i: int, end: int) -> bool
    decreases end - i,
{
    if i + 4 > end || end > s.len() {
        false
    } else {
        supported_brand(be32(s, i) as u32) || has_supported_compat(s, i + 4, end)
    }
}

/// Classification policy over a sniffed prefix `s`:
/// - no `ftyp` box type at offset 4, or a prefix too short to hold the
///   fixed `ftyp` fields, or an impossible `ftyp` size: not HEIF;
/// - a supported major brand, or a supported brand among the compatible
///   brands visible in the prefix: supported;
/// - otherwise, if the brand list continues past the prefix, the file may
///   still be HEIF: maybe; else: unsupported.
pub open spec fn classify(s: Seq<u8>) -> FileTypeResult {
    if s.len() < 16 {
        FileTypeResult::No
    } else if be32(s, 4) != FOURCC_FTYP {
        FileTypeResult::No
    } else {
        let fsize = be32(s, 0);
        if fsize < 16 || fsize % 4 != 0 {
            FileTypeResult::No
        } else if supported_brand(be32(s, 8) as u32) {
            FileTypeResult::Supported
        } else {
            let visible = if fsize < s.len() {
                fsize
            } else {
                s.len() as int
            };
            if has_supported_compat(s, 16, visible) {
                FileTypeResult::Supported
            } else if fsize > s.len() {
                FileTypeResult::MayBe
            } else {
                FileTypeResult::Unsupported
            }
        }
    }
}

/// Classify leading file bytes as HEIF-supported, not HEIF, possibly HEIF,
/// or HEIF of an unsupported profile. Pure: reads only the signature.
pub fn check_file_type(s: &[u8]) -> (r: FileTypeResult)
    ensures
        r == classify(s@),
{
    let n = s.len();
    if n < 16 {
        return FileTypeResult::No;
    }
    if read_be32(s, 4) != FOURCC_FTYP {
        return FileTypeResult::No;
    }
    let fsize = read_be32(s, 0);
    if fsize < 16 || fsize % 4 != 0 {
        return FileTypeResult::No;
    }
    if is_supported_brand(read_be32(s, 8)) {
        return FileTypeResult::Supported;
    }
    let visible: usize = if (fsize as u64) < (n as u64) {
        fsize as usize
    } else {
        n
    };
    let mut i: usize = 16;
    while i <= visible - 4
        invariant
            16 <= i <= visible,
            16 <= visible <= n,
            has_supported_compat(s@, 16, visible as int) == has_supported_compat(
                s@,
                i as int,
                visible as int,
            ),
        decreases visible - i,
    {
        if is_supported_brand(read_be32(s, i)) {
            assert(has_supported_compat(s@, i as int, visible as int));
            return FileTypeResult::Supported;
        }
        i = i + 4;
    }
    assert(!has_supported_compat(s@, i as int, visible as int));
    if (fsize as u64) > (n as u64) {
        FileTypeResult::MayBe
    } else {
        FileTypeResult::Unsupported
    }
}

/// Validate that `prefix` (the leading bytes of a file) announces a HEIF
/// container this reader supports. Fewer than 64 bytes fail with
/// `ShortRead`; a non-HEIF signature with `NotHeif`; a HEIF signature
/// without a visible supported brand with `UnsupportedProfile`.
pub fn validate_heif_file(prefix: &[u8]) -> (r: Result<(), HeifError>)
    ensures
        prefix@.len() < SNIFF_LEN ==> r == Err::<(), HeifError>(HeifError::ShortRead),
        prefix@.len() >= SNIFF_LEN ==> r == (match classify(
            prefix@.subrange(0, SNIFF_LEN as int),
        ) {
            FileTypeResult::Supported => Ok::<(), HeifError>(()),
            FileTypeResult::No => Err(HeifError::NotHeif),
            FileTypeResult::Unsupported => Err(HeifError::UnsupportedProfile),
            FileTypeResult::MayBe => Err(HeifError::UnsupportedProfile),
        }),
{
    if prefix.len() < SNIFF_LEN {
        return Err(HeifError::ShortRead);
    }
    let head = slice_subrange(prefix, 0, SNIFF_LEN);
    match check_file_type(head) {
        FileTypeResult::Supported => Ok(()),
        FileTypeResult::No => Err(HeifError::NotHeif),
        FileTypeResult::Unsupported => Err(HeifError::UnsupportedProfile),
        FileTypeResult::MayBe => Err(HeifError::UnsupportedProfile),
    }
}

} // verus!
