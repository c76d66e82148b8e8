//! Error kinds and the file-signature classification result.
use vstd::prelude::*;

verus! {

/// Everything that can go wrong while reading a HEIF/HEIC container.
#[derive(Clone, Copy, Debug, PartialEq, Eq, Structural)]
pub enum HeifError {
    /// Fewer bytes were supplied than the signature sniffer needs.
    ShortRead,
    /// The leading bytes do not belong to a HEIF family file at all.
    NotHeif,
    /// The file is HEIF-branded, but no supported brand is visible.
    UnsupportedProfile,
    /// A required box is missing, truncated, or structurally invalid.
    MalformedContainer,
    /// An item reference names an item id that the item info box lacks.
    DanglingItemReference,
    /// No metadata block matches the requested MIME filter.
    NotFound,
    /// No pixel decoder is registered for the item's coding format.
    UnsupportedCodingFormat,
    /// The sample stream cannot be shaped into the requested pixel layout.
    DecodeError,
}

/// Classification of a file's leading bytes by the signature sniffer.
/// Only `Supported` permits further processing.
#[derive(Clone, Copy, Debug, PartialEq, Eq, Structural)]
pub enum FileTypeResult {
    /// A HEIF family file carrying a brand this reader handles.
    Supported,
    /// A HEIF family file, but every visible brand is unknown.
    Unsupported,
    /// Possibly HEIF: the brand list continues past the sniffed prefix.
    MayBe,
    /// Not a HEIF family file.
    No,
}

} // verus!
