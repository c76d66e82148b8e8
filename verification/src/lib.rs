//! A verified HEIF/HEIC container reader: signature sniffing, ISO-BMFF box
//! parsing, item indexing, metadata extraction and decode dispatch.
#![verifier::loop_isolation(false)]

pub mod err;
pub mod bebytes;
pub mod boxes;
pub mod context;
pub mod decode;
pub mod handles;
pub mod metadata;
pub mod meta;
pub mod props;
pub mod sniff;

pub use context::HeifContext;
pub use context::read_from_bytes;
pub use decode::decode_image_from_handle;
pub use decode::ColorSpace;
pub use decode::Image;
pub use decode::RgbChroma;
pub use err::FileTypeResult;
pub use err::HeifError;
pub use handles::get_image_handles;
pub use handles::primary_image_handle;
pub use handles::top_level_image_ids;
pub use handles::ImageHandle;
pub use metadata::get_metadata;
pub use metadata::get_xmp_metadata;
pub use sniff::check_file_type;
pub use sniff::validate_heif_file;
