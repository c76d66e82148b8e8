//! End-to-end tests over hand-built ISO-BMFF fixtures: signature
//! sniffing, container parsing, handle enumeration, metadata extraction
//! and decode dispatch.
use heif_demux::context::read_from_bytes;
use heif_demux::decode::decode_image_from_handle;
use heif_demux::decode::ColorSpace;
use heif_demux::decode::RgbChroma;
use heif_demux::handles::get_image_handles;
use heif_demux::handles::primary_image_handle;
use heif_demux::handles::top_level_image_ids;
use heif_demux::handles::ImageHandle;
use heif_demux::metadata::get_metadata;
use heif_demux::metadata::get_xmp_metadata;
use heif_demux::sniff::check_file_type;
use heif_demux::sniff::validate_heif_file;
use heif_demux::FileTypeResult;
use heif_demux::HeifError;

fn boxx(typ: &[u8; 4], payload: &[u8]) -> Vec<u8> {
    let mut v = Vec::new();
    v.extend_from_slice(&((payload.len() as u32) + 8).to_be_bytes());
    v.extend_from_slice(typ);
    v.extend_from_slice(payload);
    v
}

fn boxx64(typ: &[u8; 4], payload: &[u8]) -> Vec<u8> {
    let mut v = Vec::new();
    v.extend_from_slice(&1u32.to_be_bytes());
    v.extend_from_slice(typ);
    v.extend_from_slice(&((payload.len() as u64) + 16).to_be_bytes());
    v.extend_from_slice(payload);
    v
}

fn ftyp(major: &[u8; 4], compat: &[&[u8; 4]]) -> Vec<u8> {
    let mut p = Vec::new();
    p.extend_from_slice(major);
    p.extend_from_slice(&[0u8; 4]);
    for c in compat {
        p.extend_from_slice(*c);
    }
    boxx(b"ftyp", &p)
}

/// One item of a fixture: id, four-character item type, content type for
/// `mime` items, data payload, and optional ispe dimensions.
struct FxItem {
    id: u16,
    typ: [u8; 4],
    content_type: Option<Vec<u8>>,
    data: Vec<u8>,
    dims: Option<(u32, u32)>,
}

struct Fx {
    items: Vec<FxItem>,
    refs: Vec<([u8; 4], u16, Vec<u16>)>,
    pitm: Option<u16>,
    wide_meta: bool,
    wide_ids: bool,
}

fn build_meta(fx: &Fx, offsets: &[u32]) -> Vec<u8> {
    let mut body = vec![0u8, 0, 0, 0];
    let mut hdlr = vec![0u8; 8];
    hdlr.extend_from_slice(b"pict");
    body.extend_from_slice(&boxx(b"hdlr", &hdlr));
    if let Some(id) = fx.pitm {
        let mut p = if fx.wide_ids { vec![1u8, 0, 0, 0] } else { vec![0u8, 0, 0, 0] };
        if fx.wide_ids {
            p.extend_from_slice(&(id as u32).to_be_bytes());
        } else {
            p.extend_from_slice(&id.to_be_bytes());
        }
        body.extend_from_slice(&boxx(b"pitm", &p));
    }
    let mut iinf = vec![0u8, 0, 0, 0];
    iinf.extend_from_slice(&(fx.items.len() as u16).to_be_bytes());
    for it in &fx.items {
        let mut e = if fx.wide_ids { vec![3u8, 0, 0, 0] } else { vec![2u8, 0, 0, 0] };
        if fx.wide_ids {
            e.extend_from_slice(&(it.id as u32).to_be_bytes());
        } else {
            e.extend_from_slice(&it.id.to_be_bytes());
        }
        e.extend_from_slice(&[0u8, 0]);
        e.extend_from_slice(&it.typ);
        if let Some(ct) = &it.content_type {
            e.extend_from_slice(b"n\0");
            e.extend_from_slice(ct);
            e.push(0);
        }
        iinf.extend_from_slice(&boxx(b"infe", &e));
    }
    body.extend_from_slice(&boxx(b"iinf", &iinf));
    let mut iloc = if fx.wide_ids {
        vec![1u8, 0, 0, 0, 0x44, 0x00]
    } else {
        vec![0u8, 0, 0, 0, 0x44, 0x00]
    };
    iloc.extend_from_slice(&(fx.items.len() as u16).to_be_bytes());
    for (i, it) in fx.items.iter().enumerate() {
        iloc.extend_from_slice(&it.id.to_be_bytes());
        if fx.wide_ids {
            // reserved bits and construction method 0
            iloc.extend_from_slice(&[0u8, 0]);
        }
        iloc.extend_from_slice(&[0u8, 0]);
        iloc.extend_from_slice(&1u16.to_be_bytes());
        iloc.extend_from_slice(&offsets[i].to_be_bytes());
        iloc.extend_from_slice(&(it.data.len() as u32).to_be_bytes());
    }
    body.extend_from_slice(&boxx(b"iloc", &iloc));
    if !fx.refs.is_empty() {
        let mut iref = if fx.wide_ids { vec![1u8, 0, 0, 0] } else { vec![0u8, 0, 0, 0] };
        for (rt, from, tos) in &fx.refs {
            let mut rp = Vec::new();
            if fx.wide_ids {
                rp.extend_from_slice(&(*from as u32).to_be_bytes());
            } else {
                rp.extend_from_slice(&from.to_be_bytes());
            }
            rp.extend_from_slice(&(tos.len() as u16).to_be_bytes());
            for t in tos {
                if fx.wide_ids {
                    rp.extend_from_slice(&(*t as u32).to_be_bytes());
                } else {
                    rp.extend_from_slice(&t.to_be_bytes());
                }
            }
            iref.extend_from_slice(&boxx(rt, &rp));
        }
        body.extend_from_slice(&boxx(b"iref", &iref));
    }
    let with_dims: Vec<&FxItem> = fx.items.iter().filter(|it| it.dims.is_some()).collect();
    if !with_dims.is_empty() {
        let mut ipco = Vec::new();
        for it in &with_dims {
            let (w, h) = it.dims.unwrap();
            let mut isp = vec![0u8, 0, 0, 0];
            isp.extend_from_slice(&w.to_be_bytes());
            isp.extend_from_slice(&h.to_be_bytes());
            ipco.extend_from_slice(&boxx(b"ispe", &isp));
        }
        let mut ipma = if fx.wide_ids { vec![0u8, 0, 0, 1] } else { vec![0u8, 0, 0, 0] };
        ipma.extend_from_slice(&(with_dims.len() as u32).to_be_bytes());
        for (slot, it) in with_dims.iter().enumerate() {
            ipma.extend_from_slice(&it.id.to_be_bytes());
            ipma.push(1);
            if fx.wide_ids {
                // 15-bit property index with the essential bit set
                ipma.extend_from_slice(&(0x8000u16 | (slot as u16 + 1)).to_be_bytes());
            } else {
                ipma.push((slot + 1) as u8);
            }
        }
        let mut iprp = boxx(b"ipco", &ipco);
        iprp.extend_from_slice(&boxx(b"ipma", &ipma));
        body.extend_from_slice(&boxx(b"iprp", &iprp));
    }
    if fx.wide_meta {
        boxx64(b"meta", &body)
    } else {
        boxx(b"meta", &body)
    }
}

fn build_file(fx: &Fx) -> Vec<u8> {
    let ft = ftyp(b"heic", &[]);
    let zero_offsets = vec![0u32; fx.items.len()];
    let meta_len = build_meta(fx, &zero_offsets).len();
    let mut off = (ft.len() + meta_len) as u32;
    let mut offsets = Vec::new();
    for it in &fx.items {
        offsets.push(off);
        off += it.data.len() as u32;
    }
    let mut file = ft;
    file.extend_from_slice(&build_meta(fx, &offsets));
    for it in &fx.items {
        file.extend_from_slice(&it.data);
    }
    file
}

fn image_item(id: u16, data: &[u8], dims: Option<(u32, u32)>) -> FxItem {
    FxItem { id, typ: *b"hvc1", content_type: None, data: data.to_vec(), dims }
}

fn xmp_item(id: u16, data: &[u8]) -> FxItem {
    FxItem {
        id,
        typ: *b"mime",
        content_type: Some(b"application/rdf+xml".to_vec()),
        data: data.to_vec(),
        dims: None,
    }
}

// ------------------------------------------------------------- sniffer

#[test]
fn short_input_fails_short_read() {
    let ten = vec![0u8; 10];
    assert_eq!(validate_heif_file(&ten), Err(HeifError::ShortRead));
    let empty: Vec<u8> = Vec::new();
    assert_eq!(validate_heif_file(&empty), Err(HeifError::ShortRead));
    let sixty_three = vec![0u8; 63];
    assert_eq!(validate_heif_file(&sixty_three), Err(HeifError::ShortRead));
}

#[test]
fn jpeg_prefix_is_not_heif() {
    let mut jpeg = vec![0xFFu8, 0xD8, 0xFF, 0xE0, 0x00, 0x10];
    jpeg.extend_from_slice(b"JFIF\0");
    jpeg.resize(64, 0);
    assert_eq!(check_file_type(&jpeg), FileTypeResult::No);
    assert_eq!(validate_heif_file(&jpeg), Err(HeifError::NotHeif));
}

#[test]
fn heic_major_brand_is_supported() {
    let mut f = ftyp(b"heic", &[]);
    f.resize(64, 0);
    assert_eq!(check_file_type(&f), FileTypeResult::Supported);
    assert_eq!(validate_heif_file(&f), Ok(()));
}

#[test]
fn supported_compatible_brand_is_supported() {
    let mut f = ftyp(b"xxxx", &[b"yyyy", b"heix"]);
    f.resize(64, 0);
    assert_eq!(check_file_type(&f), FileTypeResult::Supported);
    assert_eq!(validate_heif_file(&f), Ok(()));
}

#[test]
fn unknown_brands_are_unsupported() {
    let mut f = ftyp(b"xxxx", &[b"yyyy", b"zzzz"]);
    f.resize(64, 0);
    assert_eq!(check_file_type(&f), FileTypeResult::Unsupported);
    assert_eq!(validate_heif_file(&f), Err(HeifError::UnsupportedProfile));
}

#[test]
fn brand_list_past_prefix_is_maybe() {
    // Declared ftyp size 72: the brand list continues past the sniffed
    // 64 bytes, and nothing supported is visible within them.
    let mut f = Vec::new();
    f.extend_from_slice(&72u32.to_be_bytes());
    f.extend_from_slice(b"ftyp");
    f.extend_from_slice(b"xxxx");
    f.extend_from_slice(&[0u8; 4]);
    while f.len() < 64 {
        f.extend_from_slice(b"yyyy");
    }
    assert_eq!(check_file_type(&f), FileTypeResult::MayBe);
    assert_eq!(validate_heif_file(&f), Err(HeifError::UnsupportedProfile));
}

// ----------------------------------------------------------- container

#[test]
fn single_image_yields_one_handle() {
    let fx = Fx {
        items: vec![image_item(1, &[0xAA; 8], Some((4, 3)))],
        refs: vec![],
        pitm: Some(1),
        wide_meta: false,
        wide_ids: false,
    };
    let ctx = read_from_bytes(build_file(&fx)).unwrap();
    let ids = top_level_image_ids(&ctx);
    assert_eq!(ids, vec![1u32]);
    let handles = get_image_handles(&ctx);
    assert_eq!(handles.len(), 1);
    assert_eq!(
        handles[0],
        ImageHandle { item_id: 1, item_type: u32::from_be_bytes(*b"hvc1"), dimensions: Some((4, 3)) }
    );
    let primary = primary_image_handle(&ctx).unwrap();
    assert_eq!(primary, handles[0]);
}

#[test]
fn wide_meta_box_parses() {
    // The meta box written with a 64-bit size field.
    let fx = Fx {
        items: vec![image_item(1, &[0xBB; 4], Some((2, 2)))],
        refs: vec![],
        pitm: None,
        wide_meta: true,
        wide_ids: false,
    };
    let ctx = read_from_bytes(build_file(&fx)).unwrap();
    assert_eq!(top_level_image_ids(&ctx), vec![1u32]);
}

#[test]
fn thumbnail_is_not_top_level() {
    let fx = Fx {
        items: vec![
            image_item(1, &[0xAA; 8], Some((4, 3))),
            image_item(2, &[0xCC; 4], Some((2, 2))),
        ],
        refs: vec![(*b"thmb", 2, vec![1])],
        pitm: Some(1),
        wide_meta: false,
        wide_ids: false,
    };
    let ctx = read_from_bytes(build_file(&fx)).unwrap();
    assert_eq!(top_level_image_ids(&ctx), vec![1u32]);
    assert_eq!(get_image_handles(&ctx).len(), 1);
}

#[test]
fn items_of_type_filters_in_order() {
    let fx = Fx {
        items: vec![
            image_item(1, &[0xAA; 4], None),
            xmp_item(2, b"x"),
            image_item(3, &[0xBB; 4], None),
        ],
        refs: vec![],
        pitm: Some(1),
        wide_meta: false,
        wide_ids: false,
    };
    let ctx = read_from_bytes(build_file(&fx)).unwrap();
    let hvc1 = u32::from_be_bytes(*b"hvc1");
    let mime = u32::from_be_bytes(*b"mime");
    assert_eq!(heif_demux::context::items_of_type(&ctx, hvc1), vec![1u32, 3]);
    assert_eq!(heif_demux::context::items_of_type(&ctx, mime), vec![2u32]);
    assert_eq!(heif_demux::context::items_of_type(&ctx, 0), Vec::<u32>::new());
}

#[test]
fn empty_container_has_no_handles() {
    let fx = Fx { items: vec![], refs: vec![], pitm: None, wide_meta: false, wide_ids: false };
    let ctx = read_from_bytes(build_file(&fx)).unwrap();
    assert!(top_level_image_ids(&ctx).is_empty());
    assert_eq!(primary_image_handle(&ctx), Err(HeifError::NotFound));
}

#[test]
fn dangling_to_reference_is_rejected() {
    let fx = Fx {
        items: vec![image_item(1, &[0xAA; 8], None)],
        refs: vec![(*b"thmb", 1, vec![9])],
        pitm: None,
        wide_meta: false,
        wide_ids: false,
    };
    let r = read_from_bytes(build_file(&fx));
    assert!(matches!(r, Err(HeifError::DanglingItemReference)));
}

#[test]
fn dangling_from_reference_is_rejected() {
    let fx = Fx {
        items: vec![image_item(1, &[0xAA; 8], None)],
        refs: vec![(*b"cdsc", 7, vec![1])],
        pitm: None,
        wide_meta: false,
        wide_ids: false,
    };
    let r = read_from_bytes(build_file(&fx));
    assert!(matches!(r, Err(HeifError::DanglingItemReference)));
}

#[test]
fn missing_meta_box_is_malformed() {
    let mut f = ftyp(b"heic", &[]);
    f.resize(128, 0);
    let r = read_from_bytes(f);
    assert!(matches!(r, Err(HeifError::MalformedContainer)));
}

#[test]
fn truncated_box_is_malformed() {
    let fx = Fx {
        items: vec![image_item(1, &[0xAA; 8], None)],
        refs: vec![],
        pitm: None,
        wide_meta: false,
        wide_ids: false,
    };
    let mut f = build_file(&fx);
    // Overstate the meta box size so it overruns the file.
    let meta_start = ftyp(b"heic", &[]).len();
    let huge = (f.len() as u32 * 2).to_be_bytes();
    f[meta_start..meta_start + 4].copy_from_slice(&huge);
    let r = read_from_bytes(f);
    assert!(matches!(r, Err(HeifError::MalformedContainer)));
}

#[test]
fn wrong_handler_is_malformed() {
    let fx = Fx {
        items: vec![image_item(1, &[0xAA; 8], None)],
        refs: vec![],
        pitm: None,
        wide_meta: false,
        wide_ids: false,
    };
    let mut f = build_file(&fx);
    let pict = f.windows(4).position(|w| w == b"pict").unwrap();
    f[pict..pict + 4].copy_from_slice(b"vide");
    let r = read_from_bytes(f);
    assert!(matches!(r, Err(HeifError::MalformedContainer)));
}

#[test]
fn extent_past_end_is_malformed() {
    let fx = Fx {
        items: vec![image_item(1, &[0xAA; 8], None)],
        refs: vec![],
        pitm: None,
        wide_meta: false,
        wide_ids: false,
    };
    let mut f = build_file(&fx);
    // Grow the declared extent length far past the buffer: the length
    // field sits 18 bytes into the iloc payload for a one-extent entry.
    let iloc = f.windows(4).position(|w| w == b"iloc").unwrap();
    let pos = iloc + 4 + 18;
    f[pos..pos + 4].copy_from_slice(&0xFFFF_FFFFu32.to_be_bytes());
    let r = read_from_bytes(f);
    assert!(matches!(r, Err(HeifError::MalformedContainer)));
}

// ------------------------------------------------------------ metadata

#[test]
fn xmp_metadata_is_extracted() {
    let fx = Fx {
        items: vec![image_item(1, &[0xAA; 8], Some((4, 3))), xmp_item(2, b"<x:xmpmeta/>")],
        refs: vec![(*b"cdsc", 2, vec![1])],
        pitm: Some(1),
        wide_meta: false,
        wide_ids: false,
    };
    let ctx = read_from_bytes(build_file(&fx)).unwrap();
    assert_eq!(get_xmp_metadata(&ctx).unwrap(), b"<x:xmpmeta/>".to_vec());
}

#[test]
fn first_of_two_xmp_blocks_wins() {
    // Two XMP blocks describe the primary image; the extractor returns
    // the one that appears first in iinf order.
    let fx = Fx {
        items: vec![
            image_item(1, &[0xAA; 8], Some((4, 3))),
            xmp_item(2, b"first block"),
            xmp_item(3, b"second block"),
        ],
        refs: vec![(*b"cdsc", 2, vec![1]), (*b"cdsc", 3, vec![1])],
        pitm: Some(1),
        wide_meta: false,
        wide_ids: false,
    };
    let ctx = read_from_bytes(build_file(&fx)).unwrap();
    assert_eq!(get_xmp_metadata(&ctx).unwrap(), b"first block".to_vec());
}

#[test]
fn missing_metadata_is_not_found() {
    let fx = Fx {
        items: vec![image_item(1, &[0xAA; 8], Some((4, 3)))],
        refs: vec![],
        pitm: Some(1),
        wide_meta: false,
        wide_ids: false,
    };
    let ctx = read_from_bytes(build_file(&fx)).unwrap();
    assert_eq!(get_xmp_metadata(&ctx), Err(HeifError::NotFound));
}

#[test]
fn metadata_filter_matches_substring() {
    let fx = Fx {
        items: vec![image_item(1, &[0xAA; 8], Some((4, 3))), xmp_item(2, b"payload")],
        refs: vec![(*b"cdsc", 2, vec![1])],
        pitm: Some(1),
        wide_meta: false,
        wide_ids: false,
    };
    let ctx = read_from_bytes(build_file(&fx)).unwrap();
    assert_eq!(get_metadata(&ctx, b"rdf").unwrap(), b"payload".to_vec());
    assert_eq!(get_metadata(&ctx, b"json"), Err(HeifError::NotFound));
}

#[test]
fn unlinked_metadata_is_not_found() {
    // The mime block exists but no cdsc reference ties it to the
    // primary image.
    let fx = Fx {
        items: vec![image_item(1, &[0xAA; 8], Some((4, 3))), xmp_item(2, b"orphan")],
        refs: vec![],
        pitm: Some(1),
        wide_meta: false,
        wide_ids: false,
    };
    let ctx = read_from_bytes(build_file(&fx)).unwrap();
    assert_eq!(get_xmp_metadata(&ctx), Err(HeifError::NotFound));
}

// -------------------------------------------------------------- decode

fn rgb() -> ColorSpace {
    ColorSpace::Rgb(RgbChroma::Rgb)
}

fn hvc1_handle(w: u32, h: u32) -> ImageHandle {
    ImageHandle { item_id: 1, item_type: u32::from_be_bytes(*b"hvc1"), dimensions: Some((w, h)) }
}

#[test]
fn decode_produces_exact_rgb_buffer() {
    let h = hvc1_handle(4, 3);
    let samples: Vec<u8> = (0..36u8).collect();
    let img = decode_image_from_handle(&h, rgb(), true, &samples).unwrap();
    assert_eq!(img.width, 4);
    assert_eq!(img.height, 3);
    assert_eq!(img.stride, 12);
    assert_eq!(img.data.len(), 4 * 3 * 3);
    assert_eq!(img.data, samples);
}

#[test]
fn decode_twice_is_byte_identical() {
    let h = hvc1_handle(5, 2);
    let samples: Vec<u8> = (0..30u8).map(|x| x.wrapping_mul(7)).collect();
    let a = decode_image_from_handle(&h, rgb(), false, &samples).unwrap();
    let b = decode_image_from_handle(&h, rgb(), false, &samples).unwrap();
    assert_eq!(a.data, b.data);
    assert_eq!(a.width, b.width);
    assert_eq!(a.height, b.height);
    assert_eq!(a.stride, b.stride);
}

#[test]
fn strict_decode_rejects_wrong_length() {
    let h = hvc1_handle(4, 3);
    let samples = vec![0u8; 35];
    let r = decode_image_from_handle(&h, rgb(), true, &samples);
    assert!(matches!(r, Err(HeifError::DecodeError)));
}

#[test]
fn lenient_decode_pads_and_truncates() {
    let h = hvc1_handle(2, 2);
    let short = vec![9u8; 5];
    let img = decode_image_from_handle(&h, rgb(), false, &short).unwrap();
    assert_eq!(img.data, vec![9, 9, 9, 9, 9, 0, 0, 0, 0, 0, 0, 0]);
    let long = vec![7u8; 20];
    let img2 = decode_image_from_handle(&h, rgb(), false, &long).unwrap();
    assert_eq!(img2.data, vec![7u8; 12]);
}

#[test]
fn rgba_uses_four_bytes_per_pixel() {
    let h = hvc1_handle(2, 2);
    let samples = vec![1u8; 16];
    let img = decode_image_from_handle(&h, ColorSpace::Rgb(RgbChroma::Rgba), true, &samples)
        .unwrap();
    assert_eq!(img.stride, 8);
    assert_eq!(img.data.len(), 16);
}

#[test]
fn unregistered_format_is_unsupported() {
    let h = ImageHandle {
        item_id: 1,
        item_type: u32::from_be_bytes(*b"Exif"),
        dimensions: Some((2, 2)),
    };
    let r = decode_image_from_handle(&h, rgb(), true, &[0u8; 12]);
    assert!(matches!(r, Err(HeifError::UnsupportedCodingFormat)));
}

#[test]
fn unknown_dimensions_fail_decode() {
    let h = ImageHandle { item_id: 1, item_type: u32::from_be_bytes(*b"hvc1"), dimensions: None };
    let r = decode_image_from_handle(&h, rgb(), false, &[0u8; 12]);
    assert!(matches!(r, Err(HeifError::DecodeError)));
}

#[test]
fn wide_id_variants_parse() {
    // infe version 3, pitm version 1, iref version 1 (32-bit ids),
    // iloc version 1, and 15-bit property indices in ipma.
    let fx = Fx {
        items: vec![image_item(1, &[0xAA; 8], Some((4, 3))), xmp_item(2, b"wide")],
        refs: vec![(*b"cdsc", 2, vec![1])],
        pitm: Some(1),
        wide_meta: false,
        wide_ids: true,
    };
    let ctx = read_from_bytes(build_file(&fx)).unwrap();
    assert_eq!(top_level_image_ids(&ctx), vec![1u32]);
    let handles = get_image_handles(&ctx);
    assert_eq!(handles[0].dimensions, Some((4, 3)));
    assert_eq!(get_xmp_metadata(&ctx).unwrap(), b"wide".to_vec());
}

#[test]
fn pitm_naming_a_missing_item_is_not_found() {
    // An explicit primary item wins over the first top-level image, so a
    // pitm entry for an absent item leaves no primary to resolve.
    let fx = Fx {
        items: vec![image_item(1, &[0xAA; 8], Some((4, 3)))],
        refs: vec![],
        pitm: Some(9),
        wide_meta: false,
        wide_ids: false,
    };
    let ctx = read_from_bytes(build_file(&fx)).unwrap();
    assert_eq!(top_level_image_ids(&ctx), vec![1u32]);
    assert_eq!(primary_image_handle(&ctx), Err(HeifError::NotFound));
    assert_eq!(get_xmp_metadata(&ctx), Err(HeifError::NotFound));
}

// ------------------------------------------------- end-to-end scenario

#[test]
fn minimal_heic_end_to_end() {
    // Sniff, parse, enumerate, decode: the whole pipeline on a minimal
    // single-image container.
    let fx = Fx {
        items: vec![image_item(1, &[0x42; 10], Some((4, 3)))],
        refs: vec![],
        pitm: Some(1),
        wide_meta: false,
        wide_ids: false,
    };
    let file = build_file(&fx);
    assert!(file.len() >= 64);
    assert_eq!(validate_heif_file(&file), Ok(()));
    let ctx = read_from_bytes(file).unwrap();
    let handles = get_image_handles(&ctx);
    assert_eq!(handles.len(), 1);
    let samples = vec![0x11u8; 36];
    let img = decode_image_from_handle(&handles[0], rgb(), true, &samples).unwrap();
    assert_eq!(img.data.len(), 4 * 3 * 3);
}
