//! The metadata extractor: locate `mime` items linked to the primary
//! image by `cdsc` references, filter by a MIME substring, and hand out
//! the first match's raw bytes.
use vstd::prelude::*;
use crate::bebytes::contains_seq;
use crate::bebytes::contains_bytes;
use crate::boxes::FOURCC_MIME;
use crate::boxes::FOURCC_CDSC;
use crate::context::HeifContext;
use crate::context::item_data;
use crate::context::item_data_spec;
use crate::context::wf;
use crate::err::HeifError;
use crate::handles::primary_id;
use crate::meta::ItemInfo;
use crate::meta::ItemInfoS;
use crate::meta::ItemRef;
use crate::meta::ItemRefS;
use crate::meta::items_view;
use crate::meta::locs_view;
use crate::meta::refs_view;
use crate::handles::top_level_image_ids;
use crate::context::contains_item_id;

verus! {

/// `id` occurs in the id list `ids`.
pub open spec fn has_id(ids: Seq<u32>, id: u32) -> bool {
    exists|j: int| 0 <= j < ids.len() && ids[j] == id
}

/// Item `meta_id` describes item `target` through a `cdsc` reference.
pub open spec fn linked_by_cdsc(refs: Seq<ItemRefS>, meta_id: u32, target: u32) -> bool {
    exists|k: int|
        0 <= k < refs.len() && refs[k].ref_type == FOURCC_CDSC && refs[k].from_id == meta_id
            && has_id(refs[k].to_ids, target)
}

/// Item `k` is a metadata block for `target` whose content type contains
/// the byte pattern `filter`.
pub open spec fn meta_match(
    items: Seq<ItemInfoS>,
    refs: Seq<ItemRefS>,
    k: int,
    target: u32,
    filter: Seq<u8>,
) -> bool {
    items[k].item_type == FOURCC_MIME && linked_by_cdsc(refs, items[k].item_id, target)
        && contains_seq(items[k].content_type, filter)
}

/// Index of the first matching metadata block at or after `k`, in `iinf`
/// appearance order.
pub open spec fn first_meta_from(
    items: Seq<ItemInfoS>,
    refs: Seq<ItemRefS>,
    target: u32,
    filter: Seq<u8>,
    k: int,
) -> Option<int>
    decreases items.len() - k,
{
    if k < 0 || k >= items.len() {
        None
    } else if meta_match(items, refs, k, target, filter) {
        Some(k)
    } else {
        first_meta_from(items, refs, target, filter, k + 1)
    }
}

fn ids_contain(ids: &Vec<u32>, id: u32) -> (r: bool)
    ensures
        r == has_id(ids@, id),
{
    let n = ids.len();
    let mut j: usize = 0;
    while j < n
        invariant
            0 <= j <= n,
            forall|j2: int| 0 <= j2 < j ==> ids@[j2] != id,
        decreases n - j,
    {
        if ids[j] == id {
            assert(ids@[j as int] == id);
            return true;
        }
        j = j + 1;
    }
    false
}

fn linked_by_cdsc_x(refs: &Vec<ItemRef>, meta_id: u32, target: u32) -> (r: bool)
    ensures
        r == linked_by_cdsc(refs_view(refs@), meta_id, target),
{
    let n = refs.len();
    let mut k: usize = 0;
    while k < n
        invariant
            0 <= k <= n,
            forall|k2: int|
                0 <= k2 < k ==> !(refs_view(refs@)[k2].ref_type == FOURCC_CDSC && refs_view(
                    refs@,
                )[k2].from_id == meta_id && has_id(refs_view(refs@)[k2].to_ids, target)),
        decreases n - k,
    {
        if refs[k].ref_type == FOURCC_CDSC && refs[k].from_id == meta_id && ids_contain(
            &refs[k].to_ids,
            target,
        ) {
            assert(refs_view(refs@)[k as int].ref_type == FOURCC_CDSC && refs_view(
                refs@,
            )[k as int].from_id == meta_id && has_id(refs_view(refs@)[k as int].to_ids, target));
            return true;
        }
        k = k + 1;
    }
    false
}

/// Extract the raw bytes of the first metadata block (in `iinf`
/// appearance order) that is attached to the primary image by a `cdsc`
/// reference and whose MIME content type contains `filter`. Only the
/// first match is returned even when several blocks match; `NotFound`
/// when there is no primary image, no matching block, or no location
/// for the matching block.
pub fn get_metadata(ctx: &HeifContext, filter: &[u8]) -> (r: Result<Vec<u8>, HeifError>)
    requires
        wf(*ctx),
    ensures
        match primary_id(items_view(ctx.items@), refs_view(ctx.references@), ctx.primary_item) {
            None => r == Err::<Vec<u8>, HeifError>(HeifError::NotFound),
            Some(pid) => match first_meta_from(
                items_view(ctx.items@),
                refs_view(ctx.references@),
                pid,
                filter@,
                0,
            ) {
                None => r == Err::<Vec<u8>, HeifError>(HeifError::NotFound),
                Some(k) => match item_data_spec(
                    ctx.data@,
                    locs_view(ctx.locations@),
                    items_view(ctx.items@)[k].item_id,
                ) {
                    None => r == Err::<Vec<u8>, HeifError>(HeifError::NotFound),
                    Some(bytes) => r matches Ok(v) && v@ == bytes,
                },
            },
        },
{
    let pid: u32 = match ctx.primary_item {
        Some(id) => {
            if contains_item_id(&ctx.items, id) {
                id
            } else {
                return Err(HeifError::NotFound);
            }
        },
        None => {
            let ids = top_level_image_ids(ctx);
            if ids.len() > 0 {
                ids[0]
            } else {
                return Err(HeifError::NotFound);
            }
        },
    };
    let n = ctx.items.len();
    let mut k: usize = 0;
    while k < n
        invariant
            0 <= k <= n,
            first_meta_from(items_view(ctx.items@), refs_view(ctx.references@), pid, filter@, 0)
                == first_meta_from(
                items_view(ctx.items@),
                refs_view(ctx.references@),
                pid,
                filter@,
                k as int,
            ),
        decreases n - k,
    {
        let it = &ctx.items[k];
        if it.item_type == FOURCC_MIME && linked_by_cdsc_x(&ctx.references, it.item_id, pid)
            && contains_bytes(it.content_type.as_slice(), filter) {
            assert(meta_match(
                items_view(ctx.items@),
                refs_view(ctx.references@),
                k as int,
                pid,
                filter@,
            ));
            match item_data(ctx, it.item_id) {
                None => {
                    return Err(HeifError::NotFound);
                },
                Some(v) => {
                    return Ok(v);
                },
            }
        }
        assert(!meta_match(
            items_view(ctx.items@),
            refs_view(ctx.references@),
            k as int,
            pid,
            filter@,
        ));
        k = k + 1;
    }
    Err(HeifError::NotFound)
}

/// The MIME content type of XMP metadata blocks, as bytes:
/// `application/rdf+xml`.
pub open spec fn xmp_mime() -> Seq<u8> {
    seq![
        0x61u8, 0x70u8, 0x70u8, 0x6Cu8, 0x69u8, 0x63u8, 0x61u8, 0x74u8, 0x69u8, 0x6Fu8, 0x6Eu8,
        0x2Fu8, 0x72u8, 0x64u8, 0x66u8, 0x2Bu8, 0x78u8, 0x6Du8, 0x6Cu8,
    ]
}

/// The `application/rdf+xml` filter as a byte vector.
pub fn xmp_mime_bytes() -> (r: Vec<u8>)
    ensures
        r@ == xmp_mime(),
{
    let v: Vec<u8> = vec![
        0x61u8, 0x70u8, 0x70u8, 0x6Cu8, 0x69u8, 0x63u8, 0x61u8, 0x74u8, 0x69u8, 0x6Fu8, 0x6Eu8,
        0x2Fu8, 0x72u8, 0x64u8, 0x66u8, 0x2Bu8, 0x78u8, 0x6Du8, 0x6Cu8,
    ];
    assert(v@ =~= xmp_mime());
    v
}

/// Extract the XMP metadata attached to the primary image: the first
/// `mime` block in `iinf` order whose content type contains
/// `application/rdf+xml`.
pub fn get_xmp_metadata(ctx: &HeifContext) -> (r: Result<Vec<u8>, HeifError>)
    requires
        wf(*ctx),
    ensures
        match primary_id(items_view(ctx.items@), refs_view(ctx.references@), ctx.primary_item) {
            None => r == Err::<Vec<u8>, HeifError>(HeifError::NotFound),
            Some(pid) => match first_meta_from(
                items_view(ctx.items@),
                refs_view(ctx.references@),
                pid,
                xmp_mime(),
                0,
            ) {
                None => r == Err::<Vec<u8>, HeifError>(HeifError::NotFound),
                Some(k) => match item_data_spec(
                    ctx.data@,
                    locs_view(ctx.locations@),
                    items_view(ctx.items@)[k].item_id,
                ) {
                    None => r == Err::<Vec<u8>, HeifError>(HeifError::NotFound),
                    Some(bytes) => r matches Ok(v) && v@ == bytes,
                },
            },
        },
{
    let filter = xmp_mime_bytes();
    get_metadata(ctx, filter.as_slice())
}

} // verus!
