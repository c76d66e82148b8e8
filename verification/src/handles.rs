//! The image handle enumerator: which items are top-level images, in
//! `iinf` appearance order, and which of them is the primary image.
use vstd::prelude::*;
use crate::boxes::FOURCC_HVC1;
use crate::boxes::FOURCC_AV01;
use crate::boxes::FOURCC_GRID;
use crate::boxes::FOURCC_THMB;
use crate::boxes::FOURCC_AUXL;
use crate::context::HeifContext;
use crate::context::has_item;
use crate::context::contains_item_id;
use crate::err::HeifError;
use crate::meta::ItemInfo;
use crate::meta::ItemInfoS;
use crate::meta::ItemRef;
use crate::meta::ItemRefS;
use crate::meta::items_view;
use crate::meta::refs_view;
use crate::props::ItemDims;

verus! {

/// A top-level image item: its id, its coding format tag, and its pixel
/// dimensions where the container declares them.
#[derive(Clone, Copy, Debug, PartialEq, Eq)]
pub struct ImageHandle {
    pub item_id: u32,
    pub item_type: u32,
    pub dimensions: Option<(u32, u32)>,
}

/// Item types this reader treats as images: HEVC- and AV1-coded items
/// and grid-derived items.
pub open spec fn is_image_type(t: u32) -> bool {
    t == FOURCC_HVC1 || t == FOURCC_AV01 || t == FOURCC_GRID
}

fn is_image_type_x(t: u32) -> (r: bool)
    ensures
        r == is_image_type(t),
{
    t == FOURCC_HVC1 || t == FOURCC_AV01 || t == FOURCC_GRID
}

/// Item `id` is declared a thumbnail or auxiliary image: it carries an
/// outgoing `thmb` or `auxl` reference to its master image.
pub open spec fn hidden_by_ref(refs: Seq<ItemRefS>, id: u32) -> bool {
    exists|k: int|
        0 <= k < refs.len() && (refs[k].ref_type == FOURCC_THMB || refs[k].ref_type == FOURCC_AUXL)
            && refs[k].from_id == id
}

/// Item `k` is a top-level image: image-typed, and neither a thumbnail
/// nor an auxiliary image of anything.
pub open spec fn is_top_level(items: Seq<ItemInfoS>, refs: Seq<ItemRefS>, k: int) -> bool {
    is_image_type(items[k].item_type) && !hidden_by_ref(refs, items[k].item_id)
}

/// The ids of the top-level images among the first `n` items, in order.
pub open spec fn top_ids_upto(items: Seq<ItemInfoS>, refs: Seq<ItemRefS>, n: int) -> Seq<u32>
    decreases n,
{
    if n <= 0 {
        Seq::empty()
    } else {
        top_ids_upto(items, refs, n - 1) + (if is_top_level(items, refs, n - 1) {
            seq![items[n - 1].item_id]
        } else {
            Seq::empty()
        })
    }
}

/// The ids of all top-level images, in `iinf` appearance order.
pub open spec fn top_ids(items: Seq<ItemInfoS>, refs: Seq<ItemRefS>) -> Seq<u32> {
    top_ids_upto(items, refs, items.len() as int)
}

fn hidden_by_ref_x(refs: &Vec<ItemRef>, id: u32) -> (r: bool)
    ensures
        r == hidden_by_ref(refs_view(refs@), id),
{
    let n = refs.len();
    let mut k: usize = 0;
    while k < n
        invariant
            0 <= k <= n,
            forall|k2: int|
                0 <= k2 < k ==> !((refs_view(refs@)[k2].ref_type == FOURCC_THMB || refs_view(
                    refs@,
                )[k2].ref_type == FOURCC_AUXL) && refs_view(refs@)[k2].from_id == id),
        decreases n - k,
    {
        if (refs[k].ref_type == FOURCC_THMB || refs[k].ref_type == FOURCC_AUXL) && refs[k].from_id
            == id {
            assert((refs_view(refs@)[k as int].ref_type == FOURCC_THMB || refs_view(
                refs@,
            )[k as int].ref_type == FOURCC_AUXL) && refs_view(refs@)[k as int].from_id == id);
            return true;
        }
        k = k + 1;
    }
    false
}

/// The ordered ids of the container's top-level images. An empty result
/// is valid: a container may hold no image at all.
pub fn top_level_image_ids(ctx: &HeifContext) -> (r: Vec<u32>)
    ensures
        r@ == top_ids(items_view(ctx.items@), refs_view(ctx.references@)),
{
    let n = ctx.items.len();
    let mut out: Vec<u32> = Vec::new();
    let mut i: usize = 0;
    while i < n
        invariant
            0 <= i <= n,
            out@ == top_ids_upto(items_view(ctx.items@), refs_view(ctx.references@), i as int),
        decreases n - i,
    {
        let it = &ctx.items[i];
        if is_image_type_x(it.item_type) && !hidden_by_ref_x(&ctx.references, it.item_id) {
            out.push(it.item_id);
            assert(out@ =~= top_ids_upto(
                items_view(ctx.items@),
                refs_view(ctx.references@),
                i + 1,
            ));
        } else {
            assert(out@ =~= top_ids_upto(
                items_view(ctx.items@),
                refs_view(ctx.references@),
                i + 1,
            ));
        }
        i = i + 1;
    }
    out
}

/// Index of the first item carrying `id`, from position `k`.
pub open spec fn find_item_from(items: Seq<ItemInfoS>, id: u32, k: int) -> Option<int>
    decreases items.len() - k,
{
    if k < 0 || k >= items.len() {
        None
    } else if items[k].item_id == id {
        Some(k)
    } else {
        find_item_from(items, id, k + 1)
    }
}

/// The coding format tag of item `id` (0 when the item is unknown).
pub open spec fn type_of(items: Seq<ItemInfoS>, id: u32) -> u32 {
    match find_item_from(items, id, 0) {
        None => 0,
        Some(k) => items[k].item_type,
    }
}

fn item_type_of(items: &Vec<ItemInfo>, id: u32) -> (r: u32)
    ensures
        r == type_of(items_view(items@), id),
{
    let n = items.len();
    let mut k: usize = 0;
    while k < n
        invariant
            0 <= k <= n,
            find_item_from(items_view(items@), id, 0) == find_item_from(
                items_view(items@),
                id,
                k as int,
            ),
        decreases n - k,
    {
        if items[k].item_id == id {
            return items[k].item_type;
        }
        k = k + 1;
    }
    0
}

/// The declared dimensions of the first association entry for item `id`.
pub open spec fn dims_from(dims: Seq<ItemDims>, id: u32, k: int) -> Option<(u32, u32)>
    decreases dims.len() - k,
{
    if k < 0 || k >= dims.len() {
        None
    } else if dims[k].item_id == id {
        Some((dims[k].width, dims[k].height))
    } else {
        dims_from(dims, id, k + 1)
    }
}

/// The pixel dimensions the property boxes declare for item `id`.
pub open spec fn dims_of(dims: Seq<ItemDims>, id: u32) -> Option<(u32, u32)> {
    dims_from(dims, id, 0)
}

fn lookup_dims(dims: &Vec<ItemDims>, id: u32) -> (r: Option<(u32, u32)>)
    ensures
        r == dims_of(dims@, id),
{
    let n = dims.len();
    let mut k: usize = 0;
    while k < n
        invariant
            0 <= k <= n,
            dims_from(dims@, id, 0) == dims_from(dims@, id, k as int),
        decreases n - k,
    {
        if dims[k].item_id == id {
            return Some((dims[k].width, dims[k].height));
        }
        k = k + 1;
    }
    None
}

/// The handle describing item `id` against the given index.
pub open spec fn handle_of(items: Seq<ItemInfoS>, dims: Seq<ItemDims>, id: u32) -> ImageHandle {
    ImageHandle { item_id: id, item_type: type_of(items, id), dimensions: dims_of(dims, id) }
}

/// One handle per top-level image of the container, in `iinf` appearance
/// order, each resolved against the item index.
pub fn get_image_handles(ctx: &HeifContext) -> (r: Vec<ImageHandle>)
    ensures
        r@.len() == top_ids(items_view(ctx.items@), refs_view(ctx.references@)).len(),
        forall|k: int|
            0 <= k < r@.len() ==> r@[k] == handle_of(
                items_view(ctx.items@),
                ctx.dims@,
                top_ids(items_view(ctx.items@), refs_view(ctx.references@))[k],
            ),
{
    let ids = top_level_image_ids(ctx);
    let n = ids.len();
    let mut out: Vec<ImageHandle> = Vec::new();
    let mut k: usize = 0;
    while k < n
        invariant
            0 <= k <= n,
            n == top_ids(items_view(ctx.items@), refs_view(ctx.references@)).len(),
            ids@ == top_ids(items_view(ctx.items@), refs_view(ctx.references@)),
            out@.len() == k,
            forall|k2: int|
                0 <= k2 < k ==> out@[k2] == handle_of(
                    items_view(ctx.items@),
                    ctx.dims@,
                    top_ids(items_view(ctx.items@), refs_view(ctx.references@))[k2],
                ),
        decreases n - k,
    {
        let id = ids[k];
        let h = ImageHandle {
            item_id: id,
            item_type: item_type_of(&ctx.items, id),
            dimensions: lookup_dims(&ctx.dims, id),
        };
        out.push(h);
        k = k + 1;
    }
    out
}

/// The id of the primary image: the item named by `pitm` when it exists
/// in the index, else the first top-level image.
pub open spec fn primary_id(
    items: Seq<ItemInfoS>,
    refs: Seq<ItemRefS>,
    pitm: Option<u32>,
) -> Option<u32> {
    match pitm {
        Some(id) => if has_item(items, id) {
            Some(id)
        } else {
            None
        },
        None => if top_ids(items, refs).len() > 0 {
            Some(top_ids(items, refs)[0])
        } else {
            None
        },
    }
}

/// Resolve the primary image handle: the `pitm` item if declared and
/// present, else the first top-level image; `NotFound` when the
/// container offers neither.
pub fn primary_image_handle(ctx: &HeifContext) -> (r: Result<ImageHandle, HeifError>)
    ensures
        r == (match primary_id(items_view(ctx.items@), refs_view(ctx.references@),
        ctx.primary_item) {
            Some(id) => Ok::<ImageHandle, HeifError>(
                handle_of(items_view(ctx.items@), ctx.dims@, id),
            ),
            None => Err::<ImageHandle, HeifError>(HeifError::NotFound),
        }),
{
    match ctx.primary_item {
        Some(id) => {
            if contains_item_id(&ctx.items, id) {
                Ok(
                    ImageHandle {
                        item_id: id,
                        item_type: item_type_of(&ctx.items, id),
                        dimensions: lookup_dims(&ctx.dims, id),
                    },
                )
            } else {
                Err(HeifError::NotFound)
            }
        },
        None => {
            let ids = top_level_image_ids(ctx);
            if ids.len() > 0 {
                let id = ids[0];
                Ok(
                    ImageHandle {
                        item_id: id,
                        item_type: item_type_of(&ctx.items, id),
                        dimensions: lookup_dims(&ctx.dims, id),
                    },
                )
            } else {
                Err(HeifError::NotFound)
            }
        },
    }
}

proof fn lemma_single_upto(items: Seq<ItemInfoS>, refs: Seq<ItemRefS>, k: int, n: int)
    requires
        0 <= k < items.len(),
        0 <= n <= items.len(),
        is_image_type(items[k].item_type),
        forall|j: int| 0 <= j < items.len() && j != k ==> !is_image_type(items[j].item_type),
        forall|r: int|
            0 <= r < refs.len() ==> refs[r].ref_type != FOURCC_THMB && refs[r].ref_type
                != FOURCC_AUXL,
    ensures
        top_ids_upto(items, refs, n) == (if k < n {
            seq![items[k].item_id]
        } else {
            Seq::<u32>::empty()
        }),
    decreases n,
{
    if n <= 0 {
        assert(top_ids_upto(items, refs, n) =~= Seq::<u32>::empty());
    } else {
        lemma_single_upto(items, refs, k, n - 1);
        if n - 1 == k {
            assert(!hidden_by_ref(refs, items[k].item_id));
            assert(is_top_level(items, refs, k));
            assert(top_ids_upto(items, refs, n) =~= seq![items[k].item_id]);
        } else {
            assert(!is_top_level(items, refs, n - 1));
            assert(top_ids_upto(items, refs, n) =~= top_ids_upto(items, refs, n - 1));
        }
    }
}

/// A container whose item index holds exactly one image-typed item and
/// no thumbnail or auxiliary references exposes exactly one top-level
/// image id: that item's.
pub proof fn lemma_single_image_single_handle(items: Seq<ItemInfoS>, refs: Seq<ItemRefS>, k: int)
    requires
        0 <= k < items.len(),
        is_image_type(items[k].item_type),
        forall|j: int| 0 <= j < items.len() && j != k ==> !is_image_type(items[j].item_type),
        forall|r: int|
            0 <= r < refs.len() ==> refs[r].ref_type != FOURCC_THMB && refs[r].ref_type
                != FOURCC_AUXL,
    ensures
        top_ids(items, refs).len() == 1,
        top_ids(items, refs)[0] == items[k].item_id,
{
    lemma_single_upto(items, refs, k, items.len() as int);
}

} // verus!
