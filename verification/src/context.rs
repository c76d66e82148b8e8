//! The container context: one parse of a HEIF byte buffer into an item
//! index (infos, locations, references, primary item, dimensions), with
//! the dangling-reference and extent-bounds checks of the index builder.
use vstd::prelude::*;
use crate::bebytes::read_be32;
use crate::bebytes::be32;
use crate::bebytes::copy_range;
use crate::boxes::find_box;
use crate::boxes::find_box_spec;
use crate::boxes::FOURCC_META;
use crate::boxes::FOURCC_HDLR;
use crate::boxes::FOURCC_IINF;
use crate::boxes::FOURCC_ILOC;
use crate::boxes::FOURCC_IREF;
use crate::boxes::FOURCC_PITM;
use crate::boxes::FOURCC_IPRP;
use crate::boxes::FOURCC_IPCO;
use crate::boxes::FOURCC_IPMA;
use crate::boxes::FOURCC_PICT;
use crate::err::HeifError;
use crate::meta::ItemInfo;
use crate::meta::ItemInfoS;
use crate::meta::ItemLocation;
use crate::meta::ItemLocationS;
use crate::meta::ItemRef;
use crate::meta::ItemRefS;
use crate::meta::items_view;
use crate::meta::locs_view;
use crate::meta::refs_view;
use crate::meta::parse_iinf;
use crate::meta::parse_iloc;
use crate::meta::parse_iref;
use crate::meta::parse_pitm;
use crate::meta::read_iinf;
use crate::meta::read_iloc;
use crate::meta::read_iref;
use crate::meta::read_pitm;
use crate::props::ItemDims;
use crate::props::parse_props;
use crate::props::parse_ipma;
use crate::props::read_props;
use crate::props::read_ipma;
use crate::props::assocs_view;
use crate::props::dims_upto;
use crate::props::build_dims;

verus! {

/// A parsed container: the raw bytes plus the item index built from the
/// `meta` box. Created once per file; all extraction and decode-dispatch
/// calls read it without mutating it.
pub struct HeifContext {
    pub data: Vec<u8>,
    pub items: Vec<ItemInfo>,
    pub locations: Vec<ItemLocation>,
    pub references: Vec<ItemRef>,
    pub primary_item: Option<u32>,
    pub dims: Vec<ItemDims>,
}

/// Payload range of the `meta` box body (after its version/flags word),
/// scanning the top-level boxes of `s`.
pub open spec fn meta_payload(s: Seq<u8>) -> Option<(int, int)> {
    match find_box_spec(s, 0, s.len() as int, FOURCC_META) {
        None => None,
        Some((ps, be)) => if ps + 4 <= be {
            Some((ps + 4, be))
        } else {
            None
        },
    }
}

/// The handler box exists and declares the `pict` handler type.
pub open spec fn hdlr_ok(s: Seq<u8>) -> bool {
    match meta_payload(s) {
        None => false,
        Some((mp, me)) => match find_box_spec(s, mp, me, FOURCC_HDLR) {
            None => false,
            Some((hp, he)) => hp + 12 <= he && be32(s, hp + 8) == FOURCC_PICT,
        },
    }
}

/// The item infos of `s`, in `iinf` appearance order.
pub open spec fn parsed_items(s: Seq<u8>) -> Option<Seq<ItemInfoS>> {
    match meta_payload(s) {
        None => None,
        Some((mp, me)) => match find_box_spec(s, mp, me, FOURCC_IINF) {
            None => None,
            Some((ip, ie)) => parse_iinf(s, ip, ie),
        },
    }
}

/// The item locations of `s`.
pub open spec fn parsed_locs(s: Seq<u8>) -> Option<Seq<ItemLocationS>> {
    match meta_payload(s) {
        None => None,
        Some((mp, me)) => match find_box_spec(s, mp, me, FOURCC_ILOC) {
            None => None,
            Some((lp, le)) => parse_iloc(s, lp, le),
        },
    }
}

/// The item references of `s`; a missing `iref` box means none.
pub open spec fn parsed_refs(s: Seq<u8>) -> Option<Seq<ItemRefS>> {
    match meta_payload(s) {
        None => None,
        Some((mp, me)) => match find_box_spec(s, mp, me, FOURCC_IREF) {
            None => Some(Seq::empty()),
            Some((rp, re)) => parse_iref(s, rp, re),
        },
    }
}

/// The declared primary item of `s`; a missing `pitm` box means none.
pub open spec fn parsed_pitm(s: Seq<u8>) -> Option<Option<u32>> {
    match meta_payload(s) {
        None => None,
        Some((mp, me)) => match find_box_spec(s, mp, me, FOURCC_PITM) {
            None => Some(None),
            Some((pp, pe)) => match parse_pitm(s, pp, pe) {
                None => None,
                Some(id) => Some(Some(id)),
            },
        },
    }
}

/// The per-item pixel dimensions of `s`, from the property boxes; a
/// missing `iprp` box means none, but an `iprp` without both `ipco` and
/// `ipma` children is malformed.
pub open spec fn parsed_dims(s: Seq<u8>) -> Option<Seq<ItemDims>> {
    match meta_payload(s) {
        None => None,
        Some((mp, me)) => match find_box_spec(s, mp, me, FOURCC_IPRP) {
            None => Some(Seq::empty()),
            Some((pp, pe)) => match find_box_spec(s, pp, pe, FOURCC_IPCO) {
                None => None,
                Some((cp, ce)) => match parse_props(s, cp, ce) {
                    None => None,
                    Some(props) => match find_box_spec(s, pp, pe, FOURCC_IPMA) {
                        None => None,
                        Some((ap, ae)) => match parse_ipma(s, ap, ae) {
                            None => None,
                            Some(assocs) => Some(dims_upto(assocs, props, assocs.len() as int)),
                        },
                    },
                },
            },
        },
    }
}

/// Some item in `items` carries the id `id`.
pub open spec fn has_item(items: Seq<ItemInfoS>, id: u32) -> bool {
    exists|k: int| 0 <= k < items.len() && items[k].item_id == id
}

/// Reference `r` names an item id that `items` lacks, on either side.
pub open spec fn ref_dangles(items: Seq<ItemInfoS>, r: ItemRefS) -> bool {
    !has_item(items, r.from_id) || exists|j: int|
        0 <= j < r.to_ids.len() && !has_item(items, r.to_ids[j])
}

/// Some reference in `refs` dangles.
pub open spec fn has_dangling(items: Seq<ItemInfoS>, refs: Seq<ItemRefS>) -> bool {
    exists|k: int| 0 <= k < refs.len() && ref_dangles(items, refs[k])
}

/// Every extent of every location lies within the first `n` bytes.
pub open spec fn extents_bounded(locs: Seq<ItemLocationS>, n: int) -> bool {
    forall|k: int, j: int|
        0 <= k < locs.len() && 0 <= j < locs[k].extents.len() ==> locs[k].extents[j].0
            + locs[k].extents[j].1 <= n
}

/// A structurally acceptable container: every required box parses and
/// every extent stays inside the buffer.
pub open spec fn container_ok(s: Seq<u8>) -> bool {
    &&& meta_payload(s) is Some
    &&& hdlr_ok(s)
    &&& parsed_items(s) is Some
    &&& parsed_locs(s) is Some
    &&& parsed_refs(s) is Some
    &&& parsed_pitm(s) is Some
    &&& parsed_dims(s) is Some
    &&& extents_bounded(parsed_locs(s).unwrap(), s.len() as int)
}

/// Well-formedness of a context: its index matches its bytes.
pub open spec fn wf(ctx: HeifContext) -> bool {
    extents_bounded(locs_view(ctx.locations@), ctx.data@.len() as int)
}

/// Whether some item id in `items` equals `id`.
pub fn contains_item_id(items: &Vec<ItemInfo>, id: u32) -> (r: bool)
    ensures
        r == has_item(items_view(items@), id),
{
    let n = items.len();
    let mut k: usize = 0;
    while k < n
        invariant
            0 <= k <= n,
            forall|k2: int| 0 <= k2 < k ==> items_view(items@)[k2].item_id != id,
        decreases n - k,
    {
        if items[k].item_id == id {
            assert(items_view(items@)[k as int].item_id == id);
            return true;
        }
        k = k + 1;
    }
    false
}

fn ref_dangles_x(items: &Vec<ItemInfo>, r: &ItemRef) -> (b: bool)
    ensures
        b == ref_dangles(items_view(items@), r@),
{
    if !contains_item_id(items, r.from_id) {
        return true;
    }
    let n = r.to_ids.len();
    let mut j: usize = 0;
    while j < n
        invariant
            0 <= j <= n,
            forall|j2: int| 0 <= j2 < j ==> has_item(items_view(items@), r@.to_ids[j2]),
        decreases n - j,
    {
        if !contains_item_id(items, r.to_ids[j]) {
            assert(!has_item(items_view(items@), r@.to_ids[j as int]));
            return true;
        }
        j = j + 1;
    }
    false
}

fn find_dangling(items: &Vec<ItemInfo>, refs: &Vec<ItemRef>) -> (b: bool)
    ensures
        b == has_dangling(items_view(items@), refs_view(refs@)),
{
    let n = refs.len();
    let mut k: usize = 0;
    while k < n
        invariant
            0 <= k <= n,
            forall|k2: int| 0 <= k2 < k ==> !ref_dangles(items_view(items@), refs_view(refs@)[k2]),
        decreases n - k,
    {
        if ref_dangles_x(items, &refs[k]) {
            assert(ref_dangles(items_view(items@), refs_view(refs@)[k as int]));
            return true;
        }
        k = k + 1;
    }
    false
}

fn check_extents_bounded(locs: &Vec<ItemLocation>, n: usize) -> (b: bool)
    ensures
        b == extents_bounded(locs_view(locs@), n as int),
{
    let nl = locs.len();
    let mut k: usize = 0;
    while k < nl
        invariant
            0 <= k <= nl,
            forall|k2: int, j2: int|
                0 <= k2 < k && 0 <= j2 < locs_view(locs@)[k2].extents.len() ==> locs_view(
                    locs@,
                )[k2].extents[j2].0 + locs_view(locs@)[k2].extents[j2].1 <= n as int,
        decreases nl - k,
    {
        let ne = locs[k].extents.len();
        let mut j: usize = 0;
        while j < ne
            invariant
                0 <= j <= ne,
                forall|j2: int|
                    0 <= j2 < j ==> locs_view(locs@)[k as int].extents[j2].0 + locs_view(
                        locs@,
                    )[k as int].extents[j2].1 <= n as int,
            decreases ne - j,
        {
            let (off, len) = locs[k].extents[j];
            assert(locs_view(locs@)[k as int].extents[j as int] == (off, len));
            if off > u64::MAX - len {
                assert(off + len > n);
                assert(!extents_bounded(locs_view(locs@), n as int));
                return false;
            }
            if off + len > n as u64 {
                assert(!extents_bounded(locs_view(locs@), n as int));
                return false;
            }
            j = j + 1;
        }
        k = k + 1;
    }
    true
}

/// Build a container context from raw file bytes: locate the `meta` box,
/// check the handler, parse the item info, location, reference, primary
/// item and property boxes, and reject containers whose references
/// dangle or whose extents overrun the buffer.
pub fn read_from_bytes(bytes: Vec<u8>) -> (r: Result<HeifContext, HeifError>)
    ensures
        match r {
            Ok(ctx) => container_ok(bytes@) && !has_dangling(
                parsed_items(bytes@).unwrap(),
                parsed_refs(bytes@).unwrap(),
            ) && ctx.data@ == bytes@ && items_view(ctx.items@) == parsed_items(bytes@).unwrap()
                && locs_view(ctx.locations@) == parsed_locs(bytes@).unwrap() && refs_view(
                ctx.references@,
            ) == parsed_refs(bytes@).unwrap() && ctx.primary_item == parsed_pitm(bytes@).unwrap()
                && ctx.dims@ == parsed_dims(bytes@).unwrap() && wf(ctx),
            Err(e) => {
                &&& (e == HeifError::MalformedContainer <==> !container_ok(bytes@))
                &&& (e == HeifError::DanglingItemReference <==> container_ok(bytes@)
                    && has_dangling(parsed_items(bytes@).unwrap(), parsed_refs(bytes@).unwrap()))
                &&& (e == HeifError::MalformedContainer || e == HeifError::DanglingItemReference)
            },
        },
{
    let n = bytes.len();
    let s = bytes.as_slice();
    let (mps, mbe) = match find_box(s, 0, n, FOURCC_META) {
        None => {
            return Err(HeifError::MalformedContainer);
        },
        Some(x) => x,
    };
    if mbe - mps < 4 {
        return Err(HeifError::MalformedContainer);
    }
    let mp = mps + 4;
    let me = mbe;
    match find_box(s, mp, me, FOURCC_HDLR) {
        None => {
            return Err(HeifError::MalformedContainer);
        },
        Some((hp, he)) => {
            if he - hp < 12 {
                return Err(HeifError::MalformedContainer);
            }
            if read_be32(s, hp + 8) != FOURCC_PICT {
                return Err(HeifError::MalformedContainer);
            }
        },
    }
    let items = match find_box(s, mp, me, FOURCC_IINF) {
        None => {
            return Err(HeifError::MalformedContainer);
        },
        Some((ip, ie)) => match read_iinf(s, ip, ie) {
            None => {
                return Err(HeifError::MalformedContainer);
            },
            Some(v) => v,
        },
    };
    let locations = match find_box(s, mp, me, FOURCC_ILOC) {
        None => {
            return Err(HeifError::MalformedContainer);
        },
        Some((lp, le)) => match read_iloc(s, lp, le) {
            None => {
                return Err(HeifError::MalformedContainer);
            },
            Some(v) => v,
        },
    };
    let references = match find_box(s, mp, me, FOURCC_IREF) {
        None => Vec::new(),
        Some((rp, re)) => match read_iref(s, rp, re) {
            None => {
                return Err(HeifError::MalformedContainer);
            },
            Some(v) => v,
        },
    };
    let primary_item = match find_box(s, mp, me, FOURCC_PITM) {
        None => None,
        Some((pp, pe)) => match read_pitm(s, pp, pe) {
            None => {
                return Err(HeifError::MalformedContainer);
            },
            Some(id) => Some(id),
        },
    };
    let dims = match find_box(s, mp, me, FOURCC_IPRP) {
        None => Vec::new(),
        Some((pp, pe)) => {
            let (cp, ce) = match find_box(s, pp, pe, FOURCC_IPCO) {
                None => {
                    return Err(HeifError::MalformedContainer);
                },
                Some(x) => x,
            };
            let props = match read_props(s, cp, ce) {
                None => {
                    return Err(HeifError::MalformedContainer);
                },
                Some(v) => v,
            };
            let (ap, ae) = match find_box(s, pp, pe, FOURCC_IPMA) {
                None => {
                    return Err(HeifError::MalformedContainer);
                },
                Some(x) => x,
            };
            let assocs = match read_ipma(s, ap, ae) {
                None => {
                    return Err(HeifError::MalformedContainer);
                },
                Some(v) => v,
            };
            build_dims(&assocs, &props)
        },
    };
    if !check_extents_bounded(&locations, n) {
        return Err(HeifError::MalformedContainer);
    }
    if find_dangling(&items, &references) {
        return Err(HeifError::DanglingItemReference);
    }
    Ok(HeifContext { data: bytes, items, locations, references, primary_item, dims })
}

/// The ids of the items of type `kind` among the first `n` items, in
/// `iinf` appearance order.
pub open spec fn ids_of_type_upto(items: Seq<ItemInfoS>, kind: u32, n: int) -> Seq<u32>
    decreases n,
{
    if n <= 0 {
        Seq::empty()
    } else {
        ids_of_type_upto(items, kind, n - 1) + (if items[n - 1].item_type == kind {
            seq![items[n - 1].item_id]
        } else {
            Seq::empty()
        })
    }
}

/// The ids of all items whose four-character item type is `kind`, in
/// `iinf` appearance order.
pub fn items_of_type(ctx: &HeifContext, kind: u32) -> (r: Vec<u32>)
    ensures
        r@ == ids_of_type_upto(items_view(ctx.items@), kind, ctx.items@.len() as int),
{
    let n = ctx.items.len();
    let mut out: Vec<u32> = Vec::new();
    let mut i: usize = 0;
    while i < n
        invariant
            0 <= i <= n,
            out@ == ids_of_type_upto(items_view(ctx.items@), kind, i as int),
        decreases n - i,
    {
        if ctx.items[i].item_type == kind {
            out.push(ctx.items[i].item_id);
            assert(out@ =~= ids_of_type_upto(items_view(ctx.items@), kind, i + 1));
        } else {
            assert(out@ =~= ids_of_type_upto(items_view(ctx.items@), kind, i + 1));
        }
        i = i + 1;
    }
    out
}

/// The bytes of the extents `extents[k..]`, concatenated.
pub open spec fn concat_from(data: Seq<u8>, extents: Seq<(u64, u64)>, k: int) -> Seq<u8>
    decreases extents.len() - k,
{
    if k < 0 || k >= extents.len() {
        Seq::empty()
    } else {
        data.subrange(extents[k].0 as int, extents[k].0 + extents[k].1) + concat_from(
            data,
            extents,
            k + 1,
        )
    }
}

fn concat_extents_x(data: &[u8], extents: &Vec<(u64, u64)>, k: usize) -> (r: Vec<u8>)
    requires
        forall|j: int|
            0 <= j < extents@.len() ==> extents@[j].0 + extents@[j].1 <= data@.len(),
    ensures
        r@ == concat_from(data@, extents@, k as int),
    decreases extents@.len() - k,
{
    let n = extents.len();
    if k >= n {
        let v: Vec<u8> = Vec::new();
        return v;
    }
    let (off, len) = extents[k];
    let _dn = data.len();
    let mut v = copy_range(data, off as usize, (off + len) as usize);
    let mut rest = concat_extents_x(data, extents, k + 1);
    v.append(&mut rest);
    v
}

/// Index of the first location entry for item `id`, from position `k`.
pub open spec fn find_loc_from(locs: Seq<ItemLocationS>, id: u32, k: int) -> Option<int>
    decreases locs.len() - k,
{
    if k < 0 || k >= locs.len() {
        None
    } else if locs[k].item_id == id {
        Some(k)
    } else {
        find_loc_from(locs, id, k + 1)
    }
}

/// The data bytes of item `id`: the concatenated extents of its first
/// location entry, or `None` when the item has no location.
pub open spec fn item_data_spec(data: Seq<u8>, locs: Seq<ItemLocationS>, id: u32) -> Option<
    Seq<u8>,
> {
    match find_loc_from(locs, id, 0) {
        None => None,
        Some(k) => Some(concat_from(data, locs[k].extents, 0)),
    }
}

/// Extract the raw data bytes of item `id` from the container.
pub fn item_data(ctx: &HeifContext, id: u32) -> (r: Option<Vec<u8>>)
    requires
        wf(*ctx),
    ensures
        match r {
            Some(v) => item_data_spec(ctx.data@, locs_view(ctx.locations@), id) == Some(v@),
            None => item_data_spec(ctx.data@, locs_view(ctx.locations@), id) is None,
        },
{
    let n = ctx.locations.len();
    let mut k: usize = 0;
    while k < n
        invariant
            0 <= k <= n,
            find_loc_from(locs_view(ctx.locations@), id, 0) == find_loc_from(
                locs_view(ctx.locations@),
                id,
                k as int,
            ),
        decreases n - k,
    {
        if ctx.locations[k].item_id == id {
            let r = concat_extents_x(ctx.data.as_slice(), &ctx.locations[k].extents, 0);
            return Some(r);
        }
        k = k + 1;
    }
    None
}

} // verus!
