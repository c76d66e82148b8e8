//! Parsers for the item property boxes: the property container `ipco`,
//! the association box `ipma`, and the spatial-extents property `ispe`,
//! joined into per-item pixel dimensions.
use vstd::prelude::*;
use crate::bebytes::be16;
use crate::bebytes::be32;
use crate::bebytes::read_be16;
use crate::bebytes::read_be32;
use crate::boxes::box_at;
use crate::boxes::read_box;
use crate::boxes::FOURCC_ISPE;

verus! {

/// One slot of the property container `ipco`: either a spatial-extents
/// property with its width and height, or some other property this
/// reader carries only as an occupied slot.
#[derive(Clone, Copy, PartialEq, Eq, Structural)]
pub struct Prop {
    pub is_ispe: bool,
    pub width: u32,
    pub height: u32,
}

/// One `ipma` entry: an item id and its 1-based property indices.
pub struct Assoc {
    pub item_id: u32,
    pub prop_indices: Vec<u32>,
}

/// Mathematical image of an `Assoc`.
pub struct AssocS {
    pub item_id: u32,
    pub prop_indices: Seq<u32>,
}

impl View for Assoc {
    type V = AssocS;

    open spec fn view(&self) -> AssocS {
        AssocS { item_id: self.item_id, prop_indices: self.prop_indices@ }
    }
}

pub open spec fn assocs_view(v: Seq<Assoc>) -> Seq<AssocS> {
    v.map_values(|a: Assoc| a@)
}

/// The pixel dimensions associated with one item.
#[derive(Clone, Copy, PartialEq, Eq, Structural)]
pub struct ItemDims {
    pub item_id: u32,
    pub width: u32,
    pub height: u32,
}

/// The property boxes filling `s[i..end)`, in container order. An `ispe`
/// payload too short for its two extents is malformed; any other
/// property is kept as an opaque occupied slot.
pub open spec fn parse_props(s: Seq<u8>, i: int, end: int) -> Option<Seq<Prop>>
    decreases end - i,
{
    if i >= end {
        Some(Seq::empty())
    } else {
        match box_at(s, i, end) {
            None => None,
            Some((typ, ps, be)) => if typ == FOURCC_ISPE && ps + 12 > be {
                None
            } else {
                let p = if typ == FOURCC_ISPE {
                    Prop {
                        is_ispe: true,
                        width: be32(s, ps + 4) as u32,
                        height: be32(s, ps + 8) as u32,
                    }
                } else {
                    Prop { is_ispe: false, width: 0, height: 0 }
                };
                if i < be <= end {
                    match parse_props(s, be, end) {
                        None => None,
                        Some(rest) => Some(seq![p] + rest),
                    }
                } else {
                    None
                }
            },
        }
    }
}

/// Read the property container payload `s[ps..be)`.
pub fn read_props(s: &[u8], i: usize, end: usize) -> (r: Option<Vec<Prop>>)
    requires
        i <= end <= s@.len(),
    ensures
        match r {
            Some(v) => parse_props(s@, i as int, end as int) == Some(v@),
            None => parse_props(s@, i as int, end as int) is None,
        },
    decreases end - i,
{
    if i >= end {
        let v: Vec<Prop> = Vec::new();
        return Some(v);
    }
    match read_box(s, i, end) {
        None => None,
        Some(h) => {
            let p: Prop = if h.typ == FOURCC_ISPE {
                if h.box_end - h.payload < 12 {
                    return None;
                }
                Prop {
                    is_ispe: true,
                    width: read_be32(s, h.payload + 4),
                    height: read_be32(s, h.payload + 8),
                }
            } else {
                Prop { is_ispe: false, width: 0, height: 0 }
            };
            match read_props(s, h.box_end, end) {
                None => None,
                Some(rest) => {
                    let ghost grest = rest@;
                    let mut v: Vec<Prop> = Vec::new();
                    v.push(p);
                    let mut rest = rest;
                    v.append(&mut rest);
                    assert(v@ =~= seq![p] + grest);
                    Some(v)
                },
            }
        },
    }
}

/// The property indices of one association entry: `count` indices of 1
/// or 2 bytes, the essential bit masked off.
pub open spec fn parse_assoc_idx(s: Seq<u8>, i: int, end: int, count: int, wideidx: bool) -> Option<
    (Seq<u32>, int),
>
    decreases count,
{
    if count <= 0 {
        Some((Seq::empty(), i))
    } else {
        let step: int = if wideidx {
            2
        } else {
            1
        };
        if i + step > end || end > s.len() {
            None
        } else {
            let idx = (if wideidx {
                be16(s, i) % 0x8000
            } else {
                s[i] as int % 0x80
            }) as u32;
            match parse_assoc_idx(s, i + step, end, count - 1, wideidx) {
                None => None,
                Some((rest, j)) => Some((seq![idx] + rest, j)),
            }
        }
    }
}

/// `count` association entries starting at `s[i..)`.
pub open spec fn parse_assocs(
    s: Seq<u8>,
    i: int,
    end: int,
    count: int,
    wideid: bool,
    wideidx: bool,
) -> Option<Seq<AssocS>>
    decreases count,
{
    if count <= 0 {
        Some(Seq::empty())
    } else {
        let idsz: int = if wideid {
            4
        } else {
            2
        };
        if i + idsz + 1 > end || end > s.len() {
            None
        } else {
            let id = (if wideid {
                be32(s, i)
            } else {
                be16(s, i)
            }) as u32;
            let acount = s[i + idsz];
            match parse_assoc_idx(s, i + idsz + 1, end, acount as int, wideidx) {
                None => None,
                Some((ids, j)) => match parse_assocs(s, j, end, count - 1, wideid, wideidx) {
                    None => None,
                    Some(rest) => Some(
                        seq![AssocS { item_id: id, prop_indices: ids }] + rest,
                    ),
                },
            }
        }
    }
}

/// The property association box payload `s[ps..be)`: versions 0 and 1,
/// with the flag bit selecting 15-bit property indices.
pub open spec fn parse_ipma(s: Seq<u8>, ps: int, be: int) -> Option<Seq<AssocS>> {
    if ps + 8 > be || be > s.len() {
        None
    } else {
        let ver = s[ps];
        if ver > 1 {
            None
        } else {
            parse_assocs(s, ps + 8, be, be32(s, ps + 4), ver == 1, s[ps + 3] % 2 == 1)
        }
    }
}

fn read_assoc_idx(s: &[u8], i: usize, end: usize, count: u8, wideidx: bool) -> (r: Option<
    (Vec<u32>, usize),
>)
    requires
        i <= end <= s@.len(),
    ensures
        match r {
            Some((v, j)) => parse_assoc_idx(s@, i as int, end as int, count as int, wideidx)
                == Some((v@, j as int)) && i <= j <= end,
            None => parse_assoc_idx(s@, i as int, end as int, count as int, wideidx) is None,
        },
    decreases count,
{
    if count == 0 {
        let v: Vec<u32> = Vec::new();
        return Some((v, i));
    }
    let step: usize = if wideidx {
        2
    } else {
        1
    };
    if end - i < step {
        return None;
    }
    let idx: u32 = if wideidx {
        (read_be16(s, i) % 0x8000) as u32
    } else {
        (s[i] % 0x80) as u32
    };
    match read_assoc_idx(s, i + step, end, count - 1, wideidx) {
        None => None,
        Some((rest, j)) => {
            let ghost grest = rest@;
            let mut v: Vec<u32> = Vec::new();
            v.push(idx);
            let mut rest = rest;
            v.append(&mut rest);
            assert(v@ =~= seq![idx] + grest);
            Some((v, j))
        },
    }
}

fn read_assocs(s: &[u8], i: usize, end: usize, count: u32, wideid: bool, wideidx: bool) -> (r:
    Option<Vec<Assoc>>)
    requires
        i <= end <= s@.len(),
    ensures
        match r {
            Some(v) => parse_assocs(s@, i as int, end as int, count as int, wideid, wideidx)
                == Some(assocs_view(v@)),
            None => parse_assocs(s@, i as int, end as int, count as int, wideid, wideidx) is None,
        },
    decreases count,
{
    if count == 0 {
        let v: Vec<Assoc> = Vec::new();
        assert(assocs_view(v@) =~= Seq::<AssocS>::empty());
        return Some(v);
    }
    let idsz: usize = if wideid {
        4
    } else {
        2
    };
    if end - i < idsz + 1 {
        return None;
    }
    let id: u32 = if wideid {
        read_be32(s, i)
    } else {
        read_be16(s, i) as u32
    };
    let acount = s[i + idsz];
    match read_assoc_idx(s, i + idsz + 1, end, acount, wideidx) {
        None => None,
        Some((ids, j)) => {
            match read_assocs(s, j, end, count - 1, wideid, wideidx) {
                None => None,
                Some(rest) => {
                    let a = Assoc { item_id: id, prop_indices: ids };
                    let ghost ga = a@;
                    let ghost grest = assocs_view(rest@);
                    let mut v: Vec<Assoc> = Vec::new();
                    v.push(a);
                    let mut rest = rest;
                    v.append(&mut rest);
                    assert(assocs_view(v@) =~= seq![ga] + grest);
                    Some(v)
                },
            }
        },
    }
}

/// Read the property association box payload `s[ps..be)`.
pub fn read_ipma(s: &[u8], ps: usize, be: usize) -> (r: Option<Vec<Assoc>>)
    requires
        ps <= be <= s@.len(),
    ensures
        match r {
            Some(v) => parse_ipma(s@, ps as int, be as int) == Some(assocs_view(v@)),
            None => parse_ipma(s@, ps as int, be as int) is None,
        },
{
    if be - ps < 8 {
        return None;
    }
    let ver = s[ps];
    if ver > 1 {
        return None;
    }
    let count = read_be32(s, ps + 4);
    read_assocs(s, ps + 8, be, count, ver == 1, s[ps + 3] % 2 == 1)
}

/// The first spatial-extents property among `idx[k..]`, read from the
/// 1-based property slots in `props`. Out-of-range indices are skipped.
pub open spec fn first_ispe(idx: Seq<u32>, props: Seq<Prop>, k: int) -> Option<(u32, u32)>
    decreases idx.len() - k,
{
    if k < 0 || k >= idx.len() {
        None
    } else {
        let p = idx[k];
        if 1 <= p <= props.len() && props[p - 1].is_ispe {
            Some((props[p - 1].width, props[p - 1].height))
        } else {
            first_ispe(idx, props, k + 1)
        }
    }
}

/// The per-item dimensions induced by the first `n` association entries:
/// one record per entry whose property list names an `ispe` slot.
pub open spec fn dims_upto(assocs: Seq<AssocS>, props: Seq<Prop>, n: int) -> Seq<ItemDims>
    decreases n,
{
    if n <= 0 {
        Seq::empty()
    } else {
        dims_upto(assocs, props, n - 1) + (match first_ispe(assocs[n - 1].prop_indices, props, 0) {
            None => Seq::empty(),
            Some(wh) => seq![ItemDims { item_id: assocs[n - 1].item_id, width: wh.0, height: wh.1 }],
        })
    }
}

fn find_first_ispe(idx: &Vec<u32>, props: &Vec<Prop>) -> (r: Option<(u32, u32)>)
    ensures
        r == first_ispe(idx@, props@, 0),
{
    let n = idx.len();
    let m = props.len();
    let mut k: usize = 0;
    while k < n
        invariant
            0 <= k <= n,
            first_ispe(idx@, props@, 0) == first_ispe(idx@, props@, k as int),
        decreases n - k,
    {
        let p = idx[k];
        if 1 <= p && (p as usize) <= m {
            let slot = props[(p as usize) - 1];
            if slot.is_ispe {
                return Some((slot.width, slot.height));
            }
        }
        k = k + 1;
    }
    None
}

/// Join association entries with the property slots into per-item
/// dimensions, in association order.
pub fn build_dims(assocs: &Vec<Assoc>, props: &Vec<Prop>) -> (r: Vec<ItemDims>)
    ensures
        r@ == dims_upto(assocs_view(assocs@), props@, assocs@.len() as int),
{
    let n = assocs.len();
    let mut out: Vec<ItemDims> = Vec::new();
    let mut i: usize = 0;
    while i < n
        invariant
            0 <= i <= n,
            out@ == dims_upto(assocs_view(assocs@), props@, i as int),
        decreases n - i,
    {
        let ghost gpre = out@;
        match find_first_ispe(&assocs[i].prop_indices, props) {
            None => {
                assert(out@ =~= dims_upto(assocs_view(assocs@), props@, i + 1));
            },
            Some(wh) => {
                out.push(ItemDims { item_id: assocs[i].item_id, width: wh.0, height: wh.1 });
                assert(out@ =~= dims_upto(assocs_view(assocs@), props@, i + 1));
            },
        }
        i = i + 1;
    }
    out
}

} // verus!
