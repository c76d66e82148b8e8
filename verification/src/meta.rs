//! Parsers for the children of the `meta` box: the item info box `iinf`,
//! the item location box `iloc`, the item reference box `iref`, and the
//! primary item box `pitm`. Each exec reader returns exactly what the
//! corresponding spec-level parse function denotes.
use vstd::prelude::*;
use crate::bebytes::be16;
use crate::bebytes::be32;
use crate::bebytes::nul_pos;
use crate::bebytes::read_be16;
use crate::bebytes::read_be32;
use crate::bebytes::read_be64;
use crate::bebytes::read_sized_spec;
use crate::bebytes::copy_range;
use crate::bebytes::find_nul;
use crate::boxes::box_at;
use crate::boxes::read_box;
use crate::boxes::FOURCC_INFE;
use crate::boxes::FOURCC_MIME;

verus! {

/// One entry of the item info box: an item id, its four-character item
/// type, and (for `mime` items) the declared content type.
pub struct ItemInfo {
    pub item_id: u32,
    pub item_type: u32,
    pub content_type: Vec<u8>,
}

/// Mathematical image of an `ItemInfo`.
pub struct ItemInfoS {
    pub item_id: u32,
    pub item_type: u32,
    pub content_type: Seq<u8>,
}

impl View for ItemInfo {
    type V = ItemInfoS;

    open spec fn view(&self) -> ItemInfoS {
        ItemInfoS {
            item_id: self.item_id,
            item_type: self.item_type,
            content_type: self.content_type@,
        }
    }
}

pub open spec fn items_view(v: Seq<ItemInfo>) -> Seq<ItemInfoS> {
    v.map_values(|it: ItemInfo| it@)
}

/// One entry of the item location box: an item id and the byte extents
/// (absolute offset, length) holding its data.
pub struct ItemLocation {
    pub item_id: u32,
    pub extents: Vec<(u64, u64)>,
}

/// Mathematical image of an `ItemLocation`.
pub struct ItemLocationS {
    pub item_id: u32,
    pub extents: Seq<(u64, u64)>,
}

impl View for ItemLocation {
    type V = ItemLocationS;

    open spec fn view(&self) -> ItemLocationS {
        ItemLocationS { item_id: self.item_id, extents: self.extents@ }
    }
}

pub open spec fn locs_view(v: Seq<ItemLocation>) -> Seq<ItemLocationS> {
    v.map_values(|l: ItemLocation| l@)
}

/// One entry of the item reference box: a typed link from one item to a
/// list of target items.
pub struct ItemRef {
    pub ref_type: u32,
    pub from_id: u32,
    pub to_ids: Vec<u32>,
}

/// Mathematical image of an `ItemRef`.
pub struct ItemRefS {
    pub ref_type: u32,
    pub from_id: u32,
    pub to_ids: Seq<u32>,
}

impl View for ItemRef {
    type V = ItemRefS;

    open spec fn view(&self) -> ItemRefS {
        ItemRefS { ref_type: self.ref_type, from_id: self.from_id, to_ids: self.to_ids@ }
    }
}

pub open spec fn refs_view(v: Seq<ItemRef>) -> Seq<ItemRefS> {
    v.map_values(|r: ItemRef| r@)
}

// ---------------------------------------------------------------- iinf

/// One `infe` entry (payload `s[ps..be)`), versions 2 and 3. For `mime`
/// items the content type is the zero-terminated string following the
/// item name; a missing name terminator is malformed.
pub open spec fn parse_infe(s: Seq<u8>, ps: int, be: int) -> Option<ItemInfoS> {
    if ps + 4 > be || be > s.len() {
        None
    } else {
        let ver = s[ps];
        if ver == 2 || ver == 3 {
            let idlen: int = if ver == 2 {
                2
            } else {
                4
            };
            if ps + 10 + idlen > be {
                None
            } else {
                let id = (if ver == 2 {
                    be16(s, ps + 4)
                } else {
                    be32(s, ps + 4)
                }) as u32;
                let item_type = be32(s, ps + 6 + idlen) as u32;
                let nstart = ps + 10 + idlen;
                if item_type == FOURCC_MIME {
                    match nul_pos(s, nstart, be) {
                        None => None,
                        Some(p) => {
                            let cend = match nul_pos(s, p + 1, be) {
                                None => be,
                                Some(c) => c,
                            };
                            Some(
                                ItemInfoS {
                                    item_id: id,
                                    item_type,
                                    content_type: s.subrange(p + 1, cend),
                                },
                            )
                        },
                    }
                } else {
                    Some(ItemInfoS { item_id: id, item_type, content_type: Seq::empty() })
                }
            }
        } else {
            None
        }
    }
}

/// `count` consecutive `infe` boxes filling `s[i..)`, bounded by `end`.
pub open spec fn parse_infes(s: Seq<u8>, i: int, end: int, count: int) -> Option<Seq<ItemInfoS>>
    decreases count,
{
    if count <= 0 {
        Some(Seq::empty())
    } else {
        match box_at(s, i, end) {
            None => None,
            Some((typ, ps, be)) => if typ != FOURCC_INFE || !(i < be <= end) {
                None
            } else {
                match parse_infe(s, ps, be) {
                    None => None,
                    Some(info) => match parse_infes(s, be, end, count - 1) {
                        None => None,
                        Some(rest) => Some(seq![info] + rest),
                    },
                }
            },
        }
    }
}

/// The item info box payload `s[ps..be)`: entry count, then the entries.
pub open spec fn parse_iinf(s: Seq<u8>, ps: int, be: int) -> Option<Seq<ItemInfoS>> {
    if ps + 4 > be || be > s.len() {
        None
    } else {
        let ver = s[ps];
        if ver == 0 {
            if ps + 6 > be {
                None
            } else {
                parse_infes(s, ps + 6, be, be16(s, ps + 4))
            }
        } else {
            if ps + 8 > be {
                None
            } else {
                parse_infes(s, ps + 8, be, be32(s, ps + 4))
            }
        }
    }
}

fn read_infe(s: &[u8], ps: usize, be: usize) -> (r: Option<ItemInfo>)
    requires
        ps <= be <= s@.len(),
    ensures
        match r {
            Some(info) => parse_infe(s@, ps as int, be as int) == Some(info@),
            None => parse_infe(s@, ps as int, be as int) is None,
        },
{
    let _n = s.len();
    if be - ps < 4 {
        return None;
    }
    let ver = s[ps];
    if ver != 2 && ver != 3 {
        return None;
    }
    let idlen: usize = if ver == 2 {
        2
    } else {
        4
    };
    if be - ps < 10 + idlen {
        return None;
    }
    let id: u32 = if ver == 2 {
        read_be16(s, ps + 4) as u32
    } else {
        read_be32(s, ps + 4)
    };
    let item_type = read_be32(s, ps + 6 + idlen);
    let nstart = ps + 10 + idlen;
    if item_type == FOURCC_MIME {
        match find_nul(s, nstart, be) {
            None => None,
            Some(p) => {
                let cend: usize = match find_nul(s, p + 1, be) {
                    None => be,
                    Some(c) => c,
                };
                let ct = copy_range(s, p + 1, cend);
                Some(ItemInfo { item_id: id, item_type, content_type: ct })
            },
        }
    } else {
        Some(ItemInfo { item_id: id, item_type, content_type: Vec::new() })
    }
}

fn read_infes(s: &[u8], i: usize, end: usize, count: u32) -> (r: Option<Vec<ItemInfo>>)
    requires
        i <= end <= s@.len(),
    ensures
        match r {
            Some(v) => parse_infes(s@, i as int, end as int, count as int) == Some(items_view(v@)),
            None => parse_infes(s@, i as int, end as int, count as int) is None,
        },
    decreases count,
{
    if count == 0 {
        let v: Vec<ItemInfo> = Vec::new();
        assert(items_view(v@) =~= Seq::<ItemInfoS>::empty());
        return Some(v);
    }
    match read_box(s, i, end) {
        None => None,
        Some(h) => {
            if h.typ != FOURCC_INFE {
                return None;
            }
            match read_infe(s, h.payload, h.box_end) {
                None => None,
                Some(info) => {
                    match read_infes(s, h.box_end, end, count - 1) {
                        None => None,
                        Some(rest) => {
                            let ghost gi = info@;
                            let ghost grest = items_view(rest@);
                            let mut v: Vec<ItemInfo> = Vec::new();
                            v.push(info);
                            let mut rest = rest;
                            v.append(&mut rest);
                            assert(items_view(v@) =~= seq![gi] + grest);
                            Some(v)
                        },
                    }
                },
            }
        },
    }
}

/// Read the item info box payload `s[ps..be)`.
pub fn read_iinf(s: &[u8], ps: usize, be: usize) -> (r: Option<Vec<ItemInfo>>)
    requires
        ps <= be <= s@.len(),
    ensures
        match r {
            Some(v) => parse_iinf(s@, ps as int, be as int) == Some(items_view(v@)),
            None => parse_iinf(s@, ps as int, be as int) is None,
        },
{
    if be - ps < 4 {
        return None;
    }
    let ver = s[ps];
    if ver == 0 {
        if be - ps < 6 {
            return None;
        }
        let count = read_be16(s, ps + 4);
        read_infes(s, ps + 6, be, count as u32)
    } else {
        if be - ps < 8 {
            return None;
        }
        let count = read_be32(s, ps + 4);
        read_infes(s, ps + 8, be, count)
    }
}

// ---------------------------------------------------------------- iloc

pub open spec fn size_ok(x: int) -> bool {
    x == 0 || x == 4 || x == 8
}

/// The extents of one location entry: `count` records of
/// (skipped extent index, offset, length), each offset shifted by `base`.
/// Extents whose shifted offset overflows 64 bits are malformed.
pub open spec fn parse_extents(
    s: Seq<u8>,
    i: int,
    end: int,
    count: int,
    base: int,
    osz: int,
    lsz: int,
    isz: int,
) -> Option<(Seq<(u64, u64)>, int)>
    decreases count,
{
    if count <= 0 {
        Some((Seq::empty(), i))
    } else if i + isz + osz + lsz > end {
        None
    } else {
        let off = base + read_sized_spec(s, i + isz, osz);
        let len = read_sized_spec(s, i + isz + osz, lsz);
        if off > u64::MAX {
            None
        } else {
            match parse_extents(s, i + isz + osz + lsz, end, count - 1, base, osz, lsz, isz) {
                None => None,
                Some((rest, j)) => Some((seq![(off as u64, len as u64)] + rest, j)),
            }
        }
    }
}

/// One location entry at `s[i..)`. Only construction method 0 (absolute
/// file offsets) and data reference 0 (this file) are supported; anything
/// else is malformed for this reader.
pub open spec fn parse_loc_item(
    s: Seq<u8>,
    i: int,
    end: int,
    ver: int,
    osz: int,
    lsz: int,
    bsz: int,
    isz: int,
) -> Option<(ItemLocationS, int)> {
    let cmlen: int = if ver == 1 {
        2
    } else {
        0
    };
    if i + 6 + cmlen + bsz > end || end > s.len() {
        None
    } else {
        let id = be16(s, i) as u32;
        if ver == 1 && be16(s, i + 2) % 16 != 0 {
            None
        } else if be16(s, i + 2 + cmlen) != 0 {
            None
        } else {
            let base = read_sized_spec(s, i + 4 + cmlen, bsz);
            let ecount = be16(s, i + 4 + cmlen + bsz);
            match parse_extents(s, i + 6 + cmlen + bsz, end, ecount, base, osz, lsz, isz) {
                None => None,
                Some((exts, j)) => Some((ItemLocationS { item_id: id, extents: exts }, j)),
            }
        }
    }
}

/// `count` consecutive location entries starting at `s[i..)`.
pub open spec fn parse_loc_items(
    s: Seq<u8>,
    i: int,
    end: int,
    count: int,
    ver: int,
    osz: int,
    lsz: int,
    bsz: int,
    isz: int,
) -> Option<Seq<ItemLocationS>>
    decreases count,
{
    if count <= 0 {
        Some(Seq::empty())
    } else {
        match parse_loc_item(s, i, end, ver, osz, lsz, bsz, isz) {
            None => None,
            Some((loc, j)) => if i < j <= end {
                match parse_loc_items(s, j, end, count - 1, ver, osz, lsz, bsz, isz) {
                    None => None,
                    Some(rest) => Some(seq![loc] + rest),
                }
            } else {
                None
            },
        }
    }
}

/// The item location box payload `s[ps..be)`, versions 0 and 1, with
/// offset, length and base-offset sizes of 0, 4 or 8 bytes.
pub open spec fn parse_iloc(s: Seq<u8>, ps: int, be: int) -> Option<Seq<ItemLocationS>> {
    if ps + 8 > be || be > s.len() {
        None
    } else {
        let ver = s[ps];
        if ver > 1 {
            None
        } else {
            let osz = s[ps + 4] / 16;
            let lsz = s[ps + 4] % 16;
            let bsz = s[ps + 5] / 16;
            let isz: u8 = if ver == 1 {
                s[ps + 5] % 16
            } else {
                0
            };
            if !size_ok(osz as int) || !size_ok(lsz as int) || !size_ok(bsz as int) || !size_ok(
                isz as int,
            ) {
                None
            } else {
                parse_loc_items(
                    s,
                    ps + 8,
                    be,
                    be16(s, ps + 6),
                    ver as int,
                    osz as int,
                    lsz as int,
                    bsz as int,
                    isz as int,
                )
            }
        }
    }
}

fn read_sized(s: &[u8], i: usize, sz: usize) -> (r: u64)
    requires
        size_ok(sz as int),
        i + sz <= s@.len(),
    ensures
        r == read_sized_spec(s@, i as int, sz as int),
{
    if sz == 0 {
        0
    } else if sz == 4 {
        read_be32(s, i) as u64
    } else {
        read_be64(s, i)
    }
}

fn read_extents(
    s: &[u8],
    i: usize,
    end: usize,
    count: u16,
    base: u64,
    osz: usize,
    lsz: usize,
    isz: usize,
) -> (r: Option<(Vec<(u64, u64)>, usize)>)
    requires
        i <= end <= s@.len(),
        size_ok(osz as int),
        size_ok(lsz as int),
        size_ok(isz as int),
    ensures
        match r {
            Some((v, j)) => parse_extents(
                s@,
                i as int,
                end as int,
                count as int,
                base as int,
                osz as int,
                lsz as int,
                isz as int,
            ) == Some((v@, j as int)) && i <= j <= end,
            None => parse_extents(
                s@,
                i as int,
                end as int,
                count as int,
                base as int,
                osz as int,
                lsz as int,
                isz as int,
            ) is None,
        },
    decreases count,
{
    if count == 0 {
        let v: Vec<(u64, u64)> = Vec::new();
        return Some((v, i));
    }
    if end - i < isz + osz + lsz {
        return None;
    }
    let eoff = read_sized(s, i + isz, osz);
    let elen = read_sized(s, i + isz + osz, lsz);
    if eoff > u64::MAX - base {
        return None;
    }
    let off = base + eoff;
    match read_extents(s, i + isz + osz + lsz, end, count - 1, base, osz, lsz, isz) {
        None => None,
        Some((rest, j)) => {
            let ghost grest = rest@;
            let mut v: Vec<(u64, u64)> = Vec::new();
            v.push((off, elen));
            let mut rest = rest;
            v.append(&mut rest);
            assert(v@ =~= seq![(off, elen)] + grest);
            Some((v, j))
        },
    }
}

fn read_loc_item(
    s: &[u8],
    i: usize,
    end: usize,
    ver: u8,
    osz: usize,
    lsz: usize,
    bsz: usize,
    isz: usize,
) -> (r: Option<(ItemLocation, usize)>)
    requires
        i <= end <= s@.len(),
        ver <= 1,
        size_ok(osz as int),
        size_ok(lsz as int),
        size_ok(bsz as int),
        size_ok(isz as int),
    ensures
        match r {
            Some((loc, j)) => parse_loc_item(
                s@,
                i as int,
                end as int,
                ver as int,
                osz as int,
                lsz as int,
                bsz as int,
                isz as int,
            ) == Some((loc@, j as int)) && i < j <= end,
            None => parse_loc_item(
                s@,
                i as int,
                end as int,
                ver as int,
                osz as int,
                lsz as int,
                bsz as int,
                isz as int,
            ) is None,
        },
{
    let cmlen: usize = if ver == 1 {
        2
    } else {
        0
    };
    if end - i < 6 + cmlen + bsz {
        return None;
    }
    let id = read_be16(s, i) as u32;
    if ver == 1 && read_be16(s, i + 2) % 16 != 0 {
        return None;
    }
    if read_be16(s, i + 2 + cmlen) != 0 {
        return None;
    }
    let base = read_sized(s, i + 4 + cmlen, bsz);
    let ecount = read_be16(s, i + 4 + cmlen + bsz);
    match read_extents(s, i + 6 + cmlen + bsz, end, ecount, base, osz, lsz, isz) {
        None => None,
        Some((exts, j)) => Some((ItemLocation { item_id: id, extents: exts }, j)),
    }
}

fn read_loc_items(
    s: &[u8],
    i: usize,
    end: usize,
    count: u16,
    ver: u8,
    osz: usize,
    lsz: usize,
    bsz: usize,
    isz: usize,
) -> (r: Option<Vec<ItemLocation>>)
    requires
        i <= end <= s@.len(),
        ver <= 1,
        size_ok(osz as int),
        size_ok(lsz as int),
        size_ok(bsz as int),
        size_ok(isz as int),
    ensures
        match r {
            Some(v) => parse_loc_items(
                s@,
                i as int,
                end as int,
                count as int,
                ver as int,
                osz as int,
                lsz as int,
                bsz as int,
                isz as int,
            ) == Some(locs_view(v@)),
            None => parse_loc_items(
                s@,
                i as int,
                end as int,
                count as int,
                ver as int,
                osz as int,
                lsz as int,
                bsz as int,
                isz as int,
            ) is None,
        },
    decreases count,
{
    if count == 0 {
        let v: Vec<ItemLocation> = Vec::new();
        assert(locs_view(v@) =~= Seq::<ItemLocationS>::empty());
        return Some(v);
    }
    match read_loc_item(s, i, end, ver, osz, lsz, bsz, isz) {
        None => None,
        Some((loc, j)) => {
            match read_loc_items(s, j, end, count - 1, ver, osz, lsz, bsz, isz) {
                None => None,
                Some(rest) => {
                    let ghost gl = loc@;
                    let ghost grest = locs_view(rest@);
                    let mut v: Vec<ItemLocation> = Vec::new();
                    v.push(loc);
                    let mut rest = rest;
                    v.append(&mut rest);
                    assert(locs_view(v@) =~= seq![gl] + grest);
                    Some(v)
                },
            }
        },
    }
}

/// Read the item location box payload `s[ps..be)`.
pub fn read_iloc(s: &[u8], ps: usize, be: usize) -> (r: Option<Vec<ItemLocation>>)
    requires
        ps <= be <= s@.len(),
    ensures
        match r {
            Some(v) => parse_iloc(s@, ps as int, be as int) == Some(locs_view(v@)),
            None => parse_iloc(s@, ps as int, be as int) is None,
        },
{
    if be - ps < 8 {
        return None;
    }
    let ver = s[ps];
    if ver > 1 {
        return None;
    }
    let osz = (s[ps + 4] / 16) as usize;
    let lsz = (s[ps + 4] % 16) as usize;
    let bsz = (s[ps + 5] / 16) as usize;
    let isz: usize = if ver == 1 {
        (s[ps + 5] % 16) as usize
    } else {
        0
    };
    if !(osz == 0 || osz == 4 || osz == 8) {
        return None;
    }
    if !(lsz == 0 || lsz == 4 || lsz == 8) {
        return None;
    }
    if !(bsz == 0 || bsz == 4 || bsz == 8) {
        return None;
    }
    if !(isz == 0 || isz == 4 || isz == 8) {
        return None;
    }
    let count = read_be16(s, ps + 6);
    read_loc_items(s, ps + 8, be, count, ver, osz, lsz, bsz, isz)
}

// ---------------------------------------------------------------- iref

/// The id list of one reference entry: `count` ids of 2 or 4 bytes.
pub open spec fn parse_id_list(s: Seq<u8>, i: int, end: int, count: int, wide: bool) -> Option<
    Seq<u32>,
>
    decreases count,
{
    if count <= 0 {
        Some(Seq::empty())
    } else {
        let idsz: int = if wide {
            4
        } else {
            2
        };
        if i + idsz > end || end > s.len() {
            None
        } else {
            let id = (if wide {
                be32(s, i)
            } else {
                be16(s, i)
            }) as u32;
            match parse_id_list(s, i + idsz, end, count - 1, wide) {
                None => None,
                Some(rest) => Some(seq![id] + rest),
            }
        }
    }
}

/// One reference entry (a child box of `iref` whose type is the reference
/// type): the referencing item, then the referenced items.
pub open spec fn parse_ref_payload(s: Seq<u8>, ps: int, be: int, wide: bool, typ: u32) -> Option<
    ItemRefS,
> {
    let idsz: int = if wide {
        4
    } else {
        2
    };
    if ps + idsz + 2 > be || be > s.len() {
        None
    } else {
        let from = (if wide {
            be32(s, ps)
        } else {
            be16(s, ps)
        }) as u32;
        let cnt = be16(s, ps + idsz);
        match parse_id_list(s, ps + idsz + 2, be, cnt, wide) {
            None => None,
            Some(ids) => Some(ItemRefS { ref_type: typ, from_id: from, to_ids: ids }),
        }
    }
}

/// The reference entries filling `s[i..end)` exactly.
pub open spec fn parse_ref_entries(s: Seq<u8>, i: int, end: int, wide: bool) -> Option<
    Seq<ItemRefS>,
>
    decreases end - i,
{
    if i >= end {
        Some(Seq::empty())
    } else {
        match box_at(s, i, end) {
            None => None,
            Some((typ, ps, be)) => match parse_ref_payload(s, ps, be, wide, typ) {
                None => None,
                Some(entry) => if i < be <= end {
                    match parse_ref_entries(s, be, end, wide) {
                        None => None,
                        Some(rest) => Some(seq![entry] + rest),
                    }
                } else {
                    None
                },
            },
        }
    }
}

/// The item reference box payload `s[ps..be)`, versions 0 (16-bit ids)
/// and 1 (32-bit ids).
pub open spec fn parse_iref(s: Seq<u8>, ps: int, be: int) -> Option<Seq<ItemRefS>> {
    if ps + 4 > be || be > s.len() {
        None
    } else {
        let ver = s[ps];
        if ver > 1 {
            None
        } else {
            parse_ref_entries(s, ps + 4, be, ver == 1)
        }
    }
}

fn read_id_list(s: &[u8], i: usize, end: usize, count: u16, wide: bool) -> (r: Option<Vec<u32>>)
    requires
        i <= end <= s@.len(),
    ensures
        match r {
            Some(v) => parse_id_list(s@, i as int, end as int, count as int, wide) == Some(v@),
            None => parse_id_list(s@, i as int, end as int, count as int, wide) is None,
        },
    decreases count,
{
    if count == 0 {
        let v: Vec<u32> = Vec::new();
        return Some(v);
    }
    let idsz: usize = if wide {
        4
    } else {
        2
    };
    if end - i < idsz {
        return None;
    }
    let id: u32 = if wide {
        read_be32(s, i)
    } else {
        read_be16(s, i) as u32
    };
    match read_id_list(s, i + idsz, end, count - 1, wide) {
        None => None,
        Some(rest) => {
            let ghost grest = rest@;
            let mut v: Vec<u32> = Vec::new();
            v.push(id);
            let mut rest = rest;
            v.append(&mut rest);
            assert(v@ =~= seq![id] + grest);
            Some(v)
        },
    }
}

fn read_ref_payload(s: &[u8], ps: usize, be: usize, wide: bool, typ: u32) -> (r: Option<ItemRef>)
    requires
        ps <= be <= s@.len(),
    ensures
        match r {
            Some(e) => parse_ref_payload(s@, ps as int, be as int, wide, typ) == Some(e@),
            None => parse_ref_payload(s@, ps as int, be as int, wide, typ) is None,
        },
{
    let idsz: usize = if wide {
        4
    } else {
        2
    };
    if be - ps < idsz + 2 {
        return None;
    }
    let from: u32 = if wide {
        read_be32(s, ps)
    } else {
        read_be16(s, ps) as u32
    };
    let cnt = read_be16(s, ps + idsz);
    match read_id_list(s, ps + idsz + 2, be, cnt, wide) {
        None => None,
        Some(ids) => Some(ItemRef { ref_type: typ, from_id: from, to_ids: ids }),
    }
}

fn read_ref_entries(s: &[u8], i: usize, end: usize, wide: bool) -> (r: Option<Vec<ItemRef>>)
    requires
        i <= end <= s@.len(),
    ensures
        match r {
            Some(v) => parse_ref_entries(s@, i as int, end as int, wide) == Some(refs_view(v@)),
            None => parse_ref_entries(s@, i as int, end as int, wide) is None,
        },
    decreases end - i,
{
    if i >= end {
        let v: Vec<ItemRef> = Vec::new();
        assert(refs_view(v@) =~= Seq::<ItemRefS>::empty());
        return Some(v);
    }
    match read_box(s, i, end) {
        None => None,
        Some(h) => {
            match read_ref_payload(s, h.payload, h.box_end, wide, h.typ) {
                None => None,
                Some(entry) => {
                    match read_ref_entries(s, h.box_end, end, wide) {
                        None => None,
                        Some(rest) => {
                            let ghost ge = entry@;
                            let ghost grest = refs_view(rest@);
                            let mut v: Vec<ItemRef> = Vec::new();
                            v.push(entry);
                            let mut rest = rest;
                            v.append(&mut rest);
                            assert(refs_view(v@) =~= seq![ge] + grest);
                            Some(v)
                        },
                    }
                },
            }
        },
    }
}

/// Read the item reference box payload `s[ps..be)`.
pub fn read_iref(s: &[u8], ps: usize, be: usize) -> (r: Option<Vec<ItemRef>>)
    requires
        ps <= be <= s@.len(),
    ensures
        match r {
            Some(v) => parse_iref(s@, ps as int, be as int) == Some(refs_view(v@)),
            None => parse_iref(s@, ps as int, be as int) is None,
        },
{
    if be - ps < 4 {
        return None;
    }
    let ver = s[ps];
    if ver > 1 {
        return None;
    }
    read_ref_entries(s, ps + 4, be, ver == 1)
}

// ---------------------------------------------------------------- pitm

/// The primary item box payload `s[ps..be)`: the primary item's id.
pub open spec fn parse_pitm(s: Seq<u8>, ps: int, be: int) -> Option<u32> {
    if ps + 4 > be || be > s.len() {
        None
    } else {
        let ver = s[ps];
        if ver == 0 {
            if ps + 6 > be {
                None
            } else {
                Some(be16(s, ps + 4) as u32)
            }
        } else if ver == 1 {
            if ps + 8 > be {
                None
            } else {
                Some(be32(s, ps + 4) as u32)
            }
        } else {
            None
        }
    }
}

/// Read the primary item box payload `s[ps..be)`.
pub fn read_pitm(s: &[u8], ps: usize, be: usize) -> (r: Option<u32>)
    requires
        ps <= be <= s@.len(),
    ensures
        r == parse_pitm(s@, ps as int, be as int),
{
    if be - ps < 4 {
        return None;
    }
    let ver = s[ps];
    if ver == 0 {
        if be - ps < 6 {
            return None;
        }
        Some(read_be16(s, ps + 4) as u32)
    } else if ver == 1 {
        if be - ps < 8 {
            return None;
        }
        Some(read_be32(s, ps + 4))
    } else {
        None
    }
}

} // verus!
