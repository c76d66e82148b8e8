//! ISO-BMFF box structure: headers with 32-bit and 64-bit size fields, and
//! first-match scanning for a box of a given type inside a byte range.
use vstd::prelude::*;
use crate::bebytes::be32;
use crate::bebytes::be64;
use crate::bebytes::read_be32;
use crate::bebytes::read_be64;

verus! {

// Four-character codes of the boxes this reader knows, as big-endian u32.
pub const FOURCC_FTYP: u32 = 0x6674_7970;

pub const FOURCC_META: u32 = 0x6D65_7461;

pub const FOURCC_HDLR: u32 = 0x6864_6C72;

pub const FOURCC_PITM: u32 = 0x7069_746D;

pub const FOURCC_IINF: u32 = 0x6969_6E66;

pub const FOURCC_INFE: u32 = 0x696E_6665;

pub const FOURCC_ILOC: u32 = 0x696C_6F63;

pub const FOURCC_IREF: u32 = 0x6972_6566;

pub const FOURCC_IPRP: u32 = 0x6970_7270;

pub const FOURCC_IPCO: u32 = 0x6970_636F;

pub const FOURCC_IPMA: u32 = 0x6970_6D61;

pub const FOURCC_ISPE: u32 = 0x6973_7065;

pub const FOURCC_MIME: u32 = 0x6D69_6D65;

pub const FOURCC_HVC1: u32 = 0x6876_6331;

pub const FOURCC_AV01: u32 = 0x6176_3031;

pub const FOURCC_GRID: u32 = 0x6772_6964;

pub const FOURCC_PICT: u32 = 0x7069_6374;

pub const FOURCC_THMB: u32 = 0x7468_6D62;

pub const FOURCC_AUXL: u32 = 0x6175_786C;

pub const FOURCC_CDSC: u32 = 0x6364_7363;

/// A parsed box header: the box type, where its payload starts, and where
/// the whole box ends, as offsets into the surrounding buffer.
pub struct BoxHeader {
    pub typ: u32,
    pub payload: usize,
    pub box_end: usize,
}

/// The box starting at offset `i` of `s`, bounded by `end`:
/// `Some((type, payload_start, box_end))`, or `None` when the header is
/// truncated or the declared size is impossible. A size field of 0 means
/// "to the end of the enclosing range"; a size field of 1 switches to the
/// 64-bit size that follows the type.
pub open spec fn box_at(s: Seq<u8>, i: int, end: int) -> Option<(u32, int, int)> {
    if i + 8 > end {
        None
    } else {
        let size32 = be32(s, i);
        let typ = be32(s, i + 4) as u32;
        if size32 == 0 {
            Some((typ, i + 8, end))
        } else if size32 == 1 {
            if i + 16 > end {
                None
            } else {
                let size64 = be64(s, i + 8);
                if size64 < 16 || i + size64 > end {
                    None
                } else {
                    Some((typ, i + 16, i + size64))
                }
            }
        } else if size32 < 8 || i + size32 > end {
            None
        } else {
            Some((typ, i + 8, i + size32))
        }
    }
}

/// Read the box header at offset `i`, bounded by `end`.
pub fn read_box(s: &[u8], i: usize, end: usize) -> (r: Option<BoxHeader>)
    requires
        i <= end <= s@.len(),
    ensures
        match r {
            Some(h) => box_at(s@, i as int, end as int) == Some(
                (h.typ, h.payload as int, h.box_end as int),
            ) && i + 8 <= h.payload <= h.box_end <= end && h.payload <= i + 16,
            None => box_at(s@, i as int, end as int) is None,
        },
{
    let _n = s.len();
    if end - i < 8 {
        return None;
    }
    let size32 = read_be32(s, i);
    let typ = read_be32(s, i + 4);
    if size32 == 0 {
        Some(BoxHeader { typ, payload: i + 8, box_end: end })
    } else if size32 == 1 {
        if end - i < 16 {
            return None;
        }
        let size64 = read_be64(s, i + 8);
        if size64 < 16 || size64 > (end - i) as u64 {
            return None;
        }
        Some(BoxHeader { typ, payload: i + 16, box_end: i + size64 as usize })
    } else if size32 < 8 {
        None
    } else if size32 as u64 > (end - i) as u64 {
        None
    } else {
        Some(BoxHeader { typ, payload: i + 8, box_end: i + size32 as usize })
    }
}

/// Payload range of the first box of type `t` in the box sequence filling
/// `s[i..end)`, or `None` if no such box is found before the scan runs off
/// a malformed header.
pub open spec fn find_box_spec(s: Seq<u8>, i: int, end: int, t: u32) -> Option<(int, int)>
    decreases end - i,
{
    match box_at(s, i, end) {
        None => None,
        Some((typ, ps, be)) => if typ == t {
            Some((ps, be))
        } else {
            if i < be <= end {
                find_box_spec(s, be, end, t)
            } else {
                None
            }
        },
    }
}

/// Scan `s[start..end)` for the first box of type `t`.
pub fn find_box(s: &[u8], start: usize, end: usize, t: u32) -> (r: Option<(usize, usize)>)
    requires
        start <= end <= s@.len(),
    ensures
        match r {
            Some((ps, be)) => find_box_spec(s@, start as int, end as int, t) == Some(
                (ps as int, be as int),
            ) && start < ps <= be <= end,
            None => find_box_spec(s@, start as int, end as int, t) is None,
        },
{
    let mut i: usize = start;
    loop
        invariant
            start <= i <= end,
            find_box_spec(s@, start as int, end as int, t) == find_box_spec(
                s@,
                i as int,
                end as int,
                t,
            ),
        decreases end - i,
    {
        match read_box(s, i, end) {
            None => {
                return None;
            },
            Some(h) => {
                if h.typ == t {
                    return Some((h.payload, h.box_end));
                }
                i = h.box_end;
            },
        }
    }
}

} // verus!
