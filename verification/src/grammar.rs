//! The world-file byte grammar, written down once as specification
//! functions over byte sequences.
//!
//! Every parsing function of the crate is specified against these
//! definitions: a stage either yields a value together with the cursor
//! offset just past what it consumed, or stops short at the offset where
//! the bytes ran out.

use crate::world_loader::Tile;
use vstd::prelude::*;
use vstd::utf8::{decode_utf8, valid_utf8};

verus! {

/// Outcome of parsing one grammar element starting at some offset:
/// either the parsed value and the offset just past it, or the offset at
/// which the input ran out.
pub enum Parsed<T> {
    Val(T, int),
    Short(int),
}

/// What `String::from_utf8_lossy` returns for the given bytes. Left
/// uninterpreted except on valid UTF-8 input, which decodes to exactly its
/// characters (see `text_of`).
pub uninterp spec fn lossy_decode(bytes: Seq<u8>) -> Seq<char>;

/// The text the cursor produces for a length-prefixed byte run: valid
/// UTF-8 decodes exactly; anything else decodes permissively, with
/// malformed sequences replaced rather than rejected.
pub open spec fn text_of(bytes: Seq<u8>) -> Seq<char> {
    if valid_utf8(bytes) {
        decode_utf8(bytes)
    } else {
        lossy_decode(bytes)
    }
}

/// Little-endian 16-bit value stored at offset `p`.
pub open spec fn le16_at(b: Seq<u8>, p: int) -> int
    recommends
        0 <= p,
        p + 2 <= b.len(),
{
    b[p] + 0x100 * b[p + 1]
}

/// Little-endian 32-bit value stored at offset `p`.
pub open spec fn le32_at(b: Seq<u8>, p: int) -> int
    recommends
        0 <= p,
        p + 4 <= b.len(),
{
    b[p] + 0x100 * b[p + 1] + 0x1_0000 * b[p + 2] + 0x100_0000 * b[p + 3]
}

/// Little-endian 64-bit value stored at offset `p`.
pub open spec fn le64_at(b: Seq<u8>, p: int) -> int
    recommends
        0 <= p,
        p + 8 <= b.len(),
{
    b[p] + 0x100 * b[p + 1] + 0x1_0000 * b[p + 2] + 0x100_0000 * b[p + 3] + 0x1_0000_0000 * b[p
        + 4] + 0x100_0000_0000 * b[p + 5] + 0x1_0000_0000_0000 * b[p + 6] + 0x100_0000_0000_0000
        * b[p + 7]
}

/// Two's-complement reading of an unsigned 16-bit value.
pub open spec fn as_i16(u: int) -> int
    recommends
        0 <= u < 0x1_0000,
{
    if u < 0x8000 {
        u
    } else {
        u - 0x1_0000
    }
}

/// Two's-complement reading of an unsigned 32-bit value.
pub open spec fn as_i32(u: int) -> int
    recommends
        0 <= u < 0x1_0000_0000,
{
    if u < 0x8000_0000 {
        u
    } else {
        u - 0x1_0000_0000
    }
}

/// Two's-complement reading of an unsigned 64-bit value.
pub open spec fn as_i64(u: int) -> int
    recommends
        0 <= u < 0x1_0000_0000_0000_0000,
{
    if u < 0x8000_0000_0000_0000 {
        u
    } else {
        u - 0x1_0000_0000_0000_0000
    }
}

/// A length-prefixed string: a little-endian 32-bit byte count, then that
/// many bytes of text. Stops short at `p` if the prefix does not fit, and
/// at `p + 4` if the payload does not.
pub open spec fn string_parse(b: Seq<u8>, p: int) -> Parsed<Seq<char>>
    recommends
        0 <= p <= b.len(),
{
    if p + 4 > b.len() {
        Parsed::Short(p)
    } else {
        let n = le32_at(b, p);
        if p + 4 + n > b.len() {
            Parsed::Short(p + 4)
        } else {
            Parsed::Val(text_of(b.subrange(p + 4, p + 4 + n)), p + 4 + n)
        }
    }
}

/// The tile whose every field holds its zero or false default. An inactive
/// cell decodes to exactly this value.
pub open spec fn empty_tile() -> Tile {
    Tile {
        tile_id: 0,
        wall_id: 0,
        liquid: 0,
        is_active: false,
        is_actuated: false,
        color: 0,
        u: 0,
        v: 0,
        brick_style: 0,
        full: false,
        half_brick: false,
        slope: 0,
        wire_red: false,
        wire_blue: false,
        wire_green: false,
        wire_yellow: false,
        actuator: false,
        in_active: false,
        wall_color: 0,
        wall_u: 0,
        wall_v: 0,
        wall_full: false,
        wall_half_brick: false,
        wall_slope: 0,
    }
}

/// A tile as the byte grammar can actually produce it: widened fields stay
/// inside their wire widths, and an inactive tile carries no block data.
pub open spec fn tile_canonical(t: Tile) -> bool {
    &&& 0 <= t.tile_id < 0x1_0000
    &&& 0 <= t.wall_id < 0x1_0000
    &&& 0 <= t.liquid < 0x1_0000
    &&& 0 <= t.color < 0x100
    &&& 0 <= t.wall_color < 0x100
    &&& 0 <= t.u < 0x1_0000
    &&& 0 <= t.v < 0x1_0000
    &&& 0 <= t.brick_style < 0x100
    &&& 0 <= t.slope < 0x100
    &&& 0 <= t.wall_u < 0x1_0000
    &&& 0 <= t.wall_v < 0x1_0000
    &&& 0 <= t.wall_slope < 0x100
    &&& !t.is_active ==> t == empty_tile()
}

/// The style-and-wiring tail every active tile record ends with, in wire
/// order.
pub struct TileTail {
    pub u: i32,
    pub v: i32,
    pub brick_style: i32,
    pub full: bool,
    pub half_brick: bool,
    pub slope: i32,
    pub wire_red: bool,
    pub wire_blue: bool,
    pub wire_green: bool,
    pub wire_yellow: bool,
    pub actuator: bool,
    pub in_active: bool,
    pub wall_u: i32,
    pub wall_v: i32,
    pub wall_full: bool,
    pub wall_half_brick: bool,
    pub wall_slope: i32,
}

/// The fixed 21-byte tail of an active tile record, starting at `p`:
/// `u`, `v` (16 bits each), `brick_style`, `full`, `half_brick`, `slope`,
/// the four wire flags, `actuator`, `in_active`, then the wall style
/// block.
pub open spec fn tile_tail_parse(b: Seq<u8>, p: int) -> Parsed<TileTail>
    recommends
        0 <= p <= b.len(),
{
    if p + 2 > b.len() {
        Parsed::Short(p)
    } else if p + 4 > b.len() {
        Parsed::Short(p + 2)
    } else if p + 5 > b.len() {
        Parsed::Short(p + 4)
    } else if p + 6 > b.len() {
        Parsed::Short(p + 5)
    } else if p + 7 > b.len() {
        Parsed::Short(p + 6)
    } else if p + 8 > b.len() {
        Parsed::Short(p + 7)
    } else if p + 9 > b.len() {
        Parsed::Short(p + 8)
    } else if p + 10 > b.len() {
        Parsed::Short(p + 9)
    } else if p + 11 > b.len() {
        Parsed::Short(p + 10)
    } else if p + 12 > b.len() {
        Parsed::Short(p + 11)
    } else if p + 13 > b.len() {
        Parsed::Short(p + 12)
    } else if p + 14 > b.len() {
        Parsed::Short(p + 13)
    } else if p + 16 > b.len() {
        Parsed::Short(p + 14)
    } else if p + 18 > b.len() {
        Parsed::Short(p + 16)
    } else if p + 19 > b.len() {
        Parsed::Short(p + 18)
    } else if p + 20 > b.len() {
        Parsed::Short(p + 19)
    } else if p + 21 > b.len() {
        Parsed::Short(p + 20)
    } else {
        Parsed::Val(
            TileTail {
                u: le16_at(b, p) as i32,
                v: le16_at(b, p + 2) as i32,
                brick_style: b[p + 4] as i32,
                full: b[p + 5] != 0,
                half_brick: b[p + 6] != 0,
                slope: b[p + 7] as i32,
                wire_red: b[p + 8] != 0,
                wire_blue: b[p + 9] != 0,
                wire_green: b[p + 10] != 0,
                wire_yellow: b[p + 11] != 0,
                actuator: b[p + 12] != 0,
                in_active: b[p + 13] != 0,
                wall_u: le16_at(b, p + 14) as i32,
                wall_v: le16_at(b, p + 16) as i32,
                wall_full: b[p + 18] != 0,
                wall_half_brick: b[p + 19] != 0,
                wall_slope: b[p + 20] as i32,
            },
            p + 21,
        )
    }
}

/// The body of an active tile record, starting just past its `is_active`
/// byte: the two identifiers, the flag-gated liquid amount and colors,
/// then the fixed tail.
pub open spec fn tile_body_parse(b: Seq<u8>, p: int) -> Parsed<Tile>
    recommends
        0 <= p <= b.len(),
{
    if p + 2 > b.len() {
        Parsed::Short(p)
    } else if p + 4 > b.len() {
        Parsed::Short(p + 2)
    } else {
        let tile_id = le16_at(b, p) as i32;
        let wall_id = le16_at(b, p + 2) as i32;
        let q1 = p + 4;
        if q1 + 1 > b.len() {
            Parsed::Short(q1)
        } else {
            let has_liquid = b[q1] != 0;
            let liquid: i32 = if has_liquid {
                if q1 + 3 > b.len() {
                    0
                } else {
                    le16_at(b, q1 + 1) as i32
                }
            } else {
                0
            };
            if has_liquid && q1 + 3 > b.len() {
                Parsed::Short(q1 + 1)
            } else {
                let q2 = if has_liquid {
                    q1 + 3
                } else {
                    q1 + 1
                };
                if q2 + 1 > b.len() {
                    Parsed::Short(q2)
                } else {
                    let is_actuated = b[q2] != 0;
                    let q3 = q2 + 1;
                    if q3 + 1 > b.len() {
                        Parsed::Short(q3)
                    } else {
                        let has_color = b[q3] != 0;
                        if has_color && q3 + 2 > b.len() {
                            Parsed::Short(q3 + 1)
                        } else {
                            let color: i32 = if has_color {
                                b[q3 + 1] as i32
                            } else {
                                0
                            };
                            let q4 = if has_color {
                                q3 + 2
                            } else {
                                q3 + 1
                            };
                            if q4 + 1 > b.len() {
                                Parsed::Short(q4)
                            } else {
                                let has_wall_color = b[q4] != 0;
                                if has_wall_color && q4 + 2 > b.len() {
                                    Parsed::Short(q4 + 1)
                                } else {
                                    let wall_color: i32 = if has_wall_color {
                                        b[q4 + 1] as i32
                                    } else {
                                        0
                                    };
                                    let q5 = if has_wall_color {
                                        q4 + 2
                                    } else {
                                        q4 + 1
                                    };
                                    match tile_tail_parse(b, q5) {
                                        Parsed::Short(q) => Parsed::Short(q),
                                        Parsed::Val(tail, e) => Parsed::Val(
                                            Tile {
                                                tile_id,
                                                wall_id,
                                                liquid,
                                                is_active: true,
                                                is_actuated,
                                                color,
                                                u: tail.u,
                                                v: tail.v,
                                                brick_style: tail.brick_style,
                                                full: tail.full,
                                                half_brick: tail.half_brick,
                                                slope: tail.slope,
                                                wire_red: tail.wire_red,
                                                wire_blue: tail.wire_blue,
                                                wire_green: tail.wire_green,
                                                wire_yellow: tail.wire_yellow,
                                                actuator: tail.actuator,
                                                in_active: tail.in_active,
                                                wall_color,
                                                wall_u: tail.wall_u,
                                                wall_v: tail.wall_v,
                                                wall_full: tail.wall_full,
                                                wall_half_brick: tail.wall_half_brick,
                                                wall_slope: tail.wall_slope,
                                            },
                                            e,
                                        ),
                                    }
                                }
                            }
                        }
                    }
                }
            }
        }
    }
}

/// One tile record: the `is_active` byte, then — for an active cell only —
/// the record body. An inactive cell consumes exactly one byte and yields
/// the all-defaults tile.
pub open spec fn tile_parse(b: Seq<u8>, p: int) -> Parsed<Tile>
    recommends
        0 <= p <= b.len(),
{
    if p + 1 > b.len() {
        Parsed::Short(p)
    } else if b[p] == 0 {
        Parsed::Val(empty_tile(), p + 1)
    } else {
        tile_body_parse(b, p + 1)
    }
}

/// Number of section offsets the file-format header declares, clamped at
/// zero: a negative declared count reads no offsets.
pub open spec fn header_positions_count(b: Seq<u8>, p: int) -> int
    recommends
        p + 26 <= b.len(),
{
    let n = as_i16(le16_at(b, p + 24));
    if n < 0 {
        0
    } else {
        n
    }
}

/// The section offsets the file-format header carries.
pub open spec fn header_positions(b: Seq<u8>, p: int) -> Seq<i32>
    recommends
        p + 26 + 4 * header_positions_count(b, p) <= b.len(),
{
    Seq::new(
        header_positions_count(b, p) as nat,
        |i: int| as_i32(le32_at(b, p + 26 + 4 * i)) as i32,
    )
}

/// Number of importance bits the header declares, clamped at zero.
pub open spec fn header_importance_count(b: Seq<u8>, p: int) -> int
    recommends
        p + 26 + 4 * header_positions_count(b, p) + 2 <= b.len(),
{
    let k = as_i16(le16_at(b, p + 26 + 4 * header_positions_count(b, p)));
    if k < 0 {
        0
    } else {
        k
    }
}

/// The file-format header: a 32-bit version word, two metadata words, a
/// revision word, two favorite-flag words, the counted section offsets,
/// and the importance bitmap, of which exactly one byte per eight declared
/// bits is consumed and none inspected.
pub open spec fn file_header_parse(b: Seq<u8>, p: int) -> Parsed<Seq<i32>>
    recommends
        0 <= p <= b.len(),
{
    if p + 4 > b.len() {
        Parsed::Short(p)
    } else if p + 8 > b.len() {
        Parsed::Short(p + 4)
    } else if p + 12 > b.len() {
        Parsed::Short(p + 8)
    } else if p + 16 > b.len() {
        Parsed::Short(p + 12)
    } else if p + 20 > b.len() {
        Parsed::Short(p + 16)
    } else if p + 24 > b.len() {
        Parsed::Short(p + 20)
    } else if p + 26 > b.len() {
        Parsed::Short(p + 24)
    } else {
        let np = header_positions_count(b, p);
        if p + 26 + 4 * np > b.len() {
            Parsed::Short(p + 26 + 4 * ((b.len() - (p + 26)) / 4))
        } else {
            let q = p + 26 + 4 * np;
            if q + 2 > b.len() {
                Parsed::Short(q)
            } else {
                let k = header_importance_count(b, p);
                let nb = (k + 7) / 8;
                if q + 2 + nb > b.len() {
                    Parsed::Short(b.len() as int)
                } else {
                    Parsed::Val(header_positions(b, p), q + 2 + nb)
                }
            }
        }
    }
}

/// What the world header yields: the display name and the three scalar
/// fields the decoder keeps.
pub struct HeaderView {
    pub name: Seq<char>,
    pub world_id: int,
    pub height: int,
    pub width: int,
}

/// The world header: name and seed strings, two generator-version words,
/// a 16-byte opaque identifier block, the world id, four discarded bounds
/// words, height, width, and a discarded game-mode word.
pub open spec fn world_header_parse(b: Seq<u8>, p: int) -> Parsed<HeaderView>
    recommends
        0 <= p <= b.len(),
{
    match string_parse(b, p) {
        Parsed::Short(q) => Parsed::Short(q),
        Parsed::Val(name, p1) => match string_parse(b, p1) {
            Parsed::Short(q) => Parsed::Short(q),
            Parsed::Val(seed, p2) => {
                if p2 + 4 > b.len() {
                    Parsed::Short(p2)
                } else if p2 + 8 > b.len() {
                    Parsed::Short(p2 + 4)
                } else if p2 + 24 > b.len() {
                    Parsed::Short(p2 + 8)
                } else {
                    let q = p2 + 24;
                    if q + 4 > b.len() {
                        Parsed::Short(q)
                    } else if q + 8 > b.len() {
                        Parsed::Short(q + 4)
                    } else if q + 12 > b.len() {
                        Parsed::Short(q + 8)
                    } else if q + 16 > b.len() {
                        Parsed::Short(q + 12)
                    } else if q + 20 > b.len() {
                        Parsed::Short(q + 16)
                    } else if q + 24 > b.len() {
                        Parsed::Short(q + 20)
                    } else if q + 28 > b.len() {
                        Parsed::Short(q + 24)
                    } else if q + 32 > b.len() {
                        Parsed::Short(q + 28)
                    } else {
                        Parsed::Val(
                            HeaderView {
                                name,
                                world_id: as_i32(le32_at(b, q)),
                                height: as_i32(le32_at(b, q + 20)),
                                width: as_i32(le32_at(b, q + 24)),
                            },
                            q + 32,
                        )
                    }
                }
            },
        },
    }
}

/// Outcome of the tile-grid stage: the decoded tiles and the offset past
/// them; the offset at which a record ran out of bytes; or the offset of
/// the record at which the periodic early-exit guard found fewer bytes
/// left than tiles.
pub enum GridParsed {
    Grid(Seq<Tile>, int),
    Short(int),
    Starved(int),
}

/// The tile records with indices `i .. total`, read in row-major order
/// starting at `p`. After each record whose index is a multiple of
/// 1,000,000 the decoder re-checks that at least one byte remains per
/// remaining tile, counting the record just read.
pub open spec fn grid_parse(b: Seq<u8>, p: int, i: int, total: int) -> GridParsed
    recommends
        0 <= i <= total,
        0 <= p <= b.len(),
    decreases total - i,
{
    if i >= total {
        GridParsed::Grid(Seq::empty(), p)
    } else {
        match tile_parse(b, p) {
            Parsed::Short(q) => GridParsed::Short(q),
            Parsed::Val(t, q) => {
                if i % 1000000 == 0 && b.len() - q < total - i {
                    GridParsed::Starved(p)
                } else {
                    match grid_parse(b, q, i + 1, total) {
                        GridParsed::Grid(ts, e) => GridParsed::Grid(seq![t] + ts, e),
                        other => other,
                    }
                }
            },
        }
    }
}

/// An inactive cell always decodes to the all-defaults tile and consumes
/// exactly one byte, regardless of what follows in the stream for that
/// slot.
pub proof fn lemma_inactive_tile(b: Seq<u8>, p: int)
    requires
        0 <= p < b.len(),
        b[p] == 0,
    ensures
        tile_parse(b, p) == Parsed::Val(empty_tile(), p + 1),
{
}

/// A successful file-format header stage ends exactly one byte past each
/// eight declared importance bits — `ceil(k / 8)` bitmap bytes — plus the
/// 26 fixed and offset-table bytes, irrespective of the bit values.
pub proof fn lemma_importance_bitmap_consumption(b: Seq<u8>, p: int)
    ensures
        file_header_parse(b, p) matches Parsed::Val(ps, end) ==> end == p + 26 + 4
            * header_positions_count(b, p) + 2 + (header_importance_count(b, p) + 7) / 8,
{
}

/// Both declared dimensions are positive and no larger than 10,000 cells.
pub open spec fn dims_ok(width: int, height: int) -> bool {
    0 < width <= 10000 && 0 < height <= 10000
}

/// The whole pipeline on success: the header values and the tile
/// sequence a buffer decodes to, or `None` where any stage fails. The
/// stages are the file-format header, the world header, dimension
/// validation, the conservative eight-bytes-per-tile pre-flight estimate,
/// and the tile grid.
pub open spec fn spec_decode(b: Seq<u8>) -> Option<(HeaderView, Seq<Tile>)> {
    if b.len() == 0 {
        None
    } else {
        match file_header_parse(b, 0) {
            Parsed::Short(q) => None,
            Parsed::Val(positions, p1) => match world_header_parse(b, p1) {
                Parsed::Short(q) => None,
                Parsed::Val(h, p2) => {
                    if !dims_ok(h.width, h.height) {
                        None
                    } else if b.len() - p2 < h.width * h.height * 8 {
                        None
                    } else {
                        match grid_parse(b, p2, 0, h.width * h.height) {
                            GridParsed::Grid(ts, e) => Some((h, ts)),
                            _ => None,
                        }
                    }
                },
            },
        }
    }
}

} // verus!
