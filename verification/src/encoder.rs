//! A canonical encoder for the world-file byte grammar, together with the
//! proof that decoding inverts it.
//!
//! The decoder proper never writes bytes; this module exists so that the
//! round-trip law — encoding a canonical world and decoding the result
//! reproduces every field — can be stated and proved against the same
//! grammar the decoder is verified against, and exercised by tests.

use crate::grammar::{
    empty_tile, grid_parse, le16_at, tile_body_parse, tile_canonical, tile_parse, tile_tail_parse,
    GridParsed, Parsed,
};
use crate::world_loader::Tile;
use vstd::arithmetic::div_mod::lemma_fundamental_div_mod;
use vstd::prelude::*;

verus! {

/// The byte a boolean is stored as.
pub open spec fn bool_byte(v: bool) -> u8 {
    if v {
        1u8
    } else {
        0u8
    }
}

/// Little-endian encoding of an unsigned 16-bit value.
pub open spec fn enc16(v: int) -> Seq<u8>
    recommends
        0 <= v < 0x1_0000,
{
    seq![(v % 0x100) as u8, ((v / 0x100) % 0x100) as u8]
}

/// Reading two little-endian bytes back yields the encoded value.
pub proof fn lemma_le16_enc(b: Seq<u8>, p: int, v: int)
    requires
        0 <= v < 0x1_0000,
        0 <= p,
        p + 2 <= b.len(),
        b[p] == enc16(v)[0],
        b[p + 1] == enc16(v)[1],
    ensures
        le16_at(b, p) == v,
{
    lemma_fundamental_div_mod(v, 0x100);
    assert(0 <= v / 0x100 < 0x100) by (nonlinear_arith)
        requires
            0 <= v < 0x1_0000,
    ;
    assert((v / 0x100) % 0x100 == v / 0x100) by (nonlinear_arith)
        requires
            0 <= v / 0x100 < 0x100,
    ;
}

/// Append the little-endian bytes of an unsigned 16-bit value.
fn push_u16(out: &mut Vec<u8>, v: u16)
    ensures
        final(out)@ == old(out)@ + enc16(v as int),
{
    out.push((v % 0x100) as u8);
    out.push(((v / 0x100) % 0x100) as u8);
    proof {
        assert(out@ =~= old(out)@ + enc16(v as int));
    }
}

/// The byte at offset `k` of the fixed 21-byte tail of an active tile
/// record: `u`, `v`, the brick style and flags, the four wire flags,
/// `actuator`, `in_active`, then the wall style block.
pub open spec fn tail_byte(t: Tile, k: int) -> u8
    recommends
        0 <= k < 21,
{
    if k == 0 {
        enc16(t.u as int)[0]
    } else if k == 1 {
        enc16(t.u as int)[1]
    } else if k == 2 {
        enc16(t.v as int)[0]
    } else if k == 3 {
        enc16(t.v as int)[1]
    } else if k == 4 {
        t.brick_style as u8
    } else if k == 5 {
        bool_byte(t.full)
    } else if k == 6 {
        bool_byte(t.half_brick)
    } else if k == 7 {
        t.slope as u8
    } else if k == 8 {
        bool_byte(t.wire_red)
    } else if k == 9 {
        bool_byte(t.wire_blue)
    } else if k == 10 {
        bool_byte(t.wire_green)
    } else if k == 11 {
        bool_byte(t.wire_yellow)
    } else if k == 12 {
        bool_byte(t.actuator)
    } else if k == 13 {
        bool_byte(t.in_active)
    } else if k == 14 {
        enc16(t.wall_u as int)[0]
    } else if k == 15 {
        enc16(t.wall_u as int)[1]
    } else if k == 16 {
        enc16(t.wall_v as int)[0]
    } else if k == 17 {
        enc16(t.wall_v as int)[1]
    } else if k == 18 {
        bool_byte(t.wall_full)
    } else if k == 19 {
        bool_byte(t.wall_half_brick)
    } else {
        t.wall_slope as u8
    }
}

/// The fixed 21-byte tail of an active tile record.
pub open spec fn tail_bytes(t: Tile) -> Seq<u8>
    recommends
        tile_canonical(t),
{
    Seq::new(21, |k: int| tail_byte(t, k))
}

/// Length of everything before the fixed tail in an active tile record:
/// the flag byte, the two identifiers, and the flag-gated liquid and
/// color blocks.
pub open spec fn tile_head_len(t: Tile) -> int {
    9 + (if t.liquid != 0 {
        2int
    } else {
        0int
    }) + (if t.color != 0 {
        1int
    } else {
        0int
    }) + (if t.wall_color != 0 {
        1int
    } else {
        0int
    })
}

/// The byte at offset `k` of an active tile record before its fixed tail.
pub open spec fn tile_head_byte(t: Tile, k: int) -> u8
    recommends
        0 <= k < tile_head_len(t),
{
    let lq: int = if t.liquid != 0 {
        2
    } else {
        0
    };
    let cl: int = if t.color != 0 {
        1
    } else {
        0
    };
    if k == 0 {
        1u8
    } else if k == 1 {
        enc16(t.tile_id as int)[0]
    } else if k == 2 {
        enc16(t.tile_id as int)[1]
    } else if k == 3 {
        enc16(t.wall_id as int)[0]
    } else if k == 4 {
        enc16(t.wall_id as int)[1]
    } else if k == 5 {
        bool_byte(t.liquid != 0)
    } else if k < 6 + lq {
        if k == 6 {
            enc16(t.liquid as int)[0]
        } else {
            enc16(t.liquid as int)[1]
        }
    } else if k == 6 + lq {
        bool_byte(t.is_actuated)
    } else if k == 7 + lq {
        bool_byte(t.color != 0)
    } else if k < 8 + lq + cl {
        t.color as u8
    } else if k == 8 + lq + cl {
        bool_byte(t.wall_color != 0)
    } else {
        t.wall_color as u8
    }
}

/// The canonical encoding of one tile record: a single zero byte for an
/// inactive cell, or the flag-gated head followed by the fixed tail.
pub open spec fn tile_bytes(t: Tile) -> Seq<u8>
    recommends
        tile_canonical(t),
{
    if !t.is_active {
        seq![0u8]
    } else {
        Seq::new(
            (tile_head_len(t) + 21) as nat,
            |k: int|
                if k < tile_head_len(t) {
                    tile_head_byte(t, k)
                } else {
                    tail_byte(t, k - tile_head_len(t))
                },
        )
    }
}

/// Parsing the encoded tail of a canonical tile reads back its fields.
pub proof fn lemma_tail_parse_encoded(b: Seq<u8>, p: int, t: Tile)
    requires
        tile_canonical(t),
        0 <= p,
        p + 21 <= b.len(),
        b.subrange(p, p + 21) =~= tail_bytes(t),
    ensures
        tile_tail_parse(b, p) matches Parsed::Val(tail, e) && e == p + 21 && tail.u == t.u
            && tail.v == t.v && tail.brick_style == t.brick_style && tail.full == t.full
            && tail.half_brick == t.half_brick && tail.slope == t.slope && tail.wire_red
            == t.wire_red && tail.wire_blue == t.wire_blue && tail.wire_green == t.wire_green
            && tail.wire_yellow == t.wire_yellow && tail.actuator == t.actuator && tail.in_active
            == t.in_active && tail.wall_u == t.wall_u && tail.wall_v == t.wall_v && tail.wall_full
            == t.wall_full && tail.wall_half_brick == t.wall_half_brick && tail.wall_slope
            == t.wall_slope,
{
    assert forall|j: int| p <= j < p + 21 implies b[j] == tail_byte(t, j - p) by {
        assert(b.subrange(p, p + 21)[j - p] == b[j]);
    }
    lemma_le16_enc(b, p, t.u as int);
    lemma_le16_enc(b, p + 2, t.v as int);
    lemma_le16_enc(b, p + 14, t.wall_u as int);
    lemma_le16_enc(b, p + 16, t.wall_v as int);
}

/// Evaluating the body of an active tile record from the byte facts its
/// encoding guarantees.
#[verifier::rlimit(100)]
#[verifier::spinoff_prover]
proof fn lemma_tile_body_eval(b: Seq<u8>, q: int, t: Tile)
    requires
        tile_canonical(t),
        t.is_active,
        0 <= q,
        q + tile_head_len(t) + 20 <= b.len(),
        le16_at(b, q) == t.tile_id as int,
        le16_at(b, q + 2) == t.wall_id as int,
        b[q + 4] == bool_byte(t.liquid != 0),
        t.liquid != 0 ==> le16_at(b, q + 5) == t.liquid as int,
        ({
            let lq: int = if t.liquid != 0 {
                2
            } else {
                0
            };
            &&& b[q + 5 + lq] == bool_byte(t.is_actuated)
            &&& b[q + 6 + lq] == bool_byte(t.color != 0)
            &&& t.color != 0 ==> b[q + 7 + lq] == t.color as u8
        }),
        ({
            let lq: int = if t.liquid != 0 {
                2
            } else {
                0
            };
            let cl: int = if t.color != 0 {
                1
            } else {
                0
            };
            &&& b[q + 7 + lq + cl] == bool_byte(t.wall_color != 0)
            &&& t.wall_color != 0 ==> b[q + 8 + lq + cl] == t.wall_color as u8
        }),
        ({
            let q5 = q + tile_head_len(t) - 1;
            tile_tail_parse(b, q5) matches Parsed::Val(tail, e) && e == q5 + 21 && tail.u == t.u
                && tail.v == t.v && tail.brick_style == t.brick_style && tail.full == t.full
                && tail.half_brick == t.half_brick && tail.slope == t.slope && tail.wire_red
                == t.wire_red && tail.wire_blue == t.wire_blue && tail.wire_green == t.wire_green
                && tail.wire_yellow == t.wire_yellow && tail.actuator == t.actuator
                && tail.in_active == t.in_active && tail.wall_u == t.wall_u && tail.wall_v
                == t.wall_v && tail.wall_full == t.wall_full && tail.wall_half_brick
                == t.wall_half_brick && tail.wall_slope == t.wall_slope
        }),
    ensures
        tile_body_parse(b, q) == Parsed::Val(t, q + tile_head_len(t) + 20),
{
}

/// The named byte facts the encoding of an active tile pins down for its
/// head.
#[verifier::rlimit(100)]
#[verifier::spinoff_prover]
proof fn lemma_tile_head_facts(b: Seq<u8>, p: int, t: Tile)
    requires
        tile_canonical(t),
        t.is_active,
        0 <= p,
        p + tile_bytes(t).len() <= b.len(),
        b.subrange(p, p + tile_bytes(t).len()) =~= tile_bytes(t),
    ensures
        b[p] == 1,
        le16_at(b, p + 1) == t.tile_id as int,
        le16_at(b, p + 3) == t.wall_id as int,
        b[p + 5] == bool_byte(t.liquid != 0),
        t.liquid != 0 ==> le16_at(b, p + 6) == t.liquid as int,
        ({
            let lq: int = if t.liquid != 0 {
                2
            } else {
                0
            };
            &&& b[p + 6 + lq] == bool_byte(t.is_actuated)
            &&& b[p + 7 + lq] == bool_byte(t.color != 0)
            &&& t.color != 0 ==> b[p + 8 + lq] == t.color as u8
        }),
        ({
            let lq: int = if t.liquid != 0 {
                2
            } else {
                0
            };
            let cl: int = if t.color != 0 {
                1
            } else {
                0
            };
            &&& b[p + 8 + lq + cl] == bool_byte(t.wall_color != 0)
            &&& t.wall_color != 0 ==> b[p + 9 + lq + cl] == t.wall_color as u8
        }),
{
    let tb = tile_bytes(t);
    let n = tb.len() as int;
    let lq: int = if t.liquid != 0 {
        2
    } else {
        0
    };
    let cl: int = if t.color != 0 {
        1
    } else {
        0
    };
    assert(b.subrange(p, p + n)[0] == b[p]);
    assert(b.subrange(p, p + n)[1] == b[p + 1]);
    assert(b.subrange(p, p + n)[2] == b[p + 2]);
    assert(b.subrange(p, p + n)[3] == b[p + 3]);
    assert(b.subrange(p, p + n)[4] == b[p + 4]);
    assert(b.subrange(p, p + n)[5] == b[p + 5]);
    lemma_le16_enc(b, p + 1, t.tile_id as int);
    lemma_le16_enc(b, p + 3, t.wall_id as int);
    if t.liquid != 0 {
        assert(b.subrange(p, p + n)[6] == b[p + 6]);
        assert(b.subrange(p, p + n)[7] == b[p + 7]);
        lemma_le16_enc(b, p + 6, t.liquid as int);
    }
    assert(b.subrange(p, p + n)[6 + lq] == b[p + (6 + lq)]);
    assert(b.subrange(p, p + n)[7 + lq] == b[p + (7 + lq)]);
    if t.color != 0 {
        assert(b.subrange(p, p + n)[8 + lq] == b[p + (8 + lq)]);
    }
    assert(b.subrange(p, p + n)[8 + lq + cl] == b[p + (8 + lq + cl)]);
    if t.wall_color != 0 {
        assert(b.subrange(p, p + n)[9 + lq + cl] == b[p + (9 + lq + cl)]);
    }
}

/// The tail region of the encoding of an active tile is its tail bytes.
#[verifier::rlimit(100)]
#[verifier::spinoff_prover]
proof fn lemma_tile_tail_region(b: Seq<u8>, p: int, t: Tile)
    requires
        tile_canonical(t),
        t.is_active,
        0 <= p,
        p + tile_bytes(t).len() <= b.len(),
        b.subrange(p, p + tile_bytes(t).len()) =~= tile_bytes(t),
    ensures
        b.subrange(p + tile_head_len(t), p + tile_head_len(t) + 21) =~= tail_bytes(t),
{
    let tb = tile_bytes(t);
    let n = tb.len() as int;
    let hl = tile_head_len(t);
    let q5 = p + hl;
    assert forall|k: int| 0 <= k < 21 implies b.subrange(q5, q5 + 21)[k] == tail_bytes(t)[k] by {
        assert(b.subrange(q5, q5 + 21)[k] == b[q5 + k]);
        assert(b.subrange(p, p + n)[hl + k] == b[p + (hl + k)]);
    }
}

/// Parsing the encoding of a canonical tile yields exactly that tile and
/// consumes exactly its bytes.
#[verifier::rlimit(100)]
#[verifier::spinoff_prover]
pub proof fn lemma_tile_parse_encoded(b: Seq<u8>, p: int, t: Tile)
    requires
        tile_canonical(t),
        0 <= p,
        p + tile_bytes(t).len() <= b.len(),
        b.subrange(p, p + tile_bytes(t).len()) =~= tile_bytes(t),
    ensures
        tile_parse(b, p) == Parsed::Val(t, p + tile_bytes(t).len()),
{
    let tb = tile_bytes(t);
    let n = tb.len() as int;
    assert(b.subrange(p, p + n)[0] == b[p]);
    if !t.is_active {
        assert(b[p] == 0);
        assert(t == empty_tile());
    } else {
        lemma_tile_head_facts(b, p, t);
        lemma_tile_tail_region(b, p, t);
        lemma_tail_parse_encoded(b, p + tile_head_len(t), t);
        lemma_tile_body_eval(b, p + 1, t);
    }
}

/// The concatenated canonical encodings of a sequence of tiles.
pub open spec fn tiles_bytes(ts: Seq<Tile>) -> Seq<u8>
    decreases ts.len(),
{
    if ts.len() == 0 {
        Seq::empty()
    } else {
        tile_bytes(ts[0]) + tiles_bytes(ts.skip(1))
    }
}

/// The grid stage of the decoder inverts the canonical tile encoding:
/// over the concatenated encodings of the remaining tiles, followed by at
/// least one spare byte per declared tile so the periodic early-exit
/// guard is content, it reproduces exactly those tiles.
#[verifier::rlimit(100)]
#[verifier::spinoff_prover]
pub proof fn lemma_grid_parse_encoded(b: Seq<u8>, p: int, ts: Seq<Tile>, i: int, total: int)
    requires
        0 <= i <= total,
        ts.len() == total - i,
        forall|j: int| 0 <= j < ts.len() ==> tile_canonical(#[trigger] ts[j]),
        0 <= p,
        p + tiles_bytes(ts).len() + total <= b.len(),
        b.subrange(p, p + tiles_bytes(ts).len()) =~= tiles_bytes(ts),
    ensures
        grid_parse(b, p, i, total) == GridParsed::Grid(ts, p + tiles_bytes(ts).len()),
    decreases total - i,
{
    if i >= total {
        assert(ts =~= Seq::<Tile>::empty());
        assert(tiles_bytes(ts).len() == 0);
    } else {
        let t0 = ts[0];
        let tb0 = tile_bytes(t0);
        let rest = ts.skip(1);
        let n0 = tb0.len() as int;
        let nr = tiles_bytes(rest).len() as int;
        assert(tiles_bytes(ts) == tb0 + tiles_bytes(rest));
        assert(tiles_bytes(ts).len() == n0 + nr);
        assert forall|k: int| 0 <= k < n0 implies b.subrange(p, p + n0)[k] == tb0[k] by {
            assert(b.subrange(p, p + n0)[k] == b[p + k]);
            assert(b.subrange(p, p + (n0 + nr))[k] == b[p + k]);
            assert((tb0 + tiles_bytes(rest))[k] == tb0[k]);
        }
        assert(b.subrange(p, p + n0) =~= tb0);
        lemma_tile_parse_encoded(b, p, t0);
        assert forall|k: int| 0 <= k < nr implies b.subrange(p + n0, p + n0 + nr)[k]
            == tiles_bytes(rest)[k] by {
            assert(b.subrange(p + n0, p + n0 + nr)[k] == b[(p + n0) + k]);
            assert(b.subrange(p, p + (n0 + nr))[n0 + k] == b[p + (n0 + k)]);
            assert((tb0 + tiles_bytes(rest))[n0 + k] == tiles_bytes(rest)[k]);
        }
        assert(b.subrange(p + n0, p + n0 + nr) =~= tiles_bytes(rest));
        assert(forall|j: int| 0 <= j < rest.len() ==> tile_canonical(#[trigger] rest[j]));
        lemma_grid_parse_encoded(b, p + n0, rest, i + 1, total);
        assert(b.len() - (p + n0) >= total - i);
        assert(seq![t0] + rest =~= ts);
    }
}

/// The flag-gated head of an active tile record.
pub open spec fn head_bytes(t: Tile) -> Seq<u8>
    recommends
        tile_canonical(t),
        t.is_active,
{
    Seq::new(tile_head_len(t) as nat, |k: int| tile_head_byte(t, k))
}

/// Append the head of an active tile record.
fn encode_tile_head(out: &mut Vec<u8>, t: &Tile)
    requires
        tile_canonical(*t),
        t.is_active,
    ensures
        final(out)@ == old(out)@ + head_bytes(*t),
{
    let ghost base = old(out)@;
    let ghost hb = head_bytes(*t);
    let ghost lq: int = if t.liquid != 0 {
        2
    } else {
        0
    };
    out.push(1u8);
    push_u16(out, t.tile_id as u16);
    push_u16(out, t.wall_id as u16);
    proof {
        assert(out@ =~= base + hb.take(5));
    }
    push_bool(out, t.liquid != 0);
    if t.liquid != 0 {
        push_u16(out, t.liquid as u16);
    }
    push_bool(out, t.is_actuated);
    proof {
        assert(out@ =~= base + hb.take(7 + lq));
    }
    push_bool(out, t.color != 0);
    if t.color != 0 {
        out.push(t.color as u8);
    }
    push_bool(out, t.wall_color != 0);
    if t.wall_color != 0 {
        out.push(t.wall_color as u8);
    }
    proof {
        assert(out@ =~= base + hb);
    }
}

/// Append the fixed tail of an active tile record.
#[verifier::rlimit(100)]
#[verifier::spinoff_prover]
fn encode_tile_tail(out: &mut Vec<u8>, t: &Tile)
    requires
        tile_canonical(*t),
    ensures
        final(out)@ == old(out)@ + tail_bytes(*t),
{
    let ghost base = old(out)@;
    let ghost tb = tail_bytes(*t);
    push_u16(out, t.u as u16);
    push_u16(out, t.v as u16);
    out.push(t.brick_style as u8);
    push_bool(out, t.full);
    push_bool(out, t.half_brick);
    out.push(t.slope as u8);
    proof {
        assert(out@ =~= base + tb.take(8));
    }
    push_bool(out, t.wire_red);
    push_bool(out, t.wire_blue);
    push_bool(out, t.wire_green);
    push_bool(out, t.wire_yellow);
    push_bool(out, t.actuator);
    push_bool(out, t.in_active);
    proof {
        assert(out@ =~= base + tb.take(14));
    }
    push_u16(out, t.wall_u as u16);
    push_u16(out, t.wall_v as u16);
    push_bool(out, t.wall_full);
    push_bool(out, t.wall_half_brick);
    out.push(t.wall_slope as u8);
    proof {
        assert(out@ =~= base + tb);
    }
}

/// Append the canonical encoding of one tile record.
pub fn encode_tile(out: &mut Vec<u8>, t: &Tile)
    requires
        tile_canonical(*t),
    ensures
        final(out)@ == old(out)@ + tile_bytes(*t),
{
    if !t.is_active {
        out.push(0u8);
        proof {
            assert(out@ =~= old(out)@ + tile_bytes(*t));
        }
        return ;
    }
    encode_tile_head(out, t);
    encode_tile_tail(out, t);
    proof {
        assert(tile_bytes(*t) =~= head_bytes(*t) + tail_bytes(*t));
        assert(out@ =~= old(out)@ + tile_bytes(*t));
    }
}

/// Append a boolean as one byte.
fn push_bool(out: &mut Vec<u8>, v: bool)
    ensures
        final(out)@ == old(out)@ + seq![bool_byte(v)],
{
    if v {
        out.push(1u8);
    } else {
        out.push(0u8);
    }
    proof {
        assert(out@ =~= old(out)@ + seq![bool_byte(v)]);
    }
}

} // verus!
