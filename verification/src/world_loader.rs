//! The staged world decoder and the decoded data model.

use crate::data_stream::DataStream;
use crate::error::WorldLoadError;
use crate::grammar::{
    empty_tile, file_header_parse, grid_parse, spec_decode, tile_parse, tile_tail_parse,
    world_header_parse, GridParsed, Parsed, TileTail,
};
use vstd::prelude::*;

verus! {

broadcast use vstd::std_specs::control_flow::group_control_flow_axioms;

/// One grid cell's block, wall, wire and liquid state. When `is_active`
/// is false every other field holds its zero or false default: an
/// inactive tile carries no block data.
#[derive(Debug, Clone, Copy, PartialEq, Eq, Structural)]
pub struct Tile {
    pub tile_id: i32,
    pub wall_id: i32,
    pub liquid: i32,
    pub is_active: bool,
    pub is_actuated: bool,
    pub color: i32,
    pub u: i32,
    pub v: i32,
    pub brick_style: i32,
    pub full: bool,
    pub half_brick: bool,
    pub slope: i32,
    pub wire_red: bool,
    pub wire_blue: bool,
    pub wire_green: bool,
    pub wire_yellow: bool,
    pub actuator: bool,
    pub in_active: bool,
    pub wall_color: i32,
    pub wall_u: i32,
    pub wall_v: i32,
    pub wall_full: bool,
    pub wall_half_brick: bool,
    pub wall_slope: i32,
}

impl Default for Tile {
    /// The all-defaults tile, exactly what an inactive cell decodes to.
    fn default() -> (r: Tile)
        ensures
            r == empty_tile(),
    {
        Tile {
            tile_id: 0,
            wall_id: 0,
            liquid: 0,
            is_active: false,
            is_actuated: false,
            color: 0,
            u: 0,
            v: 0,
            brick_style: 0,
            full: false,
            half_brick: false,
            slope: 0,
            wire_red: false,
            wire_blue: false,
            wire_green: false,
            wire_yellow: false,
            actuator: false,
            in_active: false,
            wall_color: 0,
            wall_u: 0,
            wall_v: 0,
            wall_full: false,
            wall_half_brick: false,
            wall_slope: 0,
        }
    }
}

/// One item slot of a chest.
#[derive(Debug, Clone)]
pub struct ChestItem {
    pub id: i32,
    pub stack: i32,
    pub prefix: i32,
}

/// A placed chest and its contents, keyed by position.
#[derive(Debug, Clone)]
pub struct Chest {
    pub x: i32,
    pub y: i32,
    pub name: String,
    pub items: Vec<ChestItem>,
}

/// A town character. The two position fields hold the IEEE-754 bit
/// patterns of the stored single-precision coordinates; the byte grammar
/// for this section is not decoded yet, so the decoder always leaves the
/// collection empty.
#[derive(Debug, Clone)]
pub struct NPC {
    pub id: i32,
    pub name: String,
    pub sprite_id: i32,
    pub position_x: u32,
    pub position_y: u32,
    pub home_x: i32,
    pub home_y: i32,
    pub direction: i32,
    pub is_homeless: bool,
}

/// A placed sign and its text.
#[derive(Debug, Clone)]
pub struct Sign {
    pub x: i32,
    pub y: i32,
    pub text: String,
}

/// A tile-bound entity record.
#[derive(Debug, Clone)]
pub struct TileEntity {
    pub id: i32,
    pub position_x: i32,
    pub position_y: i32,
    pub entity_type: i32,
}

/// The decoded aggregate: the tile grid in row-major order plus the four
/// auxiliary collections. The auxiliary sections of the format are not
/// decoded yet, so those collections are always empty in decoder output;
/// they stay part of the model for forward compatibility.
#[derive(Debug, Clone)]
pub struct World {
    pub name: String,
    pub width: i32,
    pub height: i32,
    pub world_id: i32,
    pub tiles: Vec<Tile>,
    pub chests: Vec<Chest>,
    pub npcs: Vec<NPC>,
    pub signs: Vec<Sign>,
    pub tile_entities: Vec<TileEntity>,
}

/// The exact relation between an input buffer and what `parse_world`
/// returns for it: every stage outcome, every error kind, and every
/// reported position, stated over the byte grammar.
pub open spec fn parse_result_matches(b: Seq<u8>, r: Result<World, WorldLoadError>) -> bool {
    if b.len() == 0 {
        &&& r matches Err(e)
        &&& e matches WorldLoadError::InvalidData { message }
        &&& message@ == "World file is empty"@
    } else {
        match file_header_parse(b, 0) {
            Parsed::Short(q) => {
                &&& r matches Err(e)
                &&& e matches WorldLoadError::CorruptedData { position, message }
                &&& position == q
                &&& message@ == "failed to read file format header"@
            },
            Parsed::Val(positions, p1) => match world_header_parse(b, p1) {
                Parsed::Short(q) => {
                    &&& r matches Err(e)
                    &&& e matches WorldLoadError::CorruptedData { position, message }
                    &&& position == q
                    &&& message@ == "failed to read world header"@
                },
                Parsed::Val(h, p2) => {
                    if h.width <= 0 || h.height <= 0 {
                        &&& r matches Err(e)
                        &&& e matches WorldLoadError::InvalidData { message }
                        &&& message@ == "invalid world dimensions"@
                    } else if h.width > 10000 || h.height > 10000 {
                        &&& r matches Err(e)
                        &&& e matches WorldLoadError::InvalidData { message }
                        &&& message@ == "world dimensions too large"@
                    } else if b.len() - p2 < h.width * h.height * 8 {
                        &&& r matches Err(e)
                        &&& e matches WorldLoadError::CorruptedData { position, message }
                        &&& position == p2
                        &&& message@ == "insufficient data for tiles"@
                    } else {
                        match grid_parse(b, p2, 0, h.width * h.height) {
                            GridParsed::Short(q) => {
                                &&& r matches Err(e)
                                &&& e matches WorldLoadError::CorruptedData { position, message }
                                &&& position == q
                                &&& message@ == "unexpected end of data while reading tiles"@
                            },
                            GridParsed::Starved(q) => {
                                &&& r matches Err(e)
                                &&& e matches WorldLoadError::CorruptedData { position, message }
                                &&& position == q
                                &&& message@ == "unexpected end of data while reading tiles"@
                            },
                            GridParsed::Grid(ts, e) => {
                                &&& r matches Ok(w)
                                &&& w.name@ == h.name
                                &&& w.width as int == h.width
                                &&& w.height as int == h.height
                                &&& w.world_id as int == h.world_id
                                &&& w.tiles@ == ts
                                &&& w.chests@.len() == 0
                                &&& w.npcs@.len() == 0
                                &&& w.signs@.len() == 0
                                &&& w.tile_entities@.len() == 0
                            },
                        }
                    }
                },
            },
        }
    }
}

/// The staged decoder. It owns no state; each decode call wraps the given
/// buffer in a fresh cursor and drives it through the file grammar in a
/// fixed order with no backtracking.
pub struct WorldLoader {
}

impl WorldLoader {
    /// A decoder instance.
    pub fn new() -> (r: WorldLoader) {
        WorldLoader {  }
    }

    /// Decode a complete world file: file-format header, world header,
    /// dimension validation, the dense tile grid, then assembly, with the
    /// auxiliary collections left empty. The first failing stage aborts
    /// the decode; no partial world is ever returned.
    #[verifier::rlimit(100)]
    #[verifier::loop_isolation(false)]
    pub fn parse_world(&self, data: Vec<u8>) -> (r: Result<World, WorldLoadError>)
        ensures
            parse_result_matches(data@, r),
            (match r {
                Ok(w) => {
                    &&& 0 < w.width <= 10000
                    &&& 0 < w.height <= 10000
                    &&& w.tiles@.len() == w.width as int * w.height as int
                },
                Err(e) => true,
            }),
            (match r {
                Err(WorldLoadError::CorruptedData { position, message }) => position
                    <= data@.len(),
                _ => true,
            }),
            (match r {
                Err(e) => e is InvalidData || e is CorruptedData,
                _ => true,
            }),
            (match spec_decode(data@) {
                Some(m) => {
                    &&& r matches Ok(w)
                    &&& w.name@ == m.0.name
                    &&& w.width as int == m.0.width
                    &&& w.height as int == m.0.height
                    &&& w.world_id as int == m.0.world_id
                    &&& w.tiles@ == m.1
                },
                None => r is Err,
            }),
    {
        if data.len() == 0 {
            return Err(WorldLoadError::InvalidData { message: "World file is empty" });
        }
        let ghost b = data@;
        let mut stream = DataStream::new(data);
        let _positions = match self.read_file_format_header(&mut stream) {
            Ok(p) => p,
            Err(_) => {
                return Err(
                    WorldLoadError::CorruptedData {
                        position: stream.position(),
                        message: "failed to read file format header",
                    },
                );
            },
        };
        let (width, height, world_id, name) = match self.read_header(&mut stream) {
            Ok(t) => t,
            Err(_) => {
                return Err(
                    WorldLoadError::CorruptedData {
                        position: stream.position(),
                        message: "failed to read world header",
                    },
                );
            },
        };
        if width <= 0 || height <= 0 {
            return Err(WorldLoadError::InvalidData { message: "invalid world dimensions" });
        }
        if width > 10000 || height > 10000 {
            return Err(WorldLoadError::InvalidData { message: "world dimensions too large" });
        }
        proof {
            assert((width as int) * (height as int) <= 100_000_000) by (nonlinear_arith)
                requires
                    0 < width <= 10000,
                    0 < height <= 10000,
            ;
        }
        let expected_tile_count: usize = (width as usize) * (height as usize);
        let remaining_bytes: usize = stream.len() - stream.position();
        let expected_min_bytes: usize = expected_tile_count * 8;
        if remaining_bytes < expected_min_bytes {
            return Err(
                WorldLoadError::CorruptedData {
                    position: stream.position(),
                    message: "insufficient data for tiles",
                },
            );
        }
        let ghost p2g = stream@.pos;
        let ghost total = (width as int) * (height as int);
        let mut tiles: Vec<Tile> = Vec::with_capacity(expected_tile_count);
        proof {
            if let GridParsed::Grid(ts2, e2) = grid_parse(b, p2g, 0, total) {
                assert(Seq::<Tile>::empty() + ts2 =~= ts2);
            }
        }
        let mut i: usize = 0;
        while i < expected_tile_count
            invariant
                i <= expected_tile_count,
                tiles@.len() == i as int,
                stream.wf(),
                stream@.bytes == b,
                match grid_parse(b, stream@.pos, i as int, total) {
                    GridParsed::Grid(ts2, e2) => grid_parse(b, p2g, 0, total)
                        == GridParsed::Grid(tiles@ + ts2, e2),
                    GridParsed::Short(q) => grid_parse(b, p2g, 0, total) == GridParsed::Short(q),
                    GridParsed::Starved(q) => grid_parse(b, p2g, 0, total)
                        == GridParsed::Starved(q),
                },
            decreases expected_tile_count - i,
        {
            let tile_pos = stream.position();
            let ghost tiles_prev = tiles@;
            let t = match self.read_tile(&mut stream) {
                Ok(t) => t,
                Err(_) => {
                    return Err(
                        WorldLoadError::CorruptedData {
                            position: stream.position(),
                            message: "unexpected end of data while reading tiles",
                        },
                    );
                },
            };
            tiles.push(t);
            if i % 1000000 == 0 {
                let remaining = stream.len() - stream.position();
                let tiles_remaining = expected_tile_count - i;
                if remaining < tiles_remaining {
                    return Err(
                        WorldLoadError::CorruptedData {
                            position: tile_pos,
                            message: "unexpected end of data while reading tiles",
                        },
                    );
                }
            }
            proof {
                if let GridParsed::Grid(ts3, e3) = grid_parse(b, stream@.pos, i as int + 1, total) {
                    assert(tiles_prev + (seq![t] + ts3) =~= tiles@ + ts3);
                }
            }
            i = i + 1;
        }
        let chests: Vec<Chest> = Vec::new();
        let npcs: Vec<NPC> = Vec::new();
        let signs: Vec<Sign> = Vec::new();
        let tile_entities: Vec<TileEntity> = Vec::new();
        if tiles.len() != expected_tile_count {
            return Err(
                WorldLoadError::CorruptedData {
                    position: stream.position(),
                    message: "tile count mismatch",
                },
            );
        }
        proof {
            if let GridParsed::Grid(ts2, e2) = grid_parse(b, stream@.pos, total, total) {
                assert(tiles@ + ts2 =~= tiles@);
            }
        }
        Ok(World { name, width, height, world_id, tiles, chests, npcs, signs, tile_entities })
    }

    /// Read the file-format header: version and metadata words, the
    /// counted section offsets, and the importance bitmap, of which
    /// exactly one byte per eight declared bits is consumed and none
    /// inspected.
    #[verifier::rlimit(100)]
    #[verifier::loop_isolation(false)]
    pub fn read_file_format_header(&self, stream: &mut DataStream) -> (r: Result<
        Vec<i32>,
        WorldLoadError,
    >)
        requires
            old(stream).wf(),
        ensures
            final(stream).wf(),
            final(stream)@.bytes == old(stream)@.bytes,
            match file_header_parse(old(stream)@.bytes, old(stream)@.pos) {
                Parsed::Val(ps, e) => {
                    &&& r matches Ok(v)
                    &&& v@ == ps
                    &&& final(stream)@.pos == e
                },
                Parsed::Short(q) => {
                    &&& r matches Err(err)
                    &&& err matches WorldLoadError::OutOfBounds
                    &&& final(stream)@.pos == q
                },
            },
    {
        let ghost b = old(stream)@.bytes;
        let ghost p0 = old(stream)@.pos;
        let _version = stream.read_int32()?;
        let _meta1 = stream.read_uint32()?;
        let _meta2 = stream.read_uint32()?;
        let _revision = stream.read_uint32()?;
        let _fav1 = stream.read_uint32()?;
        let _fav2 = stream.read_uint32()?;
        let positions_length = stream.read_int16()?;
        let n: usize = if positions_length > 0 {
            positions_length as usize
        } else {
            0
        };
        assert(n == crate::grammar::header_positions_count(b, p0));
        let mut positions: Vec<i32> = Vec::with_capacity(n);
        let mut j: usize = 0;
        while j < n
            invariant
                j <= n,
                stream.wf(),
                stream@.bytes == b,
                stream@.pos == p0 + 26 + 4 * j,
                n == crate::grammar::header_positions_count(b, p0),
                p0 + 26 <= b.len(),
                positions@ =~= crate::grammar::header_positions(b, p0).take(j as int),
            decreases n - j,
        {
            let v = match stream.read_int32() {
                Ok(v) => v,
                Err(e) => {
                    proof {
                        assert((b.len() - (p0 + 26)) / 4 == j as int) by (nonlinear_arith)
                            requires
                                4 * (j as int) <= b.len() - (p0 + 26),
                                b.len() - (p0 + 26) < 4 * (j as int) + 4,
                        ;
                    }
                    return Err(e);
                },
            };
            positions.push(v);
            j = j + 1;
            proof {
                assert(positions@ =~= crate::grammar::header_positions(b, p0).take(j as int));
            }
        }
        let importance_length = stream.read_int16()?;
        let k: usize = if importance_length > 0 {
            importance_length as usize
        } else {
            0
        };
        assert(k == crate::grammar::header_importance_count(b, p0));
        let nb: usize = (k + 7) / 8;
        let ghost q2 = stream@.pos;
        let mut j2: usize = 0;
        while j2 < nb
            invariant
                j2 <= nb,
                stream.wf(),
                stream@.bytes == b,
                stream@.pos == q2 + j2,
            decreases nb - j2,
        {
            match stream.read_byte() {
                Ok(_) => {
                },
                Err(e) => {
                    return Err(e);
                },
            };
            j2 = j2 + 1;
        }
        proof {
            assert(positions@ =~= crate::grammar::header_positions(b, p0));
        }
        Ok(positions)
    }

    /// Read the world header and keep the display name, world id, height
    /// and width; the seed, generator versions, identifier block, bounds
    /// and game mode are read and discarded.
    #[verifier::rlimit(100)]
    pub fn read_header(&self, stream: &mut DataStream) -> (r: Result<
        (i32, i32, i32, String),
        WorldLoadError,
    >)
        requires
            old(stream).wf(),
        ensures
            final(stream).wf(),
            final(stream)@.bytes == old(stream)@.bytes,
            match world_header_parse(old(stream)@.bytes, old(stream)@.pos) {
                Parsed::Val(h, e) => {
                    &&& r matches Ok(t)
                    &&& t.0 as int == h.width
                    &&& t.1 as int == h.height
                    &&& t.2 as int == h.world_id
                    &&& t.3@ == h.name
                    &&& final(stream)@.pos == e
                },
                Parsed::Short(q) => {
                    &&& r matches Err(err)
                    &&& err matches WorldLoadError::OutOfBounds
                    &&& final(stream)@.pos == q
                },
            },
    {
        let name = stream.read_string()?;
        let _seed = stream.read_string()?;
        let _ver1 = stream.read_uint32()?;
        let _ver2 = stream.read_uint32()?;
        let _uuid = stream.read_bytes(16)?;
        let world_id = stream.read_int32()?;
        let _left = stream.read_int32()?;
        let _right = stream.read_int32()?;
        let _top = stream.read_int32()?;
        let _bottom = stream.read_int32()?;
        let height = stream.read_int32()?;
        let width = stream.read_int32()?;
        let _game_mode = stream.read_int32()?;
        Ok((width, height, world_id, name))
    }

    /// Read the fixed 21-byte tail of an active tile record.
    fn read_tile_tail(&self, stream: &mut DataStream) -> (r: Result<TileTail, WorldLoadError>)
        requires
            old(stream).wf(),
        ensures
            final(stream).wf(),
            final(stream)@.bytes == old(stream)@.bytes,
            match tile_tail_parse(old(stream)@.bytes, old(stream)@.pos) {
                Parsed::Val(t, e) => {
                    &&& r matches Ok(v)
                    &&& v == t
                    &&& final(stream)@.pos == e
                },
                Parsed::Short(q) => {
                    &&& r matches Err(err)
                    &&& err matches WorldLoadError::OutOfBounds
                    &&& final(stream)@.pos == q
                },
            },
    {
        let u = stream.read_uint16()?;
        let v = stream.read_uint16()?;
        let brick_style = stream.read_byte()?;
        let full = stream.read_bool()?;
        let half_brick = stream.read_bool()?;
        let slope = stream.read_byte()?;
        let wire_red = stream.read_bool()?;
        let wire_blue = stream.read_bool()?;
        let wire_green = stream.read_bool()?;
        let wire_yellow = stream.read_bool()?;
        let actuator = stream.read_bool()?;
        let in_active = stream.read_bool()?;
        let wall_u = stream.read_uint16()?;
        let wall_v = stream.read_uint16()?;
        let wall_full = stream.read_bool()?;
        let wall_half_brick = stream.read_bool()?;
        let wall_slope = stream.read_byte()?;
        Ok(
            TileTail {
                u: u as i32,
                v: v as i32,
                brick_style: brick_style as i32,
                full,
                half_brick,
                slope: slope as i32,
                wire_red,
                wire_blue,
                wire_green,
                wire_yellow,
                actuator,
                in_active,
                wall_u: wall_u as i32,
                wall_v: wall_v as i32,
                wall_full,
                wall_half_brick,
                wall_slope: wall_slope as i32,
            },
        )
    }

    /// Read one tile record. An inactive cell consumes exactly one byte
    /// and yields the all-defaults tile, regardless of what follows in
    /// the stream for that slot.
    #[verifier::rlimit(100)]
    #[verifier::spinoff_prover]
    pub fn read_tile(&self, stream: &mut DataStream) -> (r: Result<Tile, WorldLoadError>)
        requires
            old(stream).wf(),
        ensures
            final(stream).wf(),
            final(stream)@.bytes == old(stream)@.bytes,
            match tile_parse(old(stream)@.bytes, old(stream)@.pos) {
                Parsed::Val(t, e) => {
                    &&& r matches Ok(v)
                    &&& v == t
                    &&& final(stream)@.pos == e
                },
                Parsed::Short(q) => {
                    &&& r matches Err(err)
                    &&& err matches WorldLoadError::OutOfBounds
                    &&& final(stream)@.pos == q
                },
            },
    {
        let is_active = stream.read_bool()?;
        if !is_active {
            return Ok(Tile::default());
        }
        let tile_id = stream.read_uint16()?;
        let wall_id = stream.read_uint16()?;
        let has_liquid = stream.read_bool()?;
        let mut liquid: i32 = 0;
        if has_liquid {
            let l = stream.read_uint16()?;
            liquid = l as i32;
        }
        let is_actuated = stream.read_bool()?;
        let has_color = stream.read_bool()?;
        let mut color: i32 = 0;
        if has_color {
            let c = stream.read_byte()?;
            color = c as i32;
        }
        let has_wall_color = stream.read_bool()?;
        let mut wall_color: i32 = 0;
        if has_wall_color {
            let c = stream.read_byte()?;
            wall_color = c as i32;
        }
        let tail = self.read_tile_tail(stream)?;
        Ok(
            Tile {
                tile_id: tile_id as i32,
                wall_id: wall_id as i32,
                liquid,
                is_active: true,
                is_actuated,
                color,
                u: tail.u,
                v: tail.v,
                brick_style: tail.brick_style,
                full: tail.full,
                half_brick: tail.half_brick,
                slope: tail.slope,
                wire_red: tail.wire_red,
                wire_blue: tail.wire_blue,
                wire_green: tail.wire_green,
                wire_yellow: tail.wire_yellow,
                actuator: tail.actuator,
                in_active: tail.in_active,
                wall_color,
                wall_u: tail.wall_u,
                wall_v: tail.wall_v,
                wall_full: tail.wall_full,
                wall_half_brick: tail.wall_half_brick,
                wall_slope: tail.wall_slope,
            },
        )
    }
}

} // verus!
