use worldfile::encoder::encode_tile;
use worldfile::{DataStream, Tile, WorldLoadError, WorldLoader};

fn push_i16v(buf: &mut Vec<u8>, v: i16) {
    buf.extend_from_slice(&v.to_le_bytes());
}

fn push_i32v(buf: &mut Vec<u8>, v: i32) {
    buf.extend_from_slice(&v.to_le_bytes());
}

fn push_str(buf: &mut Vec<u8>, s: &str) {
    buf.extend_from_slice(&(s.len() as u32).to_le_bytes());
    buf.extend_from_slice(s.as_bytes());
}

/// File-format header with no section offsets and no importance bits.
fn file_header() -> Vec<u8> {
    let mut buf = Vec::new();
    push_i32v(&mut buf, 279); // format version
    buf.extend_from_slice(&[0; 8]); // metadata words
    buf.extend_from_slice(&[0; 4]); // revision
    buf.extend_from_slice(&[0; 8]); // favorite words
    push_i16v(&mut buf, 0); // positionsLength
    push_i16v(&mut buf, 0); // importanceLength
    buf
}

/// Both headers for a world of the given name and dimensions.
fn headers(name: &str, world_id: i32, width: i32, height: i32) -> Vec<u8> {
    let mut buf = file_header();
    push_str(&mut buf, name);
    push_str(&mut buf, "seed");
    buf.extend_from_slice(&[0; 8]); // generator versions
    buf.extend_from_slice(&[9; 16]); // opaque identifier block
    push_i32v(&mut buf, world_id);
    push_i32v(&mut buf, 0); // left
    push_i32v(&mut buf, 4200); // right
    push_i32v(&mut buf, 0); // top
    push_i32v(&mut buf, 1200); // bottom
    push_i32v(&mut buf, height);
    push_i32v(&mut buf, width);
    push_i32v(&mut buf, 0); // game mode
    buf
}

/// A whole file: headers, tile records, and enough zero padding to satisfy
/// the conservative eight-bytes-per-tile pre-flight estimate.
fn world_buf(name: &str, width: i32, height: i32, tiles: &[u8]) -> Vec<u8> {
    let mut buf = headers(name, 77, width, height);
    buf.extend_from_slice(tiles);
    let pad = 8 * (width as usize) * (height as usize);
    buf.extend_from_slice(&vec![0u8; pad]);
    buf
}

fn decode(buf: Vec<u8>) -> Result<worldfile::World, WorldLoadError> {
    WorldLoader::new().parse_world(buf)
}

#[test]
fn empty_buffer_fails_invalid_data() {
    match decode(Vec::new()) {
        Err(WorldLoadError::InvalidData { message }) => {
            assert_eq!(message, "World file is empty");
        },
        other => panic!("expected InvalidData, got {:?}", other),
    }
}

#[test]
fn oversized_width_fails_invalid_data() {
    // The dimension ceiling must reject before any tile is read, so no
    // tile bytes are supplied at all.
    let buf = headers("big", 1, 10001, 1);
    assert!(matches!(decode(buf), Err(WorldLoadError::InvalidData { .. })));
}

#[test]
fn oversized_height_fails_invalid_data() {
    let buf = headers("big", 1, 1, 10001);
    assert!(matches!(decode(buf), Err(WorldLoadError::InvalidData { .. })));
}

#[test]
fn nonpositive_dimensions_fail_invalid_data() {
    for (w, h) in [(0, 5), (5, 0), (-3, 5), (5, -3)] {
        let buf = headers("bad", 1, w, h);
        assert!(matches!(decode(buf), Err(WorldLoadError::InvalidData { .. })));
    }
}

#[test]
fn truncated_header_fails_corrupted_data_within_bounds() {
    let full = headers("Trunc", 9, 2, 1);
    for cut in 0..=full.len() {
        let prefix = full[..cut].to_vec();
        match decode(prefix) {
            Ok(_) => panic!("truncation to {} bytes must not decode", cut),
            Err(WorldLoadError::CorruptedData { position, .. }) => {
                assert!(position <= cut, "position {} beyond cut {}", position, cut);
            },
            Err(WorldLoadError::InvalidData { .. }) => {
                assert_eq!(cut, 0);
            },
            other => panic!("unexpected error {:?}", other),
        }
    }
}

#[test]
fn insufficient_tile_data_fails_corrupted_data() {
    // Headers declare 2x2 tiles but nothing follows: the pre-flight
    // estimate demands at least 32 bytes.
    let buf = headers("Starved", 1, 2, 2);
    let header_len = buf.len();
    match decode(buf) {
        Err(WorldLoadError::CorruptedData { position, .. }) => {
            assert_eq!(position, header_len);
        },
        other => panic!("expected CorruptedData, got {:?}", other),
    }
}

#[test]
fn importance_bitmap_consumes_one_byte_per_eight_bits() {
    for k in [0i16, 1, 7, 8, 9, 16] {
        let bitmap_len = (k as usize + 7) / 8;
        let mut buf = Vec::new();
        push_i32v(&mut buf, 279);
        buf.extend_from_slice(&[0; 20]);
        push_i16v(&mut buf, 0); // positionsLength
        push_i16v(&mut buf, k); // importanceLength
        buf.extend_from_slice(&vec![0xFFu8; bitmap_len]); // bit values are irrelevant
        buf.extend_from_slice(&[0xEE; 5]); // trailing bytes must stay unread
        let mut ds = DataStream::new(buf);
        let positions = WorldLoader::new().read_file_format_header(&mut ds).unwrap();
        assert_eq!(positions, Vec::<i32>::new());
        assert_eq!(ds.position(), 28 + bitmap_len, "importanceLength = {}", k);
    }
}

#[test]
fn section_offsets_are_read_back() {
    let mut buf = Vec::new();
    push_i32v(&mut buf, 279);
    buf.extend_from_slice(&[0; 20]);
    push_i16v(&mut buf, 3);
    push_i32v(&mut buf, 150);
    push_i32v(&mut buf, -2);
    push_i32v(&mut buf, 90000);
    push_i16v(&mut buf, 0);
    let mut ds = DataStream::new(buf);
    let positions = WorldLoader::new().read_file_format_header(&mut ds).unwrap();
    assert_eq!(positions, vec![150, -2, 90000]);
}

#[test]
fn minimal_two_tile_world_decodes() {
    // positionsLength = 0, importanceLength = 0, name "Test", width 2,
    // height 1, two inactive-tile bytes. The trailing zero padding only
    // satisfies the eight-bytes-per-tile pre-flight estimate and is never
    // decoded.
    let world = decode(world_buf("Test", 2, 1, &[0x00, 0x00])).unwrap();
    assert_eq!(world.name, "Test");
    assert_eq!(world.width, 2);
    assert_eq!(world.height, 1);
    assert_eq!(world.world_id, 77);
    assert_eq!(world.tiles.len(), 2);
    assert_eq!(world.tiles[0], Tile::default());
    assert_eq!(world.tiles[1], Tile::default());
    assert!(world.chests.is_empty());
    assert!(world.npcs.is_empty());
    assert!(world.signs.is_empty());
    assert!(world.tile_entities.is_empty());
}

#[test]
fn tile_count_always_equals_width_times_height() {
    for (w, h) in [(1, 1), (3, 2), (5, 7)] {
        let tiles = vec![0u8; (w * h) as usize];
        let world = decode(world_buf("Grid", w, h, &tiles)).unwrap();
        assert_eq!(world.tiles.len(), (w * h) as usize);
        assert!(world.width > 0 && world.height > 0);
    }
}

#[test]
fn inactive_tile_ignores_following_bytes() {
    // An inactive tile consumes exactly one byte; whatever follows in the
    // stream belongs to the next record, not to this cell.
    let world = decode(world_buf("Quiet", 1, 1, &[0x00])).unwrap();
    assert_eq!(world.tiles[0], Tile::default());
    let mut loud = world_buf("Quiet", 1, 1, &[0x00]);
    let n = loud.len();
    for b in &mut loud[n - 8..] {
        *b = 0xFF; // arbitrary padding content after the record
    }
    let world = decode(loud).unwrap();
    assert_eq!(world.tiles[0], Tile::default());
}

fn full_tile() -> Tile {
    Tile {
        tile_id: 541,
        wall_id: 212,
        liquid: 255,
        is_active: true,
        is_actuated: true,
        color: 13,
        u: 1026,
        v: 54,
        brick_style: 2,
        full: true,
        half_brick: false,
        slope: 3,
        wire_red: true,
        wire_blue: false,
        wire_green: true,
        wire_yellow: false,
        actuator: true,
        in_active: true,
        wall_color: 28,
        wall_u: 36,
        wall_v: 72,
        wall_full: false,
        wall_half_brick: true,
        wall_slope: 1,
    }
}

fn plain_tile() -> Tile {
    Tile { tile_id: 2, wall_id: 0, is_active: true, ..Tile::default() }
}

#[test]
fn round_trip_reproduces_every_tile_field() {
    // Encoding a world with active and inactive tiles using the exact
    // per-tile byte grammar, then decoding, must reproduce every field.
    let tiles = vec![full_tile(), Tile::default(), plain_tile(), Tile::default()];
    let mut tile_bytes = Vec::new();
    for t in &tiles {
        encode_tile(&mut tile_bytes, t);
    }
    let world = decode(world_buf("Röund ✓", 4, 1, &tile_bytes)).unwrap();
    assert_eq!(world.name, "Röund ✓");
    assert_eq!(world.width, 4);
    assert_eq!(world.height, 1);
    assert_eq!(world.tiles, tiles);
}

#[test]
fn encoded_inactive_tile_is_one_zero_byte() {
    let mut out = Vec::new();
    encode_tile(&mut out, &Tile::default());
    assert_eq!(out, vec![0u8]);
}

#[test]
fn encoded_active_tile_layout_is_exact() {
    // A fully populated record: flag, ids, gated liquid, actuated flag,
    // gated colors, then the fixed 21-byte tail.
    let mut out = Vec::new();
    encode_tile(&mut out, &full_tile());
    let expected: Vec<u8> = vec![
        1, // active
        0x1D, 0x02, // tile_id 541
        0xD4, 0x00, // wall_id 212
        1, 0xFF, 0x00, // liquid present, 255
        1, // actuated
        1, 13, // color present, 13
        1, 28, // wall color present, 28
        0x02, 0x04, // u 1026
        54, 0, // v
        2, // brick style
        1, 0, // full, half brick
        3, // slope
        1, 0, 1, 0, // wires
        1, 1, // actuator, in_active
        36, 0, // wall u
        72, 0, // wall v
        0, 1, // wall full, wall half brick
        1, // wall slope
    ];
    assert_eq!(out, expected);
}

#[test]
fn error_set_is_closed() {
    // The reserved kinds stay part of the taxonomy downstream code must
    // handle, even though the current grammar never raises them.
    let reserved = [
        WorldLoadError::UnsupportedVersion { version: 12 },
        WorldLoadError::InvalidFormat { expected: "tag", found: "junk" },
    ];
    assert!(matches!(reserved[0], WorldLoadError::UnsupportedVersion { version: 12 }));
    assert!(matches!(reserved[1], WorldLoadError::InvalidFormat { .. }));
}

#[test]
fn truncation_inside_tile_grid_reports_cursor_position() {
    // Plenty of padding for the pre-flight estimate, but an active record
    // cut off mid-way: the tile reader itself must stop at the end.
    let mut tile_bytes = Vec::new();
    encode_tile(&mut tile_bytes, &full_tile());
    let mut buf = headers("Cut", 5, 1, 1);
    buf.extend_from_slice(&tile_bytes[..10]); // record truncated, pre-flight satisfied
    let total = buf.len();
    match decode(buf) {
        Err(WorldLoadError::CorruptedData { position, .. }) => {
            assert!(position <= total);
        },
        other => panic!("expected CorruptedData, got {:?}", other),
    }
}
