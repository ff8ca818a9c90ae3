use vstd::prelude::*;

verus! {

/// Number of columns in the wall map.
pub const MAP_WIDTH: i64 = 16;

/// Number of rows in the wall map.
pub const MAP_HEIGHT: i64 = 8;

/// The bitset of walls of each row of the map: bit `c` set means a wall at column `c`.
pub open spec fn spec_row_bits(row: int) -> Option<u16> {
    if row == 0 {
        Some(0b1111111111111111u16)
    } else if row == 1 {
        Some(0b1000001010000101u16)
    } else if row == 2 {
        Some(0b1011100000110101u16)
    } else if row == 3 {
        Some(0b1000111010010001u16)
    } else if row == 4 {
        Some(0b1010001011110111u16)
    } else if row == 5 {
        Some(0b1011101001100001u16)
    } else if row == 6 {
        Some(0b1000100000001101u16)
    } else if row == 7 {
        Some(0b1111111111111111u16)
    } else {
        None
    }
}

/// Whether bit `col` of `bits` is set.
pub open spec fn bit_set(bits: u16, col: int) -> bool {
    0 <= col < 16 && (bits >> (col as u16)) & 1u16 == 1u16
}

/// The wall map as a predicate on cells: a cell outside the map is a wall,
/// a cell inside it is a wall when its row's bit for the column is set.
pub open spec fn is_wall_cell(col: int, row: int) -> bool {
    match spec_row_bits(row) {
        Some(bits) => !(0 <= col < MAP_WIDTH) || bit_set(bits, col),
        None => true,
    }
}

/// The bitset of walls of `row`, or `None` for a row outside the map.
pub fn row_bits(row: i64) -> (r: Option<u16>)
    ensures
        r == spec_row_bits(row as int),
{
    match row {
        0 => Some(0b1111111111111111u16),
        1 => Some(0b1000001010000101u16),
        2 => Some(0b1011100000110101u16),
        3 => Some(0b1000111010010001u16),
        4 => Some(0b1010001011110111u16),
        5 => Some(0b1011101001100001u16),
        6 => Some(0b1000100000001101u16),
        7 => Some(0b1111111111111111u16),
        _ => None,
    }
}

/// Whether the cell at column `col`, row `row` holds a wall.
pub fn cell_in_wall(col: i64, row: i64) -> (r: bool)
    ensures
        r == is_wall_cell(col as int, row as int),
{
    match row_bits(row) {
        Some(bits) => {
            if col < 0 || col >= MAP_WIDTH {
                true
            } else {
                let c = col as u16;
                let hit = bits & (1u16 << c) != 0;
                assert(hit == ((bits >> c) & 1u16 == 1u16)) by (bit_vector)
                    requires
                        c < 16,
                        hit == (bits & (1u16 << c) != 0),
                ;
                hit
            }
        },
        None => true,
    }
}

/// Every cell of a row above or below the map is a wall, whatever its column.
pub proof fn lemma_rows_outside_map_are_walls(col: int, row: int)
    requires
        row < 0 || row >= MAP_HEIGHT,
    ensures
        is_wall_cell(col, row),
{
}

/// A row whose first and last bits are set has walls at both of its ends.
proof fn lemma_row_ends(bits: u16)
    requires
        bits & 0x8001u16 == 0x8001u16,
    ensures
        bit_set(bits, 0),
        bit_set(bits, MAP_WIDTH - 1),
{
    assert((bits >> 0u16) & 1u16 == 1u16) by (bit_vector)
        requires
            bits & 0x8001u16 == 0x8001u16,
    ;
    assert((bits >> 15u16) & 1u16 == 1u16) by (bit_vector)
        requires
            bits & 0x8001u16 == 0x8001u16,
    ;
}

/// The map is enclosed: every cell on its border, and every cell outside it,
/// is a wall.
pub proof fn lemma_map_is_enclosed(col: int, row: int)
    requires
        row <= 0 || row >= MAP_HEIGHT - 1 || col <= 0 || col >= MAP_WIDTH - 1,
    ensures
        is_wall_cell(col, row),
{
    if 0 <= row < MAP_HEIGHT && 0 <= col < MAP_WIDTH {
        let bits = spec_row_bits(row).unwrap();
        if row == 0 || row == MAP_HEIGHT - 1 {
            let c = col as u16;
            assert((0xffffu16 >> c) & 1u16 == 1u16) by (bit_vector)
                requires
                    c < 16,
            ;
        } else {
            assert(bits & 0x8001u16 == 0x8001u16) by {
                assert(0b1000001010000101u16 & 0x8001u16 == 0x8001u16) by (bit_vector);
                assert(0b1011100000110101u16 & 0x8001u16 == 0x8001u16) by (bit_vector);
                assert(0b1000111010010001u16 & 0x8001u16 == 0x8001u16) by (bit_vector);
                assert(0b1010001011110111u16 & 0x8001u16 == 0x8001u16) by (bit_vector);
                assert(0b1011101001100001u16 & 0x8001u16 == 0x8001u16) by (bit_vector);
                assert(0b1000100000001101u16 & 0x8001u16 == 0x8001u16) by (bit_vector);
            }
            lemma_row_ends(bits);
        }
    }
}

/// The cell of the starting pose, column 1 of row 1, is open.
pub proof fn lemma_start_cell_is_open()
    ensures
        !is_wall_cell(1, 1),
{
    assert((0b1000001010000101u16 >> 1u16) & 1u16 == 0u16) by (bit_vector);
}

} // verus!
