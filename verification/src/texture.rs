//! A colourful test pattern for checking how a mesh maps its texture.

use vstd::prelude::*;

verus! {

/// Texels along each side of the pattern.
pub const TEXTURE_SIZE: usize = 8;

/// Bytes in one row of the pattern: four for each texel.
pub const ROW_BYTES: usize = 32;

/// The eight colours of the pattern, four bytes each: red, green, blue,
/// alpha.
pub open spec fn palette() -> Seq<u8> {
    seq![
        255u8, 102, 159, 255,
        255, 159, 102, 255,
        236, 255, 102, 255,
        121, 255, 102, 255,
        102, 255, 198, 255,
        102, 198, 255, 255,
        121, 102, 255, 255,
        236, 102, 255, 255,
    ]
}

/// The byte at place `x` of row `y`: each row holds the palette, moved one
/// colour further to the right than in the row above and wrapped around.
pub open spec fn pattern_byte(y: int, x: int) -> u8 {
    palette()[(x + ROW_BYTES - 4 * y) % (ROW_BYTES as int)]
}

/// The colours of one row, moved one colour to the right and wrapped around.
fn next_row(row: &Vec<u8>) -> (next: Vec<u8>)
    requires
        row@.len() == ROW_BYTES,
    ensures
        next@.len() == ROW_BYTES,
        forall|x: int|
            0 <= x < ROW_BYTES ==> next@[x] == row@[(x + ROW_BYTES - 4) % (ROW_BYTES as int)],
{
    let mut next: Vec<u8> = Vec::new();
    let mut x: usize = 0;
    while x < ROW_BYTES
        invariant
            x <= ROW_BYTES,
            row@.len() == ROW_BYTES,
            next@.len() == x,
            forall|i: int|
                0 <= i < x ==> next@[i] == row@[(i + ROW_BYTES - 4) % (ROW_BYTES as int)],
        decreases ROW_BYTES - x,
    {
        next.push(row[(x + ROW_BYTES - 4) % ROW_BYTES]);
        x = x + 1;
    }
    next
}

/// The test pattern: eight rows of eight texels, row after row, four bytes
/// to the texel.
pub fn uv_debug_texture() -> (data: Vec<u8>)
    ensures
        data@.len() == TEXTURE_SIZE * ROW_BYTES,
        forall|y: int, x: int|
            0 <= y < TEXTURE_SIZE && 0 <= x < ROW_BYTES ==> data@[y * ROW_BYTES + x]
                == pattern_byte(y, x),
{
    let mut row: Vec<u8> = vec![
        255u8, 102, 159, 255,
        255, 159, 102, 255,
        236, 255, 102, 255,
        121, 255, 102, 255,
        102, 255, 198, 255,
        102, 198, 255, 255,
        121, 102, 255, 255,
        236, 102, 255, 255,
    ];
    let mut data: Vec<u8> = Vec::new();
    let mut y: usize = 0;
    while y < TEXTURE_SIZE
        invariant
            y <= TEXTURE_SIZE,
            row@.len() == ROW_BYTES,
            forall|x: int| 0 <= x < ROW_BYTES ==> row@[x] == pattern_byte(y as int, x),
            data@.len() == y * ROW_BYTES,
            forall|v: int, x: int|
                0 <= v < y && 0 <= x < ROW_BYTES ==> data@[v * ROW_BYTES + x] == pattern_byte(v, x),
        decreases TEXTURE_SIZE - y,
    {
        let ghost above = data@;
        let mut x: usize = 0;
        while x < ROW_BYTES
            invariant
                x <= ROW_BYTES,
                y < TEXTURE_SIZE,
                row@.len() == ROW_BYTES,
                data@.len() == y * ROW_BYTES + x,
                above.len() == y * ROW_BYTES,
                forall|i: int| 0 <= i < above.len() ==> data@[i] == above[i],
                forall|i: int| 0 <= i < x ==> data@[y * ROW_BYTES + i] == row@[i],
            decreases ROW_BYTES - x,
        {
            data.push(row[x]);
            x = x + 1;
        }
        let ghost this_row = row@;
        row = next_row(&row);
        assert forall|x: int| 0 <= x < ROW_BYTES implies row@[x] == pattern_byte(y + 1, x) by {
            let from = (x + ROW_BYTES - 4) % (ROW_BYTES as int);
            assert(this_row[from] == pattern_byte(y as int, from));
            assert((from + ROW_BYTES - 4 * y) % (ROW_BYTES as int) == (x + ROW_BYTES - 4 * (y + 1))
                % (ROW_BYTES as int));
        }
        y = y + 1;
    }
    data
}

} // verus!
