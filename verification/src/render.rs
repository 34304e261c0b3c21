use vstd::prelude::*;

use crate::world::Color;

verus! {

/// The pixel a framebuffer index falls on, in row-major order: the column
/// and the row.
pub fn pixel_coords(index: u32, width: u32) -> (r: (u32, u32))
    requires
        0 < width,
    ensures
        r.0 == index % width,
        r.1 == index / width,
{
    (index % width, index / width)
}

/// Write one shaded color into the four-byte framebuffer cell of pixel
/// `index`: three bytes, red, green, blue. The alpha byte of the cell is
/// fully opaque already and is not touched; no other cell changes.
pub fn write_pixel(frame: &mut Vec<u8>, index: usize, color: Color)
    requires
        4 * index + 4 <= old(frame)@.len(),
    ensures
        final(frame)@.len() == old(frame)@.len(),
        final(frame)@[4 * index] == color.r,
        final(frame)@[4 * index + 1] == color.g,
        final(frame)@[4 * index + 2] == color.b,
        forall|k: int|
            0 <= k < old(frame)@.len() && !(4 * index <= k < 4 * index + 3) ==> final(frame)@[k]
                == old(frame)@[k],
{
    let len: usize = frame.len();
    assert(4 * index + 4 <= len);
    frame.set(4 * index, color.r);
    frame.set(4 * index + 1, color.g);
    frame.set(4 * index + 2, color.b);
}

/// Fill a whole frame: one shaded color per pixel, in pixel order, each
/// written into its own four-byte cell; every alpha byte keeps its value.
/// The frame must hold exactly four bytes per color.
pub fn write_frame(frame: &mut Vec<u8>, colors: &Vec<Color>)
    requires
        old(frame)@.len() == 4 * colors@.len(),
    ensures
        final(frame)@.len() == old(frame)@.len(),
        forall|i: int|
            0 <= i < colors@.len() ==> {
                &&& final(frame)@[4 * i] == colors@[i].r
                &&& final(frame)@[4 * i + 1] == colors@[i].g
                &&& final(frame)@[4 * i + 2] == colors@[i].b
                &&& final(frame)@[4 * i + 3] == old(frame)@[4 * i + 3]
            },
{
    let mut idx: usize = 0;
    while idx < colors.len()
        invariant
            idx <= colors@.len(),
            frame@.len() == old(frame)@.len(),
            old(frame)@.len() == 4 * colors@.len(),
            forall|i: int|
                0 <= i < idx ==> {
                    &&& frame@[4 * i] == colors@[i].r
                    &&& frame@[4 * i + 1] == colors@[i].g
                    &&& frame@[4 * i + 2] == colors@[i].b
                    &&& frame@[4 * i + 3] == old(frame)@[4 * i + 3]
                },
            forall|k: int| 4 * idx <= k < frame@.len() ==> frame@[k] == old(frame)@[k],
        decreases colors@.len() - idx,
    {
        write_pixel(frame, idx, colors[idx]);
        idx = idx + 1;
    }
}

} // verus!
