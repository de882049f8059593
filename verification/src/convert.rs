//! The six faces of a cube: where each one points, and where each one lands
//! in a cubemap texture.

use crate::format::{pixel_size, spec_pixel_size};
use crate::sample::{
    gather, gathered_byte, lemma_byte_of_pixel, lemma_texel_bytes_in_range, SampleMap, Texel,
};
use vstd::prelude::*;
use wgpu_types::TextureFormat;

verus! {

/// One face of the cube, named by the axis it looks along.
#[derive(Copy, Clone, Hash, Debug, Eq, PartialEq, Structural)]
pub enum CubeSide {
    X,
    NegX,
    Y,
    NegY,
    Z,
    NegZ,
}

/// A point on the surface of the cube `[-1, 1]^3`, seen from its centre.
///
/// The three coordinates are the fractions `x / scale`, `y / scale` and
/// `z / scale`; keeping the common denominator apart keeps them exact.
#[derive(Copy, Clone, Debug, Eq, PartialEq, Structural)]
pub struct Direction {
    pub x: i64,
    pub y: i64,
    pub z: i64,
    pub scale: i64,
}

/// A [`Direction`] over the integers.
pub struct Point {
    pub x: int,
    pub y: int,
    pub z: int,
    pub scale: int,
}

impl View for Direction {
    type V = Point;

    open spec fn view(&self) -> Point {
        Point { x: self.x as int, y: self.y as int, z: self.z as int, scale: self.scale as int }
    }
}

/// Where pixel `coord` of a row of `res` pixels lies between -1 and 1, as a
/// numerator over `res - 1`: the first pixel is -1, the last one is 1.
pub open spec fn offset(coord: int, res: int) -> int {
    2 * coord - (res - 1)
}

impl CubeSide {
    /// Every face, once, in declaration order.
    pub const ALL: [CubeSide; 6] = [
        CubeSide::X,
        CubeSide::NegX,
        CubeSide::Y,
        CubeSide::NegY,
        CubeSide::Z,
        CubeSide::NegZ,
    ];

    /// The place of this face in [`CubeSide::ALL`].
    pub open spec fn ordinal(self) -> int {
        match self {
            CubeSide::X => 0,
            CubeSide::NegX => 1,
            CubeSide::Y => 2,
            CubeSide::NegY => 3,
            CubeSide::Z => 4,
            CubeSide::NegZ => 5,
        }
    }

    /// The layer of the cubemap texture that holds this face.
    pub open spec fn layer(self) -> int {
        match self {
            CubeSide::X => 0,
            CubeSide::NegX => 1,
            CubeSide::NegY => 2,
            CubeSide::Y => 3,
            CubeSide::NegZ => 4,
            CubeSide::Z => 5,
        }
    }

    /// The face that a layer of the cubemap texture holds.
    pub open spec fn at_layer(layer: int) -> CubeSide {
        if layer == 0 {
            CubeSide::X
        } else if layer == 1 {
            CubeSide::NegX
        } else if layer == 2 {
            CubeSide::NegY
        } else if layer == 3 {
            CubeSide::Y
        } else if layer == 4 {
            CubeSide::NegZ
        } else {
            CubeSide::Z
        }
    }

    /// `1` for the faces that look along their axis, `-1` for those that look
    /// against it.
    pub open spec fn sign(self) -> int {
        match self {
            CubeSide::X | CubeSide::Y | CubeSide::Z => 1,
            CubeSide::NegX | CubeSide::NegY | CubeSide::NegZ => -1,
        }
    }

    /// The coordinate of `p` along the axis this face is named after.
    pub open spec fn along(self, p: Point) -> int {
        match self {
            CubeSide::X | CubeSide::NegX => p.x,
            CubeSide::Y | CubeSide::NegY => p.y,
            CubeSide::Z | CubeSide::NegZ => p.z,
        }
    }

    /// The point of this face that pixel `(pixel_x, pixel_y)` of a
    /// `res` by `res` grid stands for.
    pub open spec fn direction(self, pixel_x: int, pixel_y: int, res: int) -> Point {
        let one = res - 1;
        let offset_x = offset(pixel_x, res);
        let offset_y = offset(pixel_y, res);
        match self {
            CubeSide::X => Point { x: one, y: offset_y, z: offset_x, scale: one },
            CubeSide::NegX => Point { x: -one, y: offset_y, z: -offset_x, scale: one },
            CubeSide::Y => Point { x: offset_x, y: one, z: offset_y, scale: one },
            CubeSide::NegY => Point { x: offset_x, y: -one, z: offset_y, scale: one },
            CubeSide::Z => Point { x: offset_x, y: offset_y, z: one, scale: one },
            CubeSide::NegZ => Point { x: -offset_x, y: offset_y, z: -one, scale: one },
        }
    }

    /// The place of this face in [`CubeSide::ALL`].
    fn position(&self) -> (i: usize)
        ensures
            i == self.ordinal(),
    {
        match self {
            CubeSide::X => 0,
            CubeSide::NegX => 1,
            CubeSide::Y => 2,
            CubeSide::NegY => 3,
            CubeSide::Z => 4,
            CubeSide::NegZ => 5,
        }
    }

    /// The bytes of this face of the cubemap: for each of its `res * res`
    /// pixels, row by row, the bytes of the source texel that `samples` names
    /// for it, copied as they are.
    pub fn gen_face(
        &self,
        equirect_width: u32,
        equirect_height: u32,
        equirect_data: &[u8],
        res: u32,
        format: TextureFormat,
        samples: &SampleMap,
    ) -> (out: Vec<u8>)
        requires
            res >= 2,
            spec_pixel_size(format) is Some,
            equirect_data@.len() == equirect_width * equirect_height * spec_pixel_size(
                format,
            )->Some_0,
            samples.wf(),
            samples.res == res,
            forall|i: int|
                0 <= i < samples.face(*self).len() ==> (#[trigger] samples.face(*self)[i]).within(
                    equirect_width as int,
                    equirect_height as int,
                ),
            res * res * spec_pixel_size(format)->Some_0 <= usize::MAX,
        ensures
            out@ == gather(
                equirect_data@,
                equirect_width as int,
                spec_pixel_size(format)->Some_0 as int,
                samples.face(*self),
            ),
            out@.len() == res * res * spec_pixel_size(format)->Some_0,
    {
        let bpp: usize = pixel_size(&format).unwrap() as usize;
        let table: &Vec<Texel> = &samples.faces[self.position()];
        let count: usize = table.len();
        let width: usize = equirect_width as usize;
        let ghost height: int = equirect_height as int;
        let ghost data: Seq<u8> = equirect_data@;
        let total: usize = equirect_data.len();
        assert(table@ == samples.face(*self));
        let mut out: Vec<u8> = Vec::with_capacity(count * bpp);
        let mut i: usize = 0;
        while i < count
            invariant
                i <= count,
                count == table@.len(),
                bpp >= 1,
                count * bpp <= usize::MAX,
                0 <= height,
                data == equirect_data@,
                data.len() == total,
                data.len() == width * height * bpp,
                forall|j: int|
                    0 <= j < count ==> (#[trigger] table@[j]).within(width as int, height),
                out@.len() == i * bpp,
                forall|j: int|
                    0 <= j < i * bpp ==> out@[j] == #[trigger] gathered_byte(
                        data,
                        width as int,
                        bpp as int,
                        table@,
                        j,
                    ),
            decreases count - i,
        {
            let texel: Texel = table[i];
            proof {
                assert(texel.within(width as int, height));
                lemma_texel_bytes_in_range(texel, width as int, height, bpp as int);
            }
            let start: usize = (texel.y as usize * width + texel.x as usize) * bpp;
            let mut k: usize = 0;
            while k < bpp
                invariant
                    k <= bpp,
                    i < count,
                    count == table@.len(),
                    texel == table@[i as int],
                    data == equirect_data@,
                    data.len() == total,
                    start == texel.index(width as int) * bpp,
                    start + bpp <= data.len(),
                    out@.len() == i * bpp + k,
                    forall|j: int|
                        0 <= j < i * bpp + k ==> out@[j] == #[trigger] gathered_byte(
                            data,
                            width as int,
                            bpp as int,
                            table@,
                            j,
                        ),
                decreases bpp - k,
            {
                proof {
                    lemma_byte_of_pixel(i as int, k as int, bpp as int);
                }
                out.push(equirect_data[start + k]);
                k += 1;
            }
            assert(i * bpp + bpp == (i + 1) * bpp) by (nonlinear_arith);
            i += 1;
        }
        out
    }

    /// The layer of the cubemap texture that holds this face.
    pub fn get_cubemap_index(&self) -> (index: u32)
        ensures
            index == self.layer(),
    {
        match self {
            CubeSide::X => 0,
            CubeSide::NegX => 1,
            CubeSide::NegY => 2,
            CubeSide::Y => 3,
            CubeSide::Z => 5,
            CubeSide::NegZ => 4,
        }
    }

    /// The point of this face that pixel `(pixel_x, pixel_y)` of a
    /// `res` by `res` grid stands for.
    pub fn get_xyz_form_pixel_coords(&self, pixel_x: u32, pixel_y: u32, res: u32) -> (pos:
        Direction)
        requires
            res >= 2,
        ensures
            pos@ == self.direction(pixel_x as int, pixel_y as int, res as int),
    {
        let one: i64 = res as i64 - 1;
        let offset_x: i64 = 2 * (pixel_x as i64) - one;
        let offset_y: i64 = 2 * (pixel_y as i64) - one;
        match self {
            CubeSide::X => Direction { x: one, y: offset_y, z: offset_x, scale: one },
            CubeSide::NegX => Direction { x: -one, y: offset_y, z: -offset_x, scale: one },
            CubeSide::Y => Direction { x: offset_x, y: one, z: offset_y, scale: one },
            CubeSide::NegY => Direction { x: offset_x, y: -one, z: offset_y, scale: one },
            CubeSide::Z => Direction { x: offset_x, y: offset_y, z: one, scale: one },
            CubeSide::NegZ => Direction { x: -offset_x, y: offset_y, z: -one, scale: one },
        }
    }
}

/// The faces and the layers of a cubemap stand one to one: each face has one
/// of the six layers, and each layer holds the one face that has it.
pub proof fn lemma_layers_are_a_permutation(side: CubeSide, layer: int)
    requires
        0 <= layer < 6,
    ensures
        0 <= side.layer() < 6,
        CubeSide::at_layer(side.layer()) == side,
        CubeSide::at_layer(layer).layer() == layer,
        0 <= side.ordinal() < 6,
        CubeSide::ALL[side.ordinal()] == side,
{
}

/// Every pixel of a face maps to a point of that face of the cube: the
/// coordinate along the face's axis is exactly 1 or -1 (by the face's sign),
/// and the other two lie between -1 and 1.
pub proof fn lemma_direction_lies_on_face(side: CubeSide, pixel_x: int, pixel_y: int, res: int)
    requires
        2 <= res,
        0 <= pixel_x < res,
        0 <= pixel_y < res,
    ensures
        ({
            let p = side.direction(pixel_x, pixel_y, res);
            &&& p.scale == res - 1
            &&& side.sign() == 1 ==> side.along(p) == p.scale
            &&& side.sign() == -1 ==> side.along(p) == -p.scale
            &&& -p.scale <= p.x <= p.scale
            &&& -p.scale <= p.y <= p.scale
            &&& -p.scale <= p.z <= p.scale
        }),
{
}

/// The first pixel of a row sits at -1 and the last one at 1, so the four
/// corner pixels of a face are the four corners of that face of the cube;
/// where the row has a middle pixel, it sits at 0.
pub proof fn lemma_offset_of_corners_and_center(res: int)
    requires
        2 <= res,
    ensures
        offset(0, res) == -(res - 1),
        offset(res - 1, res) == res - 1,
        res % 2 == 1 ==> offset((res - 1) / 2, res) == 0,
        res % 2 == 1 ==> CubeSide::X.direction((res - 1) / 2, (res - 1) / 2, res) == (Point {
            x: res - 1,
            y: 0,
            z: 0,
            scale: res - 1,
        }),
{
}

} // verus!
