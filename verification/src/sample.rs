//! Which source texel each pixel of each cube face is copied from.

use crate::convert::CubeSide;
use vstd::prelude::*;

verus! {

/// The position of one texel of the source panorama: column `x` of row `y`.
#[derive(Copy, Clone, Debug, Eq, PartialEq, Structural)]
pub struct Texel {
    pub x: u32,
    pub y: u32,
}

impl Texel {
    /// The number of texels that come before this one in a row-major buffer
    /// whose rows hold `width` texels.
    pub open spec fn index(self, width: int) -> int {
        self.y * width + self.x
    }

    /// Whether this texel can be read from a `width` by `height` buffer. The
    /// test is on the texel's place in the buffer, not on its column: a
    /// column past the end of a row reads on into the next row.
    pub open spec fn within(self, width: int, height: int) -> bool {
        self.index(width) < width * height
    }
}

/// The bytes of the texels that `texels` names, one texel after the other:
/// `bpp` bytes each, read from a row-major buffer `data` whose rows hold
/// `width` texels.
pub open spec fn gather(data: Seq<u8>, width: int, bpp: int, texels: Seq<Texel>) -> Seq<u8> {
    Seq::new((texels.len() * bpp) as nat, |j: int| gathered_byte(data, width, bpp, texels, j))
}

/// Byte `j` of [`gather`]: byte `j % bpp` of the texel that pixel `j / bpp`
/// is copied from.
pub open spec fn gathered_byte(data: Seq<u8>, width: int, bpp: int, texels: Seq<Texel>, j: int)
    -> u8 {
    data[texels[j / bpp].index(width) * bpp + j % bpp]
}

/// Byte `k` of pixel `i` is byte `i * bpp + k` of a buffer of `bpp`-byte
/// pixels, and the other way round.
pub proof fn lemma_byte_of_pixel(i: int, k: int, bpp: int)
    requires
        0 <= i,
        0 <= k < bpp,
    ensures
        (i * bpp + k) / bpp == i,
        (i * bpp + k) % bpp == k,
{
    vstd::arithmetic::div_mod::lemma_fundamental_div_mod_converse(i * bpp + k, bpp, i, k);
}

/// A texel that can be read from a `width` by `height` buffer of `bpp`-byte
/// texels has all its bytes inside that buffer.
pub proof fn lemma_texel_bytes_in_range(texel: Texel, width: int, height: int, bpp: int)
    by (nonlinear_arith)
    requires
        0 <= width,
        0 <= height,
        1 <= bpp,
        texel.within(width, height),
    ensures
        0 <= texel.y * width <= texel.index(width),
        texel.index(width) * bpp + bpp <= width * height * bpp,
        texel.index(width) <= texel.index(width) * bpp,
{
}

/// The product of two `u32`, which a `u64` always holds with room for one
/// more `u32`.
pub(crate) fn mul_u32(a: u32, b: u32) -> (product: u64)
    ensures
        product == a * b,
        product + u32::MAX <= u64::MAX,
{
    assert(0 <= a * b <= 0xffff_ffff * 0xffff_ffff) by (nonlinear_arith)
        requires
            0 <= a <= 0xffff_ffff,
            0 <= b <= 0xffff_ffff,
    ;
    (a as u64) * (b as u64)
}

/// The product of a `u64` and a `u32`, which a `u128` always holds, six
/// times over.
pub(crate) fn mul_u64_u32(a: u64, b: u32) -> (product: u128)
    ensures
        product == a * b,
        product * 6 <= u128::MAX,
{
    assert(0 <= a * b <= 0xffff_ffff_ffff_ffff * 0xffff_ffff) by (nonlinear_arith)
        requires
            0 <= a <= 0xffff_ffff_ffff_ffff,
            0 <= b <= 0xffff_ffff,
    ;
    (a as u128) * (b as u128)
}

/// For each face of the cube, the source texel of each of its pixels.
///
/// `faces` holds one table per face, in the order of [`CubeSide::ALL`]; a
/// table holds the pixels of its face row by row, `res` pixels to a row.
#[derive(Debug, Eq, PartialEq)]
pub struct SampleMap {
    pub res: u32,
    pub faces: Vec<Vec<Texel>>,
}

impl SampleMap {
    /// Six tables of `res * res` texels each.
    pub open spec fn wf(&self) -> bool {
        &&& self.faces@.len() == 6
        &&& forall|f: int| 0 <= f < 6 ==> (#[trigger] self.faces@[f])@.len() == self.res * self.res
    }

    /// The table of one face.
    pub open spec fn face(&self, side: CubeSide) -> Seq<Texel> {
        self.faces@[side.ordinal()]@
    }

    /// The source texel of pixel `(x, y)` of one face.
    pub open spec fn texel(&self, side: CubeSide, x: int, y: int) -> Texel {
        self.face(side)[y * self.res + x]
    }

    /// Whether every texel of every table can be read from a `width` by
    /// `height` buffer.
    pub open spec fn within(&self, width: int, height: int) -> bool {
        forall|f: int, i: int|
            0 <= f < self.faces@.len() && 0 <= i < self.faces@[f]@.len() ==> (
            #[trigger] self.faces@[f]@[i]).within(width, height)
    }

    /// Whether every texel of every table can be read from a `width` by
    /// `height` buffer.
    pub fn is_within(&self, width: u32, height: u32) -> (ok: bool)
        ensures
            ok == self.within(width as int, height as int),
    {
        let texels: u64 = mul_u32(width, height);
        let mut f: usize = 0;
        while f < self.faces.len()
            invariant
                f <= self.faces@.len(),
                texels == width * height,
                forall|g: int, i: int|
                    0 <= g < f && 0 <= i < self.faces@[g]@.len() ==> (
                    #[trigger] self.faces@[g]@[i]).within(width as int, height as int),
            decreases self.faces@.len() - f,
        {
            let table: &Vec<Texel> = &self.faces[f];
            let mut i: usize = 0;
            while i < table.len()
                invariant
                    i <= table@.len(),
                    f < self.faces@.len(),
                    table@ == self.faces@[f as int]@,
                    texels == width * height,
                    forall|h: int|
                        0 <= h < i ==> (#[trigger] table@[h]).within(width as int, height as int),
                decreases table@.len() - i,
            {
                let texel: Texel = table[i];
                let index: u64 = mul_u32(texel.y, width) + texel.x as u64;
                if index >= texels {
                    assert(!self.faces@[f as int]@[i as int].within(width as int, height as int));
                    return false;
                }
                i += 1;
            }
            f += 1;
        }
        true
    }

    /// Whether the map holds six tables of `res * res` texels each.
    pub fn is_well_formed(&self) -> (ok: bool)
        ensures
            ok == self.wf(),
    {
        if self.faces.len() != 6 {
            return false;
        }
        let area: u64 = mul_u32(self.res, self.res);
        let mut f: usize = 0;
        while f < 6
            invariant
                f <= 6,
                self.faces@.len() == 6,
                area == self.res * self.res,
                forall|g: int| 0 <= g < f ==> (#[trigger] self.faces@[g])@.len() == area,
            decreases 6 - f,
        {
            if self.faces[f].len() as u64 != area {
                return false;
            }
            f += 1;
        }
        true
    }
}

} // verus!
