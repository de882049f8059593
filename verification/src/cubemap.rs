//! Assembling the six faces into one cubemap texture.

use crate::convert::CubeSide;
use crate::format::{pixel_size, spec_pixel_size};
use crate::sample::{
    gather, lemma_byte_of_pixel, lemma_texel_bytes_in_range, mul_u32, mul_u64_u32, SampleMap,
};
use vstd::prelude::*;
use wgpu_types::TextureFormat;

verus! {

/// How many dimensions the texels of a texture are laid out in.
#[derive(Copy, Clone, Debug, Eq, PartialEq, Structural)]
pub enum TextureDimension {
    D1,
    D2,
    D3,
}

/// How a texture is to be looked at when it is sampled.
#[derive(Copy, Clone, Debug, Eq, PartialEq, Structural)]
pub enum TextureViewDimension {
    D1,
    D2,
    D2Array,
    Cube,
    CubeArray,
    D3,
}

/// A decoded texture: its bytes, and what is needed to read them.
///
/// `data` holds the layers one after the other, each layer row by row.
#[derive(Debug, Eq, PartialEq)]
pub struct Image {
    pub data: Vec<u8>,
    pub width: u32,
    pub height: u32,
    pub depth_or_array_layers: u32,
    pub dimension: TextureDimension,
    pub format: TextureFormat,
    pub view_dimension: Option<TextureViewDimension>,
}

/// Why a panorama cannot be converted.
#[derive(Copy, Clone, Debug, Eq, PartialEq, Structural)]
pub enum ConvertError {
    /// The face resolution is below 2.
    ResolutionTooSmall,
    /// Pixels of the source's format cannot be copied one by one.
    UnsupportedFormat,
    /// The source has no columns or no rows.
    EmptySource,
    /// The source's buffer is not `width * height` pixels long.
    DataLengthMismatch,
    /// The cubemap's bytes could not be counted in a `usize`.
    OutputTooLarge,
    /// The sample map does not hold six tables of `res * res` texels.
    MalformedSampleMap,
    /// The sample map names a texel outside the source.
    SampleOutOfBounds,
}

impl Image {
    /// The bytes of one pixel, where the format has pixels.
    pub open spec fn bpp(&self) -> int {
        spec_pixel_size(self.format)->Some_0 as int
    }

    /// The bytes of face `side` of the cubemap that `samples` makes of this
    /// panorama.
    pub open spec fn face_bytes(&self, samples: &SampleMap, side: CubeSide) -> Seq<u8> {
        gather(self.data@, self.width as int, self.bpp(), samples.face(side))
    }

    /// The bytes of the cubemap that `samples` makes of this panorama: its
    /// six faces, in the order in which a cubemap texture holds them.
    pub open spec fn cubemap_bytes(&self, samples: &SampleMap) -> Seq<u8> {
        self.face_bytes(samples, CubeSide::X) + self.face_bytes(samples, CubeSide::NegX)
            + self.face_bytes(samples, CubeSide::NegY) + self.face_bytes(samples, CubeSide::Y)
            + self.face_bytes(samples, CubeSide::NegZ) + self.face_bytes(samples, CubeSide::Z)
    }

    /// Whether `cubemap` is the cubemap of face resolution `res` that
    /// `samples` makes of this panorama.
    pub open spec fn converts_to(&self, res: u32, samples: &SampleMap, cubemap: &Image) -> bool {
        &&& cubemap.width == res
        &&& cubemap.height == res
        &&& cubemap.depth_or_array_layers == 6
        &&& cubemap.dimension == TextureDimension::D2
        &&& cubemap.format == self.format
        &&& cubemap.view_dimension == Some(TextureViewDimension::Cube)
        &&& cubemap.data@ == self.cubemap_bytes(samples)
    }
}

/// The first reason for which `equirect` cannot be converted at face
/// resolution `res` with `samples`, or `None` where it can.
pub open spec fn conversion_error(equirect: &Image, res: u32, samples: &SampleMap) -> Option<
    ConvertError,
> {
    if res < 2 {
        Some(ConvertError::ResolutionTooSmall)
    } else if spec_pixel_size(equirect.format) is None {
        Some(ConvertError::UnsupportedFormat)
    } else if equirect.width == 0 || equirect.height == 0 {
        Some(ConvertError::EmptySource)
    } else if equirect.data@.len() != equirect.width * equirect.height * equirect.bpp() {
        Some(ConvertError::DataLengthMismatch)
    } else if res * res * equirect.bpp() * 6 > usize::MAX {
        Some(ConvertError::OutputTooLarge)
    } else if !samples.wf() || samples.res != res {
        Some(ConvertError::MalformedSampleMap)
    } else if !samples.within(equirect.width as int, equirect.height as int) {
        Some(ConvertError::SampleOutOfBounds)
    } else {
        None
    }
}

/// Whether layer `layer` of `out`, a buffer of layers of `face_size` bytes
/// each, holds the face of the cubemap that belongs there.
pub open spec fn layer_holds_face(
    out: Seq<u8>,
    face_size: int,
    equirect: &Image,
    samples: &SampleMap,
    layer: int,
) -> bool {
    out.subrange(layer * face_size, layer * face_size + face_size) == equirect.face_bytes(
        samples,
        CubeSide::at_layer(layer),
    )
}

/// Each of the six layers of a buffer lies inside it.
proof fn lemma_layer_in_buffer(layer: int, face_size: int)
    by (nonlinear_arith)
    requires
        0 <= layer < 6,
        0 <= face_size,
    ensures
        0 <= layer * face_size,
        layer * face_size + face_size <= face_size * 6,
        face_size * layer == layer * face_size,
{
}

/// Two different layers of a buffer do not overlap.
proof fn lemma_layers_apart(a: int, b: int, face_size: int)
    by (nonlinear_arith)
    requires
        0 <= a,
        0 <= b,
        a != b,
        0 <= face_size,
    ensures
        a * face_size + face_size <= b * face_size || b * face_size + face_size <= a * face_size,
{
}

/// The cubemap texture of face resolution `cubemap_res` that `samples` makes
/// of the panorama `equirect`: six square layers in the panorama's format,
/// to be viewed as a cube, each pixel the copy of the source texel that
/// `samples` names for it.
pub fn cubemap_from_equirectangular(equirect: &Image, cubemap_res: u32, samples: &SampleMap) -> (cubemap:
    Image)
    requires
        conversion_error(equirect, cubemap_res, samples) is None,
    ensures
        equirect.converts_to(cubemap_res, samples, &cubemap),
        cubemap.data@.len() == cubemap_res * cubemap_res * equirect.bpp() * 6,
{
    let format = equirect.format;
    let bpp: usize = pixel_size(&format).unwrap() as usize;
    let res: usize = cubemap_res as usize;
    proof {
        lemma_face_size_bounds(res as int, bpp as int);
    }
    let face_size: usize = res * res * bpp;
    let out_size: usize = face_size * 6;
    let mut out: Vec<u8> = vec![0u8; out_size];
    let mut f: usize = 0;
    while f < 6
        invariant
            f <= 6,
            conversion_error(equirect, cubemap_res, samples) is None,
            format == equirect.format,
            bpp == equirect.bpp(),
            face_size == cubemap_res * cubemap_res * bpp,
            out_size == face_size * 6,
            out@.len() == out_size,
            forall|l: int|
                0 <= l < 6 && CubeSide::at_layer(l).ordinal() < f ==> #[trigger] layer_holds_face(
                    out@,
                    face_size as int,
                    equirect,
                    samples,
                    l,
                ),
        decreases 6 - f,
    {
        let face: CubeSide = CubeSide::ALL[f];
        assert(face.ordinal() == f);
        let data: Vec<u8> = face.gen_face(
            equirect.width,
            equirect.height,
            equirect.data.as_slice(),
            cubemap_res,
            format,
            samples,
        );
        assert(data@ == equirect.face_bytes(samples, face));
        assert(data@.len() == face_size);
        proof {
            lemma_layer_in_buffer(face.layer(), face_size as int);
        }
        let index: usize = face_size * (face.get_cubemap_index() as usize);
        let ghost before: Seq<u8> = out@;
        let mut j: usize = 0;
        while j < face_size
            invariant
                j <= face_size,
                index + face_size <= out_size,
                out@.len() == out_size,
                before.len() == out_size,
                data@.len() == face_size,
                forall|q: int| 0 <= q < index || index + j <= q < out_size ==> out@[q] == before[q],
                forall|q: int| 0 <= q < j ==> out@[index + q] == data@[q],
            decreases face_size - j,
        {
            out[index + j] = data[j];
            j += 1;
        }
        proof {
            let layer = face.layer();
            assert(CubeSide::at_layer(layer) == face);
            assert(out@.subrange(index as int, index + face_size) =~= data@);
            assert forall|l: int|
                0 <= l < 6 && CubeSide::at_layer(l).ordinal() < f + 1 implies #[trigger] layer_holds_face(
                out@,
                face_size as int,
                equirect,
                samples,
                l,
            ) by {
                if l != layer {
                    assert(CubeSide::at_layer(l).ordinal() < f);
                    assert(layer_holds_face(before, face_size as int, equirect, samples, l));
                    lemma_layers_apart(l, layer, face_size as int);
                    lemma_layer_in_buffer(l, face_size as int);
                    assert(out@.subrange(l * face_size, l * face_size + face_size)
                        =~= before.subrange(l * face_size, l * face_size + face_size));
                }
            }
        }
        f += 1;
    }
    proof {
        lemma_cubemap_from_layers(out@, face_size as int, equirect, samples);
    }
    Image {
        data: out,
        width: cubemap_res,
        height: cubemap_res,
        depth_or_array_layers: 6,
        dimension: TextureDimension::D2,
        format,
        view_dimension: Some(TextureViewDimension::Cube),
    }
}

/// Converts the panorama `equirect` to a cubemap of face resolution `res`
/// where that can be done, and says why not where it cannot.
///
/// The result depends on nothing but the arguments: the same panorama,
/// resolution and sample map give the same cubemap, byte for byte.
pub fn convert(equirect: &Image, res: u32, samples: &SampleMap) -> (result: Result<
    Image,
    ConvertError,
>)
    ensures
        match result {
            Ok(cubemap) => conversion_error(equirect, res, samples) is None && equirect.converts_to(
                res,
                samples,
                &cubemap,
            ),
            Err(error) => conversion_error(equirect, res, samples) == Some(error),
        },
{
    if res < 2 {
        return Err(ConvertError::ResolutionTooSmall);
    }
    let bpp: u32 = match pixel_size(&equirect.format) {
        Some(size) => size,
        None => {
            return Err(ConvertError::UnsupportedFormat);
        },
    };
    if equirect.width == 0 || equirect.height == 0 {
        return Err(ConvertError::EmptySource);
    }
    let texels: u64 = mul_u32(equirect.width, equirect.height);
    let wanted: u128 = mul_u64_u32(texels, bpp);
    if equirect.data.len() as u128 != wanted {
        return Err(ConvertError::DataLengthMismatch);
    }
    let pixels: u64 = mul_u32(res, res);
    let face_size: u128 = mul_u64_u32(pixels, bpp);
    if face_size * 6 > usize::MAX as u128 {
        return Err(ConvertError::OutputTooLarge);
    }
    if !samples.is_well_formed() || samples.res != res {
        return Err(ConvertError::MalformedSampleMap);
    }
    if !samples.is_within(equirect.width, equirect.height) {
        return Err(ConvertError::SampleOutOfBounds);
    }
    Ok(cubemap_from_equirectangular(equirect, res, samples))
}

/// Where a cubemap of `res * res * bpp * 6` bytes can be counted in a
/// `usize`, so can each of its parts.
proof fn lemma_face_size_bounds(res: int, bpp: int)
    by (nonlinear_arith)
    requires
        0 <= res,
        1 <= bpp,
        res * res * bpp * 6 <= usize::MAX,
    ensures
        0 <= res * res <= usize::MAX,
        0 <= res * res * bpp <= usize::MAX,
        res * res * bpp * 6 == (res * res * bpp) * 6,
{
}

/// A buffer whose six layers each hold their face is the cubemap.
proof fn lemma_cubemap_from_layers(
    out: Seq<u8>,
    face_size: int,
    equirect: &Image,
    samples: &SampleMap,
)
    requires
        0 <= face_size,
        out.len() == face_size * 6,
        forall|l: int|
            0 <= l < 6 ==> #[trigger] layer_holds_face(out, face_size, equirect, samples, l),
    ensures
        out == equirect.cubemap_bytes(samples),
{
    assert(layer_holds_face(out, face_size, equirect, samples, 0));
    assert(layer_holds_face(out, face_size, equirect, samples, 1));
    assert(layer_holds_face(out, face_size, equirect, samples, 2));
    assert(layer_holds_face(out, face_size, equirect, samples, 3));
    assert(layer_holds_face(out, face_size, equirect, samples, 4));
    assert(layer_holds_face(out, face_size, equirect, samples, 5));
    let l0 = out.subrange(0, face_size);
    let l1 = out.subrange(face_size, 2 * face_size);
    let l2 = out.subrange(2 * face_size, 3 * face_size);
    let l3 = out.subrange(3 * face_size, 4 * face_size);
    let l4 = out.subrange(4 * face_size, 5 * face_size);
    let l5 = out.subrange(5 * face_size, 6 * face_size);
    assert(out =~= l0 + l1 + l2 + l3 + l4 + l5);
}

/// The six layers of a cubemap are its faces in a fixed order: +X, -X, -Y,
/// +Y, -Z, +Z. Layer `layer` starts `layer` face sizes into the buffer and
/// holds the face that [`CubeSide::at_layer`] names, which is the one face
/// whose [`CubeSide::layer`] it is.
pub proof fn lemma_layer_order(equirect: &Image, res: u32, samples: &SampleMap, layer: int)
    requires
        conversion_error(equirect, res, samples) is None,
        0 <= layer < 6,
    ensures
        ({
            let face_size = res * res * equirect.bpp();
            let bytes = equirect.cubemap_bytes(samples);
            &&& bytes.subrange(layer * face_size, layer * face_size + face_size)
                == equirect.face_bytes(samples, CubeSide::at_layer(layer))
            &&& CubeSide::at_layer(layer).layer() == layer
        }),
        CubeSide::at_layer(0) == CubeSide::X,
        CubeSide::at_layer(1) == CubeSide::NegX,
        CubeSide::at_layer(2) == CubeSide::NegY,
        CubeSide::at_layer(3) == CubeSide::Y,
        CubeSide::at_layer(4) == CubeSide::NegZ,
        CubeSide::at_layer(5) == CubeSide::Z,
{
    let face_size = res * res * equirect.bpp();
    lemma_face_len(equirect, res, samples, CubeSide::X);
    lemma_face_len(equirect, res, samples, CubeSide::NegX);
    lemma_face_len(equirect, res, samples, CubeSide::NegY);
    lemma_face_len(equirect, res, samples, CubeSide::Y);
    lemma_face_len(equirect, res, samples, CubeSide::NegZ);
    lemma_face_len(equirect, res, samples, CubeSide::Z);
    let bytes = equirect.cubemap_bytes(samples);
    let face = equirect.face_bytes(samples, CubeSide::at_layer(layer));
    if layer == 0 {
        assert(bytes.subrange(0, face_size) =~= face);
    } else if layer == 1 {
        assert(bytes.subrange(face_size, face_size + face_size) =~= face);
    } else if layer == 2 {
        assert(bytes.subrange(2 * face_size, 2 * face_size + face_size) =~= face);
    } else if layer == 3 {
        assert(bytes.subrange(3 * face_size, 3 * face_size + face_size) =~= face);
    } else if layer == 4 {
        assert(bytes.subrange(4 * face_size, 4 * face_size + face_size) =~= face);
    } else {
        assert(bytes.subrange(5 * face_size, 5 * face_size + face_size) =~= face);
    }
}

/// Each face of a cubemap has `res * res` pixels of `bpp` bytes.
pub proof fn lemma_face_len(equirect: &Image, res: u32, samples: &SampleMap, side: CubeSide)
    requires
        conversion_error(equirect, res, samples) is None,
    ensures
        equirect.face_bytes(samples, side).len() == res * res * equirect.bpp(),
{
    assert(samples.face(side).len() == res * res);
    assert(res * res * equirect.bpp() >= 0) by (nonlinear_arith)
        requires
            equirect.bpp() >= 1,
    ;
}

/// A cubemap has `res * res * bpp * 6` bytes, whatever the panorama holds.
pub proof fn lemma_cubemap_len(equirect: &Image, res: u32, samples: &SampleMap)
    requires
        conversion_error(equirect, res, samples) is None,
    ensures
        equirect.cubemap_bytes(samples).len() == res * res * equirect.bpp() * 6,
{
    lemma_face_len(equirect, res, samples, CubeSide::X);
    lemma_face_len(equirect, res, samples, CubeSide::NegX);
    lemma_face_len(equirect, res, samples, CubeSide::NegY);
    lemma_face_len(equirect, res, samples, CubeSide::Y);
    lemma_face_len(equirect, res, samples, CubeSide::NegZ);
    lemma_face_len(equirect, res, samples, CubeSide::Z);
}

/// Conversion is a function of its arguments: two cubemaps made of the same
/// panorama at the same resolution with the same sample map agree in every
/// field and in every byte.
pub proof fn lemma_conversion_is_deterministic(
    equirect: &Image,
    res: u32,
    samples: &SampleMap,
    first: &Image,
    second: &Image,
)
    requires
        equirect.converts_to(res, samples, first),
        equirect.converts_to(res, samples, second),
    ensures
        first.data@ == second.data@,
        first.width == second.width,
        first.height == second.height,
        first.depth_or_array_layers == second.depth_or_array_layers,
        first.dimension == second.dimension,
        first.format == second.format,
        first.view_dimension == second.view_dimension,
{
}

/// Pixel `(x, y)` of a face is a copy of the texel that the sample map names
/// for it: byte `k` of the pixel, which is byte `(y * res + x) * bpp + k` of
/// the face, is byte `k` of that texel in the panorama.
pub proof fn lemma_face_pixel(
    equirect: &Image,
    res: u32,
    samples: &SampleMap,
    side: CubeSide,
    x: int,
    y: int,
    k: int,
)
    requires
        conversion_error(equirect, res, samples) is None,
        0 <= x < res,
        0 <= y < res,
        0 <= k < equirect.bpp(),
    ensures
        ({
            let bpp = equirect.bpp();
            let texel = samples.texel(side, x, y);
            &&& 0 <= (y * res + x) * bpp + k < equirect.face_bytes(samples, side).len()
            &&& 0 <= texel.index(equirect.width as int) * bpp + k < equirect.data@.len()
            &&& equirect.face_bytes(samples, side)[(y * res + x) * bpp + k]
                == equirect.data@[texel.index(equirect.width as int) * bpp + k]
        }),
{
    let bpp = equirect.bpp();
    let pixel = y * res + x;
    lemma_face_len(equirect, res, samples, side);
    assert(0 <= pixel < res * res) by (nonlinear_arith)
        requires
            0 <= x < res,
            0 <= y < res,
            pixel == y * res + x,
    ;
    assert(pixel * bpp + k < res * res * bpp) by (nonlinear_arith)
        requires
            0 <= pixel < res * res,
            0 <= k < bpp,
    ;
    assert(0 <= pixel * bpp) by (nonlinear_arith)
        requires
            0 <= pixel,
            0 <= bpp,
    ;
    lemma_byte_of_pixel(pixel, k, bpp);
    let texel = samples.texel(side, x, y);
    assert(texel == samples.faces@[side.ordinal()]@[pixel]);
    assert(texel.within(equirect.width as int, equirect.height as int));
    lemma_texel_bytes_in_range(texel, equirect.width as int, equirect.height as int, bpp);
    assert(0 <= texel.index(equirect.width as int) * bpp) by (nonlinear_arith)
        requires
            0 <= texel.index(equirect.width as int),
            0 <= bpp,
    ;
}

} // verus!
