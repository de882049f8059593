use bevy_equirect::convert::CubeSide;
use bevy_equirect::cubemap::{TextureDimension, TextureViewDimension};
use bevy_equirect::sample::{SampleMap, Texel};
use bevy_equirect::{convert, cubemap_from_equirectangular, ConvertError, Image};
use wgpu_types::TextureFormat;

fn panorama(width: u32, height: u32, format: TextureFormat, data: Vec<u8>) -> Image {
    Image {
        data,
        width,
        height,
        depth_or_array_layers: 1,
        dimension: TextureDimension::D2,
        format,
        view_dimension: None,
    }
}

fn table(texels: [(u32, u32); 4]) -> Vec<Texel> {
    texels.iter().map(|&(x, y)| Texel { x, y }).collect()
}

/// The source texels of a cubemap of resolution 2 made of a panorama of 4 by
/// 2 texels, face by face in the order of `CubeSide::ALL`.
fn samples_2_of_4x2() -> SampleMap {
    SampleMap {
        res: 2,
        faces: vec![
            table([(2, 0), (3, 0), (2, 1), (3, 1)]),
            table([(0, 0), (1, 0), (0, 1), (1, 1)]),
            table([(1, 1), (2, 1), (0, 1), (3, 1)]),
            table([(1, 0), (2, 0), (0, 0), (3, 0)]),
            table([(0, 0), (3, 0), (0, 1), (3, 1)]),
            table([(2, 0), (1, 0), (2, 1), (1, 1)]),
        ],
    }
}

/// A panorama of 4 by 2 texels of 4 bytes whose texel `(x, y)` holds the
/// bytes `[n, n + 100, x, y]` with `n = 4 * y + x`.
fn numbered_4x2() -> Image {
    let mut data = Vec::new();
    for y in 0..2u8 {
        for x in 0..4u8 {
            let n = 4 * y + x;
            data.extend_from_slice(&[n, n + 100, x, y]);
        }
    }
    panorama(4, 2, TextureFormat::Rgba8Unorm, data)
}

fn pixel(x: u8, y: u8) -> [u8; 4] {
    let n = 4 * y + x;
    [n, n + 100, x, y]
}

#[test]
fn two_rows_of_solid_color_at_resolution_2() {
    let top = [10u8, 20, 30, 40];
    let bottom = [50u8, 60, 70, 80];
    let mut data = Vec::new();
    for _ in 0..4 {
        data.extend_from_slice(&top);
    }
    for _ in 0..4 {
        data.extend_from_slice(&bottom);
    }
    let source = panorama(4, 2, TextureFormat::Rgba8Unorm, data);
    let samples = samples_2_of_4x2();
    let cubemap = convert(&source, 2, &samples).unwrap();
    assert_eq!(cubemap.data.len(), 2 * 2 * 6 * 4);
    let rows: [[[u8; 4]; 4]; 6] = [
        [top, top, bottom, bottom],
        [top, top, bottom, bottom],
        [top, top, top, top],
        [bottom, bottom, bottom, bottom],
        [top, top, bottom, bottom],
        [top, top, bottom, bottom],
    ];
    let mut expected = Vec::new();
    for layer in rows {
        for p in layer {
            expected.extend_from_slice(&p);
        }
    }
    assert_eq!(cubemap.data, expected);
    // Every pixel has the color of the row that its sample names.
    for side in CubeSide::ALL {
        let face = &samples.faces[side as usize];
        let layer = side.get_cubemap_index() as usize;
        for (i, texel) in face.iter().enumerate() {
            let at = (layer * 4 + i) * 4;
            let want = if texel.y == 0 { top } else { bottom };
            assert_eq!(cubemap.data[at..at + 4], want);
        }
    }
}

#[test]
fn layers_hold_the_faces_in_cubemap_order() {
    let source = numbered_4x2();
    let samples = samples_2_of_4x2();
    let cubemap = convert(&source, 2, &samples).unwrap();
    let face_size = 2 * 2 * 4;
    let order = [
        CubeSide::X,
        CubeSide::NegX,
        CubeSide::NegY,
        CubeSide::Y,
        CubeSide::NegZ,
        CubeSide::Z,
    ];
    for (k, side) in order.iter().enumerate() {
        let face = side.gen_face(4, 2, &source.data, 2, source.format, &samples);
        assert_eq!(face.len(), face_size);
        assert_eq!(cubemap.data[k * face_size..(k + 1) * face_size], face[..]);
    }
    // Layer by layer, pixel by pixel.
    let expected: [[(u8, u8); 4]; 6] = [
        [(2, 0), (3, 0), (2, 1), (3, 1)],
        [(0, 0), (1, 0), (0, 1), (1, 1)],
        [(1, 0), (2, 0), (0, 0), (3, 0)],
        [(1, 1), (2, 1), (0, 1), (3, 1)],
        [(2, 0), (1, 0), (2, 1), (1, 1)],
        [(0, 0), (3, 0), (0, 1), (3, 1)],
    ];
    let mut bytes = Vec::new();
    for layer in expected {
        for (x, y) in layer {
            bytes.extend_from_slice(&pixel(x, y));
        }
    }
    assert_eq!(cubemap.data, bytes);
}

#[test]
fn gen_face_copies_whole_pixels_row_by_row() {
    let source = numbered_4x2();
    let samples = samples_2_of_4x2();
    let face = CubeSide::Y.gen_face(4, 2, &source.data, 2, source.format, &samples);
    let mut expected = Vec::new();
    for (x, y) in [(1, 1), (2, 1), (0, 1), (3, 1)] {
        expected.extend_from_slice(&pixel(x, y));
    }
    assert_eq!(face, expected);
}

#[test]
fn metadata_describes_a_cube_of_six_square_layers() {
    let source = numbered_4x2();
    let cubemap = cubemap_from_equirectangular(&source, 2, &samples_2_of_4x2());
    assert_eq!(cubemap.width, 2);
    assert_eq!(cubemap.height, 2);
    assert_eq!(cubemap.depth_or_array_layers, 6);
    assert_eq!(cubemap.dimension, TextureDimension::D2);
    assert_eq!(cubemap.format, TextureFormat::Rgba8Unorm);
    assert_eq!(cubemap.view_dimension, Some(TextureViewDimension::Cube));
}

#[test]
fn converting_twice_gives_the_same_bytes() {
    let source = numbered_4x2();
    let samples = samples_2_of_4x2();
    let first = convert(&source, 2, &samples).unwrap();
    let second = convert(&source, 2, &samples).unwrap();
    assert_eq!(first, second);
    assert_eq!(first, cubemap_from_equirectangular(&source, 2, &samples));
}

#[test]
fn size_is_six_faces_of_pixels() {
    for (format, bpp) in [
        (TextureFormat::R8Unorm, 1usize),
        (TextureFormat::Rg8Unorm, 2),
        (TextureFormat::Rgba8Unorm, 4),
        (TextureFormat::Rgba32Float, 16),
    ] {
        for res in [2u32, 3, 5] {
            let source = panorama(3, 2, format, vec![7; 3 * 2 * bpp]);
            let face = vec![Texel { x: 1, y: 1 }; (res * res) as usize];
            let samples = SampleMap { res, faces: vec![face; 6] };
            let cubemap = convert(&source, res, &samples).unwrap();
            assert_eq!(cubemap.data.len(), (res * res) as usize * bpp * 6);
            assert!(cubemap.data.iter().all(|&b| b == 7));
        }
    }
}

#[test]
fn one_byte_pixels_are_copied_one_by_one() {
    let source = panorama(3, 2, TextureFormat::R8Unorm, vec![0, 1, 2, 3, 4, 5]);
    let faces = vec![
        table([(0, 0), (1, 0), (2, 0), (0, 1)]),
        table([(1, 1), (2, 1), (0, 0), (0, 0)]),
        table([(2, 1), (2, 1), (2, 1), (2, 1)]),
        table([(0, 1), (0, 1), (0, 1), (0, 1)]),
        table([(1, 0), (1, 0), (1, 1), (1, 1)]),
        table([(2, 0), (1, 0), (0, 0), (2, 1)]),
    ];
    let samples = SampleMap { res: 2, faces };
    let cubemap = convert(&source, 2, &samples).unwrap();
    assert_eq!(
        cubemap.data,
        vec![
            0, 1, 2, 3, // +X
            4, 5, 0, 0, // -X
            3, 3, 3, 3, // -Y
            5, 5, 5, 5, // +Y
            2, 1, 0, 5, // -Z
            1, 1, 4, 4, // +Z
        ]
    );
}

#[test]
fn a_column_past_the_row_reads_on_into_the_next_row() {
    let source = numbered_4x2();
    let mut samples = samples_2_of_4x2();
    samples.faces[0][0] = Texel { x: 4, y: 0 };
    samples.faces[0][1] = Texel { x: 7, y: 0 };
    let cubemap = convert(&source, 2, &samples).unwrap();
    assert_eq!(cubemap.data[0..4], pixel(0, 1));
    assert_eq!(cubemap.data[4..8], pixel(3, 1));
}

#[test]
fn resolution_below_two_is_refused() {
    let source = numbered_4x2();
    for res in [0u32, 1] {
        let face = vec![Texel { x: 0, y: 0 }; (res * res) as usize];
        let samples = SampleMap { res, faces: vec![face; 6] };
        assert_eq!(convert(&source, res, &samples), Err(ConvertError::ResolutionTooSmall));
    }
}

#[test]
fn format_without_pixels_is_refused() {
    let samples = samples_2_of_4x2();
    let compressed = panorama(4, 2, TextureFormat::Bc1RgbaUnorm, vec![0; 32]);
    assert_eq!(convert(&compressed, 2, &samples), Err(ConvertError::UnsupportedFormat));
    let depth = panorama(4, 2, TextureFormat::Depth24Plus, vec![0; 32]);
    assert_eq!(convert(&depth, 2, &samples), Err(ConvertError::UnsupportedFormat));
}

#[test]
fn empty_source_is_refused() {
    let samples = samples_2_of_4x2();
    let no_columns = panorama(0, 2, TextureFormat::Rgba8Unorm, vec![]);
    assert_eq!(convert(&no_columns, 2, &samples), Err(ConvertError::EmptySource));
    let no_rows = panorama(4, 0, TextureFormat::Rgba8Unorm, vec![]);
    assert_eq!(convert(&no_rows, 2, &samples), Err(ConvertError::EmptySource));
}

#[test]
fn buffer_of_the_wrong_length_is_refused() {
    let samples = samples_2_of_4x2();
    let short = panorama(4, 2, TextureFormat::Rgba8Unorm, vec![0; 31]);
    assert_eq!(convert(&short, 2, &samples), Err(ConvertError::DataLengthMismatch));
    let long = panorama(4, 2, TextureFormat::Rgba8Unorm, vec![0; 33]);
    assert_eq!(convert(&long, 2, &samples), Err(ConvertError::DataLengthMismatch));
    let other_format = panorama(4, 2, TextureFormat::Rg8Unorm, vec![0; 32]);
    assert_eq!(convert(&other_format, 2, &samples), Err(ConvertError::DataLengthMismatch));
}

#[test]
fn cubemap_too_large_to_count_is_refused() {
    let source = panorama(1, 1, TextureFormat::Rgba32Float, vec![0; 16]);
    let samples = SampleMap { res: u32::MAX, faces: vec![Vec::new(); 6] };
    assert_eq!(convert(&source, u32::MAX, &samples), Err(ConvertError::OutputTooLarge));
}

#[test]
fn malformed_sample_map_is_refused() {
    let source = numbered_4x2();
    let good = samples_2_of_4x2();
    let mut five = samples_2_of_4x2();
    five.faces.pop();
    assert_eq!(convert(&source, 2, &five), Err(ConvertError::MalformedSampleMap));
    let mut short_face = samples_2_of_4x2();
    short_face.faces[3].pop();
    assert_eq!(convert(&source, 2, &short_face), Err(ConvertError::MalformedSampleMap));
    assert_eq!(convert(&source, 3, &good), Err(ConvertError::MalformedSampleMap));
    assert!(good.is_well_formed());
    assert!(!five.is_well_formed());
    assert!(!short_face.is_well_formed());
}

#[test]
fn sample_outside_the_source_is_refused() {
    let source = numbered_4x2();
    let mut below = samples_2_of_4x2();
    below.faces[5][3] = Texel { x: 0, y: 2 };
    assert_eq!(convert(&source, 2, &below), Err(ConvertError::SampleOutOfBounds));
    assert!(!below.is_within(4, 2));
    let mut past_the_end = samples_2_of_4x2();
    past_the_end.faces[2][1] = Texel { x: 4, y: 1 };
    assert_eq!(convert(&source, 2, &past_the_end), Err(ConvertError::SampleOutOfBounds));
    let mut huge = samples_2_of_4x2();
    huge.faces[0][0] = Texel { x: u32::MAX, y: u32::MAX };
    assert_eq!(convert(&source, 2, &huge), Err(ConvertError::SampleOutOfBounds));
    assert!(samples_2_of_4x2().is_within(4, 2));
    assert!(!samples_2_of_4x2().is_within(4, 1));
}

#[test]
fn the_first_failing_check_names_the_error() {
    let samples = samples_2_of_4x2();
    let bad = panorama(0, 0, TextureFormat::Bc1RgbaUnorm, vec![1]);
    assert_eq!(convert(&bad, 1, &samples), Err(ConvertError::ResolutionTooSmall));
    assert_eq!(convert(&bad, 2, &samples), Err(ConvertError::UnsupportedFormat));
    let empty = panorama(0, 0, TextureFormat::Rgba8Unorm, vec![1]);
    assert_eq!(convert(&empty, 3, &samples), Err(ConvertError::EmptySource));
    let short = panorama(4, 2, TextureFormat::Rgba8Unorm, vec![1]);
    assert_eq!(convert(&short, 3, &samples), Err(ConvertError::DataLengthMismatch));
}
