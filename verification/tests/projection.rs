use bevy_equirect::convert::CubeSide;
use bevy_equirect::cubemap::TextureDimension;
use bevy_equirect::sample::{SampleMap, Texel};
use bevy_equirect::{convert, ConvertError, Image};
use core::f32::consts::PI;
use glam::{Vec2, Vec3};
use wgpu_types::TextureFormat;

/// The point of the panorama, in `[0, 1]` both ways, that a pixel of a face
/// looks at.
fn uv(side: CubeSide, x: u32, y: u32, res: u32) -> Vec2 {
    let d = side.get_xyz_form_pixel_coords(x, y, res);
    let scale = d.scale as f32;
    let pos = Vec3::new(d.x as f32 / scale, d.y as f32 / scale, d.z as f32 / scale).normalize();
    let theta = pos.x.atan2(-pos.z);
    let phi = pos.y.asin();
    Vec2::new(theta / (2.0 * PI) + 0.5, phi / PI + 0.5)
}

fn project(res: u32, width: u32, height: u32) -> SampleMap {
    let mut faces = Vec::new();
    for side in CubeSide::ALL {
        let mut face = Vec::new();
        for y in 0..res {
            for x in 0..res {
                let uv = uv(side, x, y, res);
                face.push(Texel {
                    x: (uv.x * width as f32).floor() as u32,
                    y: (uv.y * height as f32).floor() as u32,
                });
            }
        }
        faces.push(face);
    }
    SampleMap { res, faces }
}

fn numbered(width: u32, height: u32) -> Image {
    let mut data = Vec::new();
    for i in 0..width * height {
        data.extend_from_slice(&i.to_le_bytes());
    }
    Image {
        data,
        width,
        height,
        depth_or_array_layers: 1,
        dimension: TextureDimension::D2,
        format: TextureFormat::Rgba8Unorm,
        view_dimension: None,
    }
}

fn table(texels: [(u32, u32); 4]) -> Vec<Texel> {
    texels.iter().map(|&(x, y)| Texel { x, y }).collect()
}

#[test]
fn projection_of_resolution_2_onto_4x2() {
    let samples = project(2, 4, 2);
    assert_eq!(
        samples.faces,
        vec![
            table([(2, 0), (3, 0), (2, 1), (3, 1)]),
            table([(0, 0), (1, 0), (0, 1), (1, 1)]),
            table([(1, 1), (2, 1), (0, 1), (3, 1)]),
            table([(1, 0), (2, 0), (0, 0), (3, 0)]),
            table([(0, 0), (3, 0), (0, 1), (3, 1)]),
            table([(2, 0), (1, 0), (2, 1), (1, 1)]),
        ]
    );
}

#[test]
fn projected_rows_follow_the_vertical_coordinate() {
    let source = numbered(4, 2);
    let samples = project(2, 4, 2);
    let cubemap = convert(&source, 2, &samples).unwrap();
    assert_eq!(cubemap.data.len(), 2 * 2 * 6 * 4);
    for side in CubeSide::ALL {
        let layer = side.get_cubemap_index() as usize;
        for y in 0..2u32 {
            for x in 0..2u32 {
                let at = (layer * 4 + (y * 2 + x) as usize) * 4;
                let texel = u32::from_le_bytes(cubemap.data[at..at + 4].try_into().unwrap());
                let row = if uv(side, x, y, 2).y < 0.5 { 0 } else { 1 };
                assert_eq!(texel / 4, row);
            }
        }
    }
}

#[test]
fn uv_stays_in_the_unit_square() {
    for res in [2u32, 3, 4, 5, 8, 17, 64] {
        for side in CubeSide::ALL {
            for y in 0..res {
                for x in 0..res {
                    let uv = uv(side, x, y, res);
                    assert!(0.0 <= uv.x && uv.x <= 1.0);
                    assert!(0.0 <= uv.y && uv.y <= 1.0);
                }
            }
        }
    }
}

#[test]
fn center_of_side_faces_looks_at_the_horizon() {
    assert_eq!(uv(CubeSide::X, 1, 1, 3), Vec2::new(0.75, 0.5));
    assert_eq!(uv(CubeSide::NegX, 1, 1, 3), Vec2::new(0.25, 0.5));
    assert_eq!(uv(CubeSide::NegZ, 1, 1, 3), Vec2::new(0.5, 0.5));
    assert_eq!(uv(CubeSide::Z, 1, 1, 3), Vec2::new(1.0, 0.5));
    assert_eq!(uv(CubeSide::Y, 1, 1, 3).y, 1.0);
    assert_eq!(uv(CubeSide::NegY, 1, 1, 3).y, 0.0);
}

#[test]
fn even_resolutions_stay_inside_the_source() {
    for res in [2u32, 4, 8, 16, 32] {
        for (width, height) in [(4u32, 2u32), (8, 4), (64, 32), (100, 50), (7, 3)] {
            let samples = project(res, width, height);
            assert!(samples.is_well_formed());
            assert!(samples.is_within(width, height));
            let cubemap = convert(&numbered(width, height), res, &samples).unwrap();
            assert_eq!(cubemap.data.len(), (res * res * 4 * 6) as usize);
        }
    }
}

#[test]
fn odd_resolution_looks_past_the_last_row() {
    // The middle pixel of the top face looks straight up, at the very end of
    // the panorama: one row past its last.
    let samples = project(3, 4, 2);
    assert_eq!(samples.faces[2][4], Texel { x: 4, y: 2 });
    assert!(!samples.is_within(4, 2));
    assert_eq!(convert(&numbered(4, 2), 3, &samples), Err(ConvertError::SampleOutOfBounds));
}
