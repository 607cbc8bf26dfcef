use physobx_core::gpu::bytes::{index_bytes, pack, push_mat4, push_vec3, push_vec4, to_bytes};
use physobx_core::gpu::camera::CameraUniform;
use physobx_core::gpu::ground_renderer::GroundUniform;
use physobx_core::gpu::instance_renderer::{InstanceData, ShadowUniform, Vertex};
use physobx_core::gpu::shadow::LightCameraUniform;
use physobx_core::gpu::sphere_renderer::{SphereInstanceData, SphereVertex};
use physobx_core::gpu::tonemap::TonemapParams;

fn native(words: &[u32]) -> Vec<u8> {
    let mut bytes = Vec::new();
    for w in words {
        bytes.extend_from_slice(&w.to_ne_bytes());
    }
    bytes
}

fn matrix(start: u32) -> [[u32; 4]; 4] {
    let mut m = [[0u32; 4]; 4];
    for c in 0..4 {
        for r in 0..4 {
            m[c][r] = start + (4 * c + r) as u32;
        }
    }
    m
}

#[test]
fn vertex_packs_position_then_normal() {
    let v = Vertex { position: [1, 2, 3], normal: [4, 5, 6] };
    assert_eq!(pack(&[v]), vec![1, 2, 3, 4, 5, 6]);
    let s = SphereVertex { position: [7, 8, 9], normal: [7, 8, 9] };
    assert_eq!(pack(&[s]), vec![7, 8, 9, 7, 8, 9]);
}

#[test]
fn instance_packs_into_twelve_words() {
    let i = InstanceData {
        position: [1, 2, 3],
        _padding: 0,
        rotation: [4, 5, 6, 7],
        color: [8, 9, 10],
        _padding2: 0,
    };
    assert_eq!(pack(&[i]), vec![1, 2, 3, 0, 4, 5, 6, 7, 8, 9, 10, 0]);
    let s = SphereInstanceData {
        position: [1, 2, 3],
        radius: 11,
        rotation: [0, 0, 0, 0x3f80_0000],
        color: [8, 9, 10],
        _padding: 0,
    };
    assert_eq!(pack(&[s]), vec![1, 2, 3, 11, 0, 0, 0, 0x3f80_0000, 8, 9, 10, 0]);
}

#[test]
fn records_pack_one_after_another() {
    let a = Vertex { position: [1, 2, 3], normal: [4, 5, 6] };
    let b = Vertex { position: [7, 8, 9], normal: [10, 11, 12] };
    assert_eq!(pack(&[a, b]), vec![1, 2, 3, 4, 5, 6, 7, 8, 9, 10, 11, 12]);
    let none: [Vertex; 0] = [];
    assert_eq!(pack(&none), Vec::<u32>::new());
}

#[test]
fn uniforms_pack_in_buffer_order() {
    let camera = CameraUniform {
        view_proj: matrix(0),
        view: matrix(100),
        proj: matrix(200),
        eye_position: [1, 2, 3, 0x3f80_0000],
    };
    let words = pack(&[camera]);
    assert_eq!(words.len(), 52);
    assert_eq!(&words[0..16], &(0..16).collect::<Vec<u32>>()[..]);
    assert_eq!(&words[16..32], &(100..116).collect::<Vec<u32>>()[..]);
    assert_eq!(&words[32..48], &(200..216).collect::<Vec<u32>>()[..]);
    assert_eq!(&words[48..52], &[1, 2, 3, 0x3f80_0000]);

    assert_eq!(pack(&[ShadowUniform { light_view_proj: matrix(5) }]), (5..21).collect::<Vec<u32>>());
    assert_eq!(pack(&[LightCameraUniform { view_proj: matrix(9) }]), (9..25).collect::<Vec<u32>>());
    let ground = GroundUniform { ground_y: 1, ground_size: 2, grid_scale: 3, _padding: 0 };
    assert_eq!(pack(&[ground]), vec![1, 2, 3, 0]);
    let tonemap = TonemapParams { exposure: 7, _padding: [0, 0, 0] };
    assert_eq!(pack(&[tonemap]), vec![7, 0, 0, 0]);
}

#[test]
fn to_bytes_is_the_memory_image_of_the_words() {
    let a = Vertex {
        position: [0x0102_0304, 0x3f80_0000, 0xbf80_0000],
        normal: [0, 0xffff_ffff, 0x8000_0000],
    };
    let bytes = to_bytes(&[a]);
    assert_eq!(bytes.len(), 24);
    assert_eq!(
        bytes,
        native(&[0x0102_0304, 0x3f80_0000, 0xbf80_0000, 0, 0xffff_ffff, 0x8000_0000])
    );
    let first = &bytes[0..4];
    assert!(first == [4, 3, 2, 1] || first == [1, 2, 3, 4]);
}

#[test]
fn to_bytes_takes_four_bytes_a_word() {
    let i = InstanceData {
        position: [1, 2, 3],
        _padding: 0,
        rotation: [4, 5, 6, 7],
        color: [8, 9, 10],
        _padding2: 0,
    };
    assert_eq!(to_bytes(&[i, i, i]).len(), 3 * 48);
    let none: [InstanceData; 0] = [];
    assert_eq!(to_bytes(&none).len(), 0);
}

#[test]
fn index_bytes_is_the_memory_image_of_the_indices() {
    let indices: [u16; 4] = [0, 1, 0x0203, 0xffff];
    let bytes = index_bytes(&indices);
    let mut expected = Vec::new();
    for i in indices {
        expected.extend_from_slice(&i.to_ne_bytes());
    }
    assert_eq!(bytes, expected);
    assert_eq!(bytes.len(), 8);
    let third = &bytes[4..6];
    assert!(third == [3, 2] || third == [2, 3]);
}

#[test]
fn push_helpers_append_in_order() {
    let mut out = vec![9u32];
    push_vec3(&mut out, &[1, 2, 3]);
    push_vec4(&mut out, &[4, 5, 6, 7]);
    assert_eq!(out, vec![9, 1, 2, 3, 4, 5, 6, 7]);
    let mut m = Vec::new();
    push_mat4(&mut m, &matrix(0));
    assert_eq!(m, (0..16).collect::<Vec<u32>>());
}
