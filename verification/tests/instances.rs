use physobx_core::gpu::bytes::to_bytes;
use physobx_core::gpu::instance_renderer::{
    pack_instances, InstanceData, InstanceRenderer, INSTANCE_STRIDE,
};
use physobx_core::gpu::shadow::ShadowRenderer;
use physobx_core::gpu::sphere_renderer::{
    pack_sphere_instances, SphereInstanceData, SphereRenderer,
};

fn bits3(v: [f32; 3]) -> [u32; 3] {
    [v[0].to_bits(), v[1].to_bits(), v[2].to_bits()]
}

fn bits4(v: [f32; 4]) -> [u32; 4] {
    [v[0].to_bits(), v[1].to_bits(), v[2].to_bits(), v[3].to_bits()]
}

fn positions(n: usize) -> Vec<[u32; 3]> {
    (0..n).map(|i| bits3([i as f32, 2.0 * i as f32, -(i as f32)])).collect()
}

fn rotations(n: usize) -> Vec<[u32; 4]> {
    (0..n).map(|i| bits4([0.0, i as f32, 0.0, 1.0])).collect()
}

fn colors(n: usize) -> Vec<[u32; 3]> {
    (0..n).map(|i| bits3([0.1 * i as f32, 0.5, 1.0])).collect()
}

fn radii(n: usize) -> Vec<u32> {
    (0..n).map(|i| (0.25 + i as f32).to_bits()).collect()
}

#[test]
fn upload_lays_out_each_cube() {
    let r = InstanceRenderer::new(8, 0.5f32.to_bits());
    let records = r.upload_instances(&positions(3), &rotations(3), &colors(3));
    assert_eq!(records.len(), 3);
    for i in 0..3 {
        assert_eq!(
            records[i],
            InstanceData {
                position: positions(3)[i],
                _padding: 0.0f32.to_bits(),
                rotation: rotations(3)[i],
                color: colors(3)[i],
                _padding2: 0.0f32.to_bits(),
            }
        );
    }
}

#[test]
fn upload_beyond_capacity_keeps_exactly_capacity() {
    let r = InstanceRenderer::new(4, 0.5f32.to_bits());
    let records = r.upload_instances(&positions(10), &rotations(10), &colors(10));
    assert_eq!(records.len(), 4);
    assert_eq!(records[3].position, positions(10)[3]);
    let bytes = to_bytes(&records);
    assert_eq!(bytes.len() as u64, 4 * INSTANCE_STRIDE);
    assert_eq!(bytes.len() as u64, r.instance_buffer().size);
    assert!(bytes.len() as u64 <= r.instance_buffer().size);
}

#[test]
fn upload_at_capacity_and_below() {
    let r = InstanceRenderer::new(5, 0.5f32.to_bits());
    assert_eq!(r.upload_instances(&positions(5), &rotations(5), &colors(5)).len(), 5);
    assert_eq!(r.upload_instances(&positions(4), &rotations(4), &colors(4)).len(), 4);
    assert_eq!(r.upload_instances(&positions(6), &rotations(6), &colors(6)).len(), 5);
    assert_eq!(r.upload_instances(&[], &[], &[]).len(), 0);
}

#[test]
fn upload_with_no_capacity_drops_everything() {
    let r = InstanceRenderer::new(0, 0.5f32.to_bits());
    assert_eq!(r.upload_instances(&positions(3), &rotations(3), &colors(3)).len(), 0);
    assert_eq!(r.instance_buffer().size, 0);
}

#[test]
fn upload_needs_only_as_many_rotations_as_it_keeps() {
    let r = InstanceRenderer::new(2, 0.5f32.to_bits());
    let records = r.upload_instances(&positions(5), &rotations(2), &colors(2));
    assert_eq!(records.len(), 2);
    assert_eq!(records[1].rotation, rotations(2)[1]);
}

#[test]
fn sphere_upload_lays_out_each_sphere() {
    let r = SphereRenderer::new(8);
    let records = r.upload_instances(&positions(3), &radii(3), &colors(3));
    assert_eq!(records.len(), 3);
    for i in 0..3 {
        assert_eq!(
            records[i],
            SphereInstanceData {
                position: positions(3)[i],
                radius: radii(3)[i],
                rotation: bits4([0.0, 0.0, 0.0, 1.0]),
                color: colors(3)[i],
                _padding: 0.0f32.to_bits(),
            }
        );
    }
}

#[test]
fn sphere_upload_beyond_capacity_keeps_exactly_capacity() {
    let r = SphereRenderer::new(3);
    let records = r.upload_instances(&positions(7), &radii(7), &colors(7));
    assert_eq!(records.len(), 3);
    assert_eq!(to_bytes(&records).len() as u64, r.instance_buffer().size);
}

#[test]
fn shadow_uploads_what_the_shape_renderers_upload() {
    let shadow = ShadowRenderer::new(4, 0.5f32.to_bits());
    let cubes = InstanceRenderer::new(4, 0.5f32.to_bits());
    let spheres = SphereRenderer::new(4);
    assert_eq!(
        shadow.upload_cube_instances(&positions(6), &rotations(6), &colors(6)),
        cubes.upload_instances(&positions(6), &rotations(6), &colors(6))
    );
    assert_eq!(
        shadow.upload_sphere_instances(&positions(6), &radii(6), &colors(6)),
        spheres.upload_instances(&positions(6), &radii(6), &colors(6))
    );
    assert_eq!(shadow.instance_buffer().size, 4 * 48);
}

#[test]
fn packing_is_what_uploading_does() {
    assert_eq!(
        pack_instances(&positions(3), &rotations(3), &colors(3), 2),
        InstanceRenderer::new(2, 0).upload_instances(&positions(3), &rotations(3), &colors(3))
    );
    assert_eq!(
        pack_sphere_instances(&positions(3), &radii(3), &colors(3), 2),
        SphereRenderer::new(2).upload_instances(&positions(3), &radii(3), &colors(3))
    );
}
