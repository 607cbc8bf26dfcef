use physobx_core::gpu::command::{ColorTarget, Command, CommandEncoder, TextureCopy};
use physobx_core::gpu::descriptor::{TextureFormat, TextureUsages};
use physobx_core::gpu::render_target::{OffscreenTarget, MAX_WIDTH};
use physobx_core::gpu::tonemap::TonemapRenderer;
use physobx_core::gpu::sky_renderer::SkyRenderer;

fn padded_buffer(target: &OffscreenTarget, pixel: impl Fn(u32, u32) -> [u8; 4]) -> Vec<u8> {
    let stride = target.padded_bytes_per_row() as usize;
    let mut data = vec![0xEEu8; stride * target.height() as usize];
    for y in 0..target.height() {
        for x in 0..target.width() {
            let at = y as usize * stride + 4 * x as usize;
            data[at..at + 4].copy_from_slice(&pixel(x, y));
        }
    }
    data
}

#[test]
fn rows_are_padded_to_multiples_of_256() {
    assert_eq!(OffscreenTarget::new(1920, 1080).padded_bytes_per_row(), 7680);
    assert_eq!(OffscreenTarget::new(3840, 2160).padded_bytes_per_row(), 15360);
    assert_eq!(OffscreenTarget::new(1, 1).padded_bytes_per_row(), 256);
    assert_eq!(OffscreenTarget::new(64, 1).padded_bytes_per_row(), 256);
    assert_eq!(OffscreenTarget::new(65, 1).padded_bytes_per_row(), 512);
    assert_eq!(OffscreenTarget::new(100, 7).padded_bytes_per_row(), 512);
    assert_eq!(OffscreenTarget::new(0, 7).padded_bytes_per_row(), 0);
    assert_eq!(OffscreenTarget::new(MAX_WIDTH, 1).padded_bytes_per_row(), 0xffff_ff00);
}

#[test]
fn presets_have_their_sizes() {
    let hd = OffscreenTarget::new_1080p();
    assert_eq!((hd.width(), hd.height()), (1920, 1080));
    let uhd = OffscreenTarget::new_4k();
    assert_eq!((uhd.width(), uhd.height()), (3840, 2160));
    assert_eq!(hd, OffscreenTarget::new(1920, 1080));
    assert_eq!(uhd, OffscreenTarget::new(3840, 2160));
}

#[test]
fn attachments_have_the_targets_size_and_their_formats() {
    let t = OffscreenTarget::new(100, 50);
    let hdr = t.hdr_texture();
    assert_eq!((hdr.width, hdr.height), (100, 50));
    assert_eq!(hdr.format, TextureFormat::Rgba16Float);
    assert_eq!(
        hdr.usage,
        TextureUsages { render_attachment: true, texture_binding: true, copy_src: false }
    );
    let ldr = t.ldr_texture();
    assert_eq!((ldr.width, ldr.height), (100, 50));
    assert_eq!(ldr.format, TextureFormat::Rgba8UnormSrgb);
    assert_eq!(
        ldr.usage,
        TextureUsages { render_attachment: true, texture_binding: false, copy_src: true }
    );
    let depth = t.depth_texture();
    assert_eq!((depth.width, depth.height), (100, 50));
    assert_eq!(depth.format, TextureFormat::Depth32Float);
    assert_eq!(
        depth.usage,
        TextureUsages { render_attachment: true, texture_binding: false, copy_src: false }
    );
}

#[test]
fn output_buffer_holds_one_padded_row_per_row() {
    let t = OffscreenTarget::new(100, 50);
    let buffer = t.output_buffer();
    assert_eq!(buffer.size, 512 * 50);
    assert!(buffer.usage.copy_dst && buffer.usage.map_read);
    assert!(!buffer.usage.storage && !buffer.usage.uniform);
    assert_eq!(OffscreenTarget::new_1080p().output_buffer().size, 7680 * 1080);
    assert_eq!(OffscreenTarget::new(MAX_WIDTH, u32::MAX).output_buffer().size, 0xffff_ff00u64 * 0xffff_ffffu64);
}

#[test]
fn read_pixels_strips_the_padding() {
    let t = OffscreenTarget::new(3, 2);
    let data = padded_buffer(&t, |x, y| [x as u8, y as u8, 10 * x as u8 + y as u8, 255]);
    assert_eq!(data.len(), 512);
    let pixels = t.read_pixels(&data);
    assert_eq!(
        pixels,
        vec![
            0, 0, 0, 255, 1, 0, 10, 255, 2, 0, 20, 255, // row 0
            0, 1, 1, 255, 1, 1, 11, 255, 2, 1, 21, 255, // row 1
        ]
    );
}

#[test]
fn read_pixels_of_unpadded_rows_is_the_identity() {
    let t = OffscreenTarget::new(64, 3);
    let data: Vec<u8> = (0..256 * 3).map(|i| (i % 251) as u8).collect();
    assert_eq!(t.read_pixels(&data), data);
}

#[test]
fn read_pixels_needs_no_padding_after_the_last_row() {
    let t = OffscreenTarget::new(3, 2);
    let mut data = padded_buffer(&t, |x, y| [x as u8, y as u8, 7, 9]);
    let full = t.read_pixels(&data);
    data.truncate(256 + 12);
    assert_eq!(t.read_pixels(&data), full);
}

#[test]
fn read_pixels_of_an_empty_target_is_empty() {
    assert_eq!(OffscreenTarget::new(0, 5).read_pixels(&[]), Vec::<u8>::new());
    assert_eq!(OffscreenTarget::new(5, 0).read_pixels(&[]), Vec::<u8>::new());
}

#[test]
fn a_solid_colour_survives_the_read_back() {
    let t = OffscreenTarget::new(70, 9);
    let colour = [12u8, 200, 77, 255];
    let data = padded_buffer(&t, |_, _| colour);
    let pixels = t.read_pixels(&data);
    assert_eq!(pixels.len(), 70 * 9 * 4);
    assert!(pixels.chunks(4).all(|p| p == colour));
}

#[test]
fn read_pixels_of_1080p_gives_8294400_bytes() {
    let t = OffscreenTarget::new_1080p();
    let data = vec![0u8; t.output_buffer().size as usize];
    assert_eq!(data.len(), 7680 * 1080);
    let pixels = t.read_pixels(&data);
    assert_eq!(pixels.len(), 8_294_400);
    assert_eq!(pixels.len(), 1920 * 1080 * 4);
}

#[test]
fn copy_goes_from_the_output_attachment_into_the_padded_buffer() {
    let t = OffscreenTarget::new(100, 50);
    let mut encoder = CommandEncoder::new();
    SkyRenderer::new().render(&mut encoder);
    TonemapRenderer::new().render(&mut encoder);
    t.copy_to_buffer(&mut encoder);
    let commands = encoder.finish();
    assert_eq!(
        commands[6],
        Command::CopyTextureToBuffer(TextureCopy {
            source: ColorTarget::Ldr,
            width: 100,
            height: 50,
            bytes_per_row: 512,
            rows_per_image: 50,
            buffer_size: 512 * 50,
        })
    );
    assert_eq!(commands.len(), 7);
}
