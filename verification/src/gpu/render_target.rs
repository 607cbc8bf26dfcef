//! The off-screen target: what is rendered into, and how it is read back.
//!
//! A texture is copied into a buffer row by row, and each row must start at a
//! multiple of 256 bytes. The read-back buffer therefore holds padded rows;
//! `read_pixels` takes the padding out again.

use vstd::prelude::*;
use crate::gpu::command::{ColorTarget, Command, CommandEncoder, DepthTarget, TextureCopy};
use crate::gpu::descriptor::{
    make_staging_buffer,
    staging_buffer,
    BufferDescriptor,
    TextureDescriptor,
    TextureFormat,
    TextureUsages,
};
use crate::gpu::pipelines::{HDR_FORMAT, LDR_FORMAT};

verus! {

/// Bytes of one pixel of the output.
pub const BYTES_PER_PIXEL: u32 = 4;

/// Rows of a texture-to-buffer copy start at multiples of this many bytes.
pub const ROW_ALIGNMENT: u32 = 256;

/// The widest target whose padded row still fits 32 bits.
pub const MAX_WIDTH: u32 = 0x3fff_ffc0;

/// Bytes of a row of `width` pixels.
pub open spec fn row_bytes(width: int) -> int {
    4 * width
}

/// Bytes from one row's start to the next in the read-back buffer: the row's
/// bytes, rounded up to the next multiple of 256.
pub open spec fn padded_row_bytes(width: int) -> int {
    (row_bytes(width) + 255) / 256 * 256
}

/// The padded row holds the row, wastes less than 256 bytes, and is a
/// multiple of 256.
pub proof fn lemma_padded_row_bytes(width: int)
    requires
        0 <= width,
    ensures
        padded_row_bytes(width) % 256 == 0,
        row_bytes(width) <= padded_row_bytes(width) < row_bytes(width) + 256,
{
}

/// Bytes of the read-back buffer up to the end of the last row's pixels.
pub open spec fn mapped_extent(width: int, height: int) -> int {
    if height == 0 {
        0
    } else {
        (height - 1) * padded_row_bytes(width) + row_bytes(width)
    }
}

/// The pixels of a padded buffer, rows packed one after another: byte `i` of
/// the result is byte `i % row_bytes` of row `i / row_bytes`.
pub open spec fn unpadded(mapped: Seq<u8>, width: int, height: int) -> Seq<u8> {
    Seq::new(
        (row_bytes(width) * height) as nat,
        |i: int| mapped[i / row_bytes(width) * padded_row_bytes(width) + i % row_bytes(width)],
    )
}

/// Byte `b` of row `y` of the packed pixels is byte `b` of row `y` of the
/// padded buffer.
pub proof fn lemma_unpadded_at(mapped: Seq<u8>, width: int, height: int, y: int, b: int)
    requires
        0 < width,
        0 <= y < height,
        0 <= b < row_bytes(width),
    ensures
        0 <= y * row_bytes(width) + b < unpadded(mapped, width, height).len(),
        unpadded(mapped, width, height)[y * row_bytes(width) + b] == mapped[y * padded_row_bytes(
            width,
        ) + b],
{
    let r = row_bytes(width);
    assert(0 <= y * r && y * r + r <= r * height) by (nonlinear_arith)
        requires
            0 <= y < height,
            0 < r,
    ;
    vstd::arithmetic::div_mod::lemma_fundamental_div_mod_converse(y * r + b, r, y, b);
}

/// A read-back buffer whose pixels all hold the colour `rgba` unpads to
/// pixels that all hold `rgba`.
pub proof fn lemma_solid_color_survives(mapped: Seq<u8>, width: int, height: int, rgba: Seq<u8>)
    requires
        0 < width,
        0 <= height,
        rgba.len() == 4,
        forall|y: int, x: int, c: int|
            0 <= y < height && 0 <= x < width && 0 <= c < 4 ==> #[trigger] mapped[y
                * padded_row_bytes(width) + (4 * x + c)] == rgba[c],
    ensures
        forall|p: int, c: int|
            0 <= p < width * height && 0 <= c < 4 ==> #[trigger] unpadded(
                mapped,
                width,
                height,
            )[4 * p + c] == rgba[c],
{
    assert forall|p: int, c: int| 0 <= p < width * height && 0 <= c < 4 implies #[trigger] unpadded(
        mapped,
        width,
        height,
    )[4 * p + c] == rgba[c] by {
        let y = p / width;
        let x = p % width;
        vstd::arithmetic::div_mod::lemma_fundamental_div_mod(p, width);
        assert(0 <= y < height) by (nonlinear_arith)
            requires
                0 <= p < width * height,
                0 < width,
                p == width * y + x,
                0 <= x < width,
        ;
        assert(4 * p + c == y * row_bytes(width) + (4 * x + c)) by (nonlinear_arith)
            requires
                p == width * y + x,
        ;
        lemma_unpadded_at(mapped, width, height, y, 4 * x + c);
        assert(mapped[y * padded_row_bytes(width) + (4 * x + c)] == rgba[c]);
    }
}

/// The off-screen target: an HDR colour attachment that the scene is shaded
/// into, an 8-bit colour attachment that tonemapping resolves into, a depth
/// attachment, and a buffer through which the 8-bit attachment is read back.
#[derive(Clone, Copy, Debug, PartialEq, Eq)]
pub struct OffscreenTarget {
    width: u32,
    height: u32,
    padded_bytes_per_row: u32,
}

impl OffscreenTarget {
    #[verifier::type_invariant]
    spec fn rows_padded(self) -> bool {
        self.padded_bytes_per_row == padded_row_bytes(self.width as int)
    }

    /// Width in pixels.
    pub closed spec fn spec_width(&self) -> u32 {
        self.width
    }

    /// Height in pixels.
    pub closed spec fn spec_height(&self) -> u32 {
        self.height
    }

    /// Bytes from one row's start to the next in the read-back buffer.
    pub open spec fn spec_padded_bytes_per_row(&self) -> u32 {
        padded_row_bytes(self.spec_width() as int) as u32
    }

    /// A target of `width` by `height` pixels.
    pub fn new(width: u32, height: u32) -> (target: OffscreenTarget)
        requires
            width <= MAX_WIDTH,
        ensures
            target.spec_width() == width,
            target.spec_height() == height,
    {
        let unpadded_bytes_per_row: u32 = width * BYTES_PER_PIXEL;
        let padded_bytes_per_row: u32 = (unpadded_bytes_per_row + 255) & !255;
        assert((unpadded_bytes_per_row + 255) as u32 & !255u32 == (unpadded_bytes_per_row + 255)
            as u32 / 256 * 256) by (bit_vector);
        OffscreenTarget { width, height, padded_bytes_per_row }
    }

    /// A target of 3840 by 2160 pixels.
    pub fn new_4k() -> (target: OffscreenTarget)
        ensures
            target.spec_width() == 3840,
            target.spec_height() == 2160,
    {
        Self::new(3840, 2160)
    }

    /// A target of 1920 by 1080 pixels.
    pub fn new_1080p() -> (target: OffscreenTarget)
        ensures
            target.spec_width() == 1920,
            target.spec_height() == 1080,
    {
        Self::new(1920, 1080)
    }

    /// Width in pixels.
    #[verifier::when_used_as_spec(spec_width)]
    pub fn width(&self) -> (w: u32)
        ensures
            w == self.spec_width(),
    {
        self.width
    }

    /// Height in pixels.
    #[verifier::when_used_as_spec(spec_height)]
    pub fn height(&self) -> (h: u32)
        ensures
            h == self.spec_height(),
    {
        self.height
    }

    /// Bytes from one row's start to the next in the read-back buffer.
    #[verifier::when_used_as_spec(spec_padded_bytes_per_row)]
    pub fn padded_bytes_per_row(&self) -> (n: u32)
        ensures
            n == self.spec_padded_bytes_per_row(),
            n == padded_row_bytes(self.spec_width() as int),
            n % ROW_ALIGNMENT == 0,
    {
        proof {
            use_type_invariant(self);
        }
        self.padded_bytes_per_row
    }

    /// The texture of the given format and use, of the target's size.
    pub open spec fn texture(&self, format: TextureFormat, usage: TextureUsages) -> TextureDescriptor {
        TextureDescriptor { width: self.spec_width(), height: self.spec_height(), format, usage }
    }

    /// The HDR colour attachment: rendered into, then sampled by tonemapping.
    pub fn hdr_texture(&self) -> (d: TextureDescriptor)
        ensures
            d == self.texture(
                HDR_FORMAT,
                TextureUsages { render_attachment: true, texture_binding: true, copy_src: false },
            ),
            d.format == ColorTarget::Hdr.format(),
    {
        TextureDescriptor {
            width: self.width,
            height: self.height,
            format: HDR_FORMAT,
            usage: TextureUsages {
                render_attachment: true,
                texture_binding: true,
                copy_src: false,
            },
        }
    }

    /// The 8-bit colour attachment: rendered into, then copied out.
    pub fn ldr_texture(&self) -> (d: TextureDescriptor)
        ensures
            d == self.texture(
                LDR_FORMAT,
                TextureUsages { render_attachment: true, texture_binding: false, copy_src: true },
            ),
            d.format == ColorTarget::Ldr.format(),
            d.format.spec_bytes_per_texel() == BYTES_PER_PIXEL,
    {
        TextureDescriptor {
            width: self.width,
            height: self.height,
            format: LDR_FORMAT,
            usage: TextureUsages {
                render_attachment: true,
                texture_binding: false,
                copy_src: true,
            },
        }
    }

    /// The depth attachment.
    pub fn depth_texture(&self) -> (d: TextureDescriptor)
        ensures
            d == self.texture(
                TextureFormat::Depth32Float,
                TextureUsages { render_attachment: true, texture_binding: false, copy_src: false },
            ),
            d.format == DepthTarget::Scene.format(),
    {
        TextureDescriptor {
            width: self.width,
            height: self.height,
            format: TextureFormat::Depth32Float,
            usage: TextureUsages {
                render_attachment: true,
                texture_binding: false,
                copy_src: false,
            },
        }
    }

    /// Bytes of the read-back buffer: one padded row for each row of pixels.
    pub open spec fn spec_output_size(&self) -> u64 {
        (self.spec_padded_bytes_per_row() as u64 * self.spec_height() as u64) as u64
    }

    /// The read-back buffer.
    pub fn output_buffer(&self) -> (d: BufferDescriptor)
        ensures
            d == staging_buffer(self.spec_output_size()),
            d.size == padded_row_bytes(self.spec_width() as int) * self.spec_height(),
    {
        proof {
            use_type_invariant(self);
            assert(self.padded_bytes_per_row as u64 * self.height as u64 <= 0xffff_ffff
                * 0xffff_ffff) by (nonlinear_arith);
        }
        make_staging_buffer(self.padded_bytes_per_row as u64 * self.height as u64)
    }

    /// Bytes of the packed pixels: four for each pixel.
    pub open spec fn spec_pixel_bytes(&self) -> int {
        row_bytes(self.spec_width() as int) * self.spec_height()
    }

    /// The copy of the 8-bit attachment into the read-back buffer.
    pub open spec fn copy(&self) -> TextureCopy {
        TextureCopy {
            source: ColorTarget::Ldr,
            width: self.spec_width(),
            height: self.spec_height(),
            bytes_per_row: self.spec_padded_bytes_per_row(),
            rows_per_image: self.spec_height(),
            buffer_size: self.spec_output_size(),
        }
    }

    /// Records the copy of the 8-bit attachment into the read-back buffer.
    /// The copy comes after tonemapping has written that attachment.
    pub fn copy_to_buffer(&self, encoder: &mut CommandEncoder)
        requires
            old(encoder).state().open is None,
            old(encoder).state().written.ldr,
        ensures
            final(encoder)@ == old(encoder)@.push(Command::CopyTextureToBuffer(self.copy())),
            final(encoder).state() == old(encoder).state(),
    {
        proof {
            use_type_invariant(self);
            lemma_padded_row_bytes(self.width as int);
            assert(self.padded_bytes_per_row as u64 * self.height as u64 <= 0xffff_ffff
                * 0xffff_ffff) by (nonlinear_arith);
            if self.height > 0 {
                assert((self.height - 1) * self.padded_bytes_per_row + self.padded_bytes_per_row
                    == self.padded_bytes_per_row * self.height) by (nonlinear_arith);
            }
        }
        encoder.copy_texture_to_buffer(
            TextureCopy {
                source: ColorTarget::Ldr,
                width: self.width,
                height: self.height,
                bytes_per_row: self.padded_bytes_per_row,
                rows_per_image: self.height,
                buffer_size: self.padded_bytes_per_row as u64 * self.height as u64,
            },
        );
    }

    /// Packs the pixels of the mapped read-back buffer: the padding at the end
    /// of each row is left out. The result holds four bytes for each pixel,
    /// row after row from the top.
    pub fn read_pixels(&self, mapped: &[u8]) -> (pixels: Vec<u8>)
        requires
            mapped_extent(self.spec_width() as int, self.spec_height() as int) <= mapped@.len(),
        ensures
            pixels@ == unpadded(mapped@, self.spec_width() as int, self.spec_height() as int),
            pixels@.len() == self.spec_pixel_bytes(),
    {
        proof {
            use_type_invariant(self);
            lemma_padded_row_bytes(self.width as int);
        }
        let ghost width = self.width as int;
        let ghost height = self.height as int;
        let row: usize = (self.width as usize) * 4;
        let stride: usize = self.padded_bytes_per_row as usize;
        let mapped_len: usize = mapped.len();
        let mut output: Vec<u8> = Vec::new();
        let mut y: u32 = 0;
        while y < self.height
            invariant
                y <= self.height,
                mapped_len == mapped@.len(),
                width == self.width,
                height == self.height,
                row == row_bytes(width),
                stride == padded_row_bytes(width),
                row <= stride,
                mapped_extent(width, height) <= mapped@.len(),
                output@.len() == y * row,
                forall|i: int|
                    0 <= i < output@.len() ==> output@[i] == mapped@[i / row_bytes(width)
                        * padded_row_bytes(width) + i % row_bytes(width)],
            decreases self.height - y,
        {
            proof {
                assert(0 <= (y as usize) * stride && (y as usize) * stride <= (height - 1)
                    * padded_row_bytes(width)) by (nonlinear_arith)
                    requires
                        0 <= y < height,
                        0 <= stride,
                        stride == padded_row_bytes(width),
                ;
                assert((y as usize) * stride == y * stride);
                assert(0 <= y * row && (y + 1) * row == y * row + row) by (nonlinear_arith)
                    requires
                        0 <= y,
                        0 <= row,
                ;
            }
            let start: usize = (y as usize) * stride;
            let mut b: usize = 0;
            while b < row
                invariant
                    b <= row,
                    y < self.height,
                    mapped_len == mapped@.len(),
                    width == self.width,
                    height == self.height,
                    row == row_bytes(width),
                    stride == padded_row_bytes(width),
                    row <= stride,
                    start == y * stride,
                    start + row <= mapped@.len(),
                    output@.len() == y * row + b,
                    forall|i: int|
                        0 <= i < output@.len() ==> output@[i] == mapped@[i / row_bytes(width)
                            * padded_row_bytes(width) + i % row_bytes(width)],
                decreases row - b,
            {
                proof {
                    vstd::arithmetic::div_mod::lemma_fundamental_div_mod_converse(
                        y * row + b,
                        row as int,
                        y as int,
                        b as int,
                    );
                }
                output.push(mapped[start + b]);
                b = b + 1;
            }
            y = y + 1;
        }
        proof {
            assert(height * row == row_bytes(width) * height) by (nonlinear_arith)
                requires
                    row == row_bytes(width),
            ;
            assert(output@ =~= unpadded(mapped@, width, height));
        }
        output
    }
}

} // verus!
