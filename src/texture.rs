//! Textures: the raster to upload, the upload command sequence with its
//! layout transitions, and the texture's resources and their release.

use crate::buffer::{buffer_release_steps, Buffer, ReleaseStep};
use crate::swapchain::Extent2D;
use vstd::prelude::*;

verus! {

/// Access bit: transfer writes.
pub const ACCESS_TRANSFER_WRITE: u32 = 0x1000;

/// Access bit: shader reads.
pub const ACCESS_SHADER_READ: u32 = 0x20;

/// Access bits: depth attachment reads and writes.
pub const ACCESS_DEPTH_ATTACHMENT_READ_WRITE: u32 = 0x600;

/// Stage bit: all commands.
pub const STAGE_ALL_COMMANDS: u32 = 0x10000;

/// Stage bit: the end of the pipeline.
pub const STAGE_BOTTOM_OF_PIPE: u32 = 0x2000;

/// Stage bit: late fragment tests.
pub const STAGE_LATE_FRAGMENT_TESTS: u32 = 0x200;

/// How an image's memory is laid out for its next use.
#[derive(Clone, Copy, Debug, PartialEq, Eq, Structural)]
pub enum ImageLayout {
    Undefined,
    TransferDstOptimal,
    ShaderReadOnlyOptimal,
    DepthStencilAttachmentOptimal,
}

/// The part of an image that a command addresses.
#[derive(Clone, Copy, Debug, PartialEq, Eq, Structural)]
pub enum ImageAspect {
    Color,
    Depth,
}

/// A command of a one-shot setup submission.
#[derive(Clone, Copy, Debug, PartialEq, Eq, Structural)]
pub enum UploadCommand {
    /// A pipeline barrier that moves the image from one layout to another.
    Barrier {
        old_layout: ImageLayout,
        new_layout: ImageLayout,
        src_access: u32,
        dst_access: u32,
        src_stage: u32,
        dst_stage: u32,
        aspect: ImageAspect,
    },
    /// Copies the staging buffer into mip level 0, layer 0 of the image.
    CopyBufferToImage { extent: Extent2D },
}

/// The image's layout after the commands, starting from `start`; `None` when
/// a barrier does not start from the layout the image is in, or a copy finds
/// the image in a layout other than transfer-destination-optimal.
pub open spec fn layout_after(start: ImageLayout, cmds: Seq<UploadCommand>) -> Option<ImageLayout>
    decreases cmds.len(),
{
    if cmds.len() == 0 {
        Some(start)
    } else {
        match layout_after(start, cmds.drop_last()) {
            None => None,
            Some(cur) => match cmds.last() {
                UploadCommand::Barrier { old_layout, new_layout, .. } => if old_layout == cur {
                    Some(new_layout)
                } else {
                    None
                },
                UploadCommand::CopyBufferToImage { .. } => if cur == ImageLayout::TransferDstOptimal {
                    Some(cur)
                } else {
                    None
                },
            },
        }
    }
}

/// The texture upload: to transfer-destination layout, copy the staging
/// buffer in, then to shader-read-only layout.
pub open spec fn texture_upload_spec(extent: Extent2D) -> Seq<UploadCommand> {
    seq![
        UploadCommand::Barrier {
            old_layout: ImageLayout::Undefined,
            new_layout: ImageLayout::TransferDstOptimal,
            src_access: 0,
            dst_access: ACCESS_TRANSFER_WRITE,
            src_stage: STAGE_ALL_COMMANDS,
            dst_stage: STAGE_ALL_COMMANDS,
            aspect: ImageAspect::Color,
        },
        UploadCommand::CopyBufferToImage { extent },
        UploadCommand::Barrier {
            old_layout: ImageLayout::TransferDstOptimal,
            new_layout: ImageLayout::ShaderReadOnlyOptimal,
            src_access: ACCESS_TRANSFER_WRITE,
            dst_access: ACCESS_SHADER_READ,
            src_stage: STAGE_ALL_COMMANDS,
            dst_stage: STAGE_ALL_COMMANDS,
            aspect: ImageAspect::Color,
        },
    ]
}

/// The commands that upload a texture of the given size from its staging
/// buffer. They are valid from the undefined layout and leave the image
/// ready for shader reads.
pub fn texture_upload_commands(extent: Extent2D) -> (r: Vec<UploadCommand>)
    ensures
        r@ == texture_upload_spec(extent),
        layout_after(ImageLayout::Undefined, r@) == Some(ImageLayout::ShaderReadOnlyOptimal),
{
    let r = vec![
        UploadCommand::Barrier {
            old_layout: ImageLayout::Undefined,
            new_layout: ImageLayout::TransferDstOptimal,
            src_access: 0,
            dst_access: ACCESS_TRANSFER_WRITE,
            src_stage: STAGE_ALL_COMMANDS,
            dst_stage: STAGE_ALL_COMMANDS,
            aspect: ImageAspect::Color,
        },
        UploadCommand::CopyBufferToImage { extent },
        UploadCommand::Barrier {
            old_layout: ImageLayout::TransferDstOptimal,
            new_layout: ImageLayout::ShaderReadOnlyOptimal,
            src_access: ACCESS_TRANSFER_WRITE,
            dst_access: ACCESS_SHADER_READ,
            src_stage: STAGE_ALL_COMMANDS,
            dst_stage: STAGE_ALL_COMMANDS,
            aspect: ImageAspect::Color,
        },
    ];
    assert(r@ =~= texture_upload_spec(extent));
    proof {
        let s = r@;
        assert(s.take(1).drop_last() =~= s.take(0));
        assert(s.take(2).drop_last() =~= s.take(1));
        assert(s.drop_last() =~= s.take(2));
        assert(layout_after(ImageLayout::Undefined, s.take(0)) == Some(ImageLayout::Undefined));
        assert(s.take(1).last() == s[0]);
        assert(s.take(2).last() == s[1]);
        assert(layout_after(ImageLayout::Undefined, s.take(1)) == Some(
            ImageLayout::TransferDstOptimal,
        ));
        assert(layout_after(ImageLayout::Undefined, s.take(2)) == Some(
            ImageLayout::TransferDstOptimal,
        ));
    }
    r
}

/// The single barrier that readies the depth image as a depth attachment.
pub fn depth_transition_commands() -> (r: Vec<UploadCommand>)
    ensures
        r@ == seq![
            UploadCommand::Barrier {
                old_layout: ImageLayout::Undefined,
                new_layout: ImageLayout::DepthStencilAttachmentOptimal,
                src_access: 0,
                dst_access: ACCESS_DEPTH_ATTACHMENT_READ_WRITE,
                src_stage: STAGE_BOTTOM_OF_PIPE,
                dst_stage: STAGE_LATE_FRAGMENT_TESTS,
                aspect: ImageAspect::Depth,
            },
        ],
        layout_after(ImageLayout::Undefined, r@) == Some(ImageLayout::DepthStencilAttachmentOptimal),
{
    let r = vec![
        UploadCommand::Barrier {
            old_layout: ImageLayout::Undefined,
            new_layout: ImageLayout::DepthStencilAttachmentOptimal,
            src_access: 0,
            dst_access: ACCESS_DEPTH_ATTACHMENT_READ_WRITE,
            src_stage: STAGE_BOTTOM_OF_PIPE,
            dst_stage: STAGE_LATE_FRAGMENT_TESTS,
            aspect: ImageAspect::Depth,
        },
    ];
    assert(r@.drop_last() =~= Seq::<UploadCommand>::empty());
    assert(layout_after(ImageLayout::Undefined, r@.drop_last()) == Some(ImageLayout::Undefined));
    r
}

/// `floor(log2(n))`, with 0 for 0 and 1.
pub open spec fn floor_log2(n: nat) -> nat
    decreases n,
{
    if n <= 1 {
        0
    } else {
        1 + floor_log2(n / 2)
    }
}

/// `floor(log2(max(width, height))) + 1`.
pub open spec fn mip_levels_for(width: u32, height: u32) -> nat {
    let m: nat = if width >= height {
        width as nat
    } else {
        height as nat
    };
    floor_log2(m) + 1
}

proof fn lemma_floor_log2_monotonic(a: nat, b: nat)
    requires
        a <= b,
    ensures
        floor_log2(a) <= floor_log2(b),
    decreases a,
{
    if a > 1 {
        lemma_floor_log2_monotonic(a / 2, b / 2);
    }
}

/// The length of a full mip chain for an image of the given size.
pub fn mip_level_count(width: u32, height: u32) -> (r: u32)
    ensures
        r == mip_levels_for(width, height),
{
    let mut m: u32 = if width >= height {
        width
    } else {
        height
    };
    proof {
        lemma_floor_log2_monotonic(m as nat, 0xFFFF_FFFF);
        reveal_with_fuel(floor_log2, 33);
    }
    let mut levels: u32 = 1;
    while m > 1
        invariant
            levels + floor_log2(m as nat) == mip_levels_for(width, height),
            mip_levels_for(width, height) <= 32,
        decreases m,
    {
        m = m / 2;
        levels = levels + 1;
    }
    levels
}

/// A decoded image: 8-bit RGBA pixels, row after row.
#[derive(Clone, Debug)]
pub struct Raster {
    pub width: u32,
    pub height: u32,
    pub pixels: Vec<u8>,
}

impl Raster {
    /// Four bytes for each of the `width * height` pixels.
    pub open spec fn wf(&self) -> bool {
        self.pixels@.len() == 4 * self.width * self.height
    }

    /// Takes decoded RGBA pixels; refused when their byte count is not four
    /// per pixel.
    pub fn new(width: u32, height: u32, pixels: Vec<u8>) -> (r: Result<Raster, TextureError>)
        ensures
            match r {
                Ok(x) => x.width == width && x.height == height && x.pixels@ == pixels@ && x.wf(),
                Err(e) => e == TextureError::PixelCountMismatch && pixels@.len() != 4 * width
                    * height,
            },
    {
        assert((width as int) * (height as int) <= 0xFFFF_FFFF * 0xFFFF_FFFF) by (nonlinear_arith)
            requires
                width <= 0xFFFF_FFFF,
                height <= 0xFFFF_FFFF,
        ;
        let area = (width as u64) * (height as u64);
        let expected = (area as u128) * 4;
        assert(expected == 4 * width * height) by (nonlinear_arith)
            requires
                expected == (area as int) * 4,
                area == (width as int) * (height as int),
        ;
        if pixels.len() as u128 != expected {
            return Err(TextureError::PixelCountMismatch);
        }
        Ok(Raster { width, height, pixels })
    }

    /// The raster's extent.
    pub fn extent(&self) -> (r: Extent2D)
        ensures
            r == (Extent2D { width: self.width, height: self.height }),
    {
        Extent2D { width: self.width, height: self.height }
    }
}

/// Why a texture could not be built.
#[derive(Clone, Copy, Debug, PartialEq, Eq, Structural)]
pub enum TextureError {
    /// The pixel bytes are not four per pixel of the stated size.
    PixelCountMismatch,
}

/// A sampled 2D image with its view, sampler and memory, and the staging
/// buffer that its pixels were uploaded from.
#[derive(Clone, Copy, Debug, PartialEq, Eq)]
pub struct Texture {
    pub image: u64,
    pub view: u64,
    pub layout: ImageLayout,
    pub memory: u64,
    pub sampler: Option<u64>,
    pub width: u32,
    pub height: u32,
    /// The length of a full mip chain; only level 0 is created.
    pub mip_levels: u32,
    pub layer_count: u32,
    pub staging_buffer: Buffer,
}

/// Destroy the view, the image and the sampler if any, free the memory,
/// then release the staging buffer.
pub open spec fn texture_release_steps(t: Texture) -> Seq<ReleaseStep> {
    let head = seq![ReleaseStep::DestroyImageView(t.view), ReleaseStep::DestroyImage(t.image)];
    let sampler = match t.sampler {
        Some(s) => seq![ReleaseStep::DestroySampler(s)],
        None => Seq::empty(),
    };
    head + sampler + seq![ReleaseStep::FreeMemory(t.memory)] + buffer_release_steps(
        t.staging_buffer,
    )
}

impl Texture {
    /// A texture uploaded and ready for shader reads: one layer, and the mip
    /// chain length of its size recorded.
    pub fn new(
        image: u64,
        view: u64,
        memory: u64,
        sampler: Option<u64>,
        extent: Extent2D,
        staging_buffer: Buffer,
    ) -> (r: Texture)
        ensures
            r.image == image,
            r.view == view,
            r.memory == memory,
            r.sampler == sampler,
            r.width == extent.width,
            r.height == extent.height,
            r.layout == ImageLayout::ShaderReadOnlyOptimal,
            r.mip_levels == mip_levels_for(extent.width, extent.height),
            r.layer_count == 1,
            r.staging_buffer == staging_buffer,
    {
        Texture {
            image,
            view,
            layout: ImageLayout::ShaderReadOnlyOptimal,
            memory,
            sampler,
            width: extent.width,
            height: extent.height,
            mip_levels: mip_level_count(extent.width, extent.height),
            layer_count: 1,
            staging_buffer,
        }
    }

    /// The calls that release the texture, in order.
    pub fn destroy(&self) -> (r: Vec<ReleaseStep>)
        ensures
            r@ == texture_release_steps(*self),
    {
        let mut r: Vec<ReleaseStep> = Vec::new();
        r.push(ReleaseStep::DestroyImageView(self.view));
        r.push(ReleaseStep::DestroyImage(self.image));
        match self.sampler {
            Some(s) => r.push(ReleaseStep::DestroySampler(s)),
            None => {},
        }
        r.push(ReleaseStep::FreeMemory(self.memory));
        let mut staging = self.staging_buffer.destroy();
        r.append(&mut staging);
        assert(r@ =~= texture_release_steps(*self));
        r
    }
}

/// A 2D texture.
#[derive(Clone, Copy, Debug, PartialEq, Eq)]
pub struct Texture2D {
    pub data: Texture,
}

} // verus!
