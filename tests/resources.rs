use tarsier::buffer::{Buffer, ReleaseStep};
use tarsier::memory::{
    AllocationError, MemoryProperties, MemoryRequirements, MemoryType, DEVICE_LOCAL, HOST_COHERENT,
    HOST_VISIBLE,
};
use tarsier::swapchain::Extent2D;
use tarsier::texture::{
    depth_transition_commands, mip_level_count, texture_upload_commands, ImageAspect, ImageLayout,
    Raster, Texture, TextureError, UploadCommand,
};

fn memory_table() -> MemoryProperties {
    MemoryProperties {
        memory_types: vec![
            MemoryType { property_flags: DEVICE_LOCAL, heap_index: 0 },
            MemoryType { property_flags: HOST_VISIBLE | HOST_COHERENT, heap_index: 1 },
        ],
    }
}

fn planned(buffer: u64, memory: u64, mapped: bool) -> Buffer {
    let req = MemoryRequirements { size: 256, alignment: 64, memory_type_bits: 0b11 };
    let mut b = Buffer::new(buffer, &req, &memory_table(), HOST_VISIBLE).unwrap();
    b.bind_memory(memory, mapped);
    b
}

#[test]
fn buffer_plans_size_and_memory_type() {
    let req = MemoryRequirements { size: 4096, alignment: 256, memory_type_bits: 0b11 };
    let b = Buffer::new(7, &req, &memory_table(), HOST_VISIBLE | HOST_COHERENT).unwrap();
    assert_eq!((b.buffer, b.size, b.memory_type_index), (7, 4096, 1));
    assert_eq!(b.device_memory, None);
    assert!(!b.mapped);
    assert_eq!(b.destroy(), vec![ReleaseStep::DestroyBuffer(7)]);
    let local_only = MemoryRequirements { size: 64, alignment: 1, memory_type_bits: 0b01 };
    assert_eq!(
        Buffer::new(7, &local_only, &memory_table(), HOST_VISIBLE),
        Err(AllocationError::NoSuitableMemoryType)
    );
}

#[test]
fn buffer_release_order() {
    let mut b = planned(10, 20, true);
    assert_eq!(b.device_memory, Some(20));
    assert_eq!(
        b.destroy(),
        vec![ReleaseStep::UnmapMemory(20), ReleaseStep::FreeMemory(20), ReleaseStep::DestroyBuffer(10)]
    );
    assert_eq!(b.unmap_memory(), Some(ReleaseStep::UnmapMemory(20)));
    assert!(!b.mapped);
    assert_eq!(b.unmap_memory(), None);
    assert_eq!(b.destroy(), vec![ReleaseStep::FreeMemory(20), ReleaseStep::DestroyBuffer(10)]);
}

#[test]
fn mip_levels() {
    assert_eq!(mip_level_count(1024, 512), 11);
    assert_eq!(mip_level_count(512, 1024), 11);
    assert_eq!(mip_level_count(1, 1), 1);
    assert_eq!(mip_level_count(0, 0), 1);
    assert_eq!(mip_level_count(3, 2), 2);
    assert_eq!(mip_level_count(1023, 7), 10);
    assert_eq!(mip_level_count(u32::MAX, 1), 32);
}

#[test]
fn texture_upload_sequence() {
    let extent = Extent2D { width: 4, height: 2 };
    let cmds = texture_upload_commands(extent);
    assert_eq!(cmds.len(), 3);
    match cmds[0] {
        UploadCommand::Barrier { old_layout, new_layout, aspect, .. } => {
            assert_eq!(old_layout, ImageLayout::Undefined);
            assert_eq!(new_layout, ImageLayout::TransferDstOptimal);
            assert_eq!(aspect, ImageAspect::Color);
        }
        _ => panic!("expected a barrier"),
    }
    assert_eq!(cmds[1], UploadCommand::CopyBufferToImage { extent });
    match cmds[2] {
        UploadCommand::Barrier { old_layout, new_layout, .. } => {
            assert_eq!(old_layout, ImageLayout::TransferDstOptimal);
            assert_eq!(new_layout, ImageLayout::ShaderReadOnlyOptimal);
        }
        _ => panic!("expected a barrier"),
    }
    let depth = depth_transition_commands();
    assert_eq!(depth.len(), 1);
    match depth[0] {
        UploadCommand::Barrier { old_layout, new_layout, aspect, .. } => {
            assert_eq!(old_layout, ImageLayout::Undefined);
            assert_eq!(new_layout, ImageLayout::DepthStencilAttachmentOptimal);
            assert_eq!(aspect, ImageAspect::Depth);
        }
        _ => panic!("expected a barrier"),
    }
}

#[test]
fn raster_takes_four_bytes_per_pixel() {
    let r = Raster::new(2, 1, vec![10, 20, 30, 255, 40, 50, 60, 255]).unwrap();
    assert_eq!((r.width, r.height), (2, 1));
    assert_eq!(r.extent(), Extent2D { width: 2, height: 1 });
    assert_eq!(r.pixels.len(), 8);
    assert!(Raster::new(0, 5, vec![]).is_ok());
}

#[test]
fn raster_with_wrong_byte_count_is_refused() {
    assert_eq!(Raster::new(2, 2, vec![0; 15]).unwrap_err(), TextureError::PixelCountMismatch);
    assert_eq!(Raster::new(1, 1, vec![0; 3]).unwrap_err(), TextureError::PixelCountMismatch);
    assert_eq!(
        Raster::new(u32::MAX, u32::MAX, vec![0; 4]).unwrap_err(),
        TextureError::PixelCountMismatch
    );
}

#[test]
fn texture_records_mips_and_releases_in_order() {
    let staging = planned(100, 101, false);
    let t = Texture::new(1, 2, 3, Some(4), Extent2D { width: 256, height: 64 }, staging);
    assert_eq!(t.mip_levels, 9);
    assert_eq!(t.layer_count, 1);
    assert_eq!(t.layout, ImageLayout::ShaderReadOnlyOptimal);
    assert_eq!(
        t.destroy(),
        vec![
            ReleaseStep::DestroyImageView(2),
            ReleaseStep::DestroyImage(1),
            ReleaseStep::DestroySampler(4),
            ReleaseStep::FreeMemory(3),
            ReleaseStep::FreeMemory(101),
            ReleaseStep::DestroyBuffer(100),
        ]
    );
    let plain = Texture::new(1, 2, 3, None, Extent2D { width: 1, height: 1 }, staging);
    assert_eq!(plain.destroy().len(), 5);
}
