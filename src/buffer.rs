//! GPU buffers: a buffer handle, the memory planned and bound for it, and
//! the order in which they are released.

use crate::memory::{
    is_memory_type_choice, plan_allocation, AllocationError, MemoryProperties, MemoryRequirements,
};
use vstd::prelude::*;

verus! {

/// One device call that releases part of a resource, by raw handle.
#[derive(Clone, Copy, Debug, PartialEq, Eq, Structural)]
pub enum ReleaseStep {
    UnmapMemory(u64),
    FreeMemory(u64),
    DestroyBuffer(u64),
    DestroyImageView(u64),
    DestroyImage(u64),
    DestroySampler(u64),
}

/// A buffer and the memory planned and bound for it, owned by whoever
/// created it.
#[derive(Clone, Copy, Debug, PartialEq, Eq)]
pub struct Buffer {
    pub buffer: u64,
    /// The memory bound to the buffer, once allocated.
    pub device_memory: Option<u64>,
    /// The memory is mapped into the host's address space.
    pub mapped: bool,
    /// The size of the allocation in bytes: the buffer's required size.
    pub size: u64,
    /// The memory type that the allocation is made from.
    pub memory_type_index: u32,
}

/// Unmap when mapped, free the memory if any was bound, then destroy the
/// handle.
pub open spec fn buffer_release_steps(b: Buffer) -> Seq<ReleaseStep> {
    let memory = match b.device_memory {
        Some(m) => if b.mapped {
            seq![ReleaseStep::UnmapMemory(m), ReleaseStep::FreeMemory(m)]
        } else {
            seq![ReleaseStep::FreeMemory(m)]
        },
        None => Seq::empty(),
    };
    memory + seq![ReleaseStep::DestroyBuffer(b.buffer)]
}

impl Buffer {
    /// Plans the memory for a created buffer: its required size, in the
    /// lowest memory type that the buffer allows and that has all of
    /// `flags`. Fails, with nothing planned, when no memory type qualifies;
    /// the caller then destroys the handle.
    pub fn new(buffer: u64, req: &MemoryRequirements, props: &MemoryProperties, flags: u32) -> (r:
        Result<Buffer, AllocationError>)
        ensures
            match r {
                Ok(b) => {
                    &&& b.buffer == buffer
                    &&& b.size == req.size
                    &&& is_memory_type_choice(
                        *req,
                        props.memory_types@,
                        flags,
                        Some(b.memory_type_index),
                    )
                    &&& b.device_memory is None
                    &&& !b.mapped
                },
                Err(e) => e == AllocationError::NoSuitableMemoryType && is_memory_type_choice(
                    *req,
                    props.memory_types@,
                    flags,
                    None,
                ),
            },
    {
        match plan_allocation(req, props, flags) {
            Ok(a) => Ok(
                Buffer {
                    buffer,
                    device_memory: None,
                    mapped: false,
                    size: a.size,
                    memory_type_index: a.memory_type_index,
                },
            ),
            Err(e) => Err(e),
        }
    }

    /// Records the memory allocated and bound for the buffer, and whether it
    /// was mapped for the buffer's lifetime.
    pub fn bind_memory(&mut self, device_memory: u64, mapped: bool)
        ensures
            *final(self) == (Buffer { device_memory: Some(device_memory), mapped, ..*old(self) }),
    {
        self.device_memory = Some(device_memory);
        self.mapped = mapped;
    }

    /// Marks the memory unmapped; returns the unmap call to make, if mapped
    /// memory is bound.
    pub fn unmap_memory(&mut self) -> (r: Option<ReleaseStep>)
        ensures
            *final(self) == (Buffer { mapped: false, ..*old(self) }),
            r == (match old(self).device_memory {
                Some(m) => if old(self).mapped {
                    Some(ReleaseStep::UnmapMemory(m))
                } else {
                    None::<ReleaseStep>
                },
                None => None::<ReleaseStep>,
            }),
    {
        let r = match self.device_memory {
            Some(m) => if self.mapped {
                Some(ReleaseStep::UnmapMemory(m))
            } else {
                None
            },
            None => None,
        };
        self.mapped = false;
        r
    }

    /// The calls that release the buffer, in order: unmap if still mapped,
    /// free the memory, destroy the handle.
    pub fn destroy(&self) -> (r: Vec<ReleaseStep>)
        ensures
            r@ == buffer_release_steps(*self),
    {
        let mut r: Vec<ReleaseStep> = Vec::new();
        match self.device_memory {
            Some(m) => {
                if self.mapped {
                    r.push(ReleaseStep::UnmapMemory(m));
                }
                r.push(ReleaseStep::FreeMemory(m));
            },
            None => {},
        }
        r.push(ReleaseStep::DestroyBuffer(self.buffer));
        assert(r@ =~= buffer_release_steps(*self));
        r
    }
}

} // verus!
