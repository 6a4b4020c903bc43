//! Resource-barrier construction: the fields a transition barrier carries,
//! filled in exactly as the graphics API expects them.

use vstd::prelude::*;

verus! {

/// The subresource index that means "every subresource of the resource".
pub const RESOURCE_BARRIER_ALL_SUBRESOURCES: u32 = 0xffff_ffff;

/// The empty barrier-flags word.
pub const RESOURCE_BARRIER_FLAG_NONE: u32 = 0;

/// The barrier's kind. The API encodes it as a small integer whose zero
/// value is the transition kind, so a zeroed barrier is a transition barrier.
#[derive(PartialEq, Eq, Structural, Clone, Copy, Debug)]
pub enum BarrierType {
    Transition,
    Aliasing,
    Uav,
}

/// A resource barrier as handed to the command list. The resource itself is
/// a graphics-API object held by the caller; here it appears as the caller's
/// handle for it, `None` standing for the API's null resource.
#[allow(non_camel_case_types)]
pub struct CD3DX12_RESOURCE_BARRIER {
    pub barrier_type: BarrierType,
    pub flags: u32,
    pub resource: Option<u64>,
    pub state_before: u32,
    pub state_after: u32,
    pub subresource: u32,
}

impl Default for CD3DX12_RESOURCE_BARRIER {
    /// The zeroed barrier: transition kind, no flags, null resource, both
    /// states zero, subresource zero.
    fn default() -> (r: Self)
        ensures
            r.barrier_type == BarrierType::Transition,
            r.flags == 0,
            r.resource is None,
            r.state_before == 0,
            r.state_after == 0,
            r.subresource == 0,
    {
        CD3DX12_RESOURCE_BARRIER {
            barrier_type: BarrierType::Transition,
            flags: 0,
            resource: None,
            state_before: 0,
            state_after: 0,
            subresource: 0,
        }
    }
}

impl CD3DX12_RESOURCE_BARRIER {
    /// A transition barrier for `resource` from `state_before` to
    /// `state_after`. A missing subresource index means every subresource;
    /// missing flags mean no flags.
    #[allow(non_snake_case)]
    pub fn Transition(
        resource: u64,
        state_before: u32,
        state_after: u32,
        subresource: Option<u32>,
        flags: Option<u32>,
    ) -> (r: Self)
        ensures
            r.barrier_type == BarrierType::Transition,
            r.flags == (match flags {
                Some(f) => f,
                None => RESOURCE_BARRIER_FLAG_NONE,
            }),
            r.resource == Some(resource),
            r.state_before == state_before,
            r.state_after == state_after,
            r.subresource == (match subresource {
                Some(s) => s,
                None => RESOURCE_BARRIER_ALL_SUBRESOURCES,
            }),
    {
        let mut barrier = CD3DX12_RESOURCE_BARRIER::default();

        barrier.barrier_type = BarrierType::Transition;
        barrier.flags = match flags {
            Some(f) => f,
            None => RESOURCE_BARRIER_FLAG_NONE,
        };

        barrier.resource = Some(resource);
        barrier.state_after = state_after;
        barrier.state_before = state_before;
        barrier.subresource = match subresource {
            Some(s) => s,
            None => RESOURCE_BARRIER_ALL_SUBRESOURCES,
        };

        barrier
    }
}

} // verus!
