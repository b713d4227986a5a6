//! Render-state reconciliation.
//!
//! Depth, color, blend and cull state are each an immutable "desired state"
//! value diffed against a cached "current state". Reconciling replaces the
//! cache with the desired state and reports exactly which device settings
//! changed, so the caller issues only the deltas and never a redundant
//! device call. The enumeration codes for comparison functions and face
//! selections are the device API's.

use vstd::prelude::*;

verus! {

/// Depth-test state: whether the test runs, the comparison function's device
/// code, and whether depth writes are enabled.
#[derive(Debug, Copy, Clone, Eq, PartialEq, Structural)]
pub struct DepthState {
    pub enabled: bool,
    pub function: u32,
    pub mask: bool,
}

/// Which depth settings changed and must be re-issued to the device.
#[derive(Debug, Copy, Clone, Eq, PartialEq, Structural)]
pub struct DepthDelta {
    pub set_enabled: bool,
    pub set_function: bool,
    pub set_mask: bool,
}

impl DepthState {
    /// Replaces the cached state with `state` and reports which of the three
    /// settings differed.
    pub fn reconcile(&mut self, state: DepthState) -> (r: DepthDelta)
        ensures
            *final(self) == state,
            r.set_enabled == (old(self).enabled != state.enabled),
            r.set_function == (old(self).function != state.function),
            r.set_mask == (old(self).mask != state.mask),
    {
        let r = DepthDelta {
            set_enabled: self.enabled != state.enabled,
            set_function: self.function != state.function,
            set_mask: self.mask != state.mask,
        };
        *self = state;
        r
    }
}

/// Per-channel color write masks, in red, green, blue, alpha order.
#[derive(Debug, Copy, Clone)]
pub struct ColorState {
    pub mask: [bool; 4],
}

/// Whether the color write mask changed and must be re-issued.
#[derive(Debug, Copy, Clone, Eq, PartialEq, Structural)]
pub struct ColorDelta {
    pub set_mask: bool,
}

impl ColorState {
    /// Replaces the cached state with `state` and reports whether any
    /// channel's mask differed.
    pub fn reconcile(&mut self, state: ColorState) -> (r: ColorDelta)
        ensures
            *final(self) == state,
            r.set_mask == (old(self).mask@ != state.mask@),
    {
        let differs = self.mask[0] != state.mask[0] || self.mask[1] != state.mask[1]
            || self.mask[2] != state.mask[2] || self.mask[3] != state.mask[3];
        proof {
            if !differs {
                assert(self.mask@ =~= state.mask@);
            }
        }
        let r = ColorDelta { set_mask: differs };
        *self = state;
        r
    }
}

/// Blending state: whether blending is enabled.
#[derive(Debug, Copy, Clone, Eq, PartialEq, Structural)]
pub struct BlendState {
    pub enabled: bool,
}

/// Whether the blend toggle changed and must be re-issued.
#[derive(Debug, Copy, Clone, Eq, PartialEq, Structural)]
pub struct BlendDelta {
    pub set_enabled: bool,
}

impl BlendState {
    /// Replaces the cached state with `state` and reports whether the toggle
    /// differed.
    pub fn reconcile(&mut self, state: BlendState) -> (r: BlendDelta)
        ensures
            *final(self) == state,
            r.set_enabled == (old(self).enabled != state.enabled),
    {
        let r = BlendDelta { set_enabled: self.enabled != state.enabled };
        *self = state;
        r
    }
}

/// Face-culling state: whether culling runs, which face's device code is
/// culled, and the winding order's device code.
#[derive(Debug, Copy, Clone, Eq, PartialEq, Structural)]
pub struct CullState {
    pub enabled: bool,
    pub face: u32,
    pub front: u32,
}

/// Which culling settings changed and must be re-issued.
#[derive(Debug, Copy, Clone, Eq, PartialEq, Structural)]
pub struct CullDelta {
    pub set_enabled: bool,
    pub set_face: bool,
    pub set_front: bool,
}

impl CullState {
    /// Replaces the cached state with `state` and reports which of the three
    /// settings differed.
    pub fn reconcile(&mut self, state: CullState) -> (r: CullDelta)
        ensures
            *final(self) == state,
            r.set_enabled == (old(self).enabled != state.enabled),
            r.set_face == (old(self).face != state.face),
            r.set_front == (old(self).front != state.front),
    {
        let r = CullDelta {
            set_enabled: self.enabled != state.enabled,
            set_face: self.face != state.face,
            set_front: self.front != state.front,
        };
        *self = state;
        r
    }
}

/// The full cached render state.
#[derive(Debug, Copy, Clone)]
pub struct RenderState {
    pub depth: DepthState,
    pub color: ColorState,
    pub blend: BlendState,
    pub cull: CullState,
}

/// Every setting that changed across the full render state.
#[derive(Debug, Copy, Clone, Eq, PartialEq, Structural)]
pub struct RenderStateDelta {
    pub depth: DepthDelta,
    pub color: ColorDelta,
    pub blend: BlendDelta,
    pub cull: CullDelta,
}

impl RenderState {
    /// Replaces the whole cached state with `state` and reports, setting by
    /// setting, what differed.
    pub fn reconcile(&mut self, state: RenderState) -> (r: RenderStateDelta)
        ensures
            *final(self) == state,
            r.depth.set_enabled == (old(self).depth.enabled != state.depth.enabled),
            r.depth.set_function == (old(self).depth.function != state.depth.function),
            r.depth.set_mask == (old(self).depth.mask != state.depth.mask),
            r.color.set_mask == (old(self).color.mask@ != state.color.mask@),
            r.blend.set_enabled == (old(self).blend.enabled != state.blend.enabled),
            r.cull.set_enabled == (old(self).cull.enabled != state.cull.enabled),
            r.cull.set_face == (old(self).cull.face != state.cull.face),
            r.cull.set_front == (old(self).cull.front != state.cull.front),
    {
        let depth = self.depth.reconcile(state.depth);
        let color = self.color.reconcile(state.color);
        let blend = self.blend.reconcile(state.blend);
        let cull = self.cull.reconcile(state.cull);
        RenderStateDelta { depth, color, blend, cull }
    }
}

} // verus!
