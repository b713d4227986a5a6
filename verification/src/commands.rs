//! Fixed-layout indirect command records.
//!
//! The device reads these records from a buffer itself to decide how many
//! primitives or work groups to process, so their byte layout must match the
//! device's indirect-command layout exactly: a draw command is five
//! little-endian 32-bit words, a compute-dispatch command three.

use vstd::prelude::*;
use crate::codec::push_u32_le_bytes;
use crate::codec::spec_u32_le_bytes;

verus! {

/// One indirect draw command: five 32-bit words the device reads as element
/// count, instance count, first index, base vertex and base instance.
#[derive(Debug, Copy, Clone, Eq, PartialEq, Structural)]
pub struct DrawCommand {
    pub count: u32,
    pub prim_count: u32,
    pub first_index: u32,
    pub base_vertex: u32,
    pub base_instance: u32,
}

/// The 20-byte device layout of a draw command.
pub open spec fn spec_draw_command_bytes(c: DrawCommand) -> Seq<u8> {
    spec_u32_le_bytes(c.count) + spec_u32_le_bytes(c.prim_count) + spec_u32_le_bytes(
        c.first_index,
    ) + spec_u32_le_bytes(c.base_vertex) + spec_u32_le_bytes(c.base_instance)
}

impl DrawCommand {
    /// The command's exact device layout: its five words, little-endian, in
    /// declaration order.
    pub fn value_as_bytes(&self) -> (r: Vec<u8>)
        ensures
            r@ == spec_draw_command_bytes(*self),
            r@.len() == 20,
    {
        let mut out: Vec<u8> = Vec::new();
        push_u32_le_bytes(&mut out, self.count);
        push_u32_le_bytes(&mut out, self.prim_count);
        push_u32_le_bytes(&mut out, self.first_index);
        push_u32_le_bytes(&mut out, self.base_vertex);
        push_u32_le_bytes(&mut out, self.base_instance);
        proof {
            assert(out@ =~= spec_draw_command_bytes(*self));
        }
        out
    }
}

/// One indirect compute-dispatch command: three 32-bit words the device
/// reads as the work-group counts along x, y and z.
#[derive(Debug, Copy, Clone, Eq, PartialEq, Structural)]
pub struct ComputeCommand {
    pub work_group_x: u32,
    pub work_group_y: u32,
    pub work_group_z: u32,
}

/// The 12-byte device layout of a compute-dispatch command.
pub open spec fn spec_compute_command_bytes(c: ComputeCommand) -> Seq<u8> {
    spec_u32_le_bytes(c.work_group_x) + spec_u32_le_bytes(c.work_group_y) + spec_u32_le_bytes(
        c.work_group_z,
    )
}

impl ComputeCommand {
    /// The command's exact device layout: its three words, little-endian, in
    /// declaration order.
    pub fn value_as_bytes(&self) -> (r: Vec<u8>)
        ensures
            r@ == spec_compute_command_bytes(*self),
            r@.len() == 12,
    {
        let mut out: Vec<u8> = Vec::new();
        push_u32_le_bytes(&mut out, self.work_group_x);
        push_u32_le_bytes(&mut out, self.work_group_y);
        push_u32_le_bytes(&mut out, self.work_group_z);
        proof {
            assert(out@ =~= spec_compute_command_bytes(*self));
        }
        out
    }
}

/// The draw command a fresh resource set seeds its command buffer with: a
/// 36-index cube drawn zero times until the pipeline writes the live
/// instance count.
pub fn initial_draw_command() -> (r: DrawCommand)
    ensures
        r == (DrawCommand {
            count: 36,
            prim_count: 0,
            first_index: 0,
            base_vertex: 0,
            base_instance: 0,
        }),
{
    DrawCommand { count: 36, prim_count: 0, first_index: 0, base_vertex: 0, base_instance: 0 }
}

/// The three dispatch commands a fresh resource set seeds its command buffer
/// with: one record per indirectly sized stage, each dispatching zero work
/// groups along x until the pipeline writes the live count, and one group
/// along y and z.
pub fn initial_compute_commands() -> (r: Vec<ComputeCommand>)
    ensures
        r@.len() == 3,
        forall|i: int|
            0 <= i < 3 ==> r@[i] == (ComputeCommand {
                work_group_x: 0,
                work_group_y: 1,
                work_group_z: 1,
            }),
{
    let mut out: Vec<ComputeCommand> = Vec::new();
    out.push(ComputeCommand { work_group_x: 0, work_group_y: 1, work_group_z: 1 });
    out.push(ComputeCommand { work_group_x: 0, work_group_y: 1, work_group_z: 1 });
    out.push(ComputeCommand { work_group_x: 0, work_group_y: 1, work_group_z: 1 });
    out
}

} // verus!
