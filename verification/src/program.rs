//! Shader and program handle state.
//!
//! The device compiles shaders and links programs; what the library tracks,
//! exactly, is each handle's state machine: a shader is uncompiled until a
//! compilation succeeded, a program unlinked until a link succeeded, and the
//! raw device name survives every transition. The caller performs the device
//! call and feeds the resulting status back.

use vstd::prelude::*;

verus! {

/// A device program name together with its link state.
#[derive(Debug, Copy, Clone, Eq, PartialEq, Structural)]
pub enum ProgramName {
    Unlinked(u32),
    Linked(u32),
}

impl ProgramName {
    /// The raw device name under the state tag.
    pub open spec fn spec_raw(self) -> u32 {
        match self {
            ProgramName::Unlinked(name) => name,
            ProgramName::Linked(name) => name,
        }
    }

    /// A freshly created program starts unlinked.
    pub fn new(name: u32) -> (r: ProgramName)
        ensures
            r == ProgramName::Unlinked(name),
    {
        ProgramName::Unlinked(name)
    }

    /// The raw device name.
    pub fn as_ref(&self) -> (r: u32)
        ensures
            r == self.spec_raw(),
    {
        match self {
            ProgramName::Unlinked(name) => *name,
            ProgramName::Linked(name) => *name,
        }
    }

    /// Records the outcome of a link attempt: the handle becomes linked
    /// exactly when the device reported success, and keeps its raw name
    /// either way.
    pub fn set_link_status(&mut self, linked: bool)
        ensures
            final(self).spec_raw() == old(self).spec_raw(),
            *final(self) is Linked <==> linked,
    {
        let name = self.as_ref();
        *self = if linked {
            ProgramName::Linked(name)
        } else {
            ProgramName::Unlinked(name)
        };
    }

    /// Whether the last link attempt succeeded.
    pub fn is_linked(&self) -> (r: bool)
        ensures
            r == (*self is Linked),
    {
        match self {
            ProgramName::Linked(_) => true,
            _ => false,
        }
    }

    /// Whether the program still awaits a successful link.
    pub fn is_unlinked(&self) -> (r: bool)
        ensures
            r == (*self is Unlinked),
    {
        match self {
            ProgramName::Unlinked(_) => true,
            _ => false,
        }
    }
}

/// A device shader name together with its compile state.
#[derive(Debug, Copy, Clone, Eq, PartialEq, Structural)]
pub enum ShaderName {
    Uncompiled(u32),
    Compiled(u32),
}

impl ShaderName {
    /// The raw device name under the state tag.
    pub open spec fn spec_raw(self) -> u32 {
        match self {
            ShaderName::Uncompiled(name) => name,
            ShaderName::Compiled(name) => name,
        }
    }

    /// A freshly created shader starts uncompiled.
    pub fn new(name: u32) -> (r: ShaderName)
        ensures
            r == ShaderName::Uncompiled(name),
    {
        ShaderName::Uncompiled(name)
    }

    /// The raw device name.
    pub fn as_ref(&self) -> (r: u32)
        ensures
            r == self.spec_raw(),
    {
        match self {
            ShaderName::Uncompiled(name) => *name,
            ShaderName::Compiled(name) => *name,
        }
    }

    /// Records the outcome of a compilation attempt: the handle becomes
    /// compiled exactly when the device reported success, and keeps its raw
    /// name either way.
    pub fn set_compile_status(&mut self, compiled: bool)
        ensures
            final(self).spec_raw() == old(self).spec_raw(),
            *final(self) is Compiled <==> compiled,
    {
        let name = self.as_ref();
        *self = if compiled {
            ShaderName::Compiled(name)
        } else {
            ShaderName::Uncompiled(name)
        };
    }

    /// Whether the last compilation attempt succeeded.
    pub fn is_compiled(&self) -> (r: bool)
        ensures
            r == (*self is Compiled),
    {
        match self {
            ShaderName::Compiled(_) => true,
            _ => false,
        }
    }

    /// Whether the shader still awaits a successful compilation.
    pub fn is_uncompiled(&self) -> (r: bool)
        ensures
            r == (*self is Uncompiled),
    {
        match self {
            ShaderName::Uncompiled(_) => true,
            _ => false,
        }
    }
}

/// Fresh shader sources for a program's two stages; either may be absent.
#[derive(Debug, Clone)]
pub struct Update<B> {
    pub vertex_shader: Option<B>,
    pub fragment_shader: Option<B>,
}

impl<B> Default for Update<B> {
    /// An update with nothing to recompile.
    fn default() -> (r: Update<B>)
        ensures
            r.vertex_shader is None,
            r.fragment_shader is None,
    {
        Update { vertex_shader: None, fragment_shader: None }
    }
}

impl<B> Update<B> {
    /// Whether anything must be recompiled and relinked: some source, for
    /// either stage, is present.
    pub fn should_update(&self) -> (r: bool)
        ensures
            r == (self.vertex_shader is Some || self.fragment_shader is Some),
    {
        self.vertex_shader.is_some() || self.fragment_shader.is_some()
    }
}

} // verus!
