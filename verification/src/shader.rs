//! The life of a shader program as a verified state machine over plain
//! handles. The caller owns the GL context and makes the actual calls;
//! before each call it consults this state and advances it afterwards, so
//! that no program is ever bound unlinked or touched after deletion.

use vstd::prelude::*;

verus! {

/// No flag set: freshly created, neither linked nor destroyed.
pub const F_NONE: u8 = 0b00000000;

/// The program has been deleted; the state is terminal.
pub const F_DESTROYED: u8 = 0b00000001;

/// The program has been linked; no more shaders can be attached.
pub const F_LINKED: u8 = 0b00000010;

/// The stage a shader object belongs to.
pub enum ShaderType {
    Vertex,
    Fragment,
    Compute,
}

/// The human-readable name of a stage, as it appears in log lines.
pub fn stage_name(stype: &ShaderType) -> (r: &'static str)
    ensures
        stype is Vertex ==> r@ == "vertex"@,
        stype is Fragment ==> r@ == "fragment"@,
        stype is Compute ==> r@ == "compute"@,
{
    match stype {
        ShaderType::Vertex => "vertex",
        ShaderType::Fragment => "fragment",
        ShaderType::Compute => "compute",
    }
}

/// A shader program's handle, its life-cycle flags, and the handles of the
/// shader objects attached so far (cleared again on link).
pub struct Shader {
    program: u32,
    flags: u8,
    shaders: Vec<u32>,
}

impl Shader {
    /// The program handle this state tracks.
    pub closed spec fn spec_program(&self) -> u32 {
        self.program
    }

    /// The raw flag byte.
    pub closed spec fn spec_flags(&self) -> u8 {
        self.flags
    }

    /// The shader objects attached and not yet released by a link.
    pub closed spec fn spec_shaders(&self) -> Seq<u32> {
        self.shaders@
    }

    /// Whether the program has been deleted.
    pub closed spec fn spec_destroyed(&self) -> bool {
        self.flags & F_DESTROYED != 0
    }

    /// Whether the program has been linked.
    pub closed spec fn spec_linked(&self) -> bool {
        self.flags & F_LINKED != 0
    }

    /// Whether the program has been deleted.
    pub fn destroyed(&self) -> (b: bool)
        ensures
            b == self.spec_destroyed(),
    {
        self.flags & F_DESTROYED != 0
    }

    /// Whether the program has been linked.
    pub fn linked(&self) -> (b: bool)
        ensures
            b == self.spec_linked(),
    {
        self.flags & F_LINKED != 0
    }

    /// Starts tracking a freshly created program: not linked, not
    /// destroyed, nothing attached.
    pub fn new(program: u32) -> (s: Self)
        ensures
            s.spec_program() == program,
            !s.spec_destroyed(),
            !s.spec_linked(),
            s.spec_shaders() == Seq::<u32>::empty(),
    {
        proof {
            assert(F_NONE & F_DESTROYED == 0 && F_NONE & F_LINKED == 0) by (bit_vector);
        }
        Shader { program, flags: F_NONE, shaders: Vec::new() }
    }

    /// Records a compiled shader object of the given stage as attached.
    /// Attaching to a destroyed program is not allowed; attaching to an
    /// already linked program is refused and leaves the state as it was.
    pub fn attachFromSource(self, _stype: ShaderType, shader: u32) -> (s: Self)
        requires
            !self.spec_destroyed(),
        ensures
            self.spec_linked() ==> s == self,
            !self.spec_linked() ==> s.spec_shaders() == self.spec_shaders().push(shader),
            !self.spec_linked() ==> s.spec_flags() == self.spec_flags(),
            s.spec_program() == self.spec_program(),
            !s.spec_destroyed(),
            s.spec_linked() == self.spec_linked(),
    {
        if self.linked() {
            return self;
        }
        let mut s = self;
        s.shaders.push(shader);
        s
    }

    /// Marks the program linked and hands back the attached shader objects,
    /// which the caller detaches and deletes. Linking a destroyed program
    /// is not allowed; linking twice is refused and leaves the state as it
    /// was, with no shaders handed back.
    pub fn link(self) -> (r: (Self, Vec<u32>))
        requires
            !self.spec_destroyed(),
        ensures
            self.spec_linked() ==> r.0 == self && r.1@ == Seq::<u32>::empty(),
            !self.spec_linked() ==> r.0.spec_shaders() == Seq::<u32>::empty() && r.1@
                == self.spec_shaders(),
            r.0.spec_program() == self.spec_program(),
            !r.0.spec_destroyed(),
            r.0.spec_linked(),
    {
        if self.linked() {
            return (self, Vec::new());
        }
        let Shader { program, flags, shaders } = self;
        proof {
            assert((flags | F_LINKED) & F_LINKED != 0 && (flags | F_LINKED) & F_DESTROYED == flags
                & F_DESTROYED) by (bit_vector);
        }
        (Shader { program, flags: flags | F_LINKED, shaders: Vec::new() }, shaders)
    }

    /// The handle, available exactly when the program is linked and not
    /// destroyed — the only states in which it may be used.
    pub fn program(&self) -> (r: Option<u32>)
        ensures
            (self.spec_destroyed() || !self.spec_linked()) ==> r is None,
            (!self.spec_destroyed() && self.spec_linked()) ==> r == Some(self.spec_program()),
    {
        if self.destroyed() || !self.linked() {
            None
        } else {
            Some(self.program)
        }
    }

    /// Whether the program may be bound now: it must be linked and not
    /// destroyed. A caller that gets `false` makes no GL call.
    pub fn bind(&self) -> (b: bool)
        ensures
            b == (!self.spec_destroyed() && self.spec_linked()),
    {
        !self.destroyed() && self.linked()
    }

    /// Marks the program deleted. The result says whether it was alive
    /// until now and the caller must actually delete it; deleting twice
    /// changes nothing and frees nothing.
    pub fn delete(&mut self) -> (freed: bool)
        ensures
            final(self).spec_destroyed(),
            freed == !old(self).spec_destroyed(),
            old(self).spec_destroyed() ==> *final(self) == *old(self),
            final(self).spec_program() == old(self).spec_program(),
            final(self).spec_linked() == old(self).spec_linked(),
            final(self).spec_shaders() == old(self).spec_shaders(),
    {
        if self.destroyed() {
            return false;
        }
        let f = self.flags;
        self.flags = f | F_DESTROYED;
        proof {
            assert((f | F_DESTROYED) & F_DESTROYED != 0 && (f | F_DESTROYED) & F_LINKED == f
                & F_LINKED) by (bit_vector);
        }
        true
    }
}

} // verus!
