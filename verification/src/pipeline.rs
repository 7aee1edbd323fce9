//! The compute/render pipeline: two programs over one shared particle
//! buffer, driven once per frame in strict order — compute first, then a
//! render pass that reads exactly what that frame's compute pass wrote.

use vstd::prelude::*;
use crate::particle::Particle;
use crate::store::{all_steps_fit, stepped_all, ParticleStore};

verus! {

/// Work-group width the compute stage is declared with.
pub const WORK_GROUP_SIZE: u32 = 64;

/// Population size of the demo.
pub const PARTICLE_COUNT: u32 = 1000;

/// Ceiling division: the least number of groups of `group` items that
/// covers `count` items.
pub fn div_ceil_u32(count: u32, group: u32) -> (r: u32)
    requires
        group >= 1,
    ensures
        r == (count + group - 1) as int / group as int,
        r * group >= count,
        count >= 1 ==> (r - 1) * group < count,
{
    let whole: u32 = count / group;
    let rest: u32 = count % group;
    if rest == 0 {
        proof {
            assert(whole == (count + group - 1) as int / group as int && whole * group >= count
                && (count >= 1 ==> (whole - 1) * group < count)) by (nonlinear_arith)
                requires
                    group >= 1,
                    whole == count as int / group as int,
                    count as int % group as int == 0,
            ;
        }
        whole
    } else {
        proof {
            assert(whole + 1 <= u32::MAX && whole + 1 == (count + group - 1) as int
                / group as int && (whole + 1) * group >= count && whole * group < count)
                by (nonlinear_arith)
                requires
                    group >= 1,
                    count <= u32::MAX,
                    whole == count as int / group as int,
                    count as int % group as int != 0,
            ;
        }
        whole + 1
    }
}

/// The pair of GPU programs that serve the particle buffer. Building a
/// value of this type is the Initialized phase: both programs exist and are
/// linked. `destroy` moves it to the terminal Destroyed phase.
pub struct ParticlePipeline {
    compute_program: u32,
    render_program: u32,
    workgroup: u32,
    destroyed: bool,
}

impl ParticlePipeline {
    /// The declared compute work-group width.
    pub closed spec fn spec_workgroup(&self) -> u32 {
        self.workgroup
    }

    /// Whether the pipeline's resources have been released.
    pub closed spec fn spec_destroyed(&self) -> bool {
        self.destroyed
    }

    /// The handle of the compute-stage program.
    pub closed spec fn spec_compute_program(&self) -> u32 {
        self.compute_program
    }

    /// The handle of the render-stage program.
    pub closed spec fn spec_render_program(&self) -> u32 {
        self.render_program
    }

    /// A pipeline is well formed when its work-group width is positive.
    pub open spec fn wf(&self) -> bool {
        self.spec_workgroup() >= 1
    }

    /// Assembles the pipeline from its two linked programs.
    pub fn new(compute_program: u32, render_program: u32, workgroup: u32) -> (p: Self)
        requires
            workgroup >= 1,
        ensures
            p.wf(),
            !p.spec_destroyed(),
            p.spec_workgroup() == workgroup,
            p.spec_compute_program() == compute_program,
            p.spec_render_program() == render_program,
    {
        ParticlePipeline { compute_program, render_program, workgroup, destroyed: false }
    }

    /// How many work groups one compute dispatch over `count` particles
    /// takes: `count / workgroup`, rounded up.
    pub fn dispatch_groups(&self, count: u32) -> (r: u32)
        requires
            self.wf(),
        ensures
            r == (count + self.spec_workgroup() - 1) as int / self.spec_workgroup() as int,
            r * self.spec_workgroup() >= count,
            count >= 1 ==> (r - 1) * self.spec_workgroup() < count,
    {
        div_ceil_u32(count, self.workgroup)
    }

    /// One frame over the shared buffer, in the only order that is sound:
    /// the compute pass advances every particle in place, and the returned
    /// batch — what the render stage draws — is exactly the buffer as this
    /// frame's compute pass left it, never a stale or partial state.
    pub fn run_frame(&self, store: &mut ParticleStore) -> (drawn: Vec<Particle>)
        requires
            self.wf(),
            !self.spec_destroyed(),
            all_steps_fit(old(store)@),
        ensures
            final(store)@ == stepped_all(old(store)@),
            final(store)@.len() == old(store)@.len(),
            drawn@ == final(store)@,
    {
        store.step_all();
        store.to_vec()
    }

    /// Whether the pipeline's resources have been released.
    pub fn destroyed(&self) -> (b: bool)
        ensures
            b == self.spec_destroyed(),
    {
        self.destroyed
    }

    /// Releases the pipeline. The result says whether resources were held
    /// until now and must actually be freed; destroying an already
    /// destroyed pipeline changes nothing and frees nothing.
    pub fn destroy(&mut self) -> (freed: bool)
        ensures
            final(self).spec_destroyed(),
            freed == !old(self).spec_destroyed(),
            old(self).spec_destroyed() ==> *final(self) == *old(self),
            final(self).spec_workgroup() == old(self).spec_workgroup(),
            final(self).spec_compute_program() == old(self).spec_compute_program(),
            final(self).spec_render_program() == old(self).spec_render_program(),
    {
        if self.destroyed {
            false
        } else {
            self.destroyed = true;
            true
        }
    }
}

} // verus!
