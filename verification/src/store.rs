//! The particle store: a fixed population of particle records, created once
//! and advanced in place by the compute stage.

use vstd::prelude::*;
use crate::particle::{initial_particle, is_initial, step_fits, step_particle, stepped, Particle};
use crate::random::rand01;

verus! {

/// Every particle of the sequence can take one step without leaving the
/// machine range.
pub open spec fn all_steps_fit(s: Seq<Particle>) -> bool {
    forall|i: int| 0 <= i < s.len() ==> step_fits(s[i])
}

/// The whole population after one compute pass: every particle advanced by
/// its own velocity, none added and none removed.
pub open spec fn stepped_all(s: Seq<Particle>) -> Seq<Particle> {
    s.map(|i: int, p: Particle| stepped(p))
}

/// One compute pass keeps the population size: no particle is created or
/// destroyed by stepping.
pub proof fn lemma_step_preserves_count(s: Seq<Particle>)
    ensures
        stepped_all(s).len() == s.len(),
{
}

/// The whole population after `k` frames of compute passes.
pub open spec fn stepped_n(s: Seq<Particle>, k: nat) -> Seq<Particle>
    decreases k,
{
    if k == 0 {
        s
    } else {
        stepped_all(stepped_n(s, (k - 1) as nat))
    }
}

/// The particle count is invariant across the run: after any number of
/// frames, exactly as many records exist as at buffer creation.
pub proof fn lemma_count_invariant_across_run(s: Seq<Particle>, k: nat)
    ensures
        stepped_n(s, k).len() == s.len(),
    decreases k,
{
    if k > 0 {
        lemma_count_invariant_across_run(s, (k - 1) as nat);
    }
}

/// The array of particle records. It is filled exactly once, at creation,
/// and only the compute stage changes it afterwards.
pub struct ParticleStore {
    particles: Vec<Particle>,
}

impl View for ParticleStore {
    type V = Seq<Particle>;

    closed spec fn view(&self) -> Seq<Particle> {
        self.particles@
    }
}

impl ParticleStore {
    /// Creates `count` particles from uniform random samples: positions in
    /// [-1, 1], the constant downward drift, random colours with full
    /// opacity.
    pub fn initialize(count: usize) -> (s: Self)
        ensures
            s@.len() == count,
            forall|i: int| 0 <= i < s@.len() ==> is_initial(s@[i]),
    {
        let mut particles: Vec<Particle> = Vec::new();
        let mut n: usize = 0;
        while n < count
            invariant
                n <= count,
                particles@.len() == n,
                forall|i: int| 0 <= i < particles@.len() ==> is_initial(particles@[i]),
            decreases count - n,
        {
            let px = rand01();
            let py = rand01();
            let cr = rand01();
            let cg = rand01();
            let cb = rand01();
            particles.push(initial_particle(px, py, cr, cg, cb));
            n = n + 1;
        }
        ParticleStore { particles }
    }

    /// Adopts an explicitly built population, for callers that fix the
    /// initial conditions themselves.
    pub fn from_particles(particles: Vec<Particle>) -> (s: Self)
        ensures
            s@ == particles@,
    {
        ParticleStore { particles }
    }

    /// How many particle records the store holds.
    pub fn len(&self) -> (n: usize)
        ensures
            n == self@.len(),
    {
        self.particles.len()
    }

    /// The record at index `i`.
    pub fn particle(&self, i: usize) -> (p: Particle)
        requires
            i < self@.len(),
        ensures
            p == self@[i as int],
    {
        self.particles[i]
    }

    /// Whether every particle can take the next step without overflowing.
    pub fn can_step(&self) -> (b: bool)
        ensures
            b == all_steps_fit(self@),
    {
        let n = self.particles.len();
        let mut i: usize = 0;
        while i < n
            invariant
                i <= n,
                n == self@.len(),
                forall|j: int| 0 <= j < i ==> step_fits(self@[j]),
            decreases n - i,
        {
            let p = self.particles[i];
            let sx: i64 = p.pos.x as i64 + p.vel.x as i64;
            let sy: i64 = p.pos.y as i64 + p.vel.y as i64;
            if sx < i32::MIN as i64 || sx > i32::MAX as i64 || sy < i32::MIN as i64 || sy
                > i32::MAX as i64 {
                proof {
                    assert(!step_fits(self@[i as int]));
                }
                return false;
            }
            i = i + 1;
        }
        true
    }

    /// One compute pass over the whole buffer: every particle is advanced in
    /// place, and the population size stays what it was.
    pub fn step_all(&mut self)
        requires
            all_steps_fit(old(self)@),
        ensures
            final(self)@ == stepped_all(old(self)@),
            final(self)@.len() == old(self)@.len(),
    {
        let ghost orig: Seq<Particle> = self@;
        let n = self.particles.len();
        let mut i: usize = 0;
        while i < n
            invariant
                i <= n,
                n == self@.len(),
                self@.len() == orig.len(),
                forall|j: int| 0 <= j < i ==> self@[j] == stepped(orig[j]),
                forall|j: int| i <= j < n ==> self@[j] == orig[j],
                all_steps_fit(orig),
            decreases n - i,
        {
            let p = self.particles[i];
            proof {
                assert(p == orig[i as int]);
                assert(step_fits(orig[i as int]));
            }
            self.particles.set(i, step_particle(p));
            i = i + 1;
        }
        proof {
            assert(self@ =~= stepped_all(orig));
        }
    }

    /// A copy of the whole buffer, record for record, as the render stage
    /// reads it.
    pub fn to_vec(&self) -> (v: Vec<Particle>)
        ensures
            v@ == self@,
    {
        let n = self.particles.len();
        let mut v: Vec<Particle> = Vec::new();
        let mut i: usize = 0;
        while i < n
            invariant
                i <= n,
                n == self@.len(),
                v@ =~= self@.subrange(0, i as int),
            decreases n - i,
        {
            v.push(self.particles[i]);
            i = i + 1;
        }
        proof {
            assert(v@ =~= self@);
        }
        v
    }
}

} // verus!
