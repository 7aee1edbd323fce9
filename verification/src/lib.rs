//! A verified model of a GPU particle demo: a fixed population of particles
//! is created once from random samples, advanced every frame by a compute
//! stage, and drawn by a render stage that must see exactly that frame's
//! compute output.
#![allow(non_snake_case)]

pub mod frame;
pub mod particle;
pub mod pipeline;
pub mod random;
pub mod shader;
pub mod store;
