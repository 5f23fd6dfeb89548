//! The hand-off slot between the worker and the renderer.
//!
//! The slot holds exactly one figure: the latest one. Publishing replaces
//! it, so figures never queue up behind a slow reader.
use vstd::prelude::*;

verus! {

/// A single-value cell with the figure most recently published and the
/// number of optimizer steps that figure reflects.
#[derive(Debug)]
pub struct LatestSlot<F> {
    figure: F,
    generation: u64,
}

impl<F> LatestSlot<F> {
    /// The figure that the slot holds.
    pub closed spec fn content(&self) -> F {
        self.figure
    }

    /// The number of optimizer steps that the held figure reflects.
    pub closed spec fn stamp(&self) -> u64 {
        self.generation
    }

    /// A slot for a new session. It is never empty: it starts with the
    /// figure given, which reflects no step.
    pub fn new(initial: F) -> (slot: Self)
        ensures
            slot.content() == initial,
            slot.stamp() == 0,
    {
        LatestSlot { figure: initial, generation: 0 }
    }

    /// Replaces the held figure by a newer one. The figure held before is
    /// dropped.
    pub fn publish(&mut self, figure: F, generation: u64)
        ensures
            final(self).content() == figure,
            final(self).stamp() == generation,
    {
        self.figure = figure;
        self.generation = generation;
    }

    /// The figure to render.
    pub fn figure(&self) -> (figure: &F)
        ensures
            *figure == self.content(),
    {
        &self.figure
    }

    /// The number of optimizer steps that the figure to render reflects.
    pub fn generation(&self) -> (generation: u64)
        ensures
            generation == self.stamp(),
    {
        self.generation
    }
}

} // verus!
