//! Process-wide engine state: one-time bring-up and the reseedable random
//! source.
//!
//! The underlying engine keeps its current-graph identity and its random
//! generator as process state. Here that state is an explicit value, handed
//! to every operation that reads or advances it, so that the single-writer
//! discipline the engine assumes is visible in the types.

use vstd::prelude::*;

verus! {

/// The abstract content of the process-wide engine state.
pub struct EngineModel {
    /// Identity of the graph that is currently active; zero when no graph
    /// has been created yet.
    pub current_graph: u32,
    /// How many graphs have been created since bring-up; graph identities
    /// are handed out from this counter.
    pub graphs_created: u32,
    /// The seed the random generator was last reset with.
    pub rand_seed: u32,
}

impl EngineModel {
    /// The active graph identity never runs ahead of the creation counter.
    pub open spec fn wf(self) -> bool {
        self.current_graph <= self.graphs_created
    }
}

/// The engine state right after bring-up: no graph yet, the default seed.
pub open spec fn initial_engine() -> EngineModel {
    EngineModel { current_graph: 0, graphs_created: 0, rand_seed: 0 }
}

/// The engine state after one graph creation: the creation counter
/// advances, and the fresh graph, whose identity is the advanced counter,
/// becomes the active one.
pub open spec fn engine_after_graph(e: EngineModel) -> EngineModel {
    EngineModel {
        current_graph: (e.graphs_created + 1) as u32,
        graphs_created: (e.graphs_created + 1) as u32,
        ..e
    }
}

/// The process-wide engine state.
///
/// Exactly one value of this type should exist per process; it is created
/// by [`initialize`] and threaded through every operation that touches
/// process state.
pub struct Engine {
    pub(crate) current_graph: u32,
    pub(crate) graphs_created: u32,
    pub(crate) rand_seed: u32,
}

impl View for Engine {
    type V = EngineModel;

    closed spec fn view(&self) -> EngineModel {
        EngineModel {
            current_graph: self.current_graph,
            graphs_created: self.graphs_created,
            rand_seed: self.rand_seed,
        }
    }
}

impl Engine {
    /// Hands out the next graph identity and makes it the current one.
    pub(crate) fn advance_graph(&mut self) -> (id: u32)
        requires
            old(self)@.graphs_created < u32::MAX,
        ensures
            final(self)@ == engine_after_graph(old(self)@),
            id == final(self)@.current_graph,
    {
        let id = self.graphs_created + 1;
        self.graphs_created = id;
        self.current_graph = id;
        id
    }

    /// The identity of the currently active graph.
    pub(crate) fn current_graph_value(&self) -> (r: u32)
        ensures
            r == self@.current_graph,
    {
        self.current_graph
    }

    /// How many graphs have been created since bring-up. Graph creation
    /// needs headroom in this counter; a caller outside verified code can
    /// test that here before asking for a graph.
    pub fn graphs_created(&self) -> (r: u32)
        ensures
            r == self@.graphs_created,
    {
        self.graphs_created
    }
}

/// Brings up the process-wide engine state.
///
/// Call this once, before any other operation, and keep the returned value
/// for the rest of the process. Engine-specific process flags (device
/// selection, memory pools) are the concern of the native adapter around
/// this library, not of the model kept here.
pub fn initialize() -> (e: Engine)
    ensures
        e@ == initial_engine(),
        e@.wf(),
{
    Engine { current_graph: 0, graphs_created: 0, rand_seed: 0 }
}

/// Resets the process-wide random generator to the given seed.
///
/// Only randomness drawn afterwards is affected; parameters that were
/// already initialized keep their values, and no graph state changes.
pub fn reset_rand_seed(engine: &mut Engine, seed: u32)
    ensures
        final(engine)@ == (EngineModel { rand_seed: seed, ..old(engine)@ }),
{
    engine.rand_seed = seed;
}

/// Graph identities strictly increase: whatever graph was active before, a
/// newly created graph has a strictly larger identity, and it is the
/// active one afterwards.
pub proof fn lemma_graph_identity_strictly_increases(e: EngineModel)
    requires
        e.wf(),
        e.graphs_created < u32::MAX,
    ensures
        engine_after_graph(e).current_graph > e.current_graph,
        engine_after_graph(e).current_graph == engine_after_graph(e).graphs_created,
        engine_after_graph(e).wf(),
{
}

} // verus!
