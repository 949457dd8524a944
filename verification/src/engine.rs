//! What the engine is given to run, and what it reports back.
//!
//! The engine itself stands outside this crate. It is handed the graph of a
//! program, runs every node of it, and reports what happened as an
//! [`EngineReport`].

use vstd::prelude::*;
use crate::elem::{Values, ValuesView};
use crate::graph::{delivery_views, Graph, GraphView, ProgramBuilder};

verus! {

/// What the engine reports of a run that took place.
#[derive(Debug, PartialEq, Eq)]
pub struct Execution {
    /// The number of cycles that the run took, if the engine knows it.
    pub elapsed_cycles: Option<u64>,
    /// For each collector, by its place among the collectors of the graph:
    /// what the collector's channel handed over until it closed, or `None`
    /// if the node failed.
    pub delivered: Vec<Option<Values>>,
}

/// The mathematical value of an [`Execution`].
pub ghost struct ExecutionView {
    pub elapsed_cycles: Option<u64>,
    pub delivered: Seq<Option<ValuesView>>,
}

impl View for Execution {
    type V = ExecutionView;

    open spec fn view(&self) -> ExecutionView {
        ExecutionView {
            elapsed_cycles: self.elapsed_cycles,
            delivered: delivery_views(self.delivered@),
        }
    }
}

/// What the engine reports when it is asked to initialise and run a graph.
#[derive(Debug, PartialEq, Eq)]
pub struct EngineReport {
    /// What the engine's initialisation said of the graph: that it accepts
    /// it, or why it does not.
    pub initialization: Result<(), String>,
    /// What the engine reports of the run. Where the initialisation
    /// rejected the graph there was no run, and this says nothing.
    pub execution: Execution,
}

/// The mathematical value of an [`EngineReport`].
pub ghost struct ReportView {
    pub initialization: Result<(), Seq<char>>,
    pub execution: ExecutionView,
}

/// The verdict of the engine's initialisation with the view of its cause.
pub open spec fn verdict_view(verdict: Result<(), String>) -> Result<(), Seq<char>> {
    match verdict {
        Ok(()) => Ok(()),
        Err(cause) => Err(cause@),
    }
}

impl View for EngineReport {
    type V = ReportView;

    open spec fn view(&self) -> ReportView {
        ReportView {
            initialization: verdict_view(self.initialization),
            execution: self.execution@,
        }
    }
}

/// Whether `execution` is what an engine that keeps its word reports of
/// `graph`: every collector is reached, and a collector gets handed exactly
/// the sequence that a source node replays onto its channel.
pub open spec fn faithful(graph: GraphView, execution: ExecutionView) -> bool {
    &&& execution.delivered.len() == graph.collectors.len()
    &&& forall|j: int, i: int|
        0 <= j < graph.collectors.len() && 0 <= i < graph.generators.len()
            && (#[trigger] graph.generators[i]).snd.channel == (
        #[trigger] graph.collectors[j]).rcv.channel ==> execution.delivered[j] == Some(
            graph.generators[i].values,
        )
}

/// A graph that the engine has accepted and not yet run.
#[derive(Debug, PartialEq, Eq)]
pub struct Initialized {
    graph: Graph,
    run_inference: bool,
}

/// The mathematical value of an [`Initialized`].
pub ghost struct InitializedView {
    pub graph: GraphView,
    /// Whether the engine was asked to infer channel flavors.
    pub run_inference: bool,
}

impl View for Initialized {
    type V = InitializedView;

    closed spec fn view(&self) -> InitializedView {
        InitializedView { graph: self.graph@, run_inference: self.run_inference }
    }
}

/// A graph that the engine has run.
#[derive(Debug, PartialEq, Eq)]
pub struct Executed {
    graph: Graph,
    elapsed_cycles: Option<u64>,
}

/// The mathematical value of an [`Executed`].
pub ghost struct ExecutedView {
    /// The graph, with the collectors as the run left them.
    pub graph: GraphView,
    /// The number of cycles that the run took, if the engine knew it.
    pub elapsed_cycles: Option<u64>,
}

impl View for Executed {
    type V = ExecutedView;

    closed spec fn view(&self) -> ExecutedView {
        ExecutedView { graph: self.graph@, elapsed_cycles: self.elapsed_cycles }
    }
}

impl InitializedView {
    /// The graph after the run that `execution` reports.
    pub open spec fn ran(self, execution: ExecutionView) -> ExecutedView {
        ExecutedView {
            graph: self.graph.executed(execution.delivered),
            elapsed_cycles: execution.elapsed_cycles,
        }
    }
}

impl Initialized {
    /// Seals what `builder` has accumulated, once the engine has accepted
    /// it. `run_inference` records whether the engine was asked to infer
    /// channel flavors.
    pub fn new(builder: ProgramBuilder, run_inference: bool) -> (initialized: Initialized)
        ensures
            initialized@ == (InitializedView { graph: builder@, run_inference }),
    {
        Initialized { graph: builder.into_graph(), run_inference }
    }

    /// The graph that was accepted.
    pub fn graph(&self) -> (graph: &Graph)
        ensures
            graph@ == self@.graph,
    {
        &self.graph
    }

    /// Whether the engine was asked to infer channel flavors.
    pub fn run_inference(&self) -> (run_inference: bool)
        ensures
            run_inference == self@.run_inference,
    {
        self.run_inference
    }

    /// Takes in the engine's report of the run: every collector is run on
    /// what its channel handed over.
    pub fn run(self, execution: Execution) -> (executed: Executed)
        ensures
            executed@ == self@.ran(execution@),
    {
        let mut graph = self.graph;
        graph.run_collectors(&execution.delivered);
        Executed { graph, elapsed_cycles: execution.elapsed_cycles }
    }
}

impl Executed {
    /// The graph, with the collectors as the run left them.
    pub fn graph(&self) -> (graph: &Graph)
        ensures
            graph@ == self@.graph,
    {
        &self.graph
    }

    /// The number of cycles that the run took, if the engine knew it.
    pub fn elapsed_cycles(&self) -> (cycles: Option<u64>)
        ensures
            cycles == self@.elapsed_cycles,
    {
        self.elapsed_cycles
    }
}

} // verus!
