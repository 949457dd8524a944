//! The lifecycle of a program: built, then initialised, then run.

use vstd::prelude::*;
use crate::elem::{ElemType, Values, ValuesView};
use crate::engine::{
    verdict_view, EngineReport, Executed, ExecutedView, Execution, ExecutionView, Initialized,
    InitializedView, ReportView,
};
use crate::graph::{
    delivery_view, delivery_views, running_keeps_well_formedness, Graph, GraphView,
    ProgramBuilder, Receiver,
};
use crate::host::{HostObject, ValueCollection};
use crate::stream::{CollectorView, Extractor, HopStream, Stream, StreamEnum};

verus! {

/// The states of a program's lifecycle, without what they hold.
#[derive(Clone, Copy, Debug, PartialEq, Eq, Structural)]
pub enum StateKind {
    /// Nodes can still be added.
    Building,
    /// The engine has accepted the graph; it has not run yet.
    Initialized,
    /// The graph has run.
    Executed,
    /// The placeholder that stands in the state's slot while a transition
    /// is under way. No operation leaves it there.
    Inconsistent,
}

impl StateKind {
    /// The state's name.
    pub open spec fn name(self) -> Seq<char> {
        match self {
            StateKind::Building => "Building"@,
            StateKind::Initialized => "Initialized"@,
            StateKind::Executed => "Executed"@,
            StateKind::Inconsistent => "Inconsistent"@,
        }
    }

    /// The state's name.
    pub fn as_str(&self) -> (name: &'static str)
        ensures
            name@ == self.name(),
    {
        match self {
            StateKind::Building => "Building",
            StateKind::Initialized => "Initialized",
            StateKind::Executed => "Executed",
            StateKind::Inconsistent => "Inconsistent",
        }
    }
}

/// Why an operation on a program was refused.
#[derive(Debug, PartialEq, Eq)]
pub enum ProgramError {
    /// The operation is not valid in the state that the program is in.
    StateViolation { expected: StateKind, actual: StateKind },
    /// The values of a constant read as none of the supported element types.
    UnsupportedInputType,
    /// The engine's initialisation rejected the graph.
    InitializationFailure { cause: String },
    /// The requested output at `index` is not a handle of a stream of this
    /// program.
    TypeMismatch { index: usize },
    /// The requested output at `index` is a stream that was consumed before,
    /// or whose channel is consumed already.
    HandleReuse { index: usize },
}

/// The mathematical value of a [`ProgramError`].
pub ghost enum ErrorView {
    StateViolation { expected: StateKind, actual: StateKind },
    UnsupportedInputType,
    InitializationFailure { cause: Seq<char> },
    TypeMismatch { index: usize },
    HandleReuse { index: usize },
}

impl View for ProgramError {
    type V = ErrorView;

    open spec fn view(&self) -> ErrorView {
        match self {
            ProgramError::StateViolation { expected, actual } => ErrorView::StateViolation {
                expected: *expected,
                actual: *actual,
            },
            ProgramError::UnsupportedInputType => ErrorView::UnsupportedInputType,
            ProgramError::InitializationFailure { cause } => ErrorView::InitializationFailure {
                cause: cause@,
            },
            ProgramError::TypeMismatch { index } => ErrorView::TypeMismatch { index: *index },
            ProgramError::HandleReuse { index } => ErrorView::HandleReuse { index: *index },
        }
    }
}

impl ErrorView {
    /// The text that describes the error to the caller. A state violation
    /// names the state that the program is in and the one that the
    /// operation needs; a rejection by the engine is described by its cause.
    pub open spec fn message(self) -> Seq<char> {
        match self {
            ErrorView::StateViolation { expected, actual } => "the program is in the "@
                + actual.name() + " state, but the operation needs the "@ + expected.name()
                + " state"@,
            ErrorView::UnsupportedInputType =>
                "the values read as none of the supported element types"@,
            ErrorView::InitializationFailure { cause } => cause,
            ErrorView::TypeMismatch { .. } =>
                "a requested output is not a handle of a stream of this program"@,
            ErrorView::HandleReuse { .. } =>
                "a requested output is a stream that is consumed already"@,
        }
    }
}

impl ProgramError {
    /// The text that describes the error to the caller.
    pub fn message(&self) -> (text: String)
        ensures
            text@ == self@.message(),
    {
        match self {
            ProgramError::StateViolation { expected, actual } => {
                let mut text = String::from_str("the program is in the ");
                text.append(actual.as_str());
                text.append(" state, but the operation needs the ");
                text.append(expected.as_str());
                text.append(" state");
                text
            },
            ProgramError::UnsupportedInputType => String::from_str(
                "the values read as none of the supported element types",
            ),
            ProgramError::InitializationFailure { cause } => cause.clone(),
            ProgramError::TypeMismatch { .. } => String::from_str(
                "a requested output is not a handle of a stream of this program",
            ),
            ProgramError::HandleReuse { .. } => String::from_str(
                "a requested output is a stream that is consumed already",
            ),
        }
    }
}

/// The outcome with the view of its error, if it is one.
pub open spec fn error_view<T>(outcome: Result<T, ProgramError>) -> Result<T, ErrorView> {
    match outcome {
        Ok(value) => Ok(value),
        Err(error) => Err(error@),
    }
}

/// The outcome with the view of what it holds, value or error.
pub open spec fn outcome_view<T: View>(outcome: Result<T, ProgramError>) -> Result<
    T::V,
    ErrorView,
> {
    match outcome {
        Ok(value) => Ok(value@),
        Err(error) => Err(error@),
    }
}

/// What a completed run hands back.
#[derive(Debug, PartialEq, Eq)]
pub struct RunResult {
    /// The number of cycles that the run took.
    pub cycles: u64,
    /// For each requested output, in the order of the request: what was
    /// collected from it, or `None` where its cell could not be read.
    pub outputs: Vec<Option<Values>>,
}

/// The mathematical value of a [`RunResult`].
pub ghost struct RunResultView {
    pub cycles: u64,
    pub outputs: Seq<Option<ValuesView>>,
}

impl View for RunResult {
    type V = RunResultView;

    open spec fn view(&self) -> RunResultView {
        RunResultView { cycles: self.cycles, outputs: delivery_views(self.outputs@) }
    }
}

/// The state of a program, with what the state holds.
#[derive(Debug, PartialEq, Eq)]
pub enum ProgramState {
    Building(ProgramBuilder),
    Initialized(Initialized),
    Executed(Executed),
    /// Only in the slot while a transition is under way.
    Inconsistent,
}

/// The mathematical value of a [`ProgramState`].
pub ghost enum StateView {
    Building(GraphView),
    Initialized(InitializedView),
    Executed(ExecutedView),
    Inconsistent,
}

impl View for ProgramState {
    type V = StateView;

    open spec fn view(&self) -> StateView {
        match self {
            ProgramState::Building(builder) => StateView::Building(builder@),
            ProgramState::Initialized(initialized) => StateView::Initialized(initialized@),
            ProgramState::Executed(executed) => StateView::Executed(executed@),
            ProgramState::Inconsistent => StateView::Inconsistent,
        }
    }
}

impl StateView {
    /// Which state this is.
    pub open spec fn kind(self) -> StateKind {
        match self {
            StateView::Building(_) => StateKind::Building,
            StateView::Initialized(_) => StateKind::Initialized,
            StateView::Executed(_) => StateKind::Executed,
            StateView::Inconsistent => StateKind::Inconsistent,
        }
    }

    /// The error of an operation that needs state `expected` and finds this
    /// one.
    pub open spec fn violation(self, expected: StateKind) -> ErrorView {
        ErrorView::StateViolation { expected, actual: self.kind() }
    }

    /// The graph that the state holds, if it holds one.
    pub open spec fn graph(self) -> Option<GraphView> {
        match self {
            StateView::Building(graph) => Some(graph),
            StateView::Initialized(initialized) => Some(initialized.graph),
            StateView::Executed(executed) => Some(executed.graph),
            StateView::Inconsistent => None,
        }
    }

    /// Whether the graph that the state holds, if it holds one, is well
    /// formed.
    pub open spec fn well_formed(self) -> bool {
        match self.graph() {
            Some(graph) => graph.well_formed(),
            None => true,
        }
    }

    /// The transition of `initialize`: the state after it, and its outcome.
    ///
    /// From `Building`, a graph that the engine accepted is sealed. Where the
    /// engine rejected it the transition does not take place: the state
    /// stays `Building`, with the graph as it was, and the error carries the
    /// engine's cause. Any other state stays as it is and the call is a
    /// violation.
    pub open spec fn initialize(self, run_inference: bool, verdict: Result<(), Seq<char>>) -> (
        StateView,
        Result<(), ErrorView>,
    ) {
        match self {
            StateView::Building(graph) => match verdict {
                Ok(()) => (
                    StateView::Initialized(InitializedView { graph, run_inference }),
                    Ok(()),
                ),
                Err(cause) => (self, Err(ErrorView::InitializationFailure { cause })),
            },
            _ => (self, Err(self.violation(StateKind::Building))),
        }
    }

    /// The transition of `run`: the state after it, and its outcome.
    ///
    /// From `Initialized`, every collector is run on what the engine reports
    /// for it, and the outcome is the number of cycles that the engine
    /// reports, or 0 where it reports none. Any other state stays as it is
    /// and the call is a violation.
    pub open spec fn run(self, execution: ExecutionView) -> (StateView, Result<u64, ErrorView>) {
        match self {
            StateView::Initialized(initialized) => (
                StateView::Executed(initialized.ran(execution)),
                Ok(
                    match execution.elapsed_cycles {
                        Some(cycles) => cycles,
                        None => 0,
                    },
                ),
            ),
            _ => (self, Err(self.violation(StateKind::Initialized))),
        }
    }

    /// What reading through `extractor` gives in this state: the values of
    /// the cell that it names, or nothing if the cell is poisoned, or the
    /// state holds no graph or no such cell.
    pub open spec fn extract(self, extractor: Extractor) -> Option<ValuesView> {
        match self.graph() {
            Some(graph) => graph.read(extractor.cell as int),
            None => None,
        }
    }

    /// What reading through each of `extractors` gives, in their order.
    pub open spec fn extract_all(self, extractors: Seq<Extractor>) -> Seq<Option<ValuesView>> {
        Seq::new(extractors.len(), |k: int| self.extract(extractors[k]))
    }
}

impl ProgramState {
    /// Which state this is.
    pub fn kind(&self) -> (kind: StateKind)
        ensures
            kind == self@.kind(),
    {
        match self {
            ProgramState::Building(_) => StateKind::Building,
            ProgramState::Initialized(_) => StateKind::Initialized,
            ProgramState::Executed(_) => StateKind::Executed,
            ProgramState::Inconsistent => StateKind::Inconsistent,
        }
    }

    /// The graph that the state holds, if it holds one.
    pub fn graph(&self) -> (graph: Option<&Graph>)
        ensures
            match graph {
                Some(graph) => self@.graph() == Some(graph@),
                None => self@.graph() is None,
            },
    {
        match self {
            ProgramState::Building(builder) => Some(builder.graph()),
            ProgramState::Initialized(initialized) => Some(initialized.graph()),
            ProgramState::Executed(executed) => Some(executed.graph()),
            ProgramState::Inconsistent => None,
        }
    }

    /// Seals the graph once the engine has initialised it.
    ///
    /// `verdict` is what the engine's own initialisation said of the graph,
    /// and `run_inference` whether it was asked to infer channel flavors.
    /// Only a `Building` state can be initialised; any other is left as it
    /// is. Where the engine rejected the graph, the builder is put back and
    /// the state stays `Building`.
    pub fn initialize(&mut self, run_inference: bool, verdict: Result<(), String>) -> (outcome:
        Result<(), ProgramError>)
        ensures
            (final(self)@, error_view(outcome)) == old(self)@.initialize(
                run_inference,
                verdict_view(verdict),
            ),
            old(self)@.well_formed() ==> final(self)@.well_formed(),
    {
        let mut current = ProgramState::Inconsistent;
        std::mem::swap(self, &mut current);
        match current {
            ProgramState::Building(builder) => match verdict {
                Ok(()) => {
                    *self = ProgramState::Initialized(Initialized::new(builder, run_inference));
                    Ok(())
                },
                Err(cause) => {
                    *self = ProgramState::Building(builder);
                    Err(ProgramError::InitializationFailure { cause })
                },
            },
            other => {
                let actual = other.kind();
                *self = other;
                Err(ProgramError::StateViolation { expected: StateKind::Building, actual })
            },
        }
    }

    /// Takes in the engine's report of the run.
    ///
    /// Only an `Initialized` state can be run; any other is left as it is.
    /// The outcome is the number of cycles that the run took, or 0 where the
    /// engine reports none.
    pub fn run(&mut self, execution: Execution) -> (outcome: Result<u64, ProgramError>)
        ensures
            (final(self)@, error_view(outcome)) == old(self)@.run(execution@),
            old(self)@.well_formed() ==> final(self)@.well_formed(),
    {
        proof {
            if let StateView::Initialized(initialized) = self@ {
                if initialized.graph.well_formed() {
                    running_keeps_well_formedness(initialized.graph, execution@.delivered);
                }
            }
        }
        let mut current = ProgramState::Inconsistent;
        std::mem::swap(self, &mut current);
        match current {
            ProgramState::Initialized(initialized) => {
                let executed = initialized.run(execution);
                let cycles = executed.elapsed_cycles().unwrap_or(0);
                *self = ProgramState::Executed(executed);
                Ok(cycles)
            },
            other => {
                let actual = other.kind();
                *self = other;
                Err(ProgramError::StateViolation { expected: StateKind::Initialized, actual })
            },
        }
    }

    /// Adds a constant source and hands out the stream that it feeds.
    ///
    /// Constants can be added only in `Building`. The values are taken
    /// under the first element type that they read as, integers before
    /// floats; values that read as neither are refused. A call that fails
    /// leaves the state as it is.
    pub fn constant(&mut self, values: ValueCollection) -> (handle: Result<HopStream, ProgramError>)
        ensures
            (final(self)@, error_view(handle)) == old(self)@.constant(values.reading()),
            old(self)@.well_formed() ==> final(self)@.well_formed(),
    {
        match self {
            ProgramState::Building(builder) => {
                proof {
                    builder.fits();
                }
                match StreamEnum::from_constant(builder, values) {
                    Some(stream) => Ok(HopStream { stream }),
                    None => Err(ProgramError::UnsupportedInputType),
                }
            },
            other => Err(
                ProgramError::StateViolation {
                    expected: StateKind::Building,
                    actual: other.kind(),
                },
            ),
        }
    }

    /// Turns each requested output into a list to be read after the run,
    /// and hands out one extractor for each, in the order of the request.
    ///
    /// The call succeeds exactly when the state is `Building` and no
    /// requested output has a [`flaw`]: each is a handle of a stream of this
    /// graph that has not been consumed, and no two of them hold the same
    /// channel. It then consumes each of them and adds one collector for
    /// each. In any other state the call is a violation; otherwise the first
    /// output with a flaw decides the error. A call that fails leaves the
    /// state and the outputs as they are.
    pub fn stage_outputs(&mut self, outputs: &mut Vec<HostObject>) -> (outcome: Result<
        Vec<Extractor>,
        ProgramError,
    >)
        ensures
            (final(self)@, final(outputs)@, outcome_view(outcome)) == old(self)@.stage_outputs(
                old(outputs)@,
            ),
            old(self)@.well_formed() ==> final(self)@.well_formed(),
    {
        proof {
            if let StateView::Building(graph) = self@ {
                if graph.well_formed() {
                    staging_keeps_well_formedness(graph, outputs@);
                }
            }
        }
        match self {
            ProgramState::Building(builder) => match find_flaw(builder.graph(), outputs) {
                Some(error) => Err(error),
                None => Ok(stage_all(outputs, builder)),
            },
            other => Err(
                ProgramError::StateViolation {
                    expected: StateKind::Building,
                    actual: other.kind(),
                },
            ),
        }
    }

    /// Completes the run with the engine's report: initialises, runs, and
    /// reads every output.
    ///
    /// The state has to be `Building`; any other state is left as it is.
    /// Where the engine rejected the graph, the state stays `Building` as it
    /// was. Otherwise it ends `Executed`, and the result holds the cycles
    /// that the run took, or 0 where the engine reports none, and what each
    /// of `extractors` reads, in their order.
    pub fn run_to_end(
        &mut self,
        extractors: &Vec<Extractor>,
        run_inference: bool,
        report: EngineReport,
    ) -> (outcome: Result<RunResult, ProgramError>)
        ensures
            (final(self)@, outcome_view(outcome)) == old(self)@.run_to_end(
                extractors@,
                run_inference,
                report@,
            ),
            old(self)@.well_formed() ==> final(self)@.well_formed(),
    {
        self.initialize(run_inference, report.initialization)?;
        let cycles = self.run(report.execution)?;
        Ok(RunResult { cycles, outputs: self.outputs(extractors) })
    }

    /// Reads the result cell of each of `extractors`, in their order.
    pub fn outputs(&self, extractors: &Vec<Extractor>) -> (outputs: Vec<Option<Values>>)
        ensures
            delivery_views(outputs@) == self@.extract_all(extractors@),
    {
        let mut outputs: Vec<Option<Values>> = Vec::new();
        let mut k: usize = 0;
        while k < extractors.len()
            invariant
                k <= extractors.len(),
                outputs@.len() == k,
                forall|j: int|
                    0 <= j < k ==> delivery_view(#[trigger] outputs@[j]) == self@.extract(
                        extractors@[j],
                    ),
            decreases extractors.len() - k,
        {
            let values = self.extract(&extractors[k]);
            outputs.push(values);
            k += 1;
        }
        assert(delivery_views(outputs@) =~= self@.extract_all(extractors@));
        outputs
    }

    /// Reads the result cell that `extractor` names. The reader gets a
    /// copy, and the cell stays as it is. A poisoned cell gives `None`, and
    /// so does a state that holds no such cell.
    pub fn extract(&self, extractor: &Extractor) -> (values: Option<Values>)
        ensures
            delivery_view(values) == self@.extract(*extractor),
    {
        match self.graph() {
            Some(graph) => graph.read(extractor.cell),
            None => None,
        }
    }
}

/// Whether an output before place `index` is a stream that holds the
/// consuming end of channel `channel`.
pub open spec fn requested_before(outputs: Seq<HostObject>, index: int, channel: usize) -> bool {
    exists|j: int| 0 <= j < index && #[trigger] consumes(outputs[j], channel)
}

/// Whether `object` is a stream that holds the consuming end of channel
/// `channel`.
pub open spec fn consumes(object: HostObject, channel: usize) -> bool {
    object matches HostObject::Stream(handle) && handle.stream.stream() == Stream::Receiver(
        Receiver { channel },
    )
}

/// What is wrong with the requested output at `index`, if anything.
///
/// It is a mismatch where the output is no stream handle, or a handle whose
/// channel the graph does not have under the handle's element type. It is a
/// reuse where the stream was consumed before, or its channel is consumed
/// already: by a collector of the graph, or by an earlier output of the same
/// request.
pub open spec fn flaw(graph: GraphView, outputs: Seq<HostObject>, index: int) -> Option<
    ErrorView,
> {
    match outputs[index] {
        HostObject::Other => Some(ErrorView::TypeMismatch { index: index as usize }),
        HostObject::Stream(handle) => match handle.stream.stream() {
            Stream::Consumed => Some(ErrorView::HandleReuse { index: index as usize }),
            Stream::Receiver(rcv) => if !graph.offers(rcv.channel, handle.stream.elem_type()) {
                Some(ErrorView::TypeMismatch { index: index as usize })
            } else if graph.collects(rcv.channel) || requested_before(
                outputs,
                index,
                rcv.channel,
            ) {
                Some(ErrorView::HandleReuse { index: index as usize })
            } else {
                None
            },
        },
    }
}

/// Whether every requested output can be staged: none has a flaw.
pub open spec fn stageable(graph: GraphView, outputs: Seq<HostObject>) -> bool {
    forall|i: int| 0 <= i < outputs.len() ==> (#[trigger] flaw(graph, outputs, i)) is None
}

/// Whether `index` is the place of the first requested output that has a
/// flaw.
pub open spec fn first_flaw_at(graph: GraphView, outputs: Seq<HostObject>, index: int) -> bool {
    &&& 0 <= index < outputs.len()
    &&& flaw(graph, outputs, index) is Some
    &&& forall|j: int| 0 <= j < index ==> (#[trigger] flaw(graph, outputs, j)) is None
}

/// The flaw of the first requested output that has one, if any has.
pub open spec fn first_flaw(graph: GraphView, outputs: Seq<HostObject>) -> Option<ErrorView> {
    if stageable(graph, outputs) {
        None
    } else {
        flaw(graph, outputs, choose|i: int| first_flaw_at(graph, outputs, i))
    }
}

/// Only one place can be that of the first flaw: where `index` is the
/// place, the flaw there is the first flaw.
pub proof fn first_flaw_is_unique(graph: GraphView, outputs: Seq<HostObject>, index: int)
    requires
        first_flaw_at(graph, outputs, index),
    ensures
        !stageable(graph, outputs),
        first_flaw(graph, outputs) == flaw(graph, outputs, index),
        forall|other: int| first_flaw_at(graph, outputs, other) ==> other == index,
{
    let first = choose|i: int| first_flaw_at(graph, outputs, i);
    assert(first_flaw_at(graph, outputs, first));
    assert(first == index);
}

/// The place of the first flaw at or after `from`, where there is a flaw
/// there and none before `from`.
proof fn first_flaw_from(graph: GraphView, outputs: Seq<HostObject>, from: int) -> (index: int)
    requires
        0 <= from,
        forall|j: int| 0 <= j < from ==> (#[trigger] flaw(graph, outputs, j)) is None,
        exists|k: int| from <= k < outputs.len() && (#[trigger] flaw(graph, outputs, k)) is Some,
    ensures
        first_flaw_at(graph, outputs, index),
    decreases outputs.len() - from,
{
    if flaw(graph, outputs, from) is Some {
        from
    } else {
        first_flaw_from(graph, outputs, from + 1)
    }
}

/// There is a first flaw exactly when the outputs cannot all be staged.
pub proof fn first_flaw_exists(graph: GraphView, outputs: Seq<HostObject>)
    ensures
        first_flaw(graph, outputs) is None <==> stageable(graph, outputs),
{
    if !stageable(graph, outputs) {
        let index = first_flaw_from(graph, outputs, 0);
        first_flaw_is_unique(graph, outputs, index);
    }
}

/// The collector that turns the stream of `object` into a list.
pub open spec fn collector_for(object: HostObject) -> CollectorView {
    let stream = object->Stream_0.stream;
    CollectorView::fresh(stream.stream()->Receiver_0, stream.elem_type())
}

/// The objects after the stream of each has been consumed.
pub open spec fn spent_all(outputs: Seq<HostObject>) -> Seq<HostObject> {
    Seq::new(outputs.len(), |k: int| outputs[k].spent())
}

/// The extractors of `count` cells in a row, the first of which is `first`.
pub open spec fn extractors_from(first: int, count: nat) -> Seq<Extractor> {
    Seq::new(count, |k: int| Extractor { cell: (first + k) as usize })
}

impl GraphView {
    /// This graph with one more collector for each of `outputs`, in their
    /// order.
    pub open spec fn with_outputs(self, outputs: Seq<HostObject>) -> GraphView {
        GraphView {
            collectors: self.collectors + Seq::new(
                outputs.len(),
                |k: int| collector_for(outputs[k]),
            ),
            ..self
        }
    }
}

impl StateView {
    /// The transition of `constant` on a collection whose first reading is
    /// `reading`: the state after it, and its outcome.
    ///
    /// In `Building`, a collection that has a reading adds a channel and a
    /// source node, and the handle holds the consuming end of the channel.
    /// One that has none is refused. Any other state is a violation. Where
    /// the call fails the state stays as it is.
    pub open spec fn constant(self, reading: Option<ValuesView>) -> (
        StateView,
        Result<HopStream, ErrorView>,
    ) {
        match self {
            StateView::Building(graph) => match reading {
                Some(values) => (
                    StateView::Building(graph.with_constant(values)),
                    Ok(
                        HopStream {
                            stream: StreamEnum::tagged(
                                values.elem_type(),
                                Stream::Receiver(
                                    Receiver { channel: graph.channels.len() as usize },
                                ),
                            ),
                        },
                    ),
                ),
                None => (self, Err(ErrorView::UnsupportedInputType)),
            },
            _ => (self, Err(self.violation(StateKind::Building))),
        }
    }

    /// The transition of `stage_outputs`: the state and the requested
    /// outputs after it, and its outcome.
    ///
    /// In `Building`, where no output has a [`flaw`], every output's stream
    /// is consumed, the graph gets one collector for each in the order of the
    /// request, and the outcome holds one extractor for each in that order.
    /// Where an output has a flaw, the first such flaw is the error. Any
    /// other state is a violation. Where the call fails the state and the
    /// outputs stay as they are.
    pub open spec fn stage_outputs(self, outputs: Seq<HostObject>) -> (
        StateView,
        Seq<HostObject>,
        Result<Seq<Extractor>, ErrorView>,
    ) {
        match self {
            StateView::Building(graph) => match first_flaw(graph, outputs) {
                None => (
                    StateView::Building(graph.with_outputs(outputs)),
                    spent_all(outputs),
                    Ok(extractors_from(graph.collectors.len() as int, outputs.len())),
                ),
                Some(error) => (self, outputs, Err(error)),
            },
            _ => (self, outputs, Err(self.violation(StateKind::Building))),
        }
    }

    /// The transition of the whole run on the engine's `report`, with the
    /// outputs read through `extractors`: the state after it, and its
    /// outcome.
    ///
    /// From `Building`, a graph that the engine accepted and ran ends in
    /// `Executed`, and the outcome holds the cycles, or 0 where the engine
    /// reports none, and, for each extractor in order, what its cell then
    /// reads as. Where the engine rejected the graph the state stays
    /// `Building`, with the graph as it was. Any other state stays as it is
    /// and the call is a violation.
    pub open spec fn run_to_end(
        self,
        extractors: Seq<Extractor>,
        run_inference: bool,
        report: ReportView,
    ) -> (StateView, Result<RunResultView, ErrorView>) {
        match self {
            StateView::Building(graph) => match report.initialization {
                Ok(()) => {
                    let executed = StateView::Executed(
                        InitializedView { graph, run_inference }.ran(report.execution),
                    );
                    (
                        executed,
                        Ok(
                            RunResultView {
                                cycles: match report.execution.elapsed_cycles {
                                    Some(cycles) => cycles,
                                    None => 0,
                                },
                                outputs: executed.extract_all(extractors),
                            },
                        ),
                    )
                },
                Err(cause) => (self, Err(ErrorView::InitializationFailure { cause })),
            },
            _ => (self, Err(self.violation(StateKind::Building))),
        }
    }
}

/// Staging outputs without a flaw keeps a graph well formed.
pub proof fn staging_keeps_well_formedness(graph: GraphView, outputs: Seq<HostObject>)
    requires
        graph.well_formed(),
    ensures
        StateView::Building(graph).stage_outputs(outputs).0.well_formed(),
{
    first_flaw_exists(graph, outputs);
    if stageable(graph, outputs) {
        let staged = graph.with_outputs(outputs);
        let before = graph.collectors.len() as int;
        assert forall|j: int| 0 <= j < staged.collectors.len() implies staged.offers(
            (#[trigger] staged.collectors[j]).rcv.channel,
            staged.collectors[j].output.values.elem_type(),
        ) by {
            if j >= before {
                assert(flaw(graph, outputs, j - before) is None);
                assert(staged.collectors[j] == collector_for(outputs[j - before]));
            }
        }
        assert forall|j: int, k: int| 0 <= j < k < staged.collectors.len() implies (
        #[trigger] staged.collectors[j]).rcv.channel != (
        #[trigger] staged.collectors[k]).rcv.channel by {
            if k >= before {
                let channel = staged.collectors[k].rcv.channel;
                assert(flaw(graph, outputs, k - before) is None);
                assert(staged.collectors[k] == collector_for(outputs[k - before]));
                assert(!graph.collects(channel));
                assert(!requested_before(outputs, k - before, channel));
                if j >= before {
                    assert(flaw(graph, outputs, j - before) is None);
                    assert(staged.collectors[j] == collector_for(outputs[j - before]));
                    assert(!consumes(outputs[j - before], channel));
                } else {
                    assert(graph.collectors[j].rcv.channel != channel);
                }
            }
        }
    }
}

/// The view of an error that may have been found.
pub open spec fn found_view(found: Option<ProgramError>) -> Option<ErrorView> {
    match found {
        Some(error) => Some(error@),
        None => None,
    }
}

/// Whether an output before place `index` is a stream that holds the
/// consuming end of channel `channel`.
fn is_requested_before(outputs: &Vec<HostObject>, index: usize, channel: usize) -> (found: bool)
    requires
        index <= outputs.len(),
    ensures
        found == requested_before(outputs@, index as int, channel),
{
    let mut j: usize = 0;
    while j < index
        invariant
            j <= index <= outputs.len(),
            forall|k: int| 0 <= k < j ==> !(#[trigger] consumes(outputs@[k], channel)),
        decreases index - j,
    {
        match &outputs[j] {
            HostObject::Stream(handle) => match &handle.stream {
                StreamEnum::Int(Stream::Receiver(rcv)) | StreamEnum::Float(
                    Stream::Receiver(rcv),
                ) => {
                    if rcv.channel == channel {
                        assert(consumes(outputs@[j as int], channel));
                        return true;
                    }
                },
                _ => {},
            },
            HostObject::Other => {},
        }
        j += 1;
    }
    false
}

/// What is wrong with the requested output at `index`, if anything.
fn flaw_at(graph: &Graph, outputs: &Vec<HostObject>, index: usize) -> (found: Option<
    ProgramError,
>)
    requires
        index < outputs.len(),
    ensures
        found_view(found) == flaw(graph@, outputs@, index as int),
{
    match &outputs[index] {
        HostObject::Other => Some(ProgramError::TypeMismatch { index }),
        HostObject::Stream(handle) => {
            let (elem, stream) = match &handle.stream {
                StreamEnum::Int(stream) => (ElemType::Int, stream),
                StreamEnum::Float(stream) => (ElemType::Float, stream),
            };
            match stream {
                Stream::Consumed => Some(ProgramError::HandleReuse { index }),
                Stream::Receiver(rcv) => {
                    if !graph.offers(rcv.channel, elem) {
                        Some(ProgramError::TypeMismatch { index })
                    } else if graph.collects(rcv.channel) || is_requested_before(
                        outputs,
                        index,
                        rcv.channel,
                    ) {
                        Some(ProgramError::HandleReuse { index })
                    } else {
                        None
                    }
                },
            }
        },
    }
}

/// The first flaw among the requested outputs, if there is one.
fn find_flaw(graph: &Graph, outputs: &Vec<HostObject>) -> (found: Option<ProgramError>)
    ensures
        found_view(found) == first_flaw(graph@, outputs@),
        found is None <==> stageable(graph@, outputs@),
{
    proof {
        first_flaw_exists(graph@, outputs@);
    }
    let mut i: usize = 0;
    while i < outputs.len()
        invariant
            i <= outputs.len(),
            forall|j: int| 0 <= j < i ==> (#[trigger] flaw(graph@, outputs@, j)) is None,
        decreases outputs.len() - i,
    {
        let found = flaw_at(graph, outputs, i);
        if found.is_some() {
            proof {
                first_flaw_is_unique(graph@, outputs@, i as int);
            }
            return found;
        }
        i += 1;
    }
    None
}

/// Turns the stream of `object` into a list.
fn stage(object: &mut HostObject, builder: &mut ProgramBuilder) -> (extractor: Extractor)
    requires
        old(object).is_live_stream(),
    ensures
        *final(object) == old(object).spent(),
        final(builder)@ == old(builder)@.with_collector(collector_for(*old(object))),
        extractor.cell == old(builder)@.collectors.len(),
{
    match object {
        HostObject::Stream(handle) => handle.stream.into_list(builder),
        HostObject::Other => vstd::pervasive::unreached(),
    }
}

/// Turns the stream of each requested output into a list, in order.
fn stage_all(outputs: &mut Vec<HostObject>, builder: &mut ProgramBuilder) -> (extractors: Vec<
    Extractor,
>)
    requires
        stageable(old(builder)@, old(outputs)@),
    ensures
        final(outputs)@ == spent_all(old(outputs)@),
        final(builder)@ == old(builder)@.with_outputs(old(outputs)@),
        extractors@ == extractors_from(
            old(builder)@.collectors.len() as int,
            old(outputs)@.len(),
        ),
{
    let count = outputs.len();
    let mut extractors: Vec<Extractor> = Vec::new();
    let mut k: usize = 0;
    while k < count
        invariant
            k <= count,
            count == old(outputs)@.len(),
            outputs@.len() == count,
            stageable(old(builder)@, old(outputs)@),
            forall|j: int| 0 <= j < k ==> #[trigger] outputs@[j] == old(outputs)@[j].spent(),
            forall|j: int| k <= j < count ==> #[trigger] outputs@[j] == old(outputs)@[j],
            builder@ == old(builder)@.with_outputs(old(outputs)@.subrange(0, k as int)),
            extractors@ == extractors_from(old(builder)@.collectors.len() as int, k as nat),
        decreases count - k,
    {
        assert(flaw(old(builder)@, old(outputs)@, k as int) is None);
        let ghost before = builder@;
        let extractor = stage(&mut outputs[k], builder);
        extractors.push(extractor);
        proof {
            let more = old(outputs)@.subrange(0, k + 1);
            assert(old(builder)@.with_outputs(more).collectors =~= before.with_collector(
                collector_for(old(outputs)@[k as int]),
            ).collectors);
            assert(extractors@ =~= extractors_from(
                old(builder)@.collectors.len() as int,
                (k + 1) as nat,
            ));
        }
        k += 1;
    }
    assert(old(outputs)@.subrange(0, count as int) =~= old(outputs)@);
    assert(final(outputs)@ =~= spent_all(old(outputs)@));
    extractors
}

/// A dataflow program, from its construction to its results.
#[derive(Debug, PartialEq, Eq)]
pub struct Program {
    state: ProgramState,
}

impl View for Program {
    type V = StateView;

    closed spec fn view(&self) -> StateView {
        self.state@
    }
}

impl Program {
    /// What holds of every program: its state is never the placeholder,
    /// and its graph is well formed.
    #[verifier::type_invariant]
    spec fn settled(self) -> bool {
        &&& !(self.state is Inconsistent)
        &&& self.state@.well_formed()
    }

    /// A program in the `Building` state, with an empty graph.
    pub fn new() -> (program: Program)
        ensures
            program@ == StateView::Building(GraphView::empty()),
            program@.well_formed(),
    {
        Program { state: ProgramState::Building(ProgramBuilder::new()) }
    }

    /// Takes the state out of the program and leaves an empty `Building`
    /// state in its slot, so that the slot never holds the placeholder.
    fn take_state(&mut self) -> (state: ProgramState)
        ensures
            state@ == old(self)@,
            !(state@ is Inconsistent),
            state@.well_formed(),
    {
        proof {
            use_type_invariant(&*self);
        }
        let mut state = ProgramState::Building(ProgramBuilder::new());
        std::mem::swap(&mut self.state, &mut state);
        state
    }

    /// Puts `state` into the program's slot.
    fn put_state(&mut self, state: ProgramState)
        requires
            !(state@ is Inconsistent),
            state@.well_formed(),
        ensures
            final(self)@ == state@,
    {
        let mut state = state;
        std::mem::swap(&mut self.state, &mut state);
    }

    /// The state that the program is in. It is never the placeholder, and
    /// the graph that it holds is well formed.
    pub fn state(&self) -> (state: &ProgramState)
        ensures
            state@ == self@,
            !(state@ is Inconsistent),
            state@.well_formed(),
    {
        proof {
            use_type_invariant(self);
        }
        &self.state
    }

    /// Adds a constant source and hands out the stream that it feeds.
    ///
    /// Constants can be added only while the program is `Building`. The
    /// values are taken under the first element type that they read as,
    /// integers before floats; values that read as neither are refused. A
    /// call that fails leaves the program as it is.
    pub fn constant(&mut self, values: ValueCollection) -> (handle: Result<HopStream, ProgramError>)
        ensures
            (final(self)@, error_view(handle)) == old(self)@.constant(values.reading()),
            !(final(self)@ is Inconsistent),
            final(self)@.well_formed(),
    {
        let mut state = self.take_state();
        let handle = state.constant(values);
        self.put_state(state);
        handle
    }

    /// Turns each requested output into a list to be read after the run,
    /// and hands out one extractor for each, in the order of the request.
    ///
    /// The call succeeds exactly when the program is `Building` and no
    /// requested output has a [`flaw`]: each is a handle of a stream of this
    /// program that has not been consumed, and no two of them hold the same
    /// channel. It then consumes each of them and adds one collector for
    /// each. In any other state the call is a violation; otherwise the first
    /// output with a flaw decides the error. A call that fails leaves the
    /// program and the outputs as they are.
    pub fn stage_outputs(&mut self, outputs: &mut Vec<HostObject>) -> (outcome: Result<
        Vec<Extractor>,
        ProgramError,
    >)
        ensures
            (final(self)@, final(outputs)@, outcome_view(outcome)) == old(self)@.stage_outputs(
                old(outputs)@,
            ),
            !(final(self)@ is Inconsistent),
            final(self)@.well_formed(),
    {
        let mut state = self.take_state();
        let outcome = state.stage_outputs(outputs);
        self.put_state(state);
        outcome
    }

    /// Completes the run with the engine's report: initialises, runs, and
    /// reads every output.
    ///
    /// `report` is what the engine said when it was given the program's
    /// graph to initialise, with flavor inference as `run_inference` says,
    /// and to run. The program has to be `Building`; any other state is left
    /// as it is. Where the engine rejected the graph, the program stays
    /// `Building` as it was. Otherwise it ends `Executed`, and the result holds the cycles that
    /// the run took, or 0 where the engine reports none, and what each of
    /// `extractors` reads, in their order.
    ///
    /// The outputs of a run are requested with [`Program::stage_outputs`],
    /// before the engine is given the graph.
    pub fn run(
        &mut self,
        extractors: &Vec<Extractor>,
        run_inference: bool,
        report: EngineReport,
    ) -> (outcome: Result<RunResult, ProgramError>)
        ensures
            (final(self)@, outcome_view(outcome)) == old(self)@.run_to_end(
                extractors@,
                run_inference,
                report@,
            ),
            !(final(self)@ is Inconsistent),
            final(self)@.well_formed(),
    {
        let mut state = self.take_state();
        let outcome = state.run_to_end(extractors, run_inference, report);
        self.put_state(state);
        outcome
    }

    /// Reads the result cell that `extractor` names. The reader gets a
    /// copy, and the program stays as it is: reading again gives the same.
    /// A poisoned cell gives `None`, and so does a program that holds no
    /// such cell.
    pub fn extract(&self, extractor: &Extractor) -> (values: Option<Values>)
        ensures
            delivery_view(values) == self@.extract(*extractor),
    {
        self.state.extract(extractor)
    }

    /// Reads the result cell of each of `extractors`, in their order.
    pub fn outputs(&self, extractors: &Vec<Extractor>) -> (outputs: Vec<Option<Values>>)
        ensures
            delivery_views(outputs@) == self@.extract_all(extractors@),
    {
        self.state.outputs(extractors)
    }
}

} // verus!
