//! What holds of the lifecycle as a whole, proved of the transitions that
//! the operations of a program are specified by.

use vstd::prelude::*;
use crate::elem::ValuesView;
use crate::engine::{faithful, ExecutionView, ReportView};
use crate::graph::{running_keeps_well_formedness, GraphView, Receiver};
use crate::host::HostObject;
use crate::program::{
    collector_for, consumes, first_flaw_at, first_flaw_exists, first_flaw_is_unique, flaw,
    requested_before, stageable, staging_keeps_well_formedness, ErrorView, RunResultView,
    StateKind, StateView,
};
use crate::stream::{Extractor, HopStream, Stream};

verus! {

/// No operation leaves the placeholder behind: a transition ends in
/// `Inconsistent` only if it began there. A program begins in `Building`,
/// so it is never met in the placeholder state.
pub proof fn placeholder_is_never_entered(
    state: StateView,
    reading: Option<ValuesView>,
    outputs: Seq<HostObject>,
    extractors: Seq<Extractor>,
    run_inference: bool,
    report: ReportView,
)
    ensures
        state.constant(reading).0 is Inconsistent <==> state is Inconsistent,
        state.stage_outputs(outputs).0 is Inconsistent <==> state is Inconsistent,
        state.initialize(run_inference, report.initialization).0 is Inconsistent <==> state
            is Inconsistent,
        state.run(report.execution).0 is Inconsistent <==> state is Inconsistent,
        state.run_to_end(extractors, run_inference, report).0 is Inconsistent <==> state
            is Inconsistent,
{
}

/// A failed operation changes nothing: the state after it is the state
/// before it, and staging leaves the outputs as they were.
pub proof fn failure_changes_nothing(
    state: StateView,
    reading: Option<ValuesView>,
    outputs: Seq<HostObject>,
    extractors: Seq<Extractor>,
    run_inference: bool,
    report: ReportView,
)
    ensures
        state.constant(reading).1 is Err ==> state.constant(reading).0 == state,
        state.stage_outputs(outputs).2 is Err ==> state.stage_outputs(outputs).0 == state
            && state.stage_outputs(outputs).1 == outputs,
        state.initialize(run_inference, report.initialization).1 is Err ==> state.initialize(
            run_inference,
            report.initialization,
        ).0 == state,
        state.run(report.execution).1 is Err ==> state.run(report.execution).0 == state,
        state.run_to_end(extractors, run_inference, report).1 is Err ==> state.run_to_end(
            extractors,
            run_inference,
            report,
        ).0 == state,
{
}

/// Where the engine rejects the graph, the initialisation fails with the
/// engine's cause and does not take place: the program is still `Building`,
/// with the graph that it had, and a run that follows is a violation.
pub proof fn rejection_leaves_building(
    graph: GraphView,
    run_inference: bool,
    cause: Seq<char>,
    execution: ExecutionView,
)
    ensures
        ({
            let (after, outcome) = StateView::Building(graph).initialize(run_inference, Err(cause));
            &&& outcome == Err::<(), ErrorView>(ErrorView::InitializationFailure { cause })
            &&& outcome->Err_0.message() == cause
            &&& after == StateView::Building(graph)
            &&& after.run(execution) == (
                after,
                Err::<u64, ErrorView>(
                    ErrorView::StateViolation {
                        expected: StateKind::Initialized,
                        actual: StateKind::Building,
                    },
                ),
            )
        }),
{
}

/// A second initialisation in a row is a violation. Unless the first one
/// was refused because the engine rejected the graph, the state after it is
/// not `Building`, and the second one fails and leaves that state as it is.
pub proof fn initialize_twice_is_refused(
    state: StateView,
    first_inference: bool,
    first_verdict: Result<(), Seq<char>>,
    second_inference: bool,
    second_verdict: Result<(), Seq<char>>,
)
    requires
        !(state is Building && first_verdict is Err),
    ensures
        ({
            let (once, _) = state.initialize(first_inference, first_verdict);
            let (twice, outcome) = once.initialize(second_inference, second_verdict);
            &&& once.kind() != StateKind::Building
            &&& outcome == Err::<(), ErrorView>(once.violation(StateKind::Building))
            &&& twice == once
        }),
{
}

/// After a run that succeeded the program is `Executed`, and a constant is
/// refused as a violation that names `Building` as the state it needs and
/// `Executed` as the state it found.
pub proof fn constant_after_run_is_refused(
    state: StateView,
    extractors: Seq<Extractor>,
    run_inference: bool,
    report: ReportView,
    reading: Option<ValuesView>,
)
    ensures
        ({
            let (done, outcome) = state.run_to_end(extractors, run_inference, report);
            outcome is Ok ==> {
                &&& done.kind() == StateKind::Executed
                &&& done.constant(reading) == (
                    done,
                    Err::<HopStream, ErrorView>(
                        ErrorView::StateViolation {
                            expected: StateKind::Building,
                            actual: StateKind::Executed,
                        },
                    ),
                )
            }
        }),
{
}

/// The whole run is an initialisation followed by a run: it ends in the
/// state that the two transitions reach in a row, fails with the error of
/// the first of them that fails, and otherwise reports the cycles of the
/// second and what the extractors read in the state that it reached.
pub proof fn run_is_initialize_then_run(
    state: StateView,
    extractors: Seq<Extractor>,
    run_inference: bool,
    report: ReportView,
)
    ensures
        ({
            let (whole, outcome) = state.run_to_end(extractors, run_inference, report);
            let (initialized, first) = state.initialize(run_inference, report.initialization);
            let (executed, second) = initialized.run(report.execution);
            match first {
                Err(error) => whole == initialized && outcome == Err::<RunResultView, ErrorView>(
                    error,
                ),
                Ok(()) => {
                    &&& initialized.kind() == StateKind::Initialized
                    &&& whole == executed
                    &&& second is Ok
                    &&& outcome == Ok::<RunResultView, ErrorView>(
                        RunResultView {
                            cycles: second->Ok_0,
                            outputs: executed.extract_all(extractors),
                        },
                    )
                },
            }
        }),
{
}

/// `Executed` is final: every operation on an executed program is a
/// violation and leaves it as it is.
pub proof fn executed_is_final(
    state: StateView,
    reading: Option<ValuesView>,
    outputs: Seq<HostObject>,
    extractors: Seq<Extractor>,
    run_inference: bool,
    report: ReportView,
)
    requires
        state is Executed,
    ensures
        state.constant(reading).0 == state,
        state.constant(reading).1 is Err,
        state.stage_outputs(outputs).0 == state,
        state.stage_outputs(outputs).2 is Err,
        state.initialize(run_inference, report.initialization).0 == state,
        state.initialize(run_inference, report.initialization).1 is Err,
        state.run(report.execution).0 == state,
        state.run(report.execution).1 is Err,
        state.run_to_end(extractors, run_inference, report).0 == state,
        state.run_to_end(extractors, run_inference, report).1 is Err,
{
}

/// Staging is refused at the first output that has a flaw, with the error
/// of that flaw, and neither the program nor any output changes.
pub proof fn refused_at_first_flaw(graph: GraphView, outputs: Seq<HostObject>, index: int)
    requires
        first_flaw_at(graph, outputs, index),
    ensures
        flaw(graph, outputs, index) is Some,
        StateView::Building(graph).stage_outputs(outputs) == (
            StateView::Building(graph),
            outputs,
            Err::<Seq<Extractor>, ErrorView>(flaw(graph, outputs, index)->0),
        ),
{
    first_flaw_is_unique(graph, outputs, index);
}

/// The same handle twice in one request is refused as a reuse. Where a
/// live handle stands at two places and no output before the second of them
/// has a flaw, staging fails with `HandleReuse` at the second place, before
/// anything changes.
pub proof fn handle_named_twice_is_refused(
    graph: GraphView,
    outputs: Seq<HostObject>,
    first: int,
    second: int,
)
    requires
        0 <= first < second < outputs.len(),
        outputs[first].is_live_stream(),
        outputs[second] == outputs[first],
        forall|j: int| 0 <= j < second ==> (#[trigger] flaw(graph, outputs, j)) is None,
    ensures
        StateView::Building(graph).stage_outputs(outputs) == (
            StateView::Building(graph),
            outputs,
            Err::<Seq<Extractor>, ErrorView>(ErrorView::HandleReuse { index: second as usize }),
        ),
{
    let channel = channel_of(outputs[first]);
    assert(flaw(graph, outputs, first) is None);
    assert(consumes(outputs[first], channel));
    assert(requested_before(outputs, second, channel));
    first_flaw_is_unique(graph, outputs, second);
}

/// A handle that was consumed before is refused as a reuse, and so is a
/// handle whose channel a collector of the graph consumes already. Where no
/// output before `index` has a flaw, staging fails with `HandleReuse` at
/// `index`, before anything changes.
pub proof fn consumed_handle_is_refused(graph: GraphView, outputs: Seq<HostObject>, index: int)
    requires
        0 <= index < outputs.len(),
        forall|j: int| 0 <= j < index ==> (#[trigger] flaw(graph, outputs, j)) is None,
        outputs[index] matches HostObject::Stream(handle) && match handle.stream.stream() {
            Stream::Consumed => true,
            Stream::Receiver(rcv) => graph.offers(rcv.channel, handle.stream.elem_type())
                && graph.collects(rcv.channel),
        },
    ensures
        StateView::Building(graph).stage_outputs(outputs) == (
            StateView::Building(graph),
            outputs,
            Err::<Seq<Extractor>, ErrorView>(ErrorView::HandleReuse { index: index as usize }),
        ),
{
    first_flaw_is_unique(graph, outputs, index);
}

/// An output that is no handle of a stream of the program is refused as a
/// mismatch: an object that is no stream handle, a handle whose channel the
/// graph does not have, and a handle whose element type is not that of its
/// channel. Where no output before `index` has a flaw, staging fails with
/// `TypeMismatch` at `index`, before anything changes.
pub proof fn foreign_object_is_refused(graph: GraphView, outputs: Seq<HostObject>, index: int)
    requires
        0 <= index < outputs.len(),
        forall|j: int| 0 <= j < index ==> (#[trigger] flaw(graph, outputs, j)) is None,
        match outputs[index] {
            HostObject::Other => true,
            HostObject::Stream(handle) => handle.stream.stream() matches Stream::Receiver(rcv)
                && !graph.offers(rcv.channel, handle.stream.elem_type()),
        },
    ensures
        StateView::Building(graph).stage_outputs(outputs) == (
            StateView::Building(graph),
            outputs,
            Err::<Seq<Extractor>, ErrorView>(ErrorView::TypeMismatch { index: index as usize }),
        ),
{
    first_flaw_is_unique(graph, outputs, index);
}

/// The number of the channel that the stream of `object` consumes.
pub open spec fn channel_of(object: HostObject) -> usize {
    object->Stream_0.stream.stream()->Receiver_0.channel
}

/// A new program is well formed, and every operation keeps a program so:
/// as long as a channel's number fits the machine, every end of a channel
/// is held by one node at most, and by a node of the channel's type.
pub proof fn well_formedness_is_kept(
    state: StateView,
    reading: Option<ValuesView>,
    outputs: Seq<HostObject>,
    extractors: Seq<Extractor>,
    run_inference: bool,
    report: ReportView,
)
    requires
        state.well_formed(),
        state matches StateView::Building(graph) ==> graph.channels.len() <= usize::MAX,
    ensures
        StateView::Building(GraphView::empty()).well_formed(),
        state.constant(reading).0.well_formed(),
        state.stage_outputs(outputs).0.well_formed(),
        state.initialize(run_inference, report.initialization).0.well_formed(),
        state.run(report.execution).0.well_formed(),
        state.run_to_end(extractors, run_inference, report).0.well_formed(),
{
    if let StateView::Building(graph) = state {
        staging_keeps_well_formedness(graph, outputs);
        running_keeps_well_formedness(graph, report.execution.delivered);
    }
    if let StateView::Initialized(initialized) = state {
        running_keeps_well_formedness(initialized.graph, report.execution.delivered);
    }
}

/// An engine can keep its word on every well-formed graph: there is a
/// report that is faithful to it. So what is proved of faithful reports is
/// proved of something.
pub proof fn an_engine_can_keep_its_word(graph: GraphView, elapsed_cycles: Option<u64>)
    requires
        graph.well_formed(),
    ensures
        faithful(graph, ExecutionView { elapsed_cycles, delivered: graph.deliveries() }),
{
}

/// The outputs of a run come in the order of the request. With an engine
/// that keeps its word, the output at place `k` is exactly what the source
/// on the channel of the `k`-th requested stream replays, whatever the order
/// in which the sources were registered, and no output is missing.
pub proof fn outputs_follow_the_request(
    graph: GraphView,
    outputs: Seq<HostObject>,
    run_inference: bool,
    report: ReportView,
    k: int,
)
    requires
        graph.well_formed(),
        graph.collectors.len() + outputs.len() <= usize::MAX,
        stageable(graph, outputs),
        report.initialization is Ok,
        faithful(graph.with_outputs(outputs), report.execution),
        0 <= k < outputs.len(),
    ensures
        ({
            let (staged, _, extractors) = StateView::Building(graph).stage_outputs(outputs);
            let (done, outcome) = staged.run_to_end(extractors->Ok_0, run_inference, report);
            &&& extractors is Ok
            &&& done is Executed
            &&& outcome is Ok
            &&& outcome->Ok_0.outputs.len() == outputs.len()
            &&& channel_of(outputs[k]) < graph.generators.len()
            &&& outcome->Ok_0.outputs[k] == Some(
                graph.generators[channel_of(outputs[k]) as int].values,
            )
        }),
{
    first_flaw_exists(graph, outputs);
    let cell = graph.collectors.len() + k;
    let source = channel_of(outputs[k]) as int;
    assert(flaw(graph, outputs, k) is None);
    let values = graph.generators[source].values;
    assert(graph.generators[source].snd.channel == source);
    assert(graph.with_outputs(outputs).collectors[cell] == collector_for(outputs[k]));
    assert(ValuesView::empty(values.elem_type()).concat(values) == Some(values)) by {
        match values {
            ValuesView::Int(items) => {
                assert(Seq::<i64>::empty() + items =~= items);
            },
            ValuesView::Float(items) => {
                assert(Seq::<u64>::empty() + items =~= items);
            },
        }
    }
}

/// A constant that is the only requested output of a run comes back as it
/// went in. Whatever the program held before, and whatever the element type
/// of the values: with an engine that keeps its word, the one output of the
/// run is exactly the constant's values, in their order.
pub proof fn constant_is_handed_back(
    graph: GraphView,
    values: ValuesView,
    run_inference: bool,
    report: ReportView,
)
    requires
        graph.well_formed(),
        graph.channels.len() < usize::MAX,
        graph.collectors.len() < usize::MAX,
        report.initialization is Ok,
        ({
            let (built, handle) = StateView::Building(graph).constant(Some(values));
            let (staged, _, _) = built.stage_outputs(seq![HostObject::Stream(handle->Ok_0)]);
            faithful(staged->Building_0, report.execution)
        }),
    ensures
        ({
            let (built, handle) = StateView::Building(graph).constant(Some(values));
            let (staged, _, extractors) = built.stage_outputs(
                seq![HostObject::Stream(handle->Ok_0)],
            );
            let (done, outcome) = staged.run_to_end(extractors->Ok_0, run_inference, report);
            &&& handle is Ok
            &&& extractors is Ok
            &&& done is Executed
            &&& outcome is Ok
            &&& outcome->Ok_0.outputs == seq![Some(values)]
        }),
{
    let (built, handle) = StateView::Building(graph).constant(Some(values));
    let outputs = seq![HostObject::Stream(handle->Ok_0)];
    let with_source = graph.with_constant(values);
    let channel = graph.channels.len() as usize;
    assert(handle->Ok_0.stream.stream() == Stream::Receiver(Receiver { channel }));
    assert(with_source.offers(channel, values.elem_type()));
    assert(!with_source.collects(channel)) by {
        assert forall|j: int| 0 <= j < graph.collectors.len() implies (
        #[trigger] graph.collectors[j]).rcv.channel != channel by {
            assert(graph.offers(
                graph.collectors[j].rcv.channel,
                graph.collectors[j].output.values.elem_type(),
            ));
        }
    }
    assert(!requested_before(outputs, 0, channel));
    assert(flaw(with_source, outputs, 0) is None);
    assert(stageable(with_source, outputs));
    assert(with_source.well_formed());
    outputs_follow_the_request(with_source, outputs, run_inference, report, 0);
    let (staged, _, extractors) = built.stage_outputs(outputs);
    let (_, outcome) = staged.run_to_end(extractors->Ok_0, run_inference, report);
    assert(outcome->Ok_0.outputs =~= seq![Some(values)]);
}

} // verus!
