//! The graph under construction: channels, and the nodes registered on them.

use vstd::prelude::*;
use crate::elem::{ElemType, Values, ValuesView};
use crate::stream::{CollectorContext, CollectorView, Extractor};

verus! {

/// The producing end of a channel.
#[derive(Debug, PartialEq, Eq, Structural)]
pub struct Sender {
    /// The number of the channel in the builder that made it.
    pub channel: usize,
}

/// The consuming end of a channel.
#[derive(Debug, PartialEq, Eq, Structural)]
pub struct Receiver {
    /// The number of the channel in the builder that made it.
    pub channel: usize,
}

/// A source node: it replays a fixed sequence onto a channel, in order and
/// once, and then closes the channel.
#[derive(Debug, PartialEq, Eq)]
pub struct GeneratorContext {
    /// The sequence to replay.
    pub values: Values,
    /// The end of the channel that the sequence is sent on.
    pub snd: Sender,
}

/// The mathematical value of a [`GeneratorContext`].
pub ghost struct GeneratorView {
    pub values: ValuesView,
    pub snd: Sender,
}

impl View for GeneratorContext {
    type V = GeneratorView;

    open spec fn view(&self) -> GeneratorView {
        GeneratorView { values: self.values@, snd: self.snd }
    }
}

impl GeneratorContext {
    /// A source that replays `values` onto `snd`.
    pub fn new(values: Values, snd: Sender) -> (node: GeneratorContext)
        ensures
            node@ == (GeneratorView { values: values@, snd }),
    {
        GeneratorContext { values, snd }
    }
}

/// The views of the items of a sequence, in the same order.
pub open spec fn views<T: View>(items: Seq<T>) -> Seq<T::V> {
    Seq::new(items.len(), |i: int| items[i]@)
}

/// The mathematical value of a [`ProgramBuilder`]: what has been registered
/// so far, in the order of registration.
pub ghost struct GraphView {
    /// The element type of each channel, by the channel's number.
    pub channels: Seq<ElemType>,
    /// The source nodes.
    pub generators: Seq<GeneratorView>,
    /// The collecting nodes; a result cell is known by its collector's place
    /// in this sequence.
    pub collectors: Seq<CollectorView>,
}

impl GraphView {
    /// The graph with nothing in it.
    pub open spec fn empty() -> GraphView {
        GraphView { channels: Seq::empty(), generators: Seq::empty(), collectors: Seq::empty() }
    }

    /// This graph with one more channel, which takes the next free number.
    pub open spec fn with_channel(self, elem: ElemType) -> GraphView {
        GraphView { channels: self.channels.push(elem), ..self }
    }

    /// This graph with one more source node.
    pub open spec fn with_generator(self, node: GeneratorView) -> GraphView {
        GraphView { generators: self.generators.push(node), ..self }
    }

    /// This graph with one more collecting node.
    pub open spec fn with_collector(self, node: CollectorView) -> GraphView {
        GraphView { collectors: self.collectors.push(node), ..self }
    }

    /// This graph with a new channel of the type of `values`, and a source
    /// node that replays `values` onto it.
    pub open spec fn with_constant(self, values: ValuesView) -> GraphView {
        self.with_channel(values.elem_type()).with_generator(
            GeneratorView { values, snd: Sender { channel: self.channels.len() as usize } },
        )
    }
}

impl GraphView {
    /// Whether the graph has a channel `channel` for elements of type
    /// `elem`.
    pub open spec fn offers(self, channel: usize, elem: ElemType) -> bool {
        channel < self.channels.len() && self.channels[channel as int] == elem
    }

    /// Whether a collector of the graph consumes channel `channel`.
    pub open spec fn collects(self, channel: usize) -> bool {
        exists|j: int|
            0 <= j < self.collectors.len() && (#[trigger] self.collectors[j]).rcv.channel
                == channel
    }

    /// Whether every end of a channel is held by one node at most, and by a
    /// node of the channel's element type.
    ///
    /// Sources and channels correspond one to one: the source at place `i`
    /// sends on channel `i`, and its values are of the channel's type. Every
    /// collector consumes a channel of the graph into a cell of the
    /// channel's type, and no two collectors consume the same channel.
    pub open spec fn well_formed(self) -> bool {
        &&& self.generators.len() == self.channels.len()
        &&& forall|i: int|
            0 <= i < self.generators.len() ==> {
                &&& (#[trigger] self.generators[i]).snd.channel == i
                &&& self.generators[i].values.elem_type() == self.channels[i]
            }
        &&& forall|j: int|
            0 <= j < self.collectors.len() ==> self.offers(
                (#[trigger] self.collectors[j]).rcv.channel,
                self.collectors[j].output.values.elem_type(),
            )
        &&& forall|j: int, k: int|
            0 <= j < k < self.collectors.len() ==> (#[trigger] self.collectors[j]).rcv.channel != (
            #[trigger] self.collectors[k]).rcv.channel
    }

    /// What an engine that keeps its word hands to each collector of a
    /// well-formed graph: the values of the source on the collector's
    /// channel, and nothing where the channel has no source.
    pub open spec fn deliveries(self) -> Seq<Option<ValuesView>> {
        Seq::new(
            self.collectors.len(),
            |j: int|
                {
                    let channel = self.collectors[j].rcv.channel as int;
                    if channel < self.generators.len() {
                        Some(self.generators[channel].values)
                    } else {
                        Some(ValuesView::empty(self.collectors[j].output.values.elem_type()))
                    }
                },
        )
    }

    /// This graph after a run in which `delivered` holds, for each
    /// collector by its place, what the collector's channel handed over
    /// until it closed, or `None` if the node failed. A collector that
    /// `delivered` does not reach has not run.
    pub open spec fn executed(self, delivered: Seq<Option<ValuesView>>) -> GraphView {
        GraphView {
            collectors: Seq::new(
                self.collectors.len(),
                |j: int|
                    if j < delivered.len() {
                        self.collectors[j].ran(delivered[j])
                    } else {
                        self.collectors[j]
                    },
            ),
            ..self
        }
    }

    /// What a reader of result cell `cell` gets: the cell's values, or
    /// nothing if the cell is poisoned or the graph has no such cell.
    pub open spec fn read(self, cell: int) -> Option<ValuesView> {
        if 0 <= cell < self.collectors.len() {
            self.collectors[cell].output.read()
        } else {
            None
        }
    }
}

/// The channels and nodes of a program.
#[derive(Debug, PartialEq, Eq)]
pub struct Graph {
    /// The element type of each channel, by the channel's number.
    pub channels: Vec<ElemType>,
    /// The source nodes, in the order of registration.
    pub generators: Vec<GeneratorContext>,
    /// The collecting nodes, in the order of registration.
    pub collectors: Vec<CollectorContext>,
}

impl View for Graph {
    type V = GraphView;

    open spec fn view(&self) -> GraphView {
        GraphView {
            channels: self.channels@,
            generators: views(self.generators@),
            collectors: views(self.collectors@),
        }
    }
}

/// The view of each delivery, in the same order.
pub open spec fn delivery_views(delivered: Seq<Option<Values>>) -> Seq<Option<ValuesView>> {
    Seq::new(delivered.len(), |j: int| delivery_view(delivered[j]))
}

/// The view of what one channel handed over.
pub open spec fn delivery_view(delivered: Option<Values>) -> Option<ValuesView> {
    match delivered {
        Some(items) => Some(items@),
        None => None,
    }
}

impl Graph {
    /// Whether the graph has a channel `channel` for elements of type
    /// `elem`.
    pub fn offers(&self, channel: usize, elem: ElemType) -> (offered: bool)
        ensures
            offered == self@.offers(channel, elem),
    {
        channel < self.channels.len() && self.channels[channel] == elem
    }

    /// Whether a collector of the graph consumes channel `channel`.
    pub fn collects(&self, channel: usize) -> (collected: bool)
        ensures
            collected == self@.collects(channel),
    {
        let mut j: usize = 0;
        while j < self.collectors.len()
            invariant
                j <= self.collectors.len(),
                forall|k: int|
                    0 <= k < j ==> (#[trigger] self.collectors[k]).rcv.channel != channel,
            decreases self.collectors.len() - j,
        {
            if self.collectors[j].rcv.channel == channel {
                assert(self@.collectors[j as int].rcv.channel == channel);
                return true;
            }
            j += 1;
        }
        assert forall|k: int| 0 <= k < self@.collectors.len() implies (
        #[trigger] self@.collectors[k]).rcv.channel != channel by {
            assert(self.collectors[k].rcv.channel != channel);
        }
        false
    }

    /// Runs each collector on what its channel handed over: `delivered`
    /// holds the deliveries by the collectors' places.
    pub fn run_collectors(&mut self, delivered: &Vec<Option<Values>>)
        ensures
            final(self)@ == old(self)@.executed(delivery_views(delivered@)),
    {
        let count = self.collectors.len();
        let mut j: usize = 0;
        while j < count && j < delivered.len()
            invariant
                j <= count,
                j <= delivered.len(),
                count == old(self).collectors.len(),
                self.collectors.len() == count,
                self.channels == old(self).channels,
                self.generators == old(self).generators,
                forall|k: int|
                    0 <= k < j ==> (#[trigger] self.collectors[k])@ == old(self).collectors[k]@.ran(
                        delivery_view(delivered[k]),
                    ),
                forall|k: int|
                    j <= k < count ==> #[trigger] self.collectors[k] == old(self).collectors[k],
            decreases count - j,
        {
            self.collectors[j].run(&delivered[j]);
            j += 1;
        }
        assert(final(self)@.collectors =~= old(self)@.executed(
            delivery_views(delivered@),
        ).collectors);
    }

    /// Reads result cell `cell`. The reader gets a copy of the cell's
    /// values; a poisoned cell, or a number that names no cell, gives
    /// `None`.
    pub fn read(&self, cell: usize) -> (values: Option<Values>)
        ensures
            delivery_view(values) == self@.read(cell as int),
    {
        if cell < self.collectors.len() {
            self.collectors[cell].output.read()
        } else {
            None
        }
    }
}

/// A run keeps a graph well formed: it changes no channel and no source,
/// and leaves every cell its element type.
pub proof fn running_keeps_well_formedness(graph: GraphView, delivered: Seq<Option<ValuesView>>)
    requires
        graph.well_formed(),
    ensures
        graph.executed(delivered).well_formed(),
{
    let done = graph.executed(delivered);
    assert forall|j: int| 0 <= j < done.collectors.len() implies (
    #[trigger] done.collectors[j]).rcv == graph.collectors[j].rcv
        && done.collectors[j].output.values.elem_type()
        == graph.collectors[j].output.values.elem_type() by {}
    assert forall|j: int| 0 <= j < done.collectors.len() implies done.offers(
        (#[trigger] done.collectors[j]).rcv.channel,
        done.collectors[j].output.values.elem_type(),
    ) by {
        assert(graph.offers(
            graph.collectors[j].rcv.channel,
            graph.collectors[j].output.values.elem_type(),
        ));
    }
}

/// Accumulates the channels and nodes of a program until it is initialised.
#[derive(Debug, PartialEq, Eq)]
pub struct ProgramBuilder {
    graph: Graph,
}

impl View for ProgramBuilder {
    type V = GraphView;

    closed spec fn view(&self) -> GraphView {
        self.graph@
    }
}

impl ProgramBuilder {
    /// A builder with no channel and no node.
    pub fn new() -> (builder: ProgramBuilder)
        ensures
            builder@ == GraphView::empty(),
    {
        let builder = ProgramBuilder {
            graph: Graph { channels: Vec::new(), generators: Vec::new(), collectors: Vec::new() },
        };
        assert(builder@.generators =~= Seq::empty());
        assert(builder@.collectors =~= Seq::empty());
        builder
    }

    /// Makes a channel without a capacity bound for elements of type `elem`
    /// and hands out its two ends. The channel takes the next free number.
    pub fn unbounded(&mut self, elem: ElemType) -> (ends: (Sender, Receiver))
        ensures
            final(self)@ == old(self)@.with_channel(elem),
            ends.0.channel == old(self)@.channels.len(),
            ends.1.channel == old(self)@.channels.len(),
    {
        let channel = self.graph.channels.len();
        self.graph.channels.push(elem);
        (Sender { channel }, Receiver { channel })
    }

    /// Registers a source node.
    pub fn add_generator(&mut self, node: GeneratorContext)
        ensures
            final(self)@ == old(self)@.with_generator(node@),
    {
        self.graph.generators.push(node);
        assert(final(self)@.generators =~= old(self)@.generators.push(node@));
    }

    /// Registers a collecting node and hands out the means to read its
    /// result cell, which is known by the node's place among the collectors.
    pub fn add_collector(&mut self, node: CollectorContext) -> (extractor: Extractor)
        ensures
            final(self)@ == old(self)@.with_collector(node@),
            extractor.cell == old(self)@.collectors.len(),
    {
        let cell = self.graph.collectors.len();
        self.graph.collectors.push(node);
        assert(final(self)@.collectors =~= old(self)@.collectors.push(node@));
        Extractor { cell }
    }

    /// The numbers of the builder's channels and nodes fit the machine.
    pub proof fn fits(&self)
        ensures
            self@.channels.len() <= usize::MAX,
            self@.generators.len() <= usize::MAX,
            self@.collectors.len() <= usize::MAX,
    {
        assert(self.graph.channels.len() == self@.channels.len());
        assert(self.graph.generators.len() == self@.generators.len());
        assert(self.graph.collectors.len() == self@.collectors.len());
    }

    /// What has been registered so far.
    pub fn graph(&self) -> (graph: &Graph)
        ensures
            graph@ == self@,
    {
        &self.graph
    }

    /// Gives up the builder for the graph that it has accumulated.
    pub fn into_graph(self) -> (graph: Graph)
        ensures
            graph@ == self@,
    {
        self.graph
    }
}

} // verus!
