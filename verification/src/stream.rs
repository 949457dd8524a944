//! Stream handles, and the nodes that collect a stream into a result cell.

use vstd::prelude::*;
use crate::elem::{ElemType, Values, ValuesView};
use crate::graph::{delivery_view, GeneratorContext, ProgramBuilder, Receiver};
use crate::host::ValueCollection;

verus! {

/// A stream of one element type: the consuming end of a channel, until it
/// is consumed.
#[derive(Debug, PartialEq, Eq, Structural)]
pub enum Stream {
    /// The stream still holds the consuming end of its channel.
    Receiver(Receiver),
    /// The consuming end has been taken; what is left cannot be used again.
    Consumed,
}

impl Stream {
    /// Whether the stream still holds the consuming end of its channel.
    pub open spec fn is_live(&self) -> bool {
        self is Receiver
    }
}

impl From<Receiver> for Stream {
    fn from(value: Receiver) -> (stream: Stream) {
        Stream::Receiver(value)
    }
}

impl vstd::std_specs::convert::FromSpecImpl<Receiver> for Stream {
    open spec fn obeys_from_spec() -> bool {
        true
    }

    open spec fn from_spec(value: Receiver) -> Stream {
        Stream::Receiver(value)
    }
}

/// A stream of any of the supported element types, tagged with its type.
#[derive(Debug, PartialEq, Eq, Structural)]
pub enum StreamEnum {
    /// A stream of signed 64-bit integers.
    Int(Stream),
    /// A stream of 64-bit floating point numbers.
    Float(Stream),
}

/// The handle by which a caller holds a stream.
#[derive(Debug, PartialEq, Eq, Structural)]
pub struct HopStream {
    /// The stream that the handle stands for.
    pub stream: StreamEnum,
}

impl HopStream {
    /// Moves the stream out of the handle, which is left consumed. Taking
    /// from a handle a second time gives a consumed stream.
    pub fn take(&mut self) -> (taken: HopStream)
        ensures
            taken == *old(self),
            *final(self) == (HopStream { stream: old(self).stream.spent() }),
    {
        let mut stream = match &self.stream {
            StreamEnum::Int(_) => StreamEnum::Int(Stream::Consumed),
            StreamEnum::Float(_) => StreamEnum::Float(Stream::Consumed),
        };
        std::mem::swap(&mut self.stream, &mut stream);
        HopStream { stream }
    }
}

impl StreamEnum {
    /// The stream of type `elem` that holds `stream`.
    pub open spec fn tagged(elem: ElemType, stream: Stream) -> StreamEnum {
        match elem {
            ElemType::Int => StreamEnum::Int(stream),
            ElemType::Float => StreamEnum::Float(stream),
        }
    }

    /// The element type that the stream is tagged with.
    pub open spec fn elem_type(&self) -> ElemType {
        match self {
            StreamEnum::Int(_) => ElemType::Int,
            StreamEnum::Float(_) => ElemType::Float,
        }
    }

    /// The stream without its tag.
    pub open spec fn stream(&self) -> Stream {
        match self {
            StreamEnum::Int(stream) => *stream,
            StreamEnum::Float(stream) => *stream,
        }
    }

    /// Whether the stream still holds the consuming end of its channel.
    pub open spec fn is_live(&self) -> bool {
        self.stream().is_live()
    }

    /// The stream of the same type after it has been consumed.
    pub open spec fn spent(self) -> StreamEnum {
        StreamEnum::tagged(self.elem_type(), Stream::Consumed)
    }

    /// Whether the stream still holds the consuming end of its channel.
    pub fn live(&self) -> (live: bool)
        ensures
            live == self.is_live(),
    {
        match self {
            StreamEnum::Int(Stream::Receiver(_)) => true,
            StreamEnum::Float(Stream::Receiver(_)) => true,
            _ => false,
        }
    }

    /// Makes a constant source from a host collection.
    ///
    /// The collection is taken under the first element type that it reads
    /// as, integers before floats. The builder then gets a new channel of
    /// that type and a source node that replays the values onto it, and the
    /// stream that comes back holds the channel's consuming end. A
    /// collection that reads as neither leaves the builder alone and gives
    /// `None`.
    pub fn from_constant(builder: &mut ProgramBuilder, values: ValueCollection) -> (handle: Option<
        StreamEnum,
    >)
        ensures
            match values.reading() {
                Some(v) => {
                    &&& final(builder)@ == old(builder)@.with_constant(v)
                    &&& handle == Some(
                        StreamEnum::tagged(
                            v.elem_type(),
                            Stream::Receiver(
                                Receiver { channel: old(builder)@.channels.len() as usize },
                            ),
                        ),
                    )
                },
                None => final(builder)@ == old(builder)@ && handle is None,
            },
    {
        match values.into_reading() {
            Some(v) => Some(constant_source(builder, v)),
            None => None,
        }
    }

    /// Turns the stream into a list to be read after the run.
    ///
    /// The stream gives up the consuming end of its channel, and the builder
    /// gets a collector on it, with an empty cell of the stream's type. What
    /// comes back reads that cell. A stream can be turned into a list once:
    /// a consumed one must not be passed.
    pub fn into_list(&mut self, builder: &mut ProgramBuilder) -> (extractor: Extractor)
        requires
            old(self).is_live(),
        ensures
            *final(self) == old(self).spent(),
            final(builder)@ == old(builder)@.with_collector(
                CollectorView::fresh(old(self).stream()->Receiver_0, old(self).elem_type()),
            ),
            extractor.cell == old(builder)@.collectors.len(),
    {
        match self {
            StreamEnum::Int(stream) => collect(stream, ElemType::Int, builder),
            StreamEnum::Float(stream) => collect(stream, ElemType::Float, builder),
        }
    }
}

/// Registers a channel and a source node for `values`, and wraps the
/// channel's consuming end as a stream of their type.
fn constant_source(builder: &mut ProgramBuilder, values: Values) -> (handle: StreamEnum)
    ensures
        final(builder)@ == old(builder)@.with_constant(values@),
        handle == StreamEnum::tagged(
            values@.elem_type(),
            Stream::Receiver(Receiver { channel: old(builder)@.channels.len() as usize }),
        ),
{
    let elem = values.elem_type();
    let (snd, rcv) = builder.unbounded(elem);
    builder.add_generator(GeneratorContext::new(values, snd));
    match elem {
        ElemType::Int => StreamEnum::Int(rcv.into()),
        ElemType::Float => StreamEnum::Float(rcv.into()),
    }
}

/// Takes the consuming end out of `stream` and registers a collector of
/// type `elem` on it.
fn collect(stream: &mut Stream, elem: ElemType, builder: &mut ProgramBuilder) -> (extractor:
    Extractor)
    requires
        old(stream).is_live(),
    ensures
        *final(stream) == Stream::Consumed,
        final(builder)@ == old(builder)@.with_collector(
            CollectorView::fresh(old(stream)->Receiver_0, elem),
        ),
        extractor.cell == old(builder)@.collectors.len(),
{
    let mut taken = Stream::Consumed;
    std::mem::swap(stream, &mut taken);
    match taken {
        Stream::Receiver(rcv) => builder.add_collector(CollectorContext::new(rcv, elem)),
        Stream::Consumed => vstd::pervasive::unreached(),
    }
}

/// The means to read one result cell: the callable that a stream leaves
/// behind when it is turned into a list.
#[derive(Debug, PartialEq, Eq, Structural)]
pub struct Extractor {
    /// The place of the cell's collector among the collectors of its graph.
    pub cell: usize,
}

/// The buffer that a collector fills and an extractor reads.
#[derive(Debug, PartialEq, Eq)]
pub struct ResultCell {
    /// What has been collected, in the order of arrival.
    pub values: Values,
    /// Whether the cell can no longer be read, because its writer failed
    /// while it held the cell.
    pub poisoned: bool,
}

/// The mathematical value of a [`ResultCell`].
pub ghost struct CellView {
    pub values: ValuesView,
    pub poisoned: bool,
}

impl CellView {
    /// What a reader gets: the collected values, or nothing from a poisoned
    /// cell.
    pub open spec fn read(self) -> Option<ValuesView> {
        if self.poisoned {
            None
        } else {
            Some(self.values)
        }
    }
}

impl View for ResultCell {
    type V = CellView;

    open spec fn view(&self) -> CellView {
        CellView { values: self.values@, poisoned: self.poisoned }
    }
}

impl ResultCell {
    /// Reads the cell. The reader gets a copy, and the cell stays as it is.
    /// A poisoned cell gives `None` in place of a failure.
    pub fn read(&self) -> (values: Option<Values>)
        ensures
            delivery_view(values) == self@.read(),
    {
        if self.poisoned {
            None
        } else {
            Some(self.values.duplicate())
        }
    }
}

/// A node that drains the consuming end of a channel into a result cell.
#[derive(Debug, PartialEq, Eq)]
pub struct CollectorContext {
    /// The end of the channel that is drained.
    pub rcv: Receiver,
    /// The cell that is filled.
    pub output: ResultCell,
}

/// The mathematical value of a [`CollectorContext`].
pub ghost struct CollectorView {
    pub rcv: Receiver,
    pub output: CellView,
}

impl View for CollectorContext {
    type V = CollectorView;

    open spec fn view(&self) -> CollectorView {
        CollectorView { rcv: self.rcv, output: self.output@ }
    }
}

impl CollectorView {
    /// A collector on `rcv` with an empty, readable cell for elements of
    /// type `elem`.
    pub open spec fn fresh(rcv: Receiver, elem: ElemType) -> CollectorView {
        CollectorView {
            rcv,
            output: CellView { values: ValuesView::empty(elem), poisoned: false },
        }
    }

    /// The collector after its run, where `delivered` is what its channel
    /// handed over until it closed, or `None` if the node failed.
    ///
    /// Every delivered element is appended to the cell in the order of
    /// arrival. A failed node, or a delivery of another element type than
    /// the cell's, leaves the cell's values alone and poisons it.
    pub open spec fn ran(self, delivered: Option<ValuesView>) -> CollectorView {
        match delivered {
            Some(items) => match self.output.values.concat(items) {
                Some(all) => CollectorView {
                    output: CellView { values: all, ..self.output },
                    ..self
                },
                None => CollectorView {
                    output: CellView { poisoned: true, ..self.output },
                    ..self
                },
            },
            None => CollectorView { output: CellView { poisoned: true, ..self.output }, ..self },
        }
    }
}

impl CollectorContext {
    /// A collector on `rcv` with an empty, readable cell for elements of
    /// type `elem`.
    pub fn new(rcv: Receiver, elem: ElemType) -> (node: CollectorContext)
        ensures
            node@ == CollectorView::fresh(rcv, elem),
    {
        CollectorContext {
            rcv,
            output: ResultCell { values: Values::empty(elem), poisoned: false },
        }
    }

    /// Runs the collector on what its channel handed over until it closed:
    /// each element is appended to the cell, in the order of arrival.
    /// `None` stands for a node that failed; it poisons the cell, and so
    /// does a delivery of another element type than the cell's.
    pub fn run(&mut self, delivered: &Option<Values>)
        ensures
            final(self)@ == old(self)@.ran(delivery_view(*delivered)),
    {
        match delivered {
            Some(items) => {
                let appended = self.output.values.extend(items);
                if !appended {
                    self.output.poisoned = true;
                }
            },
            None => {
                self.output.poisoned = true;
            },
        }
    }
}

} // verus!
