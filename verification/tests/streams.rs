use hoppy::elem::{append_each, ElemType, Values};
use hoppy::graph::{GeneratorContext, ProgramBuilder, Receiver, Sender};
use hoppy::host::ValueCollection;
use hoppy::stream::{CollectorContext, Extractor, HopStream, ResultCell, Stream, StreamEnum};

#[test]
fn a_receiver_becomes_a_live_stream() {
    assert_eq!(Stream::from(Receiver { channel: 4 }), Stream::Receiver(Receiver { channel: 4 }));
    let stream: Stream = Receiver { channel: 0 }.into();
    assert_eq!(stream, Stream::Receiver(Receiver { channel: 0 }));
}

#[test]
fn liveness_of_streams() {
    assert!(StreamEnum::Int(Stream::Receiver(Receiver { channel: 0 })).live());
    assert!(StreamEnum::Float(Stream::Receiver(Receiver { channel: 9 })).live());
    assert!(!StreamEnum::Int(Stream::Consumed).live());
    assert!(!StreamEnum::Float(Stream::Consumed).live());
}

#[test]
fn taking_from_a_handle_leaves_it_consumed() {
    let mut handle =
        HopStream { stream: StreamEnum::Float(Stream::Receiver(Receiver { channel: 2 })) };
    let taken = handle.take();
    assert_eq!(
        taken,
        HopStream { stream: StreamEnum::Float(Stream::Receiver(Receiver { channel: 2 })) }
    );
    assert_eq!(handle, HopStream { stream: StreamEnum::Float(Stream::Consumed) });
    let again = handle.take();
    assert_eq!(again, HopStream { stream: StreamEnum::Float(Stream::Consumed) });
    assert_eq!(handle, HopStream { stream: StreamEnum::Float(Stream::Consumed) });
}

#[test]
fn the_builder_numbers_channels_in_order() {
    let mut builder = ProgramBuilder::new();
    assert_eq!(
        builder.unbounded(ElemType::Float),
        (Sender { channel: 0 }, Receiver { channel: 0 })
    );
    assert_eq!(builder.unbounded(ElemType::Int), (Sender { channel: 1 }, Receiver { channel: 1 }));
    assert_eq!(builder.graph().channels, vec![ElemType::Float, ElemType::Int]);
    assert!(builder.graph().generators.is_empty());
}

#[test]
fn the_builder_keeps_nodes_in_the_order_of_registration() {
    let mut builder = ProgramBuilder::new();
    let (snd, rcv) = builder.unbounded(ElemType::Int);
    builder.add_generator(GeneratorContext::new(Values::Int(vec![1, 2]), snd));
    let (other_snd, other_rcv) = builder.unbounded(ElemType::Float);
    builder.add_generator(GeneratorContext::new(Values::Float(vec![3]), other_snd));
    assert_eq!(
        builder.add_collector(CollectorContext::new(other_rcv, ElemType::Float)),
        Extractor { cell: 0 }
    );
    assert_eq!(
        builder.add_collector(CollectorContext::new(rcv, ElemType::Int)),
        Extractor { cell: 1 }
    );
    let graph = builder.into_graph();
    assert_eq!(graph.generators[0].values, Values::Int(vec![1, 2]));
    assert_eq!(graph.generators[1].values, Values::Float(vec![3]));
    assert_eq!(graph.collectors[0].rcv, Receiver { channel: 1 });
    assert_eq!(graph.collectors[1].rcv, Receiver { channel: 0 });
}

#[test]
fn from_constant_takes_the_first_reading() {
    let mut builder = ProgramBuilder::new();
    let ints = ValueCollection { as_ints: Some(vec![4, 5]), as_floats: Some(vec![0, 0]) };
    assert_eq!(
        StreamEnum::from_constant(&mut builder, ints),
        Some(StreamEnum::Int(Stream::Receiver(Receiver { channel: 0 })))
    );
    let floats = ValueCollection { as_ints: None, as_floats: Some(vec![2.5f64.to_bits()]) };
    assert_eq!(
        StreamEnum::from_constant(&mut builder, floats),
        Some(StreamEnum::Float(Stream::Receiver(Receiver { channel: 1 })))
    );
    let neither = ValueCollection { as_ints: None, as_floats: None };
    assert_eq!(StreamEnum::from_constant(&mut builder, neither), None);
    let graph = builder.graph();
    assert_eq!(graph.channels, vec![ElemType::Int, ElemType::Float]);
    assert_eq!(graph.generators.len(), 2);
    assert_eq!(
        graph.generators[0],
        GeneratorContext::new(Values::Int(vec![4, 5]), Sender { channel: 0 })
    );
    assert_eq!(
        graph.generators[1],
        GeneratorContext::new(Values::Float(vec![2.5f64.to_bits()]), Sender { channel: 1 })
    );
}

#[test]
fn readings_of_a_collection() {
    let both = ValueCollection { as_ints: Some(vec![1]), as_floats: Some(vec![2]) };
    assert_eq!(both.into_reading(), Some(Values::Int(vec![1])));
    let floats = ValueCollection { as_ints: None, as_floats: Some(vec![2]) };
    assert_eq!(floats.into_reading(), Some(Values::Float(vec![2])));
    let neither = ValueCollection { as_ints: None, as_floats: None };
    assert_eq!(neither.into_reading(), None);
}

#[test]
fn into_list_consumes_the_stream_and_registers_a_collector() {
    let mut builder = ProgramBuilder::new();
    let floats = ValueCollection { as_ints: None, as_floats: Some(vec![1, 2]) };
    let mut stream = StreamEnum::from_constant(&mut builder, floats).unwrap();
    let extractor = stream.into_list(&mut builder);
    assert_eq!(extractor, Extractor { cell: 0 });
    assert_eq!(stream, StreamEnum::Float(Stream::Consumed));
    let graph = builder.graph();
    assert_eq!(graph.collectors.len(), 1);
    assert_eq!(
        graph.collectors[0],
        CollectorContext::new(Receiver { channel: 0 }, ElemType::Float)
    );
    assert_eq!(graph.generators.len(), 1);
}

#[test]
fn a_new_collector_has_an_empty_readable_cell() {
    let collector = CollectorContext::new(Receiver { channel: 3 }, ElemType::Int);
    assert_eq!(collector.rcv, Receiver { channel: 3 });
    assert_eq!(collector.output, ResultCell { values: Values::Int(vec![]), poisoned: false });
    assert_eq!(collector.output.read(), Some(Values::Int(vec![])));
    let collector = CollectorContext::new(Receiver { channel: 0 }, ElemType::Float);
    assert_eq!(collector.output.read(), Some(Values::Float(vec![])));
}

#[test]
fn a_collector_appends_in_the_order_of_arrival() {
    let mut collector = CollectorContext::new(Receiver { channel: 0 }, ElemType::Int);
    collector.run(&Some(Values::Int(vec![3, 1, 2])));
    assert_eq!(collector.output.read(), Some(Values::Int(vec![3, 1, 2])));
    collector.run(&Some(Values::Int(vec![9])));
    assert_eq!(collector.output.read(), Some(Values::Int(vec![3, 1, 2, 9])));
    assert_eq!(collector.rcv, Receiver { channel: 0 });
}

#[test]
fn a_collector_that_failed_poisons_its_cell() {
    let mut collector = CollectorContext::new(Receiver { channel: 0 }, ElemType::Int);
    collector.run(&Some(Values::Int(vec![1])));
    collector.run(&None);
    assert!(collector.output.poisoned);
    assert_eq!(collector.output.values, Values::Int(vec![1]));
    assert_eq!(collector.output.read(), None);
}

#[test]
fn a_collector_does_not_mix_element_types() {
    let mut collector = CollectorContext::new(Receiver { channel: 0 }, ElemType::Float);
    collector.run(&Some(Values::Int(vec![1])));
    assert!(collector.output.poisoned);
    assert_eq!(collector.output.values, Values::Float(vec![]));
    assert_eq!(collector.output.read(), None);
}

#[test]
fn reading_a_cell_copies_it() {
    let cell = ResultCell { values: Values::Float(vec![1, 2, 3]), poisoned: false };
    assert_eq!(cell.read(), Some(Values::Float(vec![1, 2, 3])));
    assert_eq!(cell.read(), Some(Values::Float(vec![1, 2, 3])));
    assert_eq!(cell, ResultCell { values: Values::Float(vec![1, 2, 3]), poisoned: false });
    let poisoned = ResultCell { values: Values::Float(vec![1, 2, 3]), poisoned: true };
    assert_eq!(poisoned.read(), None);
}

#[test]
fn values_know_their_type_and_length() {
    assert_eq!(Values::Int(vec![1, 2]).elem_type(), ElemType::Int);
    assert_eq!(Values::Float(vec![]).elem_type(), ElemType::Float);
    assert_eq!(Values::Int(vec![1, 2]).len(), 2);
    assert_eq!(Values::Float(vec![7, 8, 9]).len(), 3);
    assert_eq!(Values::empty(ElemType::Int), Values::Int(vec![]));
    assert_eq!(Values::empty(ElemType::Float), Values::Float(vec![]));
    assert_eq!(Values::empty(ElemType::Float).len(), 0);
}

#[test]
fn values_are_duplicated_in_order() {
    let values = Values::Int(vec![5, -5, 0]);
    assert_eq!(values.duplicate(), Values::Int(vec![5, -5, 0]));
    assert_eq!(values, Values::Int(vec![5, -5, 0]));
    assert_eq!(Values::Float(vec![u64::MAX]).duplicate(), Values::Float(vec![u64::MAX]));
}

#[test]
fn values_are_extended_only_by_their_own_type() {
    let mut values = Values::Int(vec![1]);
    assert!(values.extend(&Values::Int(vec![2, 3])));
    assert_eq!(values, Values::Int(vec![1, 2, 3]));
    assert!(!values.extend(&Values::Float(vec![4])));
    assert_eq!(values, Values::Int(vec![1, 2, 3]));
    let mut floats = Values::Float(vec![]);
    assert!(floats.extend(&Values::Float(vec![4])));
    assert!(!floats.extend(&Values::Int(vec![])));
    assert_eq!(floats, Values::Float(vec![4]));
}

#[test]
fn append_each_keeps_the_order() {
    let mut buffer = vec![1u64, 2];
    append_each(&mut buffer, &vec![3, 4, 5]);
    assert_eq!(buffer, vec![1, 2, 3, 4, 5]);
    append_each(&mut buffer, &vec![]);
    assert_eq!(buffer, vec![1, 2, 3, 4, 5]);
}
