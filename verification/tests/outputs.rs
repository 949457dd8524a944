use hoppy::elem::{ElemType, Values};
use hoppy::engine::{EngineReport, Execution};
use hoppy::graph::{Graph, Receiver};
use hoppy::host::{HostObject, ValueCollection};
use hoppy::program::{Program, ProgramError, StateKind};
use hoppy::stream::{Extractor, HopStream, Stream, StreamEnum};

fn int_collection(values: Vec<i64>) -> ValueCollection {
    ValueCollection { as_ints: Some(values), as_floats: None }
}

fn float_collection(values: Vec<f64>) -> ValueCollection {
    ValueCollection { as_ints: None, as_floats: Some(bits(values)) }
}

fn bits(values: Vec<f64>) -> Vec<u64> {
    values.into_iter().map(f64::to_bits).collect()
}

fn numbers(values: &Values) -> Vec<f64> {
    match values {
        Values::Float(items) => items.iter().map(|item| f64::from_bits(*item)).collect(),
        Values::Int(_) => panic!("the values are integers"),
    }
}

/// An engine that keeps its word: every collector gets what the source on
/// its channel replays.
fn engine(graph: &Graph, elapsed_cycles: Option<u64>) -> EngineReport {
    let delivered = graph
        .collectors
        .iter()
        .map(|collector| {
            graph
                .generators
                .iter()
                .find(|generator| generator.snd.channel == collector.rcv.channel)
                .map(|generator| generator.values.duplicate())
        })
        .collect();
    EngineReport { initialization: Ok(()), execution: Execution { elapsed_cycles, delivered } }
}

fn run(program: &mut Program, outputs: &mut Vec<HostObject>) -> Vec<Option<Values>> {
    let extractors = program.stage_outputs(outputs).unwrap();
    let report = engine(program.state().graph().unwrap(), Some(1));
    program.run(&extractors, false, report).unwrap().outputs
}

#[test]
fn an_integer_constant_comes_back_as_it_went_in() {
    let sequence = vec![3, -1, 4, -1, 5, i64::MAX, i64::MIN, 0];
    let mut program = Program::new();
    let handle = program.constant(int_collection(sequence.clone())).unwrap();
    assert_eq!(handle.stream, StreamEnum::Int(Stream::Receiver(Receiver { channel: 0 })));
    let mut outputs = vec![HostObject::Stream(handle)];
    let collected = run(&mut program, &mut outputs);
    assert_eq!(collected, vec![Some(Values::Int(sequence))]);
}

#[test]
fn a_float_constant_comes_back_as_it_went_in() {
    let sequence = vec![1.5, -0.0, 2.5, f64::INFINITY, f64::MIN_POSITIVE];
    let mut program = Program::new();
    let handle = program.constant(float_collection(sequence.clone())).unwrap();
    assert_eq!(handle.stream, StreamEnum::Float(Stream::Receiver(Receiver { channel: 0 })));
    let mut outputs = vec![HostObject::Stream(handle)];
    let collected = run(&mut program, &mut outputs);
    assert_eq!(collected, vec![Some(Values::Float(bits(sequence.clone())))]);
    assert_eq!(numbers(collected[0].as_ref().unwrap()), sequence);
}

#[test]
fn an_empty_constant_is_an_integer_stream() {
    let mut program = Program::new();
    let both = ValueCollection { as_ints: Some(vec![]), as_floats: Some(vec![]) };
    let handle = program.constant(both).unwrap();
    assert_eq!(handle.stream, StreamEnum::Int(Stream::Receiver(Receiver { channel: 0 })));
    let mut outputs = vec![HostObject::Stream(handle)];
    assert_eq!(run(&mut program, &mut outputs), vec![Some(Values::Int(vec![]))]);
}

#[test]
fn integers_are_preferred_to_floats() {
    let mut program = Program::new();
    let both = ValueCollection {
        as_ints: Some(vec![1, 2, 3]),
        as_floats: Some(bits(vec![1.0, 2.0, 3.0])),
    };
    let handle = program.constant(both).unwrap();
    assert_eq!(handle.stream, StreamEnum::Int(Stream::Receiver(Receiver { channel: 0 })));
    let graph = program.state().graph().unwrap();
    assert_eq!(graph.channels, vec![ElemType::Int]);
    assert_eq!(graph.generators[0].values, Values::Int(vec![1, 2, 3]));
}

#[test]
fn outputs_come_in_the_order_of_the_request() {
    let mut program = Program::new();
    let h_int = program.constant(int_collection(vec![1, 2, 3])).unwrap();
    let h_float = program.constant(float_collection(vec![1.5, 2.5])).unwrap();
    let mut outputs = vec![HostObject::Stream(h_int), HostObject::Stream(h_float)];
    let collected = run(&mut program, &mut outputs);
    assert_eq!(
        collected,
        vec![Some(Values::Int(vec![1, 2, 3])), Some(Values::Float(bits(vec![1.5, 2.5])))]
    );
    assert_eq!(numbers(collected[1].as_ref().unwrap()), vec![1.5, 2.5]);
}

#[test]
fn outputs_do_not_come_in_the_order_of_registration() {
    let mut program = Program::new();
    let h_int = program.constant(int_collection(vec![1, 2, 3])).unwrap();
    let h_unused = program.constant(int_collection(vec![9, 9])).unwrap();
    let h_float = program.constant(float_collection(vec![1.5, 2.5])).unwrap();
    let mut outputs = vec![HostObject::Stream(h_float), HostObject::Stream(h_int)];
    let collected = run(&mut program, &mut outputs);
    assert_eq!(
        collected,
        vec![Some(Values::Float(bits(vec![1.5, 2.5]))), Some(Values::Int(vec![1, 2, 3]))]
    );
    assert!(h_unused.stream.live());
}

#[test]
fn staging_consumes_the_handles_and_adds_one_collector_each() {
    let mut program = Program::new();
    let first = program.constant(int_collection(vec![1])).unwrap();
    let second = program.constant(float_collection(vec![2.0])).unwrap();
    let mut outputs = vec![HostObject::Stream(second), HostObject::Stream(first)];
    let extractors = program.stage_outputs(&mut outputs).unwrap();
    assert_eq!(extractors, vec![Extractor { cell: 0 }, Extractor { cell: 1 }]);
    assert_eq!(
        outputs,
        vec![
            HostObject::Stream(HopStream { stream: StreamEnum::Float(Stream::Consumed) }),
            HostObject::Stream(HopStream { stream: StreamEnum::Int(Stream::Consumed) }),
        ]
    );
    let graph = program.state().graph().unwrap();
    assert_eq!(graph.collectors.len(), 2);
    assert_eq!(graph.collectors[0].rcv, Receiver { channel: 1 });
    assert_eq!(graph.collectors[0].output.values, Values::Float(vec![]));
    assert!(!graph.collectors[0].output.poisoned);
    assert_eq!(graph.collectors[1].rcv, Receiver { channel: 0 });
    assert_eq!(graph.collectors[1].output.values, Values::Int(vec![]));
    assert_eq!(program.state().kind(), StateKind::Building);

    let third = program.constant(int_collection(vec![3])).unwrap();
    let mut more = vec![HostObject::Stream(third)];
    assert_eq!(program.stage_outputs(&mut more).unwrap(), vec![Extractor { cell: 2 }]);
}

#[test]
fn the_same_handle_twice_is_refused_before_anything_changes() {
    let mut program = Program::new();
    let mut handle = program.constant(int_collection(vec![1, 2, 3])).unwrap();
    let first = handle.take();
    let second = handle.take();
    assert!(first.stream.live());
    assert!(!second.stream.live());
    assert!(!handle.stream.live());
    let mut outputs = vec![HostObject::Stream(first), HostObject::Stream(second)];
    assert_eq!(
        program.stage_outputs(&mut outputs),
        Err(ProgramError::HandleReuse { index: 1 })
    );
    assert_eq!(program.state().kind(), StateKind::Building);
    assert!(program.state().graph().unwrap().collectors.is_empty());
    assert_eq!(
        outputs,
        vec![
            HostObject::Stream(HopStream {
                stream: StreamEnum::Int(Stream::Receiver(Receiver { channel: 0 }))
            }),
            HostObject::Stream(HopStream { stream: StreamEnum::Int(Stream::Consumed) }),
        ]
    );
}

#[test]
fn a_handle_staged_before_is_refused_as_reuse() {
    let mut program = Program::new();
    let handle = program.constant(float_collection(vec![0.25])).unwrap();
    let mut outputs = vec![HostObject::Stream(handle)];
    program.stage_outputs(&mut outputs).unwrap();
    assert_eq!(
        program.stage_outputs(&mut outputs),
        Err(ProgramError::HandleReuse { index: 0 })
    );
    assert_eq!(program.state().graph().unwrap().collectors.len(), 1);
}

fn live(stream: StreamEnum) -> HostObject {
    HostObject::Stream(HopStream { stream })
}

fn int_on(channel: usize) -> HostObject {
    live(StreamEnum::Int(Stream::Receiver(Receiver { channel })))
}

fn float_on(channel: usize) -> HostObject {
    live(StreamEnum::Float(Stream::Receiver(Receiver { channel })))
}

#[test]
fn two_handles_on_one_channel_are_refused_as_reuse() {
    let mut program = Program::new();
    program.constant(int_collection(vec![1, 2, 3])).unwrap();
    let mut outputs = vec![int_on(0), int_on(0)];
    assert_eq!(
        program.stage_outputs(&mut outputs),
        Err(ProgramError::HandleReuse { index: 1 })
    );
    assert_eq!(outputs, vec![int_on(0), int_on(0)]);
    assert!(program.state().graph().unwrap().collectors.is_empty());
    outputs.pop();
    assert_eq!(program.stage_outputs(&mut outputs).unwrap(), vec![Extractor { cell: 0 }]);
}

#[test]
fn a_channel_that_is_collected_already_is_refused_as_reuse() {
    let mut program = Program::new();
    let handle = program.constant(float_collection(vec![1.0])).unwrap();
    program.constant(int_collection(vec![2])).unwrap();
    let mut outputs = vec![HostObject::Stream(handle)];
    program.stage_outputs(&mut outputs).unwrap();
    let mut copies = vec![int_on(1), float_on(0)];
    assert_eq!(
        program.stage_outputs(&mut copies),
        Err(ProgramError::HandleReuse { index: 1 })
    );
    assert_eq!(copies, vec![int_on(1), float_on(0)]);
    assert_eq!(program.state().graph().unwrap().collectors.len(), 1);
}

#[test]
fn a_handle_of_no_channel_of_the_program_is_a_type_mismatch() {
    let mut program = Program::new();
    program.constant(int_collection(vec![1])).unwrap();
    let mut outputs = vec![float_on(5)];
    assert_eq!(
        program.stage_outputs(&mut outputs),
        Err(ProgramError::TypeMismatch { index: 0 })
    );
    let mut outputs = vec![int_on(0), int_on(1)];
    assert_eq!(
        program.stage_outputs(&mut outputs),
        Err(ProgramError::TypeMismatch { index: 1 })
    );
    let mut empty = Program::new();
    let mut outputs = vec![int_on(0)];
    assert_eq!(empty.stage_outputs(&mut outputs), Err(ProgramError::TypeMismatch { index: 0 }));
    assert_eq!(outputs, vec![int_on(0)]);
}

#[test]
fn a_handle_of_another_element_type_is_a_type_mismatch() {
    let mut program = Program::new();
    program.constant(int_collection(vec![1])).unwrap();
    program.constant(float_collection(vec![2.0])).unwrap();
    let mut outputs = vec![float_on(0)];
    assert_eq!(
        program.stage_outputs(&mut outputs),
        Err(ProgramError::TypeMismatch { index: 0 })
    );
    let mut outputs = vec![float_on(1), int_on(1)];
    assert_eq!(
        program.stage_outputs(&mut outputs),
        Err(ProgramError::TypeMismatch { index: 1 })
    );
    assert!(program.state().graph().unwrap().collectors.is_empty());
    let mut outputs = vec![float_on(1), int_on(0)];
    assert_eq!(
        program.stage_outputs(&mut outputs).unwrap(),
        vec![Extractor { cell: 0 }, Extractor { cell: 1 }]
    );
}

#[test]
fn an_output_that_is_no_handle_is_a_type_mismatch() {
    let mut program = Program::new();
    let handle = program.constant(int_collection(vec![1])).unwrap();
    let mut outputs = vec![HostObject::Stream(handle), HostObject::Other];
    assert_eq!(
        program.stage_outputs(&mut outputs),
        Err(ProgramError::TypeMismatch { index: 1 })
    );
    assert_eq!(program.state().kind(), StateKind::Building);
    assert!(program.state().graph().unwrap().collectors.is_empty());
    match &outputs[0] {
        HostObject::Stream(handle) => assert!(handle.stream.live()),
        HostObject::Other => panic!("the first output is no handle"),
    }
}

#[test]
fn the_first_flaw_decides_the_error() {
    let mut program = Program::new();
    let mut handle = program.constant(int_collection(vec![1])).unwrap();
    let live = handle.take();
    let spent = handle.take();
    let mut outputs = vec![HostObject::Stream(spent), HostObject::Other, HostObject::Stream(live)];
    assert_eq!(
        program.stage_outputs(&mut outputs),
        Err(ProgramError::HandleReuse { index: 0 })
    );
    outputs.swap(0, 1);
    assert_eq!(
        program.stage_outputs(&mut outputs),
        Err(ProgramError::TypeMismatch { index: 0 })
    );
    outputs.swap(0, 2);
    assert_eq!(
        program.stage_outputs(&mut outputs),
        Err(ProgramError::HandleReuse { index: 1 })
    );
}

#[test]
fn reading_the_outputs_again_gives_the_same() {
    let mut program = Program::new();
    let h_int = program.constant(int_collection(vec![1, 2, 3])).unwrap();
    let h_float = program.constant(float_collection(vec![1.5])).unwrap();
    let mut outputs = vec![HostObject::Stream(h_int), HostObject::Stream(h_float)];
    let extractors = program.stage_outputs(&mut outputs).unwrap();
    let report = engine(program.state().graph().unwrap(), Some(12));
    let result = program.run(&extractors, false, report).unwrap();
    let expected =
        vec![Some(Values::Int(vec![1, 2, 3])), Some(Values::Float(bits(vec![1.5])))];
    assert_eq!(result.cycles, 12);
    assert_eq!(result.outputs, expected);
    assert_eq!(program.outputs(&extractors), expected);
    assert_eq!(program.outputs(&extractors), expected);
    assert_eq!(program.extract(&extractors[0]), Some(Values::Int(vec![1, 2, 3])));
    assert_eq!(program.extract(&extractors[0]), Some(Values::Int(vec![1, 2, 3])));
    assert_eq!(program.state().kind(), StateKind::Executed);
}

#[test]
fn a_cell_reads_as_empty_before_the_run() {
    let mut program = Program::new();
    let handle = program.constant(int_collection(vec![1, 2, 3])).unwrap();
    let mut outputs = vec![HostObject::Stream(handle)];
    let extractors = program.stage_outputs(&mut outputs).unwrap();
    assert_eq!(program.extract(&extractors[0]), Some(Values::Int(vec![])));
    assert_eq!(program.extract(&Extractor { cell: 1 }), None);
}

#[test]
fn a_failed_collector_reads_as_nothing_and_spares_the_others() {
    let mut program = Program::new();
    let first = program.constant(int_collection(vec![1, 2])).unwrap();
    let second = program.constant(int_collection(vec![3, 4])).unwrap();
    let mut outputs = vec![HostObject::Stream(first), HostObject::Stream(second)];
    let extractors = program.stage_outputs(&mut outputs).unwrap();
    let report = EngineReport {
        initialization: Ok(()),
        execution: Execution {
            elapsed_cycles: Some(5),
            delivered: vec![None, Some(Values::Int(vec![3, 4]))],
        },
    };
    let result = program.run(&extractors, false, report).unwrap();
    assert_eq!(result.cycles, 5);
    assert_eq!(result.outputs, vec![None, Some(Values::Int(vec![3, 4]))]);
    let graph = program.state().graph().unwrap();
    assert!(graph.collectors[0].output.poisoned);
    assert!(!graph.collectors[1].output.poisoned);
}

#[test]
fn a_delivery_of_another_type_poisons_the_cell() {
    let mut program = Program::new();
    let handle = program.constant(int_collection(vec![1, 2])).unwrap();
    let mut outputs = vec![HostObject::Stream(handle)];
    let extractors = program.stage_outputs(&mut outputs).unwrap();
    let report = EngineReport {
        initialization: Ok(()),
        execution: Execution {
            elapsed_cycles: None,
            delivered: vec![Some(Values::Float(bits(vec![1.0, 2.0])))],
        },
    };
    let result = program.run(&extractors, false, report).unwrap();
    assert_eq!(result.outputs, vec![None]);
}

#[test]
fn a_collector_that_the_report_does_not_reach_stays_empty() {
    let mut program = Program::new();
    let first = program.constant(int_collection(vec![1])).unwrap();
    let second = program.constant(float_collection(vec![2.0])).unwrap();
    let mut outputs = vec![HostObject::Stream(first), HostObject::Stream(second)];
    let extractors = program.stage_outputs(&mut outputs).unwrap();
    let report = EngineReport {
        initialization: Ok(()),
        execution: Execution {
            elapsed_cycles: Some(1),
            delivered: vec![Some(Values::Int(vec![1]))],
        },
    };
    let result = program.run(&extractors, false, report).unwrap();
    assert_eq!(result.outputs, vec![Some(Values::Int(vec![1])), Some(Values::Float(vec![]))]);
}

#[test]
fn deliveries_beyond_the_collectors_are_ignored() {
    let mut program = Program::new();
    let handle = program.constant(int_collection(vec![7])).unwrap();
    let mut outputs = vec![HostObject::Stream(handle)];
    let extractors = program.stage_outputs(&mut outputs).unwrap();
    let report = EngineReport {
        initialization: Ok(()),
        execution: Execution {
            elapsed_cycles: Some(1),
            delivered: vec![Some(Values::Int(vec![7])), Some(Values::Int(vec![8])), None],
        },
    };
    let result = program.run(&extractors, false, report).unwrap();
    assert_eq!(result.outputs, vec![Some(Values::Int(vec![7]))]);
    assert_eq!(program.state().graph().unwrap().collectors.len(), 1);
}

#[test]
fn an_extractor_of_no_cell_reads_as_nothing() {
    let mut program = Program::new();
    let report = EngineReport {
        initialization: Ok(()),
        execution: Execution { elapsed_cycles: Some(1), delivered: vec![] },
    };
    let strangers = vec![Extractor { cell: 0 }, Extractor { cell: usize::MAX }];
    let result = program.run(&strangers, false, report).unwrap();
    assert_eq!(result.outputs, vec![None, None]);
}
