use litert::bindings::{
    Listing, LiteRtLayout, LiteRtRankedTensorType, LiteRtStatus_kLiteRtStatusErrorInvalidArgument,
    LiteRtStatus_kLiteRtStatusOk, LiteRtUnrankedTensorType, Reply,
};
use litert::compiled_model::{BufferCreation, BufferPlan, CreationEvent, CreationStep};
use litert::model::{InputOutputNamesIteratorKind, Signature, Subgraph, Tensor};
use litert::access::{copy_bytes, AccessEvent, AccessStep, TensorBufferAccess};
use litert::tensor_buffer::{HostType, LockMode, ManagedBufferRequest};
use litert::{
    CompiledModel, ElementType, Environment, EnvironmentBuilder, Error, ErrorCause,
    LiteRtHwAccelerator, Model, Options, TensorBuffer, TensorBufferRequirements, TensorBufferType,
};

fn ok<T>(value: T) -> Reply<T> {
    Reply::new(LiteRtStatus_kLiteRtStatusOk, value)
}

fn failed<T>(status: u32, value: T) -> Reply<T> {
    Reply::new(status, value)
}

fn c_str(text: &str) -> Option<Vec<u8>> {
    Some(text.as_bytes().to_vec())
}

fn ranked(element_type: u32, elements: i32) -> LiteRtRankedTensorType {
    let mut dimensions = [0i32; 8];
    dimensions[0] = elements;
    LiteRtRankedTensorType {
        element_type,
        layout: LiteRtLayout { rank: 1, has_strides: false, dimensions, strides: [0; 8] },
    }
}

fn tensor(raw: usize, name: &str, element_type: u32, elements: i32) -> Tensor {
    Tensor::new(
        raw,
        ok(0),
        failed(1, LiteRtUnrankedTensorType { element_type: 0 }),
        ok(ranked(element_type, elements)),
        ok(c_str(name)),
    )
}

fn no_tensor() -> Tensor {
    Tensor::new(
        0,
        failed(1, 0),
        failed(1, LiteRtUnrankedTensorType { element_type: 0 }),
        failed(1, ranked(0, 0)),
        failed(1, None),
    )
}

fn listing<T>(items: Vec<Reply<T>>, beyond: T) -> Listing<T> {
    Listing::new(items, failed(1000, beyond))
}

fn no_subgraph() -> Subgraph {
    Subgraph::new(0, failed(1, 0), failed(1, 0), listing(vec![], no_tensor()), listing(vec![], no_tensor()))
}

fn no_signature() -> Signature {
    Signature::new(
        0,
        failed(1, None),
        failed(1, no_subgraph()),
        failed(1, 0),
        failed(1, 0),
        listing(vec![], None),
        listing(vec![], None),
    )
}

/// A signature whose inputs and outputs are the given tensors, under their
/// own names and in their own order.
fn signature(inputs: Vec<Tensor>, outputs: Vec<Tensor>) -> Signature {
    let input_names = inputs.iter().map(|t| ok(t.name.value.clone())).collect();
    let output_names = outputs.iter().map(|t| ok(t.name.value.clone())).collect();
    let graph = Subgraph::new(
        0x200,
        ok(inputs.len()),
        ok(outputs.len()),
        listing(inputs.iter().cloned().map(ok).collect(), no_tensor()),
        listing(outputs.iter().cloned().map(ok).collect(), no_tensor()),
    );
    Signature::new(
        0x100,
        ok(c_str("serving_default")),
        ok(graph),
        ok(inputs.len()),
        ok(outputs.len()),
        listing(input_names, None),
        listing(output_names, None),
    )
}

fn model(signatures: Vec<Signature>) -> Model {
    Model {
        raw_model: 0x10,
        num_subgraphs: ok(signatures.len()),
        num_signatures: ok(signatures.len()),
        signatures: listing(signatures.into_iter().map(ok).collect(), no_signature()),
    }
}

fn environment() -> Environment {
    EnvironmentBuilder::build_default(ok(0xe0)).unwrap()
}

fn compiled(environment: &Environment, model: &Model) -> CompiledModel {
    let options = Options::create_with_accelerator(LiteRtHwAccelerator::Cpu, ok(0x0f), 0).unwrap();
    CompiledModel::create(environment, model, &options, ok(0xc0)).unwrap()
}

fn requirements(size: usize, types: &[u32]) -> TensorBufferRequirements {
    TensorBufferRequirements::new(
        0x50,
        ok(size),
        ok(types.len() as i32),
        listing(types.iter().map(|t| ok(*t)).collect(), 0),
    )
}

#[test]
fn accelerators_have_the_numbers_of_the_engine() {
    assert_eq!(LiteRtHwAccelerator::NoAccelerator.to_c_enum(), 0);
    assert_eq!(LiteRtHwAccelerator::Cpu.to_c_enum(), 1);
    assert_eq!(LiteRtHwAccelerator::Gpu.to_c_enum(), 2);
    assert_eq!(LiteRtHwAccelerator::Npu.to_c_enum(), 4);
}

#[test]
fn default_options_choose_no_accelerator() {
    let options = Options::default(ok(0x0f)).unwrap();
    assert_eq!(options.raw_options(), 0x0f);
    assert_eq!(options.accelerator(), None);
    match Options::default(failed(2, 0)) {
        Ok(_) => panic!("the engine refused"),
        Err(error) => assert_eq!(error, Error::new(ErrorCause::CreateOptions, 2)),
    }
}

#[test]
fn options_with_an_accelerator_need_both_calls() {
    let options = Options::create_with_accelerator(LiteRtHwAccelerator::Gpu, ok(0x0f), 0).unwrap();
    assert_eq!(options.raw_options(), 0x0f);
    assert_eq!(options.accelerator(), Some(LiteRtHwAccelerator::Gpu));
    match Options::create_with_accelerator(LiteRtHwAccelerator::Gpu, failed(2, 0), 5) {
        Ok(_) => panic!("the engine refused"),
        Err(error) => assert_eq!(error, Error::new(ErrorCause::CreateOptions, 2)),
    }
    match Options::create_with_accelerator(LiteRtHwAccelerator::Npu, ok(0x0f), 5) {
        Ok(_) => panic!("the engine refused"),
        Err(error) => assert_eq!(error, Error::new(ErrorCause::SetOptionsHardwareAccelerators, 5)),
    }
}

#[test]
fn a_compiled_model_is_what_the_compile_call_gave() {
    let e = environment();
    let m = model(vec![]);
    let options = Options::default(ok(0x0f)).unwrap();
    let c = CompiledModel::create(&e, &m, &options, ok(0xc0)).unwrap();
    assert_eq!(c.raw_compiled_model(), 0xc0);
    match CompiledModel::create(&e, &m, &options, failed(504, 0)) {
        Ok(_) => panic!("the engine refused"),
        Err(error) => assert_eq!(error, Error::new(ErrorCause::CreateCompiledModel, 504)),
    }
}

#[test]
fn a_plan_takes_the_first_supported_kind() {
    let t = tensor(1, "x", 1, 4);
    let plan = CompiledModel::create_buffer_impl(0xe0, &requirements(16, &[10, 1, 2]), &t);
    assert_eq!(
        plan,
        Ok(BufferPlan {
            request: ManagedBufferRequest {
                environment: 0xe0,
                buffer_type: 10,
                tensor_type: ranked(1, 4),
                buffer_size: 16,
            },
            element_type: ElementType::Float32,
        })
    );
}

#[test]
fn a_plan_without_supported_kind_is_refused() {
    let t = tensor(1, "x", 1, 4);
    assert_eq!(
        CompiledModel::create_buffer_impl(0xe0, &requirements(16, &[]), &t),
        Err(Error::new(
            ErrorCause::InputDoesntSupportAnyTensorBufferTypes,
            LiteRtStatus_kLiteRtStatusErrorInvalidArgument
        ))
    );
}

#[test]
fn a_plan_fails_with_the_first_failure_on_its_way() {
    let t = tensor(1, "x", 1, 4);
    let mut no_count = requirements(16, &[1]);
    no_count.num_supported_types = failed(3, 1);
    no_count.buffer_size = failed(4, 16);
    assert_eq!(
        CompiledModel::create_buffer_impl(0xe0, &no_count, &t),
        Err(Error::new(ErrorCause::GetNumTensorBufferRequirementsSupportedBufferTypes, 3))
    );
    let mut no_size = requirements(16, &[1]);
    no_size.buffer_size = failed(4, 16);
    assert_eq!(
        CompiledModel::create_buffer_impl(0xe0, &no_size, &t),
        Err(Error::new(ErrorCause::GetTensorBufferRequirementsBufferSize, 4))
    );
    let mut unranked = tensor(1, "x", 1, 4);
    unranked.ranked_tensor_type = failed(5, ranked(1, 4));
    assert_eq!(
        CompiledModel::create_buffer_impl(0xe0, &no_size, &unranked),
        Err(Error::new(ErrorCause::GetRankedTensorType, 5))
    );
    let bad_element = tensor(1, "x", 99, 4);
    assert_eq!(
        CompiledModel::create_buffer_impl(0xe0, &no_size, &bad_element),
        Err(Error::new(ErrorCause::InvalidElementTypeEnumValue, 1))
    );
}

#[test]
fn a_buffer_request_names_environment_kind_type_and_size() {
    let e = environment();
    let request = TensorBuffer::request(&e, &ranked(2, 3), &TensorBufferType::Ahwb, 12);
    assert_eq!(
        request,
        ManagedBufferRequest { environment: 0xe0, buffer_type: 2, tensor_type: ranked(2, 3), buffer_size: 12 }
    );
}

/// The engine of these tests: it answers the calls for requirements from a
/// table, allocates buffers of zeros, and keeps their memory.
struct Fake {
    input_requirements: Vec<Reply<TensorBufferRequirements>>,
    output_requirements: Vec<Reply<TensorBufferRequirements>>,
    allocation_status: Vec<u32>,
    buffers: Vec<Vec<u8>>,
    requests: Vec<ManagedBufferRequest>,
    locked: Vec<bool>,
    unlocks: usize,
}

impl Fake {
    fn new(inputs: Vec<Reply<TensorBufferRequirements>>, outputs: Vec<Reply<TensorBufferRequirements>>) -> Fake {
        Fake {
            input_requirements: inputs,
            output_requirements: outputs,
            allocation_status: Vec::new(),
            buffers: Vec::new(),
            requests: Vec::new(),
            locked: Vec::new(),
            unlocks: 0,
        }
    }

    fn allocate(&mut self, request: ManagedBufferRequest) -> Reply<usize> {
        let status = self.allocation_status.get(self.requests.len()).copied().unwrap_or(0);
        self.requests.push(request);
        if status != 0 {
            return Reply::new(status, 0);
        }
        self.buffers.push(vec![0; request.buffer_size]);
        self.locked.push(false);
        ok(0x7000 + self.buffers.len() - 1)
    }
}

/// Performs the steps of a buffer creation on the fake engine.
fn create(mut creation: BufferCreation, engine: &mut Fake) -> Result<Vec<TensorBuffer>, Error> {
    assert_eq!(creation.compiled_model(), 0xc0);
    loop {
        let event = match creation.step() {
            CreationStep::Requirements { signature_index, position } => {
                assert_eq!(signature_index, 0);
                let table = match creation.direction() {
                    InputOutputNamesIteratorKind::Input => &engine.input_requirements,
                    InputOutputNamesIteratorKind::Output => &engine.output_requirements,
                };
                CreationEvent::Requirements(table[position].clone())
            }
            CreationStep::Allocate(request) => CreationEvent::Allocated(engine.allocate(request)),
            CreationStep::Done(_) => return creation.into_result().unwrap(),
        };
        creation = creation.advance(event);
    }
}

/// Performs the steps of an access on the fake engine.
fn perform(mut access: TensorBufferAccess, engine: &mut Fake, host: &mut [u8], mode: LockMode) -> Result<usize, Error> {
    let at = access.buffer() - 0x7000;
    loop {
        match access.step() {
            AccessStep::Lock(asked) => {
                assert_eq!(asked, mode);
                assert!(!engine.locked[at]);
                engine.locked[at] = true;
                access.advance(AccessEvent::Locked(0));
            }
            AccessStep::PackedSize => access.advance(AccessEvent::Sized(ok(engine.buffers[at].len()))),
            AccessStep::Copy(bytes) => {
                assert!(engine.locked[at]);
                match mode {
                    LockMode::Write => copy_bytes(&mut engine.buffers[at], host, bytes),
                    LockMode::Read => copy_bytes(host, &engine.buffers[at], bytes),
                }
                access.advance(AccessEvent::Copied);
            }
            AccessStep::Unlock => {
                assert!(engine.locked[at]);
                engine.locked[at] = false;
                engine.unlocks += 1;
                access.advance(AccessEvent::Unlocked);
            }
            AccessStep::Done(result) => return result,
        }
    }
}

#[test]
fn one_float_input_and_output_end_to_end() {
    const K: usize = 6;
    let m = model(vec![signature(
        vec![tensor(0x300, "image", 1, K as i32)],
        vec![tensor(0x400, "mask", 1, K as i32)],
    )]);
    let e = environment();
    let c = compiled(&e, &m);
    let mut engine = Fake::new(vec![ok(requirements(4 * K, &[1]))], vec![ok(requirements(4 * K, &[1, 2]))]);

    let inputs = create(c.create_input_tensor_buffers(&e, &m, 0).unwrap(), &mut engine).unwrap();
    assert_eq!(inputs.len(), 1);
    assert_eq!(inputs[0].element_type(), ElementType::Float32);
    assert_eq!(engine.buffers[inputs[0].raw_tensor_buffer() - 0x7000].len(), 4 * K);
    assert_eq!(
        engine.requests[0],
        ManagedBufferRequest { environment: 0xe0, buffer_type: 1, tensor_type: ranked(1, K as i32), buffer_size: 4 * K }
    );
    let outputs = create(c.create_output_tensor_buffers(&e, &m, 0).unwrap(), &mut engine).unwrap();
    assert_eq!(outputs.len(), 1);
    assert_eq!(outputs[0].element_type(), ElementType::Float32);

    let values = [0.0f32, 1.0, -1.5, 2.25, 1e-3, 1e9];
    let mut data: Vec<u8> = values.iter().flat_map(|v| v.to_ne_bytes()).collect();
    let written = perform(inputs[0].write(HostType::F32, data.len()), &mut engine, &mut data, LockMode::Write);
    assert_eq!(written, Ok(4 * K));

    let call = c.run(0, &inputs, &outputs);
    assert_eq!(call.compiled_model, 0xc0);
    assert_eq!(call.signature_index, 0);
    assert_eq!(call.inputs, vec![0x7000]);
    assert_eq!(call.outputs, vec![0x7001]);
    // The model of this engine doubles each element and adds one.
    let input: Vec<f32> =
        engine.buffers[0].chunks(4).map(|c| f32::from_ne_bytes([c[0], c[1], c[2], c[3]])).collect();
    engine.buffers[1] = input.iter().flat_map(|v| (2.0 * v + 1.0).to_ne_bytes()).collect();
    assert_eq!(call.finish(0), Ok(()));

    let mut destination = vec![0u8; 4 * K];
    let read = perform(outputs[0].read(HostType::F32, destination.len()), &mut engine, &mut destination, LockMode::Read);
    assert_eq!(read, Ok(K));
    let output: Vec<f32> =
        destination.chunks(4).map(|c| f32::from_ne_bytes([c[0], c[1], c[2], c[3]])).collect();
    assert_eq!(output, vec![1.0f32, 3.0, -2.0, 5.5, 1.002, 2000000001.0]);
    assert_eq!(engine.unlocks, 2);
    assert_eq!(engine.locked, vec![false, false]);
}

#[test]
fn buffers_come_in_the_order_of_the_names() {
    let a = tensor(0x300, "a", 9, 8);
    let b = tensor(0x301, "b", 2, 2);
    let mut s = signature(vec![a.clone(), b.clone()], vec![]);
    // The names of the signature go their own way through the subgraph.
    s.input_names = listing(vec![ok(c_str("b")), ok(c_str("a"))], None);
    let m = model(vec![s]);
    let e = environment();
    let c = compiled(&e, &m);
    let mut engine = Fake::new(vec![ok(requirements(8, &[1])), ok(requirements(64, &[3]))], vec![]);
    let buffers = create(c.create_input_tensor_buffers(&e, &m, 0).unwrap(), &mut engine).unwrap();
    assert_eq!(buffers.len(), 2);
    assert_eq!(buffers[0].element_type(), ElementType::Int32);
    assert_eq!(buffers[1].element_type(), ElementType::Int8);
    assert_eq!(engine.requests[0].buffer_size, 8);
    assert_eq!(engine.requests[0].tensor_type, ranked(2, 2));
    assert_eq!(engine.requests[1].buffer_size, 64);
    assert_eq!(engine.requests[1].buffer_type, 3);
    assert_eq!(c.run(0, &buffers, &Vec::new()).inputs, vec![0x7000, 0x7001]);
}

#[test]
fn a_signature_without_outputs_needs_no_step() {
    let m = model(vec![signature(vec![tensor(0x300, "a", 1, 1)], vec![])]);
    let e = environment();
    let c = compiled(&e, &m);
    let creation = c.create_output_tensor_buffers(&e, &m, 0).unwrap();
    assert_eq!(creation.step(), CreationStep::Done(Ok(())));
    assert_eq!(creation.into_result().map(|r| r.map(|b| b.len())), Some(Ok(0)));
}

#[test]
fn a_creation_that_is_not_over_has_no_result() {
    let m = model(vec![signature(vec![tensor(0x300, "a", 1, 1)], vec![])]);
    let e = environment();
    let c = compiled(&e, &m);
    let creation = c.create_input_tensor_buffers(&e, &m, 0).unwrap();
    assert_eq!(creation.step(), CreationStep::Requirements { signature_index: 0, position: 0 });
    // A report out of turn changes nothing.
    let creation = creation.advance(CreationEvent::Allocated(ok(1)));
    assert_eq!(creation.step(), CreationStep::Requirements { signature_index: 0, position: 0 });
    assert!(creation.into_result().is_none());
}

#[test]
fn the_prelude_of_a_creation_fails_with_its_causes() {
    let e = environment();
    let good = model(vec![signature(vec![], vec![])]);
    let c = compiled(&e, &good);
    assert!(matches!(
        c.create_input_tensor_buffers(&e, &good, 1),
        Err(error) if error == Error::new(ErrorCause::GetModelSignature, 1000)
    ));
    let mut s = signature(vec![], vec![]);
    s.subgraph = failed(3, no_subgraph());
    let m = model(vec![s]);
    assert!(matches!(
        c.create_output_tensor_buffers(&e, &m, 0),
        Err(error) if error == Error::new(ErrorCause::GetSignatureSubgraph, 3)
    ));
    let mut s = signature(vec![], vec![]);
    s.num_inputs = failed(4, 0);
    s.num_outputs = failed(5, 0);
    let m = model(vec![s]);
    assert!(matches!(
        c.create_input_tensor_buffers(&e, &m, 0),
        Err(error) if error == Error::new(ErrorCause::GetNumSignatureInputs, 4)
    ));
    assert!(matches!(
        c.create_output_tensor_buffers(&e, &m, 0),
        Err(error) if error == Error::new(ErrorCause::GetNumSignatureOutputs, 5)
    ));
}

#[test]
fn the_first_failure_ends_a_creation() {
    let inputs = vec![tensor(0x300, "a", 1, 1), tensor(0x301, "b", 1, 1)];
    let e = environment();

    // The requirements of the second position cannot be had.
    let m = model(vec![signature(inputs.clone(), inputs.clone())]);
    let c = compiled(&e, &m);
    let mut engine = Fake::new(
        vec![ok(requirements(4, &[1])), failed(3, requirements(4, &[1]))],
        vec![failed(6, requirements(4, &[1]))],
    );
    assert_eq!(
        create(c.create_input_tensor_buffers(&e, &m, 0).unwrap(), &mut engine).map(|b| b.len()),
        Err(Error::new(ErrorCause::GetCompiledModelInputBufferRequirements, 3))
    );
    assert_eq!(engine.requests.len(), 1);
    assert_eq!(
        create(c.create_output_tensor_buffers(&e, &m, 0).unwrap(), &mut engine).map(|b| b.len()),
        Err(Error::new(ErrorCause::GetCompiledModelOutputBufferRequirements, 6))
    );
    assert_eq!(engine.requests.len(), 1);

    // The second allocation fails.
    let mut engine = Fake::new(vec![ok(requirements(4, &[1])), ok(requirements(4, &[1]))], vec![]);
    engine.allocation_status = vec![0, 2];
    assert_eq!(
        create(c.create_input_tensor_buffers(&e, &m, 0).unwrap(), &mut engine).map(|b| b.len()),
        Err(Error::new(ErrorCause::CreateManagedTensorBuffer, 2))
    );
    assert_eq!(engine.requests.len(), 2);

    // A name of the signature that the subgraph does not know.
    let mut s = signature(inputs.clone(), vec![]);
    s.input_names = listing(vec![ok(c_str("a")), ok(c_str("z"))], None);
    let m = model(vec![s]);
    let mut engine = Fake::new(vec![ok(requirements(4, &[1])), ok(requirements(4, &[1]))], vec![]);
    assert_eq!(
        create(c.create_input_tensor_buffers(&e, &m, 0).unwrap(), &mut engine).map(|b| b.len()),
        Err(Error::new(ErrorCause::SubgraphInputTensorByNameNotFound, 1))
    );

    // A name that cannot be had; the requirements are asked for first.
    let mut s = signature(inputs.clone(), vec![]);
    s.input_names = listing(vec![failed(7, None), ok(c_str("b"))], None);
    let m = model(vec![s]);
    let mut engine = Fake::new(vec![ok(requirements(4, &[1])), ok(requirements(4, &[1]))], vec![]);
    assert_eq!(
        create(c.create_input_tensor_buffers(&e, &m, 0).unwrap(), &mut engine).map(|b| b.len()),
        Err(Error::new(ErrorCause::GetSignatureInputName, 7))
    );
    let mut engine = Fake::new(vec![failed(3, requirements(4, &[1]))], vec![]);
    assert_eq!(
        create(c.create_input_tensor_buffers(&e, &m, 0).unwrap(), &mut engine).map(|b| b.len()),
        Err(Error::new(ErrorCause::GetCompiledModelInputBufferRequirements, 3))
    );
    let mut s = signature(vec![], inputs.clone());
    s.output_names = listing(vec![failed(8, None), ok(c_str("b"))], None);
    let m = model(vec![s]);
    let mut engine = Fake::new(vec![], vec![ok(requirements(4, &[1])), ok(requirements(4, &[1]))]);
    assert_eq!(
        create(c.create_output_tensor_buffers(&e, &m, 0).unwrap(), &mut engine).map(|b| b.len()),
        Err(Error::new(ErrorCause::GetSignatureOutputName, 8))
    );

    // Requirements that support no kind of storage.
    let m = model(vec![signature(inputs.clone(), vec![])]);
    let mut engine = Fake::new(vec![ok(requirements(4, &[]))], vec![]);
    assert_eq!(
        create(c.create_input_tensor_buffers(&e, &m, 0).unwrap(), &mut engine).map(|b| b.len()),
        Err(Error::new(ErrorCause::InputDoesntSupportAnyTensorBufferTypes, 1))
    );
    assert!(engine.requests.is_empty());
}

#[test]
fn a_failed_run_is_passed_on_as_it_is() {
    let e = environment();
    let m = model(vec![]);
    let c = compiled(&e, &m);
    let call = c.run(3, &Vec::new(), &Vec::new());
    assert_eq!(call.signature_index, 3);
    assert!(call.inputs.is_empty());
    assert!(call.outputs.is_empty());
    assert_eq!(call.finish(100), Err(Error::new(ErrorCause::RunCompiledModel, 100)));
    assert_eq!(call.finish(0), Ok(()));
}
