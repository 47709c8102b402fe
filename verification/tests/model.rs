use litert::bindings::{
    Listing, LiteRtLayout, LiteRtRankedTensorType, LiteRtStatus_kLiteRtStatusErrorInvalidArgument,
    LiteRtStatus_kLiteRtStatusErrorRuntimeFailure, LiteRtStatus_kLiteRtStatusOk,
    LiteRtUnrankedTensorType, Reply,
};
use litert::model::{InputOutputNamesIteratorKind, Signature, Subgraph, Tensor};
use litert::{ElementType, Error, ErrorCause, Model};

fn ok<T>(value: T) -> Reply<T> {
    Reply::new(LiteRtStatus_kLiteRtStatusOk, value)
}

fn failed<T>(status: u32, value: T) -> Reply<T> {
    Reply::new(status, value)
}

fn c_str(text: &str) -> Option<Vec<u8>> {
    Some(text.as_bytes().to_vec())
}

fn layout(dimensions: &[i32]) -> LiteRtLayout {
    let mut all = [0i32; 8];
    all[..dimensions.len()].copy_from_slice(dimensions);
    LiteRtLayout { rank: dimensions.len() as u32, has_strides: false, dimensions: all, strides: [0; 8] }
}

fn ranked(element_type: u32, dimensions: &[i32]) -> LiteRtRankedTensorType {
    LiteRtRankedTensorType { element_type, layout: layout(dimensions) }
}

/// A ranked tensor with the given name and element type.
fn tensor(raw: usize, name: &str, element_type: u32) -> Tensor {
    Tensor::new(
        raw,
        ok(0),
        failed(1, LiteRtUnrankedTensorType { element_type: 0 }),
        ok(ranked(element_type, &[1, 4])),
        ok(c_str(name)),
    )
}

/// What the engine answers of the null object.
fn no_tensor() -> Tensor {
    Tensor::new(
        0,
        failed(1, 0),
        failed(1, LiteRtUnrankedTensorType { element_type: 0 }),
        failed(1, ranked(0, &[])),
        failed(1, None),
    )
}

fn listing<T>(items: Vec<Reply<T>>, beyond: T) -> Listing<T> {
    Listing::new(items, failed(1000, beyond))
}

fn subgraph(inputs: Vec<Reply<Tensor>>, outputs: Vec<Reply<Tensor>>) -> Subgraph {
    Subgraph::new(
        0x200,
        ok(inputs.len()),
        ok(outputs.len()),
        listing(inputs, no_tensor()),
        listing(outputs, no_tensor()),
    )
}

fn no_subgraph() -> Subgraph {
    Subgraph::new(0, failed(1, 0), failed(1, 0), listing(vec![], no_tensor()), listing(vec![], no_tensor()))
}

fn signature(key: &str, inputs: &[&str], outputs: &[&str]) -> Signature {
    let graph = subgraph(
        inputs.iter().enumerate().map(|(i, n)| ok(tensor(0x300 + i, n, 1))).collect(),
        outputs.iter().enumerate().map(|(i, n)| ok(tensor(0x400 + i, n, 1))).collect(),
    );
    Signature::new(
        0x100,
        ok(c_str(key)),
        ok(graph),
        ok(inputs.len()),
        ok(outputs.len()),
        listing(inputs.iter().map(|n| ok(c_str(n))).collect(), None),
        listing(outputs.iter().map(|n| ok(c_str(n))).collect(), None),
    )
}

fn no_signature() -> Signature {
    Signature::new(
        0,
        failed(1, None),
        failed(1, no_subgraph()),
        failed(1, 0),
        failed(1, 0),
        listing(vec![], None),
        listing(vec![], None),
    )
}

fn model(signatures: Vec<Reply<Signature>>) -> Model {
    Model {
        raw_model: 0x10,
        num_subgraphs: ok(1),
        num_signatures: ok(signatures.len()),
        signatures: listing(signatures, no_signature()),
    }
}

#[test]
fn a_ranked_tensor_has_the_element_type_of_its_ranked_type() {
    let t = tensor(1, "x", 1);
    assert_eq!(t.element_type(), Ok(ElementType::Float32));
    assert_eq!(t.ranked_tensor_type(), Ok(ranked(1, &[1, 4])));
    assert_eq!(t.unranked_tensor_type(), Err(Error::new(ErrorCause::GetUnrankedTensorType, 1)));
    assert_eq!(t.name(), Ok("x"));
}

#[test]
fn an_unranked_tensor_has_the_element_type_of_its_unranked_type() {
    let t = Tensor::new(
        1,
        ok(1),
        ok(LiteRtUnrankedTensorType { element_type: 9 }),
        failed(4, ranked(1, &[])),
        ok(c_str("u")),
    );
    assert_eq!(t.element_type(), Ok(ElementType::Int8));
    assert_eq!(t.unranked_tensor_type(), Ok(LiteRtUnrankedTensorType { element_type: 9 }));
    assert_eq!(t.ranked_tensor_type(), Err(Error::new(ErrorCause::GetRankedTensorType, 4)));
}

#[test]
fn each_failure_on_the_way_to_the_element_type_has_its_cause() {
    let unranked = LiteRtUnrankedTensorType { element_type: 1 };
    let no_type_id = Tensor::new(1, failed(3, 0), ok(unranked), ok(ranked(1, &[])), ok(None));
    assert_eq!(no_type_id.element_type(), Err(Error::new(ErrorCause::GetTensorTypeId, 3)));
    let bad_type_id = Tensor::new(1, ok(2), ok(unranked), ok(ranked(1, &[])), ok(None));
    assert_eq!(
        bad_type_id.element_type(),
        Err(Error::new(ErrorCause::InvalidTensorTypeId, LiteRtStatus_kLiteRtStatusErrorInvalidArgument))
    );
    let no_ranked = Tensor::new(1, ok(0), ok(unranked), failed(5, ranked(1, &[])), ok(None));
    assert_eq!(no_ranked.element_type(), Err(Error::new(ErrorCause::GetRankedTensorType, 5)));
    let no_unranked = Tensor::new(1, ok(1), failed(6, unranked), ok(ranked(1, &[])), ok(None));
    assert_eq!(no_unranked.element_type(), Err(Error::new(ErrorCause::GetUnrankedTensorType, 6)));
    let bad_element = Tensor::new(1, ok(0), ok(unranked), ok(ranked(42, &[])), ok(None));
    assert_eq!(
        bad_element.element_type(),
        Err(Error::new(
            ErrorCause::InvalidElementTypeEnumValue,
            LiteRtStatus_kLiteRtStatusErrorInvalidArgument
        ))
    );
}

#[test]
fn a_tensor_name_is_checked_then_decoded() {
    let unranked = LiteRtUnrankedTensorType { element_type: 1 };
    let failed_call = Tensor::new(1, ok(0), ok(unranked), ok(ranked(1, &[])), failed(3, c_str("x")));
    assert_eq!(failed_call.name(), Err(Error::new(ErrorCause::GetTensorName, 3)));
    let null_name = Tensor::new(1, ok(0), ok(unranked), ok(ranked(1, &[])), ok(None));
    assert_eq!(
        null_name.name(),
        Err(Error::new(ErrorCause::InvalidStringEncoding, LiteRtStatus_kLiteRtStatusErrorRuntimeFailure))
    );
    let bad_bytes = Tensor::new(1, ok(0), ok(unranked), ok(ranked(1, &[])), ok(Some(vec![0xff])));
    assert_eq!(
        bad_bytes.name(),
        Err(Error::new(ErrorCause::InvalidStringEncoding, LiteRtStatus_kLiteRtStatusErrorRuntimeFailure))
    );
}

#[test]
fn lookup_by_name_finds_the_first_match_in_index_order() {
    let graph = subgraph(
        vec![ok(tensor(1, "a", 1)), ok(tensor(2, "b", 2)), ok(tensor(3, "b", 3)), ok(tensor(4, "c", 4))],
        vec![ok(tensor(5, "out", 1)), ok(tensor(6, "a", 9))],
    );
    assert_eq!(graph.num_inputs(), Ok(4));
    assert_eq!(graph.num_outputs(), Ok(2));
    assert_eq!(graph.input_tensor_by_name("a").map(|t| t.raw_tensor), Ok(1));
    assert_eq!(graph.input_tensor_by_name("b").map(|t| t.raw_tensor), Ok(2));
    assert_eq!(graph.input_tensor_by_name("c").map(|t| t.raw_tensor), Ok(4));
    assert_eq!(graph.output_tensor_by_name("a").map(|t| t.raw_tensor), Ok(6));
    assert_eq!(graph.output_tensor_by_name("out"), Ok(&tensor(5, "out", 1)));
}

#[test]
fn lookup_by_name_without_match_is_not_found() {
    let graph = subgraph(vec![ok(tensor(1, "a", 1))], vec![ok(tensor(5, "out", 1))]);
    assert_eq!(
        graph.input_tensor_by_name("out"),
        Err(Error::new(
            ErrorCause::SubgraphInputTensorByNameNotFound,
            LiteRtStatus_kLiteRtStatusErrorInvalidArgument
        ))
    );
    assert_eq!(
        graph.output_tensor_by_name("a"),
        Err(Error::new(
            ErrorCause::SubgraphOutputTensorByNameNotFound,
            LiteRtStatus_kLiteRtStatusErrorInvalidArgument
        ))
    );
    assert_eq!(
        subgraph(vec![], vec![]).input_tensor_by_name(""),
        Err(Error::new(ErrorCause::SubgraphInputTensorByNameNotFound, 1))
    );
}

#[test]
fn lookup_by_name_looks_only_at_the_declared_count() {
    let mut graph = subgraph(
        vec![ok(tensor(1, "a", 1)), ok(tensor(2, "b", 1))],
        vec![ok(tensor(5, "x", 1)), ok(tensor(6, "y", 1)), ok(tensor(7, "z", 1))],
    );
    graph.num_inputs = ok(1);
    assert_eq!(
        graph.input_tensor_by_name("b"),
        Err(Error::new(ErrorCause::SubgraphInputTensorByNameNotFound, 1))
    );
    // The outputs are scanned up to the number of outputs, whatever the
    // number of inputs is.
    assert_eq!(graph.output_tensor_by_name("z").map(|t| t.raw_tensor), Ok(7));
}

#[test]
fn lookup_by_name_stops_at_the_first_failure_before_a_match() {
    let graph = subgraph(
        vec![ok(tensor(1, "a", 1)), failed(3, no_tensor()), ok(tensor(3, "c", 1))],
        vec![ok(tensor(5, "x", 1)), ok(no_tensor()), ok(tensor(7, "z", 1))],
    );
    assert_eq!(graph.input_tensor_by_name("a").map(|t| t.raw_tensor), Ok(1));
    assert_eq!(graph.input_tensor_by_name("c"), Err(Error::new(ErrorCause::GetSubgraphInput, 3)));
    assert_eq!(graph.output_tensor_by_name("z"), Err(Error::new(ErrorCause::GetTensorName, 1)));
    assert_eq!(graph.input_tensor(1), Err(Error::new(ErrorCause::GetSubgraphInput, 3)));
    assert_eq!(graph.output_tensor(2).map(|t| t.raw_tensor), Ok(7));
    assert_eq!(graph.output_tensor(3), Err(Error::new(ErrorCause::GetSubgraphOutput, 1000)));
}

#[test]
fn a_failed_count_is_the_error_of_the_lookup() {
    let mut graph = subgraph(vec![ok(tensor(1, "a", 1))], vec![ok(tensor(2, "a", 1))]);
    graph.num_inputs = failed(3, 1);
    graph.num_outputs = failed(4, 1);
    assert_eq!(graph.input_tensor_by_name("a"), Err(Error::new(ErrorCause::GetNumSubgraphInputs, 3)));
    assert_eq!(graph.output_tensor_by_name("a"), Err(Error::new(ErrorCause::GetNumSubgraphOutputs, 4)));
}

#[test]
fn a_signature_gives_key_subgraph_and_counts() {
    let s = signature("serving_default", &["image"], &["mask", "score"]);
    assert_eq!(s.key(), Ok("serving_default"));
    assert_eq!(s.num_inputs(), Ok(1));
    assert_eq!(s.num_outputs(), Ok(2));
    assert_eq!(s.subgraph().map(|g| g.raw_subgraph), Ok(0x200));
    let broken = no_signature();
    assert_eq!(broken.key(), Err(Error::new(ErrorCause::GetSignatureKey, 1)));
    assert_eq!(broken.subgraph(), Err(Error::new(ErrorCause::GetSignatureSubgraph, 1)));
    assert_eq!(broken.num_inputs(), Err(Error::new(ErrorCause::GetNumSignatureInputs, 1)));
    assert_eq!(broken.num_outputs(), Err(Error::new(ErrorCause::GetNumSignatureOutputs, 1)));
    assert!(matches!(broken.input_names(), Err(e) if e == Error::new(ErrorCause::GetNumSignatureInputs, 1)));
    assert!(matches!(broken.output_names(), Err(e) if e == Error::new(ErrorCause::GetNumSignatureOutputs, 1)));
}

#[test]
fn a_name_sequence_gives_each_name_once_and_then_ends() {
    let s = signature("k", &["a", "b", "c"], &["x"]);
    let mut names = s.input_names().unwrap();
    assert_eq!(names.direction(), InputOutputNamesIteratorKind::Input);
    assert_eq!(names.size_hint(), (3, Some(3)));
    assert_eq!(names.next(), Some(Ok("a")));
    assert_eq!(names.next(), Some(Ok("b")));
    assert_eq!(names.next(), Some(Ok("c")));
    assert_eq!(names.next(), None);
    assert_eq!(names.next(), None);
    let mut outputs = s.output_names().unwrap();
    assert_eq!(outputs.direction(), InputOutputNamesIteratorKind::Output);
    assert_eq!(outputs.next(), Some(Ok("x")));
    assert_eq!(outputs.next(), None);
}

#[test]
fn fresh_name_sequences_give_the_same_items() {
    let s = signature("k", &["a", "b", "c"], &["x", "y"]);
    let first = s.input_names().unwrap().collect();
    let second = s.input_names().unwrap().collect();
    assert_eq!(first, vec![Ok("a"), Ok("b"), Ok("c")]);
    assert_eq!(first, second);
    assert_eq!(s.output_names().unwrap().collect(), vec![Ok("x"), Ok("y")]);
    let empty = signature("k", &[], &[]);
    assert_eq!(empty.input_names().unwrap().collect(), vec![]);
}

#[test]
fn collect_gives_what_is_left_of_a_sequence() {
    let s = signature("k", &["a", "b", "c"], &[]);
    let mut names = s.input_names().unwrap();
    assert_eq!(names.next(), Some(Ok("a")));
    assert_eq!(names.collect(), vec![Ok("b"), Ok("c")]);
}

#[test]
fn a_name_that_cannot_be_had_is_an_error_item_and_is_passed() {
    let mut s = signature("k", &["a", "b", "c"], &["x", "y"]);
    s.input_names.replies[1] = failed(3, None);
    s.output_names.replies[0] = failed(4, None);
    s.output_names.replies[1] = ok(Some(vec![0xff]));
    assert_eq!(
        s.input_names().unwrap().collect(),
        vec![Ok("a"), Err(Error::new(ErrorCause::GetSignatureInputName, 3)), Ok("c")]
    );
    assert_eq!(
        s.output_names().unwrap().collect(),
        vec![
            Err(Error::new(ErrorCause::GetSignatureOutputName, 4)),
            Err(Error::new(ErrorCause::InvalidStringEncoding, LiteRtStatus_kLiteRtStatusErrorRuntimeFailure)),
        ]
    );
}

#[test]
fn a_model_gives_its_counts_and_signatures() {
    let m = model(vec![ok(signature("first", &["a"], &["b"])), ok(signature("second", &[], &[]))]);
    assert_eq!(m.num_subgraphs(), Ok(1));
    assert_eq!(m.num_signatures(), Ok(2));
    assert_eq!(m.signature(0).and_then(|s| s.key()), Ok("first"));
    assert_eq!(m.signature(1).and_then(|s| s.key()), Ok("second"));
    assert_eq!(m.signature(2), Err(Error::new(ErrorCause::GetModelSignature, 1000)));
    assert_eq!(m.signature(usize::MAX), Err(Error::new(ErrorCause::GetModelSignature, 1000)));
}

#[test]
fn a_signature_sequence_gives_each_signature_once_and_then_ends() {
    let m = model(vec![ok(signature("first", &["a"], &["b"])), ok(signature("second", &[], &[]))]);
    let mut signatures = m.signatures().unwrap();
    assert_eq!(signatures.size_hint(), (2, Some(2)));
    assert_eq!(signatures.next().map(|s| s.and_then(|s| s.key())), Some(Ok("first")));
    assert_eq!(signatures.next().map(|s| s.and_then(|s| s.key())), Some(Ok("second")));
    assert!(signatures.next().is_none());
    assert!(signatures.next().is_none());
    let again = m.signatures().unwrap().collect();
    assert_eq!(again.len(), 2);
    assert_eq!(again, m.signatures().unwrap().collect());
}

#[test]
fn a_signature_that_cannot_be_had_is_an_error_item_and_is_passed() {
    let m = model(vec![
        ok(signature("first", &[], &[])),
        failed(3, no_signature()),
        ok(signature("third", &[], &[])),
    ]);
    let keys: Vec<Result<&str, Error>> =
        m.signatures().unwrap().collect().into_iter().map(|s| s.and_then(|s| s.key())).collect();
    assert_eq!(keys, vec![Ok("first"), Err(Error::new(ErrorCause::GetSignature, 3)), Ok("third")]);
}

#[test]
fn a_failed_signature_count_is_no_sequence() {
    let mut m = model(vec![ok(signature("first", &[], &[]))]);
    m.num_signatures = failed(3, 1);
    m.num_subgraphs = failed(4, 1);
    assert!(matches!(m.signatures(), Err(e) if e == Error::new(ErrorCause::GetNumModelSignatures, 3)));
    assert_eq!(m.num_signatures(), Err(Error::new(ErrorCause::GetNumModelSignatures, 3)));
    assert_eq!(m.num_subgraphs(), Err(Error::new(ErrorCause::GetNumModelSubgraphs, 4)));
}

#[test]
fn a_model_is_what_the_loading_call_gave() {
    let loaded = Model::create_model_from_file("/data/model.tflite", ok(model(vec![]))).unwrap();
    assert_eq!(loaded.raw_model, 0x10);
    match Model::create_model_from_file("/nowhere", failed(500, model(vec![]))) {
        Ok(_) => panic!("the engine refused"),
        Err(error) => assert_eq!(error, Error::new(ErrorCause::CreateModelFromFile, 500)),
    }
    let mut bytes = vec![1u8, 2, 3];
    let from_buffer = Model::create_model_from_buffer(&mut bytes, ok(model(vec![]))).unwrap();
    assert_eq!(from_buffer.num_signatures(), Ok(0));
    assert_eq!(bytes, vec![1, 2, 3]);
    match Model::create_model_from_buffer(&mut bytes, failed(501, model(vec![]))) {
        Ok(_) => panic!("the engine refused"),
        Err(error) => assert_eq!(error, Error::new(ErrorCause::CreateModelFromBuffer, 501)),
    }
}
