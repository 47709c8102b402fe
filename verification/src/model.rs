//! A loaded model and the read-only way through it: signatures, their
//! subgraphs, and the tensors at a subgraph's inputs and outputs.
//!
//! A model does not change once it is loaded, so each of these types holds
//! the answers that the engine's accessors gave for one object, and the
//! methods read those answers as the accessors would be called: a status is
//! checked before the value beside it is looked at, and a failure carries the
//! cause of the call that failed.

use crate::bindings::{
    Listing, LiteRtHandle, LiteRtParamIndex, LiteRtRankedTensorType,
    LiteRtStatus_kLiteRtStatusErrorInvalidArgument, LiteRtTensorTypeId,
    LiteRtTensorTypeId_kLiteRtRankedTensorType, LiteRtTensorTypeId_kLiteRtUnrankedTensorType,
    LiteRtUnrankedTensorType, Reply,
};
use crate::error::{check_status, Error, ErrorCause};
use crate::helper_funs::{c_str_text, c_str_to_str, has_no_nul, option_bytes, str_eq};
use crate::tensor_buffer::ElementType;
use vstd::prelude::*;
use vstd::string::StringSliceAdditionalSpecFns;

verus! {

/// A tensor of a model.
#[derive(Debug, Clone, PartialEq, Eq)]
pub struct Tensor {
    pub raw_tensor: LiteRtHandle,
    /// Answer to the query whether the tensor's type is ranked.
    pub type_id: Reply<LiteRtTensorTypeId>,
    /// Answer to the query for the unranked type.
    pub unranked_tensor_type: Reply<LiteRtUnrankedTensorType>,
    /// Answer to the query for the ranked type.
    pub ranked_tensor_type: Reply<LiteRtRankedTensorType>,
    /// Answer to the query for the name: a C string, or the null pointer.
    pub name: Reply<Option<Vec<u8>>>,
}

impl Tensor {
    pub fn new(
        raw_tensor: LiteRtHandle,
        type_id: Reply<LiteRtTensorTypeId>,
        unranked_tensor_type: Reply<LiteRtUnrankedTensorType>,
        ranked_tensor_type: Reply<LiteRtRankedTensorType>,
        name: Reply<Option<Vec<u8>>>,
    ) -> (tensor: Self)
        ensures
            tensor == (Tensor {
                raw_tensor,
                type_id,
                unranked_tensor_type,
                ranked_tensor_type,
                name,
            }),
    {
        Tensor { raw_tensor, type_id, unranked_tensor_type, ranked_tensor_type, name }
    }

    /// The tensor's element type: that of the ranked or of the unranked
    /// type, as the type id says.
    pub open spec fn element_type_outcome(&self) -> Result<ElementType, Error> {
        if !self.type_id.is_ok() {
            Err(Error { cause: ErrorCause::GetTensorTypeId, litert_status: self.type_id.status })
        } else if self.type_id.value == LiteRtTensorTypeId_kLiteRtRankedTensorType {
            match self.ranked_tensor_type.outcome(ErrorCause::GetRankedTensorType) {
                Ok(ranked) => ElementType::of_c_value(ranked.element_type),
                Err(e) => Err(e),
            }
        } else if self.type_id.value == LiteRtTensorTypeId_kLiteRtUnrankedTensorType {
            match self.unranked_tensor_type.outcome(ErrorCause::GetUnrankedTensorType) {
                Ok(unranked) => ElementType::of_c_value(unranked.element_type),
                Err(e) => Err(e),
            }
        } else {
            Err(
                Error {
                    cause: ErrorCause::InvalidTensorTypeId,
                    litert_status: LiteRtStatus_kLiteRtStatusErrorInvalidArgument,
                },
            )
        }
    }

    /// The tensor's name as text.
    pub open spec fn name_text(&self) -> Result<Seq<char>, Error> {
        match self.name.outcome(ErrorCause::GetTensorName) {
            Ok(c_str) => c_str_text(option_bytes(c_str)),
            Err(e) => Err(e),
        }
    }

    fn type_id(&self) -> (r: Result<LiteRtTensorTypeId, Error>)
        ensures
            r == self.type_id.outcome(ErrorCause::GetTensorTypeId),
    {
        match self.type_id.check(ErrorCause::GetTensorTypeId) {
            Ok(raw_tensor_type) => Ok(*raw_tensor_type),
            Err(e) => Err(e),
        }
    }

    /// Returns the unranked tensor type.
    pub fn unranked_tensor_type(&self) -> (r: Result<LiteRtUnrankedTensorType, Error>)
        ensures
            r == self.unranked_tensor_type.outcome(ErrorCause::GetUnrankedTensorType),
    {
        match self.unranked_tensor_type.check(ErrorCause::GetUnrankedTensorType) {
            Ok(raw_tensor_type) => Ok(*raw_tensor_type),
            Err(e) => Err(e),
        }
    }

    /// Returns the ranked tensor type.
    pub fn ranked_tensor_type(&self) -> (r: Result<LiteRtRankedTensorType, Error>)
        ensures
            r == self.ranked_tensor_type.outcome(ErrorCause::GetRankedTensorType),
    {
        match self.ranked_tensor_type.check(ErrorCause::GetRankedTensorType) {
            Ok(raw_tensor_type) => Ok(*raw_tensor_type),
            Err(e) => Err(e),
        }
    }

    /// Returns the element type of the tensor.
    pub fn element_type(&self) -> (r: Result<ElementType, Error>)
        ensures
            r == self.element_type_outcome(),
    {
        let type_id = match self.type_id() {
            Ok(type_id) => type_id,
            Err(e) => {
                return Err(e);
            },
        };
        match type_id {
            LiteRtTensorTypeId_kLiteRtRankedTensorType => {
                let rtt = match self.ranked_tensor_type() {
                    Ok(rtt) => rtt,
                    Err(e) => {
                        return Err(e);
                    },
                };
                ElementType::from_c_enum(rtt.element_type)
            },
            LiteRtTensorTypeId_kLiteRtUnrankedTensorType => {
                let utt = match self.unranked_tensor_type() {
                    Ok(utt) => utt,
                    Err(e) => {
                        return Err(e);
                    },
                };
                ElementType::from_c_enum(utt.element_type)
            },
            _ => Err(
                Error::new(
                    ErrorCause::InvalidTensorTypeId,
                    LiteRtStatus_kLiteRtStatusErrorInvalidArgument,
                ),
            ),
        }
    }

    /// Returns the name of the tensor.
    pub fn name(&self) -> (r: Result<&str, Error>)
        ensures
            match r {
                Ok(text) => self.name_text() == Ok::<Seq<char>, Error>(text@),
                Err(e) => self.name_text() == Err::<Seq<char>, Error>(e),
            },
    {
        match self.name.check(ErrorCause::GetTensorName) {
            Ok(name) => c_str_to_str(name),
            Err(e) => Err(e),
        }
    }
}

/// What a scan by name learns of the tensor at one index.
pub enum NameMatch {
    /// The tensor was fetched, and its name is another.
    Differs,
    /// The tensor was fetched, and its name is the one looked for.
    Matches,
    /// The tensor or its name could not be had.
    Fails(Error),
}

/// What a scan for `name` learns from the answer for one index, where a
/// failed fetch has the cause `fetch`.
pub open spec fn name_match(reply: Reply<Tensor>, fetch: ErrorCause, name: Seq<char>) -> NameMatch {
    match reply.outcome(fetch) {
        Err(e) => NameMatch::Fails(e),
        Ok(tensor) => match tensor.name_text() {
            Err(e) => NameMatch::Fails(e),
            Ok(text) => if text == name {
                NameMatch::Matches
            } else {
                NameMatch::Differs
            },
        },
    }
}

/// The result of a linear scan for `name` over the first `count` tensors:
/// the scan stops at the first index whose tensor matches or fails, with
/// that tensor or that error, and where every name differs it ends with the
/// error of the cause `missing`.
pub open spec fn is_scan_result(
    tensors: Listing<Tensor>,
    count: int,
    fetch: ErrorCause,
    missing: ErrorCause,
    name: Seq<char>,
    r: Result<&Tensor, Error>,
) -> bool {
    match r {
        Ok(tensor) => exists|i: int|
            {
                &&& 0 <= i < count
                &&& #[trigger] name_match(tensors.reply_at(i), fetch, name) is Matches
                &&& *tensor == tensors.reply_at(i).value
                &&& forall|j: int|
                    0 <= j < i ==> #[trigger] name_match(tensors.reply_at(j), fetch, name)
                        is Differs
            },
        Err(e) => {
            ||| {
                &&& e == (Error {
                    cause: missing,
                    litert_status: LiteRtStatus_kLiteRtStatusErrorInvalidArgument,
                })
                &&& forall|i: int|
                    0 <= i < count ==> #[trigger] name_match(tensors.reply_at(i), fetch, name)
                        is Differs
            }
            ||| exists|i: int|
                {
                    &&& 0 <= i < count
                    &&& #[trigger] name_match(tensors.reply_at(i), fetch, name)
                        == NameMatch::Fails(e)
                    &&& forall|j: int|
                        0 <= j < i ==> #[trigger] name_match(tensors.reply_at(j), fetch, name)
                            is Differs
                }
        },
    }
}

/// The result of a linear scan for `name` that begins at the index `from`
/// and ends before `count`.
pub open spec fn scan_from(
    tensors: Listing<Tensor>,
    count: int,
    fetch: ErrorCause,
    missing: ErrorCause,
    name: Seq<char>,
    from: int,
) -> Result<Tensor, Error>
    decreases count - from,
{
    if from >= count {
        Err(Error { cause: missing, litert_status: LiteRtStatus_kLiteRtStatusErrorInvalidArgument })
    } else {
        match name_match(tensors.reply_at(from), fetch, name) {
            NameMatch::Matches => Ok(tensors.reply_at(from).value),
            NameMatch::Fails(e) => Err(e),
            NameMatch::Differs => scan_from(tensors, count, fetch, missing, name, from + 1),
        }
    }
}

/// A subgraph of a model.
#[derive(Debug, Clone, PartialEq, Eq)]
pub struct Subgraph {
    pub raw_subgraph: LiteRtHandle,
    /// Answer to the query for the number of inputs.
    pub num_inputs: Reply<LiteRtParamIndex>,
    /// Answer to the query for the number of outputs.
    pub num_outputs: Reply<LiteRtParamIndex>,
    /// Answers to the queries for the input tensor at each index.
    pub inputs: Listing<Tensor>,
    /// Answers to the queries for the output tensor at each index.
    pub outputs: Listing<Tensor>,
}

impl Subgraph {
    pub fn new(
        raw_subgraph: LiteRtHandle,
        num_inputs: Reply<LiteRtParamIndex>,
        num_outputs: Reply<LiteRtParamIndex>,
        inputs: Listing<Tensor>,
        outputs: Listing<Tensor>,
    ) -> (subgraph: Self)
        ensures
            subgraph == (Subgraph { raw_subgraph, num_inputs, num_outputs, inputs, outputs }),
    {
        Subgraph { raw_subgraph, num_inputs, num_outputs, inputs, outputs }
    }

    /// Returns the number of inputs of the subgraph.
    pub fn num_inputs(&self) -> (r: Result<LiteRtParamIndex, Error>)
        ensures
            r == self.num_inputs.outcome(ErrorCause::GetNumSubgraphInputs),
    {
        match self.num_inputs.check(ErrorCause::GetNumSubgraphInputs) {
            Ok(num_inputs) => Ok(*num_inputs),
            Err(e) => Err(e),
        }
    }

    /// Returns the number of outputs of the subgraph.
    pub fn num_outputs(&self) -> (r: Result<LiteRtParamIndex, Error>)
        ensures
            r == self.num_outputs.outcome(ErrorCause::GetNumSubgraphOutputs),
    {
        match self.num_outputs.check(ErrorCause::GetNumSubgraphOutputs) {
            Ok(num_outputs) => Ok(*num_outputs),
            Err(e) => Err(e),
        }
    }

    /// The input tensor with the given name.
    pub open spec fn input_by_name(&self, name: Seq<char>) -> Result<Tensor, Error> {
        match self.num_inputs.outcome(ErrorCause::GetNumSubgraphInputs) {
            Ok(count) => scan_from(
                self.inputs,
                count as int,
                ErrorCause::GetSubgraphInput,
                ErrorCause::SubgraphInputTensorByNameNotFound,
                name,
                0,
            ),
            Err(e) => Err(e),
        }
    }

    /// The output tensor with the given name.
    pub open spec fn output_by_name(&self, name: Seq<char>) -> Result<Tensor, Error> {
        match self.num_outputs.outcome(ErrorCause::GetNumSubgraphOutputs) {
            Ok(count) => scan_from(
                self.outputs,
                count as int,
                ErrorCause::GetSubgraphOutput,
                ErrorCause::SubgraphOutputTensorByNameNotFound,
                name,
                0,
            ),
            Err(e) => Err(e),
        }
    }

    /// Returns the input tensor at the given index.
    pub fn input_tensor(&self, tensor_index: LiteRtParamIndex) -> (r: Result<&Tensor, Error>)
        ensures
            match r {
                Ok(tensor) => self.inputs.reply_at(tensor_index as int).outcome(
                    ErrorCause::GetSubgraphInput,
                ) == Ok::<Tensor, Error>(*tensor),
                Err(e) => self.inputs.reply_at(tensor_index as int).outcome(
                    ErrorCause::GetSubgraphInput,
                ) == Err::<Tensor, Error>(e),
            },
    {
        self.inputs.at(tensor_index).check(ErrorCause::GetSubgraphInput)
    }

    /// Returns the output tensor at the given index.
    pub fn output_tensor(&self, tensor_index: LiteRtParamIndex) -> (r: Result<&Tensor, Error>)
        ensures
            match r {
                Ok(tensor) => self.outputs.reply_at(tensor_index as int).outcome(
                    ErrorCause::GetSubgraphOutput,
                ) == Ok::<Tensor, Error>(*tensor),
                Err(e) => self.outputs.reply_at(tensor_index as int).outcome(
                    ErrorCause::GetSubgraphOutput,
                ) == Err::<Tensor, Error>(e),
            },
    {
        self.outputs.at(tensor_index).check(ErrorCause::GetSubgraphOutput)
    }

    /// Returns the input tensor with the given name: the first, in index
    /// order, among the declared number of inputs. The scan is linear, which
    /// suits the few inputs that a signature has.
    pub fn input_tensor_by_name(&self, tensor_name: &str) -> (r: Result<&Tensor, Error>)
        ensures
            match r {
                Ok(tensor) => self.input_by_name(tensor_name@) == Ok::<Tensor, Error>(*tensor),
                Err(e) => self.input_by_name(tensor_name@) == Err::<Tensor, Error>(e),
            },
            match self.num_inputs.outcome(ErrorCause::GetNumSubgraphInputs) {
                Ok(count) => is_scan_result(
                    self.inputs,
                    count as int,
                    ErrorCause::GetSubgraphInput,
                    ErrorCause::SubgraphInputTensorByNameNotFound,
                    tensor_name@,
                    r,
                ),
                Err(e) => r is Err && r->Err_0 == e,
            },
    {
        let num_inputs = match self.num_inputs() {
            Ok(num_inputs) => num_inputs,
            Err(e) => {
                return Err(e);
            },
        };
        let mut i: usize = 0;
        while i < num_inputs
            invariant
                0 <= i <= num_inputs,
                self.input_by_name(tensor_name@) == scan_from(
                    self.inputs,
                    num_inputs as int,
                    ErrorCause::GetSubgraphInput,
                    ErrorCause::SubgraphInputTensorByNameNotFound,
                    tensor_name@,
                    i as int,
                ),
                self.num_inputs.outcome(ErrorCause::GetNumSubgraphInputs) == Ok::<usize, Error>(
                    num_inputs,
                ),
                forall|j: int|
                    0 <= j < i ==> #[trigger] name_match(
                        self.inputs.reply_at(j),
                        ErrorCause::GetSubgraphInput,
                        tensor_name@,
                    ) is Differs,
            decreases num_inputs - i,
        {
            let ghost here = name_match(
                self.inputs.reply_at(i as int),
                ErrorCause::GetSubgraphInput,
                tensor_name@,
            );
            let tensor = match self.input_tensor(i) {
                Ok(tensor) => tensor,
                Err(e) => {
                    assert(here == NameMatch::Fails(e));
                    return Err(e);
                },
            };
            let name = match tensor.name() {
                Ok(name) => name,
                Err(e) => {
                    assert(here == NameMatch::Fails(e));
                    return Err(e);
                },
            };
            if str_eq(name, tensor_name) {
                assert(here is Matches);
                return Ok(tensor);
            }
            assert(here is Differs);
            i = i + 1;
        }
        Err(
            Error::new(
                ErrorCause::SubgraphInputTensorByNameNotFound,
                LiteRtStatus_kLiteRtStatusErrorInvalidArgument,
            ),
        )
    }

    /// Returns the output tensor with the given name: the first, in index
    /// order, among the declared number of outputs.
    pub fn output_tensor_by_name(&self, tensor_name: &str) -> (r: Result<&Tensor, Error>)
        ensures
            match r {
                Ok(tensor) => self.output_by_name(tensor_name@) == Ok::<Tensor, Error>(*tensor),
                Err(e) => self.output_by_name(tensor_name@) == Err::<Tensor, Error>(e),
            },
            match self.num_outputs.outcome(ErrorCause::GetNumSubgraphOutputs) {
                Ok(count) => is_scan_result(
                    self.outputs,
                    count as int,
                    ErrorCause::GetSubgraphOutput,
                    ErrorCause::SubgraphOutputTensorByNameNotFound,
                    tensor_name@,
                    r,
                ),
                Err(e) => r is Err && r->Err_0 == e,
            },
    {
        let num_outputs = match self.num_outputs() {
            Ok(num_outputs) => num_outputs,
            Err(e) => {
                return Err(e);
            },
        };
        let mut i: usize = 0;
        while i < num_outputs
            invariant
                0 <= i <= num_outputs,
                self.output_by_name(tensor_name@) == scan_from(
                    self.outputs,
                    num_outputs as int,
                    ErrorCause::GetSubgraphOutput,
                    ErrorCause::SubgraphOutputTensorByNameNotFound,
                    tensor_name@,
                    i as int,
                ),
                self.num_outputs.outcome(ErrorCause::GetNumSubgraphOutputs) == Ok::<usize, Error>(
                    num_outputs,
                ),
                forall|j: int|
                    0 <= j < i ==> #[trigger] name_match(
                        self.outputs.reply_at(j),
                        ErrorCause::GetSubgraphOutput,
                        tensor_name@,
                    ) is Differs,
            decreases num_outputs - i,
        {
            let ghost here = name_match(
                self.outputs.reply_at(i as int),
                ErrorCause::GetSubgraphOutput,
                tensor_name@,
            );
            let tensor = match self.output_tensor(i) {
                Ok(tensor) => tensor,
                Err(e) => {
                    assert(here == NameMatch::Fails(e));
                    return Err(e);
                },
            };
            let name = match tensor.name() {
                Ok(name) => name,
                Err(e) => {
                    assert(here == NameMatch::Fails(e));
                    return Err(e);
                },
            };
            if str_eq(name, tensor_name) {
                assert(here is Matches);
                return Ok(tensor);
            }
            assert(here is Differs);
            i = i + 1;
        }
        Err(
            Error::new(
                ErrorCause::SubgraphOutputTensorByNameNotFound,
                LiteRtStatus_kLiteRtStatusErrorInvalidArgument,
            ),
        )
    }
}

/// A signature of a model: a named interface of inputs and outputs into one
/// subgraph.
#[derive(Debug, Clone, PartialEq, Eq)]
pub struct Signature {
    pub raw_signature: LiteRtHandle,
    /// Answer to the query for the key: a C string, or the null pointer.
    pub key: Reply<Option<Vec<u8>>>,
    /// Answer to the query for the subgraph.
    pub subgraph: Reply<Subgraph>,
    /// Answer to the query for the number of inputs.
    pub num_inputs: Reply<LiteRtParamIndex>,
    /// Answer to the query for the number of outputs.
    pub num_outputs: Reply<LiteRtParamIndex>,
    /// Answers to the queries for the input name at each index.
    pub input_names: Listing<Option<Vec<u8>>>,
    /// Answers to the queries for the output name at each index.
    pub output_names: Listing<Option<Vec<u8>>>,
}

/// Whether a sequence of names runs over the inputs or over the outputs.
#[derive(Debug, Clone, Copy, PartialEq, Eq, Structural)]
pub enum InputOutputNamesIteratorKind {
    Input,
    Output,
}

/// A sequence of the input or of the output names of a signature. It runs
/// forward over the indices below the number that the signature declared
/// when the sequence was made, and fetches one name at each step.
pub struct InputOutputNamesIterator<'a> {
    signature: &'a Signature,
    index: LiteRtParamIndex,
    total_num_names: LiteRtParamIndex,
    kind: InputOutputNamesIteratorKind,
}

impl Signature {
    pub fn new(
        raw_signature: LiteRtHandle,
        key: Reply<Option<Vec<u8>>>,
        subgraph: Reply<Subgraph>,
        num_inputs: Reply<LiteRtParamIndex>,
        num_outputs: Reply<LiteRtParamIndex>,
        input_names: Listing<Option<Vec<u8>>>,
        output_names: Listing<Option<Vec<u8>>>,
    ) -> (signature: Self)
        ensures
            signature == (Signature {
                raw_signature,
                key,
                subgraph,
                num_inputs,
                num_outputs,
                input_names,
                output_names,
            }),
    {
        Signature {
            raw_signature,
            key,
            subgraph,
            num_inputs,
            num_outputs,
            input_names,
            output_names,
        }
    }

    /// The signature's key as text.
    pub open spec fn key_text(&self) -> Result<Seq<char>, Error> {
        match self.key.outcome(ErrorCause::GetSignatureKey) {
            Ok(c_str) => c_str_text(option_bytes(c_str)),
            Err(e) => Err(e),
        }
    }

    /// The name at `index` among the inputs or the outputs, as a step of a
    /// name sequence gives it. A failed fetch has the cause of its
    /// direction.
    pub open spec fn name_at(&self, kind: InputOutputNamesIteratorKind, index: int) -> Result<
        Seq<char>,
        Error,
    > {
        let fetched = match kind {
            InputOutputNamesIteratorKind::Input => self.input_names.reply_at(index).outcome(
                ErrorCause::GetSignatureInputName,
            ),
            InputOutputNamesIteratorKind::Output => self.output_names.reply_at(index).outcome(
                ErrorCause::GetSignatureOutputName,
            ),
        };
        match fetched {
            Ok(c_str) => c_str_text(option_bytes(c_str)),
            Err(e) => Err(e),
        }
    }

    /// Returns the key of the signature.
    pub fn key(&self) -> (r: Result<&str, Error>)
        ensures
            match r {
                Ok(text) => self.key_text() == Ok::<Seq<char>, Error>(text@),
                Err(e) => self.key_text() == Err::<Seq<char>, Error>(e),
            },
    {
        match self.key.check(ErrorCause::GetSignatureKey) {
            Ok(key) => c_str_to_str(key),
            Err(e) => Err(e),
        }
    }

    /// Returns the subgraph associated with the signature.
    pub fn subgraph(&self) -> (r: Result<&Subgraph, Error>)
        ensures
            match r {
                Ok(subgraph) => self.subgraph.outcome(ErrorCause::GetSignatureSubgraph) == Ok::<
                    Subgraph,
                    Error,
                >(*subgraph),
                Err(e) => self.subgraph.outcome(ErrorCause::GetSignatureSubgraph) == Err::<
                    Subgraph,
                    Error,
                >(e),
            },
    {
        self.subgraph.check(ErrorCause::GetSignatureSubgraph)
    }

    /// Returns the number of inputs of the signature.
    pub fn num_inputs(&self) -> (r: Result<LiteRtParamIndex, Error>)
        ensures
            r == self.num_inputs.outcome(ErrorCause::GetNumSignatureInputs),
    {
        match self.num_inputs.check(ErrorCause::GetNumSignatureInputs) {
            Ok(num_inputs) => Ok(*num_inputs),
            Err(e) => Err(e),
        }
    }

    /// Returns a sequence of the input names of the signature, at its start.
    pub fn input_names(&self) -> (r: Result<InputOutputNamesIterator<'_>, Error>)
        ensures
            match self.num_inputs.outcome(ErrorCause::GetNumSignatureInputs) {
                Ok(count) => {
                    &&& r is Ok
                    &&& r->Ok_0.signature() == *self
                    &&& r->Ok_0.kind() == InputOutputNamesIteratorKind::Input
                    &&& r->Ok_0.index() == 0
                    &&& r->Ok_0.total() == count
                },
                Err(e) => r is Err && r->Err_0 == e,
            },
    {
        let num_inputs = match self.num_inputs() {
            Ok(num_inputs) => num_inputs,
            Err(e) => {
                return Err(e);
            },
        };
        Ok(
            InputOutputNamesIterator {
                signature: self,
                index: 0,
                total_num_names: num_inputs,
                kind: InputOutputNamesIteratorKind::Input,
            },
        )
    }

    /// Returns the number of outputs of the signature.
    pub fn num_outputs(&self) -> (r: Result<LiteRtParamIndex, Error>)
        ensures
            r == self.num_outputs.outcome(ErrorCause::GetNumSignatureOutputs),
    {
        match self.num_outputs.check(ErrorCause::GetNumSignatureOutputs) {
            Ok(num_outputs) => Ok(*num_outputs),
            Err(e) => Err(e),
        }
    }

    /// Returns a sequence of the output names of the signature, at its start.
    pub fn output_names(&self) -> (r: Result<InputOutputNamesIterator<'_>, Error>)
        ensures
            match self.num_outputs.outcome(ErrorCause::GetNumSignatureOutputs) {
                Ok(count) => {
                    &&& r is Ok
                    &&& r->Ok_0.signature() == *self
                    &&& r->Ok_0.kind() == InputOutputNamesIteratorKind::Output
                    &&& r->Ok_0.index() == 0
                    &&& r->Ok_0.total() == count
                },
                Err(e) => r is Err && r->Err_0 == e,
            },
    {
        let num_outputs = match self.num_outputs() {
            Ok(num_outputs) => num_outputs,
            Err(e) => {
                return Err(e);
            },
        };
        Ok(
            InputOutputNamesIterator {
                signature: self,
                index: 0,
                total_num_names: num_outputs,
                kind: InputOutputNamesIteratorKind::Output,
            },
        )
    }
}

/// Whether an item of a name sequence is the given one.
pub open spec fn is_name_item(item: Result<&str, Error>, name: Result<Seq<char>, Error>) -> bool {
    match item {
        Ok(text) => name == Ok::<Seq<char>, Error>(text@),
        Err(e) => name == Err::<Seq<char>, Error>(e),
    }
}

impl<'a> InputOutputNamesIterator<'a> {
    /// The signature whose names the sequence gives.
    pub closed spec fn signature(&self) -> Signature {
        *self.signature
    }

    /// The direction of the sequence.
    pub closed spec fn kind(&self) -> InputOutputNamesIteratorKind {
        self.kind
    }

    /// The index of the next name.
    pub closed spec fn index(&self) -> nat {
        self.index as nat
    }

    /// The number of names, as it was declared when the sequence was made.
    pub closed spec fn total(&self) -> nat {
        self.total_num_names as nat
    }

    /// The number of items that are still to come.
    pub open spec fn remaining(&self) -> nat {
        if self.index() < self.total() {
            (self.total() - self.index()) as nat
        } else {
            0
        }
    }

    /// The items that are still to come, in order.
    pub open spec fn items(&self) -> Seq<Result<Seq<char>, Error>> {
        Seq::new(
            self.remaining(),
            |k: int| self.signature().name_at(self.kind(), self.index() + k),
        )
    }

    /// A sequence gives as many items as names were declared and not yet
    /// passed, and two sequences over the same signature, in the same
    /// direction and at the same index, give the same items in the same
    /// order.
    pub proof fn lemma_same_signature_same_items(a: Self, b: Self)
        requires
            a.signature() == b.signature(),
            a.kind() == b.kind(),
            a.index() == b.index(),
            a.total() == b.total(),
        ensures
            a.items() == b.items(),
            a.items().len() == a.remaining(),
            a.index() == 0 ==> a.items().len() == a.total(),
    {
        assert(a.items() =~= b.items());
    }

    /// The next name, or `None` at the end. Each call before the end moves
    /// one index on, also where the name could not be had: the item is then
    /// the error, and the index is not tried again.
    pub fn next(&mut self) -> (item: Option<Result<&'a str, Error>>)
        ensures
            final(self).signature() == old(self).signature(),
            final(self).kind() == old(self).kind(),
            final(self).total() == old(self).total(),
            old(self).remaining() == 0 ==> item is None && final(self).index() == old(
                self,
            ).index(),
            old(self).remaining() > 0 ==> {
                &&& item is Some
                &&& is_name_item(
                    item->0,
                    old(self).signature().name_at(old(self).kind(), old(self).index() as int),
                )
                &&& is_name_item(item->0, old(self).items().first())
                &&& final(self).index() == old(self).index() + 1
                &&& final(self).items() == old(self).items().drop_first()
            },
    {
        if self.index >= self.total_num_names {
            return None;
        }
        let fetched = match self.kind {
            InputOutputNamesIteratorKind::Input => self.signature.input_names.at(self.index).check(
                ErrorCause::GetSignatureInputName,
            ),
            InputOutputNamesIteratorKind::Output => self.signature.output_names.at(
                self.index,
            ).check(ErrorCause::GetSignatureOutputName),
        };
        self.index = self.index + 1;
        match fetched {
            Ok(name) => Some(c_str_to_str(name)),
            Err(e) => Some(Err(e)),
        }
    }

    /// Whether the sequence runs over the inputs or over the outputs.
    pub fn direction(&self) -> (kind: InputOutputNamesIteratorKind)
        ensures
            kind == self.kind(),
    {
        self.kind
    }

    /// The bounds of the number of items: both are the number of names.
    pub fn size_hint(&self) -> (hint: (usize, Option<usize>))
        ensures
            hint.0 == self.total(),
            hint.1 == Some(hint.0),
    {
        (self.total_num_names, Some(self.total_num_names))
    }

    /// Runs the sequence to its end and returns the items in order.
    pub fn collect(self) -> (items: Vec<Result<&'a str, Error>>)
        ensures
            items@.len() == self.items().len(),
            items@.len() == self.remaining(),
            forall|k: int|
                0 <= k < items@.len() ==> is_name_item(#[trigger] items@[k], self.items()[k]),
    {
        let mut names = self;
        let mut items: Vec<Result<&'a str, Error>> = Vec::new();
        loop
            invariant
                names.signature() == self.signature(),
                names.kind() == self.kind(),
                names.total() == self.total(),
                names.index() == self.index() + items@.len(),
                items@.len() <= self.remaining(),
                forall|k: int|
                    0 <= k < items@.len() ==> is_name_item(
                        #[trigger] items@[k],
                        self.signature().name_at(self.kind(), self.index() + k),
                    ),
            ensures
                items@.len() == self.remaining(),
            decreases names.remaining(),
        {
            match names.next() {
                Some(item) => {
                    items.push(item);
                },
                None => {
                    break ;
                },
            }
        }
        items
    }
}

/// A model that the engine loaded.
#[derive(Debug)]
pub struct Model {
    pub raw_model: LiteRtHandle,
    /// Answer to the query for the number of subgraphs.
    pub num_subgraphs: Reply<LiteRtParamIndex>,
    /// Answer to the query for the number of signatures.
    pub num_signatures: Reply<LiteRtParamIndex>,
    /// Answers to the queries for the signature at each index.
    pub signatures: Listing<Signature>,
}

/// A sequence of the signatures of a model. It runs forward over the indices
/// below the number that the model declared when the sequence was made, and
/// fetches one signature at each step.
pub struct SignatureIterator<'a> {
    model: &'a Model,
    index: LiteRtParamIndex,
    total_num_signatures: LiteRtParamIndex,
}

/// Whether an item of a signature sequence is the given one.
pub open spec fn is_signature_item(
    item: Result<&Signature, Error>,
    signature: Result<Signature, Error>,
) -> bool {
    match item {
        Ok(s) => signature == Ok::<Signature, Error>(*s),
        Err(e) => signature == Err::<Signature, Error>(e),
    }
}

impl<'a> SignatureIterator<'a> {
    /// The model whose signatures the sequence gives.
    pub closed spec fn model(&self) -> Model {
        *self.model
    }

    /// The index of the next signature.
    pub closed spec fn index(&self) -> nat {
        self.index as nat
    }

    /// The number of signatures, as it was declared when the sequence was
    /// made.
    pub closed spec fn total(&self) -> nat {
        self.total_num_signatures as nat
    }

    /// The number of items that are still to come.
    pub open spec fn remaining(&self) -> nat {
        if self.index() < self.total() {
            (self.total() - self.index()) as nat
        } else {
            0
        }
    }

    /// The items that are still to come, in order.
    pub open spec fn items(&self) -> Seq<Result<Signature, Error>> {
        Seq::new(self.remaining(), |k: int| self.model().signature_at(self.index() + k))
    }

    /// A sequence gives as many items as signatures were declared and not
    /// yet passed, and two sequences over the same model, at the same index,
    /// give the same items in the same order.
    pub proof fn lemma_same_model_same_items(a: Self, b: Self)
        requires
            a.model() == b.model(),
            a.index() == b.index(),
            a.total() == b.total(),
        ensures
            a.items() == b.items(),
            a.items().len() == a.remaining(),
            a.index() == 0 ==> a.items().len() == a.total(),
    {
        assert(a.items() =~= b.items());
    }

    /// The next signature, or `None` at the end. Each call before the end
    /// moves one index on, also where the signature could not be had: the
    /// item is then the error, and the index is not tried again.
    pub fn next(&mut self) -> (item: Option<Result<&'a Signature, Error>>)
        ensures
            final(self).model() == old(self).model(),
            final(self).total() == old(self).total(),
            old(self).remaining() == 0 ==> item is None && final(self).index() == old(
                self,
            ).index(),
            old(self).remaining() > 0 ==> {
                &&& item is Some
                &&& is_signature_item(
                    item->0,
                    old(self).model().signature_at(old(self).index() as int),
                )
                &&& is_signature_item(item->0, old(self).items().first())
                &&& final(self).index() == old(self).index() + 1
                &&& final(self).items() == old(self).items().drop_first()
            },
    {
        if self.index >= self.total_num_signatures {
            return None;
        }
        let reply = self.model.signatures.at(self.index);
        self.index = self.index + 1;
        Some(reply.check(ErrorCause::GetSignature))
    }

    /// The bounds of the number of items: both are the number of signatures.
    pub fn size_hint(&self) -> (hint: (usize, Option<usize>))
        ensures
            hint.0 == self.total(),
            hint.1 == Some(hint.0),
    {
        (self.total_num_signatures, Some(self.total_num_signatures))
    }

    /// Runs the sequence to its end and returns the items in order.
    pub fn collect(self) -> (items: Vec<Result<&'a Signature, Error>>)
        ensures
            items@.len() == self.items().len(),
            items@.len() == self.remaining(),
            forall|k: int|
                0 <= k < items@.len() ==> is_signature_item(#[trigger] items@[k], self.items()[k]),
    {
        let mut signatures = self;
        let mut items: Vec<Result<&'a Signature, Error>> = Vec::new();
        loop
            invariant
                signatures.model() == self.model(),
                signatures.total() == self.total(),
                signatures.index() == self.index() + items@.len(),
                items@.len() <= self.remaining(),
                forall|k: int|
                    0 <= k < items@.len() ==> is_signature_item(
                        #[trigger] items@[k],
                        self.model().signature_at(self.index() + k),
                    ),
            ensures
                items@.len() == self.remaining(),
            decreases signatures.remaining(),
        {
            match signatures.next() {
                Some(item) => {
                    items.push(item);
                },
                None => {
                    break ;
                },
            }
        }
        items
    }
}

impl Model {
    /// The signature at `index`, as a step of a signature sequence gives it.
    pub open spec fn signature_at(&self, index: int) -> Result<Signature, Error> {
        self.signatures.reply_at(index).outcome(ErrorCause::GetSignature)
    }

    /// Makes the model that the engine loaded from a file. `created` is the
    /// engine's answer to the loading call, with the description of what it
    /// loaded. The path holds no NUL character.
    pub fn create_model_from_file(path: &str, created: Reply<Model>) -> (r: Result<Self, Error>)
        requires
            has_no_nul(path.spec_bytes()),
        ensures
            r == created.outcome(ErrorCause::CreateModelFromFile),
    {
        match check_status(created.status, ErrorCause::CreateModelFromFile) {
            Ok(()) => Ok(created.value),
            Err(e) => Err(e),
        }
    }

    /// Makes the model that the engine loaded from a buffer in memory, which
    /// is left as it was. `created` is the engine's answer to the loading
    /// call, with the description of what it loaded.
    pub fn create_model_from_buffer(buffer: &mut [u8], created: Reply<Model>) -> (r: Result<
        Self,
        Error,
    >)
        ensures
            r == created.outcome(ErrorCause::CreateModelFromBuffer),
            final(buffer)@ == old(buffer)@,
    {
        match check_status(created.status, ErrorCause::CreateModelFromBuffer) {
            Ok(()) => Ok(created.value),
            Err(e) => Err(e),
        }
    }

    /// Returns the number of subgraphs in the model.
    pub fn num_subgraphs(&self) -> (r: Result<LiteRtParamIndex, Error>)
        ensures
            r == self.num_subgraphs.outcome(ErrorCause::GetNumModelSubgraphs),
    {
        match self.num_subgraphs.check(ErrorCause::GetNumModelSubgraphs) {
            Ok(num_subgraphs) => Ok(*num_subgraphs),
            Err(e) => Err(e),
        }
    }

    /// Returns the number of signatures in the model.
    pub fn num_signatures(&self) -> (r: Result<LiteRtParamIndex, Error>)
        ensures
            r == self.num_signatures.outcome(ErrorCause::GetNumModelSignatures),
    {
        match self.num_signatures.check(ErrorCause::GetNumModelSignatures) {
            Ok(num_signatures) => Ok(*num_signatures),
            Err(e) => Err(e),
        }
    }

    /// Returns a sequence of the signatures of the model, at its start.
    pub fn signatures(&self) -> (r: Result<SignatureIterator<'_>, Error>)
        ensures
            match self.num_signatures.outcome(ErrorCause::GetNumModelSignatures) {
                Ok(count) => {
                    &&& r is Ok
                    &&& r->Ok_0.model() == *self
                    &&& r->Ok_0.index() == 0
                    &&& r->Ok_0.total() == count
                },
                Err(e) => r is Err && r->Err_0 == e,
            },
    {
        let total_num_signatures = match self.num_signatures() {
            Ok(num_signatures) => num_signatures,
            Err(e) => {
                return Err(e);
            },
        };
        Ok(SignatureIterator { model: self, index: 0, total_num_signatures })
    }

    /// Returns the signature at the given index. The engine checks the
    /// index, and the answer that it gave for an index out of range decides
    /// the error.
    pub fn signature(&self, index: LiteRtParamIndex) -> (r: Result<&Signature, Error>)
        ensures
            match r {
                Ok(signature) => self.signatures.reply_at(index as int).outcome(
                    ErrorCause::GetModelSignature,
                ) == Ok::<Signature, Error>(*signature),
                Err(e) => self.signatures.reply_at(index as int).outcome(
                    ErrorCause::GetModelSignature,
                ) == Err::<Signature, Error>(e),
            },
    {
        self.signatures.at(index).check(ErrorCause::GetModelSignature)
    }
}

} // verus!
