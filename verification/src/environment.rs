//! The environment that the engine runs in, and the builder that collects
//! its options.

use crate::bindings::{
    LiteRtAnyType, LiteRtAnyType_kLiteRtAnyTypeBool, LiteRtAnyType_kLiteRtAnyTypeInt,
    LiteRtAnyType_kLiteRtAnyTypeReal, LiteRtAnyType_kLiteRtAnyTypeString, LiteRtEnvOptionTag,
    LiteRtEnvOptionTag_kLiteRtEnvOptionTagCompilerPluginLibraryDir,
    LiteRtEnvOptionTag_kLiteRtEnvOptionTagDispatchLibraryDir,
    LiteRtEnvOptionTag_kLiteRtEnvOptionTagEglContext,
    LiteRtEnvOptionTag_kLiteRtEnvOptionTagEglDisplay,
    LiteRtEnvOptionTag_kLiteRtEnvOptionTagMetalCommandQueue,
    LiteRtEnvOptionTag_kLiteRtEnvOptionTagMetalDevice,
    LiteRtEnvOptionTag_kLiteRtEnvOptionTagOpenClCommandQueue,
    LiteRtEnvOptionTag_kLiteRtEnvOptionTagOpenClContext,
    LiteRtEnvOptionTag_kLiteRtEnvOptionTagOpenClDeviceId,
    LiteRtEnvOptionTag_kLiteRtEnvOptionTagOpenClPlatformId,
    LiteRtEnvOptionTag_kLiteRtEnvOptionTagWebGpuDevice,
    LiteRtEnvOptionTag_kLiteRtEnvOptionTagWebGpuQueue, LiteRtHandle,
    LiteRtStatus_kLiteRtStatusErrorInvalidArgument, Reply,
};
use crate::error::{check_status, Error, ErrorCause};
use crate::helper_funs::{c_string, has_no_nul, is_c_string};
use vstd::prelude::*;
use vstd::string::StrSliceExecFns;
use vstd::string::StringSliceAdditionalSpecFns;
use vstd::utf8::encode_utf8;

verus! {

/// The tags of the environment's options.
#[derive(Debug, Clone, Copy, PartialEq, Eq, Structural)]
pub enum OptionTag {
    CompilerPluginLibraryDir,
    DispatchLibraryDir,
    ClDeviceId,
    ClPlatformId,
    ClContext,
    ClCommandQueue,
    EglContext,
    EglDisplay,
    WebGpuDevice,
    WebGpuQueue,
    MetalDevice,
    MetalCommandQueue,
}

impl OptionTag {
    /// The engine's number for this tag.
    pub open spec fn c_value(self) -> LiteRtEnvOptionTag {
        match self {
            Self::CompilerPluginLibraryDir => {
                LiteRtEnvOptionTag_kLiteRtEnvOptionTagCompilerPluginLibraryDir
            },
            Self::DispatchLibraryDir => LiteRtEnvOptionTag_kLiteRtEnvOptionTagDispatchLibraryDir,
            Self::ClDeviceId => LiteRtEnvOptionTag_kLiteRtEnvOptionTagOpenClDeviceId,
            Self::ClPlatformId => LiteRtEnvOptionTag_kLiteRtEnvOptionTagOpenClPlatformId,
            Self::ClContext => LiteRtEnvOptionTag_kLiteRtEnvOptionTagOpenClContext,
            Self::ClCommandQueue => LiteRtEnvOptionTag_kLiteRtEnvOptionTagOpenClCommandQueue,
            Self::EglContext => LiteRtEnvOptionTag_kLiteRtEnvOptionTagEglContext,
            Self::EglDisplay => LiteRtEnvOptionTag_kLiteRtEnvOptionTagEglDisplay,
            Self::WebGpuDevice => LiteRtEnvOptionTag_kLiteRtEnvOptionTagWebGpuDevice,
            Self::WebGpuQueue => LiteRtEnvOptionTag_kLiteRtEnvOptionTagWebGpuQueue,
            Self::MetalDevice => LiteRtEnvOptionTag_kLiteRtEnvOptionTagMetalDevice,
            Self::MetalCommandQueue => LiteRtEnvOptionTag_kLiteRtEnvOptionTagMetalCommandQueue,
        }
    }

    pub fn to_c_enum(&self) -> (value: LiteRtEnvOptionTag)
        ensures
            value == self.c_value(),
    {
        match self {
            Self::CompilerPluginLibraryDir => {
                LiteRtEnvOptionTag_kLiteRtEnvOptionTagCompilerPluginLibraryDir
            },
            Self::DispatchLibraryDir => LiteRtEnvOptionTag_kLiteRtEnvOptionTagDispatchLibraryDir,
            Self::ClDeviceId => LiteRtEnvOptionTag_kLiteRtEnvOptionTagOpenClDeviceId,
            Self::ClPlatformId => LiteRtEnvOptionTag_kLiteRtEnvOptionTagOpenClPlatformId,
            Self::ClContext => LiteRtEnvOptionTag_kLiteRtEnvOptionTagOpenClContext,
            Self::ClCommandQueue => LiteRtEnvOptionTag_kLiteRtEnvOptionTagOpenClCommandQueue,
            Self::EglContext => LiteRtEnvOptionTag_kLiteRtEnvOptionTagEglContext,
            Self::EglDisplay => LiteRtEnvOptionTag_kLiteRtEnvOptionTagEglDisplay,
            Self::WebGpuDevice => LiteRtEnvOptionTag_kLiteRtEnvOptionTagWebGpuDevice,
            Self::WebGpuQueue => LiteRtEnvOptionTag_kLiteRtEnvOptionTagWebGpuQueue,
            Self::MetalDevice => LiteRtEnvOptionTag_kLiteRtEnvOptionTagMetalDevice,
            Self::MetalCommandQueue => LiteRtEnvOptionTag_kLiteRtEnvOptionTagMetalCommandQueue,
        }
    }
}

/// A value that a caller offers for an option.
#[derive(Debug, Clone)]
pub enum OptionValue {
    Bool(bool),
    /// A 64-bit integer.
    Int(i64),
    /// A 64-bit float, by its bit pattern.
    Real(u64),
    /// A string. It holds no NUL character.
    Str(String),
    /// The address of a device, context or queue object. The engine knows
    /// such values, but no option takes one through this builder yet.
    Handle(usize),
}

impl OptionValue {
    /// Whether the builder takes a value of this kind.
    pub open spec fn is_supported(&self) -> bool {
        !(self is Handle)
    }
}

/// The payload of the engine's dynamically typed value.
#[derive(Debug, Clone, Copy, PartialEq, Eq, Structural)]
pub enum LiteRtAnyValue {
    Bool(bool),
    Int(i64),
    /// A 64-bit float, by its bit pattern.
    Real(u64),
    /// A string, by its place in the string storage that the value's owner
    /// keeps.
    Str(usize),
}

/// A value as the engine takes it: the discriminator and the payload.
#[derive(Debug, Clone, Copy, PartialEq, Eq, Structural)]
pub struct LiteRtAny {
    pub type_: LiteRtAnyType,
    pub value: LiteRtAnyValue,
}

/// One option as the engine takes it.
#[derive(Debug, Clone, Copy, PartialEq, Eq, Structural)]
pub struct LiteRtEnvOption {
    pub tag: LiteRtEnvOptionTag,
    pub value: LiteRtAny,
}

/// The error for a value of a kind that the builder does not take.
pub open spec fn unsupported_option_type() -> Error {
    Error {
        cause: ErrorCause::NotSupportedLiteRtAnyType,
        litert_status: LiteRtStatus_kLiteRtStatusErrorInvalidArgument,
    }
}

/// The engine's form of a value, where a string, if it is one, stands at
/// `next_string` in the storage; or the error for a kind of value that the
/// builder does not take.
pub open spec fn any_of(value: OptionValue, next_string: usize) -> Result<LiteRtAny, Error> {
    match value {
        OptionValue::Bool(b) => Ok(
            LiteRtAny { type_: LiteRtAnyType_kLiteRtAnyTypeBool, value: LiteRtAnyValue::Bool(b) },
        ),
        OptionValue::Int(i) => Ok(
            LiteRtAny { type_: LiteRtAnyType_kLiteRtAnyTypeInt, value: LiteRtAnyValue::Int(i) },
        ),
        OptionValue::Real(bits) => Ok(
            LiteRtAny {
                type_: LiteRtAnyType_kLiteRtAnyTypeReal,
                value: LiteRtAnyValue::Real(bits),
            },
        ),
        OptionValue::Str(_) => Ok(
            LiteRtAny {
                type_: LiteRtAnyType_kLiteRtAnyTypeString,
                value: LiteRtAnyValue::Str(next_string),
            },
        ),
        OptionValue::Handle(_) => Err(unsupported_option_type()),
    }
}

/// A value of every supported kind is brought into the engine's form, with
/// the discriminator of its kind, and a value of any other kind is refused
/// with the error for an unsupported option type.
pub proof fn lemma_supported_values_are_taken(value: OptionValue, next_string: usize)
    ensures
        value.is_supported() <==> any_of(value, next_string) is Ok,
        !value.is_supported() ==> any_of(value, next_string) == Err::<LiteRtAny, Error>(
            unsupported_option_type(),
        ),
        value is Bool ==> any_of(value, next_string)->Ok_0.type_
            == LiteRtAnyType_kLiteRtAnyTypeBool,
        value is Int ==> any_of(value, next_string)->Ok_0.type_ == LiteRtAnyType_kLiteRtAnyTypeInt,
        value is Real ==> any_of(value, next_string)->Ok_0.type_
            == LiteRtAnyType_kLiteRtAnyTypeReal,
        value is Str ==> any_of(value, next_string)->Ok_0.type_
            == LiteRtAnyType_kLiteRtAnyTypeString,
{
}

/// The string storage after `value` was taken: a string adds its C string
/// at the end, any other value adds nothing.
pub open spec fn storage_with(storage: Seq<Seq<u8>>, value: OptionValue) -> Seq<Seq<u8>> {
    match value {
        OptionValue::Str(s) => storage.push(c_string(encode_utf8(s@))),
        _ => storage,
    }
}

/// The bytes of each string of a storage.
pub open spec fn storage_bytes(storage: Seq<Vec<u8>>) -> Seq<Seq<u8>> {
    Seq::new(storage.len(), |k: int| storage[k]@)
}

/// What a builder, and the environment built from it, hold.
pub struct OptionsView {
    /// The options, in the order in which they were added.
    pub options: Seq<LiteRtEnvOption>,
    /// The C strings that the string-valued options refer to.
    pub cstring_storage: Seq<Seq<u8>>,
}

/// Each entry of the storage is a C string.
pub open spec fn holds_c_strings(storage: Seq<Seq<u8>>) -> bool {
    forall|k: int| 0 <= k < storage.len() ==> is_c_string(#[trigger] storage[k])
}

/// Each string-valued option refers to an entry of the storage, and each
/// entry of the storage is a C string.
pub open spec fn options_are_backed(view: OptionsView) -> bool {
    &&& forall|i: int|
        0 <= i < view.options.len() ==> match (#[trigger] view.options[i]).value.value {
            LiteRtAnyValue::Str(at) => at < view.cstring_storage.len(),
            _ => true,
        }
    &&& holds_c_strings(view.cstring_storage)
}

/// Builder for [`Environment`]: it collects options one by one, and keeps a
/// C string for each string among them.
pub struct EnvironmentBuilder {
    options: Vec<LiteRtEnvOption>,
    // The engine stores only the address of a string value, so the bytes
    // have to live as long as the environment does.
    cstring_storage: Vec<Vec<u8>>,
}

/// The engine's runtime context, with the strings that it refers to.
pub struct Environment {
    raw_environment: LiteRtHandle,
    cstring_storage: Vec<Vec<u8>>,
}

impl View for EnvironmentBuilder {
    type V = OptionsView;

    closed spec fn view(&self) -> OptionsView {
        OptionsView {
            options: self.options@,
            cstring_storage: storage_bytes(self.cstring_storage@),
        }
    }
}

impl EnvironmentBuilder {
    #[verifier::type_invariant]
    spec fn backed(&self) -> bool {
        options_are_backed(self@)
    }

    /// A builder without options.
    pub fn new() -> (builder: Self)
        ensures
            builder@.options.len() == 0,
            builder@.cstring_storage.len() == 0,
    {
        let builder = Self { options: Vec::new(), cstring_storage: Vec::new() };
        assert(builder@.cstring_storage =~= Seq::empty());
        builder
    }

    /// The options in the form in which the engine takes them, in the order
    /// in which they were added.
    pub fn options(&self) -> (options: &Vec<LiteRtEnvOption>)
        ensures
            options@ == self@.options,
            options_are_backed(self@),
    {
        proof {
            use_type_invariant(self);
        }
        &self.options
    }

    /// The C strings that the string-valued options refer to.
    pub fn cstring_storage(&self) -> (storage: &Vec<Vec<u8>>)
        ensures
            storage_bytes(storage@) == self@.cstring_storage,
    {
        &self.cstring_storage
    }

    /// Brings one value into the engine's form. A string is copied to the
    /// end of the storage as a C string, and the value refers to that copy.
    fn build_lite_rt_any(cstring_storage: &mut Vec<Vec<u8>>, value: OptionValue) -> (r: Result<
        LiteRtAny,
        Error,
    >)
        requires
            value matches OptionValue::Str(s) ==> has_no_nul(encode_utf8(s@)),
        ensures
            r == any_of(value, old(cstring_storage)@.len() as usize),
            storage_bytes(final(cstring_storage)@) == storage_with(
                storage_bytes(old(cstring_storage)@),
                value,
            ),
    {
        match value {
            OptionValue::Bool(b) => Ok(
                LiteRtAny {
                    type_: LiteRtAnyType_kLiteRtAnyTypeBool,
                    value: LiteRtAnyValue::Bool(b),
                },
            ),
            OptionValue::Int(i) => Ok(
                LiteRtAny { type_: LiteRtAnyType_kLiteRtAnyTypeInt, value: LiteRtAnyValue::Int(i) },
            ),
            OptionValue::Real(bits) => Ok(
                LiteRtAny {
                    type_: LiteRtAnyType_kLiteRtAnyTypeReal,
                    value: LiteRtAnyValue::Real(bits),
                },
            ),
            OptionValue::Str(s) => {
                let mut bytes = s.as_str().as_bytes_vec();
                bytes.push(0u8);
                let at = cstring_storage.len();
                let ghost before = storage_bytes(cstring_storage@);
                cstring_storage.push(bytes);
                proof {
                    assert(storage_bytes(cstring_storage@) =~= before.push(
                        c_string(encode_utf8(s@)),
                    ));
                }
                Ok(
                    LiteRtAny {
                        type_: LiteRtAnyType_kLiteRtAnyTypeString,
                        value: LiteRtAnyValue::Str(at),
                    },
                )
            },
            OptionValue::Handle(_) => Err(
                Error::new(
                    ErrorCause::NotSupportedLiteRtAnyType,
                    LiteRtStatus_kLiteRtStatusErrorInvalidArgument,
                ),
            ),
        }
    }

    /// Adds one option and hands the builder back. A value of a kind that
    /// the builder does not take is refused, and the builder is lost with it.
    pub fn add_option(self, tag: OptionTag, value: OptionValue) -> (r: Result<Self, Error>)
        requires
            value matches OptionValue::Str(s) ==> has_no_nul(encode_utf8(s@)),
        ensures
            r is Ok <==> value.is_supported(),
            r is Err ==> r->Err_0 == unsupported_option_type(),
            match any_of(value, self@.cstring_storage.len() as usize) {
                Ok(any) => {
                    &&& r is Ok
                    &&& r->Ok_0@.options == self@.options.push(
                        LiteRtEnvOption { tag: tag.c_value(), value: any },
                    )
                    &&& r->Ok_0@.cstring_storage == storage_with(self@.cstring_storage, value)
                },
                Err(e) => r is Err && r->Err_0 == e,
            },
    {
        proof {
            use_type_invariant(&self);
        }
        let ghost before = self@;
        let EnvironmentBuilder { options, cstring_storage } = self;
        let mut options = options;
        let mut cstring_storage = cstring_storage;
        let val = match Self::build_lite_rt_any(&mut cstring_storage, value) {
            Ok(val) => val,
            Err(e) => {
                return Err(e);
            },
        };
        options.push(LiteRtEnvOption { tag: tag.to_c_enum(), value: val });
        let builder = EnvironmentBuilder { options, cstring_storage };
        proof {
            let after = builder@;
            assert(after.options == before.options.push(
                LiteRtEnvOption { tag: tag.c_value(), value: val },
            ));
            assert(after.cstring_storage == storage_with(before.cstring_storage, value));
            assert forall|i: int| 0 <= i < after.options.len() implies match (
            #[trigger] after.options[i]).value.value {
                LiteRtAnyValue::Str(at) => at < after.cstring_storage.len(),
                _ => true,
            } by {
                if i < before.options.len() {
                    assert(after.options[i] == before.options[i]);
                }
            }
            assert forall|k: int| 0 <= k < after.cstring_storage.len() implies is_c_string(
                #[trigger] after.cstring_storage[k],
            ) by {
                if k < before.cstring_storage.len() {
                    assert(after.cstring_storage[k] == before.cstring_storage[k]);
                } else if let OptionValue::Str(s) = value {
                    let entry = c_string(encode_utf8(s@));
                    assert(after.cstring_storage[k] == entry);
                    assert(entry.drop_last() =~= encode_utf8(s@));
                }
            }
        }
        Ok(builder)
    }

    /// Makes the environment of the options collected so far. `created` is
    /// the engine's answer to the creation call that was given
    /// [`Self::options`]. The environment takes over the string storage, so
    /// that the strings live exactly as long as the engine's handle.
    pub fn build(self, created: Reply<LiteRtHandle>) -> (r: Result<Environment, Error>)
        ensures
            r is Ok <==> created.is_ok(),
            r is Ok ==> r->Ok_0.raw() == created.value && r->Ok_0.strings()
                == self@.cstring_storage,
            r is Err ==> r->Err_0 == (Error {
                cause: ErrorCause::CreateEnvironment,
                litert_status: created.status,
            }),
    {
        Environment::new(self, created)
    }

    /// Makes an environment without options. `created` is the engine's
    /// answer to the creation call that was given no option.
    pub fn build_default(created: Reply<LiteRtHandle>) -> (r: Result<Environment, Error>)
        ensures
            r is Ok <==> created.is_ok(),
            r is Ok ==> r->Ok_0.raw() == created.value && r->Ok_0.strings().len() == 0,
            r is Err ==> r->Err_0 == (Error {
                cause: ErrorCause::CreateEnvironment,
                litert_status: created.status,
            }),
    {
        let default_builder = EnvironmentBuilder::new();
        Environment::new(default_builder, created)
    }
}

impl Environment {
    #[verifier::type_invariant]
    spec fn backed(&self) -> bool {
        holds_c_strings(storage_bytes(self.cstring_storage@))
    }

    /// The address of the engine's environment.
    pub closed spec fn raw(&self) -> LiteRtHandle {
        self.raw_environment
    }

    /// The C strings that the environment keeps for the engine.
    pub closed spec fn strings(&self) -> Seq<Seq<u8>> {
        storage_bytes(self.cstring_storage@)
    }

    pub(crate) fn new(builder: EnvironmentBuilder, created: Reply<LiteRtHandle>) -> (r: Result<
        Self,
        Error,
    >)
        ensures
            r is Ok <==> created.is_ok(),
            r is Ok ==> r->Ok_0.raw() == created.value && r->Ok_0.strings()
                == builder@.cstring_storage,
            r is Err ==> r->Err_0 == (Error {
                cause: ErrorCause::CreateEnvironment,
                litert_status: created.status,
            }),
    {
        proof {
            use_type_invariant(&builder);
        }
        match check_status(created.status, ErrorCause::CreateEnvironment) {
            Ok(()) => {},
            Err(e) => {
                return Err(e);
            },
        }
        Ok(Self { raw_environment: created.value, cstring_storage: builder.cstring_storage })
    }

    /// The address of the engine's environment.
    pub fn raw_environment(&self) -> (raw: LiteRtHandle)
        ensures
            raw == self.raw(),
    {
        self.raw_environment
    }

    /// The C strings that the environment keeps alive for the engine.
    pub fn cstring_storage(&self) -> (storage: &Vec<Vec<u8>>)
        ensures
            storage_bytes(storage@) == self.strings(),
            holds_c_strings(self.strings()),
    {
        proof {
            use_type_invariant(self);
        }
        &self.cstring_storage
    }
}

} // verus!
