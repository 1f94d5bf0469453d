use vstd::prelude::*;

verus! {

/// Errors that can occur while operating a form.
///
/// VM-side failures carry the VM's error text as a plain string; decoding
/// failures of the script's output are reported by variant alone, as the
/// decoder itself is pure.
#[derive(Debug, PartialEq, Eq)]
pub enum Error {
    /// The script's top-level execution failed while loading.
    ScriptLoadFailed { message: String },
    /// The script defines no callable `Main` global.
    NoMainFunction { message: String },
    /// Invoking the driver function raised a VM-side error.
    RunDriverFailed { message: String },
    /// The driver's return value was not a table holding a status string,
    /// a payload and a state.
    InvalidResult,
    /// The status string was none of `question`, `error` or `done`.
    InvalidState { value: String },
    /// The driver's internal state could not be serialized.
    SerializeStateFailed { message: String },
    /// The completed driver's result could not be serialized.
    SerializeAnswersFailed { message: String },
    /// A status of `error` came with a payload that is not a string.
    NonStringErrorMessage,
    /// A status of `question` came with a payload that is not a table.
    NonTableQuestion,
    /// The question payload has no string under `id`.
    NoIdInQuestionData,
    /// The question payload has no string under `type`.
    NoTypeInQuestionData,
    /// The question payload has no string under `text`.
    NoBodyInQuestionData,
    /// The question payload's `type` is none of the known kinds.
    InvalidQuestionType { ty: String },
    /// The `multiple` property of a select question is neither absent,
    /// null nor boolean.
    InvalidMultipleProperty,
    /// A select question's payload has no string sequence under `options`.
    NoOptionsInQuestionData,
    /// A select question's `default` does not appear among its `options`.
    DefaultNotInOptions { default: String },
    /// The very first poll of the driver reported a script-level error.
    FirstPollFailed { script_err: String },
    /// The very first poll of the driver completed the form without asking
    /// a question.
    FirstPollDone,
    /// The table holding the encoded answer could not be allocated in the VM.
    AllocateAnswerTableFailed { message: String },
    /// The answer's shape does not match the question it was given for.
    InvalidAnswerType { expected: &'static str },
    /// The form parameters could not be serialized into the VM.
    SerializeFormParamsFailed { message: String },
}

/// The mathematical image of an [`Error`], with string payloads as
/// character sequences.
#[verifier::ext_equal]
pub enum ErrorV {
    ScriptLoadFailed { message: Seq<char> },
    NoMainFunction { message: Seq<char> },
    RunDriverFailed { message: Seq<char> },
    InvalidResult,
    InvalidState { value: Seq<char> },
    SerializeStateFailed { message: Seq<char> },
    SerializeAnswersFailed { message: Seq<char> },
    NonStringErrorMessage,
    NonTableQuestion,
    NoIdInQuestionData,
    NoTypeInQuestionData,
    NoBodyInQuestionData,
    InvalidQuestionType { ty: Seq<char> },
    InvalidMultipleProperty,
    NoOptionsInQuestionData,
    DefaultNotInOptions { default: Seq<char> },
    FirstPollFailed { script_err: Seq<char> },
    FirstPollDone,
    AllocateAnswerTableFailed { message: Seq<char> },
    InvalidAnswerType { expected: Seq<char> },
    SerializeFormParamsFailed { message: Seq<char> },
}

impl View for Error {
    type V = ErrorV;

    open spec fn view(&self) -> ErrorV {
        match self {
            Error::ScriptLoadFailed { message } => ErrorV::ScriptLoadFailed { message: message@ },
            Error::NoMainFunction { message } => ErrorV::NoMainFunction { message: message@ },
            Error::RunDriverFailed { message } => ErrorV::RunDriverFailed { message: message@ },
            Error::InvalidResult => ErrorV::InvalidResult,
            Error::InvalidState { value } => ErrorV::InvalidState { value: value@ },
            Error::SerializeStateFailed { message } => ErrorV::SerializeStateFailed {
                message: message@,
            },
            Error::SerializeAnswersFailed { message } => ErrorV::SerializeAnswersFailed {
                message: message@,
            },
            Error::NonStringErrorMessage => ErrorV::NonStringErrorMessage,
            Error::NonTableQuestion => ErrorV::NonTableQuestion,
            Error::NoIdInQuestionData => ErrorV::NoIdInQuestionData,
            Error::NoTypeInQuestionData => ErrorV::NoTypeInQuestionData,
            Error::NoBodyInQuestionData => ErrorV::NoBodyInQuestionData,
            Error::InvalidQuestionType { ty } => ErrorV::InvalidQuestionType { ty: ty@ },
            Error::InvalidMultipleProperty => ErrorV::InvalidMultipleProperty,
            Error::NoOptionsInQuestionData => ErrorV::NoOptionsInQuestionData,
            Error::DefaultNotInOptions { default } => ErrorV::DefaultNotInOptions {
                default: default@,
            },
            Error::FirstPollFailed { script_err } => ErrorV::FirstPollFailed {
                script_err: script_err@,
            },
            Error::FirstPollDone => ErrorV::FirstPollDone,
            Error::AllocateAnswerTableFailed { message } => ErrorV::AllocateAnswerTableFailed {
                message: message@,
            },
            Error::InvalidAnswerType { expected } => ErrorV::InvalidAnswerType {
                expected: expected@,
            },
            Error::SerializeFormParamsFailed { message } => ErrorV::SerializeFormParamsFailed {
                message: message@,
            },
        }
    }
}

} // verus!
