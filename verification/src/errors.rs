use vstd::prelude::*;

verus! {

/// The distinct ways a request can fail.
///
/// Every failure aborts the request: no partial results are ever produced,
/// and nothing is retried.
#[derive(Clone, Copy, Debug, PartialEq, Eq, Structural)]
pub enum ErrorKind {
    /// The pipeline input was not a textual value.
    TypeMismatch,
    /// The input text holds no delimiter separating the source command from
    /// the rest of the pipeline, so there is nothing to transform.
    MissingDelimiter,
    /// The extracted command fragment matched no catalog pattern.
    NoSchema,
    /// The recipe interpreter process could not be started or its channels
    /// failed.
    ExecutionFailed,
    /// The recipe interpreter's output was not parseable JSON.
    MalformedOutput,
    /// The parsed document was not a top-level array.
    UnexpectedShape,
}

/// A labeled failure surfaced to the caller: its kind, a short human-readable
/// message, a label elaborating on the message, and whether the failure
/// references a position within the original input text (as opposed to an
/// unknown position, for failures arising from the interpreter's output).
#[derive(Debug, Clone)]
pub struct Failure {
    pub kind: ErrorKind,
    pub message: String,
    pub label: String,
    pub references_input: bool,
}

impl Failure {
    /// A failure that points back at the original input text.
    pub fn at_input(kind: ErrorKind, message: &str, label: &str) -> (r: Failure)
        ensures
            r.kind == kind,
            r.message@ == message@,
            r.label@ == label@,
            r.references_input,
    {
        Failure {
            kind,
            message: String::from_str(message),
            label: String::from_str(label),
            references_input: true,
        }
    }

    /// A failure that points back at the original input text, with a label
    /// built from a fixed prefix and a per-request detail.
    pub fn at_input_with_detail(kind: ErrorKind, message: &str, label_prefix: &str, detail: &str) -> (r: Failure)
        ensures
            r.kind == kind,
            r.message@ == message@,
            r.label@ == label_prefix@ + detail@,
            r.references_input,
    {
        Failure {
            kind,
            message: String::from_str(message),
            label: String::from_str(label_prefix).concat(detail),
            references_input: true,
        }
    }

    /// A failure with no usable position in the original input, with a label
    /// built from a fixed prefix and a per-request detail.
    pub fn unpositioned_with_detail(
        kind: ErrorKind,
        message: &str,
        label_prefix: &str,
        detail: &str,
    ) -> (r: Failure)
        ensures
            r.kind == kind,
            r.message@ == message@,
            r.label@ == label_prefix@ + detail@,
            !r.references_input,
    {
        Failure {
            kind,
            message: String::from_str(message),
            label: String::from_str(label_prefix).concat(detail),
            references_input: false,
        }
    }

    /// A failure with no usable position in the original input.
    pub fn unpositioned(kind: ErrorKind, message: &str, label: &str) -> (r: Failure)
        ensures
            r.kind == kind,
            r.message@ == message@,
            r.label@ == label@,
            !r.references_input,
    {
        Failure {
            kind,
            message: String::from_str(message),
            label: String::from_str(label),
            references_input: false,
        }
    }
}

} // verus!
