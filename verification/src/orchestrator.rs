use vstd::prelude::*;
use vstd::utf8::encode_utf8;
use vstd::utf8::valid_utf8;

use crate::catalog::Catalog;
use crate::catalog::SchemaView;
use crate::catalog::find_spec;
use crate::catalog::loaded_catalog;
use crate::document::DocumentView;
use crate::document::parse_document;
use crate::document::parse_error_text;
use crate::document::parsed_document;
use crate::errors::ErrorKind;
use crate::errors::Failure;
use crate::matcher::command_fragment;
use crate::matcher::extract_command;
use crate::matcher::has_delimiter;
use crate::table::TableValue;
use crate::table::materialize;
use crate::table::rows_of;

verus! {

/// The incoming pipeline value, as far as the engine reads it: its source
/// text when it is textual, or the name of its actual type (kept for
/// diagnostics) when it is not.
#[derive(Debug, Clone)]
pub enum PipelineInput {
    Text(String),
    NonText(String),
}

/// Everything the host needs to run a planned request: the command fragment
/// that matched, the matched schema's recipe, and the full invocation text
/// for the recipe interpreter, with the serialization step appended.
#[derive(Debug, Clone)]
pub struct Plan {
    pub fragment: String,
    pub recipe: String,
    pub invocation: String,
}

/// The interpreter invocation a recipe is stitched into: the recipe text
/// framed by a leading pipe and a trailing serialize-as-JSON step.
pub open spec fn invocation_of(recipe: Seq<char>) -> Seq<char> {
    "| "@ + recipe + " | to json"@
}

/// Builds the recipe interpreter's invocation text. The recipe's own step
/// syntax is opaque here: it is only stitched into the wrapper invocation.
pub fn recipe_invocation(recipe: &str) -> (r: String)
    ensures
        r@ == invocation_of(recipe@),
{
    String::from_str("| ").concat(recipe).concat(" | to json")
}

/// Relies on String::from_utf8: it succeeds exactly on valid UTF-8 and
/// returns the string holding those very bytes.
#[verifier::external_body]
fn string_from_utf8(bytes: Vec<u8>) -> (r: Option<String>)
    ensures
        r is Some <==> valid_utf8(bytes@),
        r matches Some(s) ==> encode_utf8(s@) == bytes@,
{
    String::from_utf8(bytes).ok()
}

/// Decodes the raw span bytes the host hands over for the pipeline's source
/// text. Bytes that are not valid UTF-8 are not text, so they are rejected
/// as a type mismatch.
pub fn decode_pipeline_text(bytes: Vec<u8>) -> (r: Result<String, Failure>)
    ensures
        r is Ok <==> valid_utf8(bytes@),
        r matches Ok(s) ==> encode_utf8(s@) == bytes@,
        r matches Err(f) ==> f.kind == ErrorKind::TypeMismatch && f.references_input
            && f.message@ == "Invalid UTF-8 sequence"@ && f.label@
            == "span contents are not valid UTF-8"@,
{
    match string_from_utf8(bytes) {
        Some(s) => Ok(s),
        None => Err(
            Failure::at_input(
                ErrorKind::TypeMismatch,
                "Invalid UTF-8 sequence",
                "span contents are not valid UTF-8",
            ),
        ),
    }
}

/// What planning a request against a catalog returns, for every input: the
/// exact failure kind on non-textual input, on input lacking the delimiter,
/// and on a fragment no schema matches, and the exact plan otherwise.
pub open spec fn planned(
    catalog: Seq<SchemaView>,
    input: PipelineInput,
    r: Result<Plan, Failure>,
) -> bool {
    &&& input matches PipelineInput::NonText(ty) ==> (r matches Err(f) && f.kind
        == ErrorKind::TypeMismatch && f.references_input && f.message@
        == "Expected String input from pipeline"@ && f.label@
        == "requires string input; got "@ + ty@)
    &&& input matches PipelineInput::Text(text) ==> (!has_delimiter(text@) ==> (r matches Err(f)
        && f.kind == ErrorKind::MissingDelimiter && f.references_input && f.message@
        == "Expected '|' in input string"@))
    &&& input matches PipelineInput::Text(text) ==> ((has_delimiter(text@) && find_spec(
        catalog,
        command_fragment(text@),
    ) is None) ==> (r matches Err(f) && f.kind == ErrorKind::NoSchema && f.references_input
        && f.message@ == "No matching schema found"@ && f.label@
        == "input command does not match any schema"@))
    &&& input matches PipelineInput::Text(text) ==> (has_delimiter(text@) ==> (find_spec(
        catalog,
        command_fragment(text@),
    ) matches Some(i) ==> (r matches Ok(plan) && plan.fragment@ == command_fragment(text@)
        && plan.recipe@ == catalog[i].recipe && plan.invocation@ == invocation_of(
        catalog[i].recipe,
    ))))
}

/// Plans a request: rejects non-textual input, extracts the command fragment
/// before the first delimiter, and selects the first catalog schema whose
/// pattern matches the fragment. On success nothing has been run yet: the
/// returned plan carries what the host must execute. On failure no process
/// is ever to be invoked, and the failure points back into the original
/// input.
pub fn prepare(catalog: &Catalog, input: &PipelineInput) -> (r: Result<Plan, Failure>)
    requires
        catalog.wf(),
    ensures
        planned(catalog@, *input, r),
{
    match input {
        PipelineInput::NonText(ty) => Err(
            Failure::at_input_with_detail(
                ErrorKind::TypeMismatch,
                "Expected String input from pipeline",
                "requires string input; got ",
                ty.as_str(),
            ),
        ),
        PipelineInput::Text(text) => {
            let fragment = extract_command(text.as_str())?;
            match catalog.find(fragment.as_str()) {
                None => Err(
                    Failure::at_input(
                        ErrorKind::NoSchema,
                        "No matching schema found",
                        "input command does not match any schema",
                    ),
                ),
                Some(schema) => {
                    let invocation = recipe_invocation(schema.recipe.as_str());
                    Ok(
                        Plan {
                            fragment,
                            recipe: schema.recipe.clone(),
                            invocation,
                        },
                    )
                },
            }
        },
    }
}

/// Plans a request against the catalog of built-in schemas: the one-call
/// planning entry for a host that does not hold a catalog of its own.
pub fn plan_request(input: &PipelineInput) -> (r: Result<Plan, Failure>)
    ensures
        planned(loaded_catalog(), *input, r),
{
    let catalog = Catalog::load();
    prepare(&catalog, input)
}

/// Finishes a request from the recipe interpreter's output: parses it as
/// JSON and materializes the table. Output that is not valid JSON is
/// malformed; parsed output that is not a top-level array has an unexpected
/// shape. Neither failure can point into the original input.
pub fn finish(recipe_output: &str) -> (r: Result<TableValue, Failure>)
    ensures
        parsed_document(recipe_output@) is None ==> (r matches Err(f) && f.kind
            == ErrorKind::MalformedOutput && !f.references_input && f.message@
            == "Failed to parse JSON"@ && f.label@ == "JSON parsing error: "@
            + parse_error_text(recipe_output@)),
        parsed_document(recipe_output@) matches Some(doc) ==> (doc is NotArray ==> (r matches
            Err(f) && f.kind == ErrorKind::UnexpectedShape && !f.references_input && f.message@
            == "Expected an array in JSON input"@ && f.label@
            == "JSON input is not an array"@)),
        parsed_document(recipe_output@) matches Some(doc) ==> (doc matches DocumentView::Array(
            elements,
        ) ==> (r matches Ok(t) && t@ == rows_of(elements))),
{
    match parse_document(recipe_output) {
        Err(detail) => Err(
            Failure::unpositioned_with_detail(
                ErrorKind::MalformedOutput,
                "Failed to parse JSON",
                "JSON parsing error: ",
                detail.as_str(),
            ),
        ),
        Ok(doc) => materialize(&doc),
    }
}

} // verus!
