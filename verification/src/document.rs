use vstd::prelude::*;

verus! {

/// One key/value pair of a JSON object, the value already coerced to text:
/// a string's own characters, `true`/`false` for a boolean, a number's
/// decimal rendering, `null`, or the JSON dump of a nested array or object.
#[derive(Debug, Clone)]
pub struct Field {
    pub key: String,
    pub text: String,
}

/// The mathematical model of a field: the key's and the coerced value's
/// character sequences.
pub struct FieldView {
    pub key: Seq<char>,
    pub text: Seq<char>,
}

impl View for Field {
    type V = FieldView;

    open spec fn view(&self) -> FieldView {
        FieldView { key: self.key@, text: self.text@ }
    }
}

/// One element of a top-level JSON array, classified for row extraction: an
/// object with its fields in their source order, or any other element (which
/// the materializer skips).
#[derive(Debug, Clone)]
pub enum Element {
    Object(Vec<Field>),
    NonObject,
}

/// The mathematical model of an array element.
pub enum ElementView {
    Object(Seq<FieldView>),
    NonObject,
}

impl View for Element {
    type V = ElementView;

    open spec fn view(&self) -> ElementView {
        match self {
            Element::Object(fields) => ElementView::Object(
                fields@.map_values(|f: Field| f@),
            ),
            Element::NonObject => ElementView::NonObject,
        }
    }
}

/// The structured document a recipe produces, as far as the engine reads it:
/// a top-level JSON array with its elements, or any other top-level shape
/// (an object or a scalar), which the materializer rejects.
#[derive(Debug, Clone)]
pub enum IntermediateDocument {
    Array(Vec<Element>),
    NotArray,
}

/// The mathematical model of an intermediate document.
pub enum DocumentView {
    Array(Seq<ElementView>),
    NotArray,
}

impl View for IntermediateDocument {
    type V = DocumentView;

    open spec fn view(&self) -> DocumentView {
        match self {
            IntermediateDocument::Array(elements) => DocumentView::Array(
                elements@.map_values(|e: Element| e@),
            ),
            IntermediateDocument::NotArray => DocumentView::NotArray,
        }
    }
}

/// The document that parsing a given text yields, or `None` when the parser
/// rejects the text as malformed JSON. Parsing is a function of the text
/// alone: the parser reads nothing but its input, and a JSON object's fields
/// come back in their source order.
pub uninterp spec fn parsed_document(text: Seq<char>) -> Option<DocumentView>;

/// The parser's own message for a text it rejects. Like the parse result, it
/// is a function of the text alone. Meaningful only when `parsed_document`
/// is `None`.
pub uninterp spec fn parse_error_text(text: Seq<char>) -> Seq<char>;

/// Relies on json::parse, which succeeds exactly on the texts it can read as
/// JSON and yields their parse tree, and on the display rendering of
/// json::JsonValue, which coerces each value to text from the value alone.
/// All three results — acceptance, the tree, and the rejection message — are
/// functions of the input text.
#[verifier::external_body]
pub(crate) fn parse_document(text: &str) -> (r: Result<IntermediateDocument, String>)
    ensures
        r is Ok <==> parsed_document(text@) is Some,
        r matches Ok(doc) ==> doc@ == parsed_document(text@)->Some_0,
        r matches Err(detail) ==> detail@ == parse_error_text(text@),
{
    match json::parse(text) {
        Err(e) => Err(e.to_string()),
        Ok(json::JsonValue::Array(items)) => Ok(IntermediateDocument::Array(
            items.iter().map(|item| match item {
                json::JsonValue::Object(entries) => Element::Object(
                    entries.iter().map(
                        |(k, v)| Field { key: k.to_string(), text: v.to_string() },
                    ).collect(),
                ),
                _ => Element::NonObject,
            }).collect(),
        )),
        Ok(_) => Ok(IntermediateDocument::NotArray),
    }
}

} // verus!
