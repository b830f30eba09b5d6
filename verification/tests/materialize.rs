use tabfy::Element;
use tabfy::ErrorKind;
use tabfy::Field;
use tabfy::IntermediateDocument;
use tabfy::TableValue;
use tabfy::finish;
use tabfy::materialize;

fn table_as_pairs(table: &TableValue) -> Vec<Vec<(String, String)>> {
    table
        .rows
        .iter()
        .map(|row| {
            row.cells
                .iter()
                .map(|cell| (cell.column.clone(), cell.text.clone()))
                .collect()
        })
        .collect()
}

fn field(key: &str, text: &str) -> Field {
    Field { key: String::from(key), text: String::from(text) }
}

#[test]
fn array_of_single_key_objects_yields_one_row_per_object() {
    let table = finish("[{\"status\": \"modified\"}, {\"status\": \"deleted\"}]").unwrap();
    let rows = table_as_pairs(&table);
    assert_eq!(
        rows,
        vec![
            vec![(String::from("status"), String::from("modified"))],
            vec![(String::from("status"), String::from("deleted"))],
        ],
    );
}

#[test]
fn object_with_several_keys_yields_one_row_per_key() {
    let table = finish("[{\"name\": \"a\", \"size\": 3}]").unwrap();
    let rows = table_as_pairs(&table);
    assert_eq!(
        rows,
        vec![
            vec![(String::from("name"), String::from("a"))],
            vec![(String::from("size"), String::from("3"))],
        ],
    );
}

#[test]
fn scalar_values_are_coerced_to_text() {
    let table = finish("[{\"n\": 42}, {\"b\": true}, {\"z\": null}, {\"s\": \"x\"}]").unwrap();
    let rows = table_as_pairs(&table);
    assert_eq!(
        rows,
        vec![
            vec![(String::from("n"), String::from("42"))],
            vec![(String::from("b"), String::from("true"))],
            vec![(String::from("z"), String::from("null"))],
            vec![(String::from("s"), String::from("x"))],
        ],
    );
}

#[test]
fn non_object_array_elements_are_skipped() {
    let table = finish("[1, {\"k\": \"v\"}, [2, 3], \"plain\"]").unwrap();
    let rows = table_as_pairs(&table);
    assert_eq!(rows, vec![vec![(String::from("k"), String::from("v"))]]);
}

#[test]
fn empty_top_level_array_yields_an_empty_table() {
    let table = finish("[]").unwrap();
    assert_eq!(table.rows.len(), 0);
}

#[test]
fn top_level_object_is_unexpected_shape() {
    let failure = finish("{\"a\": 1}").unwrap_err();
    assert_eq!(failure.kind, ErrorKind::UnexpectedShape);
    assert!(!failure.references_input);
    assert_eq!(failure.message, "Expected an array in JSON input");
    assert_eq!(failure.label, "JSON input is not an array");
}

#[test]
fn top_level_scalar_is_unexpected_shape() {
    let failure = finish("17").unwrap_err();
    assert_eq!(failure.kind, ErrorKind::UnexpectedShape);
}

#[test]
fn unparseable_output_is_malformed_output() {
    let text = "not json at all {";
    let failure = finish(text).unwrap_err();
    assert_eq!(failure.kind, ErrorKind::MalformedOutput);
    assert!(!failure.references_input);
    assert_eq!(failure.message, "Failed to parse JSON");
    // The label carries the parser's own message for this text.
    let parser_message = json::parse(text).unwrap_err().to_string();
    assert_eq!(failure.label, format!("JSON parsing error: {parser_message}"));
}

#[test]
fn materializing_the_same_document_twice_yields_identical_tables() {
    let make_doc = || {
        IntermediateDocument::Array(vec![
            Element::Object(vec![field("a", "1"), field("b", "2")]),
            Element::NonObject,
            Element::Object(vec![field("c", "3")]),
        ])
    };
    let first = materialize(&make_doc()).unwrap();
    let second = materialize(&make_doc()).unwrap();
    assert_eq!(table_as_pairs(&first), table_as_pairs(&second));
    assert_eq!(
        table_as_pairs(&first),
        vec![
            vec![(String::from("a"), String::from("1"))],
            vec![(String::from("b"), String::from("2"))],
            vec![(String::from("c"), String::from("3"))],
        ],
    );
}

#[test]
fn materialize_rejects_a_non_array_document() {
    let failure = materialize(&IntermediateDocument::NotArray).unwrap_err();
    assert_eq!(failure.kind, ErrorKind::UnexpectedShape);
}

#[test]
fn nested_values_are_coerced_to_their_json_dump() {
    let table = finish("[{\"inner\": {\"x\": 1}}, {\"list\": [1, 2]}]").unwrap();
    let rows = table_as_pairs(&table);
    assert_eq!(
        rows,
        vec![
            vec![(String::from("inner"), String::from("{\"x\":1}"))],
            vec![(String::from("list"), String::from("[1,2]"))],
        ],
    );
}

#[test]
fn git_status_recipe_output_yields_one_row_per_status_occurrence() {
    // The serialized document the recipe interpreter produces for a typical
    // `git status` output with two modified files and one deleted file.
    let recipe_output = "[{\"status\": \"modified\"}, {\"status\": \"modified\"}, {\"status\": \"deleted\"}]";
    let table = finish(recipe_output).unwrap();
    let rows = table_as_pairs(&table);
    assert_eq!(rows.len(), 3);
    assert_eq!(rows[0], vec![(String::from("status"), String::from("modified"))]);
    assert_eq!(rows[1], vec![(String::from("status"), String::from("modified"))]);
    assert_eq!(rows[2], vec![(String::from("status"), String::from("deleted"))]);
}
