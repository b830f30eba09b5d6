use tabfy::Catalog;
use tabfy::ErrorKind;
use tabfy::PipelineInput;
use tabfy::Schema;
use tabfy::SchemaDef;
use tabfy::decode_pipeline_text;
use tabfy::extract_command;
use tabfy::plan_request;
use tabfy::prepare;
use tabfy::recipe_invocation;

const GIT_STATUS_RECIPE: &str = "lines | skip 4 | parse --regex '(?<status>modified|deleted)'";
const GIT_LOG_RECIPE: &str = "parse \"commit {COMMIT_SHA}\"";

#[test]
fn extract_command_returns_text_before_first_delimiter() {
    let fragment = extract_command("git status | columns").unwrap();
    assert_eq!(fragment, "git status ");
}

#[test]
fn extract_command_stops_at_first_of_several_delimiters() {
    let fragment = extract_command("a | b | c").unwrap();
    assert_eq!(fragment, "a ");
}

#[test]
fn extract_command_without_delimiter_is_missing_delimiter() {
    let failure = extract_command("git status").unwrap_err();
    assert_eq!(failure.kind, ErrorKind::MissingDelimiter);
    assert!(failure.references_input);
    assert_eq!(failure.message, "Expected '|' in input string");
}

#[test]
fn extract_command_on_empty_text_is_missing_delimiter() {
    let failure = extract_command("").unwrap_err();
    assert_eq!(failure.kind, ErrorKind::MissingDelimiter);
}

#[test]
fn extract_command_with_leading_delimiter_yields_empty_fragment() {
    let fragment = extract_command("| columns").unwrap();
    assert_eq!(fragment, "");
}

#[test]
fn extract_command_handles_multibyte_text_before_the_delimiter() {
    let fragment = extract_command("lög —x | rest").unwrap();
    assert_eq!(fragment, "lög —x ");
}

#[test]
fn schema_with_invalid_pattern_is_rejected() {
    assert!(Schema::new(r"([unclosed", "recipe").is_none());
    assert!(Schema::new(r"^git(\s+)status", GIT_STATUS_RECIPE).is_some());
}

#[test]
fn build_drops_only_the_invalid_definitions() {
    let defs = vec![
        SchemaDef { pattern: String::from(r"([bad"), recipe: String::from("first") },
        SchemaDef { pattern: String::from(r"^ok"), recipe: String::from("second") },
    ];
    let (catalog, rejected) = Catalog::build(&defs);
    assert_eq!(catalog.schemas.len(), 1);
    assert_eq!(catalog.schemas[0].pattern, r"^ok");
    assert_eq!(catalog.schemas[0].recipe, "second");
    assert_eq!(rejected.len(), 1);
    assert_eq!(rejected[0].pattern, r"([bad");
    assert_eq!(rejected[0].recipe, "first");
}

#[test]
fn load_holds_the_two_built_in_schemas_in_order() {
    let catalog = Catalog::load();
    assert_eq!(catalog.schemas.len(), 2);
    assert_eq!(catalog.schemas[0].pattern, r"^git(\s+)status");
    assert_eq!(catalog.schemas[0].recipe, GIT_STATUS_RECIPE);
    assert_eq!(catalog.schemas[1].pattern, r"^git(\s+)log");
    assert_eq!(catalog.schemas[1].recipe, GIT_LOG_RECIPE);
}

#[test]
fn find_selects_the_first_matching_schema_in_catalog_order() {
    let defs = vec![
        SchemaDef { pattern: String::from("status"), recipe: String::from("earlier") },
        SchemaDef { pattern: String::from("git"), recipe: String::from("later") },
    ];
    let (catalog, rejected) = Catalog::build(&defs);
    assert!(rejected.is_empty());
    // Both patterns match this fragment; the earlier-registered schema wins.
    let chosen = catalog.find("git status ").unwrap();
    assert_eq!(chosen.recipe, "earlier");
    // Only the later pattern matches this one.
    let chosen = catalog.find("git log ").unwrap();
    assert_eq!(chosen.recipe, "later");
    assert!(catalog.find("ls -la ").is_none());
}

#[test]
fn find_is_stable_under_swapped_registration_order() {
    let defs = vec![
        SchemaDef { pattern: String::from("git"), recipe: String::from("later") },
        SchemaDef { pattern: String::from("status"), recipe: String::from("earlier") },
    ];
    let (catalog, _) = Catalog::build(&defs);
    let chosen = catalog.find("git status ").unwrap();
    assert_eq!(chosen.recipe, "later");
}

#[test]
fn plan_for_git_status_pipeline_matches_the_status_schema() {
    let input = PipelineInput::Text(String::from("git status | columns"));
    let plan = plan_request(&input).unwrap();
    assert_eq!(plan.fragment, "git status ");
    assert_eq!(plan.recipe, GIT_STATUS_RECIPE);
    assert_eq!(
        plan.invocation,
        "| lines | skip 4 | parse --regex '(?<status>modified|deleted)' | to json",
    );
}

#[test]
fn plan_for_git_log_pipeline_matches_the_log_schema() {
    let input = PipelineInput::Text(String::from("git log | first 3"));
    let plan = plan_request(&input).unwrap();
    assert_eq!(plan.fragment, "git log ");
    assert_eq!(plan.recipe, GIT_LOG_RECIPE);
}

#[test]
fn plan_for_unmatched_fragment_is_no_schema_at_input_position() {
    let input = PipelineInput::Text(String::from("ls -la | columns"));
    let failure = plan_request(&input).unwrap_err();
    assert_eq!(failure.kind, ErrorKind::NoSchema);
    assert!(failure.references_input);
    assert_eq!(failure.message, "No matching schema found");
    assert_eq!(failure.label, "input command does not match any schema");
}

#[test]
fn plan_without_delimiter_is_missing_delimiter() {
    let input = PipelineInput::Text(String::from("git status"));
    let failure = plan_request(&input).unwrap_err();
    assert_eq!(failure.kind, ErrorKind::MissingDelimiter);
    assert!(failure.references_input);
}

#[test]
fn plan_for_non_text_input_is_type_mismatch() {
    let input = PipelineInput::NonText(String::from("int"));
    let failure = plan_request(&input).unwrap_err();
    assert_eq!(failure.kind, ErrorKind::TypeMismatch);
    assert!(failure.references_input);
    assert_eq!(failure.message, "Expected String input from pipeline");
    assert_eq!(failure.label, "requires string input; got int");
}

#[test]
fn prepare_uses_the_catalog_it_is_given() {
    let defs = vec![SchemaDef {
        pattern: String::from("^ls"),
        recipe: String::from("lines"),
    }];
    let (catalog, _) = Catalog::build(&defs);
    let input = PipelineInput::Text(String::from("ls -la | columns"));
    let plan = prepare(&catalog, &input).unwrap();
    assert_eq!(plan.fragment, "ls -la ");
    assert_eq!(plan.recipe, "lines");
    assert_eq!(plan.invocation, "| lines | to json");
}

#[test]
fn recipe_invocation_appends_the_serialization_step() {
    assert_eq!(recipe_invocation("lines"), "| lines | to json");
    assert_eq!(recipe_invocation(""), "|  | to json");
}

#[test]
fn decode_pipeline_text_accepts_utf8_and_rejects_other_bytes() {
    let text = decode_pipeline_text(Vec::from("git status | ".as_bytes())).unwrap();
    assert_eq!(text, "git status | ");
    let failure = decode_pipeline_text(vec![0xff, 0xfe]).unwrap_err();
    assert_eq!(failure.kind, ErrorKind::TypeMismatch);
    assert!(failure.references_input);
    assert_eq!(failure.message, "Invalid UTF-8 sequence");
    assert_eq!(failure.label, "span contents are not valid UTF-8");
}
