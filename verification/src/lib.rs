//! A command-to-table engine for an interactive shell pipeline.
//!
//! Given the source text of a pipeline, the engine extracts the leading
//! command fragment, looks it up in an ordered catalog of recognized command
//! patterns, and plans a nested structured-data pipeline whose JSON output is
//! then normalized into a row/column table value.

mod catalog;
mod document;
mod errors;
mod matcher;
mod orchestrator;
mod table;

pub use catalog::Catalog;
pub use catalog::Schema;
pub use catalog::SchemaDef;
pub use catalog::SchemaView;
pub use catalog::accepted_schemas;
pub use catalog::default_definitions;
pub use catalog::defs_view;
pub use catalog::find_spec;
pub use catalog::git_log_schema;
pub use catalog::git_status_schema;
pub use catalog::lemma_find_spec_at;
pub use catalog::lemma_find_spec_sound;
pub use catalog::lemma_match_order_stable;
pub use catalog::loaded_catalog;
pub use catalog::regex_match;
pub use catalog::regex_valid;
pub use catalog::rejected_defs;
pub use catalog::schema_wf;
pub use catalog::schemas_view;
pub use document::DocumentView;
pub use document::Element;
pub use document::ElementView;
pub use document::Field;
pub use document::FieldView;
pub use document::IntermediateDocument;
pub use document::parse_error_text;
pub use document::parsed_document;
pub use errors::ErrorKind;
pub use errors::Failure;
pub use matcher::DELIMITER;
pub use matcher::command_fragment;
pub use matcher::extract_command;
pub use matcher::first_delimiter;
pub use matcher::has_delimiter;
pub use matcher::lemma_first_delimiter_at;
pub use matcher::lemma_first_delimiter_spec;
pub use matcher::lemma_has_delimiter_iff;
pub use orchestrator::PipelineInput;
pub use orchestrator::Plan;
pub use orchestrator::decode_pipeline_text;
pub use orchestrator::finish;
pub use orchestrator::invocation_of;
pub use orchestrator::plan_request;
pub use orchestrator::planned;
pub use orchestrator::prepare;
pub use orchestrator::recipe_invocation;
pub use table::Cell;
pub use table::CellView;
pub use table::Row;
pub use table::TableValue;
pub use table::field_row;
pub use table::lemma_single_field_objects_round_trip;
pub use table::materialize;
pub use table::rows_of;
pub use table::rows_of_element;
