//! The JSON Schemas of the catalog: for each tool what it takes and what it
//! returns.

use vstd::prelude::*;
use crate::json::{no_fields, no_items, push_field, push_item, Json, JsonView};

verus! {

/// The schema of the arguments of `fs.read`.
pub open spec fn fs_read_input_schema_view() -> JsonView {
    JsonView::Object(Seq::empty()
        .push(("type"@, JsonView::Str("object"@)))
        .push(("properties"@, JsonView::Object(Seq::empty()
            .push(("path"@, JsonView::Object(Seq::empty()
                .push(("type"@, JsonView::Str("string"@)))
                .push(("description"@, JsonView::Str("File path to read"@))))))
            .push(("range"@, JsonView::Object(Seq::empty()
                .push(("type"@, JsonView::Str("object"@)))
                .push(("properties"@, JsonView::Object(Seq::empty()
                    .push(("start"@, JsonView::Object(Seq::empty()
                        .push(("type"@, JsonView::Str("integer"@)))
                        .push(("minimum"@, JsonView::Int(0))))))
                    .push(("end"@, JsonView::Object(Seq::empty()
                        .push(("type"@, JsonView::Str("integer"@)))
                        .push(("minimum"@, JsonView::Int(0)))))))))
                .push(("description"@, JsonView::Str("Optional byte range to read"@))))))
            .push(("encoding"@, JsonView::Object(Seq::empty()
                .push(("type"@, JsonView::Str("string"@)))
                .push(("description"@, JsonView::Str("File encoding (default: utf-8)"@)))))))))
        .push(("required"@, JsonView::Array(Seq::empty()
            .push(JsonView::Str("path"@))))))
}

/// Builds the schema of the arguments of `fs.read`.
pub fn fs_read_input_schema() -> (j: Json)
    ensures
        j@ == fs_read_input_schema_view(),
{
    let mut schema = no_fields();
    push_field(&mut schema, "type", Json::string("object"));
    let mut properties = no_fields();
    let mut path = no_fields();
    push_field(&mut path, "type", Json::string("string"));
    push_field(&mut path, "description", Json::string("File path to read"));
    push_field(&mut properties, "path", Json::object(path));
    let mut range = no_fields();
    push_field(&mut range, "type", Json::string("object"));
    let mut range_properties = no_fields();
    let mut start = no_fields();
    push_field(&mut start, "type", Json::string("integer"));
    push_field(&mut start, "minimum", Json::Int(0));
    push_field(&mut range_properties, "start", Json::object(start));
    let mut end = no_fields();
    push_field(&mut end, "type", Json::string("integer"));
    push_field(&mut end, "minimum", Json::Int(0));
    push_field(&mut range_properties, "end", Json::object(end));
    push_field(&mut range, "properties", Json::object(range_properties));
    push_field(&mut range, "description", Json::string("Optional byte range to read"));
    push_field(&mut properties, "range", Json::object(range));
    let mut encoding = no_fields();
    push_field(&mut encoding, "type", Json::string("string"));
    push_field(&mut encoding, "description", Json::string("File encoding (default: utf-8)"));
    push_field(&mut properties, "encoding", Json::object(encoding));
    push_field(&mut schema, "properties", Json::object(properties));
    let mut required = no_items();
    push_item(&mut required, Json::string("path"));
    push_field(&mut schema, "required", Json::array(required));
    Json::object(schema)
}

/// The schema of the result of `fs.read`.
pub open spec fn fs_read_output_schema_view() -> JsonView {
    JsonView::Object(Seq::empty()
        .push(("type"@, JsonView::Str("object"@)))
        .push(("properties"@, JsonView::Object(Seq::empty()
            .push(("contents"@, JsonView::Object(Seq::empty()
                .push(("type"@, JsonView::Str("string"@))))))
            .push(("encoding"@, JsonView::Object(Seq::empty()
                .push(("type"@, JsonView::Str("string"@))))))
            .push(("truncated"@, JsonView::Object(Seq::empty()
                .push(("type"@, JsonView::Str("boolean"@)))))))))
        .push(("required"@, JsonView::Array(Seq::empty()
            .push(JsonView::Str("contents"@))
            .push(JsonView::Str("encoding"@))
            .push(JsonView::Str("truncated"@))))))
}

/// Builds the schema of the result of `fs.read`.
pub fn fs_read_output_schema() -> (j: Json)
    ensures
        j@ == fs_read_output_schema_view(),
{
    let mut schema = no_fields();
    push_field(&mut schema, "type", Json::string("object"));
    let mut properties = no_fields();
    let mut contents = no_fields();
    push_field(&mut contents, "type", Json::string("string"));
    push_field(&mut properties, "contents", Json::object(contents));
    let mut encoding = no_fields();
    push_field(&mut encoding, "type", Json::string("string"));
    push_field(&mut properties, "encoding", Json::object(encoding));
    let mut truncated = no_fields();
    push_field(&mut truncated, "type", Json::string("boolean"));
    push_field(&mut properties, "truncated", Json::object(truncated));
    push_field(&mut schema, "properties", Json::object(properties));
    let mut required = no_items();
    push_item(&mut required, Json::string("contents"));
    push_item(&mut required, Json::string("encoding"));
    push_item(&mut required, Json::string("truncated"));
    push_field(&mut schema, "required", Json::array(required));
    Json::object(schema)
}

/// The schema of the arguments of `fs.search`.
pub open spec fn fs_search_input_schema_view() -> JsonView {
    JsonView::Object(Seq::empty()
        .push(("type"@, JsonView::Str("object"@)))
        .push(("properties"@, JsonView::Object(Seq::empty()
            .push(("query"@, JsonView::Object(Seq::empty()
                .push(("type"@, JsonView::Str("string"@)))
                .push(("description"@, JsonView::Str("Search query"@))))))
            .push(("globs"@, JsonView::Object(Seq::empty()
                .push(("type"@, JsonView::Str("array"@)))
                .push(("items"@, JsonView::Object(Seq::empty()
                    .push(("type"@, JsonView::Str("string"@))))))
                .push(("description"@, JsonView::Str("File patterns to search"@))))))
            .push(("max_results"@, JsonView::Object(Seq::empty()
                .push(("type"@, JsonView::Str("integer"@)))
                .push(("minimum"@, JsonView::Int(1)))
                .push(("description"@, JsonView::Str("Maximum results"@))))))
            .push(("regex"@, JsonView::Object(Seq::empty()
                .push(("type"@, JsonView::Str("boolean"@)))
                .push(("description"@, JsonView::Str("Use regex search"@))))))
            .push(("case_insensitive"@, JsonView::Object(Seq::empty()
                .push(("type"@, JsonView::Str("boolean"@)))
                .push(("description"@, JsonView::Str("Case insensitive search"@))))))
            .push(("multiline"@, JsonView::Object(Seq::empty()
                .push(("type"@, JsonView::Str("boolean"@)))
                .push(("description"@, JsonView::Str("Multiline search"@)))))))))
        .push(("required"@, JsonView::Array(Seq::empty()
            .push(JsonView::Str("query"@))))))
}

/// Builds the schema of the arguments of `fs.search`.
pub fn fs_search_input_schema() -> (j: Json)
    ensures
        j@ == fs_search_input_schema_view(),
{
    let mut schema = no_fields();
    push_field(&mut schema, "type", Json::string("object"));
    let mut properties = no_fields();
    let mut query = no_fields();
    push_field(&mut query, "type", Json::string("string"));
    push_field(&mut query, "description", Json::string("Search query"));
    push_field(&mut properties, "query", Json::object(query));
    let mut globs = no_fields();
    push_field(&mut globs, "type", Json::string("array"));
    let mut globs_items = no_fields();
    push_field(&mut globs_items, "type", Json::string("string"));
    push_field(&mut globs, "items", Json::object(globs_items));
    push_field(&mut globs, "description", Json::string("File patterns to search"));
    push_field(&mut properties, "globs", Json::object(globs));
    let mut max_results = no_fields();
    push_field(&mut max_results, "type", Json::string("integer"));
    push_field(&mut max_results, "minimum", Json::Int(1));
    push_field(&mut max_results, "description", Json::string("Maximum results"));
    push_field(&mut properties, "max_results", Json::object(max_results));
    let mut regex = no_fields();
    push_field(&mut regex, "type", Json::string("boolean"));
    push_field(&mut regex, "description", Json::string("Use regex search"));
    push_field(&mut properties, "regex", Json::object(regex));
    let mut case_insensitive = no_fields();
    push_field(&mut case_insensitive, "type", Json::string("boolean"));
    push_field(&mut case_insensitive, "description", Json::string("Case insensitive search"));
    push_field(&mut properties, "case_insensitive", Json::object(case_insensitive));
    let mut multiline = no_fields();
    push_field(&mut multiline, "type", Json::string("boolean"));
    push_field(&mut multiline, "description", Json::string("Multiline search"));
    push_field(&mut properties, "multiline", Json::object(multiline));
    push_field(&mut schema, "properties", Json::object(properties));
    let mut required = no_items();
    push_item(&mut required, Json::string("query"));
    push_field(&mut schema, "required", Json::array(required));
    Json::object(schema)
}

/// The schema of the result of `fs.search`.
pub open spec fn fs_search_output_schema_view() -> JsonView {
    JsonView::Object(Seq::empty()
        .push(("type"@, JsonView::Str("object"@)))
        .push(("properties"@, JsonView::Object(Seq::empty()
            .push(("matches"@, JsonView::Object(Seq::empty()
                .push(("type"@, JsonView::Str("array"@)))
                .push(("items"@, JsonView::Object(Seq::empty()
                    .push(("type"@, JsonView::Str("object"@)))
                    .push(("properties"@, JsonView::Object(Seq::empty()
                        .push(("path"@, JsonView::Object(Seq::empty()
                            .push(("type"@, JsonView::Str("string"@))))))
                        .push(("lines"@, JsonView::Object(Seq::empty()
                            .push(("type"@, JsonView::Str("array"@)))
                            .push(("items"@, JsonView::Object(Seq::empty()
                                .push(("type"@, JsonView::Str("object"@)))
                                .push(("properties"@, JsonView::Object(Seq::empty()
                                    .push(("ln"@, JsonView::Object(Seq::empty()
                                        .push(("type"@, JsonView::Str("integer"@))))))
                                    .push(("text"@, JsonView::Object(Seq::empty()
                                        .push(("type"@, JsonView::Str("string"@))))))))))))))))))))))))))))
}

/// Builds the schema of the result of `fs.search`.
pub fn fs_search_output_schema() -> (j: Json)
    ensures
        j@ == fs_search_output_schema_view(),
{
    let mut schema = no_fields();
    push_field(&mut schema, "type", Json::string("object"));
    let mut properties = no_fields();
    let mut matches = no_fields();
    push_field(&mut matches, "type", Json::string("array"));
    let mut matches_items = no_fields();
    push_field(&mut matches_items, "type", Json::string("object"));
    let mut matches_items_properties = no_fields();
    let mut path = no_fields();
    push_field(&mut path, "type", Json::string("string"));
    push_field(&mut matches_items_properties, "path", Json::object(path));
    let mut lines = no_fields();
    push_field(&mut lines, "type", Json::string("array"));
    let mut lines_items = no_fields();
    push_field(&mut lines_items, "type", Json::string("object"));
    let mut lines_items_properties = no_fields();
    let mut ln = no_fields();
    push_field(&mut ln, "type", Json::string("integer"));
    push_field(&mut lines_items_properties, "ln", Json::object(ln));
    let mut text = no_fields();
    push_field(&mut text, "type", Json::string("string"));
    push_field(&mut lines_items_properties, "text", Json::object(text));
    push_field(&mut lines_items, "properties", Json::object(lines_items_properties));
    push_field(&mut lines, "items", Json::object(lines_items));
    push_field(&mut matches_items_properties, "lines", Json::object(lines));
    push_field(&mut matches_items, "properties", Json::object(matches_items_properties));
    push_field(&mut matches, "items", Json::object(matches_items));
    push_field(&mut properties, "matches", Json::object(matches));
    push_field(&mut schema, "properties", Json::object(properties));
    Json::object(schema)
}

/// The schema of the arguments of `fs.write`.
pub open spec fn fs_write_input_schema_view() -> JsonView {
    JsonView::Object(Seq::empty()
        .push(("type"@, JsonView::Str("object"@)))
        .push(("properties"@, JsonView::Object(Seq::empty()
            .push(("path"@, JsonView::Object(Seq::empty()
                .push(("type"@, JsonView::Str("string"@)))
                .push(("description"@, JsonView::Str("File path to write"@))))))
            .push(("contents"@, JsonView::Object(Seq::empty()
                .push(("type"@, JsonView::Str("string"@)))
                .push(("description"@, JsonView::Str("File contents"@))))))
            .push(("create_if_missing"@, JsonView::Object(Seq::empty()
                .push(("type"@, JsonView::Str("boolean"@)))
                .push(("default"@, JsonView::Bool(true)))
                .push(("description"@, JsonView::Str("Create file and parent directories if they don't exist (default: true)"@))))))
            .push(("overwrite"@, JsonView::Object(Seq::empty()
                .push(("type"@, JsonView::Str("boolean"@)))
                .push(("default"@, JsonView::Bool(false)))
                .push(("description"@, JsonView::Str("Overwrite existing file (default: false)"@)))))))))
        .push(("required"@, JsonView::Array(Seq::empty()
            .push(JsonView::Str("path"@))
            .push(JsonView::Str("contents"@))))))
}

/// Builds the schema of the arguments of `fs.write`.
pub fn fs_write_input_schema() -> (j: Json)
    ensures
        j@ == fs_write_input_schema_view(),
{
    let mut schema = no_fields();
    push_field(&mut schema, "type", Json::string("object"));
    let mut properties = no_fields();
    let mut path = no_fields();
    push_field(&mut path, "type", Json::string("string"));
    push_field(&mut path, "description", Json::string("File path to write"));
    push_field(&mut properties, "path", Json::object(path));
    let mut contents = no_fields();
    push_field(&mut contents, "type", Json::string("string"));
    push_field(&mut contents, "description", Json::string("File contents"));
    push_field(&mut properties, "contents", Json::object(contents));
    let mut create_if_missing = no_fields();
    push_field(&mut create_if_missing, "type", Json::string("boolean"));
    push_field(&mut create_if_missing, "default", Json::Bool(true));
    push_field(&mut create_if_missing, "description", Json::string("Create file and parent directories if they don't exist (default: true)"));
    push_field(&mut properties, "create_if_missing", Json::object(create_if_missing));
    let mut overwrite = no_fields();
    push_field(&mut overwrite, "type", Json::string("boolean"));
    push_field(&mut overwrite, "default", Json::Bool(false));
    push_field(&mut overwrite, "description", Json::string("Overwrite existing file (default: false)"));
    push_field(&mut properties, "overwrite", Json::object(overwrite));
    push_field(&mut schema, "properties", Json::object(properties));
    let mut required = no_items();
    push_item(&mut required, Json::string("path"));
    push_item(&mut required, Json::string("contents"));
    push_field(&mut schema, "required", Json::array(required));
    Json::object(schema)
}

/// The schema of the result of `fs.write`.
pub open spec fn fs_write_output_schema_view() -> JsonView {
    JsonView::Object(Seq::empty()
        .push(("type"@, JsonView::Str("object"@)))
        .push(("properties"@, JsonView::Object(Seq::empty()
            .push(("bytes_written"@, JsonView::Object(Seq::empty()
                .push(("type"@, JsonView::Str("integer"@)))))))))
        .push(("required"@, JsonView::Array(Seq::empty()
            .push(JsonView::Str("bytes_written"@))))))
}

/// Builds the schema of the result of `fs.write`.
pub fn fs_write_output_schema() -> (j: Json)
    ensures
        j@ == fs_write_output_schema_view(),
{
    let mut schema = no_fields();
    push_field(&mut schema, "type", Json::string("object"));
    let mut properties = no_fields();
    let mut bytes_written = no_fields();
    push_field(&mut bytes_written, "type", Json::string("integer"));
    push_field(&mut properties, "bytes_written", Json::object(bytes_written));
    push_field(&mut schema, "properties", Json::object(properties));
    let mut required = no_items();
    push_item(&mut required, Json::string("bytes_written"));
    push_field(&mut schema, "required", Json::array(required));
    Json::object(schema)
}

/// The schema of the arguments of `fs.apply_patch`.
pub open spec fn fs_apply_patch_input_schema_view() -> JsonView {
    JsonView::Object(Seq::empty()
        .push(("type"@, JsonView::Str("object"@)))
        .push(("properties"@, JsonView::Object(Seq::empty()
            .push(("dry_run"@, JsonView::Object(Seq::empty()
                .push(("type"@, JsonView::Str("boolean"@)))
                .push(("description"@, JsonView::Str("Plan the edits without writing them (default: false)"@))))))
            .push(("ops"@, JsonView::Object(Seq::empty()
                .push(("type"@, JsonView::Str("array"@)))
                .push(("items"@, JsonView::Object(Seq::empty()
                    .push(("type"@, JsonView::Str("object"@)))
                    .push(("properties"@, JsonView::Object(Seq::empty()
                        .push(("op"@, JsonView::Object(Seq::empty()
                            .push(("type"@, JsonView::Str("string"@)))
                            .push(("enum"@, JsonView::Array(Seq::empty()
                                .push(JsonView::Str("set_file"@))
                                .push(JsonView::Str("replace_once"@))
                                .push(JsonView::Str("insert_before"@))
                                .push(JsonView::Str("insert_after"@))
                                .push(JsonView::Str("delete_file"@))
                                .push(JsonView::Str("rename_file"@))))))))
                        .push(("path"@, JsonView::Object(Seq::empty()
                            .push(("type"@, JsonView::Str("string"@)))
                            .push(("description"@, JsonView::Str("File the operation works on"@))))))
                        .push(("contents"@, JsonView::Object(Seq::empty()
                            .push(("type"@, JsonView::Str("string"@)))
                            .push(("description"@, JsonView::Str("New contents of the file (set_file)"@))))))
                        .push(("find"@, JsonView::Object(Seq::empty()
                            .push(("type"@, JsonView::Str("string"@)))
                            .push(("description"@, JsonView::Str("Text that occurs exactly once (replace_once)"@))))))
                        .push(("replace"@, JsonView::Object(Seq::empty()
                            .push(("type"@, JsonView::Str("string"@)))
                            .push(("description"@, JsonView::Str("Text put in its place (replace_once)"@))))))
                        .push(("anchor"@, JsonView::Object(Seq::empty()
                            .push(("type"@, JsonView::Str("string"@)))
                            .push(("description"@, JsonView::Str("Text that occurs exactly once (insert_before, insert_after)"@))))))
                        .push(("insert"@, JsonView::Object(Seq::empty()
                            .push(("type"@, JsonView::Str("string"@)))
                            .push(("description"@, JsonView::Str("Text inserted at the anchor (insert_before, insert_after)"@))))))
                        .push(("to"@, JsonView::Object(Seq::empty()
                            .push(("type"@, JsonView::Str("string"@)))
                            .push(("description"@, JsonView::Str("New path of the file (rename_file)"@)))))))))
                    .push(("required"@, JsonView::Array(Seq::empty()
                        .push(JsonView::Str("op"@))
                        .push(JsonView::Str("path"@))))))))
                .push(("description"@, JsonView::Str("Edit operations, applied in order"@)))))))))
        .push(("required"@, JsonView::Array(Seq::empty()
            .push(JsonView::Str("ops"@))))))
}

/// Builds the schema of the arguments of `fs.apply_patch`.
pub fn fs_apply_patch_input_schema() -> (j: Json)
    ensures
        j@ == fs_apply_patch_input_schema_view(),
{
    let mut schema = no_fields();
    push_field(&mut schema, "type", Json::string("object"));
    let mut properties = no_fields();
    let mut dry_run = no_fields();
    push_field(&mut dry_run, "type", Json::string("boolean"));
    push_field(&mut dry_run, "description", Json::string("Plan the edits without writing them (default: false)"));
    push_field(&mut properties, "dry_run", Json::object(dry_run));
    let mut ops = no_fields();
    push_field(&mut ops, "type", Json::string("array"));
    let mut ops_items = no_fields();
    push_field(&mut ops_items, "type", Json::string("object"));
    let mut ops_items_properties = no_fields();
    let mut op = no_fields();
    push_field(&mut op, "type", Json::string("string"));
    let mut choices = no_items();
    push_item(&mut choices, Json::string("set_file"));
    push_item(&mut choices, Json::string("replace_once"));
    push_item(&mut choices, Json::string("insert_before"));
    push_item(&mut choices, Json::string("insert_after"));
    push_item(&mut choices, Json::string("delete_file"));
    push_item(&mut choices, Json::string("rename_file"));
    push_field(&mut op, "enum", Json::array(choices));
    push_field(&mut ops_items_properties, "op", Json::object(op));
    let mut path = no_fields();
    push_field(&mut path, "type", Json::string("string"));
    push_field(&mut path, "description", Json::string("File the operation works on"));
    push_field(&mut ops_items_properties, "path", Json::object(path));
    let mut contents = no_fields();
    push_field(&mut contents, "type", Json::string("string"));
    push_field(&mut contents, "description", Json::string("New contents of the file (set_file)"));
    push_field(&mut ops_items_properties, "contents", Json::object(contents));
    let mut find = no_fields();
    push_field(&mut find, "type", Json::string("string"));
    push_field(&mut find, "description", Json::string("Text that occurs exactly once (replace_once)"));
    push_field(&mut ops_items_properties, "find", Json::object(find));
    let mut replace = no_fields();
    push_field(&mut replace, "type", Json::string("string"));
    push_field(&mut replace, "description", Json::string("Text put in its place (replace_once)"));
    push_field(&mut ops_items_properties, "replace", Json::object(replace));
    let mut anchor = no_fields();
    push_field(&mut anchor, "type", Json::string("string"));
    push_field(&mut anchor, "description", Json::string("Text that occurs exactly once (insert_before, insert_after)"));
    push_field(&mut ops_items_properties, "anchor", Json::object(anchor));
    let mut insert = no_fields();
    push_field(&mut insert, "type", Json::string("string"));
    push_field(&mut insert, "description", Json::string("Text inserted at the anchor (insert_before, insert_after)"));
    push_field(&mut ops_items_properties, "insert", Json::object(insert));
    let mut to = no_fields();
    push_field(&mut to, "type", Json::string("string"));
    push_field(&mut to, "description", Json::string("New path of the file (rename_file)"));
    push_field(&mut ops_items_properties, "to", Json::object(to));
    push_field(&mut ops_items, "properties", Json::object(ops_items_properties));
    let mut required = no_items();
    push_item(&mut required, Json::string("op"));
    push_item(&mut required, Json::string("path"));
    push_field(&mut ops_items, "required", Json::array(required));
    push_field(&mut ops, "items", Json::object(ops_items));
    push_field(&mut ops, "description", Json::string("Edit operations, applied in order"));
    push_field(&mut properties, "ops", Json::object(ops));
    push_field(&mut schema, "properties", Json::object(properties));
    let mut required2 = no_items();
    push_item(&mut required2, Json::string("ops"));
    push_field(&mut schema, "required", Json::array(required2));
    Json::object(schema)
}

/// The schema of the result of `fs.apply_patch`.
pub open spec fn fs_apply_patch_output_schema_view() -> JsonView {
    JsonView::Object(Seq::empty()
        .push(("type"@, JsonView::Str("object"@)))
        .push(("properties"@, JsonView::Object(Seq::empty()
            .push(("success"@, JsonView::Object(Seq::empty()
                .push(("type"@, JsonView::Str("boolean"@))))))
            .push(("rejected_hunks"@, JsonView::Object(Seq::empty()
                .push(("type"@, JsonView::Str("array"@)))
                .push(("items"@, JsonView::Object(Seq::empty()
                    .push(("type"@, JsonView::Str("string"@)))))))))
            .push(("summary"@, JsonView::Object(Seq::empty()
                .push(("type"@, JsonView::Str("string"@)))))))))
        .push(("required"@, JsonView::Array(Seq::empty()
            .push(JsonView::Str("success"@))
            .push(JsonView::Str("summary"@))))))
}

/// Builds the schema of the result of `fs.apply_patch`.
pub fn fs_apply_patch_output_schema() -> (j: Json)
    ensures
        j@ == fs_apply_patch_output_schema_view(),
{
    let mut schema = no_fields();
    push_field(&mut schema, "type", Json::string("object"));
    let mut properties = no_fields();
    let mut success = no_fields();
    push_field(&mut success, "type", Json::string("boolean"));
    push_field(&mut properties, "success", Json::object(success));
    let mut rejected_hunks = no_fields();
    push_field(&mut rejected_hunks, "type", Json::string("array"));
    let mut rejected_hunks_items = no_fields();
    push_field(&mut rejected_hunks_items, "type", Json::string("string"));
    push_field(&mut rejected_hunks, "items", Json::object(rejected_hunks_items));
    push_field(&mut properties, "rejected_hunks", Json::object(rejected_hunks));
    let mut summary = no_fields();
    push_field(&mut summary, "type", Json::string("string"));
    push_field(&mut properties, "summary", Json::object(summary));
    push_field(&mut schema, "properties", Json::object(properties));
    let mut required = no_items();
    push_item(&mut required, Json::string("success"));
    push_item(&mut required, Json::string("summary"));
    push_field(&mut schema, "required", Json::array(required));
    Json::object(schema)
}

/// The schema of the arguments of `fs.find`.
pub open spec fn fs_find_input_schema_view() -> JsonView {
    JsonView::Object(Seq::empty()
        .push(("type"@, JsonView::Str("object"@)))
        .push(("properties"@, JsonView::Object(Seq::empty()
            .push(("pattern"@, JsonView::Object(Seq::empty()
                .push(("type"@, JsonView::Str("string"@)))
                .push(("description"@, JsonView::Str("File or directory name pattern to search for"@))))))
            .push(("base_path"@, JsonView::Object(Seq::empty()
                .push(("type"@, JsonView::Str("string"@)))
                .push(("description"@, JsonView::Str("Base directory to search from (default: current directory)"@))))))
            .push(("fuzzy"@, JsonView::Object(Seq::empty()
                .push(("type"@, JsonView::Str("boolean"@)))
                .push(("description"@, JsonView::Str("Enable fuzzy matching (default: true)"@))))))
            .push(("case_sensitive"@, JsonView::Object(Seq::empty()
                .push(("type"@, JsonView::Str("boolean"@)))
                .push(("description"@, JsonView::Str("Case sensitive search (default: false)"@))))))
            .push(("file_type"@, JsonView::Object(Seq::empty()
                .push(("type"@, JsonView::Str("string"@)))
                .push(("enum"@, JsonView::Array(Seq::empty()
                    .push(JsonView::Str("file"@))
                    .push(JsonView::Str("dir"@))
                    .push(JsonView::Str("both"@)))))
                .push(("description"@, JsonView::Str("Type of items to find (default: both)"@))))))
            .push(("max_results"@, JsonView::Object(Seq::empty()
                .push(("type"@, JsonView::Str("integer"@)))
                .push(("minimum"@, JsonView::Int(1)))
                .push(("description"@, JsonView::Str("Maximum number of results (default: 50)"@))))))
            .push(("ignore_patterns"@, JsonView::Object(Seq::empty()
                .push(("type"@, JsonView::Str("array"@)))
                .push(("items"@, JsonView::Object(Seq::empty()
                    .push(("type"@, JsonView::Str("string"@))))))
                .push(("description"@, JsonView::Str("Gitignore-style patterns to exclude from search"@)))))))))
        .push(("required"@, JsonView::Array(Seq::empty()
            .push(JsonView::Str("pattern"@))))))
}

/// Builds the schema of the arguments of `fs.find`.
pub fn fs_find_input_schema() -> (j: Json)
    ensures
        j@ == fs_find_input_schema_view(),
{
    let mut schema = no_fields();
    push_field(&mut schema, "type", Json::string("object"));
    let mut properties = no_fields();
    let mut pattern = no_fields();
    push_field(&mut pattern, "type", Json::string("string"));
    push_field(&mut pattern, "description", Json::string("File or directory name pattern to search for"));
    push_field(&mut properties, "pattern", Json::object(pattern));
    let mut base_path = no_fields();
    push_field(&mut base_path, "type", Json::string("string"));
    push_field(&mut base_path, "description", Json::string("Base directory to search from (default: current directory)"));
    push_field(&mut properties, "base_path", Json::object(base_path));
    let mut fuzzy = no_fields();
    push_field(&mut fuzzy, "type", Json::string("boolean"));
    push_field(&mut fuzzy, "description", Json::string("Enable fuzzy matching (default: true)"));
    push_field(&mut properties, "fuzzy", Json::object(fuzzy));
    let mut case_sensitive = no_fields();
    push_field(&mut case_sensitive, "type", Json::string("boolean"));
    push_field(&mut case_sensitive, "description", Json::string("Case sensitive search (default: false)"));
    push_field(&mut properties, "case_sensitive", Json::object(case_sensitive));
    let mut file_type = no_fields();
    push_field(&mut file_type, "type", Json::string("string"));
    let mut choices = no_items();
    push_item(&mut choices, Json::string("file"));
    push_item(&mut choices, Json::string("dir"));
    push_item(&mut choices, Json::string("both"));
    push_field(&mut file_type, "enum", Json::array(choices));
    push_field(&mut file_type, "description", Json::string("Type of items to find (default: both)"));
    push_field(&mut properties, "file_type", Json::object(file_type));
    let mut max_results = no_fields();
    push_field(&mut max_results, "type", Json::string("integer"));
    push_field(&mut max_results, "minimum", Json::Int(1));
    push_field(&mut max_results, "description", Json::string("Maximum number of results (default: 50)"));
    push_field(&mut properties, "max_results", Json::object(max_results));
    let mut ignore_patterns = no_fields();
    push_field(&mut ignore_patterns, "type", Json::string("array"));
    let mut ignore_patterns_items = no_fields();
    push_field(&mut ignore_patterns_items, "type", Json::string("string"));
    push_field(&mut ignore_patterns, "items", Json::object(ignore_patterns_items));
    push_field(&mut ignore_patterns, "description", Json::string("Gitignore-style patterns to exclude from search"));
    push_field(&mut properties, "ignore_patterns", Json::object(ignore_patterns));
    push_field(&mut schema, "properties", Json::object(properties));
    let mut required = no_items();
    push_item(&mut required, Json::string("pattern"));
    push_field(&mut schema, "required", Json::array(required));
    Json::object(schema)
}

/// The schema of the result of `fs.find`.
pub open spec fn fs_find_output_schema_view() -> JsonView {
    JsonView::Object(Seq::empty()
        .push(("type"@, JsonView::Str("object"@)))
        .push(("properties"@, JsonView::Object(Seq::empty()
            .push(("matches"@, JsonView::Object(Seq::empty()
                .push(("type"@, JsonView::Str("array"@)))
                .push(("items"@, JsonView::Object(Seq::empty()
                    .push(("type"@, JsonView::Str("object"@)))
                    .push(("properties"@, JsonView::Object(Seq::empty()
                        .push(("path"@, JsonView::Object(Seq::empty()
                            .push(("type"@, JsonView::Str("string"@))))))
                        .push(("score"@, JsonView::Object(Seq::empty()
                            .push(("type"@, JsonView::Str("number"@))))))
                        .push(("match_type"@, JsonView::Object(Seq::empty()
                            .push(("type"@, JsonView::Str("string"@)))))))))))))))
            .push(("search_time_ms"@, JsonView::Object(Seq::empty()
                .push(("type"@, JsonView::Str("integer"@)))))))))
        .push(("required"@, JsonView::Array(Seq::empty()
            .push(JsonView::Str("matches"@))
            .push(JsonView::Str("search_time_ms"@))))))
}

/// Builds the schema of the result of `fs.find`.
pub fn fs_find_output_schema() -> (j: Json)
    ensures
        j@ == fs_find_output_schema_view(),
{
    let mut schema = no_fields();
    push_field(&mut schema, "type", Json::string("object"));
    let mut properties = no_fields();
    let mut matches = no_fields();
    push_field(&mut matches, "type", Json::string("array"));
    let mut matches_items = no_fields();
    push_field(&mut matches_items, "type", Json::string("object"));
    let mut matches_items_properties = no_fields();
    let mut path = no_fields();
    push_field(&mut path, "type", Json::string("string"));
    push_field(&mut matches_items_properties, "path", Json::object(path));
    let mut score = no_fields();
    push_field(&mut score, "type", Json::string("number"));
    push_field(&mut matches_items_properties, "score", Json::object(score));
    let mut match_type = no_fields();
    push_field(&mut match_type, "type", Json::string("string"));
    push_field(&mut matches_items_properties, "match_type", Json::object(match_type));
    push_field(&mut matches_items, "properties", Json::object(matches_items_properties));
    push_field(&mut matches, "items", Json::object(matches_items));
    push_field(&mut properties, "matches", Json::object(matches));
    let mut search_time_ms = no_fields();
    push_field(&mut search_time_ms, "type", Json::string("integer"));
    push_field(&mut properties, "search_time_ms", Json::object(search_time_ms));
    push_field(&mut schema, "properties", Json::object(properties));
    let mut required = no_items();
    push_item(&mut required, Json::string("matches"));
    push_item(&mut required, Json::string("search_time_ms"));
    push_field(&mut schema, "required", Json::array(required));
    Json::object(schema)
}

/// The schema of the arguments of `shell.exec`.
pub open spec fn shell_exec_input_schema_view() -> JsonView {
    JsonView::Object(Seq::empty()
        .push(("type"@, JsonView::Str("object"@)))
        .push(("properties"@, JsonView::Object(Seq::empty()
            .push(("command"@, JsonView::Object(Seq::empty()
                .push(("type"@, JsonView::Str("array"@)))
                .push(("items"@, JsonView::Object(Seq::empty()
                    .push(("type"@, JsonView::Str("string"@))))))
                .push(("description"@, JsonView::Str("Command and arguments"@))))))
            .push(("cwd"@, JsonView::Object(Seq::empty()
                .push(("type"@, JsonView::Str("string"@)))
                .push(("description"@, JsonView::Str("Working directory"@))))))
            .push(("env"@, JsonView::Object(Seq::empty()
                .push(("type"@, JsonView::Str("array"@)))
                .push(("items"@, JsonView::Object(Seq::empty()
                    .push(("type"@, JsonView::Str("array"@)))
                    .push(("items"@, JsonView::Object(Seq::empty()
                        .push(("type"@, JsonView::Str("string"@))))))
                    .push(("minItems"@, JsonView::Int(2)))
                    .push(("maxItems"@, JsonView::Int(2))))))
                .push(("description"@, JsonView::Str("Environment variables"@))))))
            .push(("timeout_ms"@, JsonView::Object(Seq::empty()
                .push(("type"@, JsonView::Str("integer"@)))
                .push(("description"@, JsonView::Str("Timeout in milliseconds"@))))))
            .push(("with_escalated_permissions"@, JsonView::Object(Seq::empty()
                .push(("type"@, JsonView::Str("boolean"@)))
                .push(("description"@, JsonView::Str("Run with elevated permissions"@))))))
            .push(("justification"@, JsonView::Object(Seq::empty()
                .push(("type"@, JsonView::Str("string"@)))
                .push(("description"@, JsonView::Str("Justification for escalated permissions"@)))))))))
        .push(("required"@, JsonView::Array(Seq::empty()
            .push(JsonView::Str("command"@))))))
}

/// Builds the schema of the arguments of `shell.exec`.
pub fn shell_exec_input_schema() -> (j: Json)
    ensures
        j@ == shell_exec_input_schema_view(),
{
    let mut schema = no_fields();
    push_field(&mut schema, "type", Json::string("object"));
    let mut properties = no_fields();
    let mut command = no_fields();
    push_field(&mut command, "type", Json::string("array"));
    let mut command_items = no_fields();
    push_field(&mut command_items, "type", Json::string("string"));
    push_field(&mut command, "items", Json::object(command_items));
    push_field(&mut command, "description", Json::string("Command and arguments"));
    push_field(&mut properties, "command", Json::object(command));
    let mut cwd = no_fields();
    push_field(&mut cwd, "type", Json::string("string"));
    push_field(&mut cwd, "description", Json::string("Working directory"));
    push_field(&mut properties, "cwd", Json::object(cwd));
    let mut env = no_fields();
    push_field(&mut env, "type", Json::string("array"));
    let mut env_items = no_fields();
    push_field(&mut env_items, "type", Json::string("array"));
    let mut env_items_items = no_fields();
    push_field(&mut env_items_items, "type", Json::string("string"));
    push_field(&mut env_items, "items", Json::object(env_items_items));
    push_field(&mut env_items, "minItems", Json::Int(2));
    push_field(&mut env_items, "maxItems", Json::Int(2));
    push_field(&mut env, "items", Json::object(env_items));
    push_field(&mut env, "description", Json::string("Environment variables"));
    push_field(&mut properties, "env", Json::object(env));
    let mut timeout_ms = no_fields();
    push_field(&mut timeout_ms, "type", Json::string("integer"));
    push_field(&mut timeout_ms, "description", Json::string("Timeout in milliseconds"));
    push_field(&mut properties, "timeout_ms", Json::object(timeout_ms));
    let mut with_escalated_permissions = no_fields();
    push_field(&mut with_escalated_permissions, "type", Json::string("boolean"));
    push_field(&mut with_escalated_permissions, "description", Json::string("Run with elevated permissions"));
    push_field(&mut properties, "with_escalated_permissions", Json::object(with_escalated_permissions));
    let mut justification = no_fields();
    push_field(&mut justification, "type", Json::string("string"));
    push_field(&mut justification, "description", Json::string("Justification for escalated permissions"));
    push_field(&mut properties, "justification", Json::object(justification));
    push_field(&mut schema, "properties", Json::object(properties));
    let mut required = no_items();
    push_item(&mut required, Json::string("command"));
    push_field(&mut schema, "required", Json::array(required));
    Json::object(schema)
}

/// The schema of the result of `shell.exec`.
pub open spec fn shell_exec_output_schema_view() -> JsonView {
    JsonView::Object(Seq::empty()
        .push(("type"@, JsonView::Str("object"@)))
        .push(("properties"@, JsonView::Object(Seq::empty()
            .push(("exit_code"@, JsonView::Object(Seq::empty()
                .push(("type"@, JsonView::Str("integer"@))))))
            .push(("duration_ms"@, JsonView::Object(Seq::empty()
                .push(("type"@, JsonView::Str("integer"@))))))
            .push(("stdout"@, JsonView::Object(Seq::empty()
                .push(("type"@, JsonView::Str("string"@))))))
            .push(("stderr"@, JsonView::Object(Seq::empty()
                .push(("type"@, JsonView::Str("string"@)))))))))
        .push(("required"@, JsonView::Array(Seq::empty()
            .push(JsonView::Str("exit_code"@))
            .push(JsonView::Str("duration_ms"@))
            .push(JsonView::Str("stdout"@))
            .push(JsonView::Str("stderr"@))))))
}

/// Builds the schema of the result of `shell.exec`.
pub fn shell_exec_output_schema() -> (j: Json)
    ensures
        j@ == shell_exec_output_schema_view(),
{
    let mut schema = no_fields();
    push_field(&mut schema, "type", Json::string("object"));
    let mut properties = no_fields();
    let mut exit_code = no_fields();
    push_field(&mut exit_code, "type", Json::string("integer"));
    push_field(&mut properties, "exit_code", Json::object(exit_code));
    let mut duration_ms = no_fields();
    push_field(&mut duration_ms, "type", Json::string("integer"));
    push_field(&mut properties, "duration_ms", Json::object(duration_ms));
    let mut stdout = no_fields();
    push_field(&mut stdout, "type", Json::string("string"));
    push_field(&mut properties, "stdout", Json::object(stdout));
    let mut stderr = no_fields();
    push_field(&mut stderr, "type", Json::string("string"));
    push_field(&mut properties, "stderr", Json::object(stderr));
    push_field(&mut schema, "properties", Json::object(properties));
    let mut required = no_items();
    push_item(&mut required, Json::string("exit_code"));
    push_item(&mut required, Json::string("duration_ms"));
    push_item(&mut required, Json::string("stdout"));
    push_item(&mut required, Json::string("stderr"));
    push_field(&mut schema, "required", Json::array(required));
    Json::object(schema)
}

/// The schema of the arguments of `code.symbols`.
pub open spec fn code_symbols_input_schema_view() -> JsonView {
    JsonView::Object(Seq::empty()
        .push(("type"@, JsonView::Str("object"@)))
        .push(("properties"@, JsonView::Object(Seq::empty()
            .push(("path"@, JsonView::Object(Seq::empty()
                .push(("type"@, JsonView::Str("string"@)))
                .push(("description"@, JsonView::Str("File path to analyze for symbols"@))))))
            .push(("symbol_types"@, JsonView::Object(Seq::empty()
                .push(("type"@, JsonView::Str("array"@)))
                .push(("items"@, JsonView::Object(Seq::empty()
                    .push(("type"@, JsonView::Str("string"@)))
                    .push(("enum"@, JsonView::Array(Seq::empty()
                        .push(JsonView::Str("functions"@))
                        .push(JsonView::Str("classes"@))
                        .push(JsonView::Str("structs"@))
                        .push(JsonView::Str("enums"@))
                        .push(JsonView::Str("traits"@))
                        .push(JsonView::Str("modules"@))
                        .push(JsonView::Str("variables"@))
                        .push(JsonView::Str("constants"@))
                        .push(JsonView::Str("types"@))))))))
                .push(("description"@, JsonView::Str("Types of symbols to extract (default: all)"@))))))
            .push(("language"@, JsonView::Object(Seq::empty()
                .push(("type"@, JsonView::Str("string"@)))
                .push(("description"@, JsonView::Str("Programming language (auto-detected if not specified)"@)))))))))
        .push(("required"@, JsonView::Array(Seq::empty()
            .push(JsonView::Str("path"@))))))
}

/// Builds the schema of the arguments of `code.symbols`.
pub fn code_symbols_input_schema() -> (j: Json)
    ensures
        j@ == code_symbols_input_schema_view(),
{
    let mut schema = no_fields();
    push_field(&mut schema, "type", Json::string("object"));
    let mut properties = no_fields();
    let mut path = no_fields();
    push_field(&mut path, "type", Json::string("string"));
    push_field(&mut path, "description", Json::string("File path to analyze for symbols"));
    push_field(&mut properties, "path", Json::object(path));
    let mut symbol_types = no_fields();
    push_field(&mut symbol_types, "type", Json::string("array"));
    let mut symbol_types_items = no_fields();
    push_field(&mut symbol_types_items, "type", Json::string("string"));
    let mut choices = no_items();
    push_item(&mut choices, Json::string("functions"));
    push_item(&mut choices, Json::string("classes"));
    push_item(&mut choices, Json::string("structs"));
    push_item(&mut choices, Json::string("enums"));
    push_item(&mut choices, Json::string("traits"));
    push_item(&mut choices, Json::string("modules"));
    push_item(&mut choices, Json::string("variables"));
    push_item(&mut choices, Json::string("constants"));
    push_item(&mut choices, Json::string("types"));
    push_field(&mut symbol_types_items, "enum", Json::array(choices));
    push_field(&mut symbol_types, "items", Json::object(symbol_types_items));
    push_field(&mut symbol_types, "description", Json::string("Types of symbols to extract (default: all)"));
    push_field(&mut properties, "symbol_types", Json::object(symbol_types));
    let mut language = no_fields();
    push_field(&mut language, "type", Json::string("string"));
    push_field(&mut language, "description", Json::string("Programming language (auto-detected if not specified)"));
    push_field(&mut properties, "language", Json::object(language));
    push_field(&mut schema, "properties", Json::object(properties));
    let mut required = no_items();
    push_item(&mut required, Json::string("path"));
    push_field(&mut schema, "required", Json::array(required));
    Json::object(schema)
}

/// The schema of the result of `code.symbols`.
pub open spec fn code_symbols_output_schema_view() -> JsonView {
    JsonView::Object(Seq::empty()
        .push(("type"@, JsonView::Str("object"@)))
        .push(("properties"@, JsonView::Object(Seq::empty()
            .push(("symbols"@, JsonView::Object(Seq::empty()
                .push(("type"@, JsonView::Str("array"@)))
                .push(("items"@, JsonView::Object(Seq::empty()
                    .push(("type"@, JsonView::Str("object"@)))
                    .push(("properties"@, JsonView::Object(Seq::empty()
                        .push(("name"@, JsonView::Object(Seq::empty()
                            .push(("type"@, JsonView::Str("string"@))))))
                        .push(("symbol_type"@, JsonView::Object(Seq::empty()
                            .push(("type"@, JsonView::Str("string"@))))))
                        .push(("line_start"@, JsonView::Object(Seq::empty()
                            .push(("type"@, JsonView::Str("integer"@))))))
                        .push(("line_end"@, JsonView::Object(Seq::empty()
                            .push(("type"@, JsonView::Str("integer"@))))))
                        .push(("scope"@, JsonView::Object(Seq::empty()
                            .push(("type"@, JsonView::Str("string"@))))))
                        .push(("visibility"@, JsonView::Object(Seq::empty()
                            .push(("type"@, JsonView::Str("string"@)))))))))))))))
            .push(("language"@, JsonView::Object(Seq::empty()
                .push(("type"@, JsonView::Str("string"@)))))))))
        .push(("required"@, JsonView::Array(Seq::empty()
            .push(JsonView::Str("symbols"@))
            .push(JsonView::Str("language"@))))))
}

/// Builds the schema of the result of `code.symbols`.
pub fn code_symbols_output_schema() -> (j: Json)
    ensures
        j@ == code_symbols_output_schema_view(),
{
    let mut schema = no_fields();
    push_field(&mut schema, "type", Json::string("object"));
    let mut properties = no_fields();
    let mut symbols = no_fields();
    push_field(&mut symbols, "type", Json::string("array"));
    let mut symbols_items = no_fields();
    push_field(&mut symbols_items, "type", Json::string("object"));
    let mut symbols_items_properties = no_fields();
    let mut name = no_fields();
    push_field(&mut name, "type", Json::string("string"));
    push_field(&mut symbols_items_properties, "name", Json::object(name));
    let mut symbol_type = no_fields();
    push_field(&mut symbol_type, "type", Json::string("string"));
    push_field(&mut symbols_items_properties, "symbol_type", Json::object(symbol_type));
    let mut line_start = no_fields();
    push_field(&mut line_start, "type", Json::string("integer"));
    push_field(&mut symbols_items_properties, "line_start", Json::object(line_start));
    let mut line_end = no_fields();
    push_field(&mut line_end, "type", Json::string("integer"));
    push_field(&mut symbols_items_properties, "line_end", Json::object(line_end));
    let mut scope = no_fields();
    push_field(&mut scope, "type", Json::string("string"));
    push_field(&mut symbols_items_properties, "scope", Json::object(scope));
    let mut visibility = no_fields();
    push_field(&mut visibility, "type", Json::string("string"));
    push_field(&mut symbols_items_properties, "visibility", Json::object(visibility));
    push_field(&mut symbols_items, "properties", Json::object(symbols_items_properties));
    push_field(&mut symbols, "items", Json::object(symbols_items));
    push_field(&mut properties, "symbols", Json::object(symbols));
    let mut language = no_fields();
    push_field(&mut language, "type", Json::string("string"));
    push_field(&mut properties, "language", Json::object(language));
    push_field(&mut schema, "properties", Json::object(properties));
    let mut required = no_items();
    push_item(&mut required, Json::string("symbols"));
    push_item(&mut required, Json::string("language"));
    push_field(&mut schema, "required", Json::array(required));
    Json::object(schema)
}

/// The schema of the arguments of `large_context_fetch`.
pub open spec fn large_context_fetch_input_schema_view() -> JsonView {
    JsonView::Object(Seq::empty()
        .push(("type"@, JsonView::Str("object"@)))
        .push(("properties"@, JsonView::Object(Seq::empty()
            .push(("user_query"@, JsonView::Object(Seq::empty()
                .push(("type"@, JsonView::Str("string"@)))
                .push(("description"@, JsonView::Str("The user's query to find relevant code context for"@))))))
            .push(("base_path"@, JsonView::Object(Seq::empty()
                .push(("type"@, JsonView::Str("string"@)))
                .push(("description"@, JsonView::Str("Base directory to search from (default: current directory)"@))))))
            .push(("max_files"@, JsonView::Object(Seq::empty()
                .push(("type"@, JsonView::Str("integer"@)))
                .push(("minimum"@, JsonView::Int(1)))
                .push(("maximum"@, JsonView::Int(500)))
                .push(("description"@, JsonView::Str("Maximum number of files to analyze (default: 200)"@))))))
            .push(("include_extensions"@, JsonView::Object(Seq::empty()
                .push(("type"@, JsonView::Str("array"@)))
                .push(("items"@, JsonView::Object(Seq::empty()
                    .push(("type"@, JsonView::Str("string"@))))))
                .push(("description"@, JsonView::Str("File extensions to include (default: common code file extensions)"@))))))
            .push(("exclude_patterns"@, JsonView::Object(Seq::empty()
                .push(("type"@, JsonView::Str("array"@)))
                .push(("items"@, JsonView::Object(Seq::empty()
                    .push(("type"@, JsonView::Str("string"@))))))
                .push(("description"@, JsonView::Str("Gitignore-style patterns to exclude from search (default: common ignore patterns)"@)))))))))
        .push(("required"@, JsonView::Array(Seq::empty()
            .push(JsonView::Str("user_query"@))))))
}

/// Builds the schema of the arguments of `large_context_fetch`.
pub fn large_context_fetch_input_schema() -> (j: Json)
    ensures
        j@ == large_context_fetch_input_schema_view(),
{
    let mut schema = no_fields();
    push_field(&mut schema, "type", Json::string("object"));
    let mut properties = no_fields();
    let mut user_query = no_fields();
    push_field(&mut user_query, "type", Json::string("string"));
    push_field(&mut user_query, "description", Json::string("The user's query to find relevant code context for"));
    push_field(&mut properties, "user_query", Json::object(user_query));
    let mut base_path = no_fields();
    push_field(&mut base_path, "type", Json::string("string"));
    push_field(&mut base_path, "description", Json::string("Base directory to search from (default: current directory)"));
    push_field(&mut properties, "base_path", Json::object(base_path));
    let mut max_files = no_fields();
    push_field(&mut max_files, "type", Json::string("integer"));
    push_field(&mut max_files, "minimum", Json::Int(1));
    push_field(&mut max_files, "maximum", Json::Int(500));
    push_field(&mut max_files, "description", Json::string("Maximum number of files to analyze (default: 200)"));
    push_field(&mut properties, "max_files", Json::object(max_files));
    let mut include_extensions = no_fields();
    push_field(&mut include_extensions, "type", Json::string("array"));
    let mut include_extensions_items = no_fields();
    push_field(&mut include_extensions_items, "type", Json::string("string"));
    push_field(&mut include_extensions, "items", Json::object(include_extensions_items));
    push_field(&mut include_extensions, "description", Json::string("File extensions to include (default: common code file extensions)"));
    push_field(&mut properties, "include_extensions", Json::object(include_extensions));
    let mut exclude_patterns = no_fields();
    push_field(&mut exclude_patterns, "type", Json::string("array"));
    let mut exclude_patterns_items = no_fields();
    push_field(&mut exclude_patterns_items, "type", Json::string("string"));
    push_field(&mut exclude_patterns, "items", Json::object(exclude_patterns_items));
    push_field(&mut exclude_patterns, "description", Json::string("Gitignore-style patterns to exclude from search (default: common ignore patterns)"));
    push_field(&mut properties, "exclude_patterns", Json::object(exclude_patterns));
    push_field(&mut schema, "properties", Json::object(properties));
    let mut required = no_items();
    push_item(&mut required, Json::string("user_query"));
    push_field(&mut schema, "required", Json::array(required));
    Json::object(schema)
}

/// The schema of the result of `large_context_fetch`.
pub open spec fn large_context_fetch_output_schema_view() -> JsonView {
    JsonView::Object(Seq::empty()
        .push(("type"@, JsonView::Str("object"@)))
        .push(("properties"@, JsonView::Object(Seq::empty()
            .push(("relevant_files"@, JsonView::Object(Seq::empty()
                .push(("type"@, JsonView::Str("array"@)))
                .push(("items"@, JsonView::Object(Seq::empty()
                    .push(("type"@, JsonView::Str("object"@)))
                    .push(("properties"@, JsonView::Object(Seq::empty()
                        .push(("path"@, JsonView::Object(Seq::empty()
                            .push(("type"@, JsonView::Str("string"@))))))
                        .push(("contents"@, JsonView::Object(Seq::empty()
                            .push(("type"@, JsonView::Str("string"@))))))
                        .push(("language"@, JsonView::Object(Seq::empty()
                            .push(("type"@, JsonView::Str("string"@))))))
                        .push(("size_bytes"@, JsonView::Object(Seq::empty()
                            .push(("type"@, JsonView::Str("integer"@))))))
                        .push(("truncated"@, JsonView::Object(Seq::empty()
                            .push(("type"@, JsonView::Str("boolean"@)))))))))))))))
            .push(("llm_reasoning"@, JsonView::Object(Seq::empty()
                .push(("type"@, JsonView::Str("string"@))))))
            .push(("total_files_analyzed"@, JsonView::Object(Seq::empty()
                .push(("type"@, JsonView::Str("integer"@))))))
            .push(("total_files_returned"@, JsonView::Object(Seq::empty()
                .push(("type"@, JsonView::Str("integer"@))))))
            .push(("execution_time_ms"@, JsonView::Object(Seq::empty()
                .push(("type"@, JsonView::Str("integer"@)))))))))
        .push(("required"@, JsonView::Array(Seq::empty()
            .push(JsonView::Str("relevant_files"@))
            .push(JsonView::Str("llm_reasoning"@))
            .push(JsonView::Str("total_files_analyzed"@))
            .push(JsonView::Str("total_files_returned"@))
            .push(JsonView::Str("execution_time_ms"@))))))
}

/// Builds the schema of the result of `large_context_fetch`.
pub fn large_context_fetch_output_schema() -> (j: Json)
    ensures
        j@ == large_context_fetch_output_schema_view(),
{
    let mut schema = no_fields();
    push_field(&mut schema, "type", Json::string("object"));
    let mut properties = no_fields();
    let mut relevant_files = no_fields();
    push_field(&mut relevant_files, "type", Json::string("array"));
    let mut relevant_files_items = no_fields();
    push_field(&mut relevant_files_items, "type", Json::string("object"));
    let mut relevant_files_items_properties = no_fields();
    let mut path = no_fields();
    push_field(&mut path, "type", Json::string("string"));
    push_field(&mut relevant_files_items_properties, "path", Json::object(path));
    let mut contents = no_fields();
    push_field(&mut contents, "type", Json::string("string"));
    push_field(&mut relevant_files_items_properties, "contents", Json::object(contents));
    let mut language = no_fields();
    push_field(&mut language, "type", Json::string("string"));
    push_field(&mut relevant_files_items_properties, "language", Json::object(language));
    let mut size_bytes = no_fields();
    push_field(&mut size_bytes, "type", Json::string("integer"));
    push_field(&mut relevant_files_items_properties, "size_bytes", Json::object(size_bytes));
    let mut truncated = no_fields();
    push_field(&mut truncated, "type", Json::string("boolean"));
    push_field(&mut relevant_files_items_properties, "truncated", Json::object(truncated));
    push_field(&mut relevant_files_items, "properties", Json::object(relevant_files_items_properties));
    push_field(&mut relevant_files, "items", Json::object(relevant_files_items));
    push_field(&mut properties, "relevant_files", Json::object(relevant_files));
    let mut llm_reasoning = no_fields();
    push_field(&mut llm_reasoning, "type", Json::string("string"));
    push_field(&mut properties, "llm_reasoning", Json::object(llm_reasoning));
    let mut total_files_analyzed = no_fields();
    push_field(&mut total_files_analyzed, "type", Json::string("integer"));
    push_field(&mut properties, "total_files_analyzed", Json::object(total_files_analyzed));
    let mut total_files_returned = no_fields();
    push_field(&mut total_files_returned, "type", Json::string("integer"));
    push_field(&mut properties, "total_files_returned", Json::object(total_files_returned));
    let mut execution_time_ms = no_fields();
    push_field(&mut execution_time_ms, "type", Json::string("integer"));
    push_field(&mut properties, "execution_time_ms", Json::object(execution_time_ms));
    push_field(&mut schema, "properties", Json::object(properties));
    let mut required = no_items();
    push_item(&mut required, Json::string("relevant_files"));
    push_item(&mut required, Json::string("llm_reasoning"));
    push_item(&mut required, Json::string("total_files_analyzed"));
    push_item(&mut required, Json::string("total_files_returned"));
    push_item(&mut required, Json::string("execution_time_ms"));
    push_field(&mut schema, "required", Json::array(required));
    Json::object(schema)
}

} // verus!
