use vstd::prelude::*;
use vstd::string::*;

use crate::json::{
    array_of, new_items, new_members, no_items, no_members, object_of, push_item, push_member,
    Json, JsonValue,
};
use crate::text::str_eq;
use crate::json::{first_key_at, lemma_member_at};
use crate::schema::additional_allowed;
use crate::tools::{lemma_tool_names_distinct, resolve_external_tool_name, spec_canonical_tool_names, spec_resolve_tool};

verus! {

/// The schema of a value of one JSON type: `{"type": kind}`.
pub open spec fn type_schema_model(kind: Seq<char>) -> Json {
    Json::Object(no_members().push(("type"@, Json::Str(kind))))
}

/// Builds `{"type": kind}`.
pub fn type_schema(kind: &str) -> (r: JsonValue)
    ensures
        r.model() == type_schema_model(kind@),
{
    let mut m = new_members();
    push_member(&mut m, "type", JsonValue::string(kind));
    object_of(m)
}

/// The contract of `figma.get_document`.
pub open spec fn spec_contract_get_document() -> Json {
    Json::Object(no_members()
        .push(("name"@, Json::Str("figma.get_document"@)))
        .push(("provider"@, Json::Str("figma"@)))
        .push(("schema_version"@, Json::Str("1"@)))
        .push(("description"@, Json::Str("Get metadata and pages for the active Figma document"@)))
        .push(("input_schema"@, Json::Object(no_members()
                .push(("type"@, Json::Str("object"@)))
                .push(("properties"@, Json::Object(no_members()
                        .push(("session_id"@, type_schema_model("string"@))))))
                .push(("additionalProperties"@, Json::Bool(false))))))
        .push(("output_schema"@, Json::Object(no_members()
                .push(("type"@, Json::Str("object"@)))
                .push(("required"@, Json::Array(no_items()
                        .push(Json::Str("document_id"@))
                        .push(Json::Str("name"@))
                        .push(Json::Str("pages"@)))))
                .push(("properties"@, Json::Object(no_members()
                        .push(("document_id"@, type_schema_model("string"@)))
                        .push(("name"@, type_schema_model("string"@)))
                        .push(("pages"@, Json::Object(no_members()
                                .push(("type"@, Json::Str("array"@)))
                                .push(("items"@, Json::Object(no_members()
                                        .push(("type"@, Json::Str("object"@)))
                                        .push(("required"@, Json::Array(no_items()
                                                .push(Json::Str("id"@))
                                                .push(Json::Str("name"@)))))
                                        .push(("properties"@, Json::Object(no_members()
                                                .push(("id"@, type_schema_model("string"@)))
                                                .push(("name"@, type_schema_model("string"@))))))))))))))))))
        .push(("capabilities"@, Json::Array(no_items()
                .push(Json::Str("read_external_application"@)))))
        .push(("side_effects"@, Json::Array(no_items())))
        .push(("determinism"@, Json::Str("deterministic"@)))
        .push(("cost"@, Json::Str("low"@)))
        .push(("verification"@, Json::Object(no_members()
                .push(("status"@, Json::Str("verified"@))))))
        .push(("safety"@, Json::Object(no_members()
                .push(("destructive"@, Json::Bool(false)))
                .push(("requires_confirmation"@, Json::Bool(false)))
                .push(("supports_dry_run"@, Json::Bool(false)))))))
}

/// Builds the contract of `figma.get_document`.
#[verifier::rlimit(40)]
fn contract_get_document() -> (r: JsonValue)
    ensures
        r.model() == spec_contract_get_document(),
{
    let mut m1 = new_members();
    push_member(&mut m1, "name", JsonValue::string("figma.get_document"));
    push_member(&mut m1, "provider", JsonValue::string("figma"));
    push_member(&mut m1, "schema_version", JsonValue::string("1"));
    push_member(&mut m1, "description", JsonValue::string("Get metadata and pages for the active Figma document"));
    let mut m2 = new_members();
    push_member(&mut m2, "type", JsonValue::string("object"));
    let mut m3 = new_members();
    push_member(&mut m3, "session_id", type_schema("string"));
    push_member(&mut m2, "properties", object_of(m3));
    push_member(&mut m2, "additionalProperties", JsonValue::Bool(false));
    push_member(&mut m1, "input_schema", object_of(m2));
    let mut m4 = new_members();
    push_member(&mut m4, "type", JsonValue::string("object"));
    let mut a5 = new_items();
    push_item(&mut a5, JsonValue::string("document_id"));
    push_item(&mut a5, JsonValue::string("name"));
    push_item(&mut a5, JsonValue::string("pages"));
    push_member(&mut m4, "required", array_of(a5));
    let mut m6 = new_members();
    push_member(&mut m6, "document_id", type_schema("string"));
    push_member(&mut m6, "name", type_schema("string"));
    let mut m7 = new_members();
    push_member(&mut m7, "type", JsonValue::string("array"));
    let mut m8 = new_members();
    push_member(&mut m8, "type", JsonValue::string("object"));
    let mut a9 = new_items();
    push_item(&mut a9, JsonValue::string("id"));
    push_item(&mut a9, JsonValue::string("name"));
    push_member(&mut m8, "required", array_of(a9));
    let mut m10 = new_members();
    push_member(&mut m10, "id", type_schema("string"));
    push_member(&mut m10, "name", type_schema("string"));
    push_member(&mut m8, "properties", object_of(m10));
    push_member(&mut m7, "items", object_of(m8));
    push_member(&mut m6, "pages", object_of(m7));
    push_member(&mut m4, "properties", object_of(m6));
    push_member(&mut m1, "output_schema", object_of(m4));
    let mut a11 = new_items();
    push_item(&mut a11, JsonValue::string("read_external_application"));
    push_member(&mut m1, "capabilities", array_of(a11));
    let mut a12 = new_items();
    push_member(&mut m1, "side_effects", array_of(a12));
    push_member(&mut m1, "determinism", JsonValue::string("deterministic"));
    push_member(&mut m1, "cost", JsonValue::string("low"));
    let mut m13 = new_members();
    push_member(&mut m13, "status", JsonValue::string("verified"));
    push_member(&mut m1, "verification", object_of(m13));
    let mut m14 = new_members();
    push_member(&mut m14, "destructive", JsonValue::Bool(false));
    push_member(&mut m14, "requires_confirmation", JsonValue::Bool(false));
    push_member(&mut m14, "supports_dry_run", JsonValue::Bool(false));
    push_member(&mut m1, "safety", object_of(m14));
    object_of(m1)
}

/// The contract of `figma.get_page`.
pub open spec fn spec_contract_get_page() -> Json {
    Json::Object(no_members()
        .push(("name"@, Json::Str("figma.get_page"@)))
        .push(("provider"@, Json::Str("figma"@)))
        .push(("schema_version"@, Json::Str("1"@)))
        .push(("description"@, Json::Str("Get metadata for a page in the active Figma document"@)))
        .push(("input_schema"@, Json::Object(no_members()
                .push(("type"@, Json::Str("object"@)))
                .push(("properties"@, Json::Object(no_members()
                        .push(("session_id"@, type_schema_model("string"@)))
                        .push(("page_id"@, type_schema_model("string"@))))))
                .push(("additionalProperties"@, Json::Bool(false))))))
        .push(("output_schema"@, Json::Object(no_members()
                .push(("type"@, Json::Str("object"@)))
                .push(("required"@, Json::Array(no_items()
                        .push(Json::Str("id"@))
                        .push(Json::Str("name"@)))))
                .push(("properties"@, Json::Object(no_members()
                        .push(("id"@, type_schema_model("string"@)))
                        .push(("name"@, type_schema_model("string"@)))
                        .push(("node_count"@, type_schema_model("number"@)))))))))
        .push(("capabilities"@, Json::Array(no_items()
                .push(Json::Str("read_external_application"@)))))
        .push(("side_effects"@, Json::Array(no_items())))
        .push(("determinism"@, Json::Str("deterministic"@)))
        .push(("cost"@, Json::Str("low"@)))
        .push(("verification"@, Json::Object(no_members()
                .push(("status"@, Json::Str("verified"@))))))
        .push(("safety"@, Json::Object(no_members()
                .push(("destructive"@, Json::Bool(false)))
                .push(("requires_confirmation"@, Json::Bool(false)))
                .push(("supports_dry_run"@, Json::Bool(false)))))))
}

/// Builds the contract of `figma.get_page`.
#[verifier::rlimit(40)]
fn contract_get_page() -> (r: JsonValue)
    ensures
        r.model() == spec_contract_get_page(),
{
    let mut m1 = new_members();
    push_member(&mut m1, "name", JsonValue::string("figma.get_page"));
    push_member(&mut m1, "provider", JsonValue::string("figma"));
    push_member(&mut m1, "schema_version", JsonValue::string("1"));
    push_member(&mut m1, "description", JsonValue::string("Get metadata for a page in the active Figma document"));
    let mut m2 = new_members();
    push_member(&mut m2, "type", JsonValue::string("object"));
    let mut m3 = new_members();
    push_member(&mut m3, "session_id", type_schema("string"));
    push_member(&mut m3, "page_id", type_schema("string"));
    push_member(&mut m2, "properties", object_of(m3));
    push_member(&mut m2, "additionalProperties", JsonValue::Bool(false));
    push_member(&mut m1, "input_schema", object_of(m2));
    let mut m4 = new_members();
    push_member(&mut m4, "type", JsonValue::string("object"));
    let mut a5 = new_items();
    push_item(&mut a5, JsonValue::string("id"));
    push_item(&mut a5, JsonValue::string("name"));
    push_member(&mut m4, "required", array_of(a5));
    let mut m6 = new_members();
    push_member(&mut m6, "id", type_schema("string"));
    push_member(&mut m6, "name", type_schema("string"));
    push_member(&mut m6, "node_count", type_schema("number"));
    push_member(&mut m4, "properties", object_of(m6));
    push_member(&mut m1, "output_schema", object_of(m4));
    let mut a7 = new_items();
    push_item(&mut a7, JsonValue::string("read_external_application"));
    push_member(&mut m1, "capabilities", array_of(a7));
    let mut a8 = new_items();
    push_member(&mut m1, "side_effects", array_of(a8));
    push_member(&mut m1, "determinism", JsonValue::string("deterministic"));
    push_member(&mut m1, "cost", JsonValue::string("low"));
    let mut m9 = new_members();
    push_member(&mut m9, "status", JsonValue::string("verified"));
    push_member(&mut m1, "verification", object_of(m9));
    let mut m10 = new_members();
    push_member(&mut m10, "destructive", JsonValue::Bool(false));
    push_member(&mut m10, "requires_confirmation", JsonValue::Bool(false));
    push_member(&mut m10, "supports_dry_run", JsonValue::Bool(false));
    push_member(&mut m1, "safety", object_of(m10));
    object_of(m1)
}

/// The contract of `figma.get_selection`.
pub open spec fn spec_contract_get_selection() -> Json {
    Json::Object(no_members()
        .push(("name"@, Json::Str("figma.get_selection"@)))
        .push(("provider"@, Json::Str("figma"@)))
        .push(("schema_version"@, Json::Str("1"@)))
        .push(("description"@, Json::Str("Get currently selected nodes in the active Figma session"@)))
        .push(("input_schema"@, Json::Object(no_members()
                .push(("type"@, Json::Str("object"@)))
                .push(("properties"@, Json::Object(no_members()
                        .push(("session_id"@, type_schema_model("string"@))))))
                .push(("additionalProperties"@, Json::Bool(false))))))
        .push(("output_schema"@, Json::Object(no_members()
                .push(("type"@, Json::Str("object"@)))
                .push(("required"@, Json::Array(no_items()
                        .push(Json::Str("nodes"@)))))
                .push(("properties"@, Json::Object(no_members()
                        .push(("nodes"@, Json::Object(no_members()
                                .push(("type"@, Json::Str("array"@)))
                                .push(("items"@, Json::Object(no_members()
                                        .push(("type"@, Json::Str("object"@)))
                                        .push(("required"@, Json::Array(no_items()
                                                .push(Json::Str("id"@))
                                                .push(Json::Str("name"@))
                                                .push(Json::Str("type"@)))))
                                        .push(("properties"@, Json::Object(no_members()
                                                .push(("id"@, type_schema_model("string"@)))
                                                .push(("name"@, type_schema_model("string"@)))
                                                .push(("type"@, type_schema_model("string"@))))))))))))))))))
        .push(("capabilities"@, Json::Array(no_items()
                .push(Json::Str("read_external_application"@)))))
        .push(("side_effects"@, Json::Array(no_items())))
        .push(("determinism"@, Json::Str("deterministic"@)))
        .push(("cost"@, Json::Str("low"@)))
        .push(("verification"@, Json::Object(no_members()
                .push(("status"@, Json::Str("verified"@))))))
        .push(("safety"@, Json::Object(no_members()
                .push(("destructive"@, Json::Bool(false)))
                .push(("requires_confirmation"@, Json::Bool(false)))
                .push(("supports_dry_run"@, Json::Bool(false)))))))
}

/// Builds the contract of `figma.get_selection`.
#[verifier::rlimit(40)]
fn contract_get_selection() -> (r: JsonValue)
    ensures
        r.model() == spec_contract_get_selection(),
{
    let mut m1 = new_members();
    push_member(&mut m1, "name", JsonValue::string("figma.get_selection"));
    push_member(&mut m1, "provider", JsonValue::string("figma"));
    push_member(&mut m1, "schema_version", JsonValue::string("1"));
    push_member(&mut m1, "description", JsonValue::string("Get currently selected nodes in the active Figma session"));
    let mut m2 = new_members();
    push_member(&mut m2, "type", JsonValue::string("object"));
    let mut m3 = new_members();
    push_member(&mut m3, "session_id", type_schema("string"));
    push_member(&mut m2, "properties", object_of(m3));
    push_member(&mut m2, "additionalProperties", JsonValue::Bool(false));
    push_member(&mut m1, "input_schema", object_of(m2));
    let mut m4 = new_members();
    push_member(&mut m4, "type", JsonValue::string("object"));
    let mut a5 = new_items();
    push_item(&mut a5, JsonValue::string("nodes"));
    push_member(&mut m4, "required", array_of(a5));
    let mut m6 = new_members();
    let mut m7 = new_members();
    push_member(&mut m7, "type", JsonValue::string("array"));
    let mut m8 = new_members();
    push_member(&mut m8, "type", JsonValue::string("object"));
    let mut a9 = new_items();
    push_item(&mut a9, JsonValue::string("id"));
    push_item(&mut a9, JsonValue::string("name"));
    push_item(&mut a9, JsonValue::string("type"));
    push_member(&mut m8, "required", array_of(a9));
    let mut m10 = new_members();
    push_member(&mut m10, "id", type_schema("string"));
    push_member(&mut m10, "name", type_schema("string"));
    push_member(&mut m10, "type", type_schema("string"));
    push_member(&mut m8, "properties", object_of(m10));
    push_member(&mut m7, "items", object_of(m8));
    push_member(&mut m6, "nodes", object_of(m7));
    push_member(&mut m4, "properties", object_of(m6));
    push_member(&mut m1, "output_schema", object_of(m4));
    let mut a11 = new_items();
    push_item(&mut a11, JsonValue::string("read_external_application"));
    push_member(&mut m1, "capabilities", array_of(a11));
    let mut a12 = new_items();
    push_member(&mut m1, "side_effects", array_of(a12));
    push_member(&mut m1, "determinism", JsonValue::string("deterministic"));
    push_member(&mut m1, "cost", JsonValue::string("low"));
    let mut m13 = new_members();
    push_member(&mut m13, "status", JsonValue::string("verified"));
    push_member(&mut m1, "verification", object_of(m13));
    let mut m14 = new_members();
    push_member(&mut m14, "destructive", JsonValue::Bool(false));
    push_member(&mut m14, "requires_confirmation", JsonValue::Bool(false));
    push_member(&mut m14, "supports_dry_run", JsonValue::Bool(false));
    push_member(&mut m1, "safety", object_of(m14));
    object_of(m1)
}

/// The contract of `figma.get_node`.
pub open spec fn spec_contract_get_node() -> Json {
    Json::Object(no_members()
        .push(("name"@, Json::Str("figma.get_node"@)))
        .push(("provider"@, Json::Str("figma"@)))
        .push(("schema_version"@, Json::Str("1"@)))
        .push(("description"@, Json::Str("Get detailed information for a Figma node by ID"@)))
        .push(("input_schema"@, Json::Object(no_members()
                .push(("type"@, Json::Str("object"@)))
                .push(("required"@, Json::Array(no_items()
                        .push(Json::Str("node_id"@)))))
                .push(("properties"@, Json::Object(no_members()
                        .push(("session_id"@, type_schema_model("string"@)))
                        .push(("node_id"@, type_schema_model("string"@))))))
                .push(("additionalProperties"@, Json::Bool(false))))))
        .push(("output_schema"@, Json::Object(no_members()
                .push(("type"@, Json::Str("object"@)))
                .push(("required"@, Json::Array(no_items()
                        .push(Json::Str("id"@))
                        .push(Json::Str("name"@))
                        .push(Json::Str("type"@)))))
                .push(("properties"@, Json::Object(no_members()
                        .push(("id"@, type_schema_model("string"@)))
                        .push(("name"@, type_schema_model("string"@)))
                        .push(("type"@, type_schema_model("string"@)))
                        .push(("parent_id"@, type_schema_model("string"@)))
                        .push(("x"@, type_schema_model("number"@)))
                        .push(("y"@, type_schema_model("number"@)))
                        .push(("width"@, type_schema_model("number"@)))
                        .push(("height"@, type_schema_model("number"@)))))))))
        .push(("capabilities"@, Json::Array(no_items()
                .push(Json::Str("read_external_application"@)))))
        .push(("side_effects"@, Json::Array(no_items())))
        .push(("determinism"@, Json::Str("deterministic"@)))
        .push(("cost"@, Json::Str("low"@)))
        .push(("verification"@, Json::Object(no_members()
                .push(("status"@, Json::Str("verified"@))))))
        .push(("safety"@, Json::Object(no_members()
                .push(("destructive"@, Json::Bool(false)))
                .push(("requires_confirmation"@, Json::Bool(false)))
                .push(("supports_dry_run"@, Json::Bool(false)))))))
}

/// Builds the contract of `figma.get_node`.
#[verifier::rlimit(40)]
fn contract_get_node() -> (r: JsonValue)
    ensures
        r.model() == spec_contract_get_node(),
{
    let mut m1 = new_members();
    push_member(&mut m1, "name", JsonValue::string("figma.get_node"));
    push_member(&mut m1, "provider", JsonValue::string("figma"));
    push_member(&mut m1, "schema_version", JsonValue::string("1"));
    push_member(&mut m1, "description", JsonValue::string("Get detailed information for a Figma node by ID"));
    let mut m2 = new_members();
    push_member(&mut m2, "type", JsonValue::string("object"));
    let mut a3 = new_items();
    push_item(&mut a3, JsonValue::string("node_id"));
    push_member(&mut m2, "required", array_of(a3));
    let mut m4 = new_members();
    push_member(&mut m4, "session_id", type_schema("string"));
    push_member(&mut m4, "node_id", type_schema("string"));
    push_member(&mut m2, "properties", object_of(m4));
    push_member(&mut m2, "additionalProperties", JsonValue::Bool(false));
    push_member(&mut m1, "input_schema", object_of(m2));
    let mut m5 = new_members();
    push_member(&mut m5, "type", JsonValue::string("object"));
    let mut a6 = new_items();
    push_item(&mut a6, JsonValue::string("id"));
    push_item(&mut a6, JsonValue::string("name"));
    push_item(&mut a6, JsonValue::string("type"));
    push_member(&mut m5, "required", array_of(a6));
    let mut m7 = new_members();
    push_member(&mut m7, "id", type_schema("string"));
    push_member(&mut m7, "name", type_schema("string"));
    push_member(&mut m7, "type", type_schema("string"));
    push_member(&mut m7, "parent_id", type_schema("string"));
    push_member(&mut m7, "x", type_schema("number"));
    push_member(&mut m7, "y", type_schema("number"));
    push_member(&mut m7, "width", type_schema("number"));
    push_member(&mut m7, "height", type_schema("number"));
    push_member(&mut m5, "properties", object_of(m7));
    push_member(&mut m1, "output_schema", object_of(m5));
    let mut a8 = new_items();
    push_item(&mut a8, JsonValue::string("read_external_application"));
    push_member(&mut m1, "capabilities", array_of(a8));
    let mut a9 = new_items();
    push_member(&mut m1, "side_effects", array_of(a9));
    push_member(&mut m1, "determinism", JsonValue::string("deterministic"));
    push_member(&mut m1, "cost", JsonValue::string("low"));
    let mut m10 = new_members();
    push_member(&mut m10, "status", JsonValue::string("verified"));
    push_member(&mut m1, "verification", object_of(m10));
    let mut m11 = new_members();
    push_member(&mut m11, "destructive", JsonValue::Bool(false));
    push_member(&mut m11, "requires_confirmation", JsonValue::Bool(false));
    push_member(&mut m11, "supports_dry_run", JsonValue::Bool(false));
    push_member(&mut m1, "safety", object_of(m11));
    object_of(m1)
}

/// The contract of `figma.create_frame`.
pub open spec fn spec_contract_create_frame() -> Json {
    Json::Object(no_members()
        .push(("name"@, Json::Str("figma.create_frame"@)))
        .push(("provider"@, Json::Str("figma"@)))
        .push(("schema_version"@, Json::Str("1"@)))
        .push(("description"@, Json::Str("Create a Figma frame"@)))
        .push(("input_schema"@, Json::Object(no_members()
                .push(("type"@, Json::Str("object"@)))
                .push(("required"@, Json::Array(no_items()
                        .push(Json::Str("name"@))
                        .push(Json::Str("x"@))
                        .push(Json::Str("y"@))
                        .push(Json::Str("width"@))
                        .push(Json::Str("height"@)))))
                .push(("properties"@, Json::Object(no_members()
                        .push(("session_id"@, type_schema_model("string"@)))
                        .push(("parent_id"@, type_schema_model("string"@)))
                        .push(("name"@, type_schema_model("string"@)))
                        .push(("x"@, type_schema_model("number"@)))
                        .push(("y"@, type_schema_model("number"@)))
                        .push(("width"@, type_schema_model("number"@)))
                        .push(("height"@, type_schema_model("number"@))))))
                .push(("additionalProperties"@, Json::Bool(false))))))
        .push(("output_schema"@, Json::Object(no_members()
                .push(("type"@, Json::Str("object"@)))
                .push(("required"@, Json::Array(no_items()
                        .push(Json::Str("node_id"@))
                        .push(Json::Str("name"@))
                        .push(Json::Str("type"@)))))
                .push(("properties"@, Json::Object(no_members()
                        .push(("node_id"@, type_schema_model("string"@)))
                        .push(("name"@, type_schema_model("string"@)))
                        .push(("type"@, type_schema_model("string"@)))))))))
        .push(("capabilities"@, Json::Array(no_items()
                .push(Json::Str("mutates_external_application"@)))))
        .push(("side_effects"@, Json::Array(no_items()
                .push(Json::Str("writes_figma_document"@)))))
        .push(("determinism"@, Json::Str("deterministic"@)))
        .push(("cost"@, Json::Str("low"@)))
        .push(("verification"@, Json::Object(no_members()
                .push(("status"@, Json::Str("verified"@))))))
        .push(("safety"@, Json::Object(no_members()
                .push(("destructive"@, Json::Bool(false)))
                .push(("requires_confirmation"@, Json::Bool(false)))
                .push(("supports_dry_run"@, Json::Bool(false)))))))
}

/// Builds the contract of `figma.create_frame`.
#[verifier::rlimit(40)]
fn contract_create_frame() -> (r: JsonValue)
    ensures
        r.model() == spec_contract_create_frame(),
{
    let mut m1 = new_members();
    push_member(&mut m1, "name", JsonValue::string("figma.create_frame"));
    push_member(&mut m1, "provider", JsonValue::string("figma"));
    push_member(&mut m1, "schema_version", JsonValue::string("1"));
    push_member(&mut m1, "description", JsonValue::string("Create a Figma frame"));
    let mut m2 = new_members();
    push_member(&mut m2, "type", JsonValue::string("object"));
    let mut a3 = new_items();
    push_item(&mut a3, JsonValue::string("name"));
    push_item(&mut a3, JsonValue::string("x"));
    push_item(&mut a3, JsonValue::string("y"));
    push_item(&mut a3, JsonValue::string("width"));
    push_item(&mut a3, JsonValue::string("height"));
    push_member(&mut m2, "required", array_of(a3));
    let mut m4 = new_members();
    push_member(&mut m4, "session_id", type_schema("string"));
    push_member(&mut m4, "parent_id", type_schema("string"));
    push_member(&mut m4, "name", type_schema("string"));
    push_member(&mut m4, "x", type_schema("number"));
    push_member(&mut m4, "y", type_schema("number"));
    push_member(&mut m4, "width", type_schema("number"));
    push_member(&mut m4, "height", type_schema("number"));
    push_member(&mut m2, "properties", object_of(m4));
    push_member(&mut m2, "additionalProperties", JsonValue::Bool(false));
    push_member(&mut m1, "input_schema", object_of(m2));
    let mut m5 = new_members();
    push_member(&mut m5, "type", JsonValue::string("object"));
    let mut a6 = new_items();
    push_item(&mut a6, JsonValue::string("node_id"));
    push_item(&mut a6, JsonValue::string("name"));
    push_item(&mut a6, JsonValue::string("type"));
    push_member(&mut m5, "required", array_of(a6));
    let mut m7 = new_members();
    push_member(&mut m7, "node_id", type_schema("string"));
    push_member(&mut m7, "name", type_schema("string"));
    push_member(&mut m7, "type", type_schema("string"));
    push_member(&mut m5, "properties", object_of(m7));
    push_member(&mut m1, "output_schema", object_of(m5));
    let mut a8 = new_items();
    push_item(&mut a8, JsonValue::string("mutates_external_application"));
    push_member(&mut m1, "capabilities", array_of(a8));
    let mut a9 = new_items();
    push_item(&mut a9, JsonValue::string("writes_figma_document"));
    push_member(&mut m1, "side_effects", array_of(a9));
    push_member(&mut m1, "determinism", JsonValue::string("deterministic"));
    push_member(&mut m1, "cost", JsonValue::string("low"));
    let mut m10 = new_members();
    push_member(&mut m10, "status", JsonValue::string("verified"));
    push_member(&mut m1, "verification", object_of(m10));
    let mut m11 = new_members();
    push_member(&mut m11, "destructive", JsonValue::Bool(false));
    push_member(&mut m11, "requires_confirmation", JsonValue::Bool(false));
    push_member(&mut m11, "supports_dry_run", JsonValue::Bool(false));
    push_member(&mut m1, "safety", object_of(m11));
    object_of(m1)
}

/// The contract of `figma.create_text`.
pub open spec fn spec_contract_create_text() -> Json {
    Json::Object(no_members()
        .push(("name"@, Json::Str("figma.create_text"@)))
        .push(("provider"@, Json::Str("figma"@)))
        .push(("schema_version"@, Json::Str("1"@)))
        .push(("description"@, Json::Str("Create a Figma text node"@)))
        .push(("input_schema"@, Json::Object(no_members()
                .push(("type"@, Json::Str("object"@)))
                .push(("required"@, Json::Array(no_items()
                        .push(Json::Str("text"@))
                        .push(Json::Str("x"@))
                        .push(Json::Str("y"@)))))
                .push(("properties"@, Json::Object(no_members()
                        .push(("session_id"@, type_schema_model("string"@)))
                        .push(("parent_id"@, type_schema_model("string"@)))
                        .push(("text"@, type_schema_model("string"@)))
                        .push(("name"@, type_schema_model("string"@)))
                        .push(("x"@, type_schema_model("number"@)))
                        .push(("y"@, type_schema_model("number"@))))))
                .push(("additionalProperties"@, Json::Bool(false))))))
        .push(("output_schema"@, Json::Object(no_members()
                .push(("type"@, Json::Str("object"@)))
                .push(("required"@, Json::Array(no_items()
                        .push(Json::Str("node_id"@))
                        .push(Json::Str("type"@))
                        .push(Json::Str("text"@)))))
                .push(("properties"@, Json::Object(no_members()
                        .push(("node_id"@, type_schema_model("string"@)))
                        .push(("type"@, type_schema_model("string"@)))
                        .push(("text"@, type_schema_model("string"@)))))))))
        .push(("capabilities"@, Json::Array(no_items()
                .push(Json::Str("mutates_external_application"@)))))
        .push(("side_effects"@, Json::Array(no_items()
                .push(Json::Str("writes_figma_document"@)))))
        .push(("determinism"@, Json::Str("deterministic"@)))
        .push(("cost"@, Json::Str("low"@)))
        .push(("verification"@, Json::Object(no_members()
                .push(("status"@, Json::Str("verified"@))))))
        .push(("safety"@, Json::Object(no_members()
                .push(("destructive"@, Json::Bool(false)))
                .push(("requires_confirmation"@, Json::Bool(false)))
                .push(("supports_dry_run"@, Json::Bool(false)))))))
}

/// Builds the contract of `figma.create_text`.
#[verifier::rlimit(40)]
fn contract_create_text() -> (r: JsonValue)
    ensures
        r.model() == spec_contract_create_text(),
{
    let mut m1 = new_members();
    push_member(&mut m1, "name", JsonValue::string("figma.create_text"));
    push_member(&mut m1, "provider", JsonValue::string("figma"));
    push_member(&mut m1, "schema_version", JsonValue::string("1"));
    push_member(&mut m1, "description", JsonValue::string("Create a Figma text node"));
    let mut m2 = new_members();
    push_member(&mut m2, "type", JsonValue::string("object"));
    let mut a3 = new_items();
    push_item(&mut a3, JsonValue::string("text"));
    push_item(&mut a3, JsonValue::string("x"));
    push_item(&mut a3, JsonValue::string("y"));
    push_member(&mut m2, "required", array_of(a3));
    let mut m4 = new_members();
    push_member(&mut m4, "session_id", type_schema("string"));
    push_member(&mut m4, "parent_id", type_schema("string"));
    push_member(&mut m4, "text", type_schema("string"));
    push_member(&mut m4, "name", type_schema("string"));
    push_member(&mut m4, "x", type_schema("number"));
    push_member(&mut m4, "y", type_schema("number"));
    push_member(&mut m2, "properties", object_of(m4));
    push_member(&mut m2, "additionalProperties", JsonValue::Bool(false));
    push_member(&mut m1, "input_schema", object_of(m2));
    let mut m5 = new_members();
    push_member(&mut m5, "type", JsonValue::string("object"));
    let mut a6 = new_items();
    push_item(&mut a6, JsonValue::string("node_id"));
    push_item(&mut a6, JsonValue::string("type"));
    push_item(&mut a6, JsonValue::string("text"));
    push_member(&mut m5, "required", array_of(a6));
    let mut m7 = new_members();
    push_member(&mut m7, "node_id", type_schema("string"));
    push_member(&mut m7, "type", type_schema("string"));
    push_member(&mut m7, "text", type_schema("string"));
    push_member(&mut m5, "properties", object_of(m7));
    push_member(&mut m1, "output_schema", object_of(m5));
    let mut a8 = new_items();
    push_item(&mut a8, JsonValue::string("mutates_external_application"));
    push_member(&mut m1, "capabilities", array_of(a8));
    let mut a9 = new_items();
    push_item(&mut a9, JsonValue::string("writes_figma_document"));
    push_member(&mut m1, "side_effects", array_of(a9));
    push_member(&mut m1, "determinism", JsonValue::string("deterministic"));
    push_member(&mut m1, "cost", JsonValue::string("low"));
    let mut m10 = new_members();
    push_member(&mut m10, "status", JsonValue::string("verified"));
    push_member(&mut m1, "verification", object_of(m10));
    let mut m11 = new_members();
    push_member(&mut m11, "destructive", JsonValue::Bool(false));
    push_member(&mut m11, "requires_confirmation", JsonValue::Bool(false));
    push_member(&mut m11, "supports_dry_run", JsonValue::Bool(false));
    push_member(&mut m1, "safety", object_of(m11));
    object_of(m1)
}

/// The contract of `figma.set_fill`.
pub open spec fn spec_contract_set_fill() -> Json {
    Json::Object(no_members()
        .push(("name"@, Json::Str("figma.set_fill"@)))
        .push(("provider"@, Json::Str("figma"@)))
        .push(("schema_version"@, Json::Str("1"@)))
        .push(("description"@, Json::Str("Set the fill color of a Figma node"@)))
        .push(("input_schema"@, Json::Object(no_members()
                .push(("type"@, Json::Str("object"@)))
                .push(("required"@, Json::Array(no_items()
                        .push(Json::Str("node_id"@))
                        .push(Json::Str("color"@)))))
                .push(("properties"@, Json::Object(no_members()
                        .push(("session_id"@, type_schema_model("string"@)))
                        .push(("node_id"@, type_schema_model("string"@)))
                        .push(("color"@, Json::Object(no_members()
                                .push(("type"@, Json::Str("object"@)))
                                .push(("required"@, Json::Array(no_items()
                                        .push(Json::Str("r"@))
                                        .push(Json::Str("g"@))
                                        .push(Json::Str("b"@)))))
                                .push(("properties"@, Json::Object(no_members()
                                        .push(("r"@, type_schema_model("number"@)))
                                        .push(("g"@, type_schema_model("number"@)))
                                        .push(("b"@, type_schema_model("number"@)))
                                        .push(("a"@, type_schema_model("number"@))))))))))))
                .push(("additionalProperties"@, Json::Bool(false))))))
        .push(("output_schema"@, Json::Object(no_members()
                .push(("type"@, Json::Str("object"@)))
                .push(("required"@, Json::Array(no_items()
                        .push(Json::Str("node_id"@)))))
                .push(("properties"@, Json::Object(no_members()
                        .push(("node_id"@, type_schema_model("string"@)))
                        .push(("fill_applied"@, type_schema_model("boolean"@)))))))))
        .push(("capabilities"@, Json::Array(no_items()
                .push(Json::Str("mutates_external_application"@)))))
        .push(("side_effects"@, Json::Array(no_items()
                .push(Json::Str("writes_figma_document"@)))))
        .push(("determinism"@, Json::Str("deterministic"@)))
        .push(("cost"@, Json::Str("low"@)))
        .push(("verification"@, Json::Object(no_members()
                .push(("status"@, Json::Str("verified"@))))))
        .push(("safety"@, Json::Object(no_members()
                .push(("destructive"@, Json::Bool(false)))
                .push(("requires_confirmation"@, Json::Bool(false)))
                .push(("supports_dry_run"@, Json::Bool(false)))))))
}

/// Builds the contract of `figma.set_fill`.
#[verifier::rlimit(40)]
fn contract_set_fill() -> (r: JsonValue)
    ensures
        r.model() == spec_contract_set_fill(),
{
    let mut m1 = new_members();
    push_member(&mut m1, "name", JsonValue::string("figma.set_fill"));
    push_member(&mut m1, "provider", JsonValue::string("figma"));
    push_member(&mut m1, "schema_version", JsonValue::string("1"));
    push_member(&mut m1, "description", JsonValue::string("Set the fill color of a Figma node"));
    let mut m2 = new_members();
    push_member(&mut m2, "type", JsonValue::string("object"));
    let mut a3 = new_items();
    push_item(&mut a3, JsonValue::string("node_id"));
    push_item(&mut a3, JsonValue::string("color"));
    push_member(&mut m2, "required", array_of(a3));
    let mut m4 = new_members();
    push_member(&mut m4, "session_id", type_schema("string"));
    push_member(&mut m4, "node_id", type_schema("string"));
    let mut m5 = new_members();
    push_member(&mut m5, "type", JsonValue::string("object"));
    let mut a6 = new_items();
    push_item(&mut a6, JsonValue::string("r"));
    push_item(&mut a6, JsonValue::string("g"));
    push_item(&mut a6, JsonValue::string("b"));
    push_member(&mut m5, "required", array_of(a6));
    let mut m7 = new_members();
    push_member(&mut m7, "r", type_schema("number"));
    push_member(&mut m7, "g", type_schema("number"));
    push_member(&mut m7, "b", type_schema("number"));
    push_member(&mut m7, "a", type_schema("number"));
    push_member(&mut m5, "properties", object_of(m7));
    push_member(&mut m4, "color", object_of(m5));
    push_member(&mut m2, "properties", object_of(m4));
    push_member(&mut m2, "additionalProperties", JsonValue::Bool(false));
    push_member(&mut m1, "input_schema", object_of(m2));
    let mut m8 = new_members();
    push_member(&mut m8, "type", JsonValue::string("object"));
    let mut a9 = new_items();
    push_item(&mut a9, JsonValue::string("node_id"));
    push_member(&mut m8, "required", array_of(a9));
    let mut m10 = new_members();
    push_member(&mut m10, "node_id", type_schema("string"));
    push_member(&mut m10, "fill_applied", type_schema("boolean"));
    push_member(&mut m8, "properties", object_of(m10));
    push_member(&mut m1, "output_schema", object_of(m8));
    let mut a11 = new_items();
    push_item(&mut a11, JsonValue::string("mutates_external_application"));
    push_member(&mut m1, "capabilities", array_of(a11));
    let mut a12 = new_items();
    push_item(&mut a12, JsonValue::string("writes_figma_document"));
    push_member(&mut m1, "side_effects", array_of(a12));
    push_member(&mut m1, "determinism", JsonValue::string("deterministic"));
    push_member(&mut m1, "cost", JsonValue::string("low"));
    let mut m13 = new_members();
    push_member(&mut m13, "status", JsonValue::string("verified"));
    push_member(&mut m1, "verification", object_of(m13));
    let mut m14 = new_members();
    push_member(&mut m14, "destructive", JsonValue::Bool(false));
    push_member(&mut m14, "requires_confirmation", JsonValue::Bool(false));
    push_member(&mut m14, "supports_dry_run", JsonValue::Bool(false));
    push_member(&mut m1, "safety", object_of(m14));
    object_of(m1)
}

/// The contract of `figma.move_node`.
pub open spec fn spec_contract_move_node() -> Json {
    Json::Object(no_members()
        .push(("name"@, Json::Str("figma.move_node"@)))
        .push(("provider"@, Json::Str("figma"@)))
        .push(("schema_version"@, Json::Str("1"@)))
        .push(("description"@, Json::Str("Move a Figma node to a new position"@)))
        .push(("input_schema"@, Json::Object(no_members()
                .push(("type"@, Json::Str("object"@)))
                .push(("required"@, Json::Array(no_items()
                        .push(Json::Str("node_id"@))
                        .push(Json::Str("x"@))
                        .push(Json::Str("y"@)))))
                .push(("properties"@, Json::Object(no_members()
                        .push(("session_id"@, type_schema_model("string"@)))
                        .push(("node_id"@, type_schema_model("string"@)))
                        .push(("x"@, type_schema_model("number"@)))
                        .push(("y"@, type_schema_model("number"@))))))
                .push(("additionalProperties"@, Json::Bool(false))))))
        .push(("output_schema"@, Json::Object(no_members()
                .push(("type"@, Json::Str("object"@)))
                .push(("required"@, Json::Array(no_items()
                        .push(Json::Str("node_id"@))
                        .push(Json::Str("x"@))
                        .push(Json::Str("y"@)))))
                .push(("properties"@, Json::Object(no_members()
                        .push(("node_id"@, type_schema_model("string"@)))
                        .push(("x"@, type_schema_model("number"@)))
                        .push(("y"@, type_schema_model("number"@)))))))))
        .push(("capabilities"@, Json::Array(no_items()
                .push(Json::Str("mutates_external_application"@)))))
        .push(("side_effects"@, Json::Array(no_items()
                .push(Json::Str("writes_figma_document"@)))))
        .push(("determinism"@, Json::Str("deterministic"@)))
        .push(("cost"@, Json::Str("low"@)))
        .push(("verification"@, Json::Object(no_members()
                .push(("status"@, Json::Str("verified"@))))))
        .push(("safety"@, Json::Object(no_members()
                .push(("destructive"@, Json::Bool(false)))
                .push(("requires_confirmation"@, Json::Bool(false)))
                .push(("supports_dry_run"@, Json::Bool(false)))))))
}

/// Builds the contract of `figma.move_node`.
#[verifier::rlimit(40)]
fn contract_move_node() -> (r: JsonValue)
    ensures
        r.model() == spec_contract_move_node(),
{
    let mut m1 = new_members();
    push_member(&mut m1, "name", JsonValue::string("figma.move_node"));
    push_member(&mut m1, "provider", JsonValue::string("figma"));
    push_member(&mut m1, "schema_version", JsonValue::string("1"));
    push_member(&mut m1, "description", JsonValue::string("Move a Figma node to a new position"));
    let mut m2 = new_members();
    push_member(&mut m2, "type", JsonValue::string("object"));
    let mut a3 = new_items();
    push_item(&mut a3, JsonValue::string("node_id"));
    push_item(&mut a3, JsonValue::string("x"));
    push_item(&mut a3, JsonValue::string("y"));
    push_member(&mut m2, "required", array_of(a3));
    let mut m4 = new_members();
    push_member(&mut m4, "session_id", type_schema("string"));
    push_member(&mut m4, "node_id", type_schema("string"));
    push_member(&mut m4, "x", type_schema("number"));
    push_member(&mut m4, "y", type_schema("number"));
    push_member(&mut m2, "properties", object_of(m4));
    push_member(&mut m2, "additionalProperties", JsonValue::Bool(false));
    push_member(&mut m1, "input_schema", object_of(m2));
    let mut m5 = new_members();
    push_member(&mut m5, "type", JsonValue::string("object"));
    let mut a6 = new_items();
    push_item(&mut a6, JsonValue::string("node_id"));
    push_item(&mut a6, JsonValue::string("x"));
    push_item(&mut a6, JsonValue::string("y"));
    push_member(&mut m5, "required", array_of(a6));
    let mut m7 = new_members();
    push_member(&mut m7, "node_id", type_schema("string"));
    push_member(&mut m7, "x", type_schema("number"));
    push_member(&mut m7, "y", type_schema("number"));
    push_member(&mut m5, "properties", object_of(m7));
    push_member(&mut m1, "output_schema", object_of(m5));
    let mut a8 = new_items();
    push_item(&mut a8, JsonValue::string("mutates_external_application"));
    push_member(&mut m1, "capabilities", array_of(a8));
    let mut a9 = new_items();
    push_item(&mut a9, JsonValue::string("writes_figma_document"));
    push_member(&mut m1, "side_effects", array_of(a9));
    push_member(&mut m1, "determinism", JsonValue::string("deterministic"));
    push_member(&mut m1, "cost", JsonValue::string("low"));
    let mut m10 = new_members();
    push_member(&mut m10, "status", JsonValue::string("verified"));
    push_member(&mut m1, "verification", object_of(m10));
    let mut m11 = new_members();
    push_member(&mut m11, "destructive", JsonValue::Bool(false));
    push_member(&mut m11, "requires_confirmation", JsonValue::Bool(false));
    push_member(&mut m11, "supports_dry_run", JsonValue::Bool(false));
    push_member(&mut m1, "safety", object_of(m11));
    object_of(m1)
}

/// The contract of `figma.delete_node`.
pub open spec fn spec_contract_delete_node() -> Json {
    Json::Object(no_members()
        .push(("name"@, Json::Str("figma.delete_node"@)))
        .push(("provider"@, Json::Str("figma"@)))
        .push(("schema_version"@, Json::Str("1"@)))
        .push(("description"@, Json::Str("Delete a node from the active Figma document"@)))
        .push(("input_schema"@, Json::Object(no_members()
                .push(("type"@, Json::Str("object"@)))
                .push(("required"@, Json::Array(no_items()
                        .push(Json::Str("node_id"@))
                        .push(Json::Str("confirm"@)))))
                .push(("properties"@, Json::Object(no_members()
                        .push(("session_id"@, type_schema_model("string"@)))
                        .push(("node_id"@, type_schema_model("string"@)))
                        .push(("confirm"@, type_schema_model("boolean"@)))
                        .push(("dry_run"@, type_schema_model("boolean"@))))))
                .push(("additionalProperties"@, Json::Bool(false))))))
        .push(("output_schema"@, Json::Object(no_members()
                .push(("type"@, Json::Str("object"@)))
                .push(("required"@, Json::Array(no_items()
                        .push(Json::Str("node_id"@)))))
                .push(("properties"@, Json::Object(no_members()
                        .push(("node_id"@, type_schema_model("string"@)))
                        .push(("deleted"@, type_schema_model("boolean"@)))
                        .push(("dry_run"@, type_schema_model("boolean"@)))))))))
        .push(("capabilities"@, Json::Array(no_items()
                .push(Json::Str("mutates_external_application"@)))))
        .push(("side_effects"@, Json::Array(no_items()
                .push(Json::Str("writes_figma_document"@))
                .push(Json::Str("deletes_user_content"@)))))
        .push(("determinism"@, Json::Str("deterministic"@)))
        .push(("cost"@, Json::Str("low"@)))
        .push(("verification"@, Json::Object(no_members()
                .push(("status"@, Json::Str("verified"@))))))
        .push(("safety"@, Json::Object(no_members()
                .push(("destructive"@, Json::Bool(true)))
                .push(("requires_confirmation"@, Json::Bool(true)))
                .push(("supports_dry_run"@, Json::Bool(true)))
                .push(("policy_tags"@, Json::Array(no_items()
                        .push(Json::Str("shared_resource_risk"@)))))))))
}

/// Builds the contract of `figma.delete_node`.
#[verifier::rlimit(40)]
fn contract_delete_node() -> (r: JsonValue)
    ensures
        r.model() == spec_contract_delete_node(),
{
    let mut m1 = new_members();
    push_member(&mut m1, "name", JsonValue::string("figma.delete_node"));
    push_member(&mut m1, "provider", JsonValue::string("figma"));
    push_member(&mut m1, "schema_version", JsonValue::string("1"));
    push_member(&mut m1, "description", JsonValue::string("Delete a node from the active Figma document"));
    let mut m2 = new_members();
    push_member(&mut m2, "type", JsonValue::string("object"));
    let mut a3 = new_items();
    push_item(&mut a3, JsonValue::string("node_id"));
    push_item(&mut a3, JsonValue::string("confirm"));
    push_member(&mut m2, "required", array_of(a3));
    let mut m4 = new_members();
    push_member(&mut m4, "session_id", type_schema("string"));
    push_member(&mut m4, "node_id", type_schema("string"));
    push_member(&mut m4, "confirm", type_schema("boolean"));
    push_member(&mut m4, "dry_run", type_schema("boolean"));
    push_member(&mut m2, "properties", object_of(m4));
    push_member(&mut m2, "additionalProperties", JsonValue::Bool(false));
    push_member(&mut m1, "input_schema", object_of(m2));
    let mut m5 = new_members();
    push_member(&mut m5, "type", JsonValue::string("object"));
    let mut a6 = new_items();
    push_item(&mut a6, JsonValue::string("node_id"));
    push_member(&mut m5, "required", array_of(a6));
    let mut m7 = new_members();
    push_member(&mut m7, "node_id", type_schema("string"));
    push_member(&mut m7, "deleted", type_schema("boolean"));
    push_member(&mut m7, "dry_run", type_schema("boolean"));
    push_member(&mut m5, "properties", object_of(m7));
    push_member(&mut m1, "output_schema", object_of(m5));
    let mut a8 = new_items();
    push_item(&mut a8, JsonValue::string("mutates_external_application"));
    push_member(&mut m1, "capabilities", array_of(a8));
    let mut a9 = new_items();
    push_item(&mut a9, JsonValue::string("writes_figma_document"));
    push_item(&mut a9, JsonValue::string("deletes_user_content"));
    push_member(&mut m1, "side_effects", array_of(a9));
    push_member(&mut m1, "determinism", JsonValue::string("deterministic"));
    push_member(&mut m1, "cost", JsonValue::string("low"));
    let mut m10 = new_members();
    push_member(&mut m10, "status", JsonValue::string("verified"));
    push_member(&mut m1, "verification", object_of(m10));
    let mut m11 = new_members();
    push_member(&mut m11, "destructive", JsonValue::Bool(true));
    push_member(&mut m11, "requires_confirmation", JsonValue::Bool(true));
    push_member(&mut m11, "supports_dry_run", JsonValue::Bool(true));
    let mut a12 = new_items();
    push_item(&mut a12, JsonValue::string("shared_resource_risk"));
    push_member(&mut m11, "policy_tags", array_of(a12));
    push_member(&mut m1, "safety", object_of(m11));
    object_of(m1)
}

/// The full contract of a canonical tool (`null` for any other name).
pub open spec fn spec_tool_contract(canonical: Seq<char>) -> Json {
    if canonical == "figma.get_document"@ {
        spec_contract_get_document()
    } else if canonical == "figma.get_page"@ {
        spec_contract_get_page()
    } else if canonical == "figma.get_selection"@ {
        spec_contract_get_selection()
    } else if canonical == "figma.get_node"@ {
        spec_contract_get_node()
    } else if canonical == "figma.create_frame"@ {
        spec_contract_create_frame()
    } else if canonical == "figma.create_text"@ {
        spec_contract_create_text()
    } else if canonical == "figma.set_fill"@ {
        spec_contract_set_fill()
    } else if canonical == "figma.move_node"@ {
        spec_contract_move_node()
    } else if canonical == "figma.delete_node"@ {
        spec_contract_delete_node()
    } else {
        Json::Null
    }
}

/// The member names used by the contracts differ.
pub proof fn lemma_contract_keys_distinct()
    ensures
        "name"@ != "provider"@,
        "name"@ != "schema_version"@,
        "name"@ != "description"@,
        "name"@ != "input_schema"@,
        "name"@ != "type"@,
        "name"@ != "properties"@,
        "name"@ != "additionalProperties"@,
        "name"@ != "output_schema"@,
        "name"@ != "capabilities"@,
        "name"@ != "side_effects"@,
        "name"@ != "determinism"@,
        "name"@ != "cost"@,
        "name"@ != "verification"@,
        "name"@ != "safety"@,
        "name"@ != "destructive"@,
        "name"@ != "requires_confirmation"@,
        "name"@ != "supports_dry_run"@,
        "name"@ != "required"@,
        "name"@ != "policy_tags"@,
        "provider"@ != "schema_version"@,
        "provider"@ != "description"@,
        "provider"@ != "input_schema"@,
        "provider"@ != "type"@,
        "provider"@ != "properties"@,
        "provider"@ != "additionalProperties"@,
        "provider"@ != "output_schema"@,
        "provider"@ != "capabilities"@,
        "provider"@ != "side_effects"@,
        "provider"@ != "determinism"@,
        "provider"@ != "cost"@,
        "provider"@ != "verification"@,
        "provider"@ != "safety"@,
        "provider"@ != "destructive"@,
        "provider"@ != "requires_confirmation"@,
        "provider"@ != "supports_dry_run"@,
        "provider"@ != "required"@,
        "provider"@ != "policy_tags"@,
        "schema_version"@ != "description"@,
        "schema_version"@ != "input_schema"@,
        "schema_version"@ != "type"@,
        "schema_version"@ != "properties"@,
        "schema_version"@ != "additionalProperties"@,
        "schema_version"@ != "output_schema"@,
        "schema_version"@ != "capabilities"@,
        "schema_version"@ != "side_effects"@,
        "schema_version"@ != "determinism"@,
        "schema_version"@ != "cost"@,
        "schema_version"@ != "verification"@,
        "schema_version"@ != "safety"@,
        "schema_version"@ != "destructive"@,
        "schema_version"@ != "requires_confirmation"@,
        "schema_version"@ != "supports_dry_run"@,
        "schema_version"@ != "required"@,
        "schema_version"@ != "policy_tags"@,
        "description"@ != "input_schema"@,
        "description"@ != "type"@,
        "description"@ != "properties"@,
        "description"@ != "additionalProperties"@,
        "description"@ != "output_schema"@,
        "description"@ != "capabilities"@,
        "description"@ != "side_effects"@,
        "description"@ != "determinism"@,
        "description"@ != "cost"@,
        "description"@ != "verification"@,
        "description"@ != "safety"@,
        "description"@ != "destructive"@,
        "description"@ != "requires_confirmation"@,
        "description"@ != "supports_dry_run"@,
        "description"@ != "required"@,
        "description"@ != "policy_tags"@,
        "input_schema"@ != "type"@,
        "input_schema"@ != "properties"@,
        "input_schema"@ != "additionalProperties"@,
        "input_schema"@ != "output_schema"@,
        "input_schema"@ != "capabilities"@,
        "input_schema"@ != "side_effects"@,
        "input_schema"@ != "determinism"@,
        "input_schema"@ != "cost"@,
        "input_schema"@ != "verification"@,
        "input_schema"@ != "safety"@,
        "input_schema"@ != "destructive"@,
        "input_schema"@ != "requires_confirmation"@,
        "input_schema"@ != "supports_dry_run"@,
        "input_schema"@ != "required"@,
        "input_schema"@ != "policy_tags"@,
        "type"@ != "properties"@,
        "type"@ != "additionalProperties"@,
        "type"@ != "output_schema"@,
        "type"@ != "capabilities"@,
        "type"@ != "side_effects"@,
        "type"@ != "determinism"@,
        "type"@ != "cost"@,
        "type"@ != "verification"@,
        "type"@ != "safety"@,
        "type"@ != "destructive"@,
        "type"@ != "requires_confirmation"@,
        "type"@ != "supports_dry_run"@,
        "type"@ != "required"@,
        "type"@ != "policy_tags"@,
        "properties"@ != "additionalProperties"@,
        "properties"@ != "output_schema"@,
        "properties"@ != "capabilities"@,
        "properties"@ != "side_effects"@,
        "properties"@ != "determinism"@,
        "properties"@ != "cost"@,
        "properties"@ != "verification"@,
        "properties"@ != "safety"@,
        "properties"@ != "destructive"@,
        "properties"@ != "requires_confirmation"@,
        "properties"@ != "supports_dry_run"@,
        "properties"@ != "required"@,
        "properties"@ != "policy_tags"@,
        "additionalProperties"@ != "output_schema"@,
        "additionalProperties"@ != "capabilities"@,
        "additionalProperties"@ != "side_effects"@,
        "additionalProperties"@ != "determinism"@,
        "additionalProperties"@ != "cost"@,
        "additionalProperties"@ != "verification"@,
        "additionalProperties"@ != "safety"@,
        "additionalProperties"@ != "destructive"@,
        "additionalProperties"@ != "requires_confirmation"@,
        "additionalProperties"@ != "supports_dry_run"@,
        "additionalProperties"@ != "required"@,
        "additionalProperties"@ != "policy_tags"@,
        "output_schema"@ != "capabilities"@,
        "output_schema"@ != "side_effects"@,
        "output_schema"@ != "determinism"@,
        "output_schema"@ != "cost"@,
        "output_schema"@ != "verification"@,
        "output_schema"@ != "safety"@,
        "output_schema"@ != "destructive"@,
        "output_schema"@ != "requires_confirmation"@,
        "output_schema"@ != "supports_dry_run"@,
        "output_schema"@ != "required"@,
        "output_schema"@ != "policy_tags"@,
        "capabilities"@ != "side_effects"@,
        "capabilities"@ != "determinism"@,
        "capabilities"@ != "cost"@,
        "capabilities"@ != "verification"@,
        "capabilities"@ != "safety"@,
        "capabilities"@ != "destructive"@,
        "capabilities"@ != "requires_confirmation"@,
        "capabilities"@ != "supports_dry_run"@,
        "capabilities"@ != "required"@,
        "capabilities"@ != "policy_tags"@,
        "side_effects"@ != "determinism"@,
        "side_effects"@ != "cost"@,
        "side_effects"@ != "verification"@,
        "side_effects"@ != "safety"@,
        "side_effects"@ != "destructive"@,
        "side_effects"@ != "requires_confirmation"@,
        "side_effects"@ != "supports_dry_run"@,
        "side_effects"@ != "required"@,
        "side_effects"@ != "policy_tags"@,
        "determinism"@ != "cost"@,
        "determinism"@ != "verification"@,
        "determinism"@ != "safety"@,
        "determinism"@ != "destructive"@,
        "determinism"@ != "requires_confirmation"@,
        "determinism"@ != "supports_dry_run"@,
        "determinism"@ != "required"@,
        "determinism"@ != "policy_tags"@,
        "cost"@ != "verification"@,
        "cost"@ != "safety"@,
        "cost"@ != "destructive"@,
        "cost"@ != "requires_confirmation"@,
        "cost"@ != "supports_dry_run"@,
        "cost"@ != "required"@,
        "cost"@ != "policy_tags"@,
        "verification"@ != "safety"@,
        "verification"@ != "destructive"@,
        "verification"@ != "requires_confirmation"@,
        "verification"@ != "supports_dry_run"@,
        "verification"@ != "required"@,
        "verification"@ != "policy_tags"@,
        "safety"@ != "destructive"@,
        "safety"@ != "requires_confirmation"@,
        "safety"@ != "supports_dry_run"@,
        "safety"@ != "required"@,
        "safety"@ != "policy_tags"@,
        "destructive"@ != "requires_confirmation"@,
        "destructive"@ != "supports_dry_run"@,
        "destructive"@ != "required"@,
        "destructive"@ != "policy_tags"@,
        "requires_confirmation"@ != "supports_dry_run"@,
        "requires_confirmation"@ != "required"@,
        "requires_confirmation"@ != "policy_tags"@,
        "supports_dry_run"@ != "required"@,
        "supports_dry_run"@ != "policy_tags"@,
        "required"@ != "policy_tags"@,
{
    reveal_strlit("name");
    assert("name"@.len() == 4);
    reveal_strlit("provider");
    assert("provider"@.len() == 8);
    reveal_strlit("schema_version");
    assert("schema_version"@.len() == 14);
    reveal_strlit("description");
    assert("description"@.len() == 11);
    reveal_strlit("input_schema");
    assert("input_schema"@.len() == 12);
    reveal_strlit("type");
    assert("type"@.len() == 4);
    reveal_strlit("properties");
    assert("properties"@.len() == 10);
    reveal_strlit("additionalProperties");
    assert("additionalProperties"@.len() == 20);
    reveal_strlit("output_schema");
    assert("output_schema"@.len() == 13);
    reveal_strlit("capabilities");
    assert("capabilities"@.len() == 12);
    reveal_strlit("side_effects");
    assert("side_effects"@.len() == 12);
    reveal_strlit("determinism");
    assert("determinism"@.len() == 11);
    reveal_strlit("cost");
    assert("cost"@.len() == 4);
    reveal_strlit("verification");
    assert("verification"@.len() == 12);
    reveal_strlit("safety");
    assert("safety"@.len() == 6);
    reveal_strlit("destructive");
    assert("destructive"@.len() == 11);
    reveal_strlit("requires_confirmation");
    assert("requires_confirmation"@.len() == 21);
    reveal_strlit("supports_dry_run");
    assert("supports_dry_run"@.len() == 16);
    reveal_strlit("required");
    assert("required"@.len() == 8);
    reveal_strlit("policy_tags");
    assert("policy_tags"@.len() == 11);
    assert("name"@[0] != "type"@[0]);
    assert("name"@[0] != "cost"@[0]);
    assert("provider"@[0] != "required"@[0]);
    assert("description"@[2] != "determinism"@[2]);
    assert("description"@[3] != "destructive"@[3]);
    assert("description"@[0] != "policy_tags"@[0]);
    assert("input_schema"@[0] != "capabilities"@[0]);
    assert("input_schema"@[0] != "side_effects"@[0]);
    assert("input_schema"@[0] != "verification"@[0]);
    assert("type"@[0] != "cost"@[0]);
    assert("capabilities"@[0] != "side_effects"@[0]);
    assert("capabilities"@[0] != "verification"@[0]);
    assert("side_effects"@[0] != "verification"@[0]);
    assert("determinism"@[2] != "destructive"@[2]);
    assert("determinism"@[0] != "policy_tags"@[0]);
    assert("destructive"@[0] != "policy_tags"@[0]);
}

/// A safety flag of a contract.
pub open spec fn safety_flag(contract: Json, flag: Seq<char>) -> Option<bool> {
    match contract.get("safety"@) {
        Some(s) => s.bool_at(flag),
        None => None,
    }
}

/// Each canonical tool's contract names the tool, admits no input member
/// that its schema does not list, and is marked destructive, confirmation
/// bound and dry-runnable exactly for `figma.delete_node`.
pub proof fn law_contracts_are_guarded(i: int)
    requires
        0 <= i < spec_canonical_tool_names().len(),
    ensures
        ({
            let name = spec_canonical_tool_names()[i];
            let c = spec_tool_contract(name);
            &&& c.str_at("name"@) == Some(name)
            &&& !additional_allowed(c.get_or_null("input_schema"@))
            &&& safety_flag(c, "destructive"@) == Some(name == "figma.delete_node"@)
            &&& safety_flag(c, "requires_confirmation"@) == Some(name == "figma.delete_node"@)
            &&& safety_flag(c, "supports_dry_run"@) == Some(name == "figma.delete_node"@)
        }),
{
    lemma_contract_keys_distinct();
    lemma_tool_names_distinct();
    if i == 0 {
        let c = spec_contract_get_document();
        assert(spec_canonical_tool_names()[i] == "figma.get_document"@);
        assert(spec_tool_contract("figma.get_document"@) == c);
        let m = c->Object_0;
        lemma_member_at(m, "name"@, 0);
        lemma_member_at(m, "input_schema"@, 4);
        lemma_member_at(m, "safety"@, 11);
        let s = m[4].1->Object_0;
        lemma_member_at(s, "additionalProperties"@, 2);
        let f = m[11].1->Object_0;
        lemma_member_at(f, "destructive"@, 0);
        lemma_member_at(f, "requires_confirmation"@, 1);
        lemma_member_at(f, "supports_dry_run"@, 2);
    } else if i == 1 {
        let c = spec_contract_get_page();
        assert(spec_canonical_tool_names()[i] == "figma.get_page"@);
        assert(spec_tool_contract("figma.get_page"@) == c);
        let m = c->Object_0;
        lemma_member_at(m, "name"@, 0);
        lemma_member_at(m, "input_schema"@, 4);
        lemma_member_at(m, "safety"@, 11);
        let s = m[4].1->Object_0;
        lemma_member_at(s, "additionalProperties"@, 2);
        let f = m[11].1->Object_0;
        lemma_member_at(f, "destructive"@, 0);
        lemma_member_at(f, "requires_confirmation"@, 1);
        lemma_member_at(f, "supports_dry_run"@, 2);
    } else if i == 2 {
        let c = spec_contract_get_selection();
        assert(spec_canonical_tool_names()[i] == "figma.get_selection"@);
        assert(spec_tool_contract("figma.get_selection"@) == c);
        let m = c->Object_0;
        lemma_member_at(m, "name"@, 0);
        lemma_member_at(m, "input_schema"@, 4);
        lemma_member_at(m, "safety"@, 11);
        let s = m[4].1->Object_0;
        lemma_member_at(s, "additionalProperties"@, 2);
        let f = m[11].1->Object_0;
        lemma_member_at(f, "destructive"@, 0);
        lemma_member_at(f, "requires_confirmation"@, 1);
        lemma_member_at(f, "supports_dry_run"@, 2);
    } else if i == 3 {
        let c = spec_contract_get_node();
        assert(spec_canonical_tool_names()[i] == "figma.get_node"@);
        assert(spec_tool_contract("figma.get_node"@) == c);
        let m = c->Object_0;
        lemma_member_at(m, "name"@, 0);
        lemma_member_at(m, "input_schema"@, 4);
        lemma_member_at(m, "safety"@, 11);
        let s = m[4].1->Object_0;
        lemma_member_at(s, "additionalProperties"@, 3);
        let f = m[11].1->Object_0;
        lemma_member_at(f, "destructive"@, 0);
        lemma_member_at(f, "requires_confirmation"@, 1);
        lemma_member_at(f, "supports_dry_run"@, 2);
    } else if i == 4 {
        let c = spec_contract_create_frame();
        assert(spec_canonical_tool_names()[i] == "figma.create_frame"@);
        assert(spec_tool_contract("figma.create_frame"@) == c);
        let m = c->Object_0;
        lemma_member_at(m, "name"@, 0);
        lemma_member_at(m, "input_schema"@, 4);
        lemma_member_at(m, "safety"@, 11);
        let s = m[4].1->Object_0;
        lemma_member_at(s, "additionalProperties"@, 3);
        let f = m[11].1->Object_0;
        lemma_member_at(f, "destructive"@, 0);
        lemma_member_at(f, "requires_confirmation"@, 1);
        lemma_member_at(f, "supports_dry_run"@, 2);
    } else if i == 5 {
        let c = spec_contract_create_text();
        assert(spec_canonical_tool_names()[i] == "figma.create_text"@);
        assert(spec_tool_contract("figma.create_text"@) == c);
        let m = c->Object_0;
        lemma_member_at(m, "name"@, 0);
        lemma_member_at(m, "input_schema"@, 4);
        lemma_member_at(m, "safety"@, 11);
        let s = m[4].1->Object_0;
        lemma_member_at(s, "additionalProperties"@, 3);
        let f = m[11].1->Object_0;
        lemma_member_at(f, "destructive"@, 0);
        lemma_member_at(f, "requires_confirmation"@, 1);
        lemma_member_at(f, "supports_dry_run"@, 2);
    } else if i == 6 {
        let c = spec_contract_set_fill();
        assert(spec_canonical_tool_names()[i] == "figma.set_fill"@);
        assert(spec_tool_contract("figma.set_fill"@) == c);
        let m = c->Object_0;
        lemma_member_at(m, "name"@, 0);
        lemma_member_at(m, "input_schema"@, 4);
        lemma_member_at(m, "safety"@, 11);
        let s = m[4].1->Object_0;
        lemma_member_at(s, "additionalProperties"@, 3);
        let f = m[11].1->Object_0;
        lemma_member_at(f, "destructive"@, 0);
        lemma_member_at(f, "requires_confirmation"@, 1);
        lemma_member_at(f, "supports_dry_run"@, 2);
    } else if i == 7 {
        let c = spec_contract_move_node();
        assert(spec_canonical_tool_names()[i] == "figma.move_node"@);
        assert(spec_tool_contract("figma.move_node"@) == c);
        let m = c->Object_0;
        lemma_member_at(m, "name"@, 0);
        lemma_member_at(m, "input_schema"@, 4);
        lemma_member_at(m, "safety"@, 11);
        let s = m[4].1->Object_0;
        lemma_member_at(s, "additionalProperties"@, 3);
        let f = m[11].1->Object_0;
        lemma_member_at(f, "destructive"@, 0);
        lemma_member_at(f, "requires_confirmation"@, 1);
        lemma_member_at(f, "supports_dry_run"@, 2);
    } else if i == 8 {
        let c = spec_contract_delete_node();
        assert(spec_canonical_tool_names()[i] == "figma.delete_node"@);
        assert(spec_tool_contract("figma.delete_node"@) == c);
        let m = c->Object_0;
        lemma_member_at(m, "name"@, 0);
        lemma_member_at(m, "input_schema"@, 4);
        lemma_member_at(m, "safety"@, 11);
        let s = m[4].1->Object_0;
        lemma_member_at(s, "additionalProperties"@, 3);
        let f = m[11].1->Object_0;
        lemma_member_at(f, "destructive"@, 0);
        lemma_member_at(f, "requires_confirmation"@, 1);
        lemma_member_at(f, "supports_dry_run"@, 2);
    }
}

/// The input property names used by the contracts differ.
proof fn lemma_property_names_distinct()
    ensures
        "session_id"@ != "page_id"@,
        "session_id"@ != "node_id"@,
        "session_id"@ != "parent_id"@,
        "session_id"@ != "name"@,
        "session_id"@ != "x"@,
        "session_id"@ != "y"@,
        "session_id"@ != "width"@,
        "session_id"@ != "height"@,
        "session_id"@ != "text"@,
        "session_id"@ != "color"@,
        "session_id"@ != "confirm"@,
        "session_id"@ != "dry_run"@,
        "page_id"@ != "node_id"@,
        "page_id"@ != "parent_id"@,
        "page_id"@ != "name"@,
        "page_id"@ != "x"@,
        "page_id"@ != "y"@,
        "page_id"@ != "width"@,
        "page_id"@ != "height"@,
        "page_id"@ != "text"@,
        "page_id"@ != "color"@,
        "page_id"@ != "confirm"@,
        "page_id"@ != "dry_run"@,
        "node_id"@ != "parent_id"@,
        "node_id"@ != "name"@,
        "node_id"@ != "x"@,
        "node_id"@ != "y"@,
        "node_id"@ != "width"@,
        "node_id"@ != "height"@,
        "node_id"@ != "text"@,
        "node_id"@ != "color"@,
        "node_id"@ != "confirm"@,
        "node_id"@ != "dry_run"@,
        "parent_id"@ != "name"@,
        "parent_id"@ != "x"@,
        "parent_id"@ != "y"@,
        "parent_id"@ != "width"@,
        "parent_id"@ != "height"@,
        "parent_id"@ != "text"@,
        "parent_id"@ != "color"@,
        "parent_id"@ != "confirm"@,
        "parent_id"@ != "dry_run"@,
        "name"@ != "x"@,
        "name"@ != "y"@,
        "name"@ != "width"@,
        "name"@ != "height"@,
        "name"@ != "text"@,
        "name"@ != "color"@,
        "name"@ != "confirm"@,
        "name"@ != "dry_run"@,
        "x"@ != "y"@,
        "x"@ != "width"@,
        "x"@ != "height"@,
        "x"@ != "text"@,
        "x"@ != "color"@,
        "x"@ != "confirm"@,
        "x"@ != "dry_run"@,
        "y"@ != "width"@,
        "y"@ != "height"@,
        "y"@ != "text"@,
        "y"@ != "color"@,
        "y"@ != "confirm"@,
        "y"@ != "dry_run"@,
        "width"@ != "height"@,
        "width"@ != "text"@,
        "width"@ != "color"@,
        "width"@ != "confirm"@,
        "width"@ != "dry_run"@,
        "height"@ != "text"@,
        "height"@ != "color"@,
        "height"@ != "confirm"@,
        "height"@ != "dry_run"@,
        "text"@ != "color"@,
        "text"@ != "confirm"@,
        "text"@ != "dry_run"@,
        "color"@ != "confirm"@,
        "color"@ != "dry_run"@,
        "confirm"@ != "dry_run"@,
{
    reveal_strlit("session_id");
    assert("session_id"@.len() == 10);
    reveal_strlit("page_id");
    assert("page_id"@.len() == 7);
    reveal_strlit("node_id");
    assert("node_id"@.len() == 7);
    reveal_strlit("parent_id");
    assert("parent_id"@.len() == 9);
    reveal_strlit("name");
    assert("name"@.len() == 4);
    reveal_strlit("x");
    assert("x"@.len() == 1);
    reveal_strlit("y");
    assert("y"@.len() == 1);
    reveal_strlit("width");
    assert("width"@.len() == 5);
    reveal_strlit("height");
    assert("height"@.len() == 6);
    reveal_strlit("text");
    assert("text"@.len() == 4);
    reveal_strlit("color");
    assert("color"@.len() == 5);
    reveal_strlit("confirm");
    assert("confirm"@.len() == 7);
    reveal_strlit("dry_run");
    assert("dry_run"@.len() == 7);
    assert("page_id"@[0] != "node_id"@[0]);
    assert("page_id"@[0] != "confirm"@[0]);
    assert("page_id"@[0] != "dry_run"@[0]);
    assert("node_id"@[0] != "confirm"@[0]);
    assert("node_id"@[0] != "dry_run"@[0]);
    assert("name"@[0] != "text"@[0]);
    assert("x"@[0] != "y"@[0]);
    assert("width"@[0] != "color"@[0]);
    assert("confirm"@[0] != "dry_run"@[0]);
}

/// The members of every contract, in order.
pub open spec fn contract_keys() -> Seq<Seq<char>> {
    seq!["name"@, "provider"@, "schema_version"@, "description"@, "input_schema"@, "output_schema"@, "capabilities"@, "side_effects"@, "determinism"@, "cost"@, "verification"@, "safety"@]
}

/// The keys of an object's members, in order.
pub open spec fn member_keys(members: Seq<(Seq<char>, Json)>) -> Seq<Seq<char>> {
    members.map_values(|m: (Seq<char>, Json)| m.0)
}

/// Every name that an input schema requires is one of its properties.
pub open spec fn required_in_properties(schema: Json) -> bool {
    match schema.get("required"@) {
        None => true,
        Some(Json::Array(req)) => forall|j: int| 0 <= j < req.len() ==> match #[trigger] req[j] {
            Json::Str(s) => schema.get("properties"@) matches Some(p) && p.get(s) is Some,
            _ => false,
        },
        Some(_) => false,
    }
}

/// A tool that only reads: its name starts with `figma.get_`.
pub open spec fn is_read_tool(name: Seq<char>) -> bool {
    name.len() >= 10 && name.subrange(0, 10) == "figma.get_"@
}

/// Each canonical tool's contract holds exactly the members `contract_keys`,
/// in that order; it names the tool, the provider `figma` and schema
/// version `1`, is marked verified, admits no input member outside its
/// schema, and requires only inputs that its schema lists as properties.
pub proof fn law_contracts_are_complete(i: int)
    requires
        0 <= i < spec_canonical_tool_names().len(),
    ensures
        ({
            let name = spec_canonical_tool_names()[i];
            let c = spec_tool_contract(name);
            let input = c.get_or_null("input_schema"@);
            &&& c is Object
            &&& member_keys(c->Object_0) == contract_keys()
            &&& c.str_at("name"@) == Some(name)
            &&& c.str_at("provider"@) == Some("figma"@)
            &&& c.str_at("schema_version"@) == Some("1"@)
            &&& c.get_or_null("verification"@).str_at("status"@) == Some("verified"@)
            &&& input.get("additionalProperties"@) == Some(Json::Bool(false))
            &&& required_in_properties(input)
        }),
{
    lemma_contract_keys_distinct();
    lemma_property_names_distinct();
    lemma_tool_names_distinct();
    if i == 0 {
        let c = spec_contract_get_document();
        assert(spec_canonical_tool_names()[i] == "figma.get_document"@);
        assert(spec_tool_contract("figma.get_document"@) == c);
        let m = c->Object_0;
        assert(member_keys(m) =~= contract_keys());
        lemma_member_at(m, "name"@, 0);
        lemma_member_at(m, "provider"@, 1);
        lemma_member_at(m, "schema_version"@, 2);
        lemma_member_at(m, "input_schema"@, 4);
        lemma_member_at(m, "verification"@, 10);
        let v = m[10].1->Object_0;
        lemma_member_at(v, "status"@, 0);
        let s = m[4].1->Object_0;
        lemma_member_at(s, "additionalProperties"@, 2);
        lemma_member_at(s, "properties"@, 1);
        assert(s[0].0 == "type"@);
        assert(s[1].0 == "properties"@);
        assert(s[2].0 == "additionalProperties"@);
        assert(!exists|k: int| #[trigger] first_key_at(s, "required"@, k));
    } else if i == 1 {
        let c = spec_contract_get_page();
        assert(spec_canonical_tool_names()[i] == "figma.get_page"@);
        assert(spec_tool_contract("figma.get_page"@) == c);
        let m = c->Object_0;
        assert(member_keys(m) =~= contract_keys());
        lemma_member_at(m, "name"@, 0);
        lemma_member_at(m, "provider"@, 1);
        lemma_member_at(m, "schema_version"@, 2);
        lemma_member_at(m, "input_schema"@, 4);
        lemma_member_at(m, "verification"@, 10);
        let v = m[10].1->Object_0;
        lemma_member_at(v, "status"@, 0);
        let s = m[4].1->Object_0;
        lemma_member_at(s, "additionalProperties"@, 2);
        lemma_member_at(s, "properties"@, 1);
        assert(s[0].0 == "type"@);
        assert(s[1].0 == "properties"@);
        assert(s[2].0 == "additionalProperties"@);
        assert(!exists|k: int| #[trigger] first_key_at(s, "required"@, k));
    } else if i == 2 {
        let c = spec_contract_get_selection();
        assert(spec_canonical_tool_names()[i] == "figma.get_selection"@);
        assert(spec_tool_contract("figma.get_selection"@) == c);
        let m = c->Object_0;
        assert(member_keys(m) =~= contract_keys());
        lemma_member_at(m, "name"@, 0);
        lemma_member_at(m, "provider"@, 1);
        lemma_member_at(m, "schema_version"@, 2);
        lemma_member_at(m, "input_schema"@, 4);
        lemma_member_at(m, "verification"@, 10);
        let v = m[10].1->Object_0;
        lemma_member_at(v, "status"@, 0);
        let s = m[4].1->Object_0;
        lemma_member_at(s, "additionalProperties"@, 2);
        lemma_member_at(s, "properties"@, 1);
        assert(s[0].0 == "type"@);
        assert(s[1].0 == "properties"@);
        assert(s[2].0 == "additionalProperties"@);
        assert(!exists|k: int| #[trigger] first_key_at(s, "required"@, k));
    } else if i == 3 {
        let c = spec_contract_get_node();
        assert(spec_canonical_tool_names()[i] == "figma.get_node"@);
        assert(spec_tool_contract("figma.get_node"@) == c);
        let m = c->Object_0;
        assert(member_keys(m) =~= contract_keys());
        lemma_member_at(m, "name"@, 0);
        lemma_member_at(m, "provider"@, 1);
        lemma_member_at(m, "schema_version"@, 2);
        lemma_member_at(m, "input_schema"@, 4);
        lemma_member_at(m, "verification"@, 10);
        let v = m[10].1->Object_0;
        lemma_member_at(v, "status"@, 0);
        let s = m[4].1->Object_0;
        lemma_member_at(s, "additionalProperties"@, 3);
        lemma_member_at(s, "properties"@, 2);
        lemma_member_at(s, "required"@, 1);
        let req = s[1].1->Array_0;
        let p = s[2].1->Object_0;
        assert forall|j: int| 0 <= j < req.len() implies match #[trigger] req[j] {
            Json::Str(n) => s[2].1.get(n) is Some,
            _ => false,
        } by {
            if j == 0 {
                assert(req[j] == Json::Str("node_id"@));
                lemma_member_at(p, "node_id"@, 1);
            }
        }
    } else if i == 4 {
        let c = spec_contract_create_frame();
        assert(spec_canonical_tool_names()[i] == "figma.create_frame"@);
        assert(spec_tool_contract("figma.create_frame"@) == c);
        let m = c->Object_0;
        assert(member_keys(m) =~= contract_keys());
        lemma_member_at(m, "name"@, 0);
        lemma_member_at(m, "provider"@, 1);
        lemma_member_at(m, "schema_version"@, 2);
        lemma_member_at(m, "input_schema"@, 4);
        lemma_member_at(m, "verification"@, 10);
        let v = m[10].1->Object_0;
        lemma_member_at(v, "status"@, 0);
        let s = m[4].1->Object_0;
        lemma_member_at(s, "additionalProperties"@, 3);
        lemma_member_at(s, "properties"@, 2);
        lemma_member_at(s, "required"@, 1);
        let req = s[1].1->Array_0;
        let p = s[2].1->Object_0;
        assert forall|j: int| 0 <= j < req.len() implies match #[trigger] req[j] {
            Json::Str(n) => s[2].1.get(n) is Some,
            _ => false,
        } by {
            if j == 0 {
                assert(req[j] == Json::Str("name"@));
                lemma_member_at(p, "name"@, 2);
            } else if j == 1 {
                assert(req[j] == Json::Str("x"@));
                lemma_member_at(p, "x"@, 3);
            } else if j == 2 {
                assert(req[j] == Json::Str("y"@));
                lemma_member_at(p, "y"@, 4);
            } else if j == 3 {
                assert(req[j] == Json::Str("width"@));
                lemma_member_at(p, "width"@, 5);
            } else if j == 4 {
                assert(req[j] == Json::Str("height"@));
                lemma_member_at(p, "height"@, 6);
            }
        }
    } else if i == 5 {
        let c = spec_contract_create_text();
        assert(spec_canonical_tool_names()[i] == "figma.create_text"@);
        assert(spec_tool_contract("figma.create_text"@) == c);
        let m = c->Object_0;
        assert(member_keys(m) =~= contract_keys());
        lemma_member_at(m, "name"@, 0);
        lemma_member_at(m, "provider"@, 1);
        lemma_member_at(m, "schema_version"@, 2);
        lemma_member_at(m, "input_schema"@, 4);
        lemma_member_at(m, "verification"@, 10);
        let v = m[10].1->Object_0;
        lemma_member_at(v, "status"@, 0);
        let s = m[4].1->Object_0;
        lemma_member_at(s, "additionalProperties"@, 3);
        lemma_member_at(s, "properties"@, 2);
        lemma_member_at(s, "required"@, 1);
        let req = s[1].1->Array_0;
        let p = s[2].1->Object_0;
        assert forall|j: int| 0 <= j < req.len() implies match #[trigger] req[j] {
            Json::Str(n) => s[2].1.get(n) is Some,
            _ => false,
        } by {
            if j == 0 {
                assert(req[j] == Json::Str("text"@));
                lemma_member_at(p, "text"@, 2);
            } else if j == 1 {
                assert(req[j] == Json::Str("x"@));
                lemma_member_at(p, "x"@, 4);
            } else if j == 2 {
                assert(req[j] == Json::Str("y"@));
                lemma_member_at(p, "y"@, 5);
            }
        }
    } else if i == 6 {
        let c = spec_contract_set_fill();
        assert(spec_canonical_tool_names()[i] == "figma.set_fill"@);
        assert(spec_tool_contract("figma.set_fill"@) == c);
        let m = c->Object_0;
        assert(member_keys(m) =~= contract_keys());
        lemma_member_at(m, "name"@, 0);
        lemma_member_at(m, "provider"@, 1);
        lemma_member_at(m, "schema_version"@, 2);
        lemma_member_at(m, "input_schema"@, 4);
        lemma_member_at(m, "verification"@, 10);
        let v = m[10].1->Object_0;
        lemma_member_at(v, "status"@, 0);
        let s = m[4].1->Object_0;
        lemma_member_at(s, "additionalProperties"@, 3);
        lemma_member_at(s, "properties"@, 2);
        lemma_member_at(s, "required"@, 1);
        let req = s[1].1->Array_0;
        let p = s[2].1->Object_0;
        assert forall|j: int| 0 <= j < req.len() implies match #[trigger] req[j] {
            Json::Str(n) => s[2].1.get(n) is Some,
            _ => false,
        } by {
            if j == 0 {
                assert(req[j] == Json::Str("node_id"@));
                lemma_member_at(p, "node_id"@, 1);
            } else if j == 1 {
                assert(req[j] == Json::Str("color"@));
                lemma_member_at(p, "color"@, 2);
            }
        }
    } else if i == 7 {
        let c = spec_contract_move_node();
        assert(spec_canonical_tool_names()[i] == "figma.move_node"@);
        assert(spec_tool_contract("figma.move_node"@) == c);
        let m = c->Object_0;
        assert(member_keys(m) =~= contract_keys());
        lemma_member_at(m, "name"@, 0);
        lemma_member_at(m, "provider"@, 1);
        lemma_member_at(m, "schema_version"@, 2);
        lemma_member_at(m, "input_schema"@, 4);
        lemma_member_at(m, "verification"@, 10);
        let v = m[10].1->Object_0;
        lemma_member_at(v, "status"@, 0);
        let s = m[4].1->Object_0;
        lemma_member_at(s, "additionalProperties"@, 3);
        lemma_member_at(s, "properties"@, 2);
        lemma_member_at(s, "required"@, 1);
        let req = s[1].1->Array_0;
        let p = s[2].1->Object_0;
        assert forall|j: int| 0 <= j < req.len() implies match #[trigger] req[j] {
            Json::Str(n) => s[2].1.get(n) is Some,
            _ => false,
        } by {
            if j == 0 {
                assert(req[j] == Json::Str("node_id"@));
                lemma_member_at(p, "node_id"@, 1);
            } else if j == 1 {
                assert(req[j] == Json::Str("x"@));
                lemma_member_at(p, "x"@, 2);
            } else if j == 2 {
                assert(req[j] == Json::Str("y"@));
                lemma_member_at(p, "y"@, 3);
            }
        }
    } else if i == 8 {
        let c = spec_contract_delete_node();
        assert(spec_canonical_tool_names()[i] == "figma.delete_node"@);
        assert(spec_tool_contract("figma.delete_node"@) == c);
        let m = c->Object_0;
        assert(member_keys(m) =~= contract_keys());
        lemma_member_at(m, "name"@, 0);
        lemma_member_at(m, "provider"@, 1);
        lemma_member_at(m, "schema_version"@, 2);
        lemma_member_at(m, "input_schema"@, 4);
        lemma_member_at(m, "verification"@, 10);
        let v = m[10].1->Object_0;
        lemma_member_at(v, "status"@, 0);
        let s = m[4].1->Object_0;
        lemma_member_at(s, "additionalProperties"@, 3);
        lemma_member_at(s, "properties"@, 2);
        lemma_member_at(s, "required"@, 1);
        let req = s[1].1->Array_0;
        let p = s[2].1->Object_0;
        assert forall|j: int| 0 <= j < req.len() implies match #[trigger] req[j] {
            Json::Str(n) => s[2].1.get(n) is Some,
            _ => false,
        } by {
            if j == 0 {
                assert(req[j] == Json::Str("node_id"@));
                lemma_member_at(p, "node_id"@, 1);
            } else if j == 1 {
                assert(req[j] == Json::Str("confirm"@));
                lemma_member_at(p, "confirm"@, 2);
            }
        }
    }
}

/// A tool named `figma.get_*` reads the application and has no side effects;
/// every other canonical tool mutates it and writes the Figma document.
pub proof fn law_capabilities_follow_tool_kind(i: int)
    requires
        0 <= i < spec_canonical_tool_names().len(),
    ensures
        ({
            let name = spec_canonical_tool_names()[i];
            let c = spec_tool_contract(name);
            if is_read_tool(name) {
                &&& c.get("capabilities"@) == Some(Json::Array(seq![Json::Str("read_external_application"@)]))
                &&& c.get("side_effects"@) == Some(Json::Array(Seq::empty()))
            } else {
                &&& c.get("capabilities"@) == Some(Json::Array(seq![Json::Str("mutates_external_application"@)]))
                &&& c.get("side_effects"@) matches Some(Json::Array(se)) && se.contains(Json::Str("writes_figma_document"@))
            }
        }),
{
    lemma_contract_keys_distinct();
    lemma_tool_names_distinct();
    if i == 0 {
        let c = spec_contract_get_document();
        assert(spec_canonical_tool_names()[i] == "figma.get_document"@);
        assert(spec_tool_contract("figma.get_document"@) == c);
        let m = c->Object_0;
        reveal_strlit("figma.get_document");
        reveal_strlit("figma.get_");
        lemma_member_at(m, "capabilities"@, 6);
        lemma_member_at(m, "side_effects"@, 7);
        assert("figma.get_document"@.subrange(0, 10) =~= "figma.get_"@);
    } else if i == 1 {
        let c = spec_contract_get_page();
        assert(spec_canonical_tool_names()[i] == "figma.get_page"@);
        assert(spec_tool_contract("figma.get_page"@) == c);
        let m = c->Object_0;
        reveal_strlit("figma.get_page");
        reveal_strlit("figma.get_");
        lemma_member_at(m, "capabilities"@, 6);
        lemma_member_at(m, "side_effects"@, 7);
        assert("figma.get_page"@.subrange(0, 10) =~= "figma.get_"@);
    } else if i == 2 {
        let c = spec_contract_get_selection();
        assert(spec_canonical_tool_names()[i] == "figma.get_selection"@);
        assert(spec_tool_contract("figma.get_selection"@) == c);
        let m = c->Object_0;
        reveal_strlit("figma.get_selection");
        reveal_strlit("figma.get_");
        lemma_member_at(m, "capabilities"@, 6);
        lemma_member_at(m, "side_effects"@, 7);
        assert("figma.get_selection"@.subrange(0, 10) =~= "figma.get_"@);
    } else if i == 3 {
        let c = spec_contract_get_node();
        assert(spec_canonical_tool_names()[i] == "figma.get_node"@);
        assert(spec_tool_contract("figma.get_node"@) == c);
        let m = c->Object_0;
        reveal_strlit("figma.get_node");
        reveal_strlit("figma.get_");
        lemma_member_at(m, "capabilities"@, 6);
        lemma_member_at(m, "side_effects"@, 7);
        assert("figma.get_node"@.subrange(0, 10) =~= "figma.get_"@);
    } else if i == 4 {
        let c = spec_contract_create_frame();
        assert(spec_canonical_tool_names()[i] == "figma.create_frame"@);
        assert(spec_tool_contract("figma.create_frame"@) == c);
        let m = c->Object_0;
        reveal_strlit("figma.create_frame");
        reveal_strlit("figma.get_");
        lemma_member_at(m, "capabilities"@, 6);
        lemma_member_at(m, "side_effects"@, 7);
        assert("figma.create_frame"@.subrange(0, 10)[6] != "figma.get_"@[6]);
        let se = m[7].1->Array_0;
        assert(se[0] == Json::Str("writes_figma_document"@));
    } else if i == 5 {
        let c = spec_contract_create_text();
        assert(spec_canonical_tool_names()[i] == "figma.create_text"@);
        assert(spec_tool_contract("figma.create_text"@) == c);
        let m = c->Object_0;
        reveal_strlit("figma.create_text");
        reveal_strlit("figma.get_");
        lemma_member_at(m, "capabilities"@, 6);
        lemma_member_at(m, "side_effects"@, 7);
        assert("figma.create_text"@.subrange(0, 10)[6] != "figma.get_"@[6]);
        let se = m[7].1->Array_0;
        assert(se[0] == Json::Str("writes_figma_document"@));
    } else if i == 6 {
        let c = spec_contract_set_fill();
        assert(spec_canonical_tool_names()[i] == "figma.set_fill"@);
        assert(spec_tool_contract("figma.set_fill"@) == c);
        let m = c->Object_0;
        reveal_strlit("figma.set_fill");
        reveal_strlit("figma.get_");
        lemma_member_at(m, "capabilities"@, 6);
        lemma_member_at(m, "side_effects"@, 7);
        assert("figma.set_fill"@.subrange(0, 10)[6] != "figma.get_"@[6]);
        let se = m[7].1->Array_0;
        assert(se[0] == Json::Str("writes_figma_document"@));
    } else if i == 7 {
        let c = spec_contract_move_node();
        assert(spec_canonical_tool_names()[i] == "figma.move_node"@);
        assert(spec_tool_contract("figma.move_node"@) == c);
        let m = c->Object_0;
        reveal_strlit("figma.move_node");
        reveal_strlit("figma.get_");
        lemma_member_at(m, "capabilities"@, 6);
        lemma_member_at(m, "side_effects"@, 7);
        assert("figma.move_node"@.subrange(0, 10)[6] != "figma.get_"@[6]);
        let se = m[7].1->Array_0;
        assert(se[0] == Json::Str("writes_figma_document"@));
    } else if i == 8 {
        let c = spec_contract_delete_node();
        assert(spec_canonical_tool_names()[i] == "figma.delete_node"@);
        assert(spec_tool_contract("figma.delete_node"@) == c);
        let m = c->Object_0;
        reveal_strlit("figma.delete_node");
        reveal_strlit("figma.get_");
        lemma_member_at(m, "capabilities"@, 6);
        lemma_member_at(m, "side_effects"@, 7);
        assert("figma.delete_node"@.subrange(0, 10)[6] != "figma.get_"@[6]);
        let se = m[7].1->Array_0;
        assert(se[0] == Json::Str("writes_figma_document"@));
    }
}

/// Builds the full contract of a canonical tool.
fn contract_for(canonical: &str) -> (r: JsonValue)
    ensures
        r.model() == spec_tool_contract(canonical@),
{
    if str_eq(canonical, "figma.get_document") {
        contract_get_document()
    } else if str_eq(canonical, "figma.get_page") {
        contract_get_page()
    } else if str_eq(canonical, "figma.get_selection") {
        contract_get_selection()
    } else if str_eq(canonical, "figma.get_node") {
        contract_get_node()
    } else if str_eq(canonical, "figma.create_frame") {
        contract_create_frame()
    } else if str_eq(canonical, "figma.create_text") {
        contract_create_text()
    } else if str_eq(canonical, "figma.set_fill") {
        contract_set_fill()
    } else if str_eq(canonical, "figma.move_node") {
        contract_move_node()
    } else if str_eq(canonical, "figma.delete_node") {
        contract_delete_node()
    } else {
        JsonValue::Null
    }
}

/// The machine-readable contract of a tool, looked up by its canonical or
/// legacy name.
pub fn get_canonical_tool_contract(tool: &str) -> (r: Option<JsonValue>)
    ensures
        r is Some <==> spec_resolve_tool(tool@) is Some,
        r matches Some(c) ==> c.model() == spec_tool_contract(spec_resolve_tool(tool@)->0),
{
    match resolve_external_tool_name(tool) {
        Some(canonical) => Some(contract_for(canonical)),
        None => None,
    }
}

} // verus!
