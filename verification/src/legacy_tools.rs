use vstd::prelude::*;
use vstd::string::*;

use crate::json::{
    lemma_member_at, members_model, new_members, no_members, object_of, push_member, Json, JsonValue,
};
use crate::schema::{check_args, spec_check_args, ArgProblem, ArgProblemModel};
use crate::text::{concat2, concat3, str_eq};

verus! {

/// A legacy tool's name, description and input schema.
#[derive(Debug)]
pub struct ToolDescription {
    pub name: String,
    pub description: String,
    pub input_schema: JsonValue,
}

/// The schema of one legacy tool property: `{"type": kind}`, and for an
/// array also `"items": {"type": "string"}`.
pub open spec fn legacy_prop_schema(kind: Seq<char>) -> Json {
    if kind == "array"@ {
        Json::Object(no_members().push(("type"@, Json::Str(kind))).push(("items"@,
            Json::Object(no_members().push(("type"@, Json::Str("string"@)))))))
    } else {
        Json::Object(no_members().push(("type"@, Json::Str(kind))))
    }
}

/// The property members built from `(name, kind)` pairs.
pub open spec fn legacy_props(props: Seq<(Seq<char>, Seq<char>)>) -> Seq<(Seq<char>, Json)>
    decreases props.len(),
{
    if props.len() == 0 {
        no_members()
    } else {
        legacy_props(props.drop_last()).push((props.last().0, legacy_prop_schema(props.last().1)))
    }
}

/// A legacy input schema: `{"type": "object", "properties": {...}}`.
pub open spec fn legacy_schema(props: Seq<(Seq<char>, Seq<char>)>) -> Json {
    Json::Object(no_members().push(("type"@, Json::Str("object"@))).push(("properties"@,
        Json::Object(legacy_props(props)))))
}

/// Builds the schema of one legacy tool property.
fn prop_schema(kind: &str) -> (r: JsonValue)
    ensures
        r.model() == legacy_prop_schema(kind@),
{
    let mut m = new_members();
    push_member(&mut m, "type", JsonValue::string(kind));
    if str_eq(kind, "array") {
        let mut items = new_members();
        push_member(&mut items, "type", JsonValue::string("string"));
        push_member(&mut m, "items", object_of(items));
    }
    object_of(m)
}

/// Builds a legacy tool description from its property list.
fn describe(name: &str, description: &str, props: Vec<(&'static str, &'static str)>) -> (r: ToolDescription)
    ensures
        r.name@ == name@,
        r.description@ == description@,
        r.input_schema.model() == legacy_schema(props@.map_values(|p: (&str, &str)| (p.0@, p.1@))),
{
    let ghost pm = props@.map_values(|p: (&str, &str)| (p.0@, p.1@));
    let mut m = new_members();
    let mut i: usize = 0;
    assert(pm.subrange(0, 0) =~= Seq::<(Seq<char>, Seq<char>)>::empty());
    while i < props.len()
        invariant
            i <= props@.len(),
            pm == props@.map_values(|p: (&str, &str)| (p.0@, p.1@)),
            members_model(m@) == legacy_props(pm.subrange(0, i as int)),
        decreases props@.len() - i,
    {
        let (pname, kind) = props[i];
        push_member(&mut m, pname, prop_schema(kind));
        assert(pm.subrange(0, i + 1).drop_last() =~= pm.subrange(0, i as int));
        i = i + 1;
    }
    assert(pm.subrange(0, i as int) =~= pm);
    let mut s = new_members();
    push_member(&mut s, "type", JsonValue::string("object"));
    push_member(&mut s, "properties", object_of(m));
    ToolDescription {
        name: String::from_str(name),
        description: String::from_str(description),
        input_schema: object_of(s),
    }
}

/// The legacy tool name at position `i` of the list.
pub open spec fn spec_tool_name_at(i: int) -> Seq<char> {
    if i == 0 {
        "join_channel"@
    } else if i == 1 {
        "get_document_info"@
    } else if i == 2 {
        "get_page_info"@
    } else if i == 3 {
        "get_selection"@
    } else if i == 4 {
        "set_selection"@
    } else if i == 5 {
        "get_node_info"@
    } else if i == 6 {
        "find_nodes_by_name"@
    } else if i == 7 {
        "create_frame"@
    } else if i == 8 {
        "create_rectangle"@
    } else if i == 9 {
        "create_ellipse"@
    } else if i == 10 {
        "create_text"@
    } else if i == 11 {
        "create_line"@
    } else if i == 12 {
        "delete_node"@
    } else if i == 13 {
        "set_node_name"@
    } else if i == 14 {
        "move_node"@
    } else if i == 15 {
        "resize_node"@
    } else if i == 16 {
        "set_fill"@
    } else if i == 17 {
        "set_stroke"@
    } else if i == 18 {
        "set_corner_radius"@
    } else if i == 19 {
        "set_effects"@
    } else if i == 20 {
        "set_auto_layout"@
    } else if i == 21 {
        "reorder_children"@
    } else if i == 22 {
        "create_component"@
    } else if i == 23 {
        "create_component_set"@
    } else if i == 24 {
        "create_instance"@
    } else if i == 25 {
        "detach_instance"@
    } else if i == 26 {
        "swap_component"@
    } else if i == 27 {
        "get_local_components"@
    } else if i == 28 {
        "reset_instance"@
    } else if i == 29 {
        "set_component_property"@
    } else if i == 30 {
        "set_constraints"@
    } else if i == 31 {
        "set_layout_grow"@
    } else if i == 32 {
        "export_node"@
    } else if i == 33 {
        "export_selection"@
    } else if i == 34 {
        "boolean_union"@
    } else if i == 35 {
        "boolean_subtract"@
    } else if i == 36 {
        "boolean_intersect"@
    } else if i == 37 {
        "boolean_exclude"@
    } else if i == 38 {
        "flatten_selection"@
    } else if i == 39 {
        "outline_stroke"@
    } else if i == 40 {
        "group_selection"@
    } else if i == 41 {
        "ungroup"@
    } else if i == 42 {
        "wrap_in_frame"@
    } else if i == 43 {
        "bring_to_front"@
    } else if i == 44 {
        "send_to_back"@
    } else if i == 45 {
        "bring_forward"@
    } else if i == 46 {
        "send_backward"@
    } else if i == 47 {
        "set_text_content"@
    } else if i == 48 {
        "set_font"@
    } else if i == 49 {
        "set_font_size"@
    } else if i == 50 {
        "set_font_weight"@
    } else if i == 51 {
        "set_line_height"@
    } else if i == 52 {
        "set_letter_spacing"@
    } else if i == 53 {
        "set_paragraph_spacing"@
    } else if i == 54 {
        "set_text_alignment"@
    } else if i == 55 {
        "set_text_decoration"@
    } else if i == 56 {
        "set_text_case"@
    } else if i == 57 {
        "set_text_auto_resize"@
    } else if i == 58 {
        "set_text_hyperlink"@
    } else if i == 59 {
        "get_font_list"@
    } else if i == 60 {
        "create_vector"@
    } else if i == 61 {
        "create_polygon"@
    } else if i == 62 {
        "create_star"@
    } else if i == 63 {
        "create_arrow"@
    } else if i == 64 {
        "create_section"@
    } else if i == 65 {
        "set_gradient_fill"@
    } else if i == 66 {
        "remove_fill"@
    } else if i == 67 {
        "remove_stroke"@
    } else if i == 68 {
        "remove_effects"@
    } else if i == 69 {
        "copy_paste_style"@
    } else if i == 70 {
        "create_prototype_link"@
    } else if i == 71 {
        "remove_prototype_link"@
    } else if i == 72 {
        "set_prototype_start"@
    } else if i == 73 {
        "get_prototype_flows"@
    } else if i == 74 {
        "set_scroll_behavior"@
    } else if i == 75 {
        "set_clip_content"@
    } else if i == 76 {
        "get_variables"@
    } else if i == 77 {
        "get_variable_collections"@
    } else if i == 78 {
        "create_variable"@
    } else if i == 79 {
        "set_variable_value"@
    } else if i == 80 {
        "apply_variable"@
    } else if i == 81 {
        "get_team_libraries"@
    } else if i == 82 {
        "enable_library"@
    } else if i == 83 {
        "disable_library"@
    } else if i == 84 {
        "import_component_from_library"@
    } else if i == 85 {
        "create_page"@
    } else if i == 86 {
        "delete_page"@
    } else if i == 87 {
        "rename_page"@
    } else if i == 88 {
        "duplicate_page"@
    } else if i == 89 {
        "set_current_page"@
    } else if i == 90 {
        "set_page_background"@
    } else if i == 91 {
        "create_comment"@
    } else if i == 92 {
        "get_comments"@
    } else if i == 93 {
        "resolve_comment"@
    } else if i == 94 {
        "delete_comment"@
    } else if i == 95 {
        "select_all"@
    } else if i == 96 {
        "select_by_type"@
    } else if i == 97 {
        "invert_selection"@
    } else if i == 98 {
        "get_parent_chain"@
    } else if i == 99 {
        "get_siblings"@
    } else if i == 100 {
        "is_node_visible"@
    } else if i == 101 {
        "duplicate_nodes"@
    } else if i == 102 {
        "delete_selection"@
    } else if i == 103 {
        "align_selection"@
    } else if i == 104 {
        "distribute_selection"@
    } else if i == 105 {
        "resize_to_fit"@
    } else {
        "scale_selection"@
    }
}

/// The legacy tool names, in order.
pub open spec fn spec_tool_names() -> Seq<Seq<char>> {
    Seq::new(107, |i: int| spec_tool_name_at(i))
}

/// The legacy tool name at position `i`.
#[verifier::rlimit(40)]
fn tool_name_at(i: usize) -> (r: &'static str)
    requires
        i < 107,
    ensures
        r@ == spec_tool_name_at(i as int),
{

    if i == 0 {
        "join_channel"
    } else if i == 1 {
        "get_document_info"
    } else if i == 2 {
        "get_page_info"
    } else if i == 3 {
        "get_selection"
    } else if i == 4 {
        "set_selection"
    } else if i == 5 {
        "get_node_info"
    } else if i == 6 {
        "find_nodes_by_name"
    } else if i == 7 {
        "create_frame"
    } else if i == 8 {
        "create_rectangle"
    } else if i == 9 {
        "create_ellipse"
    } else if i == 10 {
        "create_text"
    } else if i == 11 {
        "create_line"
    } else if i == 12 {
        "delete_node"
    } else if i == 13 {
        "set_node_name"
    } else if i == 14 {
        "move_node"
    } else if i == 15 {
        "resize_node"
    } else if i == 16 {
        "set_fill"
    } else if i == 17 {
        "set_stroke"
    } else if i == 18 {
        "set_corner_radius"
    } else if i == 19 {
        "set_effects"
    } else if i == 20 {
        "set_auto_layout"
    } else if i == 21 {
        "reorder_children"
    } else if i == 22 {
        "create_component"
    } else if i == 23 {
        "create_component_set"
    } else if i == 24 {
        "create_instance"
    } else if i == 25 {
        "detach_instance"
    } else if i == 26 {
        "swap_component"
    } else if i == 27 {
        "get_local_components"
    } else if i == 28 {
        "reset_instance"
    } else if i == 29 {
        "set_component_property"
    } else if i == 30 {
        "set_constraints"
    } else if i == 31 {
        "set_layout_grow"
    } else if i == 32 {
        "export_node"
    } else if i == 33 {
        "export_selection"
    } else if i == 34 {
        "boolean_union"
    } else if i == 35 {
        "boolean_subtract"
    } else if i == 36 {
        "boolean_intersect"
    } else if i == 37 {
        "boolean_exclude"
    } else if i == 38 {
        "flatten_selection"
    } else if i == 39 {
        "outline_stroke"
    } else if i == 40 {
        "group_selection"
    } else if i == 41 {
        "ungroup"
    } else if i == 42 {
        "wrap_in_frame"
    } else if i == 43 {
        "bring_to_front"
    } else if i == 44 {
        "send_to_back"
    } else if i == 45 {
        "bring_forward"
    } else if i == 46 {
        "send_backward"
    } else if i == 47 {
        "set_text_content"
    } else if i == 48 {
        "set_font"
    } else if i == 49 {
        "set_font_size"
    } else if i == 50 {
        "set_font_weight"
    } else if i == 51 {
        "set_line_height"
    } else if i == 52 {
        "set_letter_spacing"
    } else if i == 53 {
        "set_paragraph_spacing"
    } else if i == 54 {
        "set_text_alignment"
    } else if i == 55 {
        "set_text_decoration"
    } else if i == 56 {
        "set_text_case"
    } else if i == 57 {
        "set_text_auto_resize"
    } else if i == 58 {
        "set_text_hyperlink"
    } else if i == 59 {
        "get_font_list"
    } else if i == 60 {
        "create_vector"
    } else if i == 61 {
        "create_polygon"
    } else if i == 62 {
        "create_star"
    } else if i == 63 {
        "create_arrow"
    } else if i == 64 {
        "create_section"
    } else if i == 65 {
        "set_gradient_fill"
    } else if i == 66 {
        "remove_fill"
    } else if i == 67 {
        "remove_stroke"
    } else if i == 68 {
        "remove_effects"
    } else if i == 69 {
        "copy_paste_style"
    } else if i == 70 {
        "create_prototype_link"
    } else if i == 71 {
        "remove_prototype_link"
    } else if i == 72 {
        "set_prototype_start"
    } else if i == 73 {
        "get_prototype_flows"
    } else if i == 74 {
        "set_scroll_behavior"
    } else if i == 75 {
        "set_clip_content"
    } else if i == 76 {
        "get_variables"
    } else if i == 77 {
        "get_variable_collections"
    } else if i == 78 {
        "create_variable"
    } else if i == 79 {
        "set_variable_value"
    } else if i == 80 {
        "apply_variable"
    } else if i == 81 {
        "get_team_libraries"
    } else if i == 82 {
        "enable_library"
    } else if i == 83 {
        "disable_library"
    } else if i == 84 {
        "import_component_from_library"
    } else if i == 85 {
        "create_page"
    } else if i == 86 {
        "delete_page"
    } else if i == 87 {
        "rename_page"
    } else if i == 88 {
        "duplicate_page"
    } else if i == 89 {
        "set_current_page"
    } else if i == 90 {
        "set_page_background"
    } else if i == 91 {
        "create_comment"
    } else if i == 92 {
        "get_comments"
    } else if i == 93 {
        "resolve_comment"
    } else if i == 94 {
        "delete_comment"
    } else if i == 95 {
        "select_all"
    } else if i == 96 {
        "select_by_type"
    } else if i == 97 {
        "invert_selection"
    } else if i == 98 {
        "get_parent_chain"
    } else if i == 99 {
        "get_siblings"
    } else if i == 100 {
        "is_node_visible"
    } else if i == 101 {
        "duplicate_nodes"
    } else if i == 102 {
        "delete_selection"
    } else if i == 103 {
        "align_selection"
    } else if i == 104 {
        "distribute_selection"
    } else if i == 105 {
        "resize_to_fit"
    } else {
        "scale_selection"
    }
}

/// The names of all legacy tools.
pub fn get_tool_names() -> (r: Vec<String>)
    ensures
        r@.len() == spec_tool_names().len(),
        forall|i: int| 0 <= i < r@.len() ==> (#[trigger] r@[i])@ == spec_tool_names()[i],
{
    let mut out: Vec<String> = Vec::new();
    let mut i: usize = 0;
    while i < 107
        invariant
            i <= 107,
            out@.len() == i,
            forall|k: int| 0 <= k < i ==> (#[trigger] out@[k])@ == spec_tool_name_at(k),
        decreases 107 - i,
    {
        out.push(String::from_str(tool_name_at(i)));
        i = i + 1;
    }
    out
}

/// The legacy tool described at position `k` of the description table.
pub open spec fn spec_described_name_at(k: int) -> Seq<char> {
    if k == 0 {
        "join_channel"@
    } else if k == 1 {
        "get_document_info"@
    } else if k == 2 {
        "get_page_info"@
    } else if k == 3 {
        "get_selection"@
    } else if k == 4 {
        "set_selection"@
    } else if k == 5 {
        "get_node_info"@
    } else if k == 6 {
        "find_nodes_by_name"@
    } else if k == 7 {
        "create_frame"@
    } else if k == 8 {
        "create_rectangle"@
    } else if k == 9 {
        "create_ellipse"@
    } else if k == 10 {
        "create_text"@
    } else if k == 11 {
        "create_line"@
    } else if k == 12 {
        "delete_node"@
    } else if k == 13 {
        "set_node_name"@
    } else if k == 14 {
        "move_node"@
    } else if k == 15 {
        "resize_node"@
    } else if k == 16 {
        "set_fill"@
    } else if k == 17 {
        "set_stroke"@
    } else if k == 18 {
        "set_corner_radius"@
    } else if k == 19 {
        "set_effects"@
    } else if k == 20 {
        "set_auto_layout"@
    } else if k == 21 {
        "reorder_children"@
    } else if k == 22 {
        "create_component"@
    } else if k == 23 {
        "create_component_set"@
    } else if k == 24 {
        "create_instance"@
    } else if k == 25 {
        "detach_instance"@
    } else if k == 26 {
        "swap_component"@
    } else if k == 27 {
        "reset_instance"@
    } else if k == 28 {
        "set_component_property"@
    } else if k == 29 {
        "set_constraints"@
    } else if k == 30 {
        "set_layout_grow"@
    } else if k == 31 {
        "export_node"@
    } else if k == 32 {
        "export_selection"@
    } else if k == 33 {
        "boolean_union"@
    } else if k == 34 {
        "boolean_subtract"@
    } else if k == 35 {
        "boolean_intersect"@
    } else if k == 36 {
        "boolean_exclude"@
    } else if k == 37 {
        "flatten_selection"@
    } else if k == 38 {
        "outline_stroke"@
    } else if k == 39 {
        "group_selection"@
    } else if k == 40 {
        "ungroup"@
    } else if k == 41 {
        "wrap_in_frame"@
    } else if k == 42 {
        "bring_to_front"@
    } else if k == 43 {
        "send_to_back"@
    } else if k == 44 {
        "bring_forward"@
    } else if k == 45 {
        "send_backward"@
    } else if k == 46 {
        "set_text_content"@
    } else if k == 47 {
        "set_font"@
    } else if k == 48 {
        "set_font_size"@
    } else if k == 49 {
        "set_font_weight"@
    } else if k == 50 {
        "set_line_height"@
    } else if k == 51 {
        "set_letter_spacing"@
    } else if k == 52 {
        "set_paragraph_spacing"@
    } else if k == 53 {
        "set_text_alignment"@
    } else if k == 54 {
        "set_text_decoration"@
    } else if k == 55 {
        "set_text_case"@
    } else if k == 56 {
        "set_text_auto_resize"@
    } else if k == 57 {
        "set_text_hyperlink"@
    } else if k == 58 {
        "get_font_list"@
    } else if k == 59 {
        "create_vector"@
    } else if k == 60 {
        "create_polygon"@
    } else if k == 61 {
        "create_star"@
    } else if k == 62 {
        "create_arrow"@
    } else if k == 63 {
        "create_section"@
    } else if k == 64 {
        "set_gradient_fill"@
    } else if k == 65 {
        "remove_fill"@
    } else if k == 66 {
        "remove_stroke"@
    } else if k == 67 {
        "remove_effects"@
    } else if k == 68 {
        "copy_paste_style"@
    } else if k == 69 {
        "create_prototype_link"@
    } else if k == 70 {
        "remove_prototype_link"@
    } else if k == 71 {
        "set_prototype_start"@
    } else if k == 72 {
        "set_scroll_behavior"@
    } else if k == 73 {
        "set_clip_content"@
    } else if k == 74 {
        "create_variable"@
    } else if k == 75 {
        "set_variable_value"@
    } else if k == 76 {
        "apply_variable"@
    } else if k == 77 {
        "enable_library"@
    } else if k == 78 {
        "disable_library"@
    } else if k == 79 {
        "import_component_from_library"@
    } else if k == 80 {
        "create_page"@
    } else if k == 81 {
        "delete_page"@
    } else if k == 82 {
        "rename_page"@
    } else if k == 83 {
        "duplicate_page"@
    } else if k == 84 {
        "set_current_page"@
    } else if k == 85 {
        "set_page_background"@
    } else if k == 86 {
        "create_comment"@
    } else if k == 87 {
        "get_comments"@
    } else if k == 88 {
        "resolve_comment"@
    } else if k == 89 {
        "delete_comment"@
    } else if k == 90 {
        "select_all"@
    } else if k == 91 {
        "select_by_type"@
    } else if k == 92 {
        "get_parent_chain"@
    } else if k == 93 {
        "get_siblings"@
    } else if k == 94 {
        "is_node_visible"@
    } else if k == 95 {
        "duplicate_nodes"@
    } else if k == 96 {
        "delete_selection"@
    } else if k == 97 {
        "align_selection"@
    } else if k == 98 {
        "distribute_selection"@
    } else if k == 99 {
        "resize_to_fit"@
    } else if k == 100 {
        "scale_selection"@
    } else if k == 101 {
        "get_local_components"@
    } else if k == 102 {
        "get_prototype_flows"@
    } else if k == 103 {
        "get_variables"@
    } else if k == 104 {
        "get_variable_collections"@
    } else if k == 105 {
        "get_team_libraries"@
    } else {
        "invert_selection"@
    }
}

/// The description of entry `k` of the description table.
pub open spec fn spec_description_text_at(k: int) -> Seq<char> {
    if k == 0 {
        "Connect to a Figma plugin channel. Required before using other tools."@
    } else if k == 1 {
        "Get information about the current Figma document including pages"@
    } else if k == 2 {
        "Get information about a specific page or the current page"@
    } else if k == 3 {
        "Get the currently selected nodes in Figma"@
    } else if k == 4 {
        "Set the current selection to specific nodes"@
    } else if k == 5 {
        "Get detailed information about a specific node"@
    } else if k == 6 {
        "Find nodes by name pattern"@
    } else if k == 7 {
        "Create a new frame with optional auto-layout"@
    } else if k == 8 {
        "Create a new rectangle"@
    } else if k == 9 {
        "Create a new ellipse or circle"@
    } else if k == 10 {
        "Create a new text node"@
    } else if k == 11 {
        "Create a new line"@
    } else if k == 12 {
        "Delete a node. Requires MCP server startup with --allow-destructive-tools and confirm=true"@
    } else if k == 13 {
        "Rename a node"@
    } else if k == 14 {
        "Move a node to a new position"@
    } else if k == 15 {
        "Resize a node"@
    } else if k == 16 {
        "Set the fill color of a node"@
    } else if k == 17 {
        "Set the stroke/border of a node"@
    } else if k == 18 {
        "Set corner radius for a rectangle or frame"@
    } else if k == 19 {
        "Add effects like drop shadows to a node"@
    } else if k == 20 {
        "Enable or modify auto-layout on a frame"@
    } else if k == 21 {
        "Reorder children within a parent node"@
    } else if k == 22 {
        "Convert selected nodes into a reusable component"@
    } else if k == 23 {
        "Combine multiple components into a component set with variants"@
    } else if k == 24 {
        "Create an instance from a component"@
    } else if k == 25 {
        "Detach an instance to make it editable"@
    } else if k == 26 {
        "Swap an instance to use a different component"@
    } else if k == 27 {
        "Reset all overrides on an instance to match the component"@
    } else if k == 28 {
        "Set a variant property on a component instance"@
    } else if k == 29 {
        "Set resize constraints for responsive design"@
    } else if k == 30 {
        "Set grow and shrink behavior in auto-layout"@
    } else if k == 31 {
        "Export a node as an image or vector file"@
    } else if k == 32 {
        "Export the current selection"@
    } else if k == 33 {
        "Merge multiple shapes into one"@
    } else if k == 34 {
        "Subtract shapes from the first shape"@
    } else if k == 35 {
        "Keep only the overlapping area of shapes"@
    } else if k == 36 {
        "Remove the overlapping area of shapes"@
    } else if k == 37 {
        "Flatten vector nodes into a single layer"@
    } else if k == 38 {
        "Convert a stroke to a vector outline"@
    } else if k == 39 {
        "Group multiple nodes together"@
    } else if k == 40 {
        "Ungroup a group"@
    } else if k == 41 {
        "Wrap nodes in a new frame"@
    } else if k == 42 {
        "Bring node to front of layer stack"@
    } else if k == 43 {
        "Send node to back of layer stack"@
    } else if k == 44 {
        "Bring node forward one layer"@
    } else if k == 45 {
        "Send node backward one layer"@
    } else if k == 46 {
        "Update the text content of a text node"@
    } else if k == 47 {
        "Change the font family and style"@
    } else if k == 48 {
        "Change the font size"@
    } else if k == 49 {
        "Change the font weight"@
    } else if k == 50 {
        "Set the line height/leading"@
    } else if k == 51 {
        "Set the letter spacing (tracking)"@
    } else if k == 52 {
        "Set the spacing between paragraphs"@
    } else if k == 53 {
        "Set text alignment (horizontal and/or vertical)"@
    } else if k == 54 {
        "Set text decoration (underline, strikethrough)"@
    } else if k == 55 {
        "Set text case transformation"@
    } else if k == 56 {
        "Set text auto resize behavior"@
    } else if k == 57 {
        "Add a hyperlink to text or a range of text"@
    } else if k == 58 {
        "Get list of available fonts in the document. Returns a summarized preview instead of dumping the full font catalog into the MCP response."@
    } else if k == 59 {
        "Create a custom vector shape from SVG path data"@
    } else if k == 60 {
        "Create a polygon with N sides"@
    } else if k == 61 {
        "Create a star shape"@
    } else if k == 62 {
        "Create an arrow line with arrowhead"@
    } else if k == 63 {
        "Create a section container (for organizing designs)"@
    } else if k == 64 {
        "Apply a gradient fill to a node"@
    } else if k == 65 {
        "Remove all fills from a node"@
    } else if k == 66 {
        "Remove all strokes from a node"@
    } else if k == 67 {
        "Remove all effects from a node"@
    } else if k == 68 {
        "Copy styles from one node to another"@
    } else if k == 69 {
        "Create an interaction link between frames"@
    } else if k == 70 {
        "Remove prototype interaction from a node. Requires MCP server startup with --allow-destructive-tools and confirm=true"@
    } else if k == 71 {
        "Set a frame as the prototype starting point"@
    } else if k == 72 {
        "Set scroll behavior for a frame"@
    } else if k == 73 {
        "Set whether a frame clips content outside its bounds"@
    } else if k == 74 {
        "Create a new design variable"@
    } else if k == 75 {
        "Update a variable's value"@
    } else if k == 76 {
        "Apply a variable to a node property"@
    } else if k == 77 {
        "Enable a library for the current file"@
    } else if k == 78 {
        "Disable a library for the current file"@
    } else if k == 79 {
        "Import a component from a team library"@
    } else if k == 80 {
        "Create a new page"@
    } else if k == 81 {
        "Delete a page. Requires MCP server startup with --allow-destructive-tools and confirm=true"@
    } else if k == 82 {
        "Rename a page"@
    } else if k == 83 {
        "Duplicate a page"@
    } else if k == 84 {
        "Switch to a specific page"@
    } else if k == 85 {
        "Set page background color"@
    } else if k == 86 {
        "Add a comment to the canvas"@
    } else if k == 87 {
        "Get all comments on a page"@
    } else if k == 88 {
        "Mark a comment as resolved"@
    } else if k == 89 {
        "Delete a comment. Requires MCP server startup with --allow-destructive-tools and confirm=true"@
    } else if k == 90 {
        "Select all nodes on the current page"@
    } else if k == 91 {
        "Select all nodes of a specific type"@
    } else if k == 92 {
        "Get the parent hierarchy of a node"@
    } else if k == 93 {
        "Get sibling nodes"@
    } else if k == 94 {
        "Check if a node is visible in the viewport"@
    } else if k == 95 {
        "Duplicate multiple nodes"@
    } else if k == 96 {
        "Delete all selected nodes. Requires MCP server startup with --allow-destructive-tools and confirm=true"@
    } else if k == 97 {
        "Align selected nodes"@
    } else if k == 98 {
        "Distribute selected nodes evenly"@
    } else if k == 99 {
        "Resize a frame to fit its content"@
    } else if k == 100 {
        "Scale selected nodes by a factor"@
    } else if k == 101 {
        "Get all local components in the document"@
    } else if k == 102 {
        "Get all prototype flows in the document"@
    } else if k == 103 {
        "Get all design variables in the document"@
    } else if k == 104 {
        "Get all variable collections"@
    } else if k == 105 {
        "Get available team libraries"@
    } else {
        "Invert the current selection"@
    }
}

/// The properties, as `(name, kind)` pairs, of entry `k` of the table.
pub open spec fn spec_props_at(k: int) -> Seq<(Seq<char>, Seq<char>)> {
    if k == 0 {
        seq![("channel"@, "string"@), ("url"@, "string"@)]
    } else if k == 1 {
        seq![("channel"@, "string"@)]
    } else if k == 2 {
        seq![("channel"@, "string"@), ("pageId"@, "string"@)]
    } else if k == 3 {
        seq![("channel"@, "string"@), ("includeGeometry"@, "boolean"@)]
    } else if k == 4 {
        seq![("channel"@, "string"@), ("nodeIds"@, "array"@)]
    } else if k == 5 {
        seq![("channel"@, "string"@), ("nodeId"@, "string"@), ("includeChildren"@, "string"@)]
    } else if k == 6 {
        seq![("channel"@, "string"@), ("name"@, "string"@), ("type"@, "string"@)]
    } else if k == 7 {
        seq![("channel"@, "string"@), ("name"@, "string"@), ("x"@, "number"@), ("y"@, "number"@), ("width"@, "number"@), ("height"@, "number"@), ("parentId"@, "string"@), ("layoutMode"@, "string"@), ("padding"@, "number"@), ("gap"@, "number"@)]
    } else if k == 8 {
        seq![("channel"@, "string"@), ("name"@, "string"@), ("x"@, "number"@), ("y"@, "number"@), ("width"@, "number"@), ("height"@, "number"@), ("parentId"@, "string"@)]
    } else if k == 9 {
        seq![("channel"@, "string"@), ("name"@, "string"@), ("x"@, "number"@), ("y"@, "number"@), ("width"@, "number"@), ("height"@, "number"@), ("parentId"@, "string"@)]
    } else if k == 10 {
        seq![("channel"@, "string"@), ("name"@, "string"@), ("x"@, "number"@), ("y"@, "number"@), ("text"@, "string"@), ("fontSize"@, "number"@), ("fontColor"@, "object"@), ("parentId"@, "string"@)]
    } else if k == 11 {
        seq![("channel"@, "string"@), ("name"@, "string"@), ("x1"@, "string"@), ("y1"@, "string"@), ("x2"@, "string"@), ("y2"@, "string"@), ("parentId"@, "string"@)]
    } else if k == 12 {
        seq![("channel"@, "string"@), ("nodeId"@, "string"@), ("confirm"@, "boolean"@), ("dryRun"@, "boolean"@), ("reason"@, "string"@)]
    } else if k == 13 {
        seq![("channel"@, "string"@), ("nodeId"@, "string"@), ("name"@, "string"@)]
    } else if k == 14 {
        seq![("channel"@, "string"@), ("nodeId"@, "string"@), ("x"@, "number"@), ("y"@, "number"@)]
    } else if k == 15 {
        seq![("channel"@, "string"@), ("nodeId"@, "string"@), ("width"@, "number"@), ("height"@, "number"@)]
    } else if k == 16 {
        seq![("channel"@, "string"@), ("nodeId"@, "string"@), ("color"@, "object"@), ("opacity"@, "string"@)]
    } else if k == 17 {
        seq![("channel"@, "string"@), ("nodeId"@, "string"@), ("color"@, "object"@), ("weight"@, "string"@)]
    } else if k == 18 {
        seq![("channel"@, "string"@), ("nodeId"@, "string"@), ("radius"@, "number"@), ("topLeft"@, "string"@), ("topRight"@, "string"@), ("bottomLeft"@, "string"@), ("bottomRight"@, "string"@)]
    } else if k == 19 {
        seq![("channel"@, "string"@), ("nodeId"@, "string"@), ("dropShadow"@, "string"@), ("innerShadow"@, "string"@)]
    } else if k == 20 {
        seq![("channel"@, "string"@), ("nodeId"@, "string"@), ("layoutMode"@, "string"@), ("padding"@, "number"@), ("gap"@, "number"@), ("alignment"@, "string"@)]
    } else if k == 21 {
        seq![("channel"@, "string"@), ("parentId"@, "string"@), ("childIds"@, "array"@)]
    } else if k == 22 {
        seq![("channel"@, "string"@), ("nodeIds"@, "array"@), ("name"@, "string"@), ("description"@, "string"@)]
    } else if k == 23 {
        seq![("channel"@, "string"@), ("componentIds"@, "array"@), ("name"@, "string"@), ("propertyName"@, "string"@)]
    } else if k == 24 {
        seq![("channel"@, "string"@), ("componentId"@, "string"@), ("x"@, "number"@), ("y"@, "number"@), ("parentId"@, "string"@)]
    } else if k == 25 {
        seq![("channel"@, "string"@), ("instanceId"@, "string"@)]
    } else if k == 26 {
        seq![("channel"@, "string"@), ("instanceId"@, "string"@), ("newComponentId"@, "string"@)]
    } else if k == 27 {
        seq![("channel"@, "string"@), ("instanceId"@, "string"@)]
    } else if k == 28 {
        seq![("channel"@, "string"@), ("instanceId"@, "string"@), ("propertyName"@, "string"@), ("value"@, "string"@)]
    } else if k == 29 {
        seq![("channel"@, "string"@), ("nodeId"@, "string"@), ("horizontal"@, "string"@), ("vertical"@, "string"@)]
    } else if k == 30 {
        seq![("channel"@, "string"@), ("nodeId"@, "string"@), ("grow"@, "string"@), ("shrink"@, "string"@)]
    } else if k == 31 {
        seq![("channel"@, "string"@), ("nodeId"@, "string"@), ("format"@, "string"@), ("scale"@, "string"@), ("suffix"@, "string"@)]
    } else if k == 32 {
        seq![("channel"@, "string"@), ("format"@, "string"@), ("scale"@, "string"@)]
    } else if k == 33 {
        seq![("channel"@, "string"@), ("nodeIds"@, "array"@), ("parentId"@, "string"@)]
    } else if k == 34 {
        seq![("channel"@, "string"@), ("nodeIds"@, "array"@), ("parentId"@, "string"@)]
    } else if k == 35 {
        seq![("channel"@, "string"@), ("nodeIds"@, "array"@), ("parentId"@, "string"@)]
    } else if k == 36 {
        seq![("channel"@, "string"@), ("nodeIds"@, "array"@), ("parentId"@, "string"@)]
    } else if k == 37 {
        seq![("channel"@, "string"@), ("nodeIds"@, "array"@)]
    } else if k == 38 {
        seq![("channel"@, "string"@), ("nodeId"@, "string"@)]
    } else if k == 39 {
        seq![("channel"@, "string"@), ("nodeIds"@, "array"@), ("name"@, "string"@)]
    } else if k == 40 {
        seq![("channel"@, "string"@), ("groupId"@, "string"@)]
    } else if k == 41 {
        seq![("channel"@, "string"@), ("nodeIds"@, "array"@), ("name"@, "string"@), ("padding"@, "number"@)]
    } else if k == 42 {
        seq![("channel"@, "string"@), ("nodeId"@, "string"@)]
    } else if k == 43 {
        seq![("channel"@, "string"@), ("nodeId"@, "string"@)]
    } else if k == 44 {
        seq![("channel"@, "string"@), ("nodeId"@, "string"@)]
    } else if k == 45 {
        seq![("channel"@, "string"@), ("nodeId"@, "string"@)]
    } else if k == 46 {
        seq![("channel"@, "string"@), ("nodeId"@, "string"@), ("text"@, "string"@)]
    } else if k == 47 {
        seq![("channel"@, "string"@), ("nodeId"@, "string"@), ("family"@, "string"@), ("style"@, "string"@)]
    } else if k == 48 {
        seq![("channel"@, "string"@), ("nodeId"@, "string"@), ("fontSize"@, "number"@)]
    } else if k == 49 {
        seq![("channel"@, "string"@), ("nodeId"@, "string"@), ("fontWeight"@, "number"@)]
    } else if k == 50 {
        seq![("channel"@, "string"@), ("nodeId"@, "string"@), ("lineHeight"@, "number"@)]
    } else if k == 51 {
        seq![("channel"@, "string"@), ("nodeId"@, "string"@), ("letterSpacing"@, "number"@)]
    } else if k == 52 {
        seq![("channel"@, "string"@), ("nodeId"@, "string"@), ("paragraphSpacing"@, "number"@)]
    } else if k == 53 {
        seq![("channel"@, "string"@), ("nodeId"@, "string"@), ("horizontal"@, "string"@), ("vertical"@, "string"@)]
    } else if k == 54 {
        seq![("channel"@, "string"@), ("nodeId"@, "string"@), ("decoration"@, "string"@)]
    } else if k == 55 {
        seq![("channel"@, "string"@), ("nodeId"@, "string"@), ("textCase"@, "string"@)]
    } else if k == 56 {
        seq![("channel"@, "string"@), ("nodeId"@, "string"@), ("autoResize"@, "string"@)]
    } else if k == 57 {
        seq![("channel"@, "string"@), ("nodeId"@, "string"@), ("url"@, "string"@), ("start"@, "string"@), ("end"@, "string"@)]
    } else if k == 58 {
        seq![("channel"@, "string"@), ("familyContains"@, "string"@), ("styleContains"@, "string"@), ("limit"@, "string"@)]
    } else if k == 59 {
        seq![("channel"@, "string"@), ("name"@, "string"@), ("path"@, "string"@), ("x"@, "number"@), ("y"@, "number"@), ("parentId"@, "string"@)]
    } else if k == 60 {
        seq![("channel"@, "string"@), ("name"@, "string"@), ("x"@, "number"@), ("y"@, "number"@), ("radius"@, "number"@), ("sides"@, "string"@), ("parentId"@, "string"@)]
    } else if k == 61 {
        seq![("channel"@, "string"@), ("name"@, "string"@), ("x"@, "number"@), ("y"@, "number"@), ("outerRadius"@, "string"@), ("innerRadius"@, "string"@), ("points"@, "string"@), ("parentId"@, "string"@)]
    } else if k == 62 {
        seq![("channel"@, "string"@), ("name"@, "string"@), ("x1"@, "string"@), ("y1"@, "string"@), ("x2"@, "string"@), ("y2"@, "string"@), ("arrowHead"@, "string"@), ("parentId"@, "string"@)]
    } else if k == 63 {
        seq![("channel"@, "string"@), ("name"@, "string"@), ("x"@, "number"@), ("y"@, "number"@), ("width"@, "number"@), ("height"@, "number"@), ("color"@, "object"@)]
    } else if k == 64 {
        seq![("channel"@, "string"@), ("nodeId"@, "string"@), ("type"@, "string"@), ("stops"@, "string"@), ("angle"@, "string"@)]
    } else if k == 65 {
        seq![("channel"@, "string"@), ("nodeId"@, "string"@)]
    } else if k == 66 {
        seq![("channel"@, "string"@), ("nodeId"@, "string"@)]
    } else if k == 67 {
        seq![("channel"@, "string"@), ("nodeId"@, "string"@)]
    } else if k == 68 {
        seq![("channel"@, "string"@), ("sourceNodeId"@, "string"@), ("targetNodeIds"@, "array"@)]
    } else if k == 69 {
        seq![("channel"@, "string"@), ("sourceFrameId"@, "string"@), ("targetFrameId"@, "string"@), ("trigger"@, "string"@), ("transition"@, "string"@), ("duration"@, "string"@)]
    } else if k == 70 {
        seq![("channel"@, "string"@), ("nodeId"@, "string"@), ("confirm"@, "boolean"@), ("dryRun"@, "boolean"@), ("reason"@, "string"@)]
    } else if k == 71 {
        seq![("channel"@, "string"@), ("frameId"@, "string"@), ("flowName"@, "string"@)]
    } else if k == 72 {
        seq![("channel"@, "string"@), ("frameId"@, "string"@), ("direction"@, "string"@)]
    } else if k == 73 {
        seq![("channel"@, "string"@), ("nodeId"@, "string"@), ("clip"@, "string"@)]
    } else if k == 74 {
        seq![("channel"@, "string"@), ("name"@, "string"@), ("type"@, "string"@), ("value"@, "string"@), ("collectionId"@, "string"@)]
    } else if k == 75 {
        seq![("channel"@, "string"@), ("variableId"@, "string"@), ("value"@, "string"@)]
    } else if k == 76 {
        seq![("channel"@, "string"@), ("nodeId"@, "string"@), ("variableId"@, "string"@), ("property"@, "string"@)]
    } else if k == 77 {
        seq![("channel"@, "string"@), ("libraryId"@, "string"@)]
    } else if k == 78 {
        seq![("channel"@, "string"@), ("libraryId"@, "string"@)]
    } else if k == 79 {
        seq![("channel"@, "string"@), ("libraryId"@, "string"@), ("componentKey"@, "string"@), ("x"@, "number"@), ("y"@, "number"@)]
    } else if k == 80 {
        seq![("channel"@, "string"@), ("name"@, "string"@), ("index"@, "string"@)]
    } else if k == 81 {
        seq![("channel"@, "string"@), ("pageId"@, "string"@), ("confirm"@, "boolean"@), ("dryRun"@, "boolean"@), ("reason"@, "string"@)]
    } else if k == 82 {
        seq![("channel"@, "string"@), ("pageId"@, "string"@), ("name"@, "string"@)]
    } else if k == 83 {
        seq![("channel"@, "string"@), ("pageId"@, "string"@)]
    } else if k == 84 {
        seq![("channel"@, "string"@), ("pageId"@, "string"@)]
    } else if k == 85 {
        seq![("channel"@, "string"@), ("pageId"@, "string"@), ("color"@, "object"@)]
    } else if k == 86 {
        seq![("channel"@, "string"@), ("x"@, "number"@), ("y"@, "number"@), ("message"@, "string"@), ("parentId"@, "string"@)]
    } else if k == 87 {
        seq![("channel"@, "string"@), ("pageId"@, "string"@)]
    } else if k == 88 {
        seq![("channel"@, "string"@), ("commentId"@, "string"@)]
    } else if k == 89 {
        seq![("channel"@, "string"@), ("commentId"@, "string"@), ("confirm"@, "boolean"@), ("dryRun"@, "boolean"@), ("reason"@, "string"@)]
    } else if k == 90 {
        seq![("channel"@, "string"@), ("type"@, "string"@)]
    } else if k == 91 {
        seq![("channel"@, "string"@), ("type"@, "string"@)]
    } else if k == 92 {
        seq![("channel"@, "string"@), ("nodeId"@, "string"@)]
    } else if k == 93 {
        seq![("channel"@, "string"@), ("nodeId"@, "string"@)]
    } else if k == 94 {
        seq![("channel"@, "string"@), ("nodeId"@, "string"@)]
    } else if k == 95 {
        seq![("channel"@, "string"@), ("nodeIds"@, "array"@), ("count"@, "string"@), ("offsetX"@, "string"@), ("offsetY"@, "string"@)]
    } else if k == 96 {
        seq![("channel"@, "string"@), ("confirm"@, "boolean"@), ("dryRun"@, "boolean"@), ("reason"@, "string"@)]
    } else if k == 97 {
        seq![("channel"@, "string"@), ("alignment"@, "string"@)]
    } else if k == 98 {
        seq![("channel"@, "string"@), ("direction"@, "string"@), ("spacing"@, "string"@)]
    } else if k == 99 {
        seq![("channel"@, "string"@), ("nodeId"@, "string"@), ("padding"@, "number"@)]
    } else if k == 100 {
        seq![("channel"@, "string"@), ("scale"@, "string"@)]
    } else if k == 101 {
        seq![("channel"@, "string"@)]
    } else if k == 102 {
        seq![("channel"@, "string"@)]
    } else if k == 103 {
        seq![("channel"@, "string"@)]
    } else if k == 104 {
        seq![("channel"@, "string"@)]
    } else if k == 105 {
        seq![("channel"@, "string"@)]
    } else {
        seq![("channel"@, "string"@)]
    }
}

/// Entry `k` is the first entry of the table for `tool`.
pub open spec fn first_described_at(tool: Seq<char>, k: int) -> bool {
    &&& 0 <= k < 107
    &&& spec_described_name_at(k) == tool
    &&& forall|j: int| 0 <= j < k ==> spec_described_name_at(j) != tool
}

/// The description table has an entry for `tool`.
pub open spec fn spec_has_description(tool: Seq<char>) -> bool {
    exists|k: int| 0 <= k < 107 && #[trigger] spec_described_name_at(k) == tool
}

/// Entry `k` of the description table: name, description and properties.
#[verifier::rlimit(60)]
fn description_entry(k: usize) -> (r: (&'static str, &'static str, Vec<(&'static str, &'static str)>))
    requires
        k < 107,
    ensures
        r.0@ == spec_described_name_at(k as int),
        r.1@ == spec_description_text_at(k as int),
        r.2@.map_values(|p: (&str, &str)| (p.0@, p.1@)) == spec_props_at(k as int),
{

    if k == 0 {
        let mut p: Vec<(&'static str, &'static str)> = Vec::new();
        p.push(("channel", "string"));
        p.push(("url", "string"));
        assert(p@.map_values(|p: (&str, &str)| (p.0@, p.1@)) =~= seq![("channel"@, "string"@), ("url"@, "string"@)]);
        ("join_channel", "Connect to a Figma plugin channel. Required before using other tools.", p)
    } else if k == 1 {
        let mut p: Vec<(&'static str, &'static str)> = Vec::new();
        p.push(("channel", "string"));
        assert(p@.map_values(|p: (&str, &str)| (p.0@, p.1@)) =~= seq![("channel"@, "string"@)]);
        ("get_document_info", "Get information about the current Figma document including pages", p)
    } else if k == 2 {
        let mut p: Vec<(&'static str, &'static str)> = Vec::new();
        p.push(("channel", "string"));
        p.push(("pageId", "string"));
        assert(p@.map_values(|p: (&str, &str)| (p.0@, p.1@)) =~= seq![("channel"@, "string"@), ("pageId"@, "string"@)]);
        ("get_page_info", "Get information about a specific page or the current page", p)
    } else if k == 3 {
        let mut p: Vec<(&'static str, &'static str)> = Vec::new();
        p.push(("channel", "string"));
        p.push(("includeGeometry", "boolean"));
        assert(p@.map_values(|p: (&str, &str)| (p.0@, p.1@)) =~= seq![("channel"@, "string"@), ("includeGeometry"@, "boolean"@)]);
        ("get_selection", "Get the currently selected nodes in Figma", p)
    } else if k == 4 {
        let mut p: Vec<(&'static str, &'static str)> = Vec::new();
        p.push(("channel", "string"));
        p.push(("nodeIds", "array"));
        assert(p@.map_values(|p: (&str, &str)| (p.0@, p.1@)) =~= seq![("channel"@, "string"@), ("nodeIds"@, "array"@)]);
        ("set_selection", "Set the current selection to specific nodes", p)
    } else if k == 5 {
        let mut p: Vec<(&'static str, &'static str)> = Vec::new();
        p.push(("channel", "string"));
        p.push(("nodeId", "string"));
        p.push(("includeChildren", "string"));
        assert(p@.map_values(|p: (&str, &str)| (p.0@, p.1@)) =~= seq![("channel"@, "string"@), ("nodeId"@, "string"@), ("includeChildren"@, "string"@)]);
        ("get_node_info", "Get detailed information about a specific node", p)
    } else if k == 6 {
        let mut p: Vec<(&'static str, &'static str)> = Vec::new();
        p.push(("channel", "string"));
        p.push(("name", "string"));
        p.push(("type", "string"));
        assert(p@.map_values(|p: (&str, &str)| (p.0@, p.1@)) =~= seq![("channel"@, "string"@), ("name"@, "string"@), ("type"@, "string"@)]);
        ("find_nodes_by_name", "Find nodes by name pattern", p)
    } else if k == 7 {
        let mut p: Vec<(&'static str, &'static str)> = Vec::new();
        p.push(("channel", "string"));
        p.push(("name", "string"));
        p.push(("x", "number"));
        p.push(("y", "number"));
        p.push(("width", "number"));
        p.push(("height", "number"));
        p.push(("parentId", "string"));
        p.push(("layoutMode", "string"));
        p.push(("padding", "number"));
        p.push(("gap", "number"));
        assert(p@.map_values(|p: (&str, &str)| (p.0@, p.1@)) =~= seq![("channel"@, "string"@), ("name"@, "string"@), ("x"@, "number"@), ("y"@, "number"@), ("width"@, "number"@), ("height"@, "number"@), ("parentId"@, "string"@), ("layoutMode"@, "string"@), ("padding"@, "number"@), ("gap"@, "number"@)]);
        ("create_frame", "Create a new frame with optional auto-layout", p)
    } else if k == 8 {
        let mut p: Vec<(&'static str, &'static str)> = Vec::new();
        p.push(("channel", "string"));
        p.push(("name", "string"));
        p.push(("x", "number"));
        p.push(("y", "number"));
        p.push(("width", "number"));
        p.push(("height", "number"));
        p.push(("parentId", "string"));
        assert(p@.map_values(|p: (&str, &str)| (p.0@, p.1@)) =~= seq![("channel"@, "string"@), ("name"@, "string"@), ("x"@, "number"@), ("y"@, "number"@), ("width"@, "number"@), ("height"@, "number"@), ("parentId"@, "string"@)]);
        ("create_rectangle", "Create a new rectangle", p)
    } else if k == 9 {
        let mut p: Vec<(&'static str, &'static str)> = Vec::new();
        p.push(("channel", "string"));
        p.push(("name", "string"));
        p.push(("x", "number"));
        p.push(("y", "number"));
        p.push(("width", "number"));
        p.push(("height", "number"));
        p.push(("parentId", "string"));
        assert(p@.map_values(|p: (&str, &str)| (p.0@, p.1@)) =~= seq![("channel"@, "string"@), ("name"@, "string"@), ("x"@, "number"@), ("y"@, "number"@), ("width"@, "number"@), ("height"@, "number"@), ("parentId"@, "string"@)]);
        ("create_ellipse", "Create a new ellipse or circle", p)
    } else if k == 10 {
        let mut p: Vec<(&'static str, &'static str)> = Vec::new();
        p.push(("channel", "string"));
        p.push(("name", "string"));
        p.push(("x", "number"));
        p.push(("y", "number"));
        p.push(("text", "string"));
        p.push(("fontSize", "number"));
        p.push(("fontColor", "object"));
        p.push(("parentId", "string"));
        assert(p@.map_values(|p: (&str, &str)| (p.0@, p.1@)) =~= seq![("channel"@, "string"@), ("name"@, "string"@), ("x"@, "number"@), ("y"@, "number"@), ("text"@, "string"@), ("fontSize"@, "number"@), ("fontColor"@, "object"@), ("parentId"@, "string"@)]);
        ("create_text", "Create a new text node", p)
    } else if k == 11 {
        let mut p: Vec<(&'static str, &'static str)> = Vec::new();
        p.push(("channel", "string"));
        p.push(("name", "string"));
        p.push(("x1", "string"));
        p.push(("y1", "string"));
        p.push(("x2", "string"));
        p.push(("y2", "string"));
        p.push(("parentId", "string"));
        assert(p@.map_values(|p: (&str, &str)| (p.0@, p.1@)) =~= seq![("channel"@, "string"@), ("name"@, "string"@), ("x1"@, "string"@), ("y1"@, "string"@), ("x2"@, "string"@), ("y2"@, "string"@), ("parentId"@, "string"@)]);
        ("create_line", "Create a new line", p)
    } else if k == 12 {
        let mut p: Vec<(&'static str, &'static str)> = Vec::new();
        p.push(("channel", "string"));
        p.push(("nodeId", "string"));
        p.push(("confirm", "boolean"));
        p.push(("dryRun", "boolean"));
        p.push(("reason", "string"));
        assert(p@.map_values(|p: (&str, &str)| (p.0@, p.1@)) =~= seq![("channel"@, "string"@), ("nodeId"@, "string"@), ("confirm"@, "boolean"@), ("dryRun"@, "boolean"@), ("reason"@, "string"@)]);
        ("delete_node", "Delete a node. Requires MCP server startup with --allow-destructive-tools and confirm=true", p)
    } else if k == 13 {
        let mut p: Vec<(&'static str, &'static str)> = Vec::new();
        p.push(("channel", "string"));
        p.push(("nodeId", "string"));
        p.push(("name", "string"));
        assert(p@.map_values(|p: (&str, &str)| (p.0@, p.1@)) =~= seq![("channel"@, "string"@), ("nodeId"@, "string"@), ("name"@, "string"@)]);
        ("set_node_name", "Rename a node", p)
    } else if k == 14 {
        let mut p: Vec<(&'static str, &'static str)> = Vec::new();
        p.push(("channel", "string"));
        p.push(("nodeId", "string"));
        p.push(("x", "number"));
        p.push(("y", "number"));
        assert(p@.map_values(|p: (&str, &str)| (p.0@, p.1@)) =~= seq![("channel"@, "string"@), ("nodeId"@, "string"@), ("x"@, "number"@), ("y"@, "number"@)]);
        ("move_node", "Move a node to a new position", p)
    } else if k == 15 {
        let mut p: Vec<(&'static str, &'static str)> = Vec::new();
        p.push(("channel", "string"));
        p.push(("nodeId", "string"));
        p.push(("width", "number"));
        p.push(("height", "number"));
        assert(p@.map_values(|p: (&str, &str)| (p.0@, p.1@)) =~= seq![("channel"@, "string"@), ("nodeId"@, "string"@), ("width"@, "number"@), ("height"@, "number"@)]);
        ("resize_node", "Resize a node", p)
    } else if k == 16 {
        let mut p: Vec<(&'static str, &'static str)> = Vec::new();
        p.push(("channel", "string"));
        p.push(("nodeId", "string"));
        p.push(("color", "object"));
        p.push(("opacity", "string"));
        assert(p@.map_values(|p: (&str, &str)| (p.0@, p.1@)) =~= seq![("channel"@, "string"@), ("nodeId"@, "string"@), ("color"@, "object"@), ("opacity"@, "string"@)]);
        ("set_fill", "Set the fill color of a node", p)
    } else if k == 17 {
        let mut p: Vec<(&'static str, &'static str)> = Vec::new();
        p.push(("channel", "string"));
        p.push(("nodeId", "string"));
        p.push(("color", "object"));
        p.push(("weight", "string"));
        assert(p@.map_values(|p: (&str, &str)| (p.0@, p.1@)) =~= seq![("channel"@, "string"@), ("nodeId"@, "string"@), ("color"@, "object"@), ("weight"@, "string"@)]);
        ("set_stroke", "Set the stroke/border of a node", p)
    } else if k == 18 {
        let mut p: Vec<(&'static str, &'static str)> = Vec::new();
        p.push(("channel", "string"));
        p.push(("nodeId", "string"));
        p.push(("radius", "number"));
        p.push(("topLeft", "string"));
        p.push(("topRight", "string"));
        p.push(("bottomLeft", "string"));
        p.push(("bottomRight", "string"));
        assert(p@.map_values(|p: (&str, &str)| (p.0@, p.1@)) =~= seq![("channel"@, "string"@), ("nodeId"@, "string"@), ("radius"@, "number"@), ("topLeft"@, "string"@), ("topRight"@, "string"@), ("bottomLeft"@, "string"@), ("bottomRight"@, "string"@)]);
        ("set_corner_radius", "Set corner radius for a rectangle or frame", p)
    } else if k == 19 {
        let mut p: Vec<(&'static str, &'static str)> = Vec::new();
        p.push(("channel", "string"));
        p.push(("nodeId", "string"));
        p.push(("dropShadow", "string"));
        p.push(("innerShadow", "string"));
        assert(p@.map_values(|p: (&str, &str)| (p.0@, p.1@)) =~= seq![("channel"@, "string"@), ("nodeId"@, "string"@), ("dropShadow"@, "string"@), ("innerShadow"@, "string"@)]);
        ("set_effects", "Add effects like drop shadows to a node", p)
    } else if k == 20 {
        let mut p: Vec<(&'static str, &'static str)> = Vec::new();
        p.push(("channel", "string"));
        p.push(("nodeId", "string"));
        p.push(("layoutMode", "string"));
        p.push(("padding", "number"));
        p.push(("gap", "number"));
        p.push(("alignment", "string"));
        assert(p@.map_values(|p: (&str, &str)| (p.0@, p.1@)) =~= seq![("channel"@, "string"@), ("nodeId"@, "string"@), ("layoutMode"@, "string"@), ("padding"@, "number"@), ("gap"@, "number"@), ("alignment"@, "string"@)]);
        ("set_auto_layout", "Enable or modify auto-layout on a frame", p)
    } else if k == 21 {
        let mut p: Vec<(&'static str, &'static str)> = Vec::new();
        p.push(("channel", "string"));
        p.push(("parentId", "string"));
        p.push(("childIds", "array"));
        assert(p@.map_values(|p: (&str, &str)| (p.0@, p.1@)) =~= seq![("channel"@, "string"@), ("parentId"@, "string"@), ("childIds"@, "array"@)]);
        ("reorder_children", "Reorder children within a parent node", p)
    } else if k == 22 {
        let mut p: Vec<(&'static str, &'static str)> = Vec::new();
        p.push(("channel", "string"));
        p.push(("nodeIds", "array"));
        p.push(("name", "string"));
        p.push(("description", "string"));
        assert(p@.map_values(|p: (&str, &str)| (p.0@, p.1@)) =~= seq![("channel"@, "string"@), ("nodeIds"@, "array"@), ("name"@, "string"@), ("description"@, "string"@)]);
        ("create_component", "Convert selected nodes into a reusable component", p)
    } else if k == 23 {
        let mut p: Vec<(&'static str, &'static str)> = Vec::new();
        p.push(("channel", "string"));
        p.push(("componentIds", "array"));
        p.push(("name", "string"));
        p.push(("propertyName", "string"));
        assert(p@.map_values(|p: (&str, &str)| (p.0@, p.1@)) =~= seq![("channel"@, "string"@), ("componentIds"@, "array"@), ("name"@, "string"@), ("propertyName"@, "string"@)]);
        ("create_component_set", "Combine multiple components into a component set with variants", p)
    } else if k == 24 {
        let mut p: Vec<(&'static str, &'static str)> = Vec::new();
        p.push(("channel", "string"));
        p.push(("componentId", "string"));
        p.push(("x", "number"));
        p.push(("y", "number"));
        p.push(("parentId", "string"));
        assert(p@.map_values(|p: (&str, &str)| (p.0@, p.1@)) =~= seq![("channel"@, "string"@), ("componentId"@, "string"@), ("x"@, "number"@), ("y"@, "number"@), ("parentId"@, "string"@)]);
        ("create_instance", "Create an instance from a component", p)
    } else if k == 25 {
        let mut p: Vec<(&'static str, &'static str)> = Vec::new();
        p.push(("channel", "string"));
        p.push(("instanceId", "string"));
        assert(p@.map_values(|p: (&str, &str)| (p.0@, p.1@)) =~= seq![("channel"@, "string"@), ("instanceId"@, "string"@)]);
        ("detach_instance", "Detach an instance to make it editable", p)
    } else if k == 26 {
        let mut p: Vec<(&'static str, &'static str)> = Vec::new();
        p.push(("channel", "string"));
        p.push(("instanceId", "string"));
        p.push(("newComponentId", "string"));
        assert(p@.map_values(|p: (&str, &str)| (p.0@, p.1@)) =~= seq![("channel"@, "string"@), ("instanceId"@, "string"@), ("newComponentId"@, "string"@)]);
        ("swap_component", "Swap an instance to use a different component", p)
    } else if k == 27 {
        let mut p: Vec<(&'static str, &'static str)> = Vec::new();
        p.push(("channel", "string"));
        p.push(("instanceId", "string"));
        assert(p@.map_values(|p: (&str, &str)| (p.0@, p.1@)) =~= seq![("channel"@, "string"@), ("instanceId"@, "string"@)]);
        ("reset_instance", "Reset all overrides on an instance to match the component", p)
    } else if k == 28 {
        let mut p: Vec<(&'static str, &'static str)> = Vec::new();
        p.push(("channel", "string"));
        p.push(("instanceId", "string"));
        p.push(("propertyName", "string"));
        p.push(("value", "string"));
        assert(p@.map_values(|p: (&str, &str)| (p.0@, p.1@)) =~= seq![("channel"@, "string"@), ("instanceId"@, "string"@), ("propertyName"@, "string"@), ("value"@, "string"@)]);
        ("set_component_property", "Set a variant property on a component instance", p)
    } else if k == 29 {
        let mut p: Vec<(&'static str, &'static str)> = Vec::new();
        p.push(("channel", "string"));
        p.push(("nodeId", "string"));
        p.push(("horizontal", "string"));
        p.push(("vertical", "string"));
        assert(p@.map_values(|p: (&str, &str)| (p.0@, p.1@)) =~= seq![("channel"@, "string"@), ("nodeId"@, "string"@), ("horizontal"@, "string"@), ("vertical"@, "string"@)]);
        ("set_constraints", "Set resize constraints for responsive design", p)
    } else if k == 30 {
        let mut p: Vec<(&'static str, &'static str)> = Vec::new();
        p.push(("channel", "string"));
        p.push(("nodeId", "string"));
        p.push(("grow", "string"));
        p.push(("shrink", "string"));
        assert(p@.map_values(|p: (&str, &str)| (p.0@, p.1@)) =~= seq![("channel"@, "string"@), ("nodeId"@, "string"@), ("grow"@, "string"@), ("shrink"@, "string"@)]);
        ("set_layout_grow", "Set grow and shrink behavior in auto-layout", p)
    } else if k == 31 {
        let mut p: Vec<(&'static str, &'static str)> = Vec::new();
        p.push(("channel", "string"));
        p.push(("nodeId", "string"));
        p.push(("format", "string"));
        p.push(("scale", "string"));
        p.push(("suffix", "string"));
        assert(p@.map_values(|p: (&str, &str)| (p.0@, p.1@)) =~= seq![("channel"@, "string"@), ("nodeId"@, "string"@), ("format"@, "string"@), ("scale"@, "string"@), ("suffix"@, "string"@)]);
        ("export_node", "Export a node as an image or vector file", p)
    } else if k == 32 {
        let mut p: Vec<(&'static str, &'static str)> = Vec::new();
        p.push(("channel", "string"));
        p.push(("format", "string"));
        p.push(("scale", "string"));
        assert(p@.map_values(|p: (&str, &str)| (p.0@, p.1@)) =~= seq![("channel"@, "string"@), ("format"@, "string"@), ("scale"@, "string"@)]);
        ("export_selection", "Export the current selection", p)
    } else if k == 33 {
        let mut p: Vec<(&'static str, &'static str)> = Vec::new();
        p.push(("channel", "string"));
        p.push(("nodeIds", "array"));
        p.push(("parentId", "string"));
        assert(p@.map_values(|p: (&str, &str)| (p.0@, p.1@)) =~= seq![("channel"@, "string"@), ("nodeIds"@, "array"@), ("parentId"@, "string"@)]);
        ("boolean_union", "Merge multiple shapes into one", p)
    } else if k == 34 {
        let mut p: Vec<(&'static str, &'static str)> = Vec::new();
        p.push(("channel", "string"));
        p.push(("nodeIds", "array"));
        p.push(("parentId", "string"));
        assert(p@.map_values(|p: (&str, &str)| (p.0@, p.1@)) =~= seq![("channel"@, "string"@), ("nodeIds"@, "array"@), ("parentId"@, "string"@)]);
        ("boolean_subtract", "Subtract shapes from the first shape", p)
    } else if k == 35 {
        let mut p: Vec<(&'static str, &'static str)> = Vec::new();
        p.push(("channel", "string"));
        p.push(("nodeIds", "array"));
        p.push(("parentId", "string"));
        assert(p@.map_values(|p: (&str, &str)| (p.0@, p.1@)) =~= seq![("channel"@, "string"@), ("nodeIds"@, "array"@), ("parentId"@, "string"@)]);
        ("boolean_intersect", "Keep only the overlapping area of shapes", p)
    } else if k == 36 {
        let mut p: Vec<(&'static str, &'static str)> = Vec::new();
        p.push(("channel", "string"));
        p.push(("nodeIds", "array"));
        p.push(("parentId", "string"));
        assert(p@.map_values(|p: (&str, &str)| (p.0@, p.1@)) =~= seq![("channel"@, "string"@), ("nodeIds"@, "array"@), ("parentId"@, "string"@)]);
        ("boolean_exclude", "Remove the overlapping area of shapes", p)
    } else if k == 37 {
        let mut p: Vec<(&'static str, &'static str)> = Vec::new();
        p.push(("channel", "string"));
        p.push(("nodeIds", "array"));
        assert(p@.map_values(|p: (&str, &str)| (p.0@, p.1@)) =~= seq![("channel"@, "string"@), ("nodeIds"@, "array"@)]);
        ("flatten_selection", "Flatten vector nodes into a single layer", p)
    } else if k == 38 {
        let mut p: Vec<(&'static str, &'static str)> = Vec::new();
        p.push(("channel", "string"));
        p.push(("nodeId", "string"));
        assert(p@.map_values(|p: (&str, &str)| (p.0@, p.1@)) =~= seq![("channel"@, "string"@), ("nodeId"@, "string"@)]);
        ("outline_stroke", "Convert a stroke to a vector outline", p)
    } else if k == 39 {
        let mut p: Vec<(&'static str, &'static str)> = Vec::new();
        p.push(("channel", "string"));
        p.push(("nodeIds", "array"));
        p.push(("name", "string"));
        assert(p@.map_values(|p: (&str, &str)| (p.0@, p.1@)) =~= seq![("channel"@, "string"@), ("nodeIds"@, "array"@), ("name"@, "string"@)]);
        ("group_selection", "Group multiple nodes together", p)
    } else if k == 40 {
        let mut p: Vec<(&'static str, &'static str)> = Vec::new();
        p.push(("channel", "string"));
        p.push(("groupId", "string"));
        assert(p@.map_values(|p: (&str, &str)| (p.0@, p.1@)) =~= seq![("channel"@, "string"@), ("groupId"@, "string"@)]);
        ("ungroup", "Ungroup a group", p)
    } else if k == 41 {
        let mut p: Vec<(&'static str, &'static str)> = Vec::new();
        p.push(("channel", "string"));
        p.push(("nodeIds", "array"));
        p.push(("name", "string"));
        p.push(("padding", "number"));
        assert(p@.map_values(|p: (&str, &str)| (p.0@, p.1@)) =~= seq![("channel"@, "string"@), ("nodeIds"@, "array"@), ("name"@, "string"@), ("padding"@, "number"@)]);
        ("wrap_in_frame", "Wrap nodes in a new frame", p)
    } else if k == 42 {
        let mut p: Vec<(&'static str, &'static str)> = Vec::new();
        p.push(("channel", "string"));
        p.push(("nodeId", "string"));
        assert(p@.map_values(|p: (&str, &str)| (p.0@, p.1@)) =~= seq![("channel"@, "string"@), ("nodeId"@, "string"@)]);
        ("bring_to_front", "Bring node to front of layer stack", p)
    } else if k == 43 {
        let mut p: Vec<(&'static str, &'static str)> = Vec::new();
        p.push(("channel", "string"));
        p.push(("nodeId", "string"));
        assert(p@.map_values(|p: (&str, &str)| (p.0@, p.1@)) =~= seq![("channel"@, "string"@), ("nodeId"@, "string"@)]);
        ("send_to_back", "Send node to back of layer stack", p)
    } else if k == 44 {
        let mut p: Vec<(&'static str, &'static str)> = Vec::new();
        p.push(("channel", "string"));
        p.push(("nodeId", "string"));
        assert(p@.map_values(|p: (&str, &str)| (p.0@, p.1@)) =~= seq![("channel"@, "string"@), ("nodeId"@, "string"@)]);
        ("bring_forward", "Bring node forward one layer", p)
    } else if k == 45 {
        let mut p: Vec<(&'static str, &'static str)> = Vec::new();
        p.push(("channel", "string"));
        p.push(("nodeId", "string"));
        assert(p@.map_values(|p: (&str, &str)| (p.0@, p.1@)) =~= seq![("channel"@, "string"@), ("nodeId"@, "string"@)]);
        ("send_backward", "Send node backward one layer", p)
    } else if k == 46 {
        let mut p: Vec<(&'static str, &'static str)> = Vec::new();
        p.push(("channel", "string"));
        p.push(("nodeId", "string"));
        p.push(("text", "string"));
        assert(p@.map_values(|p: (&str, &str)| (p.0@, p.1@)) =~= seq![("channel"@, "string"@), ("nodeId"@, "string"@), ("text"@, "string"@)]);
        ("set_text_content", "Update the text content of a text node", p)
    } else if k == 47 {
        let mut p: Vec<(&'static str, &'static str)> = Vec::new();
        p.push(("channel", "string"));
        p.push(("nodeId", "string"));
        p.push(("family", "string"));
        p.push(("style", "string"));
        assert(p@.map_values(|p: (&str, &str)| (p.0@, p.1@)) =~= seq![("channel"@, "string"@), ("nodeId"@, "string"@), ("family"@, "string"@), ("style"@, "string"@)]);
        ("set_font", "Change the font family and style", p)
    } else if k == 48 {
        let mut p: Vec<(&'static str, &'static str)> = Vec::new();
        p.push(("channel", "string"));
        p.push(("nodeId", "string"));
        p.push(("fontSize", "number"));
        assert(p@.map_values(|p: (&str, &str)| (p.0@, p.1@)) =~= seq![("channel"@, "string"@), ("nodeId"@, "string"@), ("fontSize"@, "number"@)]);
        ("set_font_size", "Change the font size", p)
    } else if k == 49 {
        let mut p: Vec<(&'static str, &'static str)> = Vec::new();
        p.push(("channel", "string"));
        p.push(("nodeId", "string"));
        p.push(("fontWeight", "number"));
        assert(p@.map_values(|p: (&str, &str)| (p.0@, p.1@)) =~= seq![("channel"@, "string"@), ("nodeId"@, "string"@), ("fontWeight"@, "number"@)]);
        ("set_font_weight", "Change the font weight", p)
    } else if k == 50 {
        let mut p: Vec<(&'static str, &'static str)> = Vec::new();
        p.push(("channel", "string"));
        p.push(("nodeId", "string"));
        p.push(("lineHeight", "number"));
        assert(p@.map_values(|p: (&str, &str)| (p.0@, p.1@)) =~= seq![("channel"@, "string"@), ("nodeId"@, "string"@), ("lineHeight"@, "number"@)]);
        ("set_line_height", "Set the line height/leading", p)
    } else if k == 51 {
        let mut p: Vec<(&'static str, &'static str)> = Vec::new();
        p.push(("channel", "string"));
        p.push(("nodeId", "string"));
        p.push(("letterSpacing", "number"));
        assert(p@.map_values(|p: (&str, &str)| (p.0@, p.1@)) =~= seq![("channel"@, "string"@), ("nodeId"@, "string"@), ("letterSpacing"@, "number"@)]);
        ("set_letter_spacing", "Set the letter spacing (tracking)", p)
    } else if k == 52 {
        let mut p: Vec<(&'static str, &'static str)> = Vec::new();
        p.push(("channel", "string"));
        p.push(("nodeId", "string"));
        p.push(("paragraphSpacing", "number"));
        assert(p@.map_values(|p: (&str, &str)| (p.0@, p.1@)) =~= seq![("channel"@, "string"@), ("nodeId"@, "string"@), ("paragraphSpacing"@, "number"@)]);
        ("set_paragraph_spacing", "Set the spacing between paragraphs", p)
    } else if k == 53 {
        let mut p: Vec<(&'static str, &'static str)> = Vec::new();
        p.push(("channel", "string"));
        p.push(("nodeId", "string"));
        p.push(("horizontal", "string"));
        p.push(("vertical", "string"));
        assert(p@.map_values(|p: (&str, &str)| (p.0@, p.1@)) =~= seq![("channel"@, "string"@), ("nodeId"@, "string"@), ("horizontal"@, "string"@), ("vertical"@, "string"@)]);
        ("set_text_alignment", "Set text alignment (horizontal and/or vertical)", p)
    } else if k == 54 {
        let mut p: Vec<(&'static str, &'static str)> = Vec::new();
        p.push(("channel", "string"));
        p.push(("nodeId", "string"));
        p.push(("decoration", "string"));
        assert(p@.map_values(|p: (&str, &str)| (p.0@, p.1@)) =~= seq![("channel"@, "string"@), ("nodeId"@, "string"@), ("decoration"@, "string"@)]);
        ("set_text_decoration", "Set text decoration (underline, strikethrough)", p)
    } else if k == 55 {
        let mut p: Vec<(&'static str, &'static str)> = Vec::new();
        p.push(("channel", "string"));
        p.push(("nodeId", "string"));
        p.push(("textCase", "string"));
        assert(p@.map_values(|p: (&str, &str)| (p.0@, p.1@)) =~= seq![("channel"@, "string"@), ("nodeId"@, "string"@), ("textCase"@, "string"@)]);
        ("set_text_case", "Set text case transformation", p)
    } else if k == 56 {
        let mut p: Vec<(&'static str, &'static str)> = Vec::new();
        p.push(("channel", "string"));
        p.push(("nodeId", "string"));
        p.push(("autoResize", "string"));
        assert(p@.map_values(|p: (&str, &str)| (p.0@, p.1@)) =~= seq![("channel"@, "string"@), ("nodeId"@, "string"@), ("autoResize"@, "string"@)]);
        ("set_text_auto_resize", "Set text auto resize behavior", p)
    } else if k == 57 {
        let mut p: Vec<(&'static str, &'static str)> = Vec::new();
        p.push(("channel", "string"));
        p.push(("nodeId", "string"));
        p.push(("url", "string"));
        p.push(("start", "string"));
        p.push(("end", "string"));
        assert(p@.map_values(|p: (&str, &str)| (p.0@, p.1@)) =~= seq![("channel"@, "string"@), ("nodeId"@, "string"@), ("url"@, "string"@), ("start"@, "string"@), ("end"@, "string"@)]);
        ("set_text_hyperlink", "Add a hyperlink to text or a range of text", p)
    } else if k == 58 {
        let mut p: Vec<(&'static str, &'static str)> = Vec::new();
        p.push(("channel", "string"));
        p.push(("familyContains", "string"));
        p.push(("styleContains", "string"));
        p.push(("limit", "string"));
        assert(p@.map_values(|p: (&str, &str)| (p.0@, p.1@)) =~= seq![("channel"@, "string"@), ("familyContains"@, "string"@), ("styleContains"@, "string"@), ("limit"@, "string"@)]);
        ("get_font_list", "Get list of available fonts in the document. Returns a summarized preview instead of dumping the full font catalog into the MCP response.", p)
    } else if k == 59 {
        let mut p: Vec<(&'static str, &'static str)> = Vec::new();
        p.push(("channel", "string"));
        p.push(("name", "string"));
        p.push(("path", "string"));
        p.push(("x", "number"));
        p.push(("y", "number"));
        p.push(("parentId", "string"));
        assert(p@.map_values(|p: (&str, &str)| (p.0@, p.1@)) =~= seq![("channel"@, "string"@), ("name"@, "string"@), ("path"@, "string"@), ("x"@, "number"@), ("y"@, "number"@), ("parentId"@, "string"@)]);
        ("create_vector", "Create a custom vector shape from SVG path data", p)
    } else if k == 60 {
        let mut p: Vec<(&'static str, &'static str)> = Vec::new();
        p.push(("channel", "string"));
        p.push(("name", "string"));
        p.push(("x", "number"));
        p.push(("y", "number"));
        p.push(("radius", "number"));
        p.push(("sides", "string"));
        p.push(("parentId", "string"));
        assert(p@.map_values(|p: (&str, &str)| (p.0@, p.1@)) =~= seq![("channel"@, "string"@), ("name"@, "string"@), ("x"@, "number"@), ("y"@, "number"@), ("radius"@, "number"@), ("sides"@, "string"@), ("parentId"@, "string"@)]);
        ("create_polygon", "Create a polygon with N sides", p)
    } else if k == 61 {
        let mut p: Vec<(&'static str, &'static str)> = Vec::new();
        p.push(("channel", "string"));
        p.push(("name", "string"));
        p.push(("x", "number"));
        p.push(("y", "number"));
        p.push(("outerRadius", "string"));
        p.push(("innerRadius", "string"));
        p.push(("points", "string"));
        p.push(("parentId", "string"));
        assert(p@.map_values(|p: (&str, &str)| (p.0@, p.1@)) =~= seq![("channel"@, "string"@), ("name"@, "string"@), ("x"@, "number"@), ("y"@, "number"@), ("outerRadius"@, "string"@), ("innerRadius"@, "string"@), ("points"@, "string"@), ("parentId"@, "string"@)]);
        ("create_star", "Create a star shape", p)
    } else if k == 62 {
        let mut p: Vec<(&'static str, &'static str)> = Vec::new();
        p.push(("channel", "string"));
        p.push(("name", "string"));
        p.push(("x1", "string"));
        p.push(("y1", "string"));
        p.push(("x2", "string"));
        p.push(("y2", "string"));
        p.push(("arrowHead", "string"));
        p.push(("parentId", "string"));
        assert(p@.map_values(|p: (&str, &str)| (p.0@, p.1@)) =~= seq![("channel"@, "string"@), ("name"@, "string"@), ("x1"@, "string"@), ("y1"@, "string"@), ("x2"@, "string"@), ("y2"@, "string"@), ("arrowHead"@, "string"@), ("parentId"@, "string"@)]);
        ("create_arrow", "Create an arrow line with arrowhead", p)
    } else if k == 63 {
        let mut p: Vec<(&'static str, &'static str)> = Vec::new();
        p.push(("channel", "string"));
        p.push(("name", "string"));
        p.push(("x", "number"));
        p.push(("y", "number"));
        p.push(("width", "number"));
        p.push(("height", "number"));
        p.push(("color", "object"));
        assert(p@.map_values(|p: (&str, &str)| (p.0@, p.1@)) =~= seq![("channel"@, "string"@), ("name"@, "string"@), ("x"@, "number"@), ("y"@, "number"@), ("width"@, "number"@), ("height"@, "number"@), ("color"@, "object"@)]);
        ("create_section", "Create a section container (for organizing designs)", p)
    } else if k == 64 {
        let mut p: Vec<(&'static str, &'static str)> = Vec::new();
        p.push(("channel", "string"));
        p.push(("nodeId", "string"));
        p.push(("type", "string"));
        p.push(("stops", "string"));
        p.push(("angle", "string"));
        assert(p@.map_values(|p: (&str, &str)| (p.0@, p.1@)) =~= seq![("channel"@, "string"@), ("nodeId"@, "string"@), ("type"@, "string"@), ("stops"@, "string"@), ("angle"@, "string"@)]);
        ("set_gradient_fill", "Apply a gradient fill to a node", p)
    } else if k == 65 {
        let mut p: Vec<(&'static str, &'static str)> = Vec::new();
        p.push(("channel", "string"));
        p.push(("nodeId", "string"));
        assert(p@.map_values(|p: (&str, &str)| (p.0@, p.1@)) =~= seq![("channel"@, "string"@), ("nodeId"@, "string"@)]);
        ("remove_fill", "Remove all fills from a node", p)
    } else if k == 66 {
        let mut p: Vec<(&'static str, &'static str)> = Vec::new();
        p.push(("channel", "string"));
        p.push(("nodeId", "string"));
        assert(p@.map_values(|p: (&str, &str)| (p.0@, p.1@)) =~= seq![("channel"@, "string"@), ("nodeId"@, "string"@)]);
        ("remove_stroke", "Remove all strokes from a node", p)
    } else if k == 67 {
        let mut p: Vec<(&'static str, &'static str)> = Vec::new();
        p.push(("channel", "string"));
        p.push(("nodeId", "string"));
        assert(p@.map_values(|p: (&str, &str)| (p.0@, p.1@)) =~= seq![("channel"@, "string"@), ("nodeId"@, "string"@)]);
        ("remove_effects", "Remove all effects from a node", p)
    } else if k == 68 {
        let mut p: Vec<(&'static str, &'static str)> = Vec::new();
        p.push(("channel", "string"));
        p.push(("sourceNodeId", "string"));
        p.push(("targetNodeIds", "array"));
        assert(p@.map_values(|p: (&str, &str)| (p.0@, p.1@)) =~= seq![("channel"@, "string"@), ("sourceNodeId"@, "string"@), ("targetNodeIds"@, "array"@)]);
        ("copy_paste_style", "Copy styles from one node to another", p)
    } else if k == 69 {
        let mut p: Vec<(&'static str, &'static str)> = Vec::new();
        p.push(("channel", "string"));
        p.push(("sourceFrameId", "string"));
        p.push(("targetFrameId", "string"));
        p.push(("trigger", "string"));
        p.push(("transition", "string"));
        p.push(("duration", "string"));
        assert(p@.map_values(|p: (&str, &str)| (p.0@, p.1@)) =~= seq![("channel"@, "string"@), ("sourceFrameId"@, "string"@), ("targetFrameId"@, "string"@), ("trigger"@, "string"@), ("transition"@, "string"@), ("duration"@, "string"@)]);
        ("create_prototype_link", "Create an interaction link between frames", p)
    } else if k == 70 {
        let mut p: Vec<(&'static str, &'static str)> = Vec::new();
        p.push(("channel", "string"));
        p.push(("nodeId", "string"));
        p.push(("confirm", "boolean"));
        p.push(("dryRun", "boolean"));
        p.push(("reason", "string"));
        assert(p@.map_values(|p: (&str, &str)| (p.0@, p.1@)) =~= seq![("channel"@, "string"@), ("nodeId"@, "string"@), ("confirm"@, "boolean"@), ("dryRun"@, "boolean"@), ("reason"@, "string"@)]);
        ("remove_prototype_link", "Remove prototype interaction from a node. Requires MCP server startup with --allow-destructive-tools and confirm=true", p)
    } else if k == 71 {
        let mut p: Vec<(&'static str, &'static str)> = Vec::new();
        p.push(("channel", "string"));
        p.push(("frameId", "string"));
        p.push(("flowName", "string"));
        assert(p@.map_values(|p: (&str, &str)| (p.0@, p.1@)) =~= seq![("channel"@, "string"@), ("frameId"@, "string"@), ("flowName"@, "string"@)]);
        ("set_prototype_start", "Set a frame as the prototype starting point", p)
    } else if k == 72 {
        let mut p: Vec<(&'static str, &'static str)> = Vec::new();
        p.push(("channel", "string"));
        p.push(("frameId", "string"));
        p.push(("direction", "string"));
        assert(p@.map_values(|p: (&str, &str)| (p.0@, p.1@)) =~= seq![("channel"@, "string"@), ("frameId"@, "string"@), ("direction"@, "string"@)]);
        ("set_scroll_behavior", "Set scroll behavior for a frame", p)
    } else if k == 73 {
        let mut p: Vec<(&'static str, &'static str)> = Vec::new();
        p.push(("channel", "string"));
        p.push(("nodeId", "string"));
        p.push(("clip", "string"));
        assert(p@.map_values(|p: (&str, &str)| (p.0@, p.1@)) =~= seq![("channel"@, "string"@), ("nodeId"@, "string"@), ("clip"@, "string"@)]);
        ("set_clip_content", "Set whether a frame clips content outside its bounds", p)
    } else if k == 74 {
        let mut p: Vec<(&'static str, &'static str)> = Vec::new();
        p.push(("channel", "string"));
        p.push(("name", "string"));
        p.push(("type", "string"));
        p.push(("value", "string"));
        p.push(("collectionId", "string"));
        assert(p@.map_values(|p: (&str, &str)| (p.0@, p.1@)) =~= seq![("channel"@, "string"@), ("name"@, "string"@), ("type"@, "string"@), ("value"@, "string"@), ("collectionId"@, "string"@)]);
        ("create_variable", "Create a new design variable", p)
    } else if k == 75 {
        let mut p: Vec<(&'static str, &'static str)> = Vec::new();
        p.push(("channel", "string"));
        p.push(("variableId", "string"));
        p.push(("value", "string"));
        assert(p@.map_values(|p: (&str, &str)| (p.0@, p.1@)) =~= seq![("channel"@, "string"@), ("variableId"@, "string"@), ("value"@, "string"@)]);
        ("set_variable_value", "Update a variable's value", p)
    } else if k == 76 {
        let mut p: Vec<(&'static str, &'static str)> = Vec::new();
        p.push(("channel", "string"));
        p.push(("nodeId", "string"));
        p.push(("variableId", "string"));
        p.push(("property", "string"));
        assert(p@.map_values(|p: (&str, &str)| (p.0@, p.1@)) =~= seq![("channel"@, "string"@), ("nodeId"@, "string"@), ("variableId"@, "string"@), ("property"@, "string"@)]);
        ("apply_variable", "Apply a variable to a node property", p)
    } else if k == 77 {
        let mut p: Vec<(&'static str, &'static str)> = Vec::new();
        p.push(("channel", "string"));
        p.push(("libraryId", "string"));
        assert(p@.map_values(|p: (&str, &str)| (p.0@, p.1@)) =~= seq![("channel"@, "string"@), ("libraryId"@, "string"@)]);
        ("enable_library", "Enable a library for the current file", p)
    } else if k == 78 {
        let mut p: Vec<(&'static str, &'static str)> = Vec::new();
        p.push(("channel", "string"));
        p.push(("libraryId", "string"));
        assert(p@.map_values(|p: (&str, &str)| (p.0@, p.1@)) =~= seq![("channel"@, "string"@), ("libraryId"@, "string"@)]);
        ("disable_library", "Disable a library for the current file", p)
    } else if k == 79 {
        let mut p: Vec<(&'static str, &'static str)> = Vec::new();
        p.push(("channel", "string"));
        p.push(("libraryId", "string"));
        p.push(("componentKey", "string"));
        p.push(("x", "number"));
        p.push(("y", "number"));
        assert(p@.map_values(|p: (&str, &str)| (p.0@, p.1@)) =~= seq![("channel"@, "string"@), ("libraryId"@, "string"@), ("componentKey"@, "string"@), ("x"@, "number"@), ("y"@, "number"@)]);
        ("import_component_from_library", "Import a component from a team library", p)
    } else if k == 80 {
        let mut p: Vec<(&'static str, &'static str)> = Vec::new();
        p.push(("channel", "string"));
        p.push(("name", "string"));
        p.push(("index", "string"));
        assert(p@.map_values(|p: (&str, &str)| (p.0@, p.1@)) =~= seq![("channel"@, "string"@), ("name"@, "string"@), ("index"@, "string"@)]);
        ("create_page", "Create a new page", p)
    } else if k == 81 {
        let mut p: Vec<(&'static str, &'static str)> = Vec::new();
        p.push(("channel", "string"));
        p.push(("pageId", "string"));
        p.push(("confirm", "boolean"));
        p.push(("dryRun", "boolean"));
        p.push(("reason", "string"));
        assert(p@.map_values(|p: (&str, &str)| (p.0@, p.1@)) =~= seq![("channel"@, "string"@), ("pageId"@, "string"@), ("confirm"@, "boolean"@), ("dryRun"@, "boolean"@), ("reason"@, "string"@)]);
        ("delete_page", "Delete a page. Requires MCP server startup with --allow-destructive-tools and confirm=true", p)
    } else if k == 82 {
        let mut p: Vec<(&'static str, &'static str)> = Vec::new();
        p.push(("channel", "string"));
        p.push(("pageId", "string"));
        p.push(("name", "string"));
        assert(p@.map_values(|p: (&str, &str)| (p.0@, p.1@)) =~= seq![("channel"@, "string"@), ("pageId"@, "string"@), ("name"@, "string"@)]);
        ("rename_page", "Rename a page", p)
    } else if k == 83 {
        let mut p: Vec<(&'static str, &'static str)> = Vec::new();
        p.push(("channel", "string"));
        p.push(("pageId", "string"));
        assert(p@.map_values(|p: (&str, &str)| (p.0@, p.1@)) =~= seq![("channel"@, "string"@), ("pageId"@, "string"@)]);
        ("duplicate_page", "Duplicate a page", p)
    } else if k == 84 {
        let mut p: Vec<(&'static str, &'static str)> = Vec::new();
        p.push(("channel", "string"));
        p.push(("pageId", "string"));
        assert(p@.map_values(|p: (&str, &str)| (p.0@, p.1@)) =~= seq![("channel"@, "string"@), ("pageId"@, "string"@)]);
        ("set_current_page", "Switch to a specific page", p)
    } else if k == 85 {
        let mut p: Vec<(&'static str, &'static str)> = Vec::new();
        p.push(("channel", "string"));
        p.push(("pageId", "string"));
        p.push(("color", "object"));
        assert(p@.map_values(|p: (&str, &str)| (p.0@, p.1@)) =~= seq![("channel"@, "string"@), ("pageId"@, "string"@), ("color"@, "object"@)]);
        ("set_page_background", "Set page background color", p)
    } else if k == 86 {
        let mut p: Vec<(&'static str, &'static str)> = Vec::new();
        p.push(("channel", "string"));
        p.push(("x", "number"));
        p.push(("y", "number"));
        p.push(("message", "string"));
        p.push(("parentId", "string"));
        assert(p@.map_values(|p: (&str, &str)| (p.0@, p.1@)) =~= seq![("channel"@, "string"@), ("x"@, "number"@), ("y"@, "number"@), ("message"@, "string"@), ("parentId"@, "string"@)]);
        ("create_comment", "Add a comment to the canvas", p)
    } else if k == 87 {
        let mut p: Vec<(&'static str, &'static str)> = Vec::new();
        p.push(("channel", "string"));
        p.push(("pageId", "string"));
        assert(p@.map_values(|p: (&str, &str)| (p.0@, p.1@)) =~= seq![("channel"@, "string"@), ("pageId"@, "string"@)]);
        ("get_comments", "Get all comments on a page", p)
    } else if k == 88 {
        let mut p: Vec<(&'static str, &'static str)> = Vec::new();
        p.push(("channel", "string"));
        p.push(("commentId", "string"));
        assert(p@.map_values(|p: (&str, &str)| (p.0@, p.1@)) =~= seq![("channel"@, "string"@), ("commentId"@, "string"@)]);
        ("resolve_comment", "Mark a comment as resolved", p)
    } else if k == 89 {
        let mut p: Vec<(&'static str, &'static str)> = Vec::new();
        p.push(("channel", "string"));
        p.push(("commentId", "string"));
        p.push(("confirm", "boolean"));
        p.push(("dryRun", "boolean"));
        p.push(("reason", "string"));
        assert(p@.map_values(|p: (&str, &str)| (p.0@, p.1@)) =~= seq![("channel"@, "string"@), ("commentId"@, "string"@), ("confirm"@, "boolean"@), ("dryRun"@, "boolean"@), ("reason"@, "string"@)]);
        ("delete_comment", "Delete a comment. Requires MCP server startup with --allow-destructive-tools and confirm=true", p)
    } else if k == 90 {
        let mut p: Vec<(&'static str, &'static str)> = Vec::new();
        p.push(("channel", "string"));
        p.push(("type", "string"));
        assert(p@.map_values(|p: (&str, &str)| (p.0@, p.1@)) =~= seq![("channel"@, "string"@), ("type"@, "string"@)]);
        ("select_all", "Select all nodes on the current page", p)
    } else if k == 91 {
        let mut p: Vec<(&'static str, &'static str)> = Vec::new();
        p.push(("channel", "string"));
        p.push(("type", "string"));
        assert(p@.map_values(|p: (&str, &str)| (p.0@, p.1@)) =~= seq![("channel"@, "string"@), ("type"@, "string"@)]);
        ("select_by_type", "Select all nodes of a specific type", p)
    } else if k == 92 {
        let mut p: Vec<(&'static str, &'static str)> = Vec::new();
        p.push(("channel", "string"));
        p.push(("nodeId", "string"));
        assert(p@.map_values(|p: (&str, &str)| (p.0@, p.1@)) =~= seq![("channel"@, "string"@), ("nodeId"@, "string"@)]);
        ("get_parent_chain", "Get the parent hierarchy of a node", p)
    } else if k == 93 {
        let mut p: Vec<(&'static str, &'static str)> = Vec::new();
        p.push(("channel", "string"));
        p.push(("nodeId", "string"));
        assert(p@.map_values(|p: (&str, &str)| (p.0@, p.1@)) =~= seq![("channel"@, "string"@), ("nodeId"@, "string"@)]);
        ("get_siblings", "Get sibling nodes", p)
    } else if k == 94 {
        let mut p: Vec<(&'static str, &'static str)> = Vec::new();
        p.push(("channel", "string"));
        p.push(("nodeId", "string"));
        assert(p@.map_values(|p: (&str, &str)| (p.0@, p.1@)) =~= seq![("channel"@, "string"@), ("nodeId"@, "string"@)]);
        ("is_node_visible", "Check if a node is visible in the viewport", p)
    } else if k == 95 {
        let mut p: Vec<(&'static str, &'static str)> = Vec::new();
        p.push(("channel", "string"));
        p.push(("nodeIds", "array"));
        p.push(("count", "string"));
        p.push(("offsetX", "string"));
        p.push(("offsetY", "string"));
        assert(p@.map_values(|p: (&str, &str)| (p.0@, p.1@)) =~= seq![("channel"@, "string"@), ("nodeIds"@, "array"@), ("count"@, "string"@), ("offsetX"@, "string"@), ("offsetY"@, "string"@)]);
        ("duplicate_nodes", "Duplicate multiple nodes", p)
    } else if k == 96 {
        let mut p: Vec<(&'static str, &'static str)> = Vec::new();
        p.push(("channel", "string"));
        p.push(("confirm", "boolean"));
        p.push(("dryRun", "boolean"));
        p.push(("reason", "string"));
        assert(p@.map_values(|p: (&str, &str)| (p.0@, p.1@)) =~= seq![("channel"@, "string"@), ("confirm"@, "boolean"@), ("dryRun"@, "boolean"@), ("reason"@, "string"@)]);
        ("delete_selection", "Delete all selected nodes. Requires MCP server startup with --allow-destructive-tools and confirm=true", p)
    } else if k == 97 {
        let mut p: Vec<(&'static str, &'static str)> = Vec::new();
        p.push(("channel", "string"));
        p.push(("alignment", "string"));
        assert(p@.map_values(|p: (&str, &str)| (p.0@, p.1@)) =~= seq![("channel"@, "string"@), ("alignment"@, "string"@)]);
        ("align_selection", "Align selected nodes", p)
    } else if k == 98 {
        let mut p: Vec<(&'static str, &'static str)> = Vec::new();
        p.push(("channel", "string"));
        p.push(("direction", "string"));
        p.push(("spacing", "string"));
        assert(p@.map_values(|p: (&str, &str)| (p.0@, p.1@)) =~= seq![("channel"@, "string"@), ("direction"@, "string"@), ("spacing"@, "string"@)]);
        ("distribute_selection", "Distribute selected nodes evenly", p)
    } else if k == 99 {
        let mut p: Vec<(&'static str, &'static str)> = Vec::new();
        p.push(("channel", "string"));
        p.push(("nodeId", "string"));
        p.push(("padding", "number"));
        assert(p@.map_values(|p: (&str, &str)| (p.0@, p.1@)) =~= seq![("channel"@, "string"@), ("nodeId"@, "string"@), ("padding"@, "number"@)]);
        ("resize_to_fit", "Resize a frame to fit its content", p)
    } else if k == 100 {
        let mut p: Vec<(&'static str, &'static str)> = Vec::new();
        p.push(("channel", "string"));
        p.push(("scale", "string"));
        assert(p@.map_values(|p: (&str, &str)| (p.0@, p.1@)) =~= seq![("channel"@, "string"@), ("scale"@, "string"@)]);
        ("scale_selection", "Scale selected nodes by a factor", p)
    } else if k == 101 {
        let mut p: Vec<(&'static str, &'static str)> = Vec::new();
        p.push(("channel", "string"));
        assert(p@.map_values(|p: (&str, &str)| (p.0@, p.1@)) =~= seq![("channel"@, "string"@)]);
        ("get_local_components", "Get all local components in the document", p)
    } else if k == 102 {
        let mut p: Vec<(&'static str, &'static str)> = Vec::new();
        p.push(("channel", "string"));
        assert(p@.map_values(|p: (&str, &str)| (p.0@, p.1@)) =~= seq![("channel"@, "string"@)]);
        ("get_prototype_flows", "Get all prototype flows in the document", p)
    } else if k == 103 {
        let mut p: Vec<(&'static str, &'static str)> = Vec::new();
        p.push(("channel", "string"));
        assert(p@.map_values(|p: (&str, &str)| (p.0@, p.1@)) =~= seq![("channel"@, "string"@)]);
        ("get_variables", "Get all design variables in the document", p)
    } else if k == 104 {
        let mut p: Vec<(&'static str, &'static str)> = Vec::new();
        p.push(("channel", "string"));
        assert(p@.map_values(|p: (&str, &str)| (p.0@, p.1@)) =~= seq![("channel"@, "string"@)]);
        ("get_variable_collections", "Get all variable collections", p)
    } else if k == 105 {
        let mut p: Vec<(&'static str, &'static str)> = Vec::new();
        p.push(("channel", "string"));
        assert(p@.map_values(|p: (&str, &str)| (p.0@, p.1@)) =~= seq![("channel"@, "string"@)]);
        ("get_team_libraries", "Get available team libraries", p)
    } else {
        let mut p: Vec<(&'static str, &'static str)> = Vec::new();
        p.push(("channel", "string"));
        assert(p@.map_values(|p: (&str, &str)| (p.0@, p.1@)) =~= seq![("channel"@, "string"@)]);
        ("invert_selection", "Invert the current selection", p)
    }
}

/// The description of a legacy tool, where the table has one.
pub fn get_tool_description(tool: &str) -> (r: Option<ToolDescription>)
    ensures
        r is Some <==> spec_has_description(tool@),
        r matches Some(d) ==> d.name@ == tool@ && exists|k: int| #[trigger] first_described_at(tool@, k)
            && d.description@ == spec_description_text_at(k)
            && d.input_schema.model() == legacy_schema(spec_props_at(k)),
{
    let mut k: usize = 0;
    while k < 107
        invariant
            k <= 107,
            forall|j: int| 0 <= j < k ==> spec_described_name_at(j) != tool@,
        decreases 107 - k,
    {
        let (name, description, props) = description_entry(k);
        if str_eq(name, tool) {
            let ghost pm = props@.map_values(|p: (&str, &str)| (p.0@, p.1@));
            let d = describe(tool, description, props);
            assert(d.input_schema.model() == legacy_schema(pm));
            assert(first_described_at(tool@, k as int));
            return Some(d);
        }
        k = k + 1;
    }
    None
}

/// The outcome of checking arguments against a legacy description: the
/// message of the first problem found.
pub open spec fn spec_validate_legacy_args(schema: Json, args: Seq<(Seq<char>, Json)>) -> Result<(), Seq<char>> {
    match spec_check_args(schema, args, true, false) {
        None => Ok(()),
        Some(ArgProblemModel::Missing(f)) => Err("Missing required argument: "@ + f),
        Some(ArgProblemModel::Unexpected(n)) => Err("Unexpected argument: "@ + n),
        Some(ArgProblemModel::WrongType(n, e)) => Err("Invalid argument type for "@ + n + ": expected "@ + e),
    }
}

/// Checks arguments against a legacy description's input schema: required
/// fields (all but `channel`) first, then the declared types of the
/// arguments it lists; unlisted arguments are let through.
pub fn validate_args_against_schema(desc: &ToolDescription, args: &Vec<(String, JsonValue)>) -> (r: Result<(), String>)
    ensures
        match r {
            Ok(()) => spec_validate_legacy_args(desc.input_schema.model(), members_model(args@)) is Ok,
            Err(m) => spec_validate_legacy_args(desc.input_schema.model(), members_model(args@)) == Err::<(), Seq<char>>(m@),
        },
{
    match check_args(&desc.input_schema, args, true, false) {
        Ok(()) => Ok(()),
        Err(ArgProblem::Missing(f)) => Err(concat2("Missing required argument: ", f.as_str())),
        Err(ArgProblem::Unexpected(n)) => Err(concat2("Unexpected argument: ", n.as_str())),
        Err(ArgProblem::WrongType(n, e)) => {
            let mut m = concat3("Invalid argument type for ", n.as_str(), ": expected ");
            m.append(e.as_str());
            Err(m)
        },
    }
}

/// Every listed legacy tool has a description.
pub proof fn law_every_tool_has_a_description()
    ensures
        forall|i: int| 0 <= i < spec_tool_names().len() ==> spec_has_description(#[trigger] spec_tool_names()[i]),
{
    assert forall|i: int| 0 <= i < spec_tool_names().len() implies spec_has_description(#[trigger] spec_tool_names()[i]) by {
        assert(spec_tool_names()[i] == spec_tool_name_at(i));
        if i == 0 {
            assert(spec_described_name_at(0) == spec_tool_name_at(i));
        } else if i == 1 {
            assert(spec_described_name_at(1) == spec_tool_name_at(i));
        } else if i == 2 {
            assert(spec_described_name_at(2) == spec_tool_name_at(i));
        } else if i == 3 {
            assert(spec_described_name_at(3) == spec_tool_name_at(i));
        } else if i == 4 {
            assert(spec_described_name_at(4) == spec_tool_name_at(i));
        } else if i == 5 {
            assert(spec_described_name_at(5) == spec_tool_name_at(i));
        } else if i == 6 {
            assert(spec_described_name_at(6) == spec_tool_name_at(i));
        } else if i == 7 {
            assert(spec_described_name_at(7) == spec_tool_name_at(i));
        } else if i == 8 {
            assert(spec_described_name_at(8) == spec_tool_name_at(i));
        } else if i == 9 {
            assert(spec_described_name_at(9) == spec_tool_name_at(i));
        } else if i == 10 {
            assert(spec_described_name_at(10) == spec_tool_name_at(i));
        } else if i == 11 {
            assert(spec_described_name_at(11) == spec_tool_name_at(i));
        } else if i == 12 {
            assert(spec_described_name_at(12) == spec_tool_name_at(i));
        } else if i == 13 {
            assert(spec_described_name_at(13) == spec_tool_name_at(i));
        } else if i == 14 {
            assert(spec_described_name_at(14) == spec_tool_name_at(i));
        } else if i == 15 {
            assert(spec_described_name_at(15) == spec_tool_name_at(i));
        } else if i == 16 {
            assert(spec_described_name_at(16) == spec_tool_name_at(i));
        } else if i == 17 {
            assert(spec_described_name_at(17) == spec_tool_name_at(i));
        } else if i == 18 {
            assert(spec_described_name_at(18) == spec_tool_name_at(i));
        } else if i == 19 {
            assert(spec_described_name_at(19) == spec_tool_name_at(i));
        } else if i == 20 {
            assert(spec_described_name_at(20) == spec_tool_name_at(i));
        } else if i == 21 {
            assert(spec_described_name_at(21) == spec_tool_name_at(i));
        } else if i == 22 {
            assert(spec_described_name_at(22) == spec_tool_name_at(i));
        } else if i == 23 {
            assert(spec_described_name_at(23) == spec_tool_name_at(i));
        } else if i == 24 {
            assert(spec_described_name_at(24) == spec_tool_name_at(i));
        } else if i == 25 {
            assert(spec_described_name_at(25) == spec_tool_name_at(i));
        } else if i == 26 {
            assert(spec_described_name_at(26) == spec_tool_name_at(i));
        } else if i == 27 {
            assert(spec_described_name_at(101) == spec_tool_name_at(i));
        } else if i == 28 {
            assert(spec_described_name_at(27) == spec_tool_name_at(i));
        } else if i == 29 {
            assert(spec_described_name_at(28) == spec_tool_name_at(i));
        } else if i == 30 {
            assert(spec_described_name_at(29) == spec_tool_name_at(i));
        } else if i == 31 {
            assert(spec_described_name_at(30) == spec_tool_name_at(i));
        } else if i == 32 {
            assert(spec_described_name_at(31) == spec_tool_name_at(i));
        } else if i == 33 {
            assert(spec_described_name_at(32) == spec_tool_name_at(i));
        } else if i == 34 {
            assert(spec_described_name_at(33) == spec_tool_name_at(i));
        } else if i == 35 {
            assert(spec_described_name_at(34) == spec_tool_name_at(i));
        } else if i == 36 {
            assert(spec_described_name_at(35) == spec_tool_name_at(i));
        } else if i == 37 {
            assert(spec_described_name_at(36) == spec_tool_name_at(i));
        } else if i == 38 {
            assert(spec_described_name_at(37) == spec_tool_name_at(i));
        } else if i == 39 {
            assert(spec_described_name_at(38) == spec_tool_name_at(i));
        } else if i == 40 {
            assert(spec_described_name_at(39) == spec_tool_name_at(i));
        } else if i == 41 {
            assert(spec_described_name_at(40) == spec_tool_name_at(i));
        } else if i == 42 {
            assert(spec_described_name_at(41) == spec_tool_name_at(i));
        } else if i == 43 {
            assert(spec_described_name_at(42) == spec_tool_name_at(i));
        } else if i == 44 {
            assert(spec_described_name_at(43) == spec_tool_name_at(i));
        } else if i == 45 {
            assert(spec_described_name_at(44) == spec_tool_name_at(i));
        } else if i == 46 {
            assert(spec_described_name_at(45) == spec_tool_name_at(i));
        } else if i == 47 {
            assert(spec_described_name_at(46) == spec_tool_name_at(i));
        } else if i == 48 {
            assert(spec_described_name_at(47) == spec_tool_name_at(i));
        } else if i == 49 {
            assert(spec_described_name_at(48) == spec_tool_name_at(i));
        } else if i == 50 {
            assert(spec_described_name_at(49) == spec_tool_name_at(i));
        } else if i == 51 {
            assert(spec_described_name_at(50) == spec_tool_name_at(i));
        } else if i == 52 {
            assert(spec_described_name_at(51) == spec_tool_name_at(i));
        } else if i == 53 {
            assert(spec_described_name_at(52) == spec_tool_name_at(i));
        } else if i == 54 {
            assert(spec_described_name_at(53) == spec_tool_name_at(i));
        } else if i == 55 {
            assert(spec_described_name_at(54) == spec_tool_name_at(i));
        } else if i == 56 {
            assert(spec_described_name_at(55) == spec_tool_name_at(i));
        } else if i == 57 {
            assert(spec_described_name_at(56) == spec_tool_name_at(i));
        } else if i == 58 {
            assert(spec_described_name_at(57) == spec_tool_name_at(i));
        } else if i == 59 {
            assert(spec_described_name_at(58) == spec_tool_name_at(i));
        } else if i == 60 {
            assert(spec_described_name_at(59) == spec_tool_name_at(i));
        } else if i == 61 {
            assert(spec_described_name_at(60) == spec_tool_name_at(i));
        } else if i == 62 {
            assert(spec_described_name_at(61) == spec_tool_name_at(i));
        } else if i == 63 {
            assert(spec_described_name_at(62) == spec_tool_name_at(i));
        } else if i == 64 {
            assert(spec_described_name_at(63) == spec_tool_name_at(i));
        } else if i == 65 {
            assert(spec_described_name_at(64) == spec_tool_name_at(i));
        } else if i == 66 {
            assert(spec_described_name_at(65) == spec_tool_name_at(i));
        } else if i == 67 {
            assert(spec_described_name_at(66) == spec_tool_name_at(i));
        } else if i == 68 {
            assert(spec_described_name_at(67) == spec_tool_name_at(i));
        } else if i == 69 {
            assert(spec_described_name_at(68) == spec_tool_name_at(i));
        } else if i == 70 {
            assert(spec_described_name_at(69) == spec_tool_name_at(i));
        } else if i == 71 {
            assert(spec_described_name_at(70) == spec_tool_name_at(i));
        } else if i == 72 {
            assert(spec_described_name_at(71) == spec_tool_name_at(i));
        } else if i == 73 {
            assert(spec_described_name_at(102) == spec_tool_name_at(i));
        } else if i == 74 {
            assert(spec_described_name_at(72) == spec_tool_name_at(i));
        } else if i == 75 {
            assert(spec_described_name_at(73) == spec_tool_name_at(i));
        } else if i == 76 {
            assert(spec_described_name_at(103) == spec_tool_name_at(i));
        } else if i == 77 {
            assert(spec_described_name_at(104) == spec_tool_name_at(i));
        } else if i == 78 {
            assert(spec_described_name_at(74) == spec_tool_name_at(i));
        } else if i == 79 {
            assert(spec_described_name_at(75) == spec_tool_name_at(i));
        } else if i == 80 {
            assert(spec_described_name_at(76) == spec_tool_name_at(i));
        } else if i == 81 {
            assert(spec_described_name_at(105) == spec_tool_name_at(i));
        } else if i == 82 {
            assert(spec_described_name_at(77) == spec_tool_name_at(i));
        } else if i == 83 {
            assert(spec_described_name_at(78) == spec_tool_name_at(i));
        } else if i == 84 {
            assert(spec_described_name_at(79) == spec_tool_name_at(i));
        } else if i == 85 {
            assert(spec_described_name_at(80) == spec_tool_name_at(i));
        } else if i == 86 {
            assert(spec_described_name_at(81) == spec_tool_name_at(i));
        } else if i == 87 {
            assert(spec_described_name_at(82) == spec_tool_name_at(i));
        } else if i == 88 {
            assert(spec_described_name_at(83) == spec_tool_name_at(i));
        } else if i == 89 {
            assert(spec_described_name_at(84) == spec_tool_name_at(i));
        } else if i == 90 {
            assert(spec_described_name_at(85) == spec_tool_name_at(i));
        } else if i == 91 {
            assert(spec_described_name_at(86) == spec_tool_name_at(i));
        } else if i == 92 {
            assert(spec_described_name_at(87) == spec_tool_name_at(i));
        } else if i == 93 {
            assert(spec_described_name_at(88) == spec_tool_name_at(i));
        } else if i == 94 {
            assert(spec_described_name_at(89) == spec_tool_name_at(i));
        } else if i == 95 {
            assert(spec_described_name_at(90) == spec_tool_name_at(i));
        } else if i == 96 {
            assert(spec_described_name_at(91) == spec_tool_name_at(i));
        } else if i == 97 {
            assert(spec_described_name_at(106) == spec_tool_name_at(i));
        } else if i == 98 {
            assert(spec_described_name_at(92) == spec_tool_name_at(i));
        } else if i == 99 {
            assert(spec_described_name_at(93) == spec_tool_name_at(i));
        } else if i == 100 {
            assert(spec_described_name_at(94) == spec_tool_name_at(i));
        } else if i == 101 {
            assert(spec_described_name_at(95) == spec_tool_name_at(i));
        } else if i == 102 {
            assert(spec_described_name_at(96) == spec_tool_name_at(i));
        } else if i == 103 {
            assert(spec_described_name_at(97) == spec_tool_name_at(i));
        } else if i == 104 {
            assert(spec_described_name_at(98) == spec_tool_name_at(i));
        } else if i == 105 {
            assert(spec_described_name_at(99) == spec_tool_name_at(i));
        } else if i == 106 {
            assert(spec_described_name_at(100) == spec_tool_name_at(i));
        }
    }
}

/// Every described legacy tool is listed.
proof fn lemma_described_is_listed(k: int)
    requires
        0 <= k < 107,
    ensures
        spec_tool_names().contains(spec_described_name_at(k)),
{
    if k == 0 {
        assert(spec_tool_names()[0] == spec_described_name_at(k));
    } else if k == 1 {
        assert(spec_tool_names()[1] == spec_described_name_at(k));
    } else if k == 2 {
        assert(spec_tool_names()[2] == spec_described_name_at(k));
    } else if k == 3 {
        assert(spec_tool_names()[3] == spec_described_name_at(k));
    } else if k == 4 {
        assert(spec_tool_names()[4] == spec_described_name_at(k));
    } else if k == 5 {
        assert(spec_tool_names()[5] == spec_described_name_at(k));
    } else if k == 6 {
        assert(spec_tool_names()[6] == spec_described_name_at(k));
    } else if k == 7 {
        assert(spec_tool_names()[7] == spec_described_name_at(k));
    } else if k == 8 {
        assert(spec_tool_names()[8] == spec_described_name_at(k));
    } else if k == 9 {
        assert(spec_tool_names()[9] == spec_described_name_at(k));
    } else if k == 10 {
        assert(spec_tool_names()[10] == spec_described_name_at(k));
    } else if k == 11 {
        assert(spec_tool_names()[11] == spec_described_name_at(k));
    } else if k == 12 {
        assert(spec_tool_names()[12] == spec_described_name_at(k));
    } else if k == 13 {
        assert(spec_tool_names()[13] == spec_described_name_at(k));
    } else if k == 14 {
        assert(spec_tool_names()[14] == spec_described_name_at(k));
    } else if k == 15 {
        assert(spec_tool_names()[15] == spec_described_name_at(k));
    } else if k == 16 {
        assert(spec_tool_names()[16] == spec_described_name_at(k));
    } else if k == 17 {
        assert(spec_tool_names()[17] == spec_described_name_at(k));
    } else if k == 18 {
        assert(spec_tool_names()[18] == spec_described_name_at(k));
    } else if k == 19 {
        assert(spec_tool_names()[19] == spec_described_name_at(k));
    } else if k == 20 {
        assert(spec_tool_names()[20] == spec_described_name_at(k));
    } else if k == 21 {
        assert(spec_tool_names()[21] == spec_described_name_at(k));
    } else if k == 22 {
        assert(spec_tool_names()[22] == spec_described_name_at(k));
    } else if k == 23 {
        assert(spec_tool_names()[23] == spec_described_name_at(k));
    } else if k == 24 {
        assert(spec_tool_names()[24] == spec_described_name_at(k));
    } else if k == 25 {
        assert(spec_tool_names()[25] == spec_described_name_at(k));
    } else if k == 26 {
        assert(spec_tool_names()[26] == spec_described_name_at(k));
    } else if k == 27 {
        assert(spec_tool_names()[28] == spec_described_name_at(k));
    } else if k == 28 {
        assert(spec_tool_names()[29] == spec_described_name_at(k));
    } else if k == 29 {
        assert(spec_tool_names()[30] == spec_described_name_at(k));
    } else if k == 30 {
        assert(spec_tool_names()[31] == spec_described_name_at(k));
    } else if k == 31 {
        assert(spec_tool_names()[32] == spec_described_name_at(k));
    } else if k == 32 {
        assert(spec_tool_names()[33] == spec_described_name_at(k));
    } else if k == 33 {
        assert(spec_tool_names()[34] == spec_described_name_at(k));
    } else if k == 34 {
        assert(spec_tool_names()[35] == spec_described_name_at(k));
    } else if k == 35 {
        assert(spec_tool_names()[36] == spec_described_name_at(k));
    } else if k == 36 {
        assert(spec_tool_names()[37] == spec_described_name_at(k));
    } else if k == 37 {
        assert(spec_tool_names()[38] == spec_described_name_at(k));
    } else if k == 38 {
        assert(spec_tool_names()[39] == spec_described_name_at(k));
    } else if k == 39 {
        assert(spec_tool_names()[40] == spec_described_name_at(k));
    } else if k == 40 {
        assert(spec_tool_names()[41] == spec_described_name_at(k));
    } else if k == 41 {
        assert(spec_tool_names()[42] == spec_described_name_at(k));
    } else if k == 42 {
        assert(spec_tool_names()[43] == spec_described_name_at(k));
    } else if k == 43 {
        assert(spec_tool_names()[44] == spec_described_name_at(k));
    } else if k == 44 {
        assert(spec_tool_names()[45] == spec_described_name_at(k));
    } else if k == 45 {
        assert(spec_tool_names()[46] == spec_described_name_at(k));
    } else if k == 46 {
        assert(spec_tool_names()[47] == spec_described_name_at(k));
    } else if k == 47 {
        assert(spec_tool_names()[48] == spec_described_name_at(k));
    } else if k == 48 {
        assert(spec_tool_names()[49] == spec_described_name_at(k));
    } else if k == 49 {
        assert(spec_tool_names()[50] == spec_described_name_at(k));
    } else if k == 50 {
        assert(spec_tool_names()[51] == spec_described_name_at(k));
    } else if k == 51 {
        assert(spec_tool_names()[52] == spec_described_name_at(k));
    } else if k == 52 {
        assert(spec_tool_names()[53] == spec_described_name_at(k));
    } else if k == 53 {
        assert(spec_tool_names()[54] == spec_described_name_at(k));
    } else if k == 54 {
        assert(spec_tool_names()[55] == spec_described_name_at(k));
    } else if k == 55 {
        assert(spec_tool_names()[56] == spec_described_name_at(k));
    } else if k == 56 {
        assert(spec_tool_names()[57] == spec_described_name_at(k));
    } else if k == 57 {
        assert(spec_tool_names()[58] == spec_described_name_at(k));
    } else if k == 58 {
        assert(spec_tool_names()[59] == spec_described_name_at(k));
    } else if k == 59 {
        assert(spec_tool_names()[60] == spec_described_name_at(k));
    } else if k == 60 {
        assert(spec_tool_names()[61] == spec_described_name_at(k));
    } else if k == 61 {
        assert(spec_tool_names()[62] == spec_described_name_at(k));
    } else if k == 62 {
        assert(spec_tool_names()[63] == spec_described_name_at(k));
    } else if k == 63 {
        assert(spec_tool_names()[64] == spec_described_name_at(k));
    } else if k == 64 {
        assert(spec_tool_names()[65] == spec_described_name_at(k));
    } else if k == 65 {
        assert(spec_tool_names()[66] == spec_described_name_at(k));
    } else if k == 66 {
        assert(spec_tool_names()[67] == spec_described_name_at(k));
    } else if k == 67 {
        assert(spec_tool_names()[68] == spec_described_name_at(k));
    } else if k == 68 {
        assert(spec_tool_names()[69] == spec_described_name_at(k));
    } else if k == 69 {
        assert(spec_tool_names()[70] == spec_described_name_at(k));
    } else if k == 70 {
        assert(spec_tool_names()[71] == spec_described_name_at(k));
    } else if k == 71 {
        assert(spec_tool_names()[72] == spec_described_name_at(k));
    } else if k == 72 {
        assert(spec_tool_names()[74] == spec_described_name_at(k));
    } else if k == 73 {
        assert(spec_tool_names()[75] == spec_described_name_at(k));
    } else if k == 74 {
        assert(spec_tool_names()[78] == spec_described_name_at(k));
    } else if k == 75 {
        assert(spec_tool_names()[79] == spec_described_name_at(k));
    } else if k == 76 {
        assert(spec_tool_names()[80] == spec_described_name_at(k));
    } else if k == 77 {
        assert(spec_tool_names()[82] == spec_described_name_at(k));
    } else if k == 78 {
        assert(spec_tool_names()[83] == spec_described_name_at(k));
    } else if k == 79 {
        assert(spec_tool_names()[84] == spec_described_name_at(k));
    } else if k == 80 {
        assert(spec_tool_names()[85] == spec_described_name_at(k));
    } else if k == 81 {
        assert(spec_tool_names()[86] == spec_described_name_at(k));
    } else if k == 82 {
        assert(spec_tool_names()[87] == spec_described_name_at(k));
    } else if k == 83 {
        assert(spec_tool_names()[88] == spec_described_name_at(k));
    } else if k == 84 {
        assert(spec_tool_names()[89] == spec_described_name_at(k));
    } else if k == 85 {
        assert(spec_tool_names()[90] == spec_described_name_at(k));
    } else if k == 86 {
        assert(spec_tool_names()[91] == spec_described_name_at(k));
    } else if k == 87 {
        assert(spec_tool_names()[92] == spec_described_name_at(k));
    } else if k == 88 {
        assert(spec_tool_names()[93] == spec_described_name_at(k));
    } else if k == 89 {
        assert(spec_tool_names()[94] == spec_described_name_at(k));
    } else if k == 90 {
        assert(spec_tool_names()[95] == spec_described_name_at(k));
    } else if k == 91 {
        assert(spec_tool_names()[96] == spec_described_name_at(k));
    } else if k == 92 {
        assert(spec_tool_names()[98] == spec_described_name_at(k));
    } else if k == 93 {
        assert(spec_tool_names()[99] == spec_described_name_at(k));
    } else if k == 94 {
        assert(spec_tool_names()[100] == spec_described_name_at(k));
    } else if k == 95 {
        assert(spec_tool_names()[101] == spec_described_name_at(k));
    } else if k == 96 {
        assert(spec_tool_names()[102] == spec_described_name_at(k));
    } else if k == 97 {
        assert(spec_tool_names()[103] == spec_described_name_at(k));
    } else if k == 98 {
        assert(spec_tool_names()[104] == spec_described_name_at(k));
    } else if k == 99 {
        assert(spec_tool_names()[105] == spec_described_name_at(k));
    } else if k == 100 {
        assert(spec_tool_names()[106] == spec_described_name_at(k));
    } else if k == 101 {
        assert(spec_tool_names()[27] == spec_described_name_at(k));
    } else if k == 102 {
        assert(spec_tool_names()[73] == spec_described_name_at(k));
    } else if k == 103 {
        assert(spec_tool_names()[76] == spec_described_name_at(k));
    } else if k == 104 {
        assert(spec_tool_names()[77] == spec_described_name_at(k));
    } else if k == 105 {
        assert(spec_tool_names()[81] == spec_described_name_at(k));
    } else if k == 106 {
        assert(spec_tool_names()[97] == spec_described_name_at(k));
    }
}

/// Every entry of the description table lists `channel` first, as a string.
proof fn lemma_props_start_with_channel(k: int)
    requires
        0 <= k < 107,
    ensures
        spec_props_at(k).len() >= 1,
        spec_props_at(k)[0] == ("channel"@, "string"@),
{
}

/// The property members follow the `(name, kind)` pairs one for one.
proof fn lemma_legacy_props_index(props: Seq<(Seq<char>, Seq<char>)>, i: int)
    requires
        0 <= i < props.len(),
    ensures
        legacy_props(props).len() == props.len(),
        legacy_props(props)[i] == (props[i].0, legacy_prop_schema(props[i].1)),
    decreases props.len(),
{
    lemma_legacy_props_len(props);
    if i < props.len() - 1 {
        lemma_legacy_props_index(props.drop_last(), i);
        assert(props.drop_last()[i] == props[i]);
    }
}

/// There is one property member per `(name, kind)` pair.
proof fn lemma_legacy_props_len(props: Seq<(Seq<char>, Seq<char>)>)
    ensures
        legacy_props(props).len() == props.len(),
    decreases props.len(),
{
    if props.len() > 0 {
        lemma_legacy_props_len(props.drop_last());
    }
}

/// The schema of a string property: `{"type": "string"}`.
pub open spec fn string_prop_schema() -> Json {
    Json::Object(no_members().push(("type"@, Json::Str("string"@))))
}

/// An object schema whose `channel` property is a string.
pub open spec fn has_string_channel(schema: Json) -> bool {
    &&& schema.get("type"@) == Some(Json::Str("object"@))
    &&& schema.get("properties"@) matches Some(props) && props.get("channel"@) == Some(string_prop_schema())
}

/// A legacy tool has a description exactly when it is listed, and every
/// description's input schema is an object schema with a string `channel`
/// property.
pub proof fn law_described_tools_are_the_listed_ones(tool: Seq<char>)
    ensures
        spec_has_description(tool) <==> spec_tool_names().contains(tool),
        forall|k: int| #[trigger] first_described_at(tool, k) ==> has_string_channel(legacy_schema(spec_props_at(k))),
{
    if spec_has_description(tool) {
        let k = choose|k: int| 0 <= k < 107 && #[trigger] spec_described_name_at(k) == tool;
        lemma_described_is_listed(k);
    }
    if spec_tool_names().contains(tool) {
        let i = choose|i: int| 0 <= i < spec_tool_names().len() && spec_tool_names()[i] == tool;
        law_every_tool_has_a_description();
        assert(spec_has_description(spec_tool_names()[i]));
    }
    assert forall|k: int| #[trigger] first_described_at(tool, k) implies has_string_channel(legacy_schema(spec_props_at(k))) by {
        let p = spec_props_at(k);
        lemma_props_start_with_channel(k);
        lemma_legacy_props_index(p, 0);
        reveal_strlit("string");
        reveal_strlit("array");
        reveal_strlit("type");
        reveal_strlit("properties");
        assert("string"@.len() == 6 && "array"@.len() == 5);
        assert("string"@ != "array"@);
        assert(legacy_prop_schema("string"@) == string_prop_schema());
        lemma_member_at(legacy_props(p), "channel"@, 0);
        let outer = no_members().push(("type"@, Json::Str("object"@))).push(("properties"@, Json::Object(legacy_props(p))));
        lemma_member_at(outer, "type"@, 0);
        assert(outer[0].0 == "type"@);
        assert("type"@.len() == 4 && "properties"@.len() == 10);
        assert(outer[0].0 != "properties"@);
        lemma_member_at(outer, "properties"@, 1);
    }
}

} // verus!
