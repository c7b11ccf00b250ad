use vstd::prelude::*;
use vstd::string::*;

use crate::text::{chars_of, push_char, str_eq};

verus! {

/// The provider's canonical tool names, in the order discovery lists them.
pub open spec fn spec_canonical_tool_names() -> Seq<Seq<char>> {
    seq![
        "figma.get_document"@,
        "figma.get_page"@,
        "figma.get_selection"@,
        "figma.get_node"@,
        "figma.create_frame"@,
        "figma.create_text"@,
        "figma.set_fill"@,
        "figma.move_node"@,
        "figma.delete_node"@,
    ]
}

/// The legacy runtime name that stands behind each canonical name.
pub open spec fn spec_legacy_name(canonical: Seq<char>) -> Seq<char> {
    if canonical == "figma.get_document"@ { "get_document_info"@ }
    else if canonical == "figma.get_page"@ { "get_page_info"@ }
    else if canonical == "figma.get_selection"@ { "get_selection"@ }
    else if canonical == "figma.get_node"@ { "get_node_info"@ }
    else if canonical == "figma.create_frame"@ { "create_frame"@ }
    else if canonical == "figma.create_text"@ { "create_text"@ }
    else if canonical == "figma.set_fill"@ { "set_fill"@ }
    else if canonical == "figma.move_node"@ { "move_node"@ }
    else if canonical == "figma.delete_node"@ { "delete_node"@ }
    else { canonical }
}

/// The canonical tool that an external name (canonical or legacy) stands for.
pub open spec fn spec_resolve_tool(name: Seq<char>) -> Option<Seq<char>> {
    if name == "figma.get_document"@ || name == "get_document_info"@ { Some("figma.get_document"@) }
    else if name == "figma.get_page"@ || name == "get_page_info"@ { Some("figma.get_page"@) }
    else if name == "figma.get_selection"@ || name == "get_selection"@ { Some("figma.get_selection"@) }
    else if name == "figma.get_node"@ || name == "get_node_info"@ { Some("figma.get_node"@) }
    else if name == "figma.create_frame"@ || name == "create_frame"@ { Some("figma.create_frame"@) }
    else if name == "figma.create_text"@ || name == "create_text"@ { Some("figma.create_text"@) }
    else if name == "figma.set_fill"@ || name == "set_fill"@ { Some("figma.set_fill"@) }
    else if name == "figma.move_node"@ || name == "move_node"@ { Some("figma.move_node"@) }
    else if name == "figma.delete_node"@ || name == "delete_node"@ { Some("figma.delete_node"@) }
    else { None }
}

/// The canonical tool names.
pub fn canonical_tool_names() -> (r: &'static [&'static str])
    ensures
        r@.map_values(|s: &str| s@) == spec_canonical_tool_names(),
{
    let r: &'static [&'static str] = &[
        "figma.get_document",
        "figma.get_page",
        "figma.get_selection",
        "figma.get_node",
        "figma.create_frame",
        "figma.create_text",
        "figma.set_fill",
        "figma.move_node",
        "figma.delete_node",
    ];
    assert(r@.map_values(|s: &str| s@) =~= spec_canonical_tool_names());
    r
}

/// The canonical tool behind an external tool name, which may be canonical
/// (`figma.get_node`) or legacy (`get_node_info`).
pub fn resolve_external_tool_name(name: &str) -> (r: Option<&'static str>)
    ensures
        match r {
            Some(c) => spec_resolve_tool(name@) == Some(c@),
            None => spec_resolve_tool(name@) is None,
        },
{
    if str_eq(name, "figma.get_document") || str_eq(name, "get_document_info") {
        Some("figma.get_document")
    } else if str_eq(name, "figma.get_page") || str_eq(name, "get_page_info") {
        Some("figma.get_page")
    } else if str_eq(name, "figma.get_selection") || str_eq(name, "get_selection") {
        Some("figma.get_selection")
    } else if str_eq(name, "figma.get_node") || str_eq(name, "get_node_info") {
        Some("figma.get_node")
    } else if str_eq(name, "figma.create_frame") || str_eq(name, "create_frame") {
        Some("figma.create_frame")
    } else if str_eq(name, "figma.create_text") || str_eq(name, "create_text") {
        Some("figma.create_text")
    } else if str_eq(name, "figma.set_fill") || str_eq(name, "set_fill") {
        Some("figma.set_fill")
    } else if str_eq(name, "figma.move_node") || str_eq(name, "move_node") {
        Some("figma.move_node")
    } else if str_eq(name, "figma.delete_node") || str_eq(name, "delete_node") {
        Some("figma.delete_node")
    } else {
        None
    }
}

/// The legacy runtime name of a canonical tool; any other name is returned
/// unchanged.
pub fn canonical_to_legacy_tool<'a>(name: &'a str) -> (r: &'a str)
    ensures
        r@ == spec_legacy_name(name@),
{
    if str_eq(name, "figma.get_document") {
        "get_document_info"
    } else if str_eq(name, "figma.get_page") {
        "get_page_info"
    } else if str_eq(name, "figma.get_selection") {
        "get_selection"
    } else if str_eq(name, "figma.get_node") {
        "get_node_info"
    } else if str_eq(name, "figma.create_frame") {
        "create_frame"
    } else if str_eq(name, "figma.create_text") {
        "create_text"
    } else if str_eq(name, "figma.set_fill") {
        "set_fill"
    } else if str_eq(name, "figma.move_node") {
        "move_node"
    } else if str_eq(name, "figma.delete_node") {
        "delete_node"
    } else {
        name
    }
}

/// What `char::to_uppercase` yields for `c`.
pub uninterp spec fn char_uppercase(c: char) -> Seq<char>;

/// The upper-case letter of an ASCII lower-case letter; any other character
/// is returned unchanged.
pub open spec fn ascii_upper(c: char) -> char {
    if 'a' <= c <= 'z' {
        ((c as u32) - 32) as char
    } else {
        c
    }
}

/// The upper-case mapping of a character: `char::to_uppercase`, collected.
/// Its result is named `char_uppercase`; for an ASCII character the
/// documentation gives the single ASCII upper-case character. The mapping
/// of other characters is not stated.
#[verifier::external_body]
fn uppercase_of(c: char) -> (r: String)
    ensures
        r@ == char_uppercase(c),
        (c as u32) < 128 ==> r@ == seq![ascii_upper(c)],
{
    c.to_uppercase().collect()
}

/// The upper-case form of a character: the ASCII upper-case letter for an
/// ASCII character, what `char::to_uppercase` yields otherwise.
pub open spec fn upper_seq(c: char) -> Seq<char> {
    if (c as u32) < 128 {
        seq![ascii_upper(c)]
    } else {
        char_uppercase(c)
    }
}

/// `s` read from snake case into camel case: each `_` is dropped and the
/// character after it upper-cased; `upper_next` says that the first
/// character follows an underscore.
pub open spec fn camel_from(s: Seq<char>, upper_next: bool) -> Seq<char>
    decreases s.len(),
{
    if s.len() == 0 {
        Seq::empty()
    } else if s[0] == '_' {
        camel_from(s.drop_first(), true)
    } else if upper_next {
        upper_seq(s[0]) + camel_from(s.drop_first(), false)
    } else {
        seq![s[0]] + camel_from(s.drop_first(), false)
    }
}

/// Snake case to camel case: `create_frame` becomes `createFrame`.
pub fn snake_to_camel(value: &str) -> (r: String)
    ensures
        r@ == camel_from(value@, false),
{
    let chars = chars_of(value);
    let mut out = String::new();
    let mut uppercase_next = false;
    let mut i: usize = 0;
    assert(value@.subrange(0, value@.len() as int) =~= value@);
    assert(out@ + camel_from(value@, false) =~= camel_from(value@, false));
    while i < chars.len()
        invariant
            chars@ == value@,
            i <= chars@.len(),
            out@ + camel_from(value@.subrange(i as int, value@.len() as int), uppercase_next)
                == camel_from(value@, false),
        decreases chars@.len() - i,
    {
        let ch = chars[i];
        let ghost rest = value@.subrange(i as int, value@.len() as int);
        assert(rest.drop_first() =~= value@.subrange(i + 1, value@.len() as int));
        if ch == '_' {
            uppercase_next = true;
        } else if uppercase_next {
            let up = uppercase_of(ch);
            out.append(up.as_str());
            uppercase_next = false;
            assert(out@ + camel_from(value@.subrange(i + 1, value@.len() as int), false)
                =~= camel_from(value@, false));
        } else {
            push_char(&mut out, ch);
            assert(out@ + camel_from(value@.subrange(i + 1, value@.len() as int), false)
                =~= camel_from(value@, false));
        }
        i = i + 1;
    }
    assert(value@.subrange(i as int, value@.len() as int) =~= Seq::<char>::empty());
    assert(out@ + Seq::<char>::empty() =~= out@);
    out
}

/// Every character that follows an underscore is ASCII.
pub open spec fn ascii_after_underscores(s: Seq<char>) -> bool {
    forall|i: int| 0 < i < s.len() && s[i - 1] == '_' ==> (#[trigger] s[i] as u32) < 128
}

/// Text without an underscore reads the same in camel case.
proof fn lemma_camel_keeps_plain(s: Seq<char>)
    requires
        !s.contains('_'),
    ensures
        camel_from(s, false) == s,
    decreases s.len(),
{
    if s.len() > 0 {
        assert(s[0] != '_');
        assert(!s.drop_first().contains('_')) by {
            if s.drop_first().contains('_') {
                let k = choose|k: int| 0 <= k < s.drop_first().len() && s.drop_first()[k] == '_';
                assert(s[k + 1] == '_');
            }
        }
        lemma_camel_keeps_plain(s.drop_first());
        assert(seq![s[0]] + s.drop_first() =~= s);
    }
}

/// Camel case leaves no underscore where each upper-cased character is ASCII.
proof fn lemma_camel_has_no_underscore(s: Seq<char>, upper_next: bool)
    requires
        ascii_after_underscores(s),
        upper_next && s.len() > 0 ==> s[0] == '_' || (s[0] as u32) < 128,
    ensures
        !camel_from(s, upper_next).contains('_'),
    decreases s.len(),
{
    if s.len() > 0 {
        let rest = s.drop_first();
        assert(ascii_after_underscores(rest)) by {
            assert forall|i: int| 0 < i < rest.len() && rest[i - 1] == '_' implies (#[trigger] rest[i] as u32) < 128 by {
                assert(rest[i] == s[i + 1] && rest[i - 1] == s[i]);
            }
        }
        let head: Seq<char> = if s[0] == '_' {
            Seq::empty()
        } else if upper_next {
            upper_seq(s[0])
        } else {
            seq![s[0]]
        };
        if s[0] == '_' {
            if rest.len() > 0 {
                assert(rest[0] == s[1]);
            }
            lemma_camel_has_no_underscore(rest, true);
        } else {
            lemma_camel_has_no_underscore(rest, false);
            if upper_next {
                let c = s[0];
                assert(upper_seq(c) == seq![ascii_upper(c)]);
                assert(ascii_upper(c) != '_');
                assert(camel_from(s, upper_next) == upper_seq(c) + camel_from(rest, false));
            } else {
                assert(camel_from(s, upper_next) == seq![s[0]] + camel_from(rest, false));
            }
            let r = camel_from(s, upper_next);
            let t = camel_from(rest, false);
            assert(head.len() == 1 && head[0] != '_');
            assert(r == head + t);
            if r.contains('_') {
                let k = choose|k: int| 0 <= k < r.len() && r[k] == '_';
                if k >= 1 {
                    assert(t[k - 1] == r[k]);
                }
            }
        }
    }
}

/// Camel case drops every underscore, keeps text without one as it is, and
/// so changes nothing when applied again; stated for text whose upper-cased
/// characters (those right after an underscore) are ASCII.
pub proof fn law_camel_case_is_idempotent(value: Seq<char>)
    ensures
        !value.contains('_') ==> camel_from(value, false) == value,
        ascii_after_underscores(value) ==> !camel_from(value, false).contains('_'),
        ascii_after_underscores(value) ==> camel_from(camel_from(value, false), false) == camel_from(value, false),
{
    if !value.contains('_') {
        lemma_camel_keeps_plain(value);
    }
    if ascii_after_underscores(value) {
        lemma_camel_has_no_underscore(value, false);
        lemma_camel_keeps_plain(camel_from(value, false));
    }
}

/// A word without an underscore, not to be upper-cased, is kept as it is.
proof fn lemma_camel_word(w: Seq<char>, rest: Seq<char>)
    requires
        !w.contains('_'),
    ensures
        camel_from(w + rest, false) == w + camel_from(rest, false),
    decreases w.len(),
{
    if w.len() > 0 {
        assert(w[0] != '_');
        assert(!w.drop_first().contains('_')) by {
            if w.drop_first().contains('_') {
                let k = choose|k: int| 0 <= k < w.drop_first().len() && w.drop_first()[k] == '_';
                assert(w[k + 1] == '_');
            }
        }
        assert((w + rest).drop_first() =~= w.drop_first() + rest);
        assert((w + rest)[0] == w[0]);
        lemma_camel_word(w.drop_first(), rest);
        assert(seq![w[0]] + (w.drop_first() + camel_from(rest, false)) =~= w + camel_from(rest, false));
    } else {
        assert(w + rest =~= rest);
        assert(w + camel_from(rest, false) =~= camel_from(rest, false));
    }
}

/// An underscore followed by a word of ASCII letters: the underscore is
/// dropped and the word's first letter upper-cased.
proof fn lemma_camel_after_underscore(w: Seq<char>, rest: Seq<char>)
    requires
        w.len() > 0,
        !w.contains('_'),
        (w[0] as u32) < 128,
    ensures
        camel_from(seq!['_'] + w + rest, false) == seq![ascii_upper(w[0])] + w.drop_first() + camel_from(rest, false),
{
    let t = seq!['_'] + w + rest;
    assert(t[0] == '_');
    assert(t.drop_first() =~= w + rest);
    assert(camel_from(t, false) == camel_from(w + rest, true));
    assert((w + rest)[0] == w[0]);
    assert(w[0] != '_') by {
        if w[0] == '_' {
            assert(w.contains('_'));
        }
    }
    assert((w + rest).drop_first() =~= w.drop_first() + rest);
    assert(camel_from(w + rest, true) == upper_seq(w[0]) + camel_from(w.drop_first() + rest, false));
    assert(upper_seq(w[0]) == seq![ascii_upper(w[0])]);
    assert(!w.drop_first().contains('_')) by {
        if w.drop_first().contains('_') {
            let k = choose|k: int| 0 <= k < w.drop_first().len() && w.drop_first()[k] == '_';
            assert(w[k + 1] == '_');
        }
    }
    lemma_camel_word(w.drop_first(), rest);
    assert(seq![ascii_upper(w[0])] + (w.drop_first() + camel_from(rest, false))
        =~= seq![ascii_upper(w[0])] + w.drop_first() + camel_from(rest, false));
}

/// The command that the plugin answers to for each canonical tool.
pub proof fn law_plugin_commands_of_canonical_tools()
    ensures
        spec_plugin_command(spec_legacy_name("figma.get_document"@)) == "getDocumentInfo"@,
        spec_plugin_command(spec_legacy_name("figma.get_page"@)) == "getPageInfo"@,
        spec_plugin_command(spec_legacy_name("figma.get_selection"@)) == "getSelection"@,
        spec_plugin_command(spec_legacy_name("figma.get_node"@)) == "getNode"@,
        spec_plugin_command(spec_legacy_name("figma.create_frame"@)) == "createFrame"@,
        spec_plugin_command(spec_legacy_name("figma.create_text"@)) == "createText"@,
        spec_plugin_command(spec_legacy_name("figma.set_fill"@)) == "setFill"@,
        spec_plugin_command(spec_legacy_name("figma.move_node"@)) == "moveNode"@,
        spec_plugin_command(spec_legacy_name("figma.delete_node"@)) == "deleteNode"@,
{
    lemma_tool_names_distinct();
    reveal_strlit("set_font");
    reveal_strlit("get_node_info");
    assert(spec_plugin_command(spec_legacy_name("figma.get_document"@)) == "getDocumentInfo"@) by {
        assert(spec_legacy_name("figma.get_document"@) == "get_document_info"@);
        reveal_strlit("get_document_info");
        reveal_strlit("getDocumentInfo");
        reveal_strlit("document");
        reveal_strlit("get");
        reveal_strlit("info");
        assert("get_document_info"@ =~= "get"@ + (seq!['_'] + "document"@ + (seq!['_'] + "info"@ + Seq::<char>::empty())));
        assert("get_document_info"@ != "get_node_info"@);
        assert("get_document_info"@ != "set_font"@);
        lemma_camel_word("get"@, (seq!['_'] + "document"@ + (seq!['_'] + "info"@ + Seq::<char>::empty())));
        lemma_camel_after_underscore("document"@, (seq!['_'] + "info"@ + Seq::<char>::empty()));
        assert(ascii_upper('d') == 'D');
        lemma_camel_after_underscore("info"@, Seq::<char>::empty());
        assert(ascii_upper('i') == 'I');
        assert(camel_from("get_document_info"@, false) =~= "getDocumentInfo"@);
    }
    assert(spec_plugin_command(spec_legacy_name("figma.get_page"@)) == "getPageInfo"@) by {
        assert(spec_legacy_name("figma.get_page"@) == "get_page_info"@);
        reveal_strlit("get_page_info");
        reveal_strlit("getPageInfo");
        reveal_strlit("get");
        reveal_strlit("info");
        reveal_strlit("page");
        assert("get_page_info"@ =~= "get"@ + (seq!['_'] + "page"@ + (seq!['_'] + "info"@ + Seq::<char>::empty())));
        assert("get_page_info"@ != "get_node_info"@);
        assert("get_page_info"@ != "set_font"@);
        assert("get_page_info"@[4] != "get_node_info"@[4]);
        lemma_camel_word("get"@, (seq!['_'] + "page"@ + (seq!['_'] + "info"@ + Seq::<char>::empty())));
        lemma_camel_after_underscore("page"@, (seq!['_'] + "info"@ + Seq::<char>::empty()));
        assert(ascii_upper('p') == 'P');
        lemma_camel_after_underscore("info"@, Seq::<char>::empty());
        assert(ascii_upper('i') == 'I');
        assert(camel_from("get_page_info"@, false) =~= "getPageInfo"@);
    }
    assert(spec_plugin_command(spec_legacy_name("figma.get_selection"@)) == "getSelection"@) by {
        assert(spec_legacy_name("figma.get_selection"@) == "get_selection"@);
        reveal_strlit("get_selection");
        reveal_strlit("getSelection");
        reveal_strlit("get");
        reveal_strlit("selection");
        assert("get_selection"@ =~= "get"@ + (seq!['_'] + "selection"@ + Seq::<char>::empty()));
        assert("get_selection"@ != "get_node_info"@);
        assert("get_selection"@ != "set_font"@);
        assert("get_selection"@[4] != "get_node_info"@[4]);
        lemma_camel_word("get"@, (seq!['_'] + "selection"@ + Seq::<char>::empty()));
        lemma_camel_after_underscore("selection"@, Seq::<char>::empty());
        assert(ascii_upper('s') == 'S');
        assert(camel_from("get_selection"@, false) =~= "getSelection"@);
    }
    assert(spec_plugin_command(spec_legacy_name("figma.get_node"@)) == "getNode"@) by {
        assert(spec_legacy_name("figma.get_node"@) == "get_node_info"@);
        reveal_strlit("get_node_info");
        reveal_strlit("getNode");
        assert(spec_plugin_command("get_node_info"@) == "getNode"@);
    }
    assert(spec_plugin_command(spec_legacy_name("figma.create_frame"@)) == "createFrame"@) by {
        assert(spec_legacy_name("figma.create_frame"@) == "create_frame"@);
        reveal_strlit("create_frame");
        reveal_strlit("createFrame");
        reveal_strlit("create");
        reveal_strlit("frame");
        assert("create_frame"@ =~= "create"@ + (seq!['_'] + "frame"@ + Seq::<char>::empty()));
        assert("create_frame"@ != "get_node_info"@);
        assert("create_frame"@ != "set_font"@);
        lemma_camel_word("create"@, (seq!['_'] + "frame"@ + Seq::<char>::empty()));
        lemma_camel_after_underscore("frame"@, Seq::<char>::empty());
        assert(ascii_upper('f') == 'F');
        assert(camel_from("create_frame"@, false) =~= "createFrame"@);
    }
    assert(spec_plugin_command(spec_legacy_name("figma.create_text"@)) == "createText"@) by {
        assert(spec_legacy_name("figma.create_text"@) == "create_text"@);
        reveal_strlit("create_text");
        reveal_strlit("createText");
        reveal_strlit("create");
        reveal_strlit("text");
        assert("create_text"@ =~= "create"@ + (seq!['_'] + "text"@ + Seq::<char>::empty()));
        assert("create_text"@ != "get_node_info"@);
        assert("create_text"@ != "set_font"@);
        lemma_camel_word("create"@, (seq!['_'] + "text"@ + Seq::<char>::empty()));
        lemma_camel_after_underscore("text"@, Seq::<char>::empty());
        assert(ascii_upper('t') == 'T');
        assert(camel_from("create_text"@, false) =~= "createText"@);
    }
    assert(spec_plugin_command(spec_legacy_name("figma.set_fill"@)) == "setFill"@) by {
        assert(spec_legacy_name("figma.set_fill"@) == "set_fill"@);
        reveal_strlit("set_fill");
        reveal_strlit("setFill");
        reveal_strlit("fill");
        reveal_strlit("set");
        assert("set_fill"@ =~= "set"@ + (seq!['_'] + "fill"@ + Seq::<char>::empty()));
        assert("set_fill"@ != "get_node_info"@);
        assert("set_fill"@ != "set_font"@) by { assert("set_fill"@[5] != "set_font"@[5]); }
        lemma_camel_word("set"@, (seq!['_'] + "fill"@ + Seq::<char>::empty()));
        lemma_camel_after_underscore("fill"@, Seq::<char>::empty());
        assert(ascii_upper('f') == 'F');
        assert(camel_from("set_fill"@, false) =~= "setFill"@);
    }
    assert(spec_plugin_command(spec_legacy_name("figma.move_node"@)) == "moveNode"@) by {
        assert(spec_legacy_name("figma.move_node"@) == "move_node"@);
        reveal_strlit("move_node");
        reveal_strlit("moveNode");
        reveal_strlit("move");
        reveal_strlit("node");
        assert("move_node"@ =~= "move"@ + (seq!['_'] + "node"@ + Seq::<char>::empty()));
        assert("move_node"@ != "get_node_info"@);
        assert("move_node"@ != "set_font"@);
        lemma_camel_word("move"@, (seq!['_'] + "node"@ + Seq::<char>::empty()));
        lemma_camel_after_underscore("node"@, Seq::<char>::empty());
        assert(ascii_upper('n') == 'N');
        assert(camel_from("move_node"@, false) =~= "moveNode"@);
    }
    assert(spec_plugin_command(spec_legacy_name("figma.delete_node"@)) == "deleteNode"@) by {
        assert(spec_legacy_name("figma.delete_node"@) == "delete_node"@);
        reveal_strlit("delete_node");
        reveal_strlit("deleteNode");
        reveal_strlit("delete");
        reveal_strlit("node");
        assert("delete_node"@ =~= "delete"@ + (seq!['_'] + "node"@ + Seq::<char>::empty()));
        assert("delete_node"@ != "get_node_info"@);
        assert("delete_node"@ != "set_font"@);
        lemma_camel_word("delete"@, (seq!['_'] + "node"@ + Seq::<char>::empty()));
        lemma_camel_after_underscore("node"@, Seq::<char>::empty());
        assert(ascii_upper('n') == 'N');
        assert(camel_from("delete_node"@, false) =~= "deleteNode"@);
    }
}

/// The command name that the plugin answers to for a legacy tool name.
pub open spec fn spec_plugin_command(tool: Seq<char>) -> Seq<char> {
    if tool == "get_node_info"@ {
        "getNode"@
    } else if tool == "set_font"@ {
        "setFontName"@
    } else {
        camel_from(tool, false)
    }
}

/// The plugin command for a legacy tool name: two fixed exceptions, and the
/// camel-case form of the name otherwise.
pub fn plugin_command_name(tool: &str) -> (r: String)
    ensures
        r@ == spec_plugin_command(tool@),
{
    if str_eq(tool, "get_node_info") {
        String::from_str("getNode")
    } else if str_eq(tool, "set_font") {
        String::from_str("setFontName")
    } else {
        snake_to_camel(tool)
    }
}

/// The canonical and legacy tool names are pairwise different.
pub proof fn lemma_tool_names_distinct()
    ensures
        "figma.get_document"@ != "figma.get_page"@,
        "figma.get_document"@ != "figma.get_selection"@,
        "figma.get_document"@ != "figma.get_node"@,
        "figma.get_document"@ != "figma.create_frame"@,
        "figma.get_document"@ != "figma.create_text"@,
        "figma.get_document"@ != "figma.set_fill"@,
        "figma.get_document"@ != "figma.move_node"@,
        "figma.get_document"@ != "figma.delete_node"@,
        "figma.get_document"@ != "get_document_info"@,
        "figma.get_document"@ != "get_page_info"@,
        "figma.get_document"@ != "get_selection"@,
        "figma.get_document"@ != "get_node_info"@,
        "figma.get_document"@ != "create_frame"@,
        "figma.get_document"@ != "create_text"@,
        "figma.get_document"@ != "set_fill"@,
        "figma.get_document"@ != "move_node"@,
        "figma.get_document"@ != "delete_node"@,
        "figma.get_page"@ != "figma.get_selection"@,
        "figma.get_page"@ != "figma.get_node"@,
        "figma.get_page"@ != "figma.create_frame"@,
        "figma.get_page"@ != "figma.create_text"@,
        "figma.get_page"@ != "figma.set_fill"@,
        "figma.get_page"@ != "figma.move_node"@,
        "figma.get_page"@ != "figma.delete_node"@,
        "figma.get_page"@ != "get_document_info"@,
        "figma.get_page"@ != "get_page_info"@,
        "figma.get_page"@ != "get_selection"@,
        "figma.get_page"@ != "get_node_info"@,
        "figma.get_page"@ != "create_frame"@,
        "figma.get_page"@ != "create_text"@,
        "figma.get_page"@ != "set_fill"@,
        "figma.get_page"@ != "move_node"@,
        "figma.get_page"@ != "delete_node"@,
        "figma.get_selection"@ != "figma.get_node"@,
        "figma.get_selection"@ != "figma.create_frame"@,
        "figma.get_selection"@ != "figma.create_text"@,
        "figma.get_selection"@ != "figma.set_fill"@,
        "figma.get_selection"@ != "figma.move_node"@,
        "figma.get_selection"@ != "figma.delete_node"@,
        "figma.get_selection"@ != "get_document_info"@,
        "figma.get_selection"@ != "get_page_info"@,
        "figma.get_selection"@ != "get_selection"@,
        "figma.get_selection"@ != "get_node_info"@,
        "figma.get_selection"@ != "create_frame"@,
        "figma.get_selection"@ != "create_text"@,
        "figma.get_selection"@ != "set_fill"@,
        "figma.get_selection"@ != "move_node"@,
        "figma.get_selection"@ != "delete_node"@,
        "figma.get_node"@ != "figma.create_frame"@,
        "figma.get_node"@ != "figma.create_text"@,
        "figma.get_node"@ != "figma.set_fill"@,
        "figma.get_node"@ != "figma.move_node"@,
        "figma.get_node"@ != "figma.delete_node"@,
        "figma.get_node"@ != "get_document_info"@,
        "figma.get_node"@ != "get_page_info"@,
        "figma.get_node"@ != "get_selection"@,
        "figma.get_node"@ != "get_node_info"@,
        "figma.get_node"@ != "create_frame"@,
        "figma.get_node"@ != "create_text"@,
        "figma.get_node"@ != "set_fill"@,
        "figma.get_node"@ != "move_node"@,
        "figma.get_node"@ != "delete_node"@,
        "figma.create_frame"@ != "figma.create_text"@,
        "figma.create_frame"@ != "figma.set_fill"@,
        "figma.create_frame"@ != "figma.move_node"@,
        "figma.create_frame"@ != "figma.delete_node"@,
        "figma.create_frame"@ != "get_document_info"@,
        "figma.create_frame"@ != "get_page_info"@,
        "figma.create_frame"@ != "get_selection"@,
        "figma.create_frame"@ != "get_node_info"@,
        "figma.create_frame"@ != "create_frame"@,
        "figma.create_frame"@ != "create_text"@,
        "figma.create_frame"@ != "set_fill"@,
        "figma.create_frame"@ != "move_node"@,
        "figma.create_frame"@ != "delete_node"@,
        "figma.create_text"@ != "figma.set_fill"@,
        "figma.create_text"@ != "figma.move_node"@,
        "figma.create_text"@ != "figma.delete_node"@,
        "figma.create_text"@ != "get_document_info"@,
        "figma.create_text"@ != "get_page_info"@,
        "figma.create_text"@ != "get_selection"@,
        "figma.create_text"@ != "get_node_info"@,
        "figma.create_text"@ != "create_frame"@,
        "figma.create_text"@ != "create_text"@,
        "figma.create_text"@ != "set_fill"@,
        "figma.create_text"@ != "move_node"@,
        "figma.create_text"@ != "delete_node"@,
        "figma.set_fill"@ != "figma.move_node"@,
        "figma.set_fill"@ != "figma.delete_node"@,
        "figma.set_fill"@ != "get_document_info"@,
        "figma.set_fill"@ != "get_page_info"@,
        "figma.set_fill"@ != "get_selection"@,
        "figma.set_fill"@ != "get_node_info"@,
        "figma.set_fill"@ != "create_frame"@,
        "figma.set_fill"@ != "create_text"@,
        "figma.set_fill"@ != "set_fill"@,
        "figma.set_fill"@ != "move_node"@,
        "figma.set_fill"@ != "delete_node"@,
        "figma.move_node"@ != "figma.delete_node"@,
        "figma.move_node"@ != "get_document_info"@,
        "figma.move_node"@ != "get_page_info"@,
        "figma.move_node"@ != "get_selection"@,
        "figma.move_node"@ != "get_node_info"@,
        "figma.move_node"@ != "create_frame"@,
        "figma.move_node"@ != "create_text"@,
        "figma.move_node"@ != "set_fill"@,
        "figma.move_node"@ != "move_node"@,
        "figma.move_node"@ != "delete_node"@,
        "figma.delete_node"@ != "get_document_info"@,
        "figma.delete_node"@ != "get_page_info"@,
        "figma.delete_node"@ != "get_selection"@,
        "figma.delete_node"@ != "get_node_info"@,
        "figma.delete_node"@ != "create_frame"@,
        "figma.delete_node"@ != "create_text"@,
        "figma.delete_node"@ != "set_fill"@,
        "figma.delete_node"@ != "move_node"@,
        "figma.delete_node"@ != "delete_node"@,
        "get_document_info"@ != "get_page_info"@,
        "get_document_info"@ != "get_selection"@,
        "get_document_info"@ != "get_node_info"@,
        "get_document_info"@ != "create_frame"@,
        "get_document_info"@ != "create_text"@,
        "get_document_info"@ != "set_fill"@,
        "get_document_info"@ != "move_node"@,
        "get_document_info"@ != "delete_node"@,
        "get_page_info"@ != "get_selection"@,
        "get_page_info"@ != "get_node_info"@,
        "get_page_info"@ != "create_frame"@,
        "get_page_info"@ != "create_text"@,
        "get_page_info"@ != "set_fill"@,
        "get_page_info"@ != "move_node"@,
        "get_page_info"@ != "delete_node"@,
        "get_selection"@ != "get_node_info"@,
        "get_selection"@ != "create_frame"@,
        "get_selection"@ != "create_text"@,
        "get_selection"@ != "set_fill"@,
        "get_selection"@ != "move_node"@,
        "get_selection"@ != "delete_node"@,
        "get_node_info"@ != "create_frame"@,
        "get_node_info"@ != "create_text"@,
        "get_node_info"@ != "set_fill"@,
        "get_node_info"@ != "move_node"@,
        "get_node_info"@ != "delete_node"@,
        "create_frame"@ != "create_text"@,
        "create_frame"@ != "set_fill"@,
        "create_frame"@ != "move_node"@,
        "create_frame"@ != "delete_node"@,
        "create_text"@ != "set_fill"@,
        "create_text"@ != "move_node"@,
        "create_text"@ != "delete_node"@,
        "set_fill"@ != "move_node"@,
        "set_fill"@ != "delete_node"@,
        "move_node"@ != "delete_node"@,
{
    reveal_strlit("figma.get_document");
    assert("figma.get_document"@.len() == 18);
    reveal_strlit("figma.get_page");
    assert("figma.get_page"@.len() == 14);
    reveal_strlit("figma.get_selection");
    assert("figma.get_selection"@.len() == 19);
    reveal_strlit("figma.get_node");
    assert("figma.get_node"@.len() == 14);
    reveal_strlit("figma.create_frame");
    assert("figma.create_frame"@.len() == 18);
    reveal_strlit("figma.create_text");
    assert("figma.create_text"@.len() == 17);
    reveal_strlit("figma.set_fill");
    assert("figma.set_fill"@.len() == 14);
    reveal_strlit("figma.move_node");
    assert("figma.move_node"@.len() == 15);
    reveal_strlit("figma.delete_node");
    assert("figma.delete_node"@.len() == 17);
    reveal_strlit("get_document_info");
    assert("get_document_info"@.len() == 17);
    reveal_strlit("get_page_info");
    assert("get_page_info"@.len() == 13);
    reveal_strlit("get_selection");
    assert("get_selection"@.len() == 13);
    reveal_strlit("get_node_info");
    assert("get_node_info"@.len() == 13);
    reveal_strlit("create_frame");
    assert("create_frame"@.len() == 12);
    reveal_strlit("create_text");
    assert("create_text"@.len() == 11);
    reveal_strlit("set_fill");
    assert("set_fill"@.len() == 8);
    reveal_strlit("move_node");
    assert("move_node"@.len() == 9);
    reveal_strlit("delete_node");
    assert("delete_node"@.len() == 11);
    assert("figma.get_document"@[6] != "figma.create_frame"@[6]);
    assert("figma.get_page"@[10] != "figma.get_node"@[10]);
    assert("figma.get_page"@[6] != "figma.set_fill"@[6]);
    assert("figma.get_node"@[6] != "figma.set_fill"@[6]);
    assert("figma.create_text"@[6] != "figma.delete_node"@[6]);
    assert("figma.create_text"@[0] != "get_document_info"@[0]);
    assert("figma.delete_node"@[0] != "get_document_info"@[0]);
    assert("get_page_info"@[4] != "get_selection"@[4]);
    assert("get_page_info"@[4] != "get_node_info"@[4]);
    assert("get_selection"@[4] != "get_node_info"@[4]);
    assert("create_text"@[0] != "delete_node"@[0]);
}

/// Every canonical name resolves to itself, and its legacy name resolves back
/// to it: the mapping to legacy names is undone by resolution.
pub proof fn law_canonical_names_round_trip(i: int)
    requires
        0 <= i < spec_canonical_tool_names().len(),
    ensures
        spec_resolve_tool(spec_canonical_tool_names()[i]) == Some(spec_canonical_tool_names()[i]),
        spec_resolve_tool(spec_legacy_name(spec_canonical_tool_names()[i]))
            == Some(spec_canonical_tool_names()[i]),
{
    lemma_tool_names_distinct();
    let names = spec_canonical_tool_names();
    if i == 0 { assert(names[i] == "figma.get_document"@); assert(spec_legacy_name("figma.get_document"@) == "get_document_info"@); assert(spec_resolve_tool("get_document_info"@) == Some("figma.get_document"@)); }
    else if i == 1 { assert(names[i] == "figma.get_page"@); assert(spec_legacy_name("figma.get_page"@) == "get_page_info"@); assert(spec_resolve_tool("get_page_info"@) == Some("figma.get_page"@)); }
    else if i == 2 { assert(names[i] == "figma.get_selection"@); assert(spec_legacy_name("figma.get_selection"@) == "get_selection"@); assert(spec_resolve_tool("get_selection"@) == Some("figma.get_selection"@)); }
    else if i == 3 { assert(names[i] == "figma.get_node"@); assert(spec_legacy_name("figma.get_node"@) == "get_node_info"@); assert(spec_resolve_tool("get_node_info"@) == Some("figma.get_node"@)); }
    else if i == 4 { assert(names[i] == "figma.create_frame"@); assert(spec_legacy_name("figma.create_frame"@) == "create_frame"@); assert(spec_resolve_tool("create_frame"@) == Some("figma.create_frame"@)); }
    else if i == 5 { assert(names[i] == "figma.create_text"@); assert(spec_legacy_name("figma.create_text"@) == "create_text"@); assert(spec_resolve_tool("create_text"@) == Some("figma.create_text"@)); }
    else if i == 6 { assert(names[i] == "figma.set_fill"@); assert(spec_legacy_name("figma.set_fill"@) == "set_fill"@); assert(spec_resolve_tool("set_fill"@) == Some("figma.set_fill"@)); }
    else if i == 7 { assert(names[i] == "figma.move_node"@); assert(spec_legacy_name("figma.move_node"@) == "move_node"@); assert(spec_resolve_tool("move_node"@) == Some("figma.move_node"@)); }
    else { assert(names[i] == "figma.delete_node"@); assert(spec_legacy_name("figma.delete_node"@) == "delete_node"@); assert(spec_resolve_tool("delete_node"@) == Some("figma.delete_node"@)); }
}

/// Resolving a name that resolution gave back changes nothing.
pub proof fn law_resolution_is_idempotent(name: Seq<char>)
    requires
        spec_resolve_tool(name) is Some,
    ensures
        spec_resolve_tool(spec_resolve_tool(name)->0) == spec_resolve_tool(name),
{
    lemma_tool_names_distinct();
}

/// Whatever name resolves, it resolves to one of the canonical names.
pub proof fn law_resolution_lands_on_canonical(name: Seq<char>)
    requires
        spec_resolve_tool(name) is Some,
    ensures
        spec_canonical_tool_names().contains(spec_resolve_tool(name)->0),
{
    let c = spec_resolve_tool(name)->0;
    let names = spec_canonical_tool_names();
    if c == "figma.get_document"@ { assert(names[0] == c); }
    else if c == "figma.get_page"@ { assert(names[1] == c); }
    else if c == "figma.get_selection"@ { assert(names[2] == c); }
    else if c == "figma.get_node"@ { assert(names[3] == c); }
    else if c == "figma.create_frame"@ { assert(names[4] == c); }
    else if c == "figma.create_text"@ { assert(names[5] == c); }
    else if c == "figma.set_fill"@ { assert(names[6] == c); }
    else if c == "figma.move_node"@ { assert(names[7] == c); }
    else { assert(names[8] == c); }
}

} // verus!
