use via_core::ast::{ControllerActions, ParamsKind};
use via_core::parser::parse_str;

const ARTICLE: &str = "resource Article {\n  model {\n    title: String\n    body: String?\n    views: Int @serialize(false)\n  }\n  controller {\n  }\n}\n";

#[test]
fn parses_article_resource() {
    let resources = parse_str(ARTICLE, "article.via").expect("article should parse");
    assert_eq!(resources.len(), 1);
    let r = &resources[0];
    assert_eq!(r.name, "Article");
    assert_eq!(r.file_path, "article.via");
    let model = r.model.as_ref().expect("model section");
    assert_eq!(model.fields.len(), 3);
    assert_eq!(model.fields[0].name, "title");
    assert_eq!(model.fields[0].ty.name, "String");
    assert!(!model.fields[0].optional);
    assert_eq!(model.fields[0].attributes.serialize, None);
    assert_eq!(model.fields[1].name, "body");
    assert!(model.fields[1].optional);
    assert_eq!(model.fields[2].name, "views");
    assert!(!model.fields[2].optional);
    assert_eq!(model.fields[2].attributes.serialize, Some(false));
    let controller = r.controller.as_ref().expect("controller section");
    assert!(controller.params.is_empty());
    assert!(controller.respond_with.is_empty());
    assert!(matches!(controller.actions, ControllerActions::AutoCrud));
}

#[test]
fn optional_marker_propagates_from_either_position() {
    let src = "resource T {\n  model {\n    a: X?\n    b?: X\n    c?: X?\n    d: X\n  }\n}\n";
    let resources = parse_str(src, "t.via").expect("should parse");
    let fields = &resources[0].model.as_ref().unwrap().fields;
    assert!(fields[0].optional, "type-level marker alone makes the field optional");
    assert!(fields[0].ty.optional);
    assert!(fields[1].optional, "name-level marker alone makes the field optional");
    assert!(!fields[1].ty.optional);
    assert!(fields[2].optional, "both markers make the field optional");
    assert!(!fields[3].optional, "no marker keeps the field required");
}

#[test]
fn params_shorthand_normalizes() {
    let bracketed = "resource A {\n  controller {\n    params { editable [title, body] }\n  }\n}\n";
    let single = "resource A {\n  controller {\n    params { editable title }\n  }\n}\n";
    let rs1 = parse_str(bracketed, "a.via").expect("bracketed list should parse");
    let rs2 = parse_str(single, "a.via").expect("single entry should parse");
    let listed = &rs1[0].controller.as_ref().unwrap().params[0];
    let bare = &rs2[0].controller.as_ref().unwrap().params[0];
    assert_eq!(listed.name, ParamsKind::Editable);
    assert_eq!(bare.name, ParamsKind::Editable);
    assert_eq!(listed.entries.len(), 2);
    assert_eq!(listed.entries[0].name, "title");
    assert_eq!(listed.entries[1].name, "body");
    assert_eq!(bare.entries.len(), 1);
    assert_eq!(bare.entries[0].name, "title");
}

#[test]
fn named_profile_and_optional_entry() {
    let src = "resource A {\n  controller {\n    params { custom [x?, y] }\n  }\n}\n";
    let rs = parse_str(src, "a.via").expect("should parse");
    let p = &rs[0].controller.as_ref().unwrap().params[0];
    assert_eq!(p.name, ParamsKind::Named("custom".to_string()));
    assert_eq!(p.entries.len(), 2);
    assert!(p.entries[0].optional);
    assert!(!p.entries[1].optional);
}

#[test]
fn respond_with_shorthand_normalizes() {
    let list = "resource A {\n  controller {\n    respond_with [json, html]\n  }\n}\n";
    let single = "resource A {\n  controller {\n    respond_with json\n  }\n}\n";
    let rs1 = parse_str(list, "a.via").expect("format list should parse");
    let rs2 = parse_str(single, "a.via").expect("single format should parse");
    let c1 = rs1[0].controller.as_ref().unwrap();
    let c2 = rs2[0].controller.as_ref().unwrap();
    assert_eq!(c1.respond_with, vec!["json".to_string(), "html".to_string()]);
    assert_eq!(c2.respond_with, vec!["json".to_string()]);
}

#[test]
fn actions_section_selects_autocrud() {
    let src = "resource A {\n  controller {\n    actions { }\n  }\n}\n";
    let rs = parse_str(src, "a.via").expect("should parse");
    let c = rs[0].controller.as_ref().unwrap();
    assert!(matches!(c.actions, ControllerActions::AutoCrud));
}

#[test]
fn later_model_section_replaces_earlier() {
    let src = "resource A {\n  model { x: T }\n  model { y: U }\n}\n";
    let rs = parse_str(src, "a.via").expect("should parse");
    let fields = &rs[0].model.as_ref().unwrap().fields;
    assert_eq!(fields.len(), 1);
    assert_eq!(fields[0].name, "y");
}

#[test]
fn resources_keep_source_order() {
    let src = "resource Alpha { }\nresource Beta { }\n";
    let rs = parse_str(src, "two.via").expect("should parse");
    assert_eq!(rs.len(), 2);
    assert_eq!(rs[0].name, "Alpha");
    assert_eq!(rs[1].name, "Beta");
}

#[test]
fn empty_input_parses_to_no_resources() {
    let rs = parse_str("", "empty.via").expect("empty input is a valid file");
    assert!(rs.is_empty());
    let rs2 = parse_str("   \n\t\n", "blank.via").expect("whitespace only is a valid file");
    assert!(rs2.is_empty());
}

#[test]
fn missing_colon_is_a_located_syntax_error() {
    let src = "resource A {\n  model {\n    title String\n  }\n}\n";
    let err = parse_str(src, "missing_colon.via").expect_err("missing colon must not parse");
    assert_eq!(err.path, "missing_colon.via");
    let message = err.message();
    assert!(
        message.contains("missing_colon.via"),
        "error message must name the source file: {message}"
    );
    assert!(
        message.contains("line 3, column 11"),
        "error message must locate the divergence: {message}"
    );
}

#[test]
fn unexpected_character_is_a_located_error() {
    let src = "resource A {\n  %\n}\n";
    let err = parse_str(src, "bad.via").expect_err("stray percent must not lex");
    let message = err.message();
    assert!(message.contains("bad.via"));
    assert!(message.contains("line 2, column 3"), "unexpected location: {message}");
    assert!(message.contains("unexpected character"));
}

#[test]
fn bad_bool_literal_is_rejected() {
    let src = "resource A {\n  model {\n    x: T @serialize(yes)\n  }\n}\n";
    let err = parse_str(src, "a.via").expect_err("bad bool literal must not parse");
    assert!(err.message().contains("expected true or false"));
}

#[test]
fn truncated_resource_is_rejected() {
    let src = "resource A {\n  model {\n    x: T\n";
    let err = parse_str(src, "a.via").expect_err("unclosed braces must not parse");
    assert!(err.message().contains("a.via"));
}

#[test]
fn empty_entry_list_is_rejected() {
    let src = "resource A {\n  controller {\n    params { editable [] }\n  }\n}\n";
    parse_str(src, "a.via").expect_err("an entry list needs at least one entry");
}

#[test]
fn empty_format_list_is_rejected() {
    let src = "resource A {\n  controller {\n    respond_with []\n  }\n}\n";
    parse_str(src, "a.via").expect_err("a format list needs at least one format");
}

#[test]
fn unknown_controller_item_is_rejected() {
    let src = "resource A {\n  controller {\n    widgets { }\n  }\n}\n";
    let err = parse_str(src, "a.via").expect_err("unknown section must not parse");
    assert!(err.message().contains("expected params, respond_with or actions"));
}
