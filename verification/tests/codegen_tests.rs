use via_core::ast::{
    Action, Controller, ControllerActions, Field, FieldAttributes, Model, ParamEntry,
    ParamsKind, ParamsProfile, Resource, TypeRef,
};
use via_core::codegen::generate;
use via_core::parser::parse_str;

const ARTICLE: &str = "resource Article {\n  model {\n    title: String\n    body: String?\n    views: Int @serialize(false)\n  }\n  controller {\n  }\n}\n";

#[test]
fn generates_expected_outputs_for_article_fixture() {
    let resources = parse_str(ARTICLE, "tests/fixtures/article.via").expect("article should parse");
    assert_eq!(resources.len(), 1);

    let generation = generate(&resources);

    let mut files = generation.files;
    files.sort_by(|a, b| a.relative_path.cmp(&b.relative_path));

    let names: Vec<String> = files
        .iter()
        .map(|f| format!("article__{}", f.relative_path.replace('/', "__")))
        .collect();
    assert_eq!(
        names,
        vec![
            "article__src__controllers__article.rs".to_string(),
            "article__src__models__article.rs".to_string(),
            "article__ts__models__article.ts".to_string(),
        ]
    );
    for f in &files {
        assert!(!f.contents.is_empty(), "artifact {} should have contents", f.relative_path);
    }
}

#[test]
fn article_scenario_artifacts() {
    let resources = parse_str(ARTICLE, "article.via").expect("article should parse");
    let generation = generate(&resources);
    assert_eq!(generation.files.len(), 3);

    let model = &generation.files[0];
    assert_eq!(model.relative_path, "src/models/article.rs");
    assert!(model.contents.contains("pub struct Article {"));
    assert!(model.contents.contains("    pub title: String,\n"));
    assert!(model.contents.contains("    pub body: Option<String>,\n"));
    assert!(
        model.contents.contains("    #[serde(skip_serializing)]\n    pub views: Int,\n"),
        "views must stay server-side but be skipped on serialization:\n{}",
        model.contents
    );

    let controller = &generation.files[1];
    assert_eq!(controller.relative_path, "src/controllers/article.rs");
    assert!(controller.contents.contains("// controller for Article"));
    assert!(controller.contents.contains("// responds with json"));
    for action in ["list", "show", "create", "update", "delete"] {
        assert!(
            controller.contents.contains(&format!("pub fn {action}(")),
            "AutoCrud must declare {action}:\n{}",
            controller.contents
        );
    }

    let client = &generation.files[2];
    assert_eq!(client.relative_path, "ts/models/article.ts");
    assert!(client.contents.contains("export interface Article {"));
    assert!(client.contents.contains("  title: String;\n"));
    assert!(client.contents.contains("  body?: String;\n"));
    assert!(
        !client.contents.contains("views"),
        "a serialize(false) field must not reach the client artifact:\n{}",
        client.contents
    );
}

#[test]
fn generation_is_deterministic() {
    let rs1 = parse_str(ARTICLE, "article.via").expect("should parse");
    let rs2 = parse_str(ARTICLE, "article.via").expect("should parse");
    let g1 = generate(&rs1);
    let g2 = generate(&rs2);
    assert_eq!(g1.files.len(), g2.files.len());
    for (a, b) in g1.files.iter().zip(g2.files.iter()) {
        assert_eq!(a.relative_path, b.relative_path);
        assert_eq!(a.contents, b.contents, "artifact {} must be byte-identical", a.relative_path);
    }
}

#[test]
fn explicit_serialize_true_stays_visible() {
    let src = "resource A {\n  model {\n    x: T @serialize(true)\n  }\n}\n";
    let rs = parse_str(src, "a.via").expect("should parse");
    let g = generate(&rs);
    assert!(!g.files[0].contents.contains("skip_serializing"));
    assert!(g.files[2].contents.contains("  x: T;\n"));
}

#[test]
fn editable_whitelist_reaches_create_and_update() {
    let src = "resource Post {\n  model {\n    title: String\n    body: String\n  }\n  controller {\n    params { editable [title, body] }\n  }\n}\n";
    let rs = parse_str(src, "post.via").expect("should parse");
    let g = generate(&rs);
    let controller = &g.files[1].contents;
    assert!(
        controller.contains("pub fn create() {\n    // permit: title, body\n}"),
        "create must whitelist the editable fields:\n{controller}"
    );
    assert!(controller.contains("pub fn update() {\n    // permit: title, body\n}"));
}

#[test]
fn first_listed_format_is_the_default() {
    let src = "resource A {\n  controller {\n    respond_with [html, json]\n  }\n}\n";
    let rs = parse_str(src, "a.via").expect("should parse");
    let g = generate(&rs);
    assert!(g.files[1].contents.contains("// responds with html"));
}

#[test]
fn resource_without_sections_still_gets_three_artifacts() {
    let rs = parse_str("resource Empty { }", "empty.via").expect("should parse");
    let g = generate(&rs);
    assert_eq!(g.files.len(), 3);
    assert_eq!(g.files[0].relative_path, "src/models/empty.rs");
    assert!(g.files[0].contents.contains("pub struct Empty {\n}\n"));
    assert!(g.files[2].contents.contains("export interface Empty {\n}\n"));
    assert!(g.files[1].contents.contains("// responds with json"));
    assert!(g.files[1].contents.contains("pub fn list() {}"));
}

#[test]
fn file_order_follows_resource_order() {
    let first = parse_str("resource Alpha { }", "a.via").expect("should parse");
    let second = parse_str("resource Beta { }", "b.via").expect("should parse");
    let mut all = first;
    all.extend(second);
    let g = generate(&all);
    let paths: Vec<&str> = g.files.iter().map(|f| f.relative_path.as_str()).collect();
    assert_eq!(
        paths,
        vec![
            "src/models/alpha.rs",
            "src/controllers/alpha.rs",
            "ts/models/alpha.ts",
            "src/models/beta.rs",
            "src/controllers/beta.rs",
            "ts/models/beta.ts",
        ]
    );
}

#[test]
fn manual_actions_render_bodies_verbatim() {
    let resource = Resource {
        name: "Report".to_string(),
        model: Some(Model {
            fields: vec![Field {
                name: "total".to_string(),
                ty: TypeRef { name: "Int".to_string(), optional: false },
                optional: false,
                attributes: FieldAttributes { serialize: None },
            }],
        }),
        controller: Some(Controller {
            params: vec![ParamsProfile {
                name: ParamsKind::Named("filters".to_string()),
                entries: vec![ParamEntry { name: "from".to_string(), optional: true }],
            }],
            respond_with: vec!["csv".to_string()],
            actions: ControllerActions::Manual(vec![
                Action { name: "summary".to_string(), body: Some("    render_summary()".to_string()) },
                Action { name: "rebuild".to_string(), body: None },
            ]),
        }),
        file_path: "report.via".to_string(),
    };
    let g = generate(&vec![resource]);
    let controller = &g.files[1].contents;
    assert!(controller.contains("// responds with csv"));
    assert!(
        controller.contains("pub fn summary() {\n    render_summary()\n}\n"),
        "manual action body must be embedded verbatim:\n{controller}"
    );
    assert!(controller.contains("pub fn rebuild() {}\n"));
    assert!(!controller.contains("pub fn list()"), "manual actions must replace AutoCrud");
}

#[test]
fn generating_no_resources_yields_no_files() {
    let rs = parse_str("", "empty.via").expect("should parse");
    let g = generate(&rs);
    assert!(g.files.is_empty());
}
