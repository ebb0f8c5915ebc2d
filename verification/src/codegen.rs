//! The Via code generator: resources to generated-file artifacts.
//!
//! `generate` is pure and total over any AST, and its whole output — every
//! path and every byte of contents — is pinned by the spec function
//! `sp_generate`, so two runs on equal input are equal.  Per resource it
//! renders a backend data-model file, a request-handler file and a client
//! type-definition file; the model and client artifacts are both rendered
//! from one sequence of field shapes (name, optionality, visibility), which
//! is what keeps them consistent.

use vstd::prelude::*;
use vstd::string::StringExecFns;

use crate::ast::{
    ActionView, Controller, ControllerActions, ControllerActionsView, ControllerView, Field,
    FieldView, ParamEntry, ParamEntryView, ParamsKind, ParamsProfile, ParamsProfileView,
    Resource, ResourceView, default_controller_view,
};
use crate::parser::{resources_view, sp_parse_text};
use crate::strutil;
use crate::strutil::lower_seq;

verus! {

/// One generated artifact: where it goes (relative to the output root)
/// and its full text.
#[derive(Debug, Clone)]
pub struct GeneratedFile {
    pub relative_path: String,
    pub contents: String,
}

pub struct GeneratedFileView {
    pub relative_path: Seq<char>,
    pub contents: Seq<char>,
}

impl View for GeneratedFile {
    type V = GeneratedFileView;

    open spec fn view(&self) -> GeneratedFileView {
        GeneratedFileView { relative_path: self.relative_path@, contents: self.contents@ }
    }
}

/// The whole result of one generation run.
#[derive(Debug, Clone)]
pub struct Generation {
    pub files: Vec<GeneratedFile>,
}

/// The views of a generated-file list.
pub open spec fn files_view(fs: Seq<GeneratedFile>) -> Seq<GeneratedFileView> {
    fs.map_values(|f: GeneratedFile| f@)
}

// ---------------------------------------------------------------------
// Field shapes: the one source both the model and the client artifact
// are rendered from.
// ---------------------------------------------------------------------

/// What the generator needs to know of one field: its name, its type
/// name, whether it is optional, and whether it is visible in the
/// serialized / client-facing representation.
pub struct FieldShape {
    pub name: Seq<char>,
    pub ty_name: Seq<char>,
    pub optional: bool,
    pub visible: bool,
}

/// A field is visible unless it carries an explicit `serialize(false)`.
pub open spec fn field_visible(f: FieldView) -> bool {
    f.attributes.serialize != Some(false)
}

pub open spec fn field_shape(f: FieldView) -> FieldShape {
    FieldShape { name: f.name, ty_name: f.ty.name, optional: f.optional, visible: field_visible(f) }
}

pub open spec fn shapes(fs: Seq<FieldView>) -> Seq<FieldShape> {
    fs.map_values(|f: FieldView| field_shape(f))
}

/// The fields a resource declares, or none when it has no model section.
pub open spec fn resource_fields(r: ResourceView) -> Seq<FieldView> {
    match r.model {
        Some(m) => m.fields,
        None => Seq::empty(),
    }
}

/// The controller a resource is generated against: the declared one, or
/// the default when the section is absent.
pub open spec fn resource_controller(r: ResourceView) -> ControllerView {
    match r.controller {
        Some(c) => c,
        None => default_controller_view(),
    }
}

// ---------------------------------------------------------------------
// Model artifact
// ---------------------------------------------------------------------

pub open spec fn model_field_line(s: FieldShape) -> Seq<char> {
    (if s.visible {
        Seq::<char>::empty()
    } else {
        "    #[serde(skip_serializing)]\n"@
    }) + "    pub "@ + s.name + ": "@ + (if s.optional {
        "Option<"@ + s.ty_name + ">"@
    } else {
        s.ty_name
    }) + ",\n"@
}

pub open spec fn model_field_lines(ss: Seq<FieldShape>) -> Seq<char>
    decreases ss.len(),
{
    if ss.len() == 0 {
        Seq::empty()
    } else {
        model_field_lines(ss.drop_last()) + model_field_line(ss.last())
    }
}

pub open spec fn model_prefix(name: Seq<char>) -> Seq<char> {
    "use serde::{Serialize, Deserialize};\n\n#[derive(Debug, Clone, Serialize, Deserialize)]\npub struct "@
        + name + " {\n"@
}

pub open spec fn model_contents(r: ResourceView) -> Seq<char> {
    model_prefix(r.name) + model_field_lines(shapes(resource_fields(r))) + "}\n"@
}

// ---------------------------------------------------------------------
// Client type artifact
// ---------------------------------------------------------------------

pub open spec fn client_field_line(s: FieldShape) -> Seq<char> {
    "  "@ + s.name + (if s.optional {
        "?"@
    } else {
        Seq::<char>::empty()
    }) + ": "@ + s.ty_name + ";\n"@
}

/// The client artifact renders a line for each visible shape and nothing
/// for a hidden one.
pub open spec fn client_field_lines(ss: Seq<FieldShape>) -> Seq<char>
    decreases ss.len(),
{
    if ss.len() == 0 {
        Seq::empty()
    } else {
        client_field_lines(ss.drop_last()) + (if ss.last().visible {
            client_field_line(ss.last())
        } else {
            Seq::<char>::empty()
        })
    }
}

/// Renders every shape of the sequence, visible or not.
pub open spec fn all_field_lines(ss: Seq<FieldShape>) -> Seq<char>
    decreases ss.len(),
{
    if ss.len() == 0 {
        Seq::empty()
    } else {
        all_field_lines(ss.drop_last()) + client_field_line(ss.last())
    }
}

pub open spec fn client_prefix(name: Seq<char>) -> Seq<char> {
    "export interface "@ + name + " {\n"@
}

pub open spec fn client_contents(r: ResourceView) -> Seq<char> {
    client_prefix(r.name) + client_field_lines(shapes(resource_fields(r))) + "}\n"@
}

// ---------------------------------------------------------------------
// Controller artifact
// ---------------------------------------------------------------------

/// The response format the handlers are generated for: the first listed
/// one, or the single built-in default when none is listed.
pub open spec fn chosen_format(c: ControllerView) -> Seq<char> {
    if c.respond_with.len() == 0 {
        "json"@
    } else {
        c.respond_with[0]
    }
}

/// The entries of the first `editable` profile, or none.
pub open spec fn editable_entries(ps: Seq<ParamsProfileView>) -> Seq<ParamEntryView>
    decreases ps.len(),
{
    if ps.len() == 0 {
        Seq::empty()
    } else if ps[0].name is Editable {
        ps[0].entries
    } else {
        editable_entries(ps.drop_first())
    }
}

/// The entry names joined with `, `.
pub open spec fn name_list(es: Seq<ParamEntryView>) -> Seq<char>
    decreases es.len(),
{
    if es.len() == 0 {
        Seq::empty()
    } else if es.len() == 1 {
        es[0].name
    } else {
        name_list(es.drop_last()) + ", "@ + es.last().name
    }
}

pub open spec fn action_text(a: ActionView) -> Seq<char> {
    match a.body {
        Some(b) => "pub fn "@ + a.name + "() {\n"@ + b + "\n}\n"@,
        None => "pub fn "@ + a.name + "() {}\n"@,
    }
}

pub open spec fn actions_text(acts: Seq<ActionView>) -> Seq<char>
    decreases acts.len(),
{
    if acts.len() == 0 {
        Seq::empty()
    } else {
        actions_text(acts.drop_last()) + action_text(acts.last())
    }
}

pub open spec fn autocrud_text(permit: Seq<char>) -> Seq<char> {
    "pub fn list() {}\npub fn show() {}\npub fn create() {\n    // permit: "@ + permit
        + "\n}\npub fn update() {\n    // permit: "@ + permit + "\n}\npub fn delete() {}\n"@
}

pub open spec fn controller_text_spec(name: Seq<char>, c: ControllerView) -> Seq<char> {
    "// controller for "@ + name + "\n// responds with "@ + chosen_format(c) + "\n"@ + (
    match c.actions {
        ControllerActionsView::AutoCrud => autocrud_text(name_list(editable_entries(c.params))),
        ControllerActionsView::Manual(acts) => actions_text(acts),
    })
}

pub open spec fn controller_contents(r: ResourceView) -> Seq<char> {
    controller_text_spec(r.name, resource_controller(r))
}

// ---------------------------------------------------------------------
// Paths and the whole artifact list
// ---------------------------------------------------------------------

pub open spec fn model_path(r: ResourceView) -> Seq<char> {
    "src/models/"@ + lower_seq(r.name) + ".rs"@
}

pub open spec fn controller_path(r: ResourceView) -> Seq<char> {
    "src/controllers/"@ + lower_seq(r.name) + ".rs"@
}

pub open spec fn client_path(r: ResourceView) -> Seq<char> {
    "ts/models/"@ + lower_seq(r.name) + ".ts"@
}

/// The three artifacts of one resource: model, controller, client type,
/// in that order.
pub open spec fn resource_files(r: ResourceView) -> Seq<GeneratedFileView> {
    seq![
        GeneratedFileView { relative_path: model_path(r), contents: model_contents(r) },
        GeneratedFileView { relative_path: controller_path(r), contents: controller_contents(r) },
        GeneratedFileView { relative_path: client_path(r), contents: client_contents(r) },
    ]
}

/// The whole generation: the artifacts of each resource, in resource
/// order.
pub open spec fn sp_generate(rs: Seq<ResourceView>) -> Seq<GeneratedFileView>
    decreases rs.len(),
{
    if rs.len() == 0 {
        Seq::empty()
    } else {
        sp_generate(rs.drop_last()) + resource_files(rs.last())
    }
}

/// The whole pipeline on one source text: parse, then generate.
pub open spec fn sp_compile(s: Seq<char>, path: Seq<char>) -> Option<Seq<GeneratedFileView>> {
    match sp_parse_text(s, path) {
        Some(rs) => Some(sp_generate(rs)),
        None => None,
    }
}

// ---------------------------------------------------------------------
// Executable rendering
// ---------------------------------------------------------------------

fn model_field_text(f: &Field) -> (s: String)
    ensures
        s@ == model_field_line(field_shape(f@)),
{
    let mut s = String::new();
    let visible = match f.attributes.serialize {
        Some(b) => b,
        None => true,
    };
    if !visible {
        s.append("    #[serde(skip_serializing)]\n");
    }
    s.append("    pub ");
    s.append(f.name.as_str());
    s.append(": ");
    if f.optional {
        s.append("Option<");
        s.append(f.ty.name.as_str());
        s.append(">");
    } else {
        s.append(f.ty.name.as_str());
    }
    s.append(",\n");
    proof {
        assert(s@ =~= model_field_line(field_shape(f@)));
    }
    s
}

fn client_field_text(f: &Field) -> (s: String)
    ensures
        s@ == client_field_line(field_shape(f@)),
{
    let mut s = String::new();
    s.append("  ");
    s.append(f.name.as_str());
    if f.optional {
        s.append("?");
    }
    s.append(": ");
    s.append(f.ty.name.as_str());
    s.append(";\n");
    proof {
        assert(s@ =~= client_field_line(field_shape(f@)));
    }
    s
}

fn model_fields_text(fields: &Vec<Field>) -> (s: String)
    ensures
        s@ == model_field_lines(shapes(fields@.map_values(|f: Field| f@))),
{
    let ghost ss = shapes(fields@.map_values(|f: Field| f@));
    let mut s = String::new();
    let mut i: usize = 0;
    proof {
        assert(ss.take(0) =~= Seq::<FieldShape>::empty());
    }
    while i < fields.len()
        invariant
            i <= fields.len(),
            ss == shapes(fields@.map_values(|f: Field| f@)),
            s@ == model_field_lines(ss.take(i as int)),
        decreases fields.len() - i,
    {
        let line = model_field_text(&fields[i]);
        s.append(line.as_str());
        proof {
            assert(ss.take(i + 1).drop_last() =~= ss.take(i as int));
            assert(ss.take(i + 1).last() == field_shape(fields@[i as int]@));
            assert(s@ =~= model_field_lines(ss.take(i + 1)));
        }
        i = i + 1;
    }
    proof {
        assert(ss.take(fields.len() as int) =~= ss);
    }
    s
}

fn client_fields_text(fields: &Vec<Field>) -> (s: String)
    ensures
        s@ == client_field_lines(shapes(fields@.map_values(|f: Field| f@))),
{
    let ghost ss = shapes(fields@.map_values(|f: Field| f@));
    let mut s = String::new();
    let mut i: usize = 0;
    proof {
        assert(ss.take(0) =~= Seq::<FieldShape>::empty());
    }
    while i < fields.len()
        invariant
            i <= fields.len(),
            ss == shapes(fields@.map_values(|f: Field| f@)),
            s@ == client_field_lines(ss.take(i as int)),
        decreases fields.len() - i,
    {
        let visible = match fields[i].attributes.serialize {
            Some(b) => b,
            None => true,
        };
        if visible {
            let line = client_field_text(&fields[i]);
            s.append(line.as_str());
        }
        proof {
            assert(ss.take(i + 1).drop_last() =~= ss.take(i as int));
            assert(ss.take(i + 1).last() == field_shape(fields@[i as int]@));
            assert(s@ =~= client_field_lines(ss.take(i + 1)));
        }
        i = i + 1;
    }
    proof {
        assert(ss.take(fields.len() as int) =~= ss);
    }
    s
}

fn model_contents_text(r: &Resource) -> (s: String)
    ensures
        s@ == model_contents(r@),
{
    let mut s: String =
        "use serde::{Serialize, Deserialize};\n\n#[derive(Debug, Clone, Serialize, Deserialize)]\npub struct ".to_owned();
    s.append(r.name.as_str());
    s.append(" {\n");
    match &r.model {
        Some(m) => {
            let t = model_fields_text(&m.fields);
            s.append(t.as_str());
        },
        None => {
            proof {
                assert(shapes(resource_fields(r@)) =~= Seq::<FieldShape>::empty());
            }
        },
    }
    s.append("}\n");
    proof {
        assert(s@ =~= model_contents(r@));
    }
    s
}

fn client_contents_text(r: &Resource) -> (s: String)
    ensures
        s@ == client_contents(r@),
{
    let mut s: String = "export interface ".to_owned();
    s.append(r.name.as_str());
    s.append(" {\n");
    match &r.model {
        Some(m) => {
            let t = client_fields_text(&m.fields);
            s.append(t.as_str());
        },
        None => {
            proof {
                assert(shapes(resource_fields(r@)) =~= Seq::<FieldShape>::empty());
            }
        },
    }
    s.append("}\n");
    proof {
        assert(s@ =~= client_contents(r@));
    }
    s
}

fn editable_names_text(params: &Vec<ParamsProfile>) -> (s: String)
    ensures
        s@ == name_list(editable_entries(params@.map_values(|p: ParamsProfile| p@))),
{
    let ghost psv = params@.map_values(|p: ParamsProfile| p@);
    let mut i: usize = 0;
    proof {
        assert(psv.skip(0) =~= psv);
    }
    while i < params.len()
        invariant
            i <= params.len(),
            psv == params@.map_values(|p: ParamsProfile| p@),
            editable_entries(psv.skip(i as int)) == editable_entries(psv),
        decreases params.len() - i,
    {
        let is_editable = match &params[i].name {
            ParamsKind::Editable => true,
            ParamsKind::Named(_) => false,
        };
        if is_editable {
            proof {
                assert(psv.skip(i as int)[0] == psv[i as int]);
                assert(editable_entries(psv) == params@[i as int]@.entries);
            }
            return entry_names_text(&params[i].entries);
        }
        proof {
            assert(psv.skip(i as int).drop_first() =~= psv.skip(i as int + 1));
            assert(psv.skip(i as int)[0] == psv[i as int]);
        }
        i = i + 1;
    }
    proof {
        assert(psv.skip(params.len() as int) =~= Seq::<ParamsProfileView>::empty());
        assert(name_list(editable_entries(psv)) =~= Seq::<char>::empty());
    }
    String::new()
}

fn entry_names_text(entries: &Vec<ParamEntry>) -> (s: String)
    ensures
        s@ == name_list(entries@.map_values(|e: ParamEntry| e@)),
{
    let ghost es = entries@.map_values(|e: ParamEntry| e@);
    let mut s = String::new();
    let mut i: usize = 0;
    proof {
        assert(es.take(0) =~= Seq::<ParamEntryView>::empty());
    }
    while i < entries.len()
        invariant
            i <= entries.len(),
            es == entries@.map_values(|e: ParamEntry| e@),
            s@ == name_list(es.take(i as int)),
        decreases entries.len() - i,
    {
        if i > 0 {
            s.append(", ");
        }
        s.append(entries[i].name.as_str());
        proof {
            assert(es.take(i + 1).drop_last() =~= es.take(i as int));
            assert(es.take(i + 1).last() == entries@[i as int]@);
            assert(s@ =~= name_list(es.take(i + 1)));
        }
        i = i + 1;
    }
    proof {
        assert(es.take(entries.len() as int) =~= es);
    }
    s
}

fn actions_text_exec(acts: &Vec<crate::ast::Action>) -> (s: String)
    ensures
        s@ == actions_text(acts@.map_values(|a: crate::ast::Action| a@)),
{
    let ghost avs = acts@.map_values(|a: crate::ast::Action| a@);
    let mut s = String::new();
    let mut i: usize = 0;
    proof {
        assert(avs.take(0) =~= Seq::<ActionView>::empty());
    }
    while i < acts.len()
        invariant
            i <= acts.len(),
            avs == acts@.map_values(|a: crate::ast::Action| a@),
            s@ == actions_text(avs.take(i as int)),
        decreases acts.len() - i,
    {
        s.append("pub fn ");
        s.append(acts[i].name.as_str());
        match &acts[i].body {
            Some(b) => {
                s.append("() {\n");
                s.append(b.as_str());
                s.append("\n}\n");
            },
            None => {
                s.append("() {}\n");
            },
        }
        proof {
            assert(avs.take(i + 1).drop_last() =~= avs.take(i as int));
            assert(avs.take(i + 1).last() == acts@[i as int]@);
            assert(s@ =~= actions_text(avs.take(i + 1)));
        }
        i = i + 1;
    }
    proof {
        assert(avs.take(acts.len() as int) =~= avs);
    }
    s
}

fn controller_text(name: &String, c: &Controller) -> (s: String)
    ensures
        s@ == controller_text_spec(name@, c@),
{
    let mut s: String = "// controller for ".to_owned();
    s.append(name.as_str());
    s.append("\n// responds with ");
    if c.respond_with.len() == 0 {
        s.append("json");
    } else {
        s.append(c.respond_with[0].as_str());
    }
    s.append("\n");
    match &c.actions {
        ControllerActions::AutoCrud => {
            let permit = editable_names_text(&c.params);
            s.append("pub fn list() {}\npub fn show() {}\npub fn create() {\n    // permit: ");
            s.append(permit.as_str());
            s.append("\n}\npub fn update() {\n    // permit: ");
            s.append(permit.as_str());
            s.append("\n}\npub fn delete() {}\n");
        },
        ControllerActions::Manual(acts) => {
            let t = actions_text_exec(acts);
            s.append(t.as_str());
        },
    }
    proof {
        assert(s@ =~= controller_text_spec(name@, c@));
    }
    s
}

fn controller_contents_text(r: &Resource) -> (s: String)
    ensures
        s@ == controller_contents(r@),
{
    match &r.controller {
        Some(c) => controller_text(&r.name, c),
        None => {
            let d = Controller::default();
            controller_text(&r.name, &d)
        },
    }
}

fn artifact_path(prefix: &str, name: &String, suffix: &str) -> (s: String)
    ensures
        s@ == prefix@ + lower_seq(name@) + suffix@,
{
    let mut s: String = prefix.to_owned();
    let low = strutil::to_lower(name);
    s.append(low.as_str());
    s.append(suffix);
    s
}

/// Generates the artifacts of every resource, three per resource, in
/// resource order: the whole output is `sp_generate` of the input views,
/// so identical input yields byte-identical artifacts.
pub fn generate(resources: &Vec<Resource>) -> (g: Generation)
    ensures
        files_view(g.files@) == sp_generate(resources_view(resources@)),
{
    let ghost rvs = resources_view(resources@);
    let mut files: Vec<GeneratedFile> = Vec::new();
    let mut i: usize = 0;
    proof {
        assert(rvs.take(0) =~= Seq::<ResourceView>::empty());
        assert(files_view(files@) =~= sp_generate(rvs.take(0)));
    }
    while i < resources.len()
        invariant
            i <= resources.len(),
            rvs == resources_view(resources@),
            files_view(files@) == sp_generate(rvs.take(i as int)),
        decreases resources.len() - i,
    {
        let r = &resources[i];
        let model_file = GeneratedFile {
            relative_path: artifact_path("src/models/", &r.name, ".rs"),
            contents: model_contents_text(r),
        };
        let controller_file = GeneratedFile {
            relative_path: artifact_path("src/controllers/", &r.name, ".rs"),
            contents: controller_contents_text(r),
        };
        let client_file = GeneratedFile {
            relative_path: artifact_path("ts/models/", &r.name, ".ts"),
            contents: client_contents_text(r),
        };
        let ghost files0 = files@;
        files.push(model_file);
        files.push(controller_file);
        files.push(client_file);
        proof {
            assert(rvs.take(i + 1).drop_last() =~= rvs.take(i as int));
            assert(rvs.take(i + 1).last() == resources@[i as int]@);
            assert(files_view(files@) =~= sp_generate(rvs.take(i as int)) + resource_files(
                resources@[i as int]@,
            ));
            assert(files_view(files@) =~= sp_generate(rvs.take(i + 1)));
        }
        i = i + 1;
    }
    proof {
        assert(rvs.take(resources.len() as int) =~= rvs);
    }
    Generation { files }
}

} // verus!
