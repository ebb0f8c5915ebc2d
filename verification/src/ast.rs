//! The abstract syntax tree for Via resource definitions.
//!
//! Every node is built once by the parser and read by the code generator;
//! nothing mutates a node afterwards.  Each executable type has a
//! mathematical view (`...View`) over `Seq<char>` and `Seq<_>` that the
//! parser's and generator's contracts speak of.

use vstd::prelude::*;

verus! {

/// A top-level declared unit: an optional data model, an optional
/// controller, and the path of the source file it came from (kept for
/// diagnostics and the IR only).
#[derive(Debug, Clone)]
pub struct Resource {
    pub name: String,
    pub model: Option<Model>,
    pub controller: Option<Controller>,
    pub file_path: String,
}

/// An ordered sequence of fields; declaration order is significant.
#[derive(Debug, Clone)]
pub struct Model {
    pub fields: Vec<Field>,
}

/// Recognized per-field directives.  `serialize: None` means "no explicit
/// directive", which keeps the field visible; `Some(false)` omits the
/// field from the serialized / client-visible representation.
#[derive(Debug, Clone)]
pub struct FieldAttributes {
    pub serialize: Option<bool>,
}

/// One model field.  `optional` is the logical OR of the name-level and
/// type-level optional markers, computed once at parse time.
#[derive(Debug, Clone)]
pub struct Field {
    pub name: String,
    pub ty: TypeRef,
    pub optional: bool,
    pub attributes: FieldAttributes,
}

/// A type identifier together with the optional marker in type position.
#[derive(Debug, Clone)]
pub struct TypeRef {
    pub name: String,
    pub optional: bool,
}

/// The controller section of a resource.
#[derive(Debug, Clone)]
pub struct Controller {
    pub params: Vec<ParamsProfile>,
    pub respond_with: Vec<String>,
    pub actions: ControllerActions,
}

/// Either the standard create/read/update/delete action set, or an
/// explicit list of actions.
#[derive(Debug, Clone)]
pub enum ControllerActions {
    AutoCrud,
    Manual(Vec<Action>),
}

/// A manually declared action with an optional free-form body that the
/// generator embeds verbatim.
#[derive(Debug, Clone)]
pub struct Action {
    pub name: String,
    pub body: Option<String>,
}

/// A named whitelist of fields an action class may accept as input.
#[derive(Debug, Clone)]
pub struct ParamsProfile {
    pub name: ParamsKind,
    pub entries: Vec<ParamEntry>,
}

/// The conventional create/update whitelist, or an arbitrary named profile.
#[derive(Debug, Clone, PartialEq, Eq)]
pub enum ParamsKind {
    Editable,
    Named(String),
}

/// One entry of a params profile.
#[derive(Debug, Clone)]
pub struct ParamEntry {
    pub name: String,
    pub optional: bool,
}

// ---------------------------------------------------------------------
// Mathematical views
// ---------------------------------------------------------------------

pub struct ResourceView {
    pub name: Seq<char>,
    pub model: Option<ModelView>,
    pub controller: Option<ControllerView>,
    pub file_path: Seq<char>,
}

pub struct ModelView {
    pub fields: Seq<FieldView>,
}

pub struct FieldAttributesView {
    pub serialize: Option<bool>,
}

pub struct FieldView {
    pub name: Seq<char>,
    pub ty: TypeRefView,
    pub optional: bool,
    pub attributes: FieldAttributesView,
}

pub struct TypeRefView {
    pub name: Seq<char>,
    pub optional: bool,
}

pub struct ControllerView {
    pub params: Seq<ParamsProfileView>,
    pub respond_with: Seq<Seq<char>>,
    pub actions: ControllerActionsView,
}

pub enum ControllerActionsView {
    AutoCrud,
    Manual(Seq<ActionView>),
}

pub struct ActionView {
    pub name: Seq<char>,
    pub body: Option<Seq<char>>,
}

pub struct ParamsProfileView {
    pub name: ParamsKindView,
    pub entries: Seq<ParamEntryView>,
}

pub enum ParamsKindView {
    Editable,
    Named(Seq<char>),
}

pub struct ParamEntryView {
    pub name: Seq<char>,
    pub optional: bool,
}

impl View for TypeRef {
    type V = TypeRefView;

    open spec fn view(&self) -> TypeRefView {
        TypeRefView { name: self.name@, optional: self.optional }
    }
}

impl View for FieldAttributes {
    type V = FieldAttributesView;

    open spec fn view(&self) -> FieldAttributesView {
        FieldAttributesView { serialize: self.serialize }
    }
}

impl View for Field {
    type V = FieldView;

    open spec fn view(&self) -> FieldView {
        FieldView {
            name: self.name@,
            ty: self.ty@,
            optional: self.optional,
            attributes: self.attributes@,
        }
    }
}

impl View for Model {
    type V = ModelView;

    open spec fn view(&self) -> ModelView {
        ModelView { fields: self.fields@.map_values(|f: Field| f@) }
    }
}

impl View for ParamEntry {
    type V = ParamEntryView;

    open spec fn view(&self) -> ParamEntryView {
        ParamEntryView { name: self.name@, optional: self.optional }
    }
}

impl View for ParamsKind {
    type V = ParamsKindView;

    open spec fn view(&self) -> ParamsKindView {
        match self {
            ParamsKind::Editable => ParamsKindView::Editable,
            ParamsKind::Named(s) => ParamsKindView::Named(s@),
        }
    }
}

impl View for ParamsProfile {
    type V = ParamsProfileView;

    open spec fn view(&self) -> ParamsProfileView {
        ParamsProfileView {
            name: self.name@,
            entries: self.entries@.map_values(|e: ParamEntry| e@),
        }
    }
}

impl View for Action {
    type V = ActionView;

    open spec fn view(&self) -> ActionView {
        ActionView {
            name: self.name@,
            body: match self.body {
                Some(b) => Some(b@),
                None => None,
            },
        }
    }
}

impl View for ControllerActions {
    type V = ControllerActionsView;

    open spec fn view(&self) -> ControllerActionsView {
        match self {
            ControllerActions::AutoCrud => ControllerActionsView::AutoCrud,
            ControllerActions::Manual(acts) => ControllerActionsView::Manual(
                acts@.map_values(|a: Action| a@),
            ),
        }
    }
}

impl View for Controller {
    type V = ControllerView;

    open spec fn view(&self) -> ControllerView {
        ControllerView {
            params: self.params@.map_values(|p: ParamsProfile| p@),
            respond_with: self.respond_with@.map_values(|s: String| s@),
            actions: self.actions@,
        }
    }
}

impl View for Resource {
    type V = ResourceView;

    open spec fn view(&self) -> ResourceView {
        ResourceView {
            name: self.name@,
            model: match self.model {
                Some(m) => Some(m@),
                None => None,
            },
            controller: match self.controller {
                Some(c) => Some(c@),
                None => None,
            },
            file_path: self.file_path@,
        }
    }
}

/// The controller a resource gets when it declares none of the optional
/// sections: no params profiles, no response formats, AutoCrud actions.
pub open spec fn default_controller_view() -> ControllerView {
    ControllerView {
        params: Seq::empty(),
        respond_with: Seq::empty(),
        actions: ControllerActionsView::AutoCrud,
    }
}

impl Default for Controller {
    /// An absent `params` section yields no profiles, an absent
    /// `respond_with` yields no formats, and an absent `actions` section
    /// selects AutoCrud.
    fn default() -> (c: Controller)
        ensures
            c@ == default_controller_view(),
    {
        let c = Controller {
            params: Vec::new(),
            respond_with: Vec::new(),
            actions: ControllerActions::AutoCrud,
        };
        proof {
            assert(c@.params =~= default_controller_view().params);
            assert(c@.respond_with =~= default_controller_view().respond_with);
        }
        c
    }
}

impl Default for FieldAttributes {
    fn default() -> (a: FieldAttributes)
        ensures
            a@.serialize is None,
    {
        FieldAttributes { serialize: None }
    }
}

impl Default for ControllerActions {
    fn default() -> (a: ControllerActions)
        ensures
            a@ is AutoCrud,
    {
        ControllerActions::AutoCrud
    }
}

} // verus!
