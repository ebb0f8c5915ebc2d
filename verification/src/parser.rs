//! The Via parser: token stream to AST.
//!
//! The grammar is stated once, as recursive spec functions over token
//! views (`sp_*`); each returns the parsed node and the position after
//! it, or `None` on the first point of divergence.  The executable
//! recursive-descent functions are proved to return exactly the spec
//! result, or a located error exactly when the spec has none.

use vstd::prelude::*;

use crate::ast::{
    Controller, ControllerActions, ControllerActionsView, ControllerView, Field,
    FieldAttributes, FieldAttributesView, FieldView, Model, ModelView, ParamEntry,
    ParamEntryView, ParamsKind, ParamsKindView, ParamsProfile, ParamsProfileView, Resource,
    ResourceView, TypeRef, TypeRefView, default_controller_view,
};
use crate::lexer;
use crate::lexer::{Token, TokenKind, TokView, toks_view, lex_from};
use crate::strutil;
use crate::strutil::dec_digits;

verus! {

/// The identifier text of a token (meaningful for `Ident` tokens).
pub open spec fn ident_of(t: TokView) -> Seq<char> {
    match t {
        TokView::Ident(n) => n,
        _ => Seq::empty(),
    }
}

/// `name_opt := ident optional_mark?` — an identifier with an optional
/// trailing `?` marker.
pub open spec fn sp_name_opt(ts: Seq<TokView>, i: int) -> Option<((Seq<char>, bool), int)> {
    if 0 <= i < ts.len() && ts[i] is Ident {
        let name = ident_of(ts[i]);
        if i + 1 < ts.len() && ts[i + 1] is Question {
            Some(((name, true), i + 2))
        } else {
            Some(((name, false), i + 1))
        }
    } else {
        None
    }
}

/// `type_ref := ident optional_mark?`
pub open spec fn sp_type(ts: Seq<TokView>, i: int) -> Option<(TypeRefView, int)> {
    match sp_name_opt(ts, i) {
        Some(((name, optional), j)) => Some((TypeRefView { name, optional }, j)),
        None => None,
    }
}

/// `field_attr*` — zero or more `@serialize(bool)` directives folded over
/// the attributes; a later directive replaces an earlier one.
pub open spec fn sp_attrs(ts: Seq<TokView>, i: int, acc: FieldAttributesView) -> Option<
    (FieldAttributesView, int),
>
    decreases ts.len() - i,
{
    if 0 <= i < ts.len() && ts[i] is At {
        if i + 5 <= ts.len() && ts[i + 1] is Ident && ident_of(ts[i + 1]) == "serialize"@ && ts[i
            + 2] is LParen && ts[i + 3] is Ident && (ident_of(ts[i + 3]) == "true"@ || ident_of(
            ts[i + 3],
        ) == "false"@) && ts[i + 4] is RParen {
            sp_attrs(
                ts,
                i + 5,
                FieldAttributesView { serialize: Some(ident_of(ts[i + 3]) == "true"@) },
            )
        } else {
            None
        }
    } else {
        Some((acc, i))
    }
}

/// `field_decl := name_opt ":" type_ref field_attr*` — the field is
/// optional when either the name-level or the type-level marker is there.
pub open spec fn sp_field(ts: Seq<TokView>, i: int) -> Option<(FieldView, int)> {
    match sp_name_opt(ts, i) {
        Some(((name, nopt), j)) => {
            if j < ts.len() && ts[j] is Colon {
                match sp_type(ts, j + 1) {
                    Some((ty, k)) => match sp_attrs(
                        ts,
                        k,
                        FieldAttributesView { serialize: None },
                    ) {
                        Some((attributes, m)) => Some(
                            (FieldView { name, optional: nopt || ty.optional, ty, attributes }, m),
                        ),
                        None => None,
                    },
                    None => None,
                }
            } else {
                None
            }
        },
        None => None,
    }
}

/// `field_decl*` — fields, in declaration order, until a token that can
/// not begin a field.
pub open spec fn sp_fields(ts: Seq<TokView>, i: int) -> Option<(Seq<FieldView>, int)>
    decreases ts.len() - i,
{
    if 0 <= i < ts.len() && ts[i] is Ident {
        match sp_field(ts, i) {
            Some((f, j)) => if i < j <= ts.len() {
                match sp_fields(ts, j) {
                    Some((rest, k)) => Some((seq![f] + rest, k)),
                    None => None,
                }
            } else {
                None
            },
            None => None,
        }
    } else {
        Some((Seq::empty(), i))
    }
}

/// `model_section := "model" "{" field_decl* "}"`
pub open spec fn sp_model_section(ts: Seq<TokView>, i: int) -> Option<(ModelView, int)> {
    if 0 <= i && i + 1 < ts.len() && ts[i] is Ident && ident_of(ts[i]) == "model"@ && ts[i
        + 1] is LBrace {
        match sp_fields(ts, i + 2) {
            Some((fields, j)) => if j < ts.len() && ts[j] is RBrace {
                Some((ModelView { fields }, j + 1))
            } else {
                None
            },
            None => None,
        }
    } else {
        None
    }
}

/// `("," param_entry)* "]"` — the rest of a bracketed entry list.
pub open spec fn sp_entries_tail(ts: Seq<TokView>, i: int, acc: Seq<ParamEntryView>) -> Option<
    (Seq<ParamEntryView>, int),
>
    decreases ts.len() - i,
{
    if 0 <= i < ts.len() && ts[i] is Comma {
        match sp_name_opt(ts, i + 1) {
            Some(((name, optional), j)) => if i < j <= ts.len() {
                sp_entries_tail(ts, j, acc.push(ParamEntryView { name, optional }))
            } else {
                None
            },
            None => None,
        }
    } else if 0 <= i < ts.len() && ts[i] is RBracket {
        Some((acc, i + 1))
    } else {
        None
    }
}

/// `params_profile := (ident|"editable") (param_entry_list | param_entry)?`
/// A bracketed list and a single bare entry normalize to the same
/// `entries` sequence.
pub open spec fn sp_profile(ts: Seq<TokView>, i: int) -> Option<(ParamsProfileView, int)> {
    if 0 <= i < ts.len() && ts[i] is Ident {
        let name = if ident_of(ts[i]) == "editable"@ {
            ParamsKindView::Editable
        } else {
            ParamsKindView::Named(ident_of(ts[i]))
        };
        if i + 1 < ts.len() && ts[i + 1] is LBracket {
            match sp_name_opt(ts, i + 2) {
                Some(((n, o), j)) => match sp_entries_tail(
                    ts,
                    j,
                    seq![ParamEntryView { name: n, optional: o }],
                ) {
                    Some((entries, k)) => Some((ParamsProfileView { name, entries }, k)),
                    None => None,
                },
                None => None,
            }
        } else if i + 1 < ts.len() && ts[i + 1] is Ident {
            match sp_name_opt(ts, i + 1) {
                Some(((n, o), j)) => Some(
                    (
                        ParamsProfileView {
                            name,
                            entries: seq![ParamEntryView { name: n, optional: o }],
                        },
                        j,
                    ),
                ),
                None => None,
            }
        } else {
            Some((ParamsProfileView { name, entries: Seq::empty() }, i + 1))
        }
    } else {
        None
    }
}

/// `params_profile*`
pub open spec fn sp_profiles(ts: Seq<TokView>, i: int) -> Option<(Seq<ParamsProfileView>, int)>
    decreases ts.len() - i,
{
    if 0 <= i < ts.len() && ts[i] is Ident {
        match sp_profile(ts, i) {
            Some((p, j)) => if i < j <= ts.len() {
                match sp_profiles(ts, j) {
                    Some((rest, k)) => Some((seq![p] + rest, k)),
                    None => None,
                }
            } else {
                None
            },
            None => None,
        }
    } else {
        Some((Seq::empty(), i))
    }
}

/// `params_section := "params" "{" params_profile* "}"`
pub open spec fn sp_params_section(ts: Seq<TokView>, i: int) -> Option<
    (Seq<ParamsProfileView>, int),
> {
    if 0 <= i && i + 1 < ts.len() && ts[i] is Ident && ident_of(ts[i]) == "params"@ && ts[i
        + 1] is LBrace {
        match sp_profiles(ts, i + 2) {
            Some((ps, j)) => if j < ts.len() && ts[j] is RBrace {
                Some((ps, j + 1))
            } else {
                None
            },
            None => None,
        }
    } else {
        None
    }
}

/// `("," ident)* "]"` — the rest of a bracketed format list.
pub open spec fn sp_formats_tail(ts: Seq<TokView>, i: int, acc: Seq<Seq<char>>) -> Option<
    (Seq<Seq<char>>, int),
>
    decreases ts.len() - i,
{
    if 0 <= i && i + 1 < ts.len() && ts[i] is Comma && ts[i + 1] is Ident {
        sp_formats_tail(ts, i + 2, acc.push(ident_of(ts[i + 1])))
    } else if 0 <= i < ts.len() && ts[i] is RBracket {
        Some((acc, i + 1))
    } else {
        None
    }
}

/// `format_list | ident` after `respond_with` — a single bare format
/// normalizes to a list of one.
pub open spec fn sp_formats(ts: Seq<TokView>, i: int) -> Option<(Seq<Seq<char>>, int)> {
    if 0 <= i < ts.len() && ts[i] is LBracket {
        if i + 1 < ts.len() && ts[i + 1] is Ident {
            sp_formats_tail(ts, i + 2, seq![ident_of(ts[i + 1])])
        } else {
            None
        }
    } else if 0 <= i < ts.len() && ts[i] is Ident {
        Some((seq![ident_of(ts[i])], i + 1))
    } else {
        None
    }
}

/// `(params_section | respond_with_section | actions_section)*` folded
/// over a controller; a later section of the same kind replaces an
/// earlier one, and `actions { }` selects AutoCrud.
pub open spec fn sp_controller_items(ts: Seq<TokView>, i: int, acc: ControllerView) -> Option<
    (ControllerView, int),
>
    decreases ts.len() - i,
{
    if 0 <= i < ts.len() && ts[i] is Ident {
        let kw = ident_of(ts[i]);
        if kw == "params"@ {
            match sp_params_section(ts, i) {
                Some((ps, j)) => if i < j <= ts.len() {
                    sp_controller_items(
                        ts,
                        j,
                        ControllerView {
                            params: ps,
                            respond_with: acc.respond_with,
                            actions: acc.actions,
                        },
                    )
                } else {
                    None
                },
                None => None,
            }
        } else if kw == "respond_with"@ {
            match sp_formats(ts, i + 1) {
                Some((fs, j)) => if i < j <= ts.len() {
                    sp_controller_items(
                        ts,
                        j,
                        ControllerView {
                            params: acc.params,
                            respond_with: fs,
                            actions: acc.actions,
                        },
                    )
                } else {
                    None
                },
                None => None,
            }
        } else if kw == "actions"@ {
            if i + 2 < ts.len() && ts[i + 1] is LBrace && ts[i + 2] is RBrace {
                sp_controller_items(
                    ts,
                    i + 3,
                    ControllerView {
                        params: acc.params,
                        respond_with: acc.respond_with,
                        actions: ControllerActionsView::AutoCrud,
                    },
                )
            } else {
                None
            }
        } else {
            None
        }
    } else {
        Some((acc, i))
    }
}

/// `controller_section := "controller" "{" ... "}"`, starting from the
/// defaults: no profiles, no formats, AutoCrud.
pub open spec fn sp_controller_section(ts: Seq<TokView>, i: int) -> Option<(ControllerView, int)> {
    if 0 <= i && i + 1 < ts.len() && ts[i] is Ident && ident_of(ts[i]) == "controller"@ && ts[i
        + 1] is LBrace {
        match sp_controller_items(ts, i + 2, default_controller_view()) {
            Some((c, j)) => if j < ts.len() && ts[j] is RBrace {
                Some((c, j + 1))
            } else {
                None
            },
            None => None,
        }
    } else {
        None
    }
}

/// `(model_section | controller_section)*` inside a resource; a later
/// section of the same kind replaces an earlier one.
pub open spec fn sp_resource_sections(
    ts: Seq<TokView>,
    i: int,
    model: Option<ModelView>,
    controller: Option<ControllerView>,
) -> Option<((Option<ModelView>, Option<ControllerView>), int)>
    decreases ts.len() - i,
{
    if 0 <= i < ts.len() && ts[i] is Ident {
        let kw = ident_of(ts[i]);
        if kw == "model"@ {
            match sp_model_section(ts, i) {
                Some((m, j)) => if i < j <= ts.len() {
                    sp_resource_sections(ts, j, Some(m), controller)
                } else {
                    None
                },
                None => None,
            }
        } else if kw == "controller"@ {
            match sp_controller_section(ts, i) {
                Some((c, j)) => if i < j <= ts.len() {
                    sp_resource_sections(ts, j, model, Some(c))
                } else {
                    None
                },
                None => None,
            }
        } else {
            None
        }
    } else {
        Some(((model, controller), i))
    }
}

/// `resource := "resource" ident "{" (model_section | controller_section)* "}"`
pub open spec fn sp_resource(ts: Seq<TokView>, i: int, path: Seq<char>) -> Option<
    (ResourceView, int),
> {
    if 0 <= i && i + 2 < ts.len() && ts[i] is Ident && ident_of(ts[i]) == "resource"@ && ts[i
        + 1] is Ident && ts[i + 2] is LBrace {
        match sp_resource_sections(ts, i + 3, None, None) {
            Some(((model, controller), j)) => if j < ts.len() && ts[j] is RBrace {
                Some(
                    (
                        ResourceView {
                            name: ident_of(ts[i + 1]),
                            model,
                            controller,
                            file_path: path,
                        },
                        j + 1,
                    ),
                )
            } else {
                None
            },
            None => None,
        }
    } else {
        None
    }
}

/// `file := resource* EOI` — resources in source order; nothing may
/// remain after the last one.
pub open spec fn sp_resources(ts: Seq<TokView>, i: int, path: Seq<char>) -> Option<
    Seq<ResourceView>,
>
    decreases ts.len() - i,
{
    if i >= ts.len() {
        Some(Seq::empty())
    } else {
        match sp_resource(ts, i, path) {
            Some((r, j)) => if i < j <= ts.len() {
                match sp_resources(ts, j, path) {
                    Some(rest) => Some(seq![r] + rest),
                    None => None,
                }
            } else {
                None
            },
            None => None,
        }
    }
}

/// The whole pipeline front end on one source text: tokenize, then parse.
/// `None` exactly on a syntax error.
pub open spec fn sp_parse_text(s: Seq<char>, path: Seq<char>) -> Option<Seq<ResourceView>> {
    match lex_from(s, 0) {
        Some(ts) => sp_resources(ts, 0, path),
        None => None,
    }
}

/// The views of a parsed resource list.
pub open spec fn resources_view(rs: Seq<Resource>) -> Seq<ResourceView> {
    rs.map_values(|r: Resource| r@)
}

/// A syntax error: the offending file, the 1-based line and column of the
/// first point of divergence from the grammar, and a short description.
#[derive(Debug, Clone)]
pub struct ParseError {
    pub path: String,
    pub line: usize,
    pub col: usize,
    pub what: String,
}

impl ParseError {
    /// Renders the error for a human, file path first.
    pub fn message(&self) -> (m: String)
        ensures
            m@ == self.path@ + ": line "@ + dec_digits(self.line as nat) + ", column "@
                + dec_digits(self.col as nat) + ": "@ + self.what@,
    {
        let mut m = self.path.clone();
        m.append(": line ");
        let line_text = strutil::u64_to_string(self.line as u64);
        m.append(line_text.as_str());
        m.append(", column ");
        let col_text = strutil::u64_to_string(self.col as u64);
        m.append(col_text.as_str());
        m.append(": ");
        m.append(self.what.as_str());
        m
    }
}

fn err_at(toks: &Vec<Token>, i: usize, what: &str) -> ParseError {
    if i < toks.len() {
        ParseError {
            path: String::new(),
            line: toks[i].line,
            col: toks[i].col,
            what: what.to_owned(),
        }
    } else if toks.len() > 0 {
        ParseError {
            path: String::new(),
            line: toks[toks.len() - 1].line,
            col: toks[toks.len() - 1].col,
            what: what.to_owned(),
        }
    } else {
        ParseError { path: String::new(), line: 1, col: 1, what: what.to_owned() }
    }
}

fn p_name_opt(toks: &Vec<Token>, i: usize) -> (r: Result<((String, bool), usize), ParseError>)
    ensures
        match r {
            Ok(((name, opt), j)) => sp_name_opt(toks_view(toks@), i as int) == Some(
                ((name@, opt), j as int),
            ) && i < j <= toks.len(),
            Err(_) => sp_name_opt(toks_view(toks@), i as int) is None,
        },
{
    if i < toks.len() {
        match &toks[i].kind {
            TokenKind::Ident(name) => {
                let nm: String = name.clone();
                if i + 1 < toks.len() {
                    let isq = match &toks[i + 1].kind {
                        TokenKind::Question => true,
                        _ => false,
                    };
                    if isq {
                        return Ok(((nm, true), i + 2));
                    }
                }
                Ok(((nm, false), i + 1))
            },
            _ => Err(err_at(toks, i, "expected an identifier")),
        }
    } else {
        Err(err_at(toks, i, "expected an identifier"))
    }
}

fn p_type(toks: &Vec<Token>, i: usize) -> (r: Result<(TypeRef, usize), ParseError>)
    ensures
        match r {
            Ok((ty, j)) => sp_type(toks_view(toks@), i as int) == Some((ty@, j as int)) && i < j
                <= toks.len(),
            Err(_) => sp_type(toks_view(toks@), i as int) is None,
        },
{
    match p_name_opt(toks, i) {
        Ok(((name, optional), j)) => Ok((TypeRef { name, optional }, j)),
        Err(e) => Err(e),
    }
}

fn p_attrs(toks: &Vec<Token>, i: usize, acc: FieldAttributes) -> (r: Result<
    (FieldAttributes, usize),
    ParseError,
>)
    requires
        i <= toks.len(),
    ensures
        match r {
            Ok((a, j)) => sp_attrs(toks_view(toks@), i as int, acc@) == Some((a@, j as int)) && i
                <= j <= toks.len(),
            Err(_) => sp_attrs(toks_view(toks@), i as int, acc@) is None,
        },
    decreases toks.len() - i,
{
    let is_at = i < toks.len() && (match &toks[i].kind {
        TokenKind::At => true,
        _ => false,
    });
    if !is_at {
        return Ok((acc, i));
    }
    if !(toks.len() - i >= 5) {
        return Err(err_at(toks, i, "incomplete field attribute"));
    }
    let name_ok = match &toks[i + 1].kind {
        TokenKind::Ident(n) => strutil::str_eq(n, "serialize"),
        _ => false,
    };
    if !name_ok {
        return Err(err_at(toks, i + 1, "expected the serialize attribute"));
    }
    let lparen_ok = match &toks[i + 2].kind {
        TokenKind::LParen => true,
        _ => false,
    };
    if !lparen_ok {
        return Err(err_at(toks, i + 2, "expected ( after serialize"));
    }
    let value = match &toks[i + 3].kind {
        TokenKind::Ident(n) => {
            if strutil::str_eq(n, "true") {
                Some(true)
            } else if strutil::str_eq(n, "false") {
                Some(false)
            } else {
                None
            }
        },
        _ => None,
    };
    let rparen_ok = match &toks[i + 4].kind {
        TokenKind::RParen => true,
        _ => false,
    };
    match value {
        Some(b) => {
            if !rparen_ok {
                return Err(err_at(toks, i + 4, "expected ) after the serialize value"));
            }
            p_attrs(toks, i + 5, FieldAttributes { serialize: Some(b) })
        },
        None => Err(err_at(toks, i + 3, "expected true or false")),
    }
}

fn p_field(toks: &Vec<Token>, i: usize) -> (r: Result<(Field, usize), ParseError>)
    ensures
        match r {
            Ok((f, j)) => sp_field(toks_view(toks@), i as int) == Some((f@, j as int)) && i < j
                <= toks.len(),
            Err(_) => sp_field(toks_view(toks@), i as int) is None,
        },
{
    let ((name, nopt), j) = match p_name_opt(toks, i) {
        Ok(v) => v,
        Err(e) => {
            return Err(e);
        },
    };
    let colon_ok = j < toks.len() && (match &toks[j].kind {
        TokenKind::Colon => true,
        _ => false,
    });
    if !colon_ok {
        return Err(err_at(toks, j, "expected : after the field name"));
    }
    let (ty, k) = match p_type(toks, j + 1) {
        Ok(v) => v,
        Err(e) => {
            return Err(e);
        },
    };
    let (attributes, m) = match p_attrs(toks, k, FieldAttributes { serialize: None }) {
        Ok(v) => v,
        Err(e) => {
            return Err(e);
        },
    };
    let optional = nopt || ty.optional;
    Ok((Field { name, ty, optional, attributes }, m))
}

fn p_fields(toks: &Vec<Token>, i: usize) -> (r: Result<(Vec<Field>, usize), ParseError>)
    requires
        i <= toks.len(),
    ensures
        match r {
            Ok((fs, j)) => sp_fields(toks_view(toks@), i as int) == Some(
                (fs@.map_values(|f: Field| f@), j as int),
            ) && i <= j <= toks.len(),
            Err(_) => sp_fields(toks_view(toks@), i as int) is None,
        },
    decreases toks.len() - i,
{
    let starts = i < toks.len() && (match &toks[i].kind {
        TokenKind::Ident(_) => true,
        _ => false,
    });
    if !starts {
        let fs: Vec<Field> = Vec::new();
        proof {
            assert(fs@.map_values(|f: Field| f@) =~= Seq::<FieldView>::empty());
        }
        return Ok((fs, i));
    }
    let (f, j) = match p_field(toks, i) {
        Ok(v) => v,
        Err(e) => {
            return Err(e);
        },
    };
    match p_fields(toks, j) {
        Ok((mut rest, k)) => {
            let ghost rest0 = rest@;
            let ghost fv = f@;
            rest.insert(0, f);
            proof {
                assert(rest@.map_values(|x: Field| x@) =~= seq![fv] + rest0.map_values(
                    |x: Field| x@,
                ));
            }
            Ok((rest, k))
        },
        Err(e) => Err(e),
    }
}

fn p_model_section(toks: &Vec<Token>, i: usize) -> (r: Result<(Model, usize), ParseError>)
    requires
        i < toks.len(),
        toks_view(toks@)[i as int] is Ident,
        ident_of(toks_view(toks@)[i as int]) == "model"@,
    ensures
        match r {
            Ok((m, j)) => sp_model_section(toks_view(toks@), i as int) == Some((m@, j as int)) && i
                < j <= toks.len(),
            Err(_) => sp_model_section(toks_view(toks@), i as int) is None,
        },
{
    let brace_ok = i + 1 < toks.len() && (match &toks[i + 1].kind {
        TokenKind::LBrace => true,
        _ => false,
    });
    if !brace_ok {
        return Err(err_at(toks, i + 1, "expected { after model"));
    }
    let (fields, j) = match p_fields(toks, i + 2) {
        Ok(v) => v,
        Err(e) => {
            return Err(e);
        },
    };
    let rbrace_ok = j < toks.len() && (match &toks[j].kind {
        TokenKind::RBrace => true,
        _ => false,
    });
    if !rbrace_ok {
        return Err(err_at(toks, j, "expected } after the model fields"));
    }
    Ok((Model { fields }, j + 1))
}

fn p_entries_tail(toks: &Vec<Token>, i: usize, acc: Vec<ParamEntry>) -> (r: Result<
    (Vec<ParamEntry>, usize),
    ParseError,
>)
    ensures
        match r {
            Ok((es, j)) => sp_entries_tail(
                toks_view(toks@),
                i as int,
                acc@.map_values(|e: ParamEntry| e@),
            ) == Some((es@.map_values(|e: ParamEntry| e@), j as int)) && i < j <= toks.len(),
            Err(_) => sp_entries_tail(
                toks_view(toks@),
                i as int,
                acc@.map_values(|e: ParamEntry| e@),
            ) is None,
        },
    decreases toks.len() - i,
{
    let mut acc = acc;
    let ghost acc0 = acc@;
    if i < toks.len() {
        let is_comma = match &toks[i].kind {
            TokenKind::Comma => true,
            _ => false,
        };
        if is_comma {
            let ((name, optional), j) = match p_name_opt(toks, i + 1) {
                Ok(v) => v,
                Err(e) => {
                    return Err(e);
                },
            };
            let ghost nv = name@;
            acc.push(ParamEntry { name, optional });
            proof {
                assert(acc@.map_values(|e: ParamEntry| e@) =~= acc0.map_values(
                    |e: ParamEntry| e@,
                ).push(ParamEntryView { name: nv, optional }));
            }
            return p_entries_tail(toks, j, acc);
        }
        let is_rbracket = match &toks[i].kind {
            TokenKind::RBracket => true,
            _ => false,
        };
        if is_rbracket {
            return Ok((acc, i + 1));
        }
        Err(err_at(toks, i, "expected , or ] in the entry list"))
    } else {
        Err(err_at(toks, i, "expected , or ] in the entry list"))
    }
}

fn p_profile(toks: &Vec<Token>, i: usize) -> (r: Result<(ParamsProfile, usize), ParseError>)
    requires
        i < toks.len(),
        toks_view(toks@)[i as int] is Ident,
    ensures
        match r {
            Ok((p, j)) => sp_profile(toks_view(toks@), i as int) == Some((p@, j as int)) && i < j
                <= toks.len(),
            Err(_) => sp_profile(toks_view(toks@), i as int) is None,
        },
{
    let name = match &toks[i].kind {
        TokenKind::Ident(n) => {
            if strutil::str_eq(n, "editable") {
                ParamsKind::Editable
            } else {
                ParamsKind::Named(n.clone())
            }
        },
        _ => ParamsKind::Editable,
    };
    if i + 1 < toks.len() {
        let is_lbracket = match &toks[i + 1].kind {
            TokenKind::LBracket => true,
            _ => false,
        };
        if is_lbracket {
            let ((first, fopt), j) = match p_name_opt(toks, i + 2) {
                Ok(v) => v,
                Err(e) => {
                    return Err(e);
                },
            };
            let ghost fv = first@;
            let mut entries_start: Vec<ParamEntry> = Vec::new();
            entries_start.push(ParamEntry { name: first, optional: fopt });
            proof {
                assert(entries_start@.map_values(|e: ParamEntry| e@) =~= seq![ParamEntryView {
                        name: fv,
                        optional: fopt,
                    }]);
            }
            let (entries, k) = match p_entries_tail(toks, j, entries_start) {
                Ok(v) => v,
                Err(e) => {
                    return Err(e);
                },
            };
            return Ok((ParamsProfile { name, entries }, k));
        }
        let is_ident = match &toks[i + 1].kind {
            TokenKind::Ident(_) => true,
            _ => false,
        };
        if is_ident {
            let ((n, o), j) = match p_name_opt(toks, i + 1) {
                Ok(v) => v,
                Err(e) => {
                    return Err(e);
                },
            };
            let ghost nv = n@;
            let mut entries: Vec<ParamEntry> = Vec::new();
            entries.push(ParamEntry { name: n, optional: o });
            proof {
                assert(entries@.map_values(|e: ParamEntry| e@) =~= seq![ParamEntryView {
                        name: nv,
                        optional: o,
                    }]);
            }
            return Ok((ParamsProfile { name, entries }, j));
        }
    }
    let entries: Vec<ParamEntry> = Vec::new();
    proof {
        assert(entries@.map_values(|e: ParamEntry| e@) =~= Seq::<ParamEntryView>::empty());
    }
    Ok((ParamsProfile { name, entries }, i + 1))
}

fn p_profiles(toks: &Vec<Token>, i: usize) -> (r: Result<(Vec<ParamsProfile>, usize), ParseError>)
    requires
        i <= toks.len(),
    ensures
        match r {
            Ok((ps, j)) => sp_profiles(toks_view(toks@), i as int) == Some(
                (ps@.map_values(|p: ParamsProfile| p@), j as int),
            ) && i <= j <= toks.len(),
            Err(_) => sp_profiles(toks_view(toks@), i as int) is None,
        },
    decreases toks.len() - i,
{
    let starts = i < toks.len() && (match &toks[i].kind {
        TokenKind::Ident(_) => true,
        _ => false,
    });
    if !starts {
        let ps: Vec<ParamsProfile> = Vec::new();
        proof {
            assert(ps@.map_values(|p: ParamsProfile| p@) =~= Seq::<ParamsProfileView>::empty());
        }
        return Ok((ps, i));
    }
    let (p, j) = match p_profile(toks, i) {
        Ok(v) => v,
        Err(e) => {
            return Err(e);
        },
    };
    match p_profiles(toks, j) {
        Ok((mut rest, k)) => {
            let ghost rest0 = rest@;
            let ghost pv = p@;
            rest.insert(0, p);
            proof {
                assert(rest@.map_values(|x: ParamsProfile| x@) =~= seq![pv] + rest0.map_values(
                    |x: ParamsProfile| x@,
                ));
            }
            Ok((rest, k))
        },
        Err(e) => Err(e),
    }
}

fn p_params_section(toks: &Vec<Token>, i: usize) -> (r: Result<
    (Vec<ParamsProfile>, usize),
    ParseError,
>)
    requires
        i < toks.len(),
        toks_view(toks@)[i as int] is Ident,
        ident_of(toks_view(toks@)[i as int]) == "params"@,
    ensures
        match r {
            Ok((ps, j)) => sp_params_section(toks_view(toks@), i as int) == Some(
                (ps@.map_values(|p: ParamsProfile| p@), j as int),
            ) && i < j <= toks.len(),
            Err(_) => sp_params_section(toks_view(toks@), i as int) is None,
        },
{
    let brace_ok = i + 1 < toks.len() && (match &toks[i + 1].kind {
        TokenKind::LBrace => true,
        _ => false,
    });
    if !brace_ok {
        return Err(err_at(toks, i + 1, "expected { after params"));
    }
    let (ps, j) = match p_profiles(toks, i + 2) {
        Ok(v) => v,
        Err(e) => {
            return Err(e);
        },
    };
    let rbrace_ok = j < toks.len() && (match &toks[j].kind {
        TokenKind::RBrace => true,
        _ => false,
    });
    if !rbrace_ok {
        return Err(err_at(toks, j, "expected } after the params profiles"));
    }
    Ok((ps, j + 1))
}

fn p_formats_tail(toks: &Vec<Token>, i: usize, acc: Vec<String>) -> (r: Result<
    (Vec<String>, usize),
    ParseError,
>)
    ensures
        match r {
            Ok((fs, j)) => sp_formats_tail(
                toks_view(toks@),
                i as int,
                acc@.map_values(|s: String| s@),
            ) == Some((fs@.map_values(|s: String| s@), j as int)) && i < j <= toks.len(),
            Err(_) => sp_formats_tail(
                toks_view(toks@),
                i as int,
                acc@.map_values(|s: String| s@),
            ) is None,
        },
    decreases toks.len() - i,
{
    let mut acc = acc;
    let ghost acc0 = acc@;
    if i < toks.len() && toks.len() - i >= 2 {
        let is_comma = match &toks[i].kind {
            TokenKind::Comma => true,
            _ => false,
        };
        if is_comma {
            match &toks[i + 1].kind {
                TokenKind::Ident(n) => {
                    let nm = n.clone();
                    let ghost nv = nm@;
                    acc.push(nm);
                    proof {
                        assert(acc@.map_values(|s: String| s@) =~= acc0.map_values(
                            |s: String| s@,
                        ).push(nv));
                    }
                    return p_formats_tail(toks, i + 2, acc);
                },
                _ => {
                    return Err(err_at(toks, i + 1, "expected a format name"));
                },
            }
        }
    }
    let is_rbracket = i < toks.len() && (match &toks[i].kind {
        TokenKind::RBracket => true,
        _ => false,
    });
    if is_rbracket {
        return Ok((acc, i + 1));
    }
    Err(err_at(toks, i, "expected , or ] in the format list"))
}

fn p_formats(toks: &Vec<Token>, i: usize) -> (r: Result<(Vec<String>, usize), ParseError>)
    ensures
        match r {
            Ok((fs, j)) => sp_formats(toks_view(toks@), i as int) == Some(
                (fs@.map_values(|s: String| s@), j as int),
            ) && i < j <= toks.len(),
            Err(_) => sp_formats(toks_view(toks@), i as int) is None,
        },
{
    if i < toks.len() {
        let is_lbracket = match &toks[i].kind {
            TokenKind::LBracket => true,
            _ => false,
        };
        if is_lbracket {
            if i + 1 < toks.len() {
                match &toks[i + 1].kind {
                    TokenKind::Ident(n) => {
                        let nm = n.clone();
                        let ghost nv = nm@;
                        let mut first: Vec<String> = Vec::new();
                        first.push(nm);
                        proof {
                            assert(first@.map_values(|s: String| s@) =~= seq![nv]);
                        }
                        return p_formats_tail(toks, i + 2, first);
                    },
                    _ => {
                        return Err(err_at(toks, i + 1, "expected a format name"));
                    },
                }
            }
            return Err(err_at(toks, i + 1, "expected a format name"));
        }
        match &toks[i].kind {
            TokenKind::Ident(n) => {
                let nm = n.clone();
                let ghost nv = nm@;
                let mut fs: Vec<String> = Vec::new();
                fs.push(nm);
                proof {
                    assert(fs@.map_values(|s: String| s@) =~= seq![nv]);
                }
                Ok((fs, i + 1))
            },
            _ => Err(err_at(toks, i, "expected a format or format list after respond_with")),
        }
    } else {
        Err(err_at(toks, i, "expected a format or format list after respond_with"))
    }
}

fn p_controller_items(toks: &Vec<Token>, i: usize, acc: Controller) -> (r: Result<
    (Controller, usize),
    ParseError,
>)
    requires
        i <= toks.len(),
    ensures
        match r {
            Ok((c, j)) => sp_controller_items(toks_view(toks@), i as int, acc@) == Some(
                (c@, j as int),
            ) && i <= j <= toks.len(),
            Err(_) => sp_controller_items(toks_view(toks@), i as int, acc@) is None,
        },
    decreases toks.len() - i,
{
    let mut acc = acc;
    if i >= toks.len() {
        return Ok((acc, i));
    }
    let kw_kind: u8 = match &toks[i].kind {
        TokenKind::Ident(n) => {
            if strutil::str_eq(n, "params") {
                1
            } else if strutil::str_eq(n, "respond_with") {
                2
            } else if strutil::str_eq(n, "actions") {
                3
            } else {
                4
            }
        },
        _ => 0,
    };
    if kw_kind == 0 {
        return Ok((acc, i));
    }
    if kw_kind == 1 {
        let (ps, j) = match p_params_section(toks, i) {
            Ok(v) => v,
            Err(e) => {
                return Err(e);
            },
        };
        acc.params = ps;
        return p_controller_items(toks, j, acc);
    }
    if kw_kind == 2 {
        let (fs, j) = match p_formats(toks, i + 1) {
            Ok(v) => v,
            Err(e) => {
                return Err(e);
            },
        };
        acc.respond_with = fs;
        return p_controller_items(toks, j, acc);
    }
    if kw_kind == 3 {
        let shape_ok = toks.len() - i > 2 && (match &toks[i + 1].kind {
            TokenKind::LBrace => true,
            _ => false,
        }) && (match &toks[i + 2].kind {
            TokenKind::RBrace => true,
            _ => false,
        });
        if !shape_ok {
            return Err(err_at(toks, i + 1, "expected { } after actions"));
        }
        acc.actions = ControllerActions::AutoCrud;
        return p_controller_items(toks, i + 3, acc);
    }
    Err(err_at(toks, i, "expected params, respond_with or actions"))
}

fn p_controller_section(toks: &Vec<Token>, i: usize) -> (r: Result<(Controller, usize), ParseError>)
    requires
        i < toks.len(),
        toks_view(toks@)[i as int] is Ident,
        ident_of(toks_view(toks@)[i as int]) == "controller"@,
    ensures
        match r {
            Ok((c, j)) => sp_controller_section(toks_view(toks@), i as int) == Some(
                (c@, j as int),
            ) && i < j <= toks.len(),
            Err(_) => sp_controller_section(toks_view(toks@), i as int) is None,
        },
{
    let brace_ok = i + 1 < toks.len() && (match &toks[i + 1].kind {
        TokenKind::LBrace => true,
        _ => false,
    });
    if !brace_ok {
        return Err(err_at(toks, i + 1, "expected { after controller"));
    }
    let start = Controller::default();
    let (c, j) = match p_controller_items(toks, i + 2, start) {
        Ok(v) => v,
        Err(e) => {
            return Err(e);
        },
    };
    let rbrace_ok = j < toks.len() && (match &toks[j].kind {
        TokenKind::RBrace => true,
        _ => false,
    });
    if !rbrace_ok {
        return Err(err_at(toks, j, "expected } after the controller items"));
    }
    Ok((c, j + 1))
}

fn p_resource_sections(
    toks: &Vec<Token>,
    i: usize,
    model: Option<Model>,
    controller: Option<Controller>,
) -> (r: Result<((Option<Model>, Option<Controller>), usize), ParseError>)
    requires
        i <= toks.len(),
    ensures
        match r {
            Ok(((m, c), j)) => sp_resource_sections(
                toks_view(toks@),
                i as int,
                match model {
                    Some(m0) => Some(m0@),
                    None => None,
                },
                match controller {
                    Some(c0) => Some(c0@),
                    None => None,
                },
            ) == Some(
                (
                    (
                        match m {
                            Some(m1) => Some(m1@),
                            None => None,
                        },
                        match c {
                            Some(c1) => Some(c1@),
                            None => None,
                        },
                    ),
                    j as int,
                ),
            ) && i <= j <= toks.len(),
            Err(_) => sp_resource_sections(
                toks_view(toks@),
                i as int,
                match model {
                    Some(m0) => Some(m0@),
                    None => None,
                },
                match controller {
                    Some(c0) => Some(c0@),
                    None => None,
                },
            ) is None,
        },
    decreases toks.len() - i,
{
    if i >= toks.len() {
        return Ok(((model, controller), i));
    }
    let kw_kind: u8 = match &toks[i].kind {
        TokenKind::Ident(n) => {
            if strutil::str_eq(n, "model") {
                1
            } else if strutil::str_eq(n, "controller") {
                2
            } else {
                3
            }
        },
        _ => 0,
    };
    if kw_kind == 0 {
        return Ok(((model, controller), i));
    }
    if kw_kind == 1 {
        let (m, j) = match p_model_section(toks, i) {
            Ok(v) => v,
            Err(e) => {
                return Err(e);
            },
        };
        return p_resource_sections(toks, j, Some(m), controller);
    }
    if kw_kind == 2 {
        let (c, j) = match p_controller_section(toks, i) {
            Ok(v) => v,
            Err(e) => {
                return Err(e);
            },
        };
        return p_resource_sections(toks, j, model, Some(c));
    }
    Err(err_at(toks, i, "expected model or controller"))
}

fn p_resource(toks: &Vec<Token>, i: usize, path: &str) -> (r: Result<(Resource, usize), ParseError>)
    ensures
        match r {
            Ok((res, j)) => sp_resource(toks_view(toks@), i as int, path@) == Some(
                (res@, j as int),
            ) && i < j <= toks.len(),
            Err(_) => sp_resource(toks_view(toks@), i as int, path@) is None,
        },
{
    let kw_ok = i < toks.len() && (match &toks[i].kind {
        TokenKind::Ident(n) => strutil::str_eq(n, "resource"),
        _ => false,
    });
    if !kw_ok {
        return Err(err_at(toks, i, "expected resource"));
    }
    if !(toks.len() - i > 2) {
        return Err(err_at(toks, i, "incomplete resource declaration"));
    }
    let name: String = match &toks[i + 1].kind {
        TokenKind::Ident(n) => n.clone(),
        _ => {
            return Err(err_at(toks, i + 1, "expected the resource name"));
        },
    };
    let brace_ok = match &toks[i + 2].kind {
        TokenKind::LBrace => true,
        _ => false,
    };
    if !brace_ok {
        return Err(err_at(toks, i + 2, "expected { after the resource name"));
    }
    let ((model, controller), j) = match p_resource_sections(toks, i + 3, None, None) {
        Ok(v) => v,
        Err(e) => {
            return Err(e);
        },
    };
    let rbrace_ok = j < toks.len() && (match &toks[j].kind {
        TokenKind::RBrace => true,
        _ => false,
    });
    if !rbrace_ok {
        return Err(err_at(toks, j, "expected } after the resource body"));
    }
    let file_path: String = path.to_owned();
    Ok((Resource { name, model, controller, file_path }, j + 1))
}

fn p_resources(toks: &Vec<Token>, i: usize, path: &str) -> (r: Result<Vec<Resource>, ParseError>)
    ensures
        match r {
            Ok(rs) => sp_resources(toks_view(toks@), i as int, path@) == Some(resources_view(rs@)),
            Err(_) => sp_resources(toks_view(toks@), i as int, path@) is None,
        },
    decreases toks.len() - i,
{
    if i >= toks.len() {
        let rs: Vec<Resource> = Vec::new();
        proof {
            assert(resources_view(rs@) =~= Seq::<ResourceView>::empty());
        }
        return Ok(rs);
    }
    let (res, j) = match p_resource(toks, i, path) {
        Ok(v) => v,
        Err(e) => {
            return Err(e);
        },
    };
    match p_resources(toks, j, path) {
        Ok(mut rest) => {
            let ghost rest0 = rest@;
            let ghost rv = res@;
            rest.insert(0, res);
            proof {
                assert(resources_view(rest@) =~= seq![rv] + resources_view(rest0));
            }
            Ok(rest)
        },
        Err(e) => Err(e),
    }
}

/// Parses one Via source text into its resources, in source order.
///
/// Returns the resource list exactly when the text matches the grammar
/// (`sp_parse_text`); every resource carries `path` as its `file_path`.
/// On the first point of divergence it returns an error holding the file
/// path and the 1-based line and column, and parses nothing further.
pub fn parse_str(src: &str, path: &str) -> (r: Result<Vec<Resource>, ParseError>)
    ensures
        match r {
            Ok(rs) => sp_parse_text(src@, path@) == Some(resources_view(rs@)),
            Err(e) => sp_parse_text(src@, path@) is None && e.path@ == path@,
        },
{
    match lexer::lex(src) {
        Ok(toks) => {
            match p_resources(&toks, 0, path) {
                Ok(rs) => Ok(rs),
                Err(e) => {
                    let mut e = e;
                    e.path = path.to_owned();
                    Err(e)
                },
            }
        },
        Err(le) => {
            Err(
                ParseError {
                    path: path.to_owned(),
                    line: le.line,
                    col: le.col,
                    what: "unexpected character".to_owned(),
                },
            )
        },
    }
}

} // verus!
