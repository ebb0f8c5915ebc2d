//! The library's stated laws, proved once and for all inputs.
//!
//! Each proof function here states a property of the parser or the
//! generator over the same spec functions that the executable functions'
//! contracts are written against.

use vstd::prelude::*;

use crate::ast::{ParamEntryView, ResourceView, default_controller_view};
use crate::codegen::{
    FieldShape, all_field_lines, chosen_format, client_contents, client_field_lines,
    client_prefix, editable_entries, model_contents, model_field_lines, model_prefix,
    resource_controller, resource_files, shapes, resource_fields, sp_compile, sp_generate,
};
use crate::lexer::TokView;
use crate::parser::{
    sp_controller_section, sp_field, sp_formats, sp_name_opt, sp_profile, sp_resource,
    sp_resources,
};

verus! {

/// Determinism: compiling the same source text twice yields the same
/// artifact set, byte for byte.  `parse_str` and `generate` are proved to
/// return exactly `sp_compile`'s two stages, so this carries over to the
/// executable pipeline.
pub proof fn lemma_compile_deterministic(s1: Seq<char>, s2: Seq<char>, path: Seq<char>)
    requires
        s1 == s2,
    ensures
        sp_compile(s1, path) == sp_compile(s2, path),
{
}

/// The client artifact renders exactly the visible shapes, in order: the
/// lines it shows are the lines of the visibility-filtered shape
/// sequence.
pub proof fn lemma_client_renders_exactly_visible(ss: Seq<FieldShape>)
    ensures
        client_field_lines(ss) == all_field_lines(ss.filter(|s: FieldShape| s.visible)),
    decreases ss.len(),
{
    reveal(Seq::filter);
    let pred = |s: FieldShape| s.visible;
    if ss.len() == 0 {
        assert(ss.filter(pred) =~= ss);
    } else {
        lemma_client_renders_exactly_visible(ss.drop_last());
        let dl = ss.drop_last();
        if ss.last().visible {
            assert(ss.filter(pred) == dl.filter(pred).push(ss.last()));
            assert(dl.filter(pred).push(ss.last()).drop_last() =~= dl.filter(pred));
            assert(dl.filter(pred).push(ss.last()).last() == ss.last());
        } else {
            assert(ss.filter(pred) == dl.filter(pred));
            assert(client_field_lines(ss) =~= client_field_lines(dl));
        }
    }
}

/// Cross-artifact consistency: for one resource, the model artifact and
/// the client type artifact are both rendered from the same shape
/// sequence — the same (name, optional, visible) triple per declared
/// field — and the client artifact renders exactly its visible shapes.
pub proof fn lemma_cross_artifact_consistency(r: ResourceView)
    ensures
        model_contents(r) == model_prefix(r.name) + model_field_lines(shapes(resource_fields(r)))
            + "}\n"@,
        client_contents(r) == client_prefix(r.name) + all_field_lines(
            shapes(resource_fields(r)).filter(|s: FieldShape| s.visible),
        ) + "}\n"@,
{
    lemma_client_renders_exactly_visible(shapes(resource_fields(r)));
}

/// Optional propagation: a parsed field is optional exactly when the
/// name-level marker or the type-level marker (or both) is there.
pub proof fn lemma_optional_propagation(ts: Seq<TokView>, i: int)
    ensures
        sp_field(ts, i) matches Some((f, j)) ==> (sp_name_opt(ts, i) matches Some(
            ((nm, nopt), k),
        ) && f.name == nm && f.optional == (nopt || f.ty.optional)),
{
}

/// Shorthand normalization for params profiles: a single bare entry and a
/// bracketed list of one normalize to the same one-entry sequence, and a
/// bracketed pair to the two entries in order.
pub proof fn lemma_params_shorthand(name: Seq<char>, a: Seq<char>, b: Seq<char>)
    ensures
        ({
            let bare = seq![TokView::Ident(name), TokView::Ident(a)];
            sp_profile(bare, 0) matches Some((p, j)) && p.entries == seq![ParamEntryView {
                name: a,
                optional: false,
            }] && j == 2
        }),
        ({
            let bracketed = seq![
                TokView::Ident(name),
                TokView::LBracket,
                TokView::Ident(a),
                TokView::RBracket,
            ];
            sp_profile(bracketed, 0) matches Some((p, j)) && p.entries == seq![ParamEntryView {
                name: a,
                optional: false,
            }] && j == 4
        }),
        ({
            let pair = seq![
                TokView::Ident(name),
                TokView::LBracket,
                TokView::Ident(a),
                TokView::Comma,
                TokView::Ident(b),
                TokView::RBracket,
            ];
            sp_profile(pair, 0) matches Some((p, j)) && p.entries == seq![
                ParamEntryView { name: a, optional: false },
                ParamEntryView { name: b, optional: false },
            ] && j == 6
        }),
{
    let ea = ParamEntryView { name: a, optional: false };
    let eb = ParamEntryView { name: b, optional: false };
    let bare = seq![TokView::Ident(name), TokView::Ident(a)];
    assert(sp_name_opt(bare, 1) == Some(((a, false), 2int)));
    let bracketed = seq![
        TokView::Ident(name),
        TokView::LBracket,
        TokView::Ident(a),
        TokView::RBracket,
    ];
    assert(sp_name_opt(bracketed, 2) == Some(((a, false), 3int)));
    assert(crate::parser::sp_entries_tail(bracketed, 3, seq![ea]) == Some((seq![ea], 4int)));
    let pair = seq![
        TokView::Ident(name),
        TokView::LBracket,
        TokView::Ident(a),
        TokView::Comma,
        TokView::Ident(b),
        TokView::RBracket,
    ];
    assert(sp_name_opt(pair, 2) == Some(((a, false), 3int)));
    assert(sp_name_opt(pair, 4) == Some(((b, false), 5int)));
    assert(crate::parser::sp_entries_tail(pair, 5, seq![ea, eb]) == Some((seq![ea, eb], 6int)));
    assert(crate::parser::sp_entries_tail(pair, 3, seq![ea]) == Some((seq![ea, eb], 6int))) by {
        assert(seq![ea].push(eb) =~= seq![ea, eb]);
    }
}

/// Shorthand normalization for `respond_with`: a single bare format and a
/// bracketed list of one normalize to the same one-format list, and a
/// bracketed pair to the two formats in order.
pub proof fn lemma_respond_with_shorthand(a: Seq<char>, b: Seq<char>)
    ensures
        sp_formats(seq![TokView::Ident(a)], 0) == Some((seq![a], 1int)),
        sp_formats(
            seq![TokView::LBracket, TokView::Ident(a), TokView::RBracket],
            0,
        ) == Some((seq![a], 3int)),
        sp_formats(
            seq![
                TokView::LBracket,
                TokView::Ident(a),
                TokView::Comma,
                TokView::Ident(b),
                TokView::RBracket,
            ],
            0,
        ) == Some((seq![a, b], 5int)),
{
    let single = seq![TokView::LBracket, TokView::Ident(a), TokView::RBracket];
    assert(crate::parser::sp_formats_tail(single, 2, seq![a]) == Some((seq![a], 3int)));
    let pair = seq![
        TokView::LBracket,
        TokView::Ident(a),
        TokView::Comma,
        TokView::Ident(b),
        TokView::RBracket,
    ];
    assert(crate::parser::sp_formats_tail(pair, 4, seq![a, b]) == Some((seq![a, b], 5int)));
    assert(crate::parser::sp_formats_tail(pair, 2, seq![a]) == Some((seq![a, b], 5int))) by {
        assert(seq![a].push(b) =~= seq![a, b]);
    }
}

/// Default behavior: an empty controller section parses to the default
/// controller — no params profiles, no response formats, AutoCrud — and
/// the generator then whitelists nothing and responds with exactly the
/// one built-in default format.
pub proof fn lemma_default_behavior(r: ResourceView)
    ensures
        sp_controller_section(
            seq![TokView::Ident("controller"@), TokView::LBrace, TokView::RBrace],
            0,
        ) == Some((default_controller_view(), 3int)),
        chosen_format(default_controller_view()) == "json"@,
        default_controller_view().params.len() == 0,
        default_controller_view().actions is AutoCrud,
        editable_entries(default_controller_view().params) == Seq::<ParamEntryView>::empty(),
        r.controller is None ==> resource_controller(r) == default_controller_view(),
{
    let ts = seq![TokView::Ident("controller"@), TokView::LBrace, TokView::RBrace];
    assert(crate::parser::sp_controller_items(ts, 2, default_controller_view()) == Some(
        (default_controller_view(), 2int),
    ));
}

/// Traceability: every resource a parse yields carries the path of the
/// file it came from, and nothing else, as its `file_path`.
pub proof fn lemma_resources_carry_path(ts: Seq<TokView>, i: int, path: Seq<char>)
    ensures
        sp_resources(ts, i, path) matches Some(rs) ==> forall|k: int|
            0 <= k < rs.len() ==> (#[trigger] rs[k]).file_path == path,
    decreases ts.len() - i,
{
    if i >= ts.len() {
    } else {
        match sp_resource(ts, i, path) {
            Some((r, j)) => {
                if i < j <= ts.len() {
                    lemma_resources_carry_path(ts, j, path);
                    match sp_resources(ts, j, path) {
                        Some(rest) => {
                            assert(r.file_path == path);
                            assert forall|k: int|
                                0 <= k < (seq![r] + rest).len() implies (#[trigger] (seq![r]
                                + rest)[k]).file_path == path by {
                                if k > 0 {
                                    assert((seq![r] + rest)[k] == rest[k - 1]);
                                }
                            }
                        },
                        None => {},
                    }
                }
            },
            None => {},
        }
    }
}

/// Ordering: the generation holds three artifacts per resource, and the
/// artifacts of resource `k` stand at positions `3k .. 3k+3`, in the
/// resources' own order.
pub proof fn lemma_generate_ordering(rs: Seq<ResourceView>)
    ensures
        sp_generate(rs).len() == 3 * rs.len(),
        forall|k: int|
            0 <= k < rs.len() ==> #[trigger] sp_generate(rs).subrange(3 * k, 3 * k + 3)
                == resource_files(rs[k]),
    decreases rs.len(),
{
    if rs.len() == 0 {
    } else {
        let dl = rs.drop_last();
        lemma_generate_ordering(dl);
        let pre = sp_generate(dl);
        let last3 = resource_files(rs.last());
        assert(sp_generate(rs) == pre + last3);
        assert forall|k: int| 0 <= k < rs.len() implies #[trigger] sp_generate(rs).subrange(
            3 * k,
            3 * k + 3,
        ) == resource_files(rs[k]) by {
            if k < rs.len() - 1 {
                assert(sp_generate(rs).subrange(3 * k, 3 * k + 3) =~= pre.subrange(
                    3 * k,
                    3 * k + 3,
                ));
                assert(dl[k] == rs[k]);
            } else {
                assert(sp_generate(rs).subrange(3 * k, 3 * k + 3) =~= last3);
            }
        }
    }
}

/// Ordering across inputs: generating over the resources of two inputs,
/// appended in processing order, yields the artifacts of the first input
/// followed by the artifacts of the second.
pub proof fn lemma_generate_append(a: Seq<ResourceView>, b: Seq<ResourceView>)
    ensures
        sp_generate(a + b) == sp_generate(a) + sp_generate(b),
    decreases b.len(),
{
    if b.len() == 0 {
        assert(a + b =~= a);
        assert(sp_generate(a) + sp_generate(b) =~= sp_generate(a));
    } else {
        lemma_generate_append(a, b.drop_last());
        assert((a + b).drop_last() =~= a + b.drop_last());
        assert((a + b).last() == b.last());
        assert(sp_generate(a + b) == sp_generate(a + b.drop_last()) + resource_files(b.last()));
        assert(sp_generate(a) + sp_generate(b) =~= sp_generate(a) + sp_generate(b.drop_last())
            + resource_files(b.last()));
    }
}

} // verus!
