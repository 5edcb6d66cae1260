//! Properties that hold of every tool declaration, stated over the contracts of
//! the planning functions.
use vstd::prelude::*;
use crate::token::Tok;
use crate::attrs::{FnItemAttrsView, fn_item_attrs};
use crate::classify::{FnInput, ToolParamsView, ClassifyError, classification, typed_positions};
use crate::text::{views, trimmed, joined_lines, kept_doc_lines};
use crate::tool_fn::{ToolFnDecl, ToolFnPlan, NameSource, DescriptionSource, SchemaSource, plan_ok};

verus! {

/// Without a `description` entry, the description of a tool is its
/// documentation: each line trimmed, the empty ones left out, the rest joined
/// by newlines, and the whole trimmed.
pub proof fn law_description_from_docs(
    attr: Seq<Tok>,
    decl: ToolFnDecl,
    p: ToolParamsView,
    ann: Option<String>,
    plan: ToolFnPlan,
)
    requires
        fn_item_attrs(attr) matches Ok(a) && a.description is None,
        plan_ok(plan, fn_item_attrs(attr)->Ok_0, decl, p, ann),
    ensures
        plan.description matches DescriptionSource::Docs(d) && d@ == trimmed(
            joined_lines(kept_doc_lines(views(decl.docs@))),
        ),
{
}

/// A `description` entry is the description, whatever the documentation says.
pub proof fn law_explicit_description_wins(
    attr: Seq<Tok>,
    decl: ToolFnDecl,
    p: ToolParamsView,
    ann: Option<String>,
    plan: ToolFnPlan,
)
    requires
        fn_item_attrs(attr) matches Ok(a) && a.description is Some,
        plan_ok(plan, fn_item_attrs(attr)->Ok_0, decl, p, ann),
    ensures
        plan.description == DescriptionSource::Expr(fn_item_attrs(attr)->Ok_0.description->Some_0),
{
}

/// Without a `name` entry, the name of a tool is the text of the function's
/// identifier.
pub proof fn law_name_from_ident(
    attr: Seq<Tok>,
    decl: ToolFnDecl,
    p: ToolParamsView,
    ann: Option<String>,
    plan: ToolFnPlan,
)
    requires
        fn_item_attrs(attr) matches Ok(a) && a.name is None,
        plan_ok(plan, fn_item_attrs(attr)->Ok_0, decl, p, ann),
    ensures
        plan.name matches NameSource::Ident(n) && n@ == decl.ident@,
{
}

proof fn lemma_typed_grows(ins: Seq<FnInput>, n: int)
    requires
        0 <= n <= ins.len(),
    ensures
        typed_positions(ins.subrange(0, n)).len() <= typed_positions(ins).len(),
    decreases ins.len() - n,
{
    if n < ins.len() {
        lemma_typed_grows(ins, n + 1);
        assert(ins.subrange(0, n + 1).drop_last() =~= ins.subrange(0, n));
    } else {
        assert(ins.subrange(0, n) =~= ins);
    }
}

proof fn lemma_typed_counts(ins: Seq<FnInput>, i: int)
    requires
        0 <= i < ins.len(),
        !ins[i].is_receiver,
    ensures
        typed_positions(ins.subrange(0, i + 1)).len() == typed_positions(ins.subrange(0, i)).len()
            + 1,
{
    assert(ins.subrange(0, i + 1).drop_last() =~= ins.subrange(0, i));
}

/// A function marked `aggr` that has a parameter besides the one that is the
/// whole input is refused.
pub proof fn law_aggregate_stands_alone(ins: Seq<FnInput>, i: int, j: int)
    requires
        0 <= i < j < ins.len(),
        !ins[i].is_receiver,
        !ins[j].is_receiver,
    ensures
        classification(true, ins) matches Err(ClassifyError::MixedParams { .. }),
{
    lemma_typed_counts(ins, i);
    lemma_typed_counts(ins, j);
    lemma_typed_grows(ins.subrange(0, j), i + 1);
    assert(ins.subrange(0, j).subrange(0, i + 1) =~= ins.subrange(0, i + 1));
    lemma_typed_grows(ins, j + 1);
}

/// The schema of a tool's input is that of the one parameter under `aggr`, and
/// otherwise that of a record whose fields are exactly the typed parameters in
/// the order declared (the empty object where there are none).
pub proof fn law_schema_follows_params(
    aggr: bool,
    a: FnItemAttrsView,
    decl: ToolFnDecl,
    ann: Option<String>,
    plan: ToolFnPlan,
)
    requires
        a.aggr == aggr,
        classification(aggr, decl.inputs@) is Ok,
        plan_ok(plan, a, decl, classification(aggr, decl.inputs@)->Ok_0, ann),
    ensures
        aggr && typed_positions(decl.inputs@).len() == 1 ==> plan.schema == SchemaSource::Payload(
            typed_positions(decl.inputs@)[0],
        ),
        !aggr && typed_positions(decl.inputs@).len() > 0 ==> plan.schema is Record
            && plan.schema->fields@ == typed_positions(decl.inputs@),
        typed_positions(decl.inputs@).len() == 0 ==> plan.schema is Empty,
{
}

} // verus!
