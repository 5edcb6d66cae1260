use vstd::prelude::*;
use crate::token::{Tok, TokRange};
use crate::attrs::{
    AttrError, Annotation, AnnotationValue, FnItemAttrs, FnItemAttrsView, fn_item_attrs,
};
use crate::classify::{
    ClassifyError, FnInput, ToolParams, ToolParamsView, classification, classify,
    context_positions,
};
use crate::text::{
    views, doc_description, description_from_docs, accessor_name_of, wrapper_name_of,
    accessor_name, wrapper_name, record_type_name, record_name_of,
};

verus! {

/// A function marked as a tool, as far as the generator reads it.
#[derive(Clone, Debug)]
pub struct ToolFnDecl {
    /// The function's identifier.
    pub ident: String,
    pub is_async: bool,
    /// The text of each documentation line, in order.
    pub docs: Vec<String>,
    /// The receiver and the parameters, in order.
    pub inputs: Vec<FnInput>,
}

/// Where a tool's name comes from.
#[derive(Clone, Debug)]
pub enum NameSource {
    /// The expression given as `name`.
    Expr(TokRange),
    /// The function's identifier, as text.
    Ident(String),
}

/// Where a tool's description comes from.
#[derive(Clone, Debug)]
pub enum DescriptionSource {
    /// The expression given as `description`.
    Expr(TokRange),
    /// The text of the documentation comment.
    Docs(String),
}

/// The schema of a tool's input.
#[derive(Clone, Debug)]
pub enum SchemaSource {
    /// The schema of the type of the input at this position.
    Payload(usize),
    /// The schema of a record type of this name, whose fields are the inputs at
    /// these positions, in order.
    Record { record_name: String, fields: Vec<usize> },
    /// The schema of the empty object.
    Empty,
}

/// What the generator emits for one tool function.
#[derive(Clone, Debug)]
pub struct ToolFnPlan {
    pub name: NameSource,
    pub description: DescriptionSource,
    pub schema: SchemaSource,
    /// The annotation table as JSON text, where one was given.
    pub annotations_json: Option<String>,
    /// The tokens of the visibility given for the dispatch function; where
    /// none is given it has the tool function's own visibility.
    pub vis: Option<TokRange>,
    /// The name of the function that returns the descriptor.
    pub accessor: String,
    /// The name of the dispatch function.
    pub wrapper: String,
    /// The inputs taken from the call context one by one, in order, before the
    /// structured input.
    pub context_inputs: Vec<usize>,
    /// How the structured input is taken.
    pub params: ToolParams,
    /// Whether the dispatch function awaits the tool.
    pub awaits: bool,
}

/// Why a tool function could not be planned.
#[derive(Clone, Copy, Debug, PartialEq, Eq)]
pub enum ToolFnError {
    Attr(AttrError),
    Params(ClassifyError),
}

/// The JSON text of an object holding these annotations, a later key
/// overriding an earlier one.
pub uninterp spec fn annotations_json(entries: Seq<Annotation>) -> Seq<char>;

/// Relies on `serde_json::to_string` on a `serde_json::Map` built by inserting
/// the entries in order: the JSON text of that object. With string keys and
/// string or boolean values into a `Vec` writer the call does not fail.
#[verifier::external_body]
fn encode_annotations(entries: &Vec<Annotation>) -> (r: String)
    ensures
        r@ == annotations_json(entries@),
{
    let map: serde_json::Map<String, serde_json::Value> = entries.iter().map(
        |e| match &e.value {
            AnnotationValue::Text(s) => (e.key.clone(), serde_json::Value::String(s.clone())),
            AnnotationValue::Flag(b) => (e.key.clone(), serde_json::Value::Bool(*b)),
        },
    ).collect();
    serde_json::to_string(&map).unwrap_or_default()
}

/// The name of a tool: the given expression, else the function's identifier.
pub open spec fn name_source_ok(n: NameSource, a: FnItemAttrsView, ident: Seq<char>) -> bool {
    match a.name {
        Some(e) => n == NameSource::Expr(e),
        None => n is Ident && n->Ident_0@ == ident,
    }
}

/// The description of a tool: the given expression, else the documentation.
pub open spec fn description_source_ok(
    d: DescriptionSource,
    a: FnItemAttrsView,
    docs: Seq<Seq<char>>,
) -> bool {
    match a.description {
        Some(e) => d == DescriptionSource::Expr(e),
        None => d is Docs && d->Docs_0@ == doc_description(docs),
    }
}

/// The schema of a tool's input, for its classified parameters.
pub open spec fn schema_source_ok(s: SchemaSource, p: ToolParamsView, ident: Seq<char>) -> bool {
    match p {
        ToolParamsView::Aggregated(i) => s == SchemaSource::Payload(i),
        ToolParamsView::Fields(f) => s is Record && s->fields@ == f && s->record_name@ == record_name_of(
            ident,
        ),
        ToolParamsView::NoParam => s is Empty,
    }
}

/// `plan` is what a tool function with arguments `a`, declaration `d`,
/// classified parameters `p` and encoded annotations `ann` turns into.
pub open spec fn plan_ok(
    plan: ToolFnPlan,
    a: FnItemAttrsView,
    d: ToolFnDecl,
    p: ToolParamsView,
    ann: Option<String>,
) -> bool {
    &&& name_source_ok(plan.name, a, d.ident@)
    &&& description_source_ok(plan.description, a, views(d.docs@))
    &&& schema_source_ok(plan.schema, p, d.ident@)
    &&& plan.annotations_json == ann
    &&& plan.vis == a.vis
    &&& plan.accessor@ == accessor_name_of(d.ident@)
    &&& plan.wrapper@ == wrapper_name_of(d.ident@)
    &&& plan.params@ == p
    &&& plan.awaits == d.is_async
    &&& (forall|k: int| 0 <= k < plan.context_inputs@.len() ==> (#[trigger] plan.context_inputs@[k]) < d.inputs@.len() && d.inputs@[plan.context_inputs@[k] as int].is_receiver)
    &&& (forall|j: int, k: int| 0 <= j < k < plan.context_inputs@.len() ==> plan.context_inputs@[j] < plan.context_inputs@[k])
    &&& (forall|i: int| 0 <= i < d.inputs@.len() && (#[trigger] d.inputs@[i]).is_receiver ==> plan.context_inputs@.contains(i as usize))
}

/// Puts together the plan of a tool function from its read arguments, its
/// classified parameters and the JSON text of its annotations.
pub fn assemble_tool_fn(
    attrs: &FnItemAttrs,
    decl: &ToolFnDecl,
    params: ToolParams,
    annotations_json: Option<String>,
) -> (plan: ToolFnPlan)
    ensures
        plan_ok(plan, attrs@, *decl, params@, annotations_json),
{
    let name = match attrs.name {
        Some(e) => NameSource::Expr(e),
        None => NameSource::Ident(decl.ident.clone()),
    };
    let description = match attrs.description {
        Some(e) => DescriptionSource::Expr(e),
        None => DescriptionSource::Docs(description_from_docs(&decl.docs)),
    };
    let schema = match &params {
        ToolParams::Aggregated(i) => SchemaSource::Payload(*i),
        ToolParams::Fields(f) => SchemaSource::Record {
            record_name: record_type_name(decl.ident.as_str()),
            fields: f.clone(),
        },
        ToolParams::NoParam => SchemaSource::Empty,
    };
    ToolFnPlan {
        name,
        description,
        schema,
        annotations_json,
        vis: attrs.vis,
        accessor: accessor_name(decl.ident.as_str()),
        wrapper: wrapper_name(decl.ident.as_str()),
        context_inputs: context_positions(&decl.inputs),
        params,
        awaits: decl.is_async,
    }
}

/// Plans what a function marked `tool` with argument tokens `attr` turns into:
/// its descriptor, its input's schema and its dispatch.
pub fn plan_tool_fn(attr: &Vec<Tok>, decl: &ToolFnDecl) -> (r: Result<ToolFnPlan, ToolFnError>)
    ensures
        match fn_item_attrs(attr@) {
            Err(x) => r == Err::<ToolFnPlan, ToolFnError>(ToolFnError::Attr(x)),
            Ok(a) => match classification(a.aggr, decl.inputs@) {
                Err(x) => r == Err::<ToolFnPlan, ToolFnError>(ToolFnError::Params(x)),
                Ok(p) => r matches Ok(plan) && plan_ok(plan, a, *decl, p, plan.annotations_json)
                    && match a.annotations {
                    Some(t) => plan.annotations_json matches Some(j) && j@ == annotations_json(t),
                    None => plan.annotations_json is None,
                },
            },
        },
{
    let attrs = match FnItemAttrs::parse(attr) {
        Ok(a) => a,
        Err(x) => {
            return Err(ToolFnError::Attr(x));
        },
    };
    let params = match classify(attrs.aggr, &decl.inputs) {
        Ok(p) => p,
        Err(x) => {
            return Err(ToolFnError::Params(x));
        },
    };
    let ann = match &attrs.annotations {
        Some(t) => Some(encode_annotations(t)),
        None => None,
    };
    Ok(assemble_tool_fn(&attrs, decl, params, ann))
}

} // verus!
