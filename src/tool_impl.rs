use vstd::prelude::*;
use crate::token::{Tok, same_text};
use crate::attrs::{AttrError, ImplItemAttrs, impl_item_attrs};
use crate::text::{
    views, doc_description, description_from_docs, accessor_name_of, wrapper_name_of,
    accessor_name, wrapper_name,
};
use crate::tool_fn::DescriptionSource;

verus! {

/// A method of an impl block, as far as the generator reads it.
#[derive(Clone, Debug)]
pub struct ImplMethod {
    pub ident: String,
    /// The path of each of its attributes, where the path is a single identifier.
    pub attr_paths: Vec<Option<String>>,
}

pub ghost struct ImplMethodView {
    pub ident: String,
    pub attr_paths: Seq<Option<String>>,
}

impl View for ImplMethod {
    type V = ImplMethodView;

    open spec fn view(&self) -> ImplMethodView {
        ImplMethodView { ident: self.ident, attr_paths: self.attr_paths@ }
    }
}

/// An impl block marked as a set of tools.
#[derive(Clone, Debug)]
pub struct ToolImplDecl {
    /// Whether it implements a trait.
    pub is_trait: bool,
    /// Whether it has generic parameters.
    pub has_generics: bool,
    /// The text of each documentation line, in order.
    pub docs: Vec<String>,
    pub methods: Vec<ImplMethod>,
}

/// One tool of a router: its identifier and its two generated functions.
#[derive(Clone, Debug)]
pub struct ToolRoute {
    pub ident: String,
    pub accessor: String,
    pub wrapper: String,
}

/// What the generator adds to an impl block of tools.
#[derive(Clone, Debug)]
pub enum ImplPlan {
    /// A trait impl with generics: `call_tool` and `list_tools` forward to the
    /// inherent `call_tool_inner` and `list_tools_inner`.
    ForwardToInner,
    /// A trait impl without generics: the registry derives the handler methods
    /// for this binding.
    DeriveFromRegistry { binding: String },
    /// An inherent impl with generics: a router that matches a requested name
    /// against each tool's name, and a listing of the tools' descriptors, both
    /// in the order of the routes; with the handler interface where
    /// `instructions` is `Some`.
    Router { routes: Vec<ToolRoute>, instructions: Option<DescriptionSource> },
    /// An inherent impl without generics: the registry builds the router and
    /// listing of these tools for this binding; with the handler interface
    /// where `instructions` is `Some`.
    Registry {
        tools: Vec<String>,
        binding: Option<String>,
        instructions: Option<DescriptionSource>,
    },
    /// An inherent impl without `tool_box`: nothing is added.
    Unchanged,
}

/// Why an impl block of tools could not be planned.
#[derive(Clone, Copy, Debug, PartialEq, Eq)]
pub enum ImplError {
    Attr(AttrError),
    /// A trait impl without `tool_box = <ident>`.
    MissingBinding,
}

/// Whether an attribute path is `tool`.
pub open spec fn is_tool_path(o: Option<String>) -> bool {
    match o {
        Some(p) => p@ == "tool"@,
        None => false,
    }
}

/// Whether a method carries the `tool` attribute.
pub open spec fn is_tool_method(m: ImplMethodView) -> bool {
    exists|k: int| 0 <= k < m.attr_paths.len() && is_tool_path(#[trigger] m.attr_paths[k])
}

/// The identifiers of the methods that carry `tool`, in order.
pub open spec fn tool_idents(ms: Seq<ImplMethodView>) -> Seq<String>
    decreases ms.len(),
{
    if ms.len() == 0 {
        seq![]
    } else if is_tool_method(ms.last()) {
        tool_idents(ms.drop_last()).push(ms.last().ident)
    } else {
        tool_idents(ms.drop_last())
    }
}

pub open spec fn method_views(ms: Seq<ImplMethod>) -> Seq<ImplMethodView> {
    ms.map_values(|m: ImplMethod| m@)
}

fn has_tool_attr(m: &ImplMethod) -> (r: bool)
    ensures
        r == is_tool_method(m@),
{
    let mut k: usize = 0;
    while k < m.attr_paths.len()
        invariant
            k <= m.attr_paths@.len(),
            forall|j: int| 0 <= j < k ==> !is_tool_path(#[trigger] m.attr_paths@[j]),
        decreases m.attr_paths@.len() - k,
    {
        match &m.attr_paths[k] {
            Some(p) => {
                if same_text(p, "tool") {
                    assert(is_tool_path(m@.attr_paths[k as int]));
                    return true;
                }
            },
            None => {},
        }
        k = k + 1;
    }
    false
}

/// The identifiers of the methods of `ms` that carry the `tool` attribute, in
/// order.
pub fn collect_tool_idents(ms: &Vec<ImplMethod>) -> (r: Vec<String>)
    ensures
        r@ == tool_idents(method_views(ms@)),
{
    let ghost mv = method_views(ms@);
    let mut r: Vec<String> = Vec::new();
    let mut k: usize = 0;
    while k < ms.len()
        invariant
            k <= ms@.len(),
            mv == method_views(ms@),
            r@ == tool_idents(mv.subrange(0, k as int)),
        decreases ms@.len() - k,
    {
        proof {
            assert(mv.subrange(0, k + 1).drop_last() =~= mv.subrange(0, k as int));
            assert(mv.subrange(0, k + 1).last() == ms@[k as int]@);
        }
        if has_tool_attr(&ms[k]) {
            r.push(ms[k].ident.clone());
        }
        k = k + 1;
    }
    proof {
        assert(mv.subrange(0, ms@.len() as int) =~= mv);
    }
    r
}

/// The routes of the tools `idents`, in order.
pub fn routes_of(idents: &Vec<String>) -> (r: Vec<ToolRoute>)
    ensures
        r@.len() == idents@.len(),
        forall|i: int|
            0 <= i < idents@.len() ==> (#[trigger] r@[i]).ident == idents@[i] && r@[i].accessor@
                == accessor_name_of(idents@[i]@) && r@[i].wrapper@ == wrapper_name_of(
                idents@[i]@,
            ),
{
    let mut r: Vec<ToolRoute> = Vec::new();
    let mut k: usize = 0;
    while k < idents.len()
        invariant
            k <= idents@.len(),
            r@.len() == k,
            forall|i: int|
                0 <= i < k ==> (#[trigger] r@[i]).ident == idents@[i] && r@[i].accessor@
                    == accessor_name_of(idents@[i]@) && r@[i].wrapper@ == wrapper_name_of(
                    idents@[i]@,
                ),
        decreases idents@.len() - k,
    {
        let id = &idents[k];
        r.push(ToolRoute {
            ident: id.clone(),
            accessor: accessor_name(id.as_str()),
            wrapper: wrapper_name(id.as_str()),
        });
        k = k + 1;
    }
    r
}

/// `instr` is the handler's instructions where the handler is built.
pub open spec fn instructions_ok(
    instr: Option<DescriptionSource>,
    a: ImplItemAttrs,
    decl: ToolImplDecl,
) -> bool {
    if a.default_build {
        instr matches Some(d) && match a.description {
            Some(e) => d == DescriptionSource::Expr(e),
            None => d is Docs && d->Docs_0@ == doc_description(views(decl.docs@)),
        }
    } else {
        instr is None
    }
}

/// `plan` is what an impl block with arguments `a` and declaration `decl` turns
/// into.
pub open spec fn impl_plan_ok(plan: ImplPlan, a: ImplItemAttrs, decl: ToolImplDecl) -> bool {
    let tools = tool_idents(method_views(decl.methods@));
    if decl.is_trait {
        if decl.has_generics {
            plan is ForwardToInner
        } else {
            plan == ImplPlan::DeriveFromRegistry { binding: a.tool_box->Some_0->Some_0 }
        }
    } else if a.tool_box is None {
        plan is Unchanged
    } else if decl.has_generics {
        plan matches ImplPlan::Router { routes, instructions } && instructions_ok(
            instructions,
            a,
            decl,
        ) && routes@.len() == tools.len() && forall|i: int|
            0 <= i < tools.len() ==> (#[trigger] routes@[i]).ident == tools[i]
                && routes@[i].accessor@ == accessor_name_of(tools[i]@) && routes@[i].wrapper@
                == wrapper_name_of(tools[i]@)
    } else {
        plan matches ImplPlan::Registry { tools: t, binding, instructions } && t@ == tools
            && binding == a.tool_box->Some_0 && instructions_ok(instructions, a, decl)
    }
}

/// Plans what an impl block marked `tool` with argument tokens `attr` turns
/// into. A trait impl needs `tool_box` with a binding identifier.
pub fn plan_tool_impl(attr: &Vec<Tok>, decl: &ToolImplDecl) -> (r: Result<ImplPlan, ImplError>)
    ensures
        match impl_item_attrs(attr@) {
            Err(x) => r == Err::<ImplPlan, ImplError>(ImplError::Attr(x)),
            Ok(a) => if decl.is_trait && !(a.tool_box matches Some(Some(_))) {
                r == Err::<ImplPlan, ImplError>(ImplError::MissingBinding)
            } else {
                r matches Ok(plan) && impl_plan_ok(plan, a, *decl)
            },
        },
{
    let a = match ImplItemAttrs::parse(attr) {
        Ok(a) => a,
        Err(x) => {
            return Err(ImplError::Attr(x));
        },
    };
    let binding = match &a.tool_box {
        Some(b) => b.clone(),
        None => {
            if decl.is_trait {
                return Err(ImplError::MissingBinding);
            }
            return Ok(ImplPlan::Unchanged);
        },
    };
    if decl.is_trait {
        let named = match binding {
            Some(b) => b,
            None => {
                return Err(ImplError::MissingBinding);
            },
        };
        if decl.has_generics {
            return Ok(ImplPlan::ForwardToInner);
        }
        return Ok(ImplPlan::DeriveFromRegistry { binding: named });
    }
    let instructions = if a.default_build {
        Some(
            match a.description {
                Some(e) => DescriptionSource::Expr(e),
                None => DescriptionSource::Docs(description_from_docs(&decl.docs)),
            },
        )
    } else {
        None
    };
    let tools = collect_tool_idents(&decl.methods);
    if decl.has_generics {
        Ok(ImplPlan::Router { routes: routes_of(&tools), instructions })
    } else {
        Ok(ImplPlan::Registry { tools, binding, instructions })
    }
}

} // verus!
