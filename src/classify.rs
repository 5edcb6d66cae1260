use vstd::prelude::*;
use crate::token::same_text;

verus! {

/// One input of a tool function: the receiver, or a typed parameter.
#[derive(Clone, Debug)]
pub struct FnInput {
    pub is_receiver: bool,
    /// The identifier that the parameter's pattern binds, where the pattern is
    /// a plain identifier.
    pub ident: Option<String>,
}

/// An attribute on a parameter, as far as classification reads it.
#[derive(Clone, Debug)]
pub struct ParamAttr {
    /// The attribute's path, where it is a single identifier.
    pub path: Option<String>,
    /// Whether the attribute takes a parenthesised list, as `#[serde(..)]` does.
    pub is_list: bool,
}

/// Where an attribute of a parameter goes.
#[derive(Clone, Copy, Debug, PartialEq, Eq)]
pub enum AttrRole {
    /// A `serde(..)` directive, moved onto the generated field.
    Serde,
    /// A `schemars(..)` directive, moved onto the generated field.
    Schemars,
    /// Any other attribute, left on the parameter.
    Keep,
}

/// Where the structured input of a tool comes from.
#[derive(Clone, Debug)]
pub enum ToolParams {
    /// The tool takes no input besides the context values.
    NoParam,
    /// The input at this position is the whole input.
    Aggregated(usize),
    /// The inputs at these positions are the fields of the input, in order.
    Fields(Vec<usize>),
}

pub ghost enum ToolParamsView {
    NoParam,
    Aggregated(usize),
    Fields(Seq<usize>),
}

impl View for ToolParams {
    type V = ToolParamsView;

    open spec fn view(&self) -> ToolParamsView {
        match self {
            ToolParams::NoParam => ToolParamsView::NoParam,
            ToolParams::Aggregated(i) => ToolParamsView::Aggregated(*i),
            ToolParams::Fields(v) => ToolParamsView::Fields(v@),
        }
    }
}

/// Why the parameters of a tool function were refused; `input` is the position
/// of the offending input.
#[derive(Clone, Copy, Debug, PartialEq, Eq)]
pub enum ClassifyError {
    /// A field parameter whose pattern is not a plain identifier.
    MissingIdentifier { input: usize },
    /// A whole-input parameter together with another parameter.
    MixedParams { input: usize },
}

/// Where an attribute with this path and shape goes.
pub open spec fn attr_role_of(a: ParamAttr) -> AttrRole {
    match a.path {
        Some(p) => if a.is_list && p@ == "serde"@ {
            AttrRole::Serde
        } else if a.is_list && p@ == "schemars"@ {
            AttrRole::Schemars
        } else {
            AttrRole::Keep
        },
        None => AttrRole::Keep,
    }
}

/// Where each attribute of a parameter goes, in order.
pub fn attr_roles(attrs: &Vec<ParamAttr>) -> (r: Vec<AttrRole>)
    ensures
        r@.len() == attrs@.len(),
        forall|k: int| 0 <= k < attrs@.len() ==> r@[k] == attr_role_of(#[trigger] attrs@[k]),
{
    let mut r: Vec<AttrRole> = Vec::new();
    let mut k: usize = 0;
    while k < attrs.len()
        invariant
            k <= attrs@.len(),
            r@.len() == k,
            forall|j: int| 0 <= j < k ==> r@[j] == attr_role_of(#[trigger] attrs@[j]),
        decreases attrs@.len() - k,
    {
        let a = &attrs[k];
        let role = match &a.path {
            Some(p) => {
                if a.is_list && same_text(p, "serde") {
                    AttrRole::Serde
                } else if a.is_list && same_text(p, "schemars") {
                    AttrRole::Schemars
                } else {
                    AttrRole::Keep
                }
            },
            None => AttrRole::Keep,
        };
        r.push(role);
        k = k + 1;
    }
    r
}

/// The positions of the typed parameters, in order.
pub open spec fn typed_positions(ins: Seq<FnInput>) -> Seq<usize>
    decreases ins.len(),
{
    if ins.len() == 0 {
        seq![]
    } else if ins.last().is_receiver {
        typed_positions(ins.drop_last())
    } else {
        typed_positions(ins.drop_last()).push((ins.len() - 1) as usize)
    }
}

/// The position of the first typed parameter that binds no identifier.
pub open spec fn first_unnamed(ins: Seq<FnInput>) -> Option<usize>
    decreases ins.len(),
{
    if ins.len() == 0 {
        None
    } else {
        match first_unnamed(ins.drop_last()) {
            Some(i) => Some(i),
            None => if !ins.last().is_receiver && ins.last().ident is None {
                Some((ins.len() - 1) as usize)
            } else {
                None
            },
        }
    }
}

/// How the parameters of a tool function divide. Under `aggr` the one typed
/// parameter is the whole input, and a second one is refused; otherwise each
/// typed parameter is a field and must bind an identifier. The receiver is a
/// context value either way.
pub open spec fn classification(aggr: bool, ins: Seq<FnInput>) -> Result<
    ToolParamsView,
    ClassifyError,
> {
    let t = typed_positions(ins);
    if aggr {
        if t.len() == 0 {
            Ok(ToolParamsView::NoParam)
        } else if t.len() == 1 {
            Ok(ToolParamsView::Aggregated(t[0]))
        } else {
            Err(ClassifyError::MixedParams { input: t[1] })
        }
    } else {
        match first_unnamed(ins) {
            Some(i) => Err(ClassifyError::MissingIdentifier { input: i }),
            None => if t.len() == 0 {
                Ok(ToolParamsView::NoParam)
            } else {
                Ok(ToolParamsView::Fields(t))
            },
        }
    }
}

/// Divides the inputs of a tool function into context values and the tool's
/// structured input.
pub fn classify(aggr: bool, ins: &Vec<FnInput>) -> (r: Result<ToolParams, ClassifyError>)
    ensures
        match r {
            Ok(p) => classification(aggr, ins@) == Ok::<ToolParamsView, ClassifyError>(p@),
            Err(x) => classification(aggr, ins@) == Err::<ToolParamsView, ClassifyError>(x),
        },
{
    let mut typed: Vec<usize> = Vec::new();
    let mut unnamed: Option<usize> = None;
    let mut k: usize = 0;
    while k < ins.len()
        invariant
            k <= ins@.len(),
            typed@ == typed_positions(ins@.subrange(0, k as int)),
            unnamed == first_unnamed(ins@.subrange(0, k as int)),
        decreases ins@.len() - k,
    {
        proof {
            assert(ins@.subrange(0, k + 1).drop_last() =~= ins@.subrange(0, k as int));
        }
        let input = &ins[k];
        if !input.is_receiver {
            typed.push(k);
            if unnamed.is_none() && input.ident.is_none() {
                unnamed = Some(k);
            }
        }
        k = k + 1;
    }
    proof {
        assert(ins@.subrange(0, ins@.len() as int) =~= ins@);
    }
    if aggr {
        if typed.len() == 0 {
            Ok(ToolParams::NoParam)
        } else if typed.len() == 1 {
            Ok(ToolParams::Aggregated(typed[0]))
        } else {
            Err(ClassifyError::MixedParams { input: typed[1] })
        }
    } else {
        match unnamed {
            Some(i) => Err(ClassifyError::MissingIdentifier { input: i }),
            None => {
                if typed.len() == 0 {
                    Ok(ToolParams::NoParam)
                } else {
                    Ok(ToolParams::Fields(typed))
                }
            },
        }
    }
}

/// The positions of the context values: the inputs that are not part of the
/// structured input, in order.
pub fn context_positions(ins: &Vec<FnInput>) -> (r: Vec<usize>)
    ensures
        forall|k: int| 0 <= k < r@.len() ==> (#[trigger] r@[k]) < ins@.len() && ins@[r@[k] as int].is_receiver,
        forall|j: int, k: int| 0 <= j < k < r@.len() ==> r@[j] < r@[k],
        forall|i: int| 0 <= i < ins@.len() && (#[trigger] ins@[i]).is_receiver ==> r@.contains(i as usize),
{
    let mut r: Vec<usize> = Vec::new();
    let mut k: usize = 0;
    while k < ins.len()
        invariant
            k <= ins@.len(),
            forall|j: int| 0 <= j < r@.len() ==> (#[trigger] r@[j]) < k && ins@[r@[j] as int].is_receiver,
            forall|a: int, b: int| 0 <= a < b < r@.len() ==> r@[a] < r@[b],
            forall|i: int| 0 <= i < k && (#[trigger] ins@[i]).is_receiver ==> r@.contains(i as usize),
        decreases ins@.len() - k,
    {
        if ins[k].is_receiver {
            let ghost before = r@;
            r.push(k);
            proof {
                assert forall|i: int| 0 <= i < k && (#[trigger] ins@[i]).is_receiver implies r@.contains(i as usize) by {
                    let w = choose|w: int| 0 <= w < before.len() && before[w] == i as usize;
                    assert(r@[w] == i as usize);
                }
                assert(r@[r@.len() - 1] == k);
            }
        }
        k = k + 1;
    }
    r
}

} // verus!
